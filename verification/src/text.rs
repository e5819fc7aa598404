//! Small operations on text.
use vstd::prelude::*;
use vstd::string::*;

verus! {

/// Whether two string slices hold the same text.
pub fn str_eq(a: &str, b: &str) -> (res: bool)
    ensures
        res == (a@ == b@),
{
    let x = a.to_owned();
    let y = b.to_owned();
    x == y
}

/// `first` followed by `second`.
pub fn join(first: &str, second: &str) -> (res: String)
    ensures
        res@ == first@ + second@,
{
    let mut out = first.to_owned();
    out.append(second);
    out
}

} // verus!
