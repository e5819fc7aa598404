//! Decimal literals: the textual form in which fractional options travel.
use vstd::prelude::*;
use vstd::string::*;

verus! {

/// Whether `c` is one of the ten ASCII digits.
pub open spec fn is_digit(c: char) -> bool {
    48 <= c as u32 && c as u32 <= 57
}

/// The first position at or after `from` that does not hold a digit.
pub open spec fn digits_end(s: Seq<char>, from: int) -> int
    decreases s.len() - from,
{
    if 0 <= from < s.len() && is_digit(s[from]) {
        digits_end(s, from + 1)
    } else {
        from
    }
}

/// Where the integer part of a literal starts: after an optional minus sign.
pub open spec fn sign_end(s: Seq<char>) -> int {
    if s.len() > 0 && s[0] == '-' {
        1
    } else {
        0
    }
}

/// The grammar of a decimal literal: an optional `-`, an integer part without
/// superfluous leading zeros, and optionally a `.` followed by at least one
/// digit. Every such text is also a JSON number.
pub open spec fn is_decimal(s: Seq<char>) -> bool {
    let start = sign_end(s);
    let int_end = digits_end(s, start);
    &&& start < int_end
    &&& (s[start] == '0' ==> int_end == start + 1)
    &&& (int_end == s.len() || {
        &&& s[int_end] == '.'
        &&& int_end + 1 < digits_end(s, int_end + 1)
        &&& digits_end(s, int_end + 1) == s.len()
    })
}

/// A number written as a decimal literal, such as `0.25` or `-3`.
#[derive(Debug, PartialEq, Eq)]
pub struct Decimal {
    text: String,
}

impl View for Decimal {
    type V = Seq<char>;

    closed spec fn view(&self) -> Seq<char> {
        self.text@
    }
}

impl DeepView for Decimal {
    type V = Seq<char>;

    open spec fn deep_view(&self) -> Seq<char> {
        self@
    }
}

fn is_digit_char(c: char) -> (res: bool)
    ensures
        res == is_digit(c),
{
    let n: u32 = c as u32;
    48 <= n && n <= 57
}

fn scan_digits(text: &str, len: usize, from: usize) -> (end: usize)
    requires
        len == text@.len(),
        from <= len,
    ensures
        end == digits_end(text@, from as int),
        from <= end <= len,
{
    let mut i: usize = from;
    while i < len
        invariant
            len == text@.len(),
            from <= i <= len,
            digits_end(text@, from as int) == digits_end(text@, i as int),
        decreases len - i,
    {
        if !is_digit_char(text.get_char(i)) {
            return i;
        }
        i = i + 1;
    }
    i
}

impl Decimal {
    #[verifier::type_invariant]
    spec fn well_formed(self) -> bool {
        is_decimal(self.text@)
    }

    /// Accepts exactly the texts that are decimal literals.
    pub fn parse(text: &str) -> (res: Option<Decimal>)
        ensures
            res is Some <==> is_decimal(text@),
            res matches Some(d) ==> d@ == text@,
    {
        let len: usize = text.unicode_len();
        let start: usize = if len > 0 && text.get_char(0) == '-' {
            1
        } else {
            0
        };
        let int_end: usize = scan_digits(text, len, start);
        if int_end == start {
            return None;
        }
        if text.get_char(start) == '0' && int_end != start + 1 {
            return None;
        }
        if int_end == len {
            return Some(Decimal { text: text.to_owned() });
        }
        if text.get_char(int_end) != '.' {
            return None;
        }
        let frac_end: usize = scan_digits(text, len, int_end + 1);
        if frac_end == len && frac_end > int_end + 1 {
            Some(Decimal { text: text.to_owned() })
        } else {
            None
        }
    }

    /// The literal itself.
    pub fn as_str(&self) -> (res: &str)
        ensures
            res@ == self@,
            is_decimal(res@),
    {
        proof {
            use_type_invariant(self);
        }
        self.text.as_str()
    }
}

impl Clone for Decimal {
    fn clone(&self) -> (res: Self)
        ensures
            res@ == self@,
    {
        proof {
            use_type_invariant(self);
        }
        Decimal { text: self.text.clone() }
    }
}

} // verus!
