//! The JSON bodies that requests carry: an ordered list of named values and
//! the text it is sent as.
use vstd::prelude::*;
use vstd::string::*;
use crate::decimal::Decimal;
use crate::text::str_eq;

verus! {

/// A value that a request body can hold.
#[derive(Debug, PartialEq, Eq)]
pub enum JsonValue {
    Str(String),
    Uint(u64),
    Number(Decimal),
    StrArray(Vec<String>),
}

/// The mathematical content of a [`JsonValue`].
pub enum JsonValueView {
    Str(Seq<char>),
    Uint(u64),
    Number(Seq<char>),
    StrArray(Seq<Seq<char>>),
}

impl View for JsonValue {
    type V = JsonValueView;

    open spec fn view(&self) -> JsonValueView {
        match self {
            JsonValue::Str(s) => JsonValueView::Str(s@),
            JsonValue::Uint(n) => JsonValueView::Uint(*n),
            JsonValue::Number(d) => JsonValueView::Number(d@),
            JsonValue::StrArray(items) => JsonValueView::StrArray(items.deep_view()),
        }
    }
}

impl DeepView for JsonValue {
    type V = JsonValueView;

    open spec fn deep_view(&self) -> JsonValueView {
        self@
    }
}

/// One member of a JSON object.
#[derive(Debug, PartialEq, Eq)]
pub struct JsonField {
    pub name: String,
    pub value: JsonValue,
}

/// The mathematical content of a [`JsonField`].
pub struct JsonFieldView {
    pub name: Seq<char>,
    pub value: JsonValueView,
}

impl View for JsonField {
    type V = JsonFieldView;

    open spec fn view(&self) -> JsonFieldView {
        JsonFieldView { name: self.name@, value: self.value@ }
    }
}

impl DeepView for JsonField {
    type V = JsonFieldView;

    open spec fn deep_view(&self) -> JsonFieldView {
        self@
    }
}

/// A JSON object whose members keep the order in which they were added.
#[derive(Debug, PartialEq, Eq)]
pub struct JsonBody {
    pub fields: Vec<JsonField>,
}

impl View for JsonBody {
    type V = Seq<JsonFieldView>;

    open spec fn view(&self) -> Seq<JsonFieldView> {
        self.fields.deep_view()
    }
}

impl DeepView for JsonBody {
    type V = Seq<JsonFieldView>;

    open spec fn deep_view(&self) -> Seq<JsonFieldView> {
        self@
    }
}

/// A member whose value is a string.
pub open spec fn str_field(name: Seq<char>, value: Seq<char>) -> JsonFieldView {
    JsonFieldView { name, value: JsonValueView::Str(value) }
}

/// A member that is present only when `value` is.
pub open spec fn optional_field(name: Seq<char>, value: Option<JsonValueView>) -> Seq<
    JsonFieldView,
> {
    match value {
        Some(value) => seq![JsonFieldView { name, value }],
        None => Seq::empty(),
    }
}

/// An optional text as an optional string value.
pub open spec fn optional_str(text: Option<Seq<char>>) -> Option<JsonValueView> {
    match text {
        Some(text) => Some(JsonValueView::Str(text)),
        None => None,
    }
}

/// The JSON string literal, quotes and escapes included, that stands for `s`.
pub uninterp spec fn json_string_text(s: Seq<char>) -> Seq<char>;

/// `serde_json::to_string` applied to a string slice: the slice as a JSON
/// string literal. The contract only names the literal, as a function of the
/// text of the slice; which characters are escaped, and how, is left to
/// `serde_json`. Writing a string into memory has no failing path in the
/// serializer, so the literal is always produced.
#[verifier::external_body]
fn quote(s: &str) -> (res: String)
    ensures
        res@ == json_string_text(s@),
{
    serde_json::to_string(s).unwrap_or_default()
}

/// The character that stands for the digit `d`.
pub open spec fn digit_char(d: nat) -> char {
    if d == 0 {
        '0'
    } else if d == 1 {
        '1'
    } else if d == 2 {
        '2'
    } else if d == 3 {
        '3'
    } else if d == 4 {
        '4'
    } else if d == 5 {
        '5'
    } else if d == 6 {
        '6'
    } else if d == 7 {
        '7'
    } else if d == 8 {
        '8'
    } else {
        '9'
    }
}

/// `n` in base ten, most significant digit first, without leading zeros.
pub open spec fn decimal_text(n: nat) -> Seq<char>
    decreases n,
{
    if n < 10 {
        seq![digit_char(n)]
    } else {
        decimal_text(n / 10).push(digit_char(n % 10))
    }
}

/// The quoted items of an array, separated by commas.
pub open spec fn items_text(items: Seq<Seq<char>>) -> Seq<char>
    decreases items.len(),
{
    if items.len() == 0 {
        Seq::empty()
    } else if items.len() == 1 {
        json_string_text(items[0])
    } else {
        items_text(items.drop_last()) + seq![','] + json_string_text(items.last())
    }
}

/// The text of one value.
pub open spec fn value_text(value: JsonValueView) -> Seq<char> {
    match value {
        JsonValueView::Str(s) => json_string_text(s),
        JsonValueView::Uint(n) => decimal_text(n as nat),
        JsonValueView::Number(text) => text,
        JsonValueView::StrArray(items) => seq!['['] + items_text(items) + seq![']'],
    }
}

/// The text of one member: its quoted name, a colon, its value.
pub open spec fn field_text(field: JsonFieldView) -> Seq<char> {
    json_string_text(field.name) + seq![':'] + value_text(field.value)
}

/// The members of an object, separated by commas.
pub open spec fn fields_text(fields: Seq<JsonFieldView>) -> Seq<char>
    decreases fields.len(),
{
    if fields.len() == 0 {
        Seq::empty()
    } else if fields.len() == 1 {
        field_text(fields[0])
    } else {
        fields_text(fields.drop_last()) + seq![','] + field_text(fields.last())
    }
}

/// The compact text of an object.
pub open spec fn object_text(fields: Seq<JsonFieldView>) -> Seq<char> {
    seq!['{'] + fields_text(fields) + seq!['}']
}

/// The first value stored under `name`, if any.
pub open spec fn field_value(fields: Seq<JsonFieldView>, name: Seq<char>) -> Option<JsonValueView>
    decreases fields.len(),
{
    if fields.len() == 0 {
        None
    } else if fields[0].name == name {
        Some(fields[0].value)
    } else {
        field_value(fields.drop_first(), name)
    }
}

fn digit_str(d: u64) -> (res: &'static str)
    requires
        d < 10,
    ensures
        res@ == seq![digit_char(d as nat)],
{
    proof {
        reveal_strlit("0");
        reveal_strlit("1");
        reveal_strlit("2");
        reveal_strlit("3");
        reveal_strlit("4");
        reveal_strlit("5");
        reveal_strlit("6");
        reveal_strlit("7");
        reveal_strlit("8");
        reveal_strlit("9");
    }
    let res = if d == 0 {
        "0"
    } else if d == 1 {
        "1"
    } else if d == 2 {
        "2"
    } else if d == 3 {
        "3"
    } else if d == 4 {
        "4"
    } else if d == 5 {
        "5"
    } else if d == 6 {
        "6"
    } else if d == 7 {
        "7"
    } else if d == 8 {
        "8"
    } else {
        "9"
    };
    assert(res@ =~= seq![digit_char(d as nat)]);
    res
}

fn append_decimal(out: &mut String, n: u64)
    ensures
        final(out)@ == old(out)@ + decimal_text(n as nat),
    decreases n,
{
    if n >= 10 {
        append_decimal(out, n / 10);
    }
    out.append(digit_str(n % 10));
    assert(out@ =~= old(out)@ + decimal_text(n as nat));
}

fn append_items(out: &mut String, items: &Vec<String>)
    ensures
        final(out)@ == old(out)@ + items_text(items.deep_view()),
{
    let ghost all = items.deep_view();
    let mut i: usize = 0;
    while i < items.len()
        invariant
            i <= items.len(),
            all == items.deep_view(),
            out@ == old(out)@ + items_text(all.take(i as int)),
        decreases items.len() - i,
    {
        if i > 0 {
            proof {
                reveal_strlit(",");
            }
            out.append(",");
        }
        let quoted = quote(items[i].as_str());
        out.append(quoted.as_str());
        proof {
            let next = all.take(i as int + 1);
            assert(next.drop_last() =~= all.take(i as int));
            assert(next.last() == items[i as int]@);
            assert(out@ =~= old(out)@ + items_text(next));
        }
        i = i + 1;
    }
    assert(all.take(i as int) =~= all);
}

fn append_value(out: &mut String, value: &JsonValue)
    ensures
        final(out)@ == old(out)@ + value_text(value@),
{
    match value {
        JsonValue::Str(s) => {
            let quoted = quote(s.as_str());
            out.append(quoted.as_str());
        },
        JsonValue::Uint(n) => {
            append_decimal(out, *n);
        },
        JsonValue::Number(d) => {
            out.append(d.as_str());
        },
        JsonValue::StrArray(items) => {
            proof {
                reveal_strlit("[");
                reveal_strlit("]");
            }
            out.append("[");
            append_items(out, items);
            out.append("]");
            assert(out@ =~= old(out)@ + value_text(value@));
        },
    }
}

fn append_field(out: &mut String, field: &JsonField)
    ensures
        final(out)@ == old(out)@ + field_text(field@),
{
    proof {
        reveal_strlit(":");
    }
    let quoted = quote(field.name.as_str());
    out.append(quoted.as_str());
    out.append(":");
    append_value(out, &field.value);
    assert(out@ =~= old(out)@ + field_text(field@));
}

impl JsonBody {
    /// An object without members.
    pub fn new() -> (res: JsonBody)
        ensures
            res@ == Seq::<JsonFieldView>::empty(),
    {
        let res = JsonBody { fields: Vec::new() };
        assert(res@ =~= Seq::<JsonFieldView>::empty());
        res
    }

    /// Adds a member after those already present.
    pub fn push(&mut self, name: &str, value: JsonValue)
        ensures
            final(self)@ == old(self)@.push(JsonFieldView { name: name@, value: value@ }),
    {
        self.fields.push(JsonField { name: name.to_owned(), value });
        assert(self@ =~= old(self)@.push(JsonFieldView { name: name@, value: value@ }));
    }

    /// Adds a member whose value is the string `value`.
    pub fn push_str(&mut self, name: &str, value: &str)
        ensures
            final(self)@ == old(self)@.push(str_field(name@, value@)),
    {
        self.push(name, JsonValue::Str(value.to_owned()));
    }

    /// Adds a member if there is a value for it.
    pub fn push_optional(&mut self, name: &str, value: Option<JsonValue>)
        ensures
            final(self)@ == old(self)@ + optional_field(name@, value.deep_view()),
    {
        match value {
            Some(value) => {
                self.push(name, value);
                assert(self@ =~= old(self)@ + optional_field(name@, Some(value@)));
            },
            None => {
                assert(self@ =~= old(self)@ + optional_field(name@, None));
            },
        }
    }

    /// Adds a string member if there is a text for it.
    pub fn push_optional_str(&mut self, name: &str, value: Option<&str>)
        ensures
            final(self)@ == old(self)@ + optional_field(name@, optional_str(value.deep_view())),
    {
        let value = match value {
            Some(text) => Some(JsonValue::Str(text.to_owned())),
            None => None,
        };
        self.push_optional(name, value);
    }

    /// The first value stored under `name`.
    pub fn get(&self, name: &str) -> (res: Option<&JsonValue>)
        ensures
            res.deep_view() == field_value(self@, name@),
    {
        let ghost all = self@;
        let mut i: usize = 0;
        assert(all.skip(0) =~= all);
        while i < self.fields.len()
            invariant
                i <= self.fields.len(),
                all == self@,
                field_value(all, name@) == field_value(all.skip(i as int), name@),
            decreases self.fields.len() - i,
        {
            if str_eq(self.fields[i].name.as_str(), name) {
                assert(all.skip(i as int)[0] == self.fields[i as int]@);
                return Some(&self.fields[i].value);
            }
            proof {
                assert(all.skip(i as int)[0] == self.fields[i as int]@);
                assert(all.skip(i as int).drop_first() =~= all.skip(i as int + 1));
            }
            i = i + 1;
        }
        assert(all.skip(i as int).len() == 0);
        None
    }

    /// The compact JSON text of the object, members in order.
    pub fn to_text(&self) -> (res: String)
        ensures
            res@ == object_text(self@),
    {
        proof {
            reveal_strlit("{");
            reveal_strlit("}");
            reveal_strlit(",");
        }
        let ghost all = self@;
        let mut out = "{".to_owned();
        let mut i: usize = 0;
        while i < self.fields.len()
            invariant
                i <= self.fields.len(),
                all == self@,
                ","@ == seq![','],
                out@ == seq!['{'] + fields_text(all.take(i as int)),
            decreases self.fields.len() - i,
        {
            if i > 0 {
                out.append(",");
            }
            append_field(&mut out, &self.fields[i]);
            proof {
                let next = all.take(i as int + 1);
                assert(next.drop_last() =~= all.take(i as int));
                assert(next.last() == self.fields[i as int]@);
                assert(out@ =~= seq!['{'] + fields_text(next));
            }
            i = i + 1;
        }
        assert(all.take(i as int) =~= all);
        out.append("}");
        out
    }
}

} // verus!
