//! JSON, as `serde_json` reads and writes it.
use vstd::prelude::*;

verus! {

/// A JSON number.
pub enum JsonNumber {
    /// An integer that a `u64` can hold.
    Unsigned(u64),
    /// A negative integer that an `i64` can hold.
    Negative(i64),
    /// Any other number, by the bits of the double-precision number that stands for it.
    Real(u64),
}

/// A JSON value.
pub enum Json {
    Null,
    Bool(bool),
    Number(JsonNumber),
    Text(Seq<char>),
    Array(Seq<Json>),
    Object(Map<Seq<char>, Json>),
}

/// `serde_json::Value`, carried through as it is.
#[verifier::external_type_specification]
#[verifier::external_body]
pub struct ExValue(serde_json::Value);

/// `serde_json::Error`, which says nothing but that there is no value.
#[verifier::external_type_specification]
#[verifier::external_body]
pub struct ExError(serde_json::Error);

/// What a `serde_json::Value` holds.
pub uninterp spec fn json_of(value: serde_json::Value) -> Json;

/// What `serde_json::from_str` reads out of a text, or `None` if it refuses the text.
pub uninterp spec fn json_in(text: Seq<char>) -> Option<Json>;

/// The member of `json` called `key`. Only objects have members.
pub open spec fn member(json: Json, key: Seq<char>) -> Option<Json> {
    match json {
        Json::Object(members) => if members.contains_key(key) {
            Some(members[key])
        } else {
            None
        },
        _ => None,
    }
}

/// `serde_json::from_str`, asked for a `Value`: what it reads, or its error, depends on the text
/// alone.
#[verifier::external_body]
pub(crate) fn value_from_str(text: &str) -> (value: Result<serde_json::Value, serde_json::Error>)
    ensures
        match value {
            Ok(v) => json_in(text@) == Some(json_of(v)),
            Err(_) => json_in(text@) is None,
        },
{
    serde_json::from_str(text)
}

/// `serde_json::Value::get`, with a text for an index: the member of that name if the value is an
/// object that has one, and otherwise nothing.
#[verifier::external_body]
pub(crate) fn value_get<'a>(value: &'a serde_json::Value, key: &str) -> (found: Option<
    &'a serde_json::Value,
>)
    ensures
        member(json_of(*value), key@) == (match found {
            Some(v) => Some(json_of(*v)),
            None => None,
        }),
{
    value.get(key)
}

/// `serde_json::Value::as_str`: the text, if the value is one, and otherwise nothing.
#[verifier::external_body]
pub(crate) fn value_as_str(value: &serde_json::Value) -> (text: Option<&str>)
    ensures
        match json_of(*value) {
            Json::Text(s) => text matches Some(t) && t@ == s,
            _ => text is None,
        },
{
    value.as_str()
}

/// `serde_json::Value::as_u64`: the number, if the value is an integer that a `u64` can hold, and
/// otherwise nothing.
#[verifier::external_body]
pub(crate) fn value_as_u64(value: &serde_json::Value) -> (number: Option<u64>)
    ensures
        number == (match json_of(*value) {
            Json::Number(JsonNumber::Unsigned(n)) => Some(n),
            _ => None,
        }),
{
    value.as_u64()
}

/// `to_owned` of a `serde_json::Value`, which clones it: the same value once more.
#[verifier::external_body]
pub(crate) fn value_to_owned(value: &serde_json::Value) -> (copy: serde_json::Value)
    ensures
        copy == *value,
{
    value.to_owned()
}

/// The hexadecimal digit, a small letter from ten on, that stands for `d`.
pub open spec fn hex_digit(d: int) -> char {
    if d < 10 {
        (48 + d) as char
    } else {
        (87 + d) as char
    }
}

/// How `c` is written inside a JSON string.
pub open spec fn escaped(c: char) -> Seq<char> {
    if c == '"' {
        seq!['\\', '"']
    } else if c == '\\' {
        seq!['\\', '\\']
    } else if c == '\u{8}' {
        seq!['\\', 'b']
    } else if c == '\t' {
        seq!['\\', 't']
    } else if c == '\n' {
        seq!['\\', 'n']
    } else if c == '\u{c}' {
        seq!['\\', 'f']
    } else if c == '\r' {
        seq!['\\', 'r']
    } else if (c as int) < 32 {
        seq!['\\', 'u', '0', '0', hex_digit(c as int / 16), hex_digit(c as int % 16)]
    } else {
        seq![c]
    }
}

/// How the characters of `s` are written inside a JSON string.
pub open spec fn all_escaped(s: Seq<char>) -> Seq<char>
    decreases s.len(),
{
    if s.len() == 0 {
        Seq::empty()
    } else {
        escaped(s[0]) + all_escaped(s.drop_first())
    }
}

/// `s` written as a JSON string.
pub open spec fn quoted(s: Seq<char>) -> Seq<char> {
    seq!['"'] + all_escaped(s) + seq!['"']
}

/// `serde_json::to_string` of a text: the JSON string that stands for it. Quotation marks,
/// backslashes and control characters are escaped, every other character is written as it is.
#[verifier::external_body]
pub(crate) fn json_string(text: &str) -> (json: String)
    ensures
        json@ == quoted(text@),
{
    serde_json::to_string(text).unwrap()
}

/// Different texts are written as different JSON strings, even if something follows them: what
/// was written can be told from the string, and where it ends.
pub proof fn law_quoted_can_be_told(a: Seq<char>, b: Seq<char>, after_a: Seq<char>, after_b: Seq<char>)
    requires
        quoted(a) + after_a == quoted(b) + after_b,
    ensures
        a == b,
        after_a == after_b,
{
    let left = all_escaped(a) + (seq!['"'] + after_a);
    let right = all_escaped(b) + (seq!['"'] + after_b);
    assert((quoted(a) + after_a).drop_first() == left);
    assert((quoted(b) + after_b).drop_first() == right);
    lemma_escaped_can_be_told(a, b, after_a, after_b);
}

/// The same, behind the opening quotation mark.
proof fn lemma_escaped_can_be_told(
    a: Seq<char>,
    b: Seq<char>,
    after_a: Seq<char>,
    after_b: Seq<char>,
)
    requires
        all_escaped(a) + (seq!['"'] + after_a) == all_escaped(b) + (seq!['"'] + after_b),
    ensures
        a == b,
        after_a == after_b,
    decreases a.len(),
{
    let left = all_escaped(a) + (seq!['"'] + after_a);
    let right = all_escaped(b) + (seq!['"'] + after_b);
    if a.len() == 0 && b.len() == 0 {
        assert(left.drop_first() == after_a);
        assert(right.drop_first() == after_b);
    } else if a.len() == 0 {
        assert(left[0] == '"');
        assert(right[0] == escaped(b[0])[0]);
    } else if b.len() == 0 {
        assert(right[0] == '"');
        assert(left[0] == escaped(a[0])[0]);
    } else {
        let rest_a = all_escaped(a.drop_first()) + (seq!['"'] + after_a);
        let rest_b = all_escaped(b.drop_first()) + (seq!['"'] + after_b);
        assert(left == escaped(a[0]) + rest_a);
        assert(right == escaped(b[0]) + rest_b);
        lemma_escaped_char(a[0], b[0], rest_a, rest_b);
        assert(left.skip(escaped(a[0]).len() as int) == rest_a);
        assert(right.skip(escaped(b[0]).len() as int) == rest_b);
        lemma_escaped_can_be_told(a.drop_first(), b.drop_first(), after_a, after_b);
        assert(a == seq![a[0]] + a.drop_first());
        assert(b == seq![b[0]] + b.drop_first());
    }
}

/// A character can be told from how it is written, even if something follows it.
proof fn lemma_escaped_char(c: char, d: char, after_c: Seq<char>, after_d: Seq<char>)
    requires
        escaped(c) + after_c == escaped(d) + after_d,
    ensures
        c == d,
{
    let left = escaped(c) + after_c;
    let right = escaped(d) + after_d;
    assert(left[0] == escaped(c)[0]);
    assert(right[0] == escaped(d)[0]);
    if escaped(c).len() > 1 {
        assert(left[1] == escaped(c)[1]);
    }
    if escaped(d).len() > 1 {
        assert(right[1] == escaped(d)[1]);
    }
    if escaped(c).len() == 6 && escaped(d).len() == 6 {
        assert(left[4] == escaped(c)[4] && left[5] == escaped(c)[5]);
        assert(right[4] == escaped(d)[4] && right[5] == escaped(d)[5]);
    }
}

} // verus!
