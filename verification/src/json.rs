//! A plain model of JSON values, the trusted boundary to the JSON parser,
//! and verified framing of JSON text.
//!
//! Parsing itself is done by `serde_json`; the parsed tree is rewritten, one
//! variant for one variant, into [`JsonValue`], which holds nothing but plain
//! values and which all verified decoding logic works on. Serializing — the
//! framing of request bodies — is done by verified code in this crate.

use vstd::prelude::*;
use crate::utils::string::{spec_decimal, spec_dec_digit, decimal_string, push_char};

verus! {

/// A JSON document as plain data.
///
/// Numbers keep their integer value where they have one; any other number
/// (a fraction or an exponent form, or an integer beyond 64 bits) keeps the
/// parser's decimal rendering of the `f64` it was read as — the shortest
/// text that round-trips, so `1.50` arrives as `1.5`. An object holds its
/// fields as a list of pairs; for a parsed document they arrive in the
/// order the parser's map yields them, which is sorted by field name.
#[derive(Debug, PartialEq)]
pub enum JsonValue {
    /// The JSON `null`.
    Null,
    /// A JSON boolean.
    Bool(bool),
    /// A non-negative integer number.
    NumU64(u64),
    /// A negative integer number.
    NumI64(i64),
    /// Any other number, kept as the parser's decimal rendering of it.
    NumText(String),
    /// A JSON string.
    Text(String),
    /// A JSON array.
    Arr(Vec<JsonValue>),
    /// A JSON object, as a list of named fields.
    Obj(Vec<(String, JsonValue)>),
}

#[verifier::external_type_specification]
#[verifier::external_body]
pub struct ExValue(serde_json::Value);

/// What `serde_json::from_str::<serde_json::Value>` gives on a text, written
/// as a [`JsonValue`]: `None` when the text is not valid JSON. The result is
/// a function of the text alone.
pub uninterp spec fn spec_json_parse(s: Seq<char>) -> Option<JsonValue>;

/// Relies on `serde_json::Value`: rewrites a parsed JSON tree into the
/// library's model, one arm for one variant, moving the fields. A number
/// becomes its `u64` or `i64` value where it has one, else the shortest
/// decimal rendering of the `f64` the parser read it as.
#[verifier::external_body]
fn model_of_value(v: serde_json::Value) -> JsonValue {
    match v {
        serde_json::Value::Null => JsonValue::Null,
        serde_json::Value::Bool(b) => JsonValue::Bool(b),
        serde_json::Value::Number(n) => match (n.as_u64(), n.as_i64()) {
            (Some(u), _) => JsonValue::NumU64(u),
            (None, Some(i)) => JsonValue::NumI64(i),
            (None, None) => JsonValue::NumText(n.to_string()),
        },
        serde_json::Value::String(s) => JsonValue::Text(s),
        serde_json::Value::Array(a) => JsonValue::Arr(a.into_iter().map(model_of_value).collect()),
        serde_json::Value::Object(o) => JsonValue::Obj(
            o.into_iter().map(|(k, w)| (k, model_of_value(w))).collect(),
        ),
    }
}

/// Relies on `serde_json::from_str::<serde_json::Value>`: returns the parsed
/// document exactly when the text is valid JSON, else the parser's error
/// message. `model_of_value` rewrites the tree into the library's model.
#[verifier::external_body]
pub(crate) fn parse_json(s: &str) -> (r: Result<JsonValue, String>)
    ensures
        r is Ok <==> spec_json_parse(s@) is Some,
        r matches Ok(v) ==> spec_json_parse(s@) == Some(v),
{
    match serde_json::from_str::<serde_json::Value>(s) {
        Ok(v) => Ok(model_of_value(v)),
        Err(e) => Err(format!("{}", e)),
    }
}

/// The value of the first field with the given name, if any.
pub open spec fn spec_first_val(pairs: Seq<(String, JsonValue)>, key: Seq<char>) -> Option<JsonValue>
    decreases pairs.len(),
{
    if pairs.len() == 0 {
        None
    } else if pairs[0].0@ == key {
        Some(pairs[0].1)
    } else {
        spec_first_val(pairs.drop_first(), key)
    }
}

/// The fields left after taking out the first field with the given name.
pub open spec fn spec_remove_first(pairs: Seq<(String, JsonValue)>, key: Seq<char>) -> Seq<(String, JsonValue)>
    decreases pairs.len(),
{
    if pairs.len() == 0 {
        pairs
    } else if pairs[0].0@ == key {
        pairs.drop_first()
    } else {
        seq![pairs[0]] + spec_remove_first(pairs.drop_first(), key)
    }
}

/// Lookup and removal pass over a prefix that holds no field of the name.
pub proof fn lemma_first_val_skip(pairs: Seq<(String, JsonValue)>, key: Seq<char>, i: int)
    requires
        0 <= i <= pairs.len(),
        forall|j: int| 0 <= j < i ==> (#[trigger] pairs[j]).0@ != key,
    ensures
        spec_first_val(pairs, key) == spec_first_val(pairs.skip(i), key),
        spec_remove_first(pairs, key) =~= pairs.take(i) + spec_remove_first(pairs.skip(i), key),
    decreases i,
{
    if i > 0 {
        lemma_first_val_skip(pairs, key, i - 1);
        assert(pairs.skip(i - 1).len() == pairs.len() - (i - 1));
        assert(pairs.skip(i - 1)[0] == pairs[i - 1]);
        assert(pairs[i - 1].0@ != key);
        assert(pairs.skip(i - 1).drop_first() =~= pairs.skip(i));
        assert(spec_remove_first(pairs.skip(i - 1), key) =~= seq![pairs[i - 1]]
            + spec_remove_first(pairs.skip(i), key));
        assert(pairs.take(i) =~= pairs.take(i - 1) + seq![pairs[i - 1]]);
    } else {
        assert(pairs.skip(0) =~= pairs);
        assert(pairs.take(0) =~= Seq::<(String, JsonValue)>::empty());
    }
}

/// Removing one field does not change the first value of another name.
pub proof fn lemma_remove_first_other(pairs: Seq<(String, JsonValue)>, removed: Seq<char>, key: Seq<char>)
    requires
        removed != key,
    ensures
        spec_first_val(spec_remove_first(pairs, removed), key) == spec_first_val(pairs, key),
    decreases pairs.len(),
{
    if pairs.len() > 0 {
        if pairs[0].0@ == removed {
            assert(pairs[0].0@ != key);
        } else {
            lemma_remove_first_other(pairs.drop_first(), removed, key);
            let rest = spec_remove_first(pairs.drop_first(), removed);
            assert(spec_remove_first(pairs, removed) =~= seq![pairs[0]] + rest);
            assert((seq![pairs[0]] + rest)[0] == pairs[0]);
            assert((seq![pairs[0]] + rest).drop_first() =~= rest);
        }
    }
}

/// Takes the first field with the given name out of the object's fields,
/// returning its value; the other fields keep their order.
pub fn take_first(pairs: &mut Vec<(String, JsonValue)>, key: &str) -> (r: Option<JsonValue>)
    ensures
        r == spec_first_val(old(pairs)@, key@),
        final(pairs)@ == spec_remove_first(old(pairs)@, key@),
{
    let n = pairs.len();
    let mut i: usize = 0;
    while i < n
        invariant
            0 <= i <= n,
            pairs@ == old(pairs)@,
            n == pairs@.len(),
            forall|j: int| 0 <= j < i ==> (#[trigger] pairs@[j]).0@ != key@,
        decreases n - i,
    {
        if crate::utils::string::str_eq(pairs[i].0.as_str(), key) {
            proof {
                lemma_first_val_skip(pairs@, key@, i as int);
                assert(pairs@.skip(i as int)[0] == pairs@[i as int]);
                assert(pairs@.skip(i as int).drop_first() =~= pairs@.skip(i + 1));
                assert(spec_first_val(pairs@, key@) == Some(pairs@[i as int].1));
                assert(spec_remove_first(pairs@, key@) =~= pairs@.take(i as int) + pairs@.skip(i + 1));
            }
            let p = pairs.remove(i);
            proof {
                assert(pairs@ =~= old(pairs)@.take(i as int) + old(pairs)@.skip(i + 1));
            }
            return Some(p.1);
        }
        i += 1;
    }
    proof {
        lemma_first_val_skip(pairs@, key@, n as int);
        assert(pairs@.skip(n as int) =~= Seq::<(String, JsonValue)>::empty());
        assert(pairs@.take(n as int) =~= pairs@);
    }
    None
}

/// The hexadecimal digit characters, lower case.
pub open spec fn spec_hex_digit(d: nat) -> char {
    if d == 10 { 'a' }
    else if d == 11 { 'b' }
    else if d == 12 { 'c' }
    else if d == 13 { 'd' }
    else if d == 14 { 'e' }
    else if d == 15 { 'f' }
    else { spec_dec_digit(d) }
}

/// How one character is written inside a JSON string literal: quotes and
/// backslashes get a backslash, the named control characters their short
/// escapes, other control characters a four-digit escape, and everything
/// else stands as it is.
pub open spec fn spec_escape_char(c: char) -> Seq<char> {
    if c == '"' { seq!['\\', '"'] }
    else if c == '\\' { seq!['\\', '\\'] }
    else if c == '\u{8}' { seq!['\\', 'b'] }
    else if c == '\u{9}' { seq!['\\', 't'] }
    else if c == '\u{A}' { seq!['\\', 'n'] }
    else if c == '\u{C}' { seq!['\\', 'f'] }
    else if c == '\u{D}' { seq!['\\', 'r'] }
    else if (c as u32) < 0x20 {
        seq!['\\', 'u', '0', '0', spec_hex_digit((c as u32 / 16) as nat), spec_hex_digit((c as u32 % 16) as nat)]
    } else {
        seq![c]
    }
}

/// A whole string escaped for use inside a JSON string literal.
pub open spec fn spec_escape(s: Seq<char>) -> Seq<char>
    decreases s.len(),
{
    if s.len() == 0 {
        Seq::empty()
    } else {
        spec_escape_char(s[0]) + spec_escape(s.drop_first())
    }
}

/// Escaping a string one character longer appends that character's escape.
pub proof fn lemma_escape_push(s: Seq<char>, c: char)
    ensures
        spec_escape(s.push(c)) =~= spec_escape(s) + spec_escape_char(c),
    decreases s.len(),
{
    assert(s.push(c)[s.len() as int] == c);
    if s.len() == 0 {
        assert(s.push(c).drop_first() =~= Seq::<char>::empty());
        assert(spec_escape(Seq::<char>::empty()) =~= Seq::<char>::empty());
    } else {
        assert(s.push(c)[0] == s[0]);
        assert(s.push(c).drop_first() =~= s.drop_first().push(c));
        lemma_escape_push(s.drop_first(), c);
    }
}

fn hex_digit_char(d: u32) -> (c: char)
    requires
        d < 16,
    ensures
        c == spec_hex_digit(d as nat),
{
    if d == 10 { 'a' }
    else if d == 11 { 'b' }
    else if d == 12 { 'c' }
    else if d == 13 { 'd' }
    else if d == 14 { 'e' }
    else if d == 15 { 'f' }
    else if d == 0 { '0' }
    else if d == 1 { '1' }
    else if d == 2 { '2' }
    else if d == 3 { '3' }
    else if d == 4 { '4' }
    else if d == 5 { '5' }
    else if d == 6 { '6' }
    else if d == 7 { '7' }
    else if d == 8 { '8' }
    else { '9' }
}

fn push_escaped_char(out: &mut String, c: char)
    ensures
        final(out)@ == old(out)@ + spec_escape_char(c),
{
    if c == '"' {
        push_char(out, '\\');
        push_char(out, '"');
    } else if c == '\\' {
        push_char(out, '\\');
        push_char(out, '\\');
    } else if c == '\u{8}' {
        push_char(out, '\\');
        push_char(out, 'b');
    } else if c == '\u{9}' {
        push_char(out, '\\');
        push_char(out, 't');
    } else if c == '\u{A}' {
        push_char(out, '\\');
        push_char(out, 'n');
    } else if c == '\u{C}' {
        push_char(out, '\\');
        push_char(out, 'f');
    } else if c == '\u{D}' {
        push_char(out, '\\');
        push_char(out, 'r');
    } else {
        let u = c as u32;
        if u < 0x20 {
            push_char(out, '\\');
            push_char(out, 'u');
            push_char(out, '0');
            push_char(out, '0');
            push_char(out, hex_digit_char(u / 16));
            push_char(out, hex_digit_char(u % 16));
        } else {
            push_char(out, c);
        }
    }
    assert(final(out)@ =~= old(out)@ + spec_escape_char(c));
}

/// Appends a string to the output, escaped for a JSON string literal.
pub fn append_escaped(out: &mut String, s: &str)
    ensures
        final(out)@ == old(out)@ + spec_escape(s@),
{
    let n = s.unicode_len();
    let mut i: usize = 0;
    while i < n
        invariant
            0 <= i <= n,
            n == s@.len(),
            out@ == old(out)@ + spec_escape(s@.take(i as int)),
        decreases n - i,
    {
        let c = s.get_char(i);
        push_escaped_char(out, c);
        proof {
            lemma_escape_push(s@.take(i as int), c);
            assert(s@.take(i + 1 as int) =~= s@.take(i as int).push(s@[i as int]));
        }
        i += 1;
    }
    proof {
        assert(s@.take(n as int) =~= s@);
    }
}

/// The decimal text of a number value: integers render without leading
/// zeros, a negative integer with a leading minus, any other number keeps
/// the rendering it arrived with. `None` for everything that is not a
/// number.
pub open spec fn spec_number_text(v: JsonValue) -> Option<Seq<char>> {
    match v {
        JsonValue::NumU64(u) => Some(spec_decimal(u as nat)),
        JsonValue::NumI64(i) => if i < 0 {
            Some(seq!['-'] + spec_decimal((-(i as int)) as nat))
        } else {
            Some(spec_decimal(i as nat))
        },
        JsonValue::NumText(t) => Some(t@),
        _ => None,
    }
}

/// Renders a number value as its decimal text.
pub fn number_text(v: JsonValue) -> (r: Option<String>)
    ensures
        r is Some <==> spec_number_text(v) is Some,
        r matches Some(t) ==> Some(t@) == spec_number_text(v),
{
    match v {
        JsonValue::NumU64(u) => Some(decimal_string(u)),
        JsonValue::NumI64(i) => {
            if i < 0 {
                let magnitude = ((-(i as i128)) as u64);
                let mut s = String::new();
                push_char(&mut s, '-');
                let digits = decimal_string(magnitude);
                s.append(digits.as_str());
                assert(s@ =~= seq!['-'] + spec_decimal(magnitude as nat));
                Some(s)
            } else {
                Some(decimal_string(i as u64))
            }
        },
        JsonValue::NumText(t) => Some(t),
        _ => None,
    }
}

} // verus!
