//! String validation and formatting utilities.
//!
//! Character classification (white space, control characters) is written out
//! against the fixed Unicode code-point lists, so that blank checks and
//! sanitizing are verified end to end.

use vstd::prelude::*;
use crate::error::SerperError;
use vstd::string::StringSliceAdditionalSpecFns;

verus! {

/// The Unicode `White_Space` code points, as recognized by `char::is_whitespace`.
pub open spec fn spec_is_whitespace(c: char) -> bool {
    let u = c as u32;
    u == 0x09 || u == 0x0A || u == 0x0B || u == 0x0C || u == 0x0D || u == 0x20
        || u == 0x85 || u == 0xA0 || u == 0x1680
        || (0x2000 <= u && u <= 0x200A)
        || u == 0x2028 || u == 0x2029 || u == 0x202F || u == 0x205F || u == 0x3000
}

/// The Unicode control characters (category `Cc`).
pub open spec fn spec_is_control(c: char) -> bool {
    let u = c as u32;
    u <= 0x1F || (0x7F <= u && u <= 0x9F)
}

/// Checks whether a character is Unicode white space.
pub fn is_whitespace_char(c: char) -> (r: bool)
    ensures
        r == spec_is_whitespace(c),
{
    let u = c as u32;
    u == 0x09 || u == 0x0A || u == 0x0B || u == 0x0C || u == 0x0D || u == 0x20
        || u == 0x85 || u == 0xA0 || u == 0x1680
        || (0x2000 <= u && u <= 0x200A)
        || u == 0x2028 || u == 0x2029 || u == 0x202F || u == 0x205F || u == 0x3000
}

/// Checks whether a character is a Unicode control character.
pub fn is_control_char(c: char) -> (r: bool)
    ensures
        r == spec_is_control(c),
{
    let u = c as u32;
    u <= 0x1F || (0x7F <= u && u <= 0x9F)
}

/// A string is blank when every character in it is white space; in
/// particular the empty string is blank.
pub open spec fn spec_is_blank(s: Seq<char>) -> bool {
    forall|i: int| 0 <= i < s.len() ==> spec_is_whitespace(#[trigger] s[i])
}

/// Checks whether a string is empty or consists of white space only.
pub fn is_blank(s: &str) -> (r: bool)
    ensures
        r == spec_is_blank(s@),
{
    let n = s.unicode_len();
    let mut i: usize = 0;
    while i < n
        invariant
            0 <= i <= n,
            n == s@.len(),
            forall|j: int| 0 <= j < i ==> spec_is_whitespace(#[trigger] s@[j]),
        decreases n - i,
    {
        let c = s.get_char(i);
        if !is_whitespace_char(c) {
            return false;
        }
        i += 1;
    }
    true
}

/// Relies on `String::push`: appends the character to the end of the string.
#[verifier::external_body]
pub fn push_char(s: &mut String, c: char)
    ensures
        final(s)@ == old(s)@ + seq![c],
{
    s.push(c);
}

/// The decimal digit characters.
pub open spec fn spec_dec_digit(d: nat) -> char {
    if d == 0 { '0' }
    else if d == 1 { '1' }
    else if d == 2 { '2' }
    else if d == 3 { '3' }
    else if d == 4 { '4' }
    else if d == 5 { '5' }
    else if d == 6 { '6' }
    else if d == 7 { '7' }
    else if d == 8 { '8' }
    else { '9' }
}

/// The usual decimal rendering of a natural number, without leading zeros.
pub open spec fn spec_decimal(n: nat) -> Seq<char>
    decreases n,
{
    if n < 10 {
        seq![spec_dec_digit(n)]
    } else {
        spec_decimal(n / 10) + seq![spec_dec_digit(n % 10)]
    }
}

fn dec_digit_char(d: u64) -> (c: char)
    requires
        d < 10,
    ensures
        c == spec_dec_digit(d as nat),
{
    if d == 0 { '0' }
    else if d == 1 { '1' }
    else if d == 2 { '2' }
    else if d == 3 { '3' }
    else if d == 4 { '4' }
    else if d == 5 { '5' }
    else if d == 6 { '6' }
    else if d == 7 { '7' }
    else if d == 8 { '8' }
    else { '9' }
}

/// Renders a number in decimal.
pub fn decimal_string(n: u64) -> (r: String)
    ensures
        r@ == spec_decimal(n as nat),
    decreases n,
{
    if n < 10 {
        let mut s = String::new();
        push_char(&mut s, dec_digit_char(n));
        assert(s@ =~= spec_decimal(n as nat));
        s
    } else {
        let mut s = decimal_string(n / 10);
        push_char(&mut s, dec_digit_char(n % 10));
        assert(s@ =~= spec_decimal(n as nat));
        s
    }
}

/// Compares two strings character by character.
pub fn str_eq(a: &str, b: &str) -> (r: bool)
    ensures
        r == (a@ == b@),
{
    let na = a.unicode_len();
    let nb = b.unicode_len();
    if na != nb {
        return false;
    }
    let mut i: usize = 0;
    while i < na
        invariant
            0 <= i <= na,
            na == a@.len(),
            na == b@.len(),
            forall|j: int| 0 <= j < i ==> a@[j] == b@[j],
        decreases na - i,
    {
        if a.get_char(i) != b.get_char(i) {
            return false;
        }
        i += 1;
    }
    proof {
        assert(a@ =~= b@);
    }
    true
}

/// Checks whether a string begins with the given prefix.
pub fn str_starts_with(s: &str, prefix: &str) -> (r: bool)
    ensures
        r == (s@.len() >= prefix@.len() && s@.subrange(0, prefix@.len() as int) == prefix@),
{
    let n = s.unicode_len();
    let m = prefix.unicode_len();
    if n < m {
        return false;
    }
    let mut i: usize = 0;
    while i < m
        invariant
            0 <= i <= m,
            m <= n,
            n == s@.len(),
            m == prefix@.len(),
            forall|j: int| 0 <= j < i ==> s@[j] == prefix@[j],
        decreases m - i,
    {
        if s.get_char(i) != prefix.get_char(i) {
            proof {
                assert(s@.subrange(0, m as int)[i as int] != prefix@[i as int]);
            }
            return false;
        }
        i += 1;
    }
    proof {
        assert(s@.subrange(0, m as int) =~= prefix@);
    }
    true
}

/// Validates that a string is not empty after trimming white space.
///
/// Returns a validation error naming the field when the value is blank.
pub fn validate_non_empty(value: &str, field_name: &str) -> (r: Result<(), SerperError>)
    ensures
        r is Ok <==> !spec_is_blank(value@),
        r matches Err(e) ==> e matches SerperError::Validation { message }
            && message@ == field_name@ + " cannot be empty"@,
{
    if is_blank(value) {
        let mut message = field_name.to_owned();
        message.append(" cannot be empty");
        Err(SerperError::Validation { message })
    } else {
        Ok(())
    }
}

/// Validates that a string's byte length lies within the given bounds.
///
/// A violated bound gives a validation error naming the field and the
/// bound; a violated lower bound is reported first.
pub fn validate_length(
    value: &str,
    min_len: Option<usize>,
    max_len: Option<usize>,
    field_name: &str,
) -> (r: Result<(), SerperError>)
    ensures
        r is Ok <==> ((min_len matches Some(m) ==> value.spec_bytes().len() >= m)
            && (max_len matches Some(m) ==> value.spec_bytes().len() <= m)),
        r matches Err(e) ==> e is Validation,
        min_len matches Some(m) ==> (value.spec_bytes().len() < m ==> (r matches Err(e)
            && e matches SerperError::Validation { message }
            && message@ == field_name@ + " must be at least "@ + spec_decimal(m as nat)
                + " characters"@)),
        max_len matches Some(m) ==> (((min_len matches Some(lo)
            ==> value.spec_bytes().len() >= lo) && value.spec_bytes().len() > m) ==> (
        r matches Err(e) && e matches SerperError::Validation { message }
            && message@ == field_name@ + " must be at most "@ + spec_decimal(m as nat)
                + " characters"@)),
{
    let bytes = value.as_bytes();
    let len = bytes.len();
    if let Some(min) = min_len {
        if len < min {
            let mut message = field_name.to_owned();
            message.append(" must be at least ");
            let digits = decimal_string(min as u64);
            message.append(digits.as_str());
            message.append(" characters");
            return Err(SerperError::Validation { message });
        }
    }
    if let Some(max) = max_len {
        if len > max {
            let mut message = field_name.to_owned();
            message.append(" must be at most ");
            let digits = decimal_string(max as u64);
            message.append(digits.as_str());
            message.append(" characters");
            return Err(SerperError::Validation { message });
        }
    }
    Ok(())
}

/// Sanitizing keeps a character when it is not a control character, or when
/// it is white space (so line breaks and tabs survive).
pub open spec fn spec_keeps_when_sanitized(c: char) -> bool {
    !spec_is_control(c) || spec_is_whitespace(c)
}

/// A string with its control characters removed, white space kept.
pub open spec fn spec_sanitized(s: Seq<char>) -> Seq<char>
    decreases s.len(),
{
    if s.len() == 0 {
        Seq::empty()
    } else if spec_keeps_when_sanitized(s.last()) {
        spec_sanitized(s.drop_last()).push(s.last())
    } else {
        spec_sanitized(s.drop_last())
    }
}

/// Removes control characters from a string, keeping white space.
pub fn sanitize(value: &str) -> (r: String)
    ensures
        r@ == spec_sanitized(value@),
{
    let mut out = String::new();
    let n = value.unicode_len();
    let mut i: usize = 0;
    while i < n
        invariant
            0 <= i <= n,
            n == value@.len(),
            out@ == spec_sanitized(value@.take(i as int)),
        decreases n - i,
    {
        let c = value.get_char(i);
        if !is_control_char(c) || is_whitespace_char(c) {
            push_char(&mut out, c);
        }
        proof {
            assert(value@.take(i + 1 as int).drop_last() =~= value@.take(i as int));
            assert(value@.take(i + 1 as int).last() == value@[i as int]);
        }
        i += 1;
    }
    proof {
        assert(value@.take(n as int) =~= value@);
    }
    out
}

/// Shortens a string to at most `max_len` bytes, marking the cut with an
/// ellipsis of three dots. A string within the bound is returned unchanged;
/// with a bound of three bytes or fewer only the dots remain.
pub fn truncate(value: &str, max_len: usize) -> (r: String)
    requires
        (value.spec_bytes().len() > max_len && max_len > 3)
            ==> vstd::utf8::is_char_boundary(value.spec_bytes(), max_len - 3),
    ensures
        value.spec_bytes().len() <= max_len ==> r@ == value@,
        (value.spec_bytes().len() > max_len && max_len <= 3) ==> r@ == "..."@,
        (value.spec_bytes().len() > max_len && max_len > 3) ==> r@ == vstd::utf8::decode_utf8(
            value.spec_bytes().subrange(0, max_len - 3),
        ) + "..."@,
{
    let byte_len = value.as_bytes().len();
    if byte_len <= max_len {
        value.to_owned()
    } else if max_len <= 3 {
        "...".to_owned()
    } else {
        let (head, _) = value.split_at(max_len - 3);
        let mut out = head.to_owned();
        out.append("...");
        proof {
            vstd::utf8::encode_utf8_decode_utf8(head@);
        }
        out
    }
}

} // verus!
