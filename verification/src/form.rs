//! Parsing of the `application/x-www-form-urlencoded` subscription form:
//! `name` and `email` fields, `+` for space and `%`-escapes for reserved
//! bytes, over the body's UTF-8 bytes. Each decoded component is read back
//! as UTF-8 text, so names and addresses beyond ASCII arrive intact,
//! whether sent raw or percent-encoded; only a component whose decoded
//! bytes are not valid UTF-8 is refused.

use vstd::prelude::*;

use crate::subscriptions::FormData;

verus! {

use vstd::string::StrSliceExecFns;
use vstd::utf8::{decode_utf8, encode_utf8, valid_utf8};

/// The byte of an ampersand, separating segments.
pub const AMPERSAND: u8 = 0x26;

/// The byte of an equals sign, separating key and value.
pub const EQUALS: u8 = 0x3d;

/// The byte of a plus sign, standing for a space.
pub const PLUS: u8 = 0x2b;

/// The byte of a percent sign, opening an escape.
pub const PERCENT: u8 = 0x25;

/// A byte spelling a hexadecimal digit, either case.
pub open spec fn is_hex_digit(b: u8) -> bool {
    ||| 0x30 <= b <= 0x39
    ||| 0x61 <= b <= 0x66
    ||| 0x41 <= b <= 0x46
}

/// The value of a byte spelling a hexadecimal digit.
pub open spec fn hex_value(b: u8) -> int
    recommends
        is_hex_digit(b),
{
    if 0x30 <= b <= 0x39 {
        b - 0x30
    } else if 0x61 <= b <= 0x66 {
        b - 0x61 + 10
    } else {
        b - 0x41 + 10
    }
}

/// The first position at or after `i` holding an ampersand, or the length
/// when there is none: the end of the segment starting at `i`.
pub open spec fn segment_end(s: Seq<u8>, i: int) -> int
    decreases s.len() - i,
{
    if i < 0 || i >= s.len() {
        s.len() as int
    } else if s[i] == AMPERSAND {
        i
    } else {
        segment_end(s, i + 1)
    }
}

/// The first position in `[i, end)` holding an equals sign, or `end` when
/// there is none.
pub open spec fn equals_position(s: Seq<u8>, i: int, end: int) -> int
    decreases end - i,
{
    if i < 0 || i >= end || i >= s.len() {
        end
    } else if s[i] == EQUALS {
        i
    } else {
        equals_position(s, i + 1, end)
    }
}

/// Percent-decode the component `s[from..to)`: `+` stands for a space,
/// `%` followed by two hexadecimal digits for one byte, and every other
/// byte — the bytes of UTF-8 text included — for itself. Yields the
/// decoded bytes, or nothing when an escape is malformed or a separator
/// byte stands raw inside the component.
pub open spec fn decode_component(s: Seq<u8>, from: int, to: int) -> Option<Seq<u8>>
    decreases to - from,
{
    if from < 0 || from >= to || to > s.len() {
        Some(Seq::empty())
    } else if s[from] == PLUS {
        prepend_decoded(0x20, decode_component(s, from + 1, to))
    } else if s[from] == PERCENT {
        if from + 3 <= to && is_hex_digit(s[from + 1]) && is_hex_digit(s[from + 2]) {
            prepend_decoded(
                (hex_value(s[from + 1]) * 16 + hex_value(s[from + 2])) as u8,
                decode_component(s, from + 3, to),
            )
        } else {
            None
        }
    } else if s[from] != AMPERSAND && s[from] != EQUALS {
        prepend_decoded(s[from], decode_component(s, from + 1, to))
    } else {
        None
    }
}

/// Put one decoded byte in front of the rest, if the rest decoded.
pub open spec fn prepend_decoded(b: u8, rest: Option<Seq<u8>>) -> Option<Seq<u8>> {
    match rest {
        Some(t) => Some(seq![b] + t),
        None => None,
    }
}

/// Walk the segments of the body from position `i`, with the fields
/// gathered so far. Each segment is `key=value`; a segment without `=`,
/// a component that does not decode, a component whose decoded bytes are
/// not valid UTF-8, or a `name` or `email` field given twice refuses the
/// body. Unknown keys are ignored. At the end both fields must have
/// appeared.
pub open spec fn parse_fields(
    s: Seq<u8>,
    i: int,
    name: Option<Seq<char>>,
    email: Option<Seq<char>>,
) -> Option<(Seq<char>, Seq<char>)>
    decreases s.len() + 1 - i,
        via parse_fields_decreases
{
    if i < 0 {
        None
    } else if i > s.len() {
        match (name, email) {
            (Some(n), Some(e)) => Some((n, e)),
            _ => None,
        }
    } else {
        let end = segment_end(s, i);
        let eq = equals_position(s, i, end);
        if eq >= end {
            None
        } else {
            match (decode_component(s, i, eq), decode_component(s, eq + 1, end)) {
                (Some(key_bytes), Some(value_bytes)) => {
                    if !valid_utf8(key_bytes) || !valid_utf8(value_bytes) {
                        None
                    } else {
                        let key = decode_utf8(key_bytes);
                        let value = decode_utf8(value_bytes);
                        if key == "name"@ {
                            if name is Some {
                                None
                            } else {
                                parse_fields(s, end + 1, Some(value), email)
                            }
                        } else if key == "email"@ {
                            if email is Some {
                                None
                            } else {
                                parse_fields(s, end + 1, name, Some(value))
                            }
                        } else {
                            parse_fields(s, end + 1, name, email)
                        }
                    }
                },
                _ => None,
            }
        }
    }
}

/// The end of a segment lies between its start and the end of the body.
pub proof fn lemma_segment_end_bounds(s: Seq<u8>, i: int)
    requires
        0 <= i <= s.len(),
    ensures
        i <= segment_end(s, i) <= s.len(),
    decreases s.len() - i,
{
    if i < s.len() && s[i] != AMPERSAND {
        lemma_segment_end_bounds(s, i + 1);
    }
}

#[via_fn]
proof fn parse_fields_decreases(
    s: Seq<u8>,
    i: int,
    name: Option<Seq<char>>,
    email: Option<Seq<char>>,
) {
    if 0 <= i <= s.len() {
        lemma_segment_end_bounds(s, i);
    }
}

/// What parsing the whole body yields: the decoded `name` and `email`
/// fields, or nothing when the body is not a well-formed form carrying
/// both. The body is read as its UTF-8 bytes.
pub open spec fn parse_form_body(body: Seq<char>) -> Option<(Seq<char>, Seq<char>)> {
    parse_fields(encode_utf8(body), 0, None, None)
}

/// Relies on `String::from_utf8`: it succeeds exactly on the byte
/// sequences that are valid UTF-8, and yields the characters those bytes
/// encode.
#[verifier::external_body]
fn utf8_to_string(bytes: Vec<u8>) -> (r: Option<String>)
    ensures
        r is Some <==> valid_utf8(bytes@),
        r matches Some(s) ==> s@ == decode_utf8(bytes@),
{
    String::from_utf8(bytes).ok()
}

fn segment_end_exec(bytes: &Vec<u8>, len: usize, i: usize) -> (r: usize)
    requires
        len == bytes@.len(),
        i <= len,
    ensures
        r == segment_end(bytes@, i as int),
        i <= r <= len,
    decreases len - i,
{
    if i >= len {
        len
    } else if bytes[i] == AMPERSAND {
        i
    } else {
        segment_end_exec(bytes, len, i + 1)
    }
}

fn equals_position_exec(bytes: &Vec<u8>, len: usize, i: usize, end: usize) -> (r: usize)
    requires
        len == bytes@.len(),
        i <= end <= len,
    ensures
        r == equals_position(bytes@, i as int, end as int),
        i <= r <= end,
    decreases end - i,
{
    if i >= end {
        end
    } else if bytes[i] == EQUALS {
        i
    } else {
        equals_position_exec(bytes, len, i + 1, end)
    }
}

fn hex_value_exec(b: u8) -> (r: u8)
    requires
        is_hex_digit(b),
    ensures
        r == hex_value(b),
        r < 16,
{
    if 0x30 <= b && b <= 0x39 {
        b - 0x30
    } else if 0x61 <= b && b <= 0x66 {
        b - 0x61 + 10
    } else {
        b - 0x41 + 10
    }
}

fn is_hex_digit_exec(b: u8) -> (r: bool)
    ensures
        r == is_hex_digit(b),
{
    (0x30 <= b && b <= 0x39) || (0x61 <= b && b <= 0x66) || (0x41 <= b && b <= 0x46)
}

/// Percent-decode the component `bytes[from..to)` into its bytes.
fn decode_component_exec(bytes: &Vec<u8>, len: usize, from: usize, to: usize) -> (r: Option<
    Vec<u8>,
>)
    requires
        len == bytes@.len(),
        from <= to <= len,
    ensures
        r is Some <==> decode_component(bytes@, from as int, to as int) is Some,
        r matches Some(v) ==> decode_component(bytes@, from as int, to as int) == Some(v@),
    decreases to - from,
{
    if from >= to {
        return Some(Vec::new());
    }
    let b = bytes[from];
    if b == PLUS {
        match decode_component_exec(bytes, len, from + 1, to) {
            Some(mut v) => {
                v.insert(0, 0x20);
                Some(v)
            },
            None => None,
        }
    } else if b == PERCENT {
        if to - from >= 3 {
            let h1 = bytes[from + 1];
            let h2 = bytes[from + 2];
            if is_hex_digit_exec(h1) && is_hex_digit_exec(h2) {
                let decoded: u8 = hex_value_exec(h1) * 16 + hex_value_exec(h2);
                match decode_component_exec(bytes, len, from + 3, to) {
                    Some(mut v) => {
                        v.insert(0, decoded);
                        Some(v)
                    },
                    None => None,
                }
            } else {
                None
            }
        } else {
            None
        }
    } else if b != AMPERSAND && b != EQUALS {
        match decode_component_exec(bytes, len, from + 1, to) {
            Some(mut v) => {
                v.insert(0, b);
                Some(v)
            },
            None => None,
        }
    } else {
        None
    }
}

fn parse_fields_exec(
    bytes: &Vec<u8>,
    len: usize,
    i: usize,
    name: Option<String>,
    email: Option<String>,
) -> (r: Option<FormData>)
    requires
        len == bytes@.len(),
        i <= len,
    ensures
        ({
            let spec_name = match name {
                Some(n) => Some(n@),
                None => None,
            };
            let spec_email = match email {
                Some(e) => Some(e@),
                None => None,
            };
            let d = parse_fields(bytes@, i as int, spec_name, spec_email);
            &&& r is Some <==> d is Some
            &&& r matches Some(f) ==> d == Some((f.name@, f.email@))
        }),
    decreases len - i,
{
    let end = segment_end_exec(bytes, len, i);
    let eq = equals_position_exec(bytes, len, i, end);
    if eq >= end {
        return None;
    }
    let key_bytes = match decode_component_exec(bytes, len, i, eq) {
        Some(v) => v,
        None => {
            return None;
        },
    };
    let value_bytes = match decode_component_exec(bytes, len, eq + 1, end) {
        Some(v) => v,
        None => {
            return None;
        },
    };
    let key = match utf8_to_string(key_bytes) {
        Some(k) => k,
        None => {
            return None;
        },
    };
    let value = match utf8_to_string(value_bytes) {
        Some(v) => v,
        None => {
            return None;
        },
    };
    let new_name: Option<String>;
    let new_email: Option<String>;
    if key == "name".to_owned() {
        if name.is_some() {
            return None;
        }
        new_name = Some(value);
        new_email = email;
    } else if key == "email".to_owned() {
        if email.is_some() {
            return None;
        }
        new_name = name;
        new_email = Some(value);
    } else {
        new_name = name;
        new_email = email;
    }
    if end >= len {
        proof {
            let gn = match new_name {
                Some(ref n) => Some(n@),
                None => None::<Seq<char>>,
            };
            let ge = match new_email {
                Some(ref e) => Some(e@),
                None => None::<Seq<char>>,
            };
            assert(parse_fields(bytes@, end as int + 1, gn, ge) == (match (gn, ge) {
                (Some(n), Some(e)) => Some((n, e)),
                _ => None::<(Seq<char>, Seq<char>)>,
            }));
        }
        // The body holds no further segment: the walk is over.
        match (new_name, new_email) {
            (Some(n), Some(e)) => Some(FormData { email: e, name: n }),
            _ => None,
        }
    } else {
        parse_fields_exec(bytes, len, end + 1, new_name, new_email)
    }
}

/// Parse a submitted form body. Yields the decoded `name` and `email`
/// fields exactly when the body is a well-formed form carrying both; a
/// missing field, a malformed escape, a component that is not valid
/// UTF-8, or a repeated field yields nothing, and the caller answers
/// with a client-error status.
pub fn parse_form(body: &str) -> (r: Option<FormData>)
    ensures
        r is Some <==> parse_form_body(body@) is Some,
        r matches Some(f) ==> parse_form_body(body@) == Some((f.name@, f.email@)),
{
    let bytes = body.as_bytes_vec();
    let len = bytes.len();
    parse_fields_exec(&bytes, len, 0, None, None)
}

} // verus!
