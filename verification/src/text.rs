//! Owned text out of raw wide-character data, and decimal rendering of tags.
//!
//! The native records carry null-terminated UTF-32 strings; by the time they
//! reach this module they have been copied out as plain `u32` code units.
//! Decoding checks every unit for validity and never panics: an invalid unit
//! is reported as [`Error::Utf32Error`].

use vstd::prelude::*;
use vstd::utf8::{char_u32_cast, is_scalar};
use crate::error::Error;

verus! {

/// Every code unit of the sequence is a Unicode scalar value, so the whole
/// sequence decodes to text.
pub open spec fn wide_ok(s: Seq<u32>) -> bool {
    forall|i: int| 0 <= i < s.len() ==> is_scalar(#[trigger] s[i])
}

/// The characters a valid wide sequence decodes to, unit for unit.
pub open spec fn wide_decoded(s: Seq<u32>) -> Seq<char> {
    s.map_values(|u: u32| u as char)
}

/// Relies on `char::from_u32` of core: it returns `Some` exactly on Unicode
/// scalar values and the returned character has the given code point.
pub assume_specification[ char::from_u32 ](v: u32) -> (r: Option<char>)
    ensures
        r is Some <==> is_scalar(v),
        r matches Some(c) ==> c as u32 == v,
;

/// Relies on `String`'s `FromIterator` over `char`: collecting characters
/// yields the string of exactly those characters, in order.
#[verifier::external_body]
pub(crate) fn chars_to_string(chars: Vec<char>) -> (s: String)
    ensures
        s@ == chars@,
{
    chars.into_iter().collect()
}

/// Decode a raw wide-character sequence into owned text.
///
/// Succeeds exactly when every code unit is a Unicode scalar value; an empty
/// sequence yields an empty string, never an error.
pub fn decode_wide(units: &Vec<u32>) -> (r: Result<String, Error>)
    ensures
        r is Ok <==> wide_ok(units@),
        r matches Ok(s) ==> s@ == wide_decoded(units@),
        !wide_ok(units@) ==> r == Err::<String, Error>(Error::Utf32Error),
{
    let mut chars: Vec<char> = Vec::new();
    let mut i: usize = 0;
    while i < units.len()
        invariant
            0 <= i <= units@.len(),
            forall|j: int| 0 <= j < i ==> is_scalar(#[trigger] units@[j]),
            chars@ == wide_decoded(units@.take(i as int)),
        decreases units@.len() - i,
    {
        match char::from_u32(units[i]) {
            Some(c) => {
                chars.push(c);
                proof {
                    char_u32_cast(c, units@[i as int]);
                    assert(units@.take(i + 1).map_values(|u: u32| u as char)
                        =~= units@.take(i as int).map_values(|u: u32| u as char).push(c));
                }
            },
            None => {
                return Err(Error::Utf32Error);
            },
        }
        i += 1;
    }
    proof {
        assert(units@.take(units@.len() as int) =~= units@);
    }
    Ok(chars_to_string(chars))
}

/// The empty wide sequence is valid text and decodes to the empty string: a
/// record whose string pointer refers to nothing but the terminator yields
/// empty owned text, never an error.
pub proof fn lemma_empty_wide()
    ensures
        wide_ok(Seq::<u32>::empty()),
        wide_decoded(Seq::<u32>::empty()) == Seq::<char>::empty(),
{
    assert(wide_decoded(Seq::<u32>::empty()) =~= Seq::<char>::empty());
}

/// The character for one decimal digit.
pub open spec fn dec_digit(d: int) -> char {
    ((48 + d) as u8) as char
}

/// The decimal digits of a non-negative integer, most significant first.
pub open spec fn dec_seq_nat(n: nat) -> Seq<char>
    decreases n,
{
    if n < 10 {
        seq![dec_digit(n as int)]
    } else {
        dec_seq_nat(n / 10).push(dec_digit((n % 10) as int))
    }
}

/// The decimal rendering of an integer, with a leading minus sign when
/// negative.
pub open spec fn dec_seq(v: int) -> Seq<char> {
    if v < 0 {
        seq!['-'] + dec_seq_nat((-v) as nat)
    } else {
        dec_seq_nat(v as nat)
    }
}

/// Append the decimal digits of `n` to `out`, most significant first.
fn push_dec_digits(n: u32, out: &mut Vec<char>)
    ensures
        final(out)@ == old(out)@ + dec_seq_nat(n as nat),
    decreases n,
{
    if n >= 10 {
        push_dec_digits(n / 10, out);
    }
    let d: u8 = (n % 10) as u8 + 48;
    out.push(d as char);
}

/// Render an integer in decimal, never failing.
pub fn format_int(v: i32) -> (s: String)
    ensures
        s@ == dec_seq(v as int),
{
    let mut chars: Vec<char> = Vec::new();
    let magnitude: u32 = if v < 0 {
        chars.push('-');
        (-(v as i64)) as u32
    } else {
        v as u32
    };
    push_dec_digits(magnitude, &mut chars);
    chars_to_string(chars)
}

} // verus!
