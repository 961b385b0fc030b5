//! What holds of decoding and encoding taken together.

use vstd::prelude::*;
use crate::decoding::{
    is_first_invalid, is_hex_string, lemma_first_invalid_exists, lemma_first_invalid_is,
    packed_bytes, spec_decode, spec_decode_to_fixed, Decoded,
};
use crate::digit::{
    ascii_lower, ascii_upper, digit_value, is_hex_digit, lemma_case_keeps_digit,
    lemma_digit_value_of_hex_digit, lemma_hex_digit_of_digit_value,
};
use crate::encoding::spec_encode;
use crate::error::FromHexError;

verus! {

/// Decoding what was encoded gives the bytes back, whichever case the
/// letters were written in.
pub proof fn lemma_decode_of_encode(bytes: Seq<u8>, uppercase: bool)
    ensures
        spec_decode(spec_encode(bytes, uppercase)) == Decoded::Ok(bytes),
{
    let s = spec_encode(bytes, uppercase);
    assert forall|i: int| 0 <= i < s.len() implies is_hex_digit(#[trigger] s[i]) by {
        lemma_digit_value_of_hex_digit(bytes[i / 2] as int / 16, uppercase);
        lemma_digit_value_of_hex_digit(bytes[i / 2] as int % 16, uppercase);
    }
    assert forall|k: int| 0 <= k < bytes.len() implies #[trigger] packed_bytes(s)[k]
        == bytes[k] by {
        lemma_digit_value_of_hex_digit(bytes[k] as int / 16, uppercase);
        lemma_digit_value_of_hex_digit(bytes[k] as int % 16, uppercase);
    }
    assert(packed_bytes(s) =~= bytes);
}

/// Decoding into a container of as many bytes as were encoded gives the
/// bytes back as well.
pub proof fn lemma_decode_to_fixed_of_encode(bytes: Seq<u8>, uppercase: bool)
    ensures
        spec_decode_to_fixed(spec_encode(bytes, uppercase), bytes.len()) == Decoded::Ok(bytes),
{
    lemma_decode_of_encode(bytes, uppercase);
}

/// A string that decodes is written again by encoding its bytes, but for
/// the case of its letters: in small letters the encoding is the string with
/// every capital made small, in capitals the string with every small letter
/// made a capital.
pub proof fn lemma_encode_of_decode(s: Seq<char>)
    requires
        spec_decode(s) is Ok,
    ensures
        spec_encode(spec_decode(s)->Ok_0, false) == s.map_values(|c: char| ascii_lower(c)),
        spec_encode(spec_decode(s)->Ok_0, true) == s.map_values(|c: char| ascii_upper(c)),
{
    let bytes = spec_decode(s)->Ok_0;
    assert forall|i: int| 0 <= i < s.len() implies #[trigger] spec_encode(bytes, false)[i]
        == ascii_lower(s[i]) && spec_encode(bytes, true)[i] == ascii_upper(s[i]) by {
        let k = i / 2;
        lemma_hex_digit_of_digit_value(s[2 * k]);
        lemma_hex_digit_of_digit_value(s[2 * k + 1]);
    }
}

/// A string that decodes gives half as many bytes as it has characters.
pub proof fn lemma_decode_length(s: Seq<char>)
    requires
        s.len() % 2 == 0,
        is_hex_string(s),
    ensures
        spec_decode(s) is Ok,
        spec_decode(s)->Ok_0.len() == s.len() / 2,
{
}

/// Two strings that differ only in the case of their letters decode to the
/// same bytes.
pub proof fn lemma_decode_ignores_case(s: Seq<char>, t: Seq<char>)
    requires
        s.len() == t.len(),
        forall|i: int| 0 <= i < s.len() ==> ascii_lower(#[trigger] s[i]) == ascii_lower(t[i]),
        spec_decode(s) is Ok,
    ensures
        spec_decode(t) == spec_decode(s),
{
    assert forall|i: int| 0 <= i < t.len() implies is_hex_digit(#[trigger] t[i])
        && digit_value(t[i]) == digit_value(s[i]) by {
        lemma_case_keeps_digit(s[i]);
        lemma_case_keeps_digit(t[i]);
    }
    assert(packed_bytes(t) =~= packed_bytes(s));
}

/// Which outcome decoding has on which strings. It succeeds on the strings
/// of even length made of hex digits alone; it reports an odd length on
/// every string of odd length, whatever its characters; on the others it
/// names the first character that is no hex digit, with its place; and it
/// never reports a wrong length for a container.
pub proof fn lemma_decode_outcomes(s: Seq<char>)
    requires
        s.len() <= usize::MAX,
    ensures
        spec_decode(s) is Ok <==> s.len() % 2 == 0 && is_hex_string(s),
        spec_decode(s) == Decoded::Err(FromHexError::OddLength) <==> s.len() % 2 == 1,
        spec_decode(s) != Decoded::Err(FromHexError::InvalidStringLength),
        forall|c: char, index: usize|
            spec_decode(s) == Decoded::Err(FromHexError::InvalidHexCharacter { c, index })
                <==> s.len() % 2 == 0 && is_first_invalid(s, index as int) && c == s[index as int],
{
    if s.len() % 2 == 0 && !is_hex_string(s) {
        lemma_first_invalid_exists(s);
    }
    assert forall|c: char, index: usize|
        s.len() % 2 == 0 && is_first_invalid(s, index as int) && c == s[index as int] implies
        spec_decode(s) == Decoded::Err(FromHexError::InvalidHexCharacter { c, index }) by {
        lemma_first_invalid_is(s, index as int);
    }
}

/// Decoding is a function of the string alone: whatever two calls on one
/// string return stands for the same outcome, and an error is the same
/// error, in kind and in fields.
pub proof fn lemma_decode_is_deterministic(
    s: Seq<char>,
    first: Result<Vec<u8>, FromHexError>,
    second: Result<Vec<u8>, FromHexError>,
)
    requires
        match first {
            Ok(bytes) => spec_decode(s) == Decoded::Ok(bytes@),
            Err(e) => spec_decode(s) == Decoded::Err(e),
        },
        match second {
            Ok(bytes) => spec_decode(s) == Decoded::Ok(bytes@),
            Err(e) => spec_decode(s) == Decoded::Err(e),
        },
    ensures
        first is Err ==> second == first,
        first matches Ok(bytes) ==> second is Ok && second->Ok_0@ == bytes@,
{
}

/// Which outcome decoding into a container of `n` bytes has on which
/// strings: a wrong length is reported on every string whose length is not
/// `2 * n`, before an odd length or a character is; a string of the right
/// length decodes as it does without the container, and then gives `n`
/// bytes.
pub proof fn lemma_decode_to_fixed_outcomes(s: Seq<char>, n: nat)
    ensures
        spec_decode_to_fixed(s, n) == Decoded::Err(FromHexError::InvalidStringLength)
            <==> s.len() != 2 * n,
        s.len() == 2 * n ==> spec_decode_to_fixed(s, n) == spec_decode(s),
        spec_decode_to_fixed(s, n) != Decoded::Err(FromHexError::OddLength),
        spec_decode_to_fixed(s, n) matches Ok(bytes) ==> bytes.len() == n,
{
}

/// Encoding writes two characters for each byte.
pub proof fn lemma_encode_length(bytes: Seq<u8>, uppercase: bool)
    ensures
        spec_encode(bytes, uppercase).len() == 2 * bytes.len(),
{
}

} // verus!
