//! Wrapper-side validation helpers that share the error taxonomy: string
//! capacity checks and bitflag mask checks.

use vstd::prelude::*;
use vstd::string::StrSliceExecFns;
use crate::error::ErrorKind;

verus! {

/// What validating a string against a capacity yields: success when the
/// length fits, otherwise `StringTooLong` carrying both lengths.
pub open spec fn validated_string(len: nat, max_len: usize) -> Result<(), ErrorKind> {
    if len <= max_len {
        Ok(())
    } else {
        Err(ErrorKind::StringTooLong { max_len, actual_len: len as usize })
    }
}

/// Checks that `s` fits into an array of `max_len` characters: succeeds
/// exactly when the length of `s` is at most `max_len`, and otherwise
/// reports `StringTooLong` with both the capacity and the actual length.
pub fn validate_string(s: &str, max_len: usize) -> (r: Result<(), ErrorKind>)
    ensures
        r == validated_string(s@.len(), max_len),
        r is Ok <==> s@.len() <= max_len,
        s@.len() > max_len ==> r == Err::<(), ErrorKind>(
            ErrorKind::StringTooLong { max_len, actual_len: s@.len() as usize },
        ),
{
    let actual_len: usize = s.unicode_len();
    if actual_len <= max_len {
        Ok(())
    } else {
        Err(ErrorKind::StringTooLong { max_len, actual_len })
    }
}

/// What decoding a raw bitflag value against a mask of known flag bits
/// yields: the value itself when every set bit is a known flag, otherwise
/// `IncorrectBits`.
pub open spec fn decoded_flags(bits: u32, known: u32) -> Result<u32, ErrorKind> {
    if bits & !known == 0 {
        Ok(bits)
    } else {
        Err(ErrorKind::IncorrectBits)
    }
}

/// Interprets `bits` as bitflags drawn from the mask `known`: succeeds with
/// the value unchanged when every set bit corresponds to a known flag, and
/// reports `IncorrectBits` when any set bit lies outside the mask.
pub fn decode_flags(bits: u32, known: u32) -> (r: Result<u32, ErrorKind>)
    ensures
        r == decoded_flags(bits, known),
{
    if bits & !known == 0 {
        Ok(bits)
    } else {
        Err(ErrorKind::IncorrectBits)
    }
}

/// Law: decoding zero succeeds with empty flags against every mask.
pub proof fn lemma_decode_zero(known: u32)
    ensures
        decoded_flags(0, known) == Ok::<u32, ErrorKind>(0u32),
{
    assert(0u32 & !known == 0) by (bit_vector);
}

/// Law: a value with exactly one set bit that lies outside the mask fails
/// to decode, whatever the mask.
pub proof fn lemma_decode_stray_bit(bit: u32, known: u32)
    requires
        bit < 32,
        (1u32 << bit) & known == 0,
    ensures
        decoded_flags(1u32 << bit, known) == Err::<u32, ErrorKind>(ErrorKind::IncorrectBits),
{
    assert((1u32 << bit) & !known != 0) by (bit_vector)
        requires
            bit < 32,
            (1u32 << bit) & known == 0,
    ;
}

} // verus!
