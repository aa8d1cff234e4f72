//! The calls that the bridge makes into other crates and into parts of the standard
//! library that carry no specification of their own.
//!
//! Every item of this file is taken on trust: its contract says what the called code
//! does, as its source and documentation show it, and nothing checks the claim. The
//! rest of the crate is proved from these contracts.

use crate::utils::spec_number;
use vstd::bytes::spec_u64_from_le_bytes;
use vstd::bytes::spec_u64_to_le_bytes;
use vstd::prelude::*;
use vstd::string::StringSliceAdditionalSpecFns;
use vstd::utf8::valid_utf8;

verus! {

/// `nom::Err`, the error of every `nom` parser. Carried through, never looked into.
#[verifier::external_type_specification]
#[verifier::external_body]
#[verifier::reject_recursive_types(E)]
pub struct ExNomErr<E>(nom::Err<E>);

/// `nom::error::ErrorKind`, the reason that a `nom` parser gives for a failure. Carried
/// through, never looked into.
#[verifier::external_type_specification]
#[verifier::external_body]
pub struct ExNomErrorKind(nom::error::ErrorKind);

/// What a `nom` parser of bytes returns: the input that is left and the value read, or
/// the parser's error, here the input it failed on and the reason.
pub type Parsed<'a, T> = Result<(&'a [u8], T), nom::Err<(&'a [u8], nom::error::ErrorKind)>>;

/// `nom::number::complete::u8`: on an empty input it fails; on any other it yields the
/// first byte and the input that follows it.
#[verifier::external_body]
pub(crate) fn number_u8<'a>(input: &'a [u8]) -> (r: Parsed<'a, u8>)
    ensures
        match r {
            Ok((rest, byte)) => input@.len() >= 1 && rest@ == input@.skip(1) && byte == input@[0],
            Err(_) => input@.len() < 1,
        },
{
    nom::number::complete::u8(input)
}

/// `nom::number::complete::le_u64`: on fewer than eight bytes it fails; otherwise it
/// yields the first eight bytes read as a little-endian integer and the input that
/// follows them.
#[verifier::external_body]
pub(crate) fn number_le_u64<'a>(input: &'a [u8]) -> (r: Parsed<'a, u64>)
    ensures
        match r {
            Ok((rest, value)) => input@.len() >= 8 && rest@ == input@.skip(8) && value
                == spec_u64_from_le_bytes(input@.take(8)),
            Err(_) => input@.len() < 8,
        },
{
    nom::number::complete::le_u64(input)
}

/// `nom::bytes::complete::take`: on fewer than `count` bytes it fails; otherwise it
/// yields the first `count` bytes and the input that follows them.
#[verifier::external_body]
pub(crate) fn bytes_take<'a>(input: &'a [u8], count: u8) -> (r: Parsed<'a, &'a [u8]>)
    ensures
        match r {
            Ok((rest, taken)) => input@.len() >= count && rest@ == input@.skip(count as int)
                && taken@ == input@.take(count as int),
            Err(_) => input@.len() < count,
        },
{
    nom::bytes::complete::take(count)(input)
}

/// `core::str::Utf8Error`, the error of `core::str::from_utf8`. Carried through, never
/// looked into.
#[verifier::external_type_specification]
#[verifier::external_body]
pub struct ExUtf8Error(core::str::Utf8Error);

/// `core::str::from_utf8`: bytes that are UTF-8 come back as the string slice they
/// encode, any others are refused.
pub assume_specification<'a>[ core::str::from_utf8 ](v: &'a [u8]) -> (r: Result<&'a str, core::str::Utf8Error>)
    ensures
        match r {
            Ok(s) => valid_utf8(v@) && s.spec_bytes() == v@,
            Err(_) => !valid_utf8(v@),
        },
;

/// `core::num::ParseIntError`, the error of parsing an integer. Carried through, never
/// looked into.
#[verifier::external_type_specification]
#[verifier::external_body]
pub struct ExParseIntError(core::num::ParseIntError);

/// `str::parse::<u64>`: a text of decimal digits, with or without a `+` before them,
/// comes back as the number it spells if that number fits into 64 bits; any other text
/// is refused.
#[verifier::external_body]
pub(crate) fn parse_u64(text: &str) -> (r: Result<u64, core::num::ParseIntError>)
    ensures
        match r {
            Ok(number) => spec_number(text@) == Some(number),
            Err(_) => spec_number(text@) is None,
        },
{
    text.parse::<u64>()
}

/// `bincode::ErrorKind`, the error of `bincode`. Carried through, never looked into.
#[verifier::external_type_specification]
#[verifier::external_body]
pub struct ExBincodeErrorKind(bincode::ErrorKind);

/// `bincode::serialize` of a `u64`: when it succeeds it gives the eight bytes of the
/// number, the least significant first.
#[verifier::external_body]
pub(crate) fn serialize_u64(value: u64) -> (r: Result<Vec<u8>, Box<bincode::ErrorKind>>)
    ensures
        r matches Ok(bytes) ==> bytes@ == spec_u64_to_le_bytes(value),
{
    bincode::serialize(&value)
}

} // verus!
