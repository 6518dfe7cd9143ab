//! Characteristics of a connected device: what can be written to and read from.
use crate::error::Detail;
use crate::error::StorzError;
use crate::utils::raw_to_u16;
use vstd::prelude::*;
use vstd::string::*;

verus! {

/// Bytes to be written to the characteristic with this identifier, without response.
#[derive(Debug)]
pub struct CharacteristicWrite {
    pub uuid: u128,
    pub bytes: Vec<u8>,
}

/// The last `width` hexadecimal digits of a number, in lower case.
pub open spec fn hex_digits(n: nat, width: nat) -> Seq<char>
    decreases width,
{
    if width == 0 {
        seq![]
    } else {
        let digits = seq![
            '0', '1', '2', '3', '4', '5', '6', '7', '8', '9', 'a', 'b', 'c', 'd', 'e', 'f',
        ];
        hex_digits(n / 16, (width - 1) as nat).push(digits[(n % 16) as int])
    }
}

/// An identifier in groups of 8, 4, 4, 4 and 12 hexadecimal digits with hyphens between.
pub open spec fn hyphenated(uuid: u128) -> Seq<char> {
    let digits = hex_digits(uuid as nat, 32);
    digits.subrange(0, 8).push('-') + digits.subrange(8, 12).push('-') + digits.subrange(
        12,
        16,
    ).push('-') + digits.subrange(16, 20).push('-') + digits.subrange(20, 32)
}

/// Writes an identifier, by `uuid::Uuid::from_u128` and the `Display` of `uuid::Uuid`: the 32
/// digits in lower case, with hyphens between the groups.
#[verifier::external_body]
pub(crate) fn uuid_text(uuid: u128) -> (r: String)
    ensures
        r@ == hyphenated(uuid),
{
    uuid::Uuid::from_u128(uuid).to_string()
}

/// The error for a characteristic that the device does not have.
pub open spec fn missing(uuid: u128) -> crate::error::Failure {
    crate::error::unparsed("Characteristic "@ + hyphenated(uuid) + " not found"@)
}

/// Whether a characteristic is there.
pub fn has_characteristic(characteristics: &[u128], uuid: u128) -> (r: bool)
    ensures
        r == characteristics@.contains(uuid),
{
    let mut i: usize = 0;
    while i < characteristics.len()
        invariant
            i <= characteristics@.len(),
            forall|k: int| 0 <= k < i ==> characteristics@[k] != uuid,
        decreases characteristics@.len() - i,
    {
        if characteristics[i] == uuid {
            return true;
        }
        i = i + 1;
    }
    false
}

/// The characteristic with this identifier, or an error that names it.
pub fn characteristic(characteristics: &[u128], uuid: u128) -> (r: Result<u128, StorzError>)
    ensures
        r is Ok <==> characteristics@.contains(uuid),
        r matches Ok(found) ==> found == uuid,
        r matches Err(e) ==> e@ == missing(uuid),
{
    if has_characteristic(characteristics, uuid) {
        Ok(uuid)
    } else {
        let mut text = "Characteristic ".to_owned();
        let id = uuid_text(uuid);
        text.append(id.as_str());
        text.append(" not found");
        Err(StorzError::ParseError(Detail::Text(text)))
    }
}

/// The outcome is a write of `bytes` where the characteristic is there, and the failure
/// where it is not.
pub open spec fn writes(
    r: Result<CharacteristicWrite, StorzError>,
    characteristics: Seq<u128>,
    uuid: u128,
    bytes: Seq<u8>,
    failure: crate::error::Failure,
) -> bool {
    &&& r is Ok <==> characteristics.contains(uuid)
    &&& r matches Ok(w) ==> w.uuid == uuid && w.bytes@ == bytes
    &&& r matches Err(e) ==> e@ == failure
}

/// The same bytes once more.
pub fn copied(bytes: &[u8]) -> (r: Vec<u8>)
    ensures
        r@ == bytes@,
{
    let mut out: Vec<u8> = Vec::new();
    let mut i: usize = 0;
    while i < bytes.len()
        invariant
            i <= bytes@.len(),
            out@ == bytes@.take(i as int),
        decreases bytes@.len() - i,
    {
        out.push(bytes[i]);
        i = i + 1;
    }
    assert(bytes@.take(bytes@.len() as int) == bytes@);
    out
}

/// A write to the characteristic with this identifier, or an error that names it.
pub fn write_to(characteristics: &[u128], uuid: u128, bytes: &[u8]) -> (r: Result<
    CharacteristicWrite,
    StorzError,
>)
    ensures
        writes(r, characteristics@, uuid, bytes@, missing(uuid)),
{
    match characteristic(characteristics, uuid) {
        Ok(found) => Ok(CharacteristicWrite { uuid: found, bytes: copied(bytes) }),
        Err(e) => Err(e),
    }
}

/// A text that a characteristic holds; bytes that are not UTF-8 are refused.
pub fn read_string(data: Vec<u8>) -> (r: Result<String, StorzError>)
    ensures
        r is Ok <==> vstd::utf8::valid_utf8(data@),
        r matches Ok(text) ==> text@ == vstd::utf8::decode_utf8(data@),
        r matches Err(e) ==> e@ == crate::error::unparsed(
            "Invalid UTF-8: "@ + crate::text::utf8_refusal(data@),
        ),
{
    match crate::text::from_utf8(data) {
        Ok(text) => Ok(text),
        Err(reason) => {
            let mut text = "Invalid UTF-8: ".to_owned();
            text.append(reason.as_str());
            Err(StorzError::ParseError(Detail::Text(text)))
        },
    }
}

/// The text in the bytes that were read, where they were read and are UTF-8.
pub open spec fn text_read(data: Option<Seq<u8>>) -> Option<Seq<char>> {
    match data {
        Some(bytes) => if vstd::utf8::valid_utf8(bytes) {
            Some(vstd::utf8::decode_utf8(bytes))
        } else {
            None
        },
        None => None,
    }
}

/// The number in the bytes that were read, where there are enough.
pub open spec fn number_read(data: Option<Seq<u8>>) -> Option<u16> {
    match data {
        Some(bytes) => if bytes.len() >= 2 {
            Some(crate::utils::little_endian(bytes.take(2)) as u16)
        } else {
            None
        },
        None => None,
    }
}

/// The bytes of an answer.
pub open spec fn bytes_of(data: Option<Vec<u8>>) -> Option<Seq<u8>> {
    match data {
        Some(v) => Some(v@),
        None => None,
    }
}

/// The text of an answer, if it is one.
pub fn text_answer(data: Option<Vec<u8>>) -> (r: Option<String>)
    ensures
        crate::text::text_of(r) == text_read(bytes_of(data)),
{
    match data {
        Some(bytes) => match read_string(bytes) {
            Ok(text) => Some(text),
            Err(_) => None,
        },
        None => None,
    }
}

/// The number of an answer, if it is long enough.
pub fn number_answer(data: &Option<Vec<u8>>) -> (r: Option<u16>)
    ensures
        r == number_read(bytes_of(*data)),
{
    match data {
        Some(bytes) => match raw_to_u16(bytes.as_slice()) {
            Ok(n) => Some(n),
            Err(_) => None,
        },
        None => None,
    }
}

} // verus!
