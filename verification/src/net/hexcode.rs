//! Hexadecimal text and the bytes it stands for.

use crate::net::error::Error;
use vstd::prelude::*;
use vstd::string::*;

verus! {

/// Whether `c` is one of `0-9`, `a-f`, `A-F`.
pub open spec fn is_hex_digit(c: char) -> bool {
    ('0' <= c && c <= '9') || ('a' <= c && c <= 'f') || ('A' <= c && c <= 'F')
}

/// The number a hexadecimal digit stands for; 0 for any other character.
pub open spec fn hex_value(c: char) -> int {
    if '0' <= c && c <= '9' {
        c as int - '0' as int
    } else if 'a' <= c && c <= 'f' {
        c as int - 'a' as int + 10
    } else if 'A' <= c && c <= 'F' {
        c as int - 'A' as int + 10
    } else {
        0
    }
}

/// Text that encodes bytes: an even number of hexadecimal digits.
pub open spec fn is_hex_text(text: Seq<char>) -> bool {
    text.len() % 2 == 0 && forall|i: int| 0 <= i < text.len() ==> is_hex_digit(#[trigger] text[i])
}

/// The bytes that hexadecimal text encodes, two digits to a byte, high digit first.
pub open spec fn hex_bytes(text: Seq<char>) -> Seq<u8> {
    Seq::new(
        text.len() / 2,
        |i: int| (hex_value(text[2 * i]) * 16 + hex_value(text[2 * i + 1])) as u8,
    )
}

/// What `hex` says of the fault it finds in a text that it does not
/// decode.
pub uninterp spec fn hex_fault_text(text: Seq<char>) -> Seq<char>;

/// `hex::decode` on the text, and `Display` of the error it may give. The
/// call succeeds exactly on an even number of hexadecimal digits, and then
/// yields the bytes they encode. A character outside ASCII is stored as
/// bytes that are no digits, so it is refused too. What the error says of
/// a refused text depends on the text alone.
#[verifier::external_body]
fn decode_hex(text: &str) -> (res: Result<Vec<u8>, String>)
    ensures
        res is Ok <==> is_hex_text(text@),
        res matches Ok(bytes) ==> bytes@ == hex_bytes(text@),
        res matches Err(fault) ==> fault@ == hex_fault_text(text@),
{
    hex::decode(text).map_err(|fault| fault.to_string())
}

/// Whether the text begins with the marker `0x`.
pub open spec fn is_prefixed(text: Seq<char>) -> bool {
    text.len() >= 2 && text[0] == '0' && text[1] == 'x'
}

/// What follows the marker `0x` in a build artifact's bytecode: the
/// creation code as hexadecimal text. Bytecode without the marker is
/// refused as invalid input.
pub fn creation_code(bytecode: &str) -> (res: Result<String, Error>)
    ensures
        is_prefixed(bytecode@) ==> (res matches Ok(code) && code@ == bytecode@.skip(2)),
        !is_prefixed(bytecode@) ==> res matches Err(Error::InvalidInput),
{
    let len = bytecode.unicode_len();
    if len >= 2 && bytecode.get_char(0) == '0' && bytecode.get_char(1) == 'x' {
        let digits = bytecode.substring_char(2, len);
        assert(digits@ =~= bytecode@.skip(2));
        Ok(String::from_str(digits))
    } else {
        Err(Error::InvalidInput)
    }
}

/// The bytes of the creation code that a build artifact's bytecode stands
/// for: the input data of a transaction that creates the contract.
///
/// Bytecode without the marker `0x` is invalid input; what follows the
/// marker must be an even number of hexadecimal digits, or the fault found
/// in it is reported.
pub fn expected_code(bytecode: &str) -> (res: Result<Vec<u8>, Error>)
    ensures
        !is_prefixed(bytecode@) ==> res matches Err(Error::InvalidInput),
        is_prefixed(bytecode@) && !is_hex_text(bytecode@.skip(2)) ==> (res matches Err(
            Error::Serialization(fault),
        ) && fault@ == hex_fault_text(bytecode@.skip(2))),
        is_prefixed(bytecode@) && is_hex_text(bytecode@.skip(2)) ==> (res matches Ok(code)
            && code@ == hex_bytes(bytecode@.skip(2))),
{
    match creation_code(bytecode) {
        Err(e) => Err(e),
        Ok(digits) => match decode_hex(digits.as_str()) {
            Ok(code) => Ok(code),
            Err(fault) => Err(Error::Serialization(fault)),
        },
    }
}

} // verus!
