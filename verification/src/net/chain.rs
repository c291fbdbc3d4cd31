//! What the scanner and the deployer read of the chain: addresses,
//! transactions and receipts, held as plain bytes.

use std::str::FromStr;
use vstd::prelude::*;
use vstd::std_specs::cmp::PartialEqSpecImpl;

verus! {

/// A 20-byte account or contract address.
#[derive(Debug, Clone, Copy)]
pub struct Address {
    pub bytes: [u8; 20],
}

impl PartialEq for Address {
    fn eq(&self, other: &Address) -> (same: bool) {
        let mut i: usize = 0;
        while i < 20
            invariant
                i <= 20,
                forall|k: int| 0 <= k < i ==> self.bytes[k] == other.bytes[k],
            decreases 20 - i,
        {
            if self.bytes[i] != other.bytes[i] {
                return false;
            }
            i += 1;
        }
        assert(self.bytes =~= other.bytes);
        true
    }
}

impl Eq for Address {

}

impl PartialEqSpecImpl for Address {
    open spec fn obeys_eq_spec() -> bool {
        true
    }

    open spec fn eq_spec(&self, other: &Address) -> bool {
        *self == *other
    }
}

/// A transaction as a block lists it: its hash and its input data.
#[derive(Debug, Clone, PartialEq, Eq)]
pub struct Transaction {
    pub hash: [u8; 32],
    pub input: Vec<u8>,
}

/// What a receipt says of a transaction: who sent it, and the contract it
/// created, if it created one.
#[derive(Debug, Clone, Copy)]
pub struct Receipt {
    pub from: Address,
    pub contract_address: Option<Address>,
}

/// The answer to the request for one receipt of a block: the position of
/// the transaction in the block, and its receipt where the chain has one.
#[derive(Debug, Clone, Copy)]
pub struct ReceiptReply {
    pub index: usize,
    pub receipt: Option<Receipt>,
}

/// The lower-case hexadecimal digit for a number below 16: `0` to `9`,
/// then `a` to `f`.
pub open spec fn hex_digit(n: int) -> char {
    if n < 10 {
        (('0' as u8) + n) as u8 as char
    } else {
        (('a' as u8) + n - 10) as u8 as char
    }
}

/// Bytes as lower-case hexadecimal text: two digits for each byte, the
/// high digit first, in the order of the bytes.
pub open spec fn hex_text(bytes: Seq<u8>) -> Seq<char> {
    Seq::new(
        2 * bytes.len(),
        |i: int|
            hex_digit(
                if i % 2 == 0 {
                    bytes[i / 2] as int / 16
                } else {
                    bytes[i / 2] as int % 16
                },
            ),
    )
}

/// The form in which an address is shown: `0x`, and then all of its bytes
/// as lower-case hexadecimal text.
pub open spec fn full_text(bytes: Seq<u8>) -> Seq<char> {
    seq!['0', 'x'] + hex_text(bytes)
}

/// `LowerHex` of `web3::types::H160` in its alternate form, which writes
/// `0x` and then each of the 20 bytes, in their order, as two lower-case
/// hexadecimal digits.
#[verifier::external_body]
fn h160_text(bytes: [u8; 20]) -> (text: String)
    ensures
        text@ == full_text(bytes@),
{
    format!("{:#x}", web3::types::H160(bytes))
}

impl Address {
    /// Whether every byte of the address is zero.
    pub open spec fn is_zero(self) -> bool {
        forall|i: int| 0 <= i < 20 ==> self.bytes[i] == 0
    }

    /// The address of all zeros, which stands for no account.
    pub fn zero() -> (address: Address)
        ensures
            address.is_zero(),
    {
        Address { bytes: [0u8; 20] }
    }

    /// The address as it is printed: in full, so that the text tells the
    /// address.
    pub fn text(&self) -> (text: String)
        ensures
            text@ == full_text(self.bytes@),
    {
        h160_text(self.bytes)
    }
}

/// One printed line for each address, in the same order.
pub fn address_lines(addresses: &Vec<Address>) -> (lines: Vec<String>)
    ensures
        lines.len() == addresses.len(),
        forall|i: int|
            0 <= i < lines.len() ==> (#[trigger] lines[i])@ == full_text(addresses[i].bytes@),
{
    let mut lines: Vec<String> = Vec::new();
    let mut i: usize = 0;
    while i < addresses.len()
        invariant
            i <= addresses.len(),
            lines.len() == i,
            forall|k: int| 0 <= k < i ==> (#[trigger] lines[k])@ == full_text(addresses[k].bytes@),
        decreases addresses.len() - i,
    {
        lines.push(addresses[i].text());
        i += 1;
    }
    lines
}

proof fn lemma_hex_digit_one_to_one(first: int, second: int)
    requires
        0 <= first < 16,
        0 <= second < 16,
        hex_digit(first) == hex_digit(second),
    ensures
        first == second,
{
}

/// Two addresses that are shown alike are the same address.
pub proof fn address_text_is_one_to_one(first: Address, second: Address)
    requires
        full_text(first.bytes@) == full_text(second.bytes@),
    ensures
        first == second,
{
    let left = full_text(first.bytes@);
    let right = full_text(second.bytes@);
    assert forall|k: int| 0 <= k < 20 implies first.bytes[k] == second.bytes[k] by {
        let high = 2 * k;
        let low = 2 * k + 1;
        assert(left[2 + high] == hex_text(first.bytes@)[high]);
        assert(right[2 + high] == hex_text(second.bytes@)[high]);
        assert(left[2 + low] == hex_text(first.bytes@)[low]);
        assert(right[2 + low] == hex_text(second.bytes@)[low]);
        assert(high / 2 == k && high % 2 == 0);
        assert(low / 2 == k && low % 2 == 1);
        lemma_hex_digit_one_to_one(first.bytes[k] as int / 16, second.bytes[k] as int / 16);
        lemma_hex_digit_one_to_one(first.bytes[k] as int % 16, second.bytes[k] as int % 16);
    }
    assert(first.bytes =~= second.bytes);
}

/// The 32 bytes that `web3::types::H256` reads from a text, where it reads
/// any.
pub uninterp spec fn h256_of_text(text: Seq<char>) -> Option<Seq<u8>>;

/// `FromStr` of `web3::types::H256`: the 32 bytes that the text stands for
/// in hexadecimal, or nothing where it stands for none. The same text always
/// gives the same answer.
#[verifier::external_body]
pub(crate) fn h256_from_str(text: &str) -> (word: Option<[u8; 32]>)
    ensures
        match word {
            Some(bytes) => h256_of_text(text@) == Some(bytes@),
            None => h256_of_text(text@) is None,
        },
{
    web3::types::H256::from_str(text).ok().map(|word| word.0)
}

/// What `web3` says of a fault of its own.
pub open spec fn internal_fault() -> Seq<char> {
    "Internal Web3 error"@
}

/// `Display` of `web3::Error::Internal`, which describes itself as stated
/// here.
#[verifier::external_body]
pub(crate) fn internal_fault_text() -> (text: String)
    ensures
        text@ == internal_fault(),
{
    web3::Error::Internal.to_string()
}

} // verus!
