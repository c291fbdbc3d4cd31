//! The signing key: telling a key from text that is none.

use std::str::FromStr;
use vstd::prelude::*;

verus! {

/// The 32 bytes of the secret key that `secp256k1` reads from a text,
/// where it reads one.
pub uninterp spec fn secret_key_of_text(text: Seq<char>) -> Option<Seq<u8>>;

/// What reading a signing key from a text gives: the key's 32 bytes, or
/// what `secp256k1` says of a text that holds no key.
pub open spec fn secret_key_read(text: Seq<char>) -> Result<Seq<u8>, Seq<char>> {
    match secret_key_of_text(text) {
        Some(bytes) => Ok(bytes),
        None => Err("malformed or out-of-range secret key"@),
    }
}

/// `FromStr` of `secp256k1::SecretKey`, followed by `secret_bytes` on the
/// key or `Display` on the error. The same text always gives the same
/// answer. The only error that reading a key gives is its
/// `InvalidSecretKey`, which describes itself as stated here.
#[verifier::external_body]
pub(crate) fn secret_key_from_str(text: &str) -> (key: Result<[u8; 32], String>)
    ensures
        match key {
            Ok(bytes) => secret_key_of_text(text@) == Some(bytes@),
            Err(fault) => secret_key_of_text(text@) is None && fault@
                == "malformed or out-of-range secret key"@,
        },
{
    secp256k1::SecretKey::from_str(text).map(|key| key.secret_bytes()).map_err(
        |fault| fault.to_string(),
    )
}

} // verus!
