//! The ledger's own types, as the Solana SDK defines them, and the few
//! conversions of text into them that the library relies on.
use vstd::prelude::*;
use solana_sdk::pubkey::Pubkey;
use solana_sdk::signature::{Keypair, Signature};
use solana_sdk::transaction::VersionedTransaction;

verus! {

#[verifier::external_type_specification]
#[verifier::external_body]
pub struct ExPubkey(Pubkey);

#[verifier::external_type_specification]
#[verifier::external_body]
pub struct ExKeypair(Keypair);

#[verifier::external_type_specification]
#[verifier::external_body]
pub struct ExSignature(Signature);

#[verifier::external_type_specification]
#[verifier::external_body]
pub struct ExVersionedTransaction(VersionedTransaction);

/// `Signature` implements `TryFrom<&[u8]>` with this error, so the error's
/// type must be known wherever `Signature` is.
#[verifier::external_type_specification]
#[verifier::external_body]
pub struct ExTryFromSliceError(core::array::TryFromSliceError);

/// The longest base58 text of a 32-byte address.
pub const MAX_ADDRESS_TEXT: usize = 44;

/// The longest base58 text of a 64-byte signature.
pub const MAX_SIGNATURE_TEXT: usize = 88;

/// The byte length of a wallet's signing key pair: secret, then public half.
pub const KEYPAIR_BYTES: usize = 64;

/// The bytes that a base58 text decodes to, where it is valid base58.
pub uninterp spec fn base58_bytes(s: Seq<char>) -> Option<Seq<u8>>;

/// The address that a text stands for, where it is base58 of 32 bytes.
pub uninterp spec fn pubkey_parsed(s: Seq<char>) -> Option<Pubkey>;

/// The signature that a text stands for, where it is base58 of 64 bytes.
pub uninterp spec fn signature_parsed(s: Seq<char>) -> Option<Signature>;

/// The key pair that bytes stand for, where they hold a secret key and the
/// public key derived from it.
pub uninterp spec fn keypair_parsed(b: Seq<u8>) -> Option<Keypair>;

/// A key text that cannot stand for a 64-byte key pair.
pub open spec fn bad_key_text(s: Seq<char>) -> bool {
    base58_bytes(s) is None || base58_bytes(s)->0.len() != KEYPAIR_BYTES
}

/// The key pair that a base58 text of exactly 64 bytes stands for.
pub open spec fn key_from_text(s: Seq<char>) -> Option<Keypair> {
    if bad_key_text(s) {
        None
    } else {
        keypair_parsed(base58_bytes(s)->0)
    }
}

/// Relies on `Pubkey::from_str`: base58 text of 32 bytes; longer text is refused
/// before decoding.
#[verifier::external_body]
pub(crate) fn pubkey_from_text(s: &str) -> (r: Option<Pubkey>)
    ensures
        r == pubkey_parsed(s@),
        s@.len() > MAX_ADDRESS_TEXT ==> r is None,
{
    <Pubkey as std::str::FromStr>::from_str(s).ok()
}

/// Relies on `Signature::from_str`: base58 text of 64 bytes; longer text is
/// refused before decoding.
#[verifier::external_body]
pub(crate) fn signature_from_text(s: &str) -> (r: Option<Signature>)
    ensures
        r == signature_parsed(s@),
        s@.len() > MAX_SIGNATURE_TEXT ==> r is None,
{
    <Signature as std::str::FromStr>::from_str(s).ok()
}

/// Relies on `bs58::decode(..).into_vec()` (re-exported by the SDK): the bytes
/// that base58 text stands for.
#[verifier::external_body]
pub(crate) fn base58_decode(s: &str) -> (r: Option<Vec<u8>>)
    ensures
        r is Some <==> base58_bytes(s@) is Some,
        r matches Some(b) ==> b@ == base58_bytes(s@)->0,
{
    solana_sdk::bs58::decode(s).into_vec().ok()
}

/// Relies on `Keypair::try_from(&[u8])`: a key pair from its secret and public
/// halves; fewer than 64 bytes are refused.
#[verifier::external_body]
pub(crate) fn keypair_from_bytes(b: &[u8]) -> (r: Option<Keypair>)
    ensures
        r == keypair_parsed(b@),
        b@.len() < KEYPAIR_BYTES ==> r is None,
{
    Keypair::try_from(b).ok()
}

/// Reads a signing key pair from base58 text of exactly 64 bytes.
pub fn keypair_from_base58(s: &str) -> (r: Option<Keypair>)
    ensures
        r == key_from_text(s@),
{
    match base58_decode(s) {
        None => None,
        Some(bytes) => {
            if bytes.len() != KEYPAIR_BYTES {
                None
            } else {
                keypair_from_bytes(bytes.as_slice())
            }
        },
    }
}

} // verus!
