//! Signing the unsigned transaction that the aggregator hands out with an
//! order, and wrapping it into a request for execution.
use vstd::prelude::*;
use base64::Engine;
use solana_sdk::signature::Keypair;
use solana_sdk::transaction::VersionedTransaction;
use crate::api::{ExecuteRequest, TradeError};

verus! {

/// The bytes that standard base64 text stands for, where it is valid.
pub uninterp spec fn base64_bytes(s: Seq<char>) -> Option<Seq<u8>>;

/// The standard base64 text of some bytes.
pub uninterp spec fn base64_text(b: Seq<u8>) -> Seq<char>;

/// Relies on base64's standard engine `decode`: the bytes that the text stands for.
#[verifier::external_body]
fn base64_decode(s: &str) -> (r: Option<Vec<u8>>)
    ensures
        r is Some <==> base64_bytes(s@) is Some,
        r matches Some(b) ==> b@ == base64_bytes(s@)->0,
{
    base64::engine::general_purpose::STANDARD.decode(s).ok()
}

/// Relies on base64's standard engine `encode`, which `decode` inverts.
#[verifier::external_body]
fn base64_encode(b: &[u8]) -> (r: String)
    ensures
        r@ == base64_text(b@),
        base64_bytes(r@) == Some(b@),
{
    base64::engine::general_purpose::STANDARD.encode(b)
}

/// Whether bytes hold a bincode `VersionedTransaction`.
pub uninterp spec fn transaction_ok(b: Seq<u8>) -> bool;

/// The bincode bytes of the transaction in `unsigned`, its message signed by
/// the key pair in `key` alone, where that succeeds.
pub uninterp spec fn signed_bytes(unsigned: Seq<u8>, key: Seq<u8>) -> Option<Seq<u8>>;

/// Relies on `bincode::deserialize` of a `VersionedTransaction`.
#[verifier::external_body]
fn is_transaction(b: &[u8]) -> (r: bool)
    ensures
        r == transaction_ok(b@),
{
    bincode::deserialize::<VersionedTransaction>(b).is_ok()
}

/// Relies on `Keypair::try_from(&[u8])`, `bincode::deserialize`,
/// `VersionedTransaction::try_new` (the message signed by the one key, earlier
/// signatures dropped) and `bincode::serialize`.
#[verifier::external_body]
fn sign_transaction(unsigned: &[u8], key: &[u8]) -> (r: Option<Vec<u8>>)
    ensures
        r is Some <==> signed_bytes(unsigned@, key@) is Some,
        r matches Some(b) ==> b@ == signed_bytes(unsigned@, key@)->0,
        !transaction_ok(unsigned@) ==> r is None,
{
    let key = Keypair::try_from(key).ok()?;
    let tx = bincode::deserialize::<VersionedTransaction>(unsigned).ok()?;
    let signed = VersionedTransaction::try_new(tx.message, &[&key]).ok()?;
    bincode::serialize(&signed).ok()
}

/// What the aggregator hands out with an order.
pub struct OrderReply {
    /// The unsigned transaction, in standard base64.
    pub transaction: String,
    pub request_id: String,
    pub slippage_bps: u64,
}

/// Signs the order's transaction with the wallet's key pair, given by its 64
/// bytes, and pairs it with the order's request identifier. Text that is not
/// base64 of a transaction is a parse error; a transaction that the key cannot
/// sign alone is a transaction error.
pub fn sign_order(order: OrderReply, key: &[u8]) -> (r: Result<ExecuteRequest, TradeError>)
    ensures
        base64_bytes(order.transaction@) is None ==> r matches Err(TradeError::ResponseParse(_)),
        (base64_bytes(order.transaction@) is Some && !transaction_ok(
            base64_bytes(order.transaction@)->0,
        )) ==> r matches Err(TradeError::ResponseParse(_)),
        (base64_bytes(order.transaction@) is Some && transaction_ok(
            base64_bytes(order.transaction@)->0,
        )) ==> {
            &&& (r is Ok <==> signed_bytes(base64_bytes(order.transaction@)->0, key@) is Some)
            &&& (r is Err ==> r matches Err(TradeError::Transaction(_)))
        },
        r matches Ok(req) ==> {
            &&& req.request_id@ == order.request_id@
            &&& base64_bytes(req.signed_transaction@) == signed_bytes(
                base64_bytes(order.transaction@)->0,
                key@,
            )
            &&& req.signed_transaction@ == base64_text(
                signed_bytes(base64_bytes(order.transaction@)->0, key@)->0,
            )
        },
{
    let bytes = match base64_decode(order.transaction.as_str()) {
        Some(b) => b,
        None => {
            return Err(TradeError::ResponseParse("Invalid base64 transaction.".to_string()));
        },
    };
    if !is_transaction(bytes.as_slice()) {
        return Err(TradeError::ResponseParse("Invalid transaction encoding.".to_string()));
    }
    let out = match sign_transaction(bytes.as_slice(), key) {
        Some(b) => b,
        None => {
            return Err(TradeError::Transaction("Failed to sign the transaction.".to_string()));
        },
    };
    let text = base64_encode(out.as_slice());
    Ok(ExecuteRequest { signed_transaction: text, request_id: order.request_id })
}

} // verus!
