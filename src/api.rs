//! The aggregator's requests and replies, and the errors of a run.
use vstd::prelude::*;
use solana_sdk::signature::Signature;
use crate::chain::{signature_from_text, signature_parsed, MAX_SIGNATURE_TEXT};
use crate::config::ConfigError;

verus! {

/// The aggregator's base URL.
pub const JUP_API: &'static str = "https://lite-api.jup.ag/swap/v1";

/// The address of wrapped SOL, the native token's mint.
pub const WSOL: &'static str = "So11111111111111111111111111111111111111112";

/// The slippage, in basis points, asked for with a quote.
pub const QUOTE_SLIPPAGE_BPS: u64 = 200;

/// The slippage, in basis points, asked for with an order.
pub const ORDER_SLIPPAGE_BPS: u64 = 2000;

/// The kinds of failure of a run, each with its message.
#[derive(Clone, Debug, PartialEq, Eq)]
pub enum TradeError {
    Config(ConfigError),
    /// The wallet holds none of the token to sell.
    NoBalance,
    /// The aggregator refused, with its own message.
    Aggregator(String),
    /// A reply could not be read.
    ResponseParse(String),
    /// The ledger node could not be queried.
    Rpc(String),
    /// The transaction could not be built or signed.
    Transaction(String),
    /// The transaction could not be submitted or confirmed.
    Submission(String),
}

impl TradeError {
    /// A one-line description of the error: the message that the error
    /// carries, where it carries one.
    pub fn message(&self) -> (r: String)
        ensures
            self matches TradeError::Config(e) ==> r@ == e.message_spec(),
            self is NoBalance ==> r@ == "You don't own any of this token."@,
            self matches TradeError::Aggregator(m) ==> r@ == m@,
            self matches TradeError::ResponseParse(m) ==> r@ == m@,
            self matches TradeError::Rpc(m) ==> r@ == m@,
            self matches TradeError::Transaction(m) ==> r@ == m@,
            self matches TradeError::Submission(m) ==> r@ == m@,
    {
        match self {
            TradeError::Config(e) => e.message(),
            TradeError::NoBalance => "You don't own any of this token.".to_string(),
            TradeError::Aggregator(m) => m.clone(),
            TradeError::ResponseParse(m) => m.clone(),
            TradeError::Rpc(m) => m.clone(),
            TradeError::Transaction(m) => m.clone(),
            TradeError::Submission(m) => m.clone(),
        }
    }
}

/// The `error` field of a refusal from the aggregator, as read from its body.
pub enum ErrorField {
    /// The body has no `error` field.
    Missing,
    /// The field holds something other than a string.
    NotText,
    /// The field's string.
    Text(String),
}

/// The error that a refusal from the aggregator stands for: its message where
/// the `error` field holds a string, a parse error otherwise.
pub fn error_message(field: ErrorField) -> (r: TradeError)
    ensures
        field matches ErrorField::Text(m) ==> (r matches TradeError::Aggregator(x) && x@ == m@),
        field is Missing ==> (r matches TradeError::ResponseParse(m) && m@
            == "Failed to parse error message."@),
        field is NotText ==> (r matches TradeError::ResponseParse(m) && m@
            == "Failed to parse error message as string."@),
{
    match field {
        ErrorField::Text(m) => TradeError::Aggregator(m),
        ErrorField::Missing => TradeError::ResponseParse(
            "Failed to parse error message.".to_string(),
        ),
        ErrorField::NotText => TradeError::ResponseParse(
            "Failed to parse error message as string.".to_string(),
        ),
    }
}

/// A signed transaction handed to the aggregator for execution.
#[derive(Clone, Debug, PartialEq, Eq)]
pub struct ExecuteRequest {
    pub signed_transaction: String,
    pub request_id: String,
}

/// The aggregator's reply when an execution succeeded.
#[derive(Clone, Debug, PartialEq, Eq)]
pub struct ExecuteSuccess {
    pub signature: String,
}

/// The aggregator's reply when an execution failed.
#[derive(Clone, Debug, PartialEq, Eq)]
pub struct ExecuteFail {
    pub error: String,
    pub code: u64,
}

impl ExecuteSuccess {
    /// The signature of the executed transaction.
    pub fn signature(&self) -> (r: Result<Signature, TradeError>)
        ensures
            r is Ok <==> signature_parsed(self.signature@) is Some,
            r matches Ok(sig) ==> Some(sig) == signature_parsed(self.signature@),
            r is Err ==> r matches Err(TradeError::ResponseParse(_)),
            self.signature@.len() > MAX_SIGNATURE_TEXT ==> r is Err,
    {
        match signature_from_text(self.signature.as_str()) {
            Some(s) => Ok(s),
            None => Err(TradeError::ResponseParse("Invalid transaction signature.".to_string())),
        }
    }
}

impl ExecuteFail {
    /// The error that the reply stands for: its message.
    pub fn into_error(self) -> (r: TradeError)
        ensures
            r matches TradeError::Aggregator(m) && m@ == self.error@,
    {
        TradeError::Aggregator(self.error)
    }
}

} // verus!
