//! The run's configuration: the wallet's credentials combined with the
//! command-line choices, checked once and immutable afterwards.
use vstd::prelude::*;
use solana_sdk::pubkey::Pubkey;
use solana_sdk::signature::Keypair;
use crate::chain::{
    bad_key_text, base58_bytes, base58_decode, keypair_from_bytes, keypair_parsed, pubkey_from_text,
    pubkey_parsed, KEYPAIR_BYTES,
};
use crate::units::{abs, decimal_i64, parse, UnitsError};

verus! {

/// What the credentials file holds, as text.
pub struct Credentials {
    pub wallet_address: String,
    pub wallet_private_key: String,
    pub quicknode_rpc_url: String,
}

/// What the command line holds, as text and flags.
pub struct Arguments {
    pub mint: String,
    pub units: Option<String>,
    pub simulate: bool,
    pub balance: bool,
    pub jupiter_api_key: String,
}

/// Why a configuration was refused.
#[derive(Clone, Copy, Debug, PartialEq, Eq, Structural)]
pub enum ConfigError {
    InvalidUnits(UnitsError),
    InvalidMint,
    InvalidWalletAddress,
    InvalidPrivateKey,
}

impl ConfigError {
    /// The text of [`ConfigError::message`].
    pub open spec fn message_spec(&self) -> Seq<char> {
        match self {
            ConfigError::InvalidUnits(e) => e.message_spec(),
            ConfigError::InvalidMint => "Invalid mint address."@,
            ConfigError::InvalidWalletAddress => "Invalid wallet address."@,
            ConfigError::InvalidPrivateKey => "Invalid wallet private key."@,
        }
    }

    /// A one-line description of the error.
    pub fn message(&self) -> (r: String)
        ensures
            r@ == self.message_spec(),
    {
        match self {
            ConfigError::InvalidUnits(e) => e.message(),
            ConfigError::InvalidMint => "Invalid mint address.".to_string(),
            ConfigError::InvalidWalletAddress => "Invalid wallet address.".to_string(),
            ConfigError::InvalidPrivateKey => "Invalid wallet private key.".to_string(),
        }
    }
}

/// The direction and magnitude that optional unit text denotes, where it
/// denotes a non-zero `i64`.
pub open spec fn units_of(t: Option<Seq<char>>) -> Option<(bool, u64)> {
    match t {
        None => None,
        Some(s) => Some((decimal_i64(s)->0 > 0, abs(decimal_i64(s)->0) as u64)),
    }
}

/// Optional unit text that is present and not a non-zero `i64`.
pub open spec fn bad_units(t: Option<Seq<char>>) -> bool {
    t matches Some(s) && (decimal_i64(s) is None || decimal_i64(s) == Some(0int))
}

/// The view of optional text.
pub open spec fn text_of(t: Option<String>) -> Option<Seq<char>> {
    match t {
        None => None,
        Some(s) => Some(s@),
    }
}

/// The configuration of one run.
pub struct Config {
    mint: Pubkey,
    units: Option<(bool, u64)>,
    is_simulation: bool,
    balance: bool,
    wallet_address: Pubkey,
    wallet_private_key: Keypair,
    wallet_key_bytes: Vec<u8>,
    quicknode_rpc_url: String,
    jupiter_api_key: String,
}

impl Config {
    /// A present amount is never zero, so its direction is known; the key
    /// pair is the one its bytes stand for.
    pub closed spec fn wf(&self) -> bool {
        &&& (self.units matches Some((_, n)) ==> n != 0)
        &&& keypair_parsed(self.wallet_key_bytes@) == Some(self.wallet_private_key)
        &&& self.wallet_key_bytes@.len() == KEYPAIR_BYTES
    }

    pub closed spec fn key_spec(&self) -> Keypair {
        self.wallet_private_key
    }

    pub closed spec fn key_bytes_spec(&self) -> Seq<u8> {
        self.wallet_key_bytes@
    }

    pub closed spec fn mint_spec(&self) -> Pubkey {
        self.mint
    }

    pub closed spec fn units_spec(&self) -> Option<(bool, u64)> {
        self.units
    }

    pub closed spec fn simulate_spec(&self) -> bool {
        self.is_simulation
    }

    pub closed spec fn balance_spec(&self) -> bool {
        self.balance
    }

    pub closed spec fn wallet_spec(&self) -> Pubkey {
        self.wallet_address
    }

    pub closed spec fn rpc_url_spec(&self) -> Seq<char> {
        self.quicknode_rpc_url@
    }

    pub closed spec fn api_key_spec(&self) -> Seq<char> {
        self.jupiter_api_key@
    }

    /// Combines the credentials with the command line. The amount is checked
    /// first, then the mint, the wallet address and the private key; the first
    /// that fails gives the error.
    pub fn new(creds: Credentials, args: Arguments) -> (r: Result<Config, ConfigError>)
        ensures
            bad_units(text_of(args.units)) <==> r matches Err(ConfigError::InvalidUnits(_)),
            r == Err::<Config, ConfigError>(ConfigError::InvalidMint) <==> (!bad_units(
                text_of(args.units),
            ) && pubkey_parsed(args.mint@) is None),
            r == Err::<Config, ConfigError>(ConfigError::InvalidWalletAddress) <==> (!bad_units(
                text_of(args.units),
            ) && pubkey_parsed(args.mint@) is Some && pubkey_parsed(creds.wallet_address@) is None),
            r == Err::<Config, ConfigError>(ConfigError::InvalidPrivateKey) <==> (!bad_units(
                text_of(args.units),
            ) && pubkey_parsed(args.mint@) is Some && pubkey_parsed(creds.wallet_address@) is Some
                && (bad_key_text(creds.wallet_private_key@) || keypair_parsed(
                base58_bytes(creds.wallet_private_key@)->0,
            ) is None)),
            r matches Ok(c) ==> {
                &&& c.wf()
                &&& Some(c.mint_spec()) == pubkey_parsed(args.mint@)
                &&& Some(c.wallet_spec()) == pubkey_parsed(creds.wallet_address@)
                &&& c.key_bytes_spec() == base58_bytes(creds.wallet_private_key@)->0
                &&& Some(c.key_spec()) == keypair_parsed(c.key_bytes_spec())
                &&& c.units_spec() == units_of(text_of(args.units))
                &&& c.simulate_spec() == args.simulate
                &&& c.balance_spec() == args.balance
                &&& c.rpc_url_spec() == creds.quicknode_rpc_url@
                &&& c.api_key_spec() == args.jupiter_api_key@
            },
    {
        let units = match &args.units {
            None => None,
            Some(t) => match parse(t.as_str()) {
                Ok(u) => Some(u),
                Err(e) => {
                    return Err(ConfigError::InvalidUnits(e));
                },
            },
        };
        let mint = match pubkey_from_text(args.mint.as_str()) {
            Some(m) => m,
            None => {
                return Err(ConfigError::InvalidMint);
            },
        };
        let wallet_address = match pubkey_from_text(creds.wallet_address.as_str()) {
            Some(a) => a,
            None => {
                return Err(ConfigError::InvalidWalletAddress);
            },
        };
        let wallet_key_bytes = match base58_decode(creds.wallet_private_key.as_str()) {
            Some(b) => b,
            None => {
                return Err(ConfigError::InvalidPrivateKey);
            },
        };
        if wallet_key_bytes.len() != KEYPAIR_BYTES {
            return Err(ConfigError::InvalidPrivateKey);
        }
        let wallet_private_key = match keypair_from_bytes(wallet_key_bytes.as_slice()) {
            Some(k) => k,
            None => {
                return Err(ConfigError::InvalidPrivateKey);
            },
        };
        Ok(Config {
            mint,
            units,
            is_simulation: args.simulate,
            balance: args.balance,
            wallet_address,
            wallet_private_key,
            wallet_key_bytes,
            quicknode_rpc_url: creds.quicknode_rpc_url,
            jupiter_api_key: args.jupiter_api_key,
        })
    }

    /// The token to trade.
    pub fn mint(&self) -> (r: Pubkey)
        ensures
            r == self.mint_spec(),
    {
        self.mint
    }

    /// Whether the trade buys the token (a positive amount).
    pub fn is_buy(&self) -> (r: bool)
        ensures
            r == (self.units_spec() matches Some((b, _)) && b),
    {
        match self.units {
            Some((b, _)) => b,
            None => false,
        }
    }

    /// The number of units to trade, where one was given.
    pub fn units(&self) -> (r: Option<u64>)
        ensures
            r == (match self.units_spec() {
                Some((_, n)) => Some(n),
                None => None::<u64>,
            }),
            self.wf() ==> (r matches Some(n) ==> n != 0),
    {
        match self.units {
            Some((_, n)) => Some(n),
            None => None,
        }
    }

    /// Whether the trade is only simulated.
    pub fn is_simulation(&self) -> (r: bool)
        ensures
            r == self.simulate_spec(),
    {
        self.is_simulation
    }

    /// Whether the run only reports balances.
    pub fn balance(&self) -> (r: bool)
        ensures
            r == self.balance_spec(),
    {
        self.balance
    }

    /// The wallet's address.
    pub fn wallet_addr(&self) -> (r: Pubkey)
        ensures
            r == self.wallet_spec(),
    {
        self.wallet_address
    }

    /// The wallet's signing key pair.
    pub fn private_key(&self) -> (r: &Keypair)
        ensures
            *r == self.key_spec(),
    {
        &self.wallet_private_key
    }

    /// The bytes of the wallet's key pair: secret, then public half.
    pub fn private_key_bytes(&self) -> (r: &[u8])
        ensures
            r@ == self.key_bytes_spec(),
    {
        self.wallet_key_bytes.as_slice()
    }

    /// The ledger node's endpoint.
    pub fn rpc_url(&self) -> (r: &str)
        ensures
            r@ == self.rpc_url_spec(),
    {
        self.quicknode_rpc_url.as_str()
    }

    /// The key sent to the aggregator.
    pub fn jupiter_api_key(&self) -> (r: &str)
        ensures
            r@ == self.api_key_spec(),
    {
        self.jupiter_api_key.as_str()
    }
}

} // verus!
