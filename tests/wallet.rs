use base64::Engine;
use cpts::api::TradeError;
use cpts::chain::keypair_from_base58;
use cpts::config::{Arguments, Config, ConfigError, Credentials};
use cpts::plan::{amount_from_balance, first_step, swap_mints, Step};
use cpts::sign::{sign_order, OrderReply};
use cpts::units::UnitsError;
use solana_sdk::message::{Message, VersionedMessage};
use solana_sdk::pubkey::Pubkey;
use solana_sdk::signature::{Keypair, Signature};
use solana_sdk::signer::Signer;
use solana_sdk::transaction::VersionedTransaction;

const MINT: &str = "EPjFWdd5AufqSSqeM2qN1xzybapC8G4wEGGkZwyTDt1v";

fn creds(key: &Keypair) -> Credentials {
    Credentials {
        wallet_address: key.pubkey().to_string(),
        wallet_private_key: key.to_base58_string(),
        quicknode_rpc_url: "http://localhost:8899".to_string(),
    }
}

fn args(units: Option<&str>, simulate: bool, balance: bool) -> Arguments {
    Arguments {
        mint: MINT.to_string(),
        units: units.map(|u| u.to_string()),
        simulate,
        balance,
        jupiter_api_key: "SECRET-REDACTED".to_string(),
    }
}

#[test]
fn config_from_valid_parts() {
    let key = Keypair::new();
    let cfg = Config::new(creds(&key), args(Some("1000000"), true, false)).unwrap();
    assert_eq!(cfg.mint().to_string(), MINT);
    assert!(cfg.is_buy());
    assert_eq!(cfg.units(), Some(1000000));
    assert!(cfg.is_simulation());
    assert!(!cfg.balance());
    assert_eq!(cfg.wallet_addr(), key.pubkey());
    assert_eq!(cfg.private_key().pubkey(), key.pubkey());
    assert_eq!(cfg.private_key_bytes(), &key.to_bytes()[..]);
    assert_eq!(cfg.rpc_url(), "http://localhost:8899");
    assert_eq!(cfg.jupiter_api_key(), "SECRET-REDACTED");
}

#[test]
fn config_sell_and_no_units() {
    let key = Keypair::new();
    let cfg = Config::new(creds(&key), args(Some("-25"), false, false)).unwrap();
    assert!(!cfg.is_buy());
    assert_eq!(cfg.units(), Some(25));
    let cfg = Config::new(creds(&key), args(None, false, false)).unwrap();
    assert!(!cfg.is_buy());
    assert_eq!(cfg.units(), None);
}

#[test]
fn config_errors() {
    let key = Keypair::new();
    assert!(matches!(
        Config::new(creds(&key), args(Some("0"), false, false)),
        Err(ConfigError::InvalidUnits(UnitsError::Zero))
    ));
    let mut a = args(None, false, false);
    a.mint = "not a mint".to_string();
    assert!(matches!(Config::new(creds(&key), a), Err(ConfigError::InvalidMint)));
    let mut c = creds(&key);
    c.wallet_address = "0OIl".to_string();
    assert!(matches!(Config::new(c, args(None, false, false)), Err(ConfigError::InvalidWalletAddress)));
    let mut c = creds(&key);
    c.wallet_private_key = "abc".to_string();
    assert!(matches!(Config::new(c, args(None, false, false)), Err(ConfigError::InvalidPrivateKey)));
    let mut a = args(None, false, false);
    a.mint = "1111111111111111111111111111111O".to_string();
    assert!(matches!(Config::new(creds(&key), a), Err(ConfigError::InvalidMint)));
    let mut c = creds(&key);
    c.wallet_address = "3yZe7d".to_string();
    assert!(matches!(Config::new(c, args(None, false, false)), Err(ConfigError::InvalidWalletAddress)));
    let mut c = creds(&key);
    let mut bad = key.to_bytes();
    bad[63] ^= 1;
    c.wallet_private_key = solana_sdk::bs58::encode(bad).into_string();
    assert!(matches!(Config::new(c, args(None, false, false)), Err(ConfigError::InvalidPrivateKey)));
    assert_eq!(ConfigError::InvalidMint.message(), "Invalid mint address.");
}

#[test]
fn keypair_text_round_trip() {
    let key = Keypair::new();
    let back = keypair_from_base58(&key.to_base58_string()).unwrap();
    assert_eq!(back.pubkey(), key.pubkey());
    assert!(keypair_from_base58("0").is_none());
    assert!(keypair_from_base58(&Pubkey::new_unique().to_string()).is_none());
}

#[test]
fn balance_only_run_shows_token_balance() {
    let key = Keypair::new();
    let cfg = Config::new(creds(&key), args(Some("5"), false, true)).unwrap();
    assert_eq!(first_step(&cfg), Step::ShowTokenBalance);
}

#[test]
fn run_steps_follow_units() {
    let key = Keypair::new();
    let cfg = Config::new(creds(&key), args(Some("1000000"), true, false)).unwrap();
    assert_eq!(first_step(&cfg), Step::PlaceOrder(1000000));
    let native = Pubkey::from_str_const(cpts::api::WSOL);
    let mint = Pubkey::from_str_const(MINT);
    assert_eq!(swap_mints(&cfg, native), (native, mint));
    let cfg = Config::new(creds(&key), args(None, false, false)).unwrap();
    assert_eq!(first_step(&cfg), Step::FetchTokenBalance);
    assert_eq!(swap_mints(&cfg, native), (mint, native));
}

#[test]
fn empty_balance_is_refused() {
    assert_eq!(amount_from_balance(0), Err(TradeError::NoBalance));
    assert_eq!(amount_from_balance(17), Ok(17));
}

fn unsigned_order(payer: &Pubkey) -> OrderReply {
    let message = VersionedMessage::Legacy(Message::new(&[], Some(payer)));
    let tx = VersionedTransaction { signatures: vec![Signature::default()], message };
    let bytes = bincode::serialize(&tx).unwrap();
    OrderReply {
        transaction: base64::engine::general_purpose::STANDARD.encode(bytes),
        request_id: "req-1".to_string(),
        slippage_bps: 2000,
    }
}

#[test]
fn signed_order_decodes_with_one_valid_signature() {
    let key = Keypair::new();
    let order = unsigned_order(&key.pubkey());
    let original = order.transaction.clone();
    let req = sign_order(order, &key.to_bytes()).unwrap();
    assert_eq!(req.request_id, "req-1");
    assert_ne!(req.signed_transaction, original);
    let bytes = base64::engine::general_purpose::STANDARD.decode(&req.signed_transaction).unwrap();
    let tx: VersionedTransaction = bincode::deserialize(&bytes).unwrap();
    assert_eq!(tx.signatures.len(), 1);
    assert!(tx.verify_with_results().iter().all(|ok| *ok));
    assert_eq!(tx.message.static_account_keys()[0], key.pubkey());
}

#[test]
fn order_signed_by_another_key_is_refused() {
    let key = Keypair::new();
    let order = unsigned_order(&Pubkey::new_unique());
    assert!(matches!(sign_order(order, &key.to_bytes()), Err(TradeError::Transaction(_))));
}

#[test]
fn order_with_bad_encoding_is_refused() {
    let key = Keypair::new();
    let mut order = unsigned_order(&key.pubkey());
    order.transaction = "%%%".to_string();
    assert_eq!(
        sign_order(unsigned_order(&key.pubkey()), &[0u8; 3]).map(|_| ()),
        Err(TradeError::Transaction("Failed to sign the transaction.".to_string()))
    );
    assert!(matches!(sign_order(order, &key.to_bytes()), Err(TradeError::ResponseParse(_))));
    let mut order = unsigned_order(&key.pubkey());
    order.transaction = base64::engine::general_purpose::STANDARD.encode([1u8, 2, 3]);
    assert!(matches!(sign_order(order, &key.to_bytes()), Err(TradeError::ResponseParse(_))));
}
