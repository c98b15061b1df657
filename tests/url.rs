use cpts::units::parse_amount;
use cpts::url::{decimal_string, execute_url, order_url, quote_url, swap_instructions_url};

#[test]
fn decimal_string_values() {
    assert_eq!(decimal_string(0), "0");
    assert_eq!(decimal_string(7), "7");
    assert_eq!(decimal_string(1000000), "1000000");
    assert_eq!(decimal_string(u64::MAX), "18446744073709551615");
}

#[test]
fn decimal_string_reads_back() {
    for n in [0u64, 1, 9, 10, 99, 12345, u64::MAX - 1, u64::MAX] {
        assert_eq!(parse_amount(&decimal_string(n)), Some(n));
    }
}

#[test]
fn order_url_shape() {
    assert_eq!(
        order_url("So11111111111111111111111111111111111111112", "MintB", 1000000, "Taker"),
        "https://lite-api.jup.ag/swap/v1/order?inputMint=So11111111111111111111111111111111111111112&outputMint=MintB&amount=1000000&taker=Taker&slippageBps=2000"
    );
}

#[test]
fn quote_url_shape() {
    assert_eq!(
        quote_url("A", "B", 42),
        "https://lite-api.jup.ag/swap/v1/quote?inputMint=A&outputMint=B&amount=42&slippageBps=200&restrictIntermediateTokens=true"
    );
}

#[test]
fn endpoint_urls() {
    assert_eq!(execute_url(), "https://lite-api.jup.ag/swap/v1/execute");
    assert_eq!(swap_instructions_url(), "https://lite-api.jup.ag/swap/v1/swap-instructions");
}
