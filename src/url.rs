//! The aggregator's endpoints and the query strings of its requests.
use vstd::prelude::*;
use crate::api::{JUP_API, ORDER_SLIPPAGE_BPS, QUOTE_SLIPPAGE_BPS};
use crate::units::{decimal_int, decimal_u64, digits_value, is_digit, unsigned_part};

verus! {

/// The decimal digit of a number below ten.
pub open spec fn digit_char(d: nat) -> char {
    seq!['0', '1', '2', '3', '4', '5', '6', '7', '8', '9'][d as int]
}

/// The decimal text of a natural number, without leading zeros.
pub open spec fn decimal_text(n: nat) -> Seq<char>
    decreases n,
{
    if n < 10 {
        seq![digit_char(n)]
    } else {
        decimal_text(n / 10).push(digit_char(n % 10))
    }
}

proof fn lemma_digit_char(d: nat)
    requires
        d < 10,
    ensures
        is_digit(digit_char(d)),
        digit_char(d) as int - '0' as int == d,
{
    let t = seq!['0', '1', '2', '3', '4', '5', '6', '7', '8', '9'];
    assert(t[0] == '0' && t[1] == '1' && t[2] == '2' && t[3] == '3' && t[4] == '4');
    assert(t[5] == '5' && t[6] == '6' && t[7] == '7' && t[8] == '8' && t[9] == '9');
}

proof fn lemma_decimal_text_value(n: nat)
    ensures
        decimal_text(n).len() > 0,
        forall|i: int| 0 <= i < decimal_text(n).len() ==> is_digit(#[trigger] decimal_text(n)[i]),
        digits_value(decimal_text(n)) == n,
    decreases n,
{
    if n < 10 {
        lemma_digit_char(n);
        assert(decimal_text(n).drop_last() =~= Seq::<char>::empty());
        assert(decimal_text(n).last() == digit_char(n));
        assert(digits_value(decimal_text(n)) == 10 * digits_value(Seq::<char>::empty()) + (
        digit_char(n) as int - '0' as int));
    } else {
        lemma_decimal_text_value(n / 10);
        lemma_digit_char(n % 10);
        let t = decimal_text(n / 10);
        assert(decimal_text(n).drop_last() =~= t);
        assert(decimal_text(n).last() == digit_char(n % 10));
        assert(digits_value(decimal_text(n)) == 10 * digits_value(t) + (digit_char(n % 10) as int
            - '0' as int));
        assert(10 * (n / 10) + n % 10 == n);
        assert(forall|i: int|
            0 <= i < decimal_text(n).len() ==> #[trigger] decimal_text(n)[i] == if i < t.len() {
                t[i]
            } else {
                digit_char(n % 10)
            });
    }
}

/// Reading back the decimal text of an amount gives the amount.
pub proof fn lemma_decimal_round_trip(n: u64)
    ensures
        decimal_u64(decimal_text(n as nat)) == Some(n as int),
{
    lemma_decimal_text_value(n as nat);
    let s = decimal_text(n as nat);
    assert(s[0] != '-' && s[0] != '+') by {
        assert(is_digit(s[0]));
    }
    assert(unsigned_part(s) == s);
    assert(decimal_int(s) == Some(n as int));
}

/// Relies on `String::push_str`: the text is appended.
#[verifier::external_body]
fn append(s: &mut String, t: &str)
    ensures
        final(s)@ == old(s)@ + t@,
{
    s.push_str(t)
}

/// Relies on `String::push`: the character is appended.
#[verifier::external_body]
fn append_char(s: &mut String, c: char)
    ensures
        final(s)@ == old(s)@.push(c),
{
    s.push(c)
}

fn digit(d: u64) -> (c: char)
    requires
        d < 10,
    ensures
        c == digit_char(d as nat),
{
    match d {
        0 => '0',
        1 => '1',
        2 => '2',
        3 => '3',
        4 => '4',
        5 => '5',
        6 => '6',
        7 => '7',
        8 => '8',
        _ => '9',
    }
}

/// Appends the decimal text of `n`.
fn append_decimal(s: &mut String, n: u64)
    ensures
        final(s)@ == old(s)@ + decimal_text(n as nat),
    decreases n,
{
    if n >= 10 {
        append_decimal(s, n / 10);
    }
    append_char(s, digit(n % 10));
    proof {
        if n >= 10 {
            assert(old(s)@ + decimal_text(n as nat) =~= old(s)@ + decimal_text((n / 10) as nat)
                + seq![digit_char((n % 10) as nat)]);
        } else {
            assert(old(s)@ + decimal_text(n as nat) =~= old(s)@.push(digit_char(n as nat)));
        }
    }
}

/// The decimal text of a number.
pub fn decimal_string(n: u64) -> (r: String)
    ensures
        r@ == decimal_text(n as nat),
{
    let mut s = String::new();
    append_decimal(&mut s, n);
    proof {
        assert(s@ =~= decimal_text(n as nat));
    }
    s
}

/// The URL that asks for an order: the pair, the amount, the wallet that takes
/// the trade, and the order's slippage.
pub fn order_url(input_mint: &str, output_mint: &str, amount: u64, taker: &str) -> (r: String)
    ensures
        r@ == JUP_API@ + "/order?inputMint="@ + input_mint@ + "&outputMint="@ + output_mint@
            + "&amount="@ + decimal_text(amount as nat) + "&taker="@ + taker@ + "&slippageBps="@
            + decimal_text(ORDER_SLIPPAGE_BPS as nat),
{
    let mut s = String::new();
    append(&mut s, JUP_API);
    append(&mut s, "/order?inputMint=");
    append(&mut s, input_mint);
    append(&mut s, "&outputMint=");
    append(&mut s, output_mint);
    append(&mut s, "&amount=");
    append_decimal(&mut s, amount);
    append(&mut s, "&taker=");
    append(&mut s, taker);
    append(&mut s, "&slippageBps=");
    append_decimal(&mut s, ORDER_SLIPPAGE_BPS);
    proof {
        assert(s@ =~= JUP_API@ + "/order?inputMint="@ + input_mint@ + "&outputMint="@
            + output_mint@ + "&amount="@ + decimal_text(amount as nat) + "&taker="@ + taker@
            + "&slippageBps="@ + decimal_text(ORDER_SLIPPAGE_BPS as nat));
    }
    s
}

/// The URL that asks for a quote: the pair, the amount, the quote's slippage,
/// and routes through well-known intermediate tokens only.
pub fn quote_url(input_mint: &str, output_mint: &str, amount: u64) -> (r: String)
    ensures
        r@ == JUP_API@ + "/quote?inputMint="@ + input_mint@ + "&outputMint="@ + output_mint@
            + "&amount="@ + decimal_text(amount as nat) + "&slippageBps="@ + decimal_text(
            QUOTE_SLIPPAGE_BPS as nat,
        ) + "&restrictIntermediateTokens=true"@,
{
    let mut s = String::new();
    append(&mut s, JUP_API);
    append(&mut s, "/quote?inputMint=");
    append(&mut s, input_mint);
    append(&mut s, "&outputMint=");
    append(&mut s, output_mint);
    append(&mut s, "&amount=");
    append_decimal(&mut s, amount);
    append(&mut s, "&slippageBps=");
    append_decimal(&mut s, QUOTE_SLIPPAGE_BPS);
    append(&mut s, "&restrictIntermediateTokens=true");
    proof {
        assert(s@ =~= JUP_API@ + "/quote?inputMint="@ + input_mint@ + "&outputMint="@
            + output_mint@ + "&amount="@ + decimal_text(amount as nat) + "&slippageBps="@
            + decimal_text(QUOTE_SLIPPAGE_BPS as nat) + "&restrictIntermediateTokens=true"@);
    }
    s
}

/// The URL that a signed quote's instructions are asked from.
pub fn swap_instructions_url() -> (r: String)
    ensures
        r@ == JUP_API@ + "/swap-instructions"@,
{
    let mut s = String::new();
    append(&mut s, JUP_API);
    append(&mut s, "/swap-instructions");
    proof {
        assert(s@ =~= JUP_API@ + "/swap-instructions"@);
    }
    s
}

/// The URL that a signed order is sent to for execution.
pub fn execute_url() -> (r: String)
    ensures
        r@ == JUP_API@ + "/execute"@,
{
    let mut s = String::new();
    append(&mut s, JUP_API);
    append(&mut s, "/execute");
    proof {
        assert(s@ =~= JUP_API@ + "/execute"@);
    }
    s
}

} // verus!
