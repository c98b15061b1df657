//! The decisions of a run between its queries: what to do once the starting
//! balance is known, which way the swap goes, and how much it moves.
use vstd::prelude::*;
use solana_sdk::pubkey::Pubkey;
use crate::api::TradeError;
use crate::config::Config;

verus! {

/// The next step of a run, once the starting balance is shown.
#[derive(Clone, Copy, Debug, PartialEq, Eq, Structural)]
pub enum Step {
    /// Show the token account's balance, then end the run.
    ShowTokenBalance,
    /// No amount was given: trade the token account's whole balance.
    FetchTokenBalance,
    /// Trade this many units.
    PlaceOrder(u64),
}

/// The step after the starting balance: a balance-only run ends with the
/// token balance; otherwise the amount given is traded, or the whole balance.
pub fn first_step(cfg: &Config) -> (r: Step)
    requires
        cfg.wf(),
    ensures
        cfg.balance_spec() ==> r == Step::ShowTokenBalance,
        !cfg.balance_spec() && cfg.units_spec() is None ==> r == Step::FetchTokenBalance,
        !cfg.balance_spec() && cfg.units_spec() is Some ==> r == Step::PlaceOrder(
            (cfg.units_spec()->0).1,
        ),
        r matches Step::PlaceOrder(n) ==> n != 0,
{
    if cfg.balance() {
        Step::ShowTokenBalance
    } else {
        match cfg.units() {
            Some(n) => Step::PlaceOrder(n),
            None => Step::FetchTokenBalance,
        }
    }
}

/// The amount to trade when the whole token balance is sold: refused when
/// the wallet holds none.
pub fn amount_from_balance(balance: u64) -> (r: Result<u64, TradeError>)
    ensures
        balance == 0 ==> r == Err::<u64, TradeError>(TradeError::NoBalance),
        balance != 0 ==> r == Ok::<u64, TradeError>(balance),
{
    if balance == 0 {
        Err(TradeError::NoBalance)
    } else {
        Ok(balance)
    }
}

/// The mints that the swap goes from and to: a buy pays with the native
/// token, a sell pays with the configured token.
pub fn swap_mints(cfg: &Config, native_mint: Pubkey) -> (r: (Pubkey, Pubkey))
    ensures
        (cfg.units_spec() matches Some((b, _)) && b) ==> r == (native_mint, cfg.mint_spec()),
        !(cfg.units_spec() matches Some((b, _)) && b) ==> r == (cfg.mint_spec(), native_mint),
{
    if cfg.is_buy() {
        (native_mint, cfg.mint())
    } else {
        (cfg.mint(), native_mint)
    }
}

} // verus!
