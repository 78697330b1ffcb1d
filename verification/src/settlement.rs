use vstd::prelude::*;

use vstd::arithmetic::div_mod::{
    lemma_div_basics, lemma_div_is_ordered, lemma_div_multiples_vanish, lemma_fundamental_div_mod,
    lemma_mod_bound,
};
use vstd::arithmetic::mul::{
    lemma_mul_inequality, lemma_mul_is_distributive_add, lemma_mul_is_distributive_add_other_way,
    lemma_mul_nonnegative,
};

use crate::bets::Bet;
use crate::errors::BettingError;
use crate::race::{lemma_pool_sum_nonneg, pool_sum, Race, RaceStatus};
use crate::vault::Vault;

verus! {

/// Pari-mutuel payout for a winning stake: the whole pool, across all
/// entrants, divided proportionally to the stake's share of the winning
/// side's pool, rounded down.
pub open spec fn payout_amount(amount: u64, total_pool: u64, winner_pool: u64) -> int {
    (amount * total_pool) / (winner_pool as int)
}

/// The exact outcome `claim_winnings` owes for the given race, bet, vault,
/// and caller, with the checks in the order they are made: only the bettor
/// may claim, only on a finished race, only once per bet, only with a
/// recorded winner, only for a bet on that winner, only from a non-empty
/// winning pool, only for a payout the result type can represent, and only
/// from a vault that holds it.
pub open spec fn claim_check(race: Race, bet: Bet, vault: Vault, caller: u64) -> Result<
    u64,
    BettingError,
> {
    if caller != bet.bettor {
        Err(BettingError::Unauthorized)
    } else if !(race.status is Finished) {
        Err(BettingError::EventNotFinished)
    } else if bet.claimed {
        Err(BettingError::AlreadyClaimed)
    } else {
        match race.winner_index {
            None => Err(BettingError::WinnerNotSet),
            Some(w) => {
                if bet.hamster_index != w {
                    Err(BettingError::NotWinner)
                } else if race.hamster_pools@[w as int] == 0 {
                    Err(BettingError::MathError)
                } else if payout_amount(bet.amount, race.total_pool, race.hamster_pools@[w as int])
                    > u64::MAX {
                    Err(BettingError::Overflow)
                } else if vault@ < payout_amount(
                    bet.amount,
                    race.total_pool,
                    race.hamster_pools@[w as int],
                ) {
                    Err(BettingError::InsufficientVaultFunds)
                } else {
                    Ok(
                        payout_amount(
                            bet.amount,
                            race.total_pool,
                            race.hamster_pools@[w as int],
                        ) as u64,
                    )
                }
            },
        }
    }
}

/// Settles a winning bet: pays `floor(amount * total_pool / winner_pool)`
/// out of the escrow vault to the bettor and marks the bet claimed. The
/// product is taken at 128-bit width, so it never wraps. The operation is
/// atomic: on any error the bet and the vault are unchanged.
pub fn claim_winnings(race: &Race, bet: &mut Bet, vault: &mut Vault, caller: u64) -> (result:
    Result<u64, BettingError>)
    requires
        race.wf(),
    ensures
        result == claim_check(*race, *old(bet), *old(vault), caller),
        result matches Ok(payout) ==> {
            &&& payout == payout_amount(
                old(bet).amount,
                race.total_pool,
                race.hamster_pools@[race.winner_index.unwrap() as int],
            )
            &&& *final(bet) == (Bet { claimed: true, ..*old(bet) })
            &&& final(vault)@ == old(vault)@ - payout
        },
        result is Err ==> *final(bet) == *old(bet) && *final(vault) == *old(vault),
{
    if caller != bet.bettor {
        return Err(BettingError::Unauthorized);
    }
    let finished = match race.status {
        RaceStatus::Upcoming => false,
        RaceStatus::Live => false,
        RaceStatus::Finished => true,
    };
    if !finished {
        return Err(BettingError::EventNotFinished);
    }
    if bet.claimed {
        return Err(BettingError::AlreadyClaimed);
    }
    let w = match race.winner_index {
        None => {
            return Err(BettingError::WinnerNotSet);
        },
        Some(w) => w,
    };
    if bet.hamster_index != w {
        return Err(BettingError::NotWinner);
    }
    let winner_pool = race.hamster_pools[w as usize];
    if winner_pool == 0 {
        return Err(BettingError::MathError);
    }
    proof {
        assert((bet.amount as int) * (race.total_pool as int) <= u128::MAX as int)
            by (nonlinear_arith)
            requires
                bet.amount <= u64::MAX,
                race.total_pool <= u64::MAX,
        ;
    }
    let product = (bet.amount as u128) * (race.total_pool as u128);
    let payout128 = product / (winner_pool as u128);
    if payout128 > (u64::MAX as u128) {
        return Err(BettingError::Overflow);
    }
    let payout = payout128 as u64;
    match vault.withdraw(payout) {
        Ok(()) => {},
        Err(e) => {
            return Err(e);
        },
    }
    bet.claimed = true;
    Ok(payout)
}

/// Combined payout of a sequence of winning stakes against one race's total
/// pool and winning-side pool.
pub open spec fn payout_total(amounts: Seq<u64>, total_pool: u64, winner_pool: u64) -> int
    decreases amounts.len(),
{
    if amounts.len() == 0 {
        0
    } else {
        payout_total(amounts.drop_last(), total_pool, winner_pool) + payout_amount(
            amounts.last(),
            total_pool,
            winner_pool,
        )
    }
}

/// Floor division is superadditive: rounding two shares down separately
/// never yields more than rounding their sum down once.
proof fn lemma_div_superadditive(x: int, y: int, d: int)
    requires
        0 <= x,
        0 <= y,
        0 < d,
    ensures
        x / d + y / d <= (x + y) / d,
{
    lemma_fundamental_div_mod(x, d);
    lemma_fundamental_div_mod(y, d);
    lemma_mod_bound(x, d);
    lemma_mod_bound(y, d);
    lemma_mul_is_distributive_add(d, x / d, y / d);
    lemma_div_is_ordered(d * (x / d + y / d), x + y, d);
    lemma_div_multiples_vanish(x / d + y / d, d);
}

/// The combined payout of a sequence of stakes is at most the payout their
/// sum would earn in one piece.
proof fn lemma_payout_total_le_scaled(amounts: Seq<u64>, total_pool: u64, winner_pool: u64)
    requires
        winner_pool > 0,
    ensures
        payout_total(amounts, total_pool, winner_pool) <= (pool_sum(amounts) * total_pool) / (
        winner_pool as int),
    decreases amounts.len(),
{
    let t = total_pool as int;
    let w = winner_pool as int;
    if amounts.len() == 0 {
        lemma_div_basics(w);
    } else {
        let rest = amounts.drop_last();
        let a = amounts.last() as int;
        lemma_payout_total_le_scaled(rest, total_pool, winner_pool);
        lemma_pool_sum_nonneg(rest);
        lemma_mul_nonnegative(pool_sum(rest), t);
        lemma_mul_nonnegative(a, t);
        lemma_div_superadditive(pool_sum(rest) * t, a * t, w);
        lemma_mul_is_distributive_add_other_way(t, pool_sum(rest), a);
    }
}

/// Settlement never over-pays. For any collection of winning stakes whose
/// sum does not exceed the winning side's pool, the payouts the settlement
/// formula grants them together never exceed the race's total pool; integer
/// rounding can only strand dust in the vault, never mint funds.
pub proof fn lemma_payouts_bounded(amounts: Seq<u64>, total_pool: u64, winner_pool: u64)
    requires
        winner_pool > 0,
        pool_sum(amounts) <= winner_pool,
    ensures
        payout_total(amounts, total_pool, winner_pool) <= total_pool,
{
    let t = total_pool as int;
    let w = winner_pool as int;
    lemma_payout_total_le_scaled(amounts, total_pool, winner_pool);
    lemma_pool_sum_nonneg(amounts);
    lemma_mul_inequality(pool_sum(amounts), w, t);
    lemma_div_is_ordered(pool_sum(amounts) * t, w * t, w);
    lemma_div_multiples_vanish(t, w);
}

} // verus!
