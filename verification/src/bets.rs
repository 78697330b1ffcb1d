use vstd::prelude::*;

use crate::errors::BettingError;
use crate::race::{lemma_pool_sum_update, pool_sum, Race, RaceStatus};
use crate::vault::Vault;

verus! {

/// One wager: who placed it, which race and entrant it backs, its stake,
/// and whether its winnings were already paid out. A bet is immutable
/// except for the `claimed` flag, which moves false to true exactly once.
#[derive(Clone, Copy, Debug, PartialEq, Eq, Structural)]
pub struct Bet {
    /// The principal that placed the wager and alone may claim it.
    pub bettor: u64,
    /// Reference to the race the wager was placed on.
    pub race: u64,
    /// The entrant the wager backs.
    pub hamster_index: u8,
    /// The stake, always positive.
    pub amount: u64,
    /// Whether the winnings were already paid out.
    pub claimed: bool,
}

/// The exact outcome `place_bet` owes for the given race, vault, and wager:
/// the index must name an entrant, the race must still accept bets, and
/// neither the pools nor the vault balance may overflow; an accepted wager
/// yields a fresh unclaimed bet record.
pub open spec fn place_bet_check(
    race: Race,
    vault: Vault,
    bettor: u64,
    race_id: u64,
    hamster_index: u8,
    amount: u64,
) -> Result<Bet, BettingError> {
    if hamster_index as int >= race.hamsters@.len() {
        Err(BettingError::InvalidEntrant)
    } else if !race.betting_open() {
        Err(BettingError::EventClosed)
    } else if race.total_pool + amount > u64::MAX
        || race.hamster_pools@[hamster_index as int] + amount > u64::MAX
        || vault@ + amount > u64::MAX {
        Err(BettingError::Overflow)
    } else {
        Ok(Bet { bettor, race: race_id, hamster_index, amount, claimed: false })
    }
}

/// Accepts a wager: moves `amount` into the race's escrow vault, adds it to
/// the total pool and to the backed entrant's pool, and returns the fresh
/// bet record. The operation is atomic: on any error the race and the vault
/// are unchanged. The total pool stays the sum of the per-entrant pools.
pub fn place_bet(
    race: &mut Race,
    vault: &mut Vault,
    bettor: u64,
    race_id: u64,
    hamster_index: u8,
    amount: u64,
) -> (result: Result<Bet, BettingError>)
    requires
        old(race).wf(),
        amount > 0,
    ensures
        final(race).wf(),
        result == place_bet_check(*old(race), *old(vault), bettor, race_id, hamster_index, amount),
        result is Ok ==> {
            &&& final(race).total_pool == old(race).total_pool + amount
            &&& final(race).hamster_pools@ == old(race).hamster_pools@.update(
                hamster_index as int,
                (old(race).hamster_pools@[hamster_index as int] + amount) as u64,
            )
            &&& final(race).admin == old(race).admin
            &&& final(race).title == old(race).title
            &&& final(race).livestream == old(race).livestream
            &&& final(race).hamsters == old(race).hamsters
            &&& final(race).status == old(race).status
            &&& final(race).winner_index == old(race).winner_index
            &&& final(vault)@ == old(vault)@ + amount
        },
        result is Err ==> *final(race) == *old(race) && *final(vault) == *old(vault),
        final(race).total_pool == pool_sum(final(race).hamster_pools@),
{
    if (hamster_index as usize) >= race.hamsters.len() {
        return Err(BettingError::InvalidEntrant);
    }
    let open = match race.status {
        RaceStatus::Upcoming => true,
        RaceStatus::Live => true,
        RaceStatus::Finished => false,
    };
    if !open {
        return Err(BettingError::EventClosed);
    }
    let idx = hamster_index as usize;
    let entrant_pool = race.hamster_pools[idx];
    if race.total_pool > u64::MAX - amount || entrant_pool > u64::MAX - amount {
        return Err(BettingError::Overflow);
    }
    match vault.deposit(amount) {
        Ok(()) => {},
        Err(e) => {
            return Err(e);
        },
    }
    proof {
        lemma_pool_sum_update(
            race.hamster_pools@,
            hamster_index as int,
            (entrant_pool + amount) as u64,
        );
    }
    race.total_pool = race.total_pool + amount;
    race.hamster_pools[idx] = entrant_pool + amount;
    Ok(Bet { bettor, race: race_id, hamster_index, amount, claimed: false })
}

} // verus!
