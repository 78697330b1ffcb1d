use vstd::prelude::*;

use crate::errors::BettingError;
use crate::vault::Vault;

verus! {

/// Lifecycle phase of a race. Transitions are monotonic:
/// `Upcoming -> Live -> Finished`, with the direct step
/// `Upcoming -> Finished` also permitted; no transition goes back.
#[derive(Clone, Copy, Debug, PartialEq, Eq, Structural)]
pub enum RaceStatus {
    Upcoming,
    Live,
    Finished,
}

/// One race: the operator that administers it, descriptive metadata, the
/// fixed entrant list, the lifecycle status, the winner once declared, and
/// the betting pools.
#[derive(Clone, Debug, PartialEq, Eq)]
pub struct Race {
    /// The principal allowed to administer this race.
    pub admin: u64,
    /// Descriptive metadata, opaque to the ledger.
    pub title: String,
    /// Descriptive metadata, opaque to the ledger.
    pub livestream: String,
    /// Ordered entrant names; the length is fixed at creation and is >= 1.
    pub hamsters: Vec<String>,
    /// Lifecycle phase.
    pub status: RaceStatus,
    /// Winning entrant, set exactly once, only when the race finishes.
    pub winner_index: Option<u8>,
    /// Sum of all bet amounts ever accepted for this race.
    pub total_pool: u64,
    /// Per-entrant sums of the bet amounts placed on each entrant;
    /// parallel to `hamsters`.
    pub hamster_pools: Vec<u64>,
}

/// Mathematical sum of a sequence of pool balances.
pub open spec fn pool_sum(pools: Seq<u64>) -> int
    decreases pools.len(),
{
    if pools.len() == 0 {
        0
    } else {
        pool_sum(pools.drop_last()) + pools.last()
    }
}

/// Updating one entry of a pool sequence moves its sum by the difference
/// between the new and the old entry.
pub proof fn lemma_pool_sum_update(pools: Seq<u64>, i: int, v: u64)
    requires
        0 <= i < pools.len(),
    ensures
        pool_sum(pools.update(i, v)) == pool_sum(pools) - pools[i] + v,
    decreases pools.len(),
{
    let upd = pools.update(i, v);
    if i == pools.len() - 1 {
        assert(upd.drop_last() =~= pools.drop_last());
    } else {
        lemma_pool_sum_update(pools.drop_last(), i, v);
        assert(upd.drop_last() =~= pools.drop_last().update(i, v));
    }
}

/// A sequence of pool balances never sums to a negative value.
pub proof fn lemma_pool_sum_nonneg(pools: Seq<u64>)
    ensures
        pool_sum(pools) >= 0,
    decreases pools.len(),
{
    if pools.len() > 0 {
        lemma_pool_sum_nonneg(pools.drop_last());
    }
}

impl Race {
    /// Well-formedness of a race record: the pools run parallel to the
    /// entrant list, the entrant list is non-empty, the total pool is the
    /// sum of the per-entrant pools, and a declared winner is a valid
    /// entrant of a finished race.
    pub open spec fn wf(self) -> bool {
        &&& self.hamster_pools@.len() == self.hamsters@.len()
        &&& self.hamsters@.len() >= 1
        &&& self.total_pool == pool_sum(self.hamster_pools@)
        &&& match self.winner_index {
            Some(w) => (w as int) < self.hamsters@.len() && self.status is Finished,
            None => true,
        }
    }

    /// Whether the race still accepts bets.
    pub open spec fn betting_open(self) -> bool {
        self.status is Upcoming || self.status is Live
    }
}

/// The exact outcome `stop_betting` owes for the given race and caller.
pub open spec fn stop_betting_check(race: Race, caller: u64) -> Result<(), BettingError> {
    if caller != race.admin {
        Err(BettingError::Unauthorized)
    } else if !(race.status is Upcoming) {
        Err(BettingError::InvalidState)
    } else {
        Ok(())
    }
}

/// The exact outcome `set_winner` owes for the given race, caller, and
/// entrant index.
pub open spec fn set_winner_check(race: Race, caller: u64, winner_index: u8) -> Result<
    (),
    BettingError,
> {
    if caller != race.admin {
        Err(BettingError::Unauthorized)
    } else if winner_index as int >= race.hamsters@.len() {
        Err(BettingError::InvalidEntrant)
    } else if race.status is Finished {
        Err(BettingError::InvalidState)
    } else {
        Ok(())
    }
}

/// Registers a race: records the operator and the metadata, fixes the
/// entrant list, starts the lifecycle at `Upcoming` with no winner, zeroes
/// all pools, and binds a fresh, empty escrow vault to the race.
pub fn create_race(admin: u64, title: String, livestream: String, hamsters: Vec<String>) -> (result:
    (Race, Vault))
    requires
        hamsters@.len() >= 1,
    ensures
        result.0.wf(),
        result.0.admin == admin,
        result.0.title == title,
        result.0.livestream == livestream,
        result.0.hamsters == hamsters,
        result.0.status is Upcoming,
        result.0.winner_index is None,
        result.0.total_pool == 0,
        result.0.hamster_pools@.len() == hamsters@.len(),
        forall|i: int|
            0 <= i < result.0.hamster_pools@.len() ==> result.0.hamster_pools@[i] == 0u64,
        result.1@ == 0,
{
    let n = hamsters.len();
    let mut pools: Vec<u64> = Vec::new();
    let mut i: usize = 0;
    while i < n
        invariant
            i <= n,
            pools@.len() == i as int,
            forall|j: int| 0 <= j < i as int ==> pools@[j] == 0u64,
            pool_sum(pools@) == 0,
        decreases n - i,
    {
        let ghost prev = pools@;
        pools.push(0);
        proof {
            assert(pools@.drop_last() =~= prev);
        }
        i = i + 1;
    }
    let race = Race {
        admin,
        title,
        livestream,
        hamsters,
        status: RaceStatus::Upcoming,
        winner_index: None,
        total_pool: 0,
        hamster_pools: pools,
    };
    (race, Vault::new())
}

/// Locks betting: only the operator may do so, only while the race is
/// `Upcoming`, and the one-way transition moves the race to `Live`.
pub fn stop_betting(race: &mut Race, caller: u64) -> (result: Result<(), BettingError>)
    requires
        old(race).wf(),
    ensures
        final(race).wf(),
        result == stop_betting_check(*old(race), caller),
        result is Ok ==> *final(race) == (Race { status: RaceStatus::Live, ..*old(race) }),
        result is Err ==> *final(race) == *old(race),
{
    if caller != race.admin {
        return Err(BettingError::Unauthorized);
    }
    let upcoming = match race.status {
        RaceStatus::Upcoming => true,
        RaceStatus::Live => false,
        RaceStatus::Finished => false,
    };
    if !upcoming {
        return Err(BettingError::InvalidState);
    }
    race.status = RaceStatus::Live;
    Ok(())
}

/// Declares the winner: only the operator may do so, the index must name an
/// entrant, and a finished race is terminal, so declaring twice fails with
/// `InvalidState`. The transition is allowed from `Upcoming` as well as
/// `Live`; it finishes the race and records the winner.
pub fn set_winner(race: &mut Race, caller: u64, winner_index: u8) -> (result: Result<
    (),
    BettingError,
>)
    requires
        old(race).wf(),
    ensures
        final(race).wf(),
        result == set_winner_check(*old(race), caller, winner_index),
        result is Ok ==> *final(race) == (Race {
            status: RaceStatus::Finished,
            winner_index: Some(winner_index),
            ..*old(race)
        }),
        result is Err ==> *final(race) == *old(race),
{
    if caller != race.admin {
        return Err(BettingError::Unauthorized);
    }
    if (winner_index as usize) >= race.hamsters.len() {
        return Err(BettingError::InvalidEntrant);
    }
    let finished = match race.status {
        RaceStatus::Upcoming => false,
        RaceStatus::Live => false,
        RaceStatus::Finished => true,
    };
    if finished {
        return Err(BettingError::InvalidState);
    }
    race.status = RaceStatus::Finished;
    race.winner_index = Some(winner_index);
    Ok(())
}

} // verus!
