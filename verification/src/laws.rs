use vstd::prelude::*;

use crate::bets::{place_bet_check, Bet};
use crate::errors::BettingError;
use crate::race::{set_winner_check, stop_betting_check, Race, RaceStatus};
use crate::settlement::claim_check;
use crate::vault::Vault;

verus! {

/// Locking betting does not close it: after `stop_betting` succeeds the
/// race is `Live`, betting is still open, and a wager is accepted exactly
/// when it would have been accepted before the lock.
pub proof fn lemma_lock_keeps_betting_open(
    race: Race,
    caller: u64,
    vault: Vault,
    bettor: u64,
    race_id: u64,
    hamster_index: u8,
    amount: u64,
)
    requires
        stop_betting_check(race, caller) is Ok,
    ensures
        (Race { status: RaceStatus::Live, ..race }).betting_open(),
        place_bet_check(
            (Race { status: RaceStatus::Live, ..race }),
            vault,
            bettor,
            race_id,
            hamster_index,
            amount,
        ) == place_bet_check(race, vault, bettor, race_id, hamster_index, amount),
{
}

/// Declaring a winner closes betting: after `set_winner` succeeds the race
/// is `Finished`, and a wager on any valid entrant is rejected with
/// `EventClosed`.
pub proof fn lemma_declared_race_rejects_bets(
    race: Race,
    caller: u64,
    winner_index: u8,
    vault: Vault,
    bettor: u64,
    race_id: u64,
    hamster_index: u8,
    amount: u64,
)
    requires
        set_winner_check(race, caller, winner_index) is Ok,
        (hamster_index as int) < race.hamsters@.len(),
    ensures
        place_bet_check(
            (Race { status: RaceStatus::Finished, winner_index: Some(winner_index), ..race }),
            vault,
            bettor,
            race_id,
            hamster_index,
            amount,
        ) == Err::<Bet, BettingError>(BettingError::EventClosed),
{
}

/// Declaring a winner is not idempotent: once `set_winner` has succeeded,
/// a second declaration by the operator fails with `InvalidState` even for
/// a valid entrant index, because a finished race is terminal.
pub proof fn lemma_set_winner_twice_fails(
    race: Race,
    caller: u64,
    winner_index: u8,
    second_winner: u8,
)
    requires
        set_winner_check(race, caller, winner_index) is Ok,
        (second_winner as int) < race.hamsters@.len(),
    ensures
        set_winner_check(
            (Race { status: RaceStatus::Finished, winner_index: Some(winner_index), ..race }),
            caller,
            second_winner,
        ) == Err::<(), BettingError>(BettingError::InvalidState),
{
}

/// Claiming is not idempotent: once `claim_winnings` has succeeded the bet
/// is marked claimed, and a second claim on it by the same bettor fails
/// with `AlreadyClaimed`, whatever the vault holds by then.
pub proof fn lemma_claim_twice_fails(
    race: Race,
    bet: Bet,
    vault: Vault,
    later_vault: Vault,
    caller: u64,
)
    requires
        claim_check(race, bet, vault, caller) is Ok,
    ensures
        claim_check(race, (Bet { claimed: true, ..bet }), later_vault, caller) == Err::<
            u64,
            BettingError,
        >(BettingError::AlreadyClaimed),
{
}

} // verus!
