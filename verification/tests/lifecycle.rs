use hamster_betting::{create_race, place_bet, set_winner, stop_betting, BettingError, RaceStatus};

fn names(list: &[&str]) -> Vec<String> {
    list.iter().map(|s| String::from(*s)).collect()
}

const ADMIN: u64 = 7;
const RACE_ID: u64 = 1;

#[test]
fn create_race_initial_state() {
    let (race, vault) = create_race(
        ADMIN,
        String::from("Derby"),
        String::from("stream"),
        names(&["A", "B", "C"]),
    );
    assert_eq!(race.admin, ADMIN);
    assert_eq!(race.title, "Derby");
    assert_eq!(race.livestream, "stream");
    assert_eq!(race.hamsters, names(&["A", "B", "C"]));
    assert_eq!(race.status, RaceStatus::Upcoming);
    assert_eq!(race.winner_index, None);
    assert_eq!(race.total_pool, 0);
    assert_eq!(race.hamster_pools, vec![0, 0, 0]);
    assert_eq!(vault.balance(), 0);
}

#[test]
fn total_pool_matches_entrant_pools_after_bets() {
    let (mut race, mut vault) = create_race(
        ADMIN,
        String::from("Derby"),
        String::from("stream"),
        names(&["A", "B"]),
    );
    place_bet(&mut race, &mut vault, 11, RACE_ID, 0, 100).unwrap();
    place_bet(&mut race, &mut vault, 12, RACE_ID, 1, 300).unwrap();
    place_bet(&mut race, &mut vault, 11, RACE_ID, 1, 25).unwrap();
    let entrant_sum: u64 = race.hamster_pools.iter().sum();
    assert_eq!(race.total_pool, entrant_sum);
    assert_eq!(race.hamster_pools, vec![100, 325]);
    assert_eq!(race.total_pool, 425);
    assert_eq!(vault.balance(), 425);
}

#[test]
fn lock_then_bet_still_succeeds() {
    let (mut race, mut vault) = create_race(
        ADMIN,
        String::from("Derby"),
        String::from("stream"),
        names(&["A", "B"]),
    );
    stop_betting(&mut race, ADMIN).unwrap();
    assert_eq!(race.status, RaceStatus::Live);
    let bet = place_bet(&mut race, &mut vault, 11, RACE_ID, 0, 50).unwrap();
    assert_eq!(bet.amount, 50);
    assert!(!bet.claimed);
    assert_eq!(race.total_pool, 50);
}

#[test]
fn declare_then_bet_fails_event_closed() {
    let (mut race, mut vault) = create_race(
        ADMIN,
        String::from("Derby"),
        String::from("stream"),
        names(&["A", "B"]),
    );
    set_winner(&mut race, ADMIN, 0).unwrap();
    let result = place_bet(&mut race, &mut vault, 11, RACE_ID, 0, 50);
    assert_eq!(result, Err(BettingError::EventClosed));
    assert_eq!(race.total_pool, 0);
    assert_eq!(vault.balance(), 0);
}

#[test]
fn declare_winner_twice_fails_invalid_state() {
    let (mut race, _vault) = create_race(
        ADMIN,
        String::from("Derby"),
        String::from("stream"),
        names(&["A", "B"]),
    );
    set_winner(&mut race, ADMIN, 1).unwrap();
    assert_eq!(race.status, RaceStatus::Finished);
    assert_eq!(race.winner_index, Some(1));
    let second = set_winner(&mut race, ADMIN, 0);
    assert_eq!(second, Err(BettingError::InvalidState));
    assert_eq!(race.winner_index, Some(1));
}

#[test]
fn declare_winner_allowed_from_live() {
    let (mut race, _vault) = create_race(
        ADMIN,
        String::from("Derby"),
        String::from("stream"),
        names(&["A", "B"]),
    );
    stop_betting(&mut race, ADMIN).unwrap();
    set_winner(&mut race, ADMIN, 0).unwrap();
    assert_eq!(race.status, RaceStatus::Finished);
    assert_eq!(race.winner_index, Some(0));
}

#[test]
fn bet_on_unknown_entrant_fails_no_mutation() {
    let (mut race, mut vault) = create_race(
        ADMIN,
        String::from("Derby"),
        String::from("stream"),
        names(&["A", "B"]),
    );
    place_bet(&mut race, &mut vault, 11, RACE_ID, 0, 60).unwrap();
    let before = race.clone();
    let result = place_bet(&mut race, &mut vault, 11, RACE_ID, 2, 50);
    assert_eq!(result, Err(BettingError::InvalidEntrant));
    assert_eq!(race, before);
    assert_eq!(vault.balance(), 60);
}

#[test]
fn overflowing_second_bet_rejected_first_stands() {
    let (mut race, mut vault) = create_race(
        ADMIN,
        String::from("Derby"),
        String::from("stream"),
        names(&["A", "B"]),
    );
    let big: u64 = u64::MAX / 2 + 3;
    place_bet(&mut race, &mut vault, 11, RACE_ID, 0, big).unwrap();
    let before = race.clone();
    let second = place_bet(&mut race, &mut vault, 12, RACE_ID, 1, big);
    assert_eq!(second, Err(BettingError::Overflow));
    assert_eq!(race, before);
    assert_eq!(race.total_pool, big);
    assert_eq!(vault.balance(), big);
}

#[test]
fn stop_betting_requires_operator() {
    let (mut race, _vault) = create_race(
        ADMIN,
        String::from("Derby"),
        String::from("stream"),
        names(&["A"]),
    );
    let result = stop_betting(&mut race, ADMIN + 1);
    assert_eq!(result, Err(BettingError::Unauthorized));
    assert_eq!(race.status, RaceStatus::Upcoming);
}

#[test]
fn stop_betting_twice_fails_invalid_state() {
    let (mut race, _vault) = create_race(
        ADMIN,
        String::from("Derby"),
        String::from("stream"),
        names(&["A"]),
    );
    stop_betting(&mut race, ADMIN).unwrap();
    let second = stop_betting(&mut race, ADMIN);
    assert_eq!(second, Err(BettingError::InvalidState));
    assert_eq!(race.status, RaceStatus::Live);
}

#[test]
fn set_winner_requires_operator() {
    let (mut race, _vault) = create_race(
        ADMIN,
        String::from("Derby"),
        String::from("stream"),
        names(&["A", "B"]),
    );
    let result = set_winner(&mut race, ADMIN + 1, 0);
    assert_eq!(result, Err(BettingError::Unauthorized));
    assert_eq!(race.status, RaceStatus::Upcoming);
    assert_eq!(race.winner_index, None);
}

#[test]
fn set_winner_unknown_entrant_fails() {
    let (mut race, _vault) = create_race(
        ADMIN,
        String::from("Derby"),
        String::from("stream"),
        names(&["A", "B"]),
    );
    let result = set_winner(&mut race, ADMIN, 2);
    assert_eq!(result, Err(BettingError::InvalidEntrant));
    assert_eq!(race.status, RaceStatus::Upcoming);
    assert_eq!(race.winner_index, None);
}
