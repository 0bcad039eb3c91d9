use raffle::Charity;
use raffle::CountDownStarted;
use raffle::Entry;
use raffle::Error;
use raffle::User;
use raffle::COUNTDOWN_MINIMUM;
use raffle::MAXIMUM_TOKEN;
use raffle::MINIMUM_TOKEN;

fn user(n: u128) -> User {
    User { hi: 0, lo: n }
}

fn charity_with(n: u128, stake: u128, now: u64) -> Charity {
    let mut c = Charity::new(user(1000));
    for i in 1..=n {
        c.get_entry(user(i), stake, now).expect("registration should succeed");
    }
    c
}

#[test]
fn new_engine_is_empty() {
    let c = Charity::new(user(7));
    assert_eq!(c.get_collector_id(), user(7));
    assert_eq!(c.current_user_count(), 0);
    assert_eq!(c.get_amount_collected(), 0);
    assert_eq!(c.winners_count(), 0);
    assert!(!c.is_completed());
    assert_eq!(c.winners_address(), (None, None));
}

#[test]
fn stake_boundaries() {
    let mut c = Charity::new(user(1000));
    assert_eq!(c.get_entry(user(1), MINIMUM_TOKEN - 1, 0), Err(Error::InvalidEntryAmount));
    assert_eq!(c.get_entry(user(2), MAXIMUM_TOKEN + 1, 0), Err(Error::InvalidEntryAmount));
    assert_eq!(c.get_entry(user(3), 0, 0), Err(Error::InvalidEntryAmount));
    assert_eq!(c.current_user_count(), 0);
    assert_eq!(c.get_amount_collected(), 0);
    assert!(c.get_entry(user(4), MINIMUM_TOKEN, 0).is_ok());
    assert!(c.get_entry(user(5), MAXIMUM_TOKEN, 0).is_ok());
    assert_eq!(c.current_user_count(), 2);
    assert_eq!(c.get_amount_collected(), MINIMUM_TOKEN + MAXIMUM_TOKEN);
}

#[test]
fn duplicate_rejection() {
    let mut c = Charity::new(user(1000));
    assert!(c.get_entry(user(1), MINIMUM_TOKEN + 100, 0).is_ok());
    assert_eq!(c.get_entry(user(1), MINIMUM_TOKEN + 200, 1), Err(Error::AlreadyGotEntry));
    assert_eq!(c.current_user_count(), 1);
    assert_eq!(c.get_amount_collected(), MINIMUM_TOKEN + 100);
}

#[test]
fn entry_event_carries_the_caller() {
    let mut c = Charity::new(user(1000));
    let (entry, started) = c.get_entry(user(5), MINIMUM_TOKEN, 3).unwrap();
    assert_eq!(entry, Entry { user: user(5) });
    assert_eq!(started, None);
}

#[test]
fn countdown_armed_exactly_on_quorum() {
    let mut c = Charity::new(user(1000));
    for i in 1..=4u128 {
        let (_, started) = c.get_entry(user(i), MINIMUM_TOKEN, 10 + i as u64).unwrap();
        assert_eq!(started, None, "countdown must stay unarmed below quorum");
    }
    let (_, started) = c.get_entry(user(5), MINIMUM_TOKEN, 44).unwrap();
    assert_eq!(started, Some(CountDownStarted { user: user(5), timestamp: 44 }));
    // a later registration neither re-arms nor re-times the countdown
    let (_, started) = c.get_entry(user(6), MINIMUM_TOKEN, 99).unwrap();
    assert_eq!(started, None);
}

#[test]
fn draw_below_quorum_fails_with_unarmed_gate() {
    let mut c = charity_with(4, MINIMUM_TOKEN, 0);
    assert_eq!(c.draw(0, 0), Err(Error::LessUsers));
    assert_eq!(c.current_user_count(), 4);
    assert_eq!(c.winners_count(), 0);
}

#[test]
fn draw_before_countdown_elapsed_fails() {
    let mut c = charity_with(5, MINIMUM_TOKEN, 100);
    assert_eq!(c.draw(100, 0), Err(Error::CountDownNotStartedYet));
    assert_eq!(c.draw(100 + COUNTDOWN_MINIMUM - 1, 0), Err(Error::CountDownNotStartedYet));
    assert_eq!(c.winners_count(), 0);
}

#[test]
fn draw_at_exact_countdown_end_succeeds() {
    let mut c = charity_with(5, MINIMUM_TOKEN, 100);
    assert!(c.draw(100 + COUNTDOWN_MINIMUM, 0).is_ok());
    assert_eq!(c.winners_count(), 1);
    assert_eq!(c.current_user_count(), 4);
}

#[test]
fn end_to_end() {
    let mut c = Charity::new(user(1000));
    for i in 1..=4u128 {
        let (_, started) = c.get_entry(user(i), MINIMUM_TOKEN + 100, 0).unwrap();
        assert_eq!(started, None);
    }
    let (_, started) = c.get_entry(user(5), MINIMUM_TOKEN + 100, 7).unwrap();
    assert_eq!(started, Some(CountDownStarted { user: user(5), timestamp: 7 }));

    let later = 7 + COUNTDOWN_MINIMUM + 1;
    let total = c.get_amount_collected();
    assert_eq!(total, 5 * (MINIMUM_TOKEN + 100));

    assert!(c.draw(later, 3).is_ok());
    assert_eq!(c.current_user_count(), 4);
    assert_eq!(c.winners_count(), 1);

    // the roster is now below quorum, so completing the raffle needs one
    // more participant
    let (_, started) = c.get_entry(user(6), MINIMUM_TOKEN + 100, later).unwrap();
    assert_eq!(started, None);
    assert_eq!(c.current_user_count(), 5);

    assert!(c.draw(later, 3).is_ok());
    assert_eq!(c.current_user_count(), 4);
    assert_eq!(c.winners_count(), 2);
    assert!(c.is_completed());

    // the collected total is untouched by draws
    assert_eq!(c.get_amount_collected(), 6 * (MINIMUM_TOKEN + 100));

    assert_eq!(c.draw(later, 0), Err(Error::Completed));
    assert_eq!(c.get_entry(user(7), MINIMUM_TOKEN + 100, later), Err(Error::Completed));
}

#[test]
fn winners_are_chosen_by_random_index_and_swap_removed() {
    let mut c = charity_with(6, MINIMUM_TOKEN, 50);
    let later = 50 + COUNTDOWN_MINIMUM;

    // 6 participants; random 5 picks index 5, the last roster slot
    let w1 = c.draw(later, 5).unwrap();
    assert_eq!(w1.user, user(6));
    assert_eq!(c.current_user_count(), 5);

    // random 10 mod 5 picks index 0; the last entry takes the freed slot
    let w2 = c.draw(later, 10).unwrap();
    assert_eq!(w2.user, user(1));
    assert_eq!(c.current_user_count(), 4);

    assert!(c.is_completed());
    assert_eq!(c.winners_count(), 2);
    assert_eq!(c.winners_address(), (Some(user(6)), Some(user(1))));
    // both draws left the collected total alone
    assert_eq!(c.get_amount_collected(), 6 * MINIMUM_TOKEN);
}

#[test]
fn winners_cannot_reenter() {
    let mut c = charity_with(6, MINIMUM_TOKEN, 50);
    let later = 50 + COUNTDOWN_MINIMUM;
    let w = c.draw(later, 5).unwrap();
    assert_eq!(w.user, user(6));
    // the winner left the roster but stays registered
    assert_eq!(c.get_entry(user(6), MINIMUM_TOKEN, later), Err(Error::AlreadyGotEntry));
}

#[test]
fn as_u32_be_reads_big_endian() {
    assert_eq!(Charity::as_u32_be(&[0x12, 0x34, 0x56, 0x78]), 0x12345678);
    assert_eq!(Charity::as_u32_be(&[0, 0, 0, 1]), 1);
    assert_eq!(Charity::as_u32_be(&[0xff, 0xff, 0xff, 0xff]), u32::MAX);
    // bytes past the fourth are ignored
    assert_eq!(Charity::as_u32_be(&[1, 2, 3, 4, 5, 6, 7, 8]), 0x01020304);
}
