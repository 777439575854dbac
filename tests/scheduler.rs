use fsrs_schedule::basic::Basic;
use fsrs_schedule::context::elapsed_days;
use fsrs_schedule::longterm::Longterm;
use fsrs_schedule::model::{
    clamp_difficulty, memory_update, next_state, Card, Estimate, Estimates, MemoryUpdate, Rating,
    State, MAX_DIFFICULTY, MIN_DIFFICULTY,
};
use fsrs_schedule::short_term::ShortTerm;

const T0: i64 = 1669725000;
const DAY: i64 = 86400;
const MINUTE: i64 = 60;

fn estimate(difficulty: u64, stability: u64, interval_days: i64) -> Estimate {
    Estimate { difficulty, stability, interval_days }
}

fn estimates(intervals: [i64; 4]) -> Estimates {
    Estimates {
        again: estimate(8_000_000, 400_000, intervals[0]),
        hard: estimate(6_000_000, 1_200_000, intervals[1]),
        good: estimate(5_000_000, 3_100_000, intervals[2]),
        easy: estimate(3_000_000, 15_500_000, intervals[3]),
    }
}

fn card_in(state: State, last_review: i64) -> Card {
    let mut card = Card::new(last_review);
    card.state = state;
    card.stability = 10_000_000;
    card.difficulty = 5_000_000;
    card.reps = 4;
    card.lapses = 1;
    card.scheduled_days = 9;
    card
}

#[test]
fn new_card_short_steps_and_easy_graduation() {
    let card = Card::new(T0);
    let est = estimates([1, 2, 3, 4]);
    let basic = Basic::new(est, card, T0);
    let again = basic.next_card(Rating::Again);
    assert_eq!(again.state, State::Learning);
    assert_eq!(again.due, T0 + MINUTE);
    assert_eq!(again.scheduled_days, 0);
    assert_eq!(again.reps, 1);
    assert_eq!(again.difficulty, 8_000_000);
    assert_eq!(again.stability, 400_000);
    assert_eq!(again.rating, Some(Rating::Again));
    assert_eq!(basic.next_card(Rating::Hard).due, T0 + 5 * MINUTE);
    assert_eq!(basic.next_card(Rating::Good).due, T0 + 10 * MINUTE);
    let easy = basic.next_card(Rating::Easy);
    assert_eq!(easy.state, State::Reviewing);
    assert_eq!(easy.scheduled_days, 4);
    assert_eq!(easy.due, T0 + 4 * DAY);
    assert_eq!(easy.stability, 15_500_000);
}

#[test]
fn learning_easy_is_a_day_past_good() {
    let card = card_in(State::Learning, T0 - 2 * DAY - 5);
    let basic = Basic::new(estimates([1, 1, 6, 3]), card, T0);
    assert_eq!(basic.0.current.elapsed_days, 2);
    let good = basic.next_card(Rating::Good);
    assert_eq!(good.state, State::Reviewing);
    assert_eq!(good.scheduled_days, 6);
    let easy = basic.next_card(Rating::Easy);
    assert_eq!(easy.scheduled_days, 7);
    assert_eq!(easy.due, T0 + 7 * DAY);
    let hard = basic.next_card(Rating::Hard);
    assert_eq!(hard.state, State::Learning);
    assert_eq!(hard.due, T0 + 10 * MINUTE);
    let again = Basic::new(estimates([1, 1, 6, 3]), card_in(State::Relearning, T0), T0)
        .next_card(Rating::Again);
    assert_eq!(again.state, State::Relearning);
    assert_eq!(again.due, T0 + 5 * MINUTE);
}

#[test]
fn reviewing_intervals_break_ties() {
    let card = card_in(State::Reviewing, T0 - 10 * DAY);
    let basic = Basic::new(estimates([1, 5, 5, 5]), card, T0);
    let days: Vec<i64> = [Rating::Hard, Rating::Good, Rating::Easy]
        .into_iter()
        .map(|r| basic.next_card(r).scheduled_days)
        .collect();
    assert_eq!(days, vec![5, 6, 7]);
    let basic = Basic::new(estimates([1, 10, 3, 2]), card, T0);
    let days: Vec<i64> = [Rating::Hard, Rating::Good, Rating::Easy]
        .into_iter()
        .map(|r| basic.next_card(r).scheduled_days)
        .collect();
    assert_eq!(days, vec![3, 4, 5]);
}

#[test]
fn reviewing_keeps_increasing_estimates() {
    let card = card_in(State::Reviewing, T0 - 10 * DAY);
    let basic = Basic::new(estimates([1, 8, 20, 40]), card, T0);
    assert_eq!(basic.next_card(Rating::Hard).scheduled_days, 8);
    assert_eq!(basic.next_card(Rating::Good).scheduled_days, 20);
    assert_eq!(basic.next_card(Rating::Easy).scheduled_days, 40);
    assert_eq!(basic.next_card(Rating::Easy).due, T0 + 40 * DAY);
}

#[test]
fn reviewing_again_is_a_lapse() {
    let card = card_in(State::Reviewing, T0 - 10 * DAY);
    let basic = Basic::new(estimates([1, 8, 20, 40]), card, T0);
    let again = basic.next_card(Rating::Again);
    assert_eq!(again.state, State::Relearning);
    assert_eq!(again.lapses, 2);
    assert_eq!(again.scheduled_days, 0);
    assert_eq!(again.due, T0 + 5 * MINUTE);
    assert_eq!(basic.next_card(Rating::Good).lapses, 1);
}

#[test]
fn schedule_pairs_card_and_log() {
    let card = card_in(State::Reviewing, T0 - 3 * DAY);
    let basic = Basic::new(estimates([1, 8, 20, 40]), card, T0);
    let s = basic.schedule(Rating::Good);
    assert_eq!(s.card.scheduled_days, 20);
    assert_eq!(s.review.rating, Rating::Good);
    assert_eq!(s.review.state, State::Reviewing);
    assert_eq!(s.review.elapsed_days, 3);
    assert_eq!(s.review.scheduled_days, 9);
    assert_eq!(s.review.reviewed_at, T0);
    let log = basic.current_review(Rating::Hard);
    assert_eq!(log.rating, Rating::Hard);
    assert_eq!(s.card.reps, 5);
    assert_eq!(s.card.last_review, T0);
}

#[test]
fn same_inputs_same_outputs() {
    let card = card_in(State::Reviewing, T0 - 3 * DAY);
    let a = Basic::new(estimates([2, 8, 8, 8]), card, T0).next_card(Rating::Easy);
    let b = Basic::new(estimates([2, 8, 8, 8]), card, T0).next_card(Rating::Easy);
    assert_eq!(a.scheduled_days, b.scheduled_days);
    assert_eq!(a.due, b.due);
    assert_eq!(a.difficulty, b.difficulty);
    assert_eq!(a.stability, b.stability);
    assert_eq!(a.state, b.state);
}

#[test]
fn difficulty_is_clamped() {
    let mut est = estimates([1, 2, 3, 4]);
    est.again.difficulty = 0;
    est.easy.difficulty = 25_000_000;
    let basic = Basic::new(est, Card::new(T0), T0);
    assert_eq!(basic.next_card(Rating::Again).difficulty, MIN_DIFFICULTY);
    assert_eq!(basic.next_card(Rating::Easy).difficulty, MAX_DIFFICULTY);
    assert_eq!(clamp_difficulty(4_500_000), 4_500_000);
    assert_eq!(clamp_difficulty(999_999), 1_000_000);
}

#[test]
fn elapsed_days_round_toward_zero() {
    let card = card_in(State::Reviewing, T0);
    assert_eq!(elapsed_days(&card, T0 + 3 * DAY - 1), 2);
    assert_eq!(elapsed_days(&card, T0 - 3 * DAY + 1), -2);
    assert_eq!(elapsed_days(&Card::new(T0 - 50 * DAY), T0), 0);
}

#[test]
fn state_helpers() {
    assert_eq!(next_state(Rating::Again), State::Relearning);
    assert_eq!(next_state(Rating::Good), State::Reviewing);
    assert_eq!(memory_update(State::New), MemoryUpdate::Initial);
    assert_eq!(memory_update(State::Relearning), MemoryUpdate::ShortTerm);
    assert_eq!(memory_update(State::Reviewing), MemoryUpdate::LongTerm);
    assert_eq!(estimates([1, 2, 3, 4]).get(Rating::Good).interval_days, 3);
}

#[test]
fn longterm_orders_all_four() {
    let card = card_in(State::Reviewing, T0 - 10 * DAY);
    let mut lt = Longterm::new(estimates([4, 3, 3, 1]), card, T0);
    let days: Vec<i64> = [Rating::Again, Rating::Hard, Rating::Good, Rating::Easy]
        .into_iter()
        .map(|r| lt.review(r).card.scheduled_days)
        .collect();
    assert_eq!(days, vec![3, 4, 5, 6]);
    let again = lt.review(Rating::Again);
    assert_eq!(again.card.state, State::Relearning);
    assert_eq!(again.card.lapses, 2);
    assert_eq!(again.card.due, T0 + 3 * DAY);
    assert_eq!(again.review_log.elapsed_days, 10);
    assert_eq!(again.review_log.scheduled_days, 9);
    assert_eq!(lt.review(Rating::Good).card.lapses, 1);
    assert_eq!(lt.review(Rating::Hard).card.state, State::Reviewing);
}

#[test]
fn longterm_cache_matches_fresh_computation() {
    let card = card_in(State::Learning, T0 - DAY);
    let est = estimates([1, 2, 9, 30]);
    let mut warm = Longterm::new(est, card, T0);
    warm.review(Rating::Easy);
    for r in [Rating::Again, Rating::Hard, Rating::Good, Rating::Easy] {
        let cached = warm.review(r);
        let fresh = Longterm::new(est, card, T0).review(r);
        assert_eq!(cached.card.scheduled_days, fresh.card.scheduled_days);
        assert_eq!(cached.card.due, fresh.card.due);
        assert_eq!(cached.card.difficulty, fresh.card.difficulty);
        assert_eq!(cached.card.lapses, fresh.card.lapses);
        assert_eq!(cached.review_log.rating, r);
    }
    assert!(warm.next.is_some());
}

#[test]
fn longterm_new_card_logs_zero_days() {
    let mut lt = Longterm::new(estimates([1, 2, 3, 16]), Card::new(T0), T0);
    let easy = lt.review(Rating::Easy);
    assert_eq!(easy.card.scheduled_days, 16);
    assert_eq!(easy.review_log.scheduled_days, 0);
    assert_eq!(easy.review_log.elapsed_days, 0);
    assert_eq!(easy.review_log.state, State::New);
    assert_eq!(easy.card.state, State::Reviewing);
    let again = lt.review(Rating::Again);
    assert_eq!(again.card.state, State::Learning);
    assert_eq!(again.card.lapses, 0);
    assert_eq!(again.card.scheduled_days, 1);
    assert_eq!(again.card.reps, 1);
}

#[test]
fn short_term_counts_lapses_and_days() {
    let card = card_in(State::Reviewing, T0 - 10 * DAY);
    let st = ShortTerm::new(estimates([1, 5, 5, 5]), card, T0);
    let hard = st.next_card(Rating::Hard);
    let easy = st.next_card(Rating::Easy);
    assert_eq!(hard.due, T0 + 5 * DAY);
    assert_eq!(hard.scheduled_days, 5);
    assert_eq!(easy.due, T0 + 5 * DAY);
    assert_eq!(easy.scheduled_days, 5);
    assert_eq!(easy.lapses, 1);
    assert_eq!(easy.reps, 4);
    assert_eq!(easy.last_review, T0);
    assert_eq!(easy.rating, Some(Rating::Easy));
    let again = st.next_card(Rating::Again);
    assert_eq!(again.state, State::Relearning);
    assert_eq!(again.due, T0 + 5 * MINUTE);
    assert_eq!(again.scheduled_days, 0);
    assert_eq!(again.lapses, 2);
}

#[test]
fn short_term_new_and_learning() {
    let st = ShortTerm::new(estimates([1, 2, 3, 4]), Card::new(T0), T0);
    assert_eq!(st.next_card(Rating::Again).due, T0 + MINUTE);
    assert_eq!(st.next_card(Rating::Good).state, State::Learning);
    assert_eq!(st.next_card(Rating::Easy).due, T0 + 4 * DAY);
    let st = ShortTerm::new(estimates([1, 2, 6, 3]), card_in(State::Learning, T0), T0);
    assert_eq!(st.next_card(Rating::Easy).due, T0 + 7 * DAY);
    assert_eq!(st.next_card(Rating::Hard).state, State::Learning);
    assert_eq!(st.next_card(Rating::Hard).due, T0 + 10 * MINUTE);
}

#[test]
fn short_term_agrees_with_basic_while_learning() {
    let est = estimates([1, 2, 6, 3]);
    for card in [Card::new(T0), card_in(State::Learning, T0 - DAY)] {
        let basic = Basic::new(est, card, T0);
        let st = ShortTerm::new(est, card, T0);
        for r in [Rating::Again, Rating::Hard, Rating::Good, Rating::Easy] {
            let a = basic.next_card(r);
            let b = st.next_card(r);
            assert_eq!(a.due, b.due);
            assert_eq!(a.state, b.state);
            assert_eq!(a.difficulty, b.difficulty);
            assert_eq!(a.stability, b.stability);
            assert_eq!(a.scheduled_days, b.scheduled_days);
            assert_eq!(a.lapses, b.lapses);
        }
    }
}

const TEST_RATINGS: [Rating; 13] = [
    Rating::Good,
    Rating::Good,
    Rating::Good,
    Rating::Good,
    Rating::Good,
    Rating::Good,
    Rating::Again,
    Rating::Again,
    Rating::Good,
    Rating::Good,
    Rating::Good,
    Rating::Good,
    Rating::Good,
];

const EXPECTED_STATES: [State; 13] = [
    State::New,
    State::Learning,
    State::Reviewing,
    State::Reviewing,
    State::Reviewing,
    State::Reviewing,
    State::Reviewing,
    State::Relearning,
    State::Relearning,
    State::Reviewing,
    State::Reviewing,
    State::Reviewing,
    State::Reviewing,
];

#[test]
fn test_basic_scheduler_state() {
    let mut card = Card::new(T0);
    let mut now = T0;
    let mut state_list = vec![];
    for rating in TEST_RATINGS.into_iter() {
        let record = Basic::new(estimates([1, 3, 7, 15]), card, now).schedule(rating);
        card = record.card;
        state_list.push(record.review.state);
        now = card.due;
    }
    assert_eq!(state_list, EXPECTED_STATES);
}

#[test]
fn state() {
    let mut card = Card::new(T0);
    let mut now = T0;
    let mut state_list = vec![];
    for rating in TEST_RATINGS.into_iter() {
        state_list.push(card.state);
        card = ShortTerm::new(estimates([1, 3, 7, 15]), card, now).next_card(rating);
        now = card.due;
    }
    assert_eq!(state_list, EXPECTED_STATES);
    assert_eq!(card.lapses, 1);
}
