use vstd::prelude::*;
use crate::model::{
    clamp_difficulty, clamped_difficulty, days_between, valid_time, Card, Estimate, Estimates, Rating,
    Review, State, MAX_INTERVAL_DAYS, MIN_DIFFICULTY, MAX_DIFFICULTY, SECS_PER_DAY,
};

verus! {

/// The working state of one review event: the memory model's estimates, the
/// review time, the card as it was (`last`) and the card being advanced
/// (`current`).
#[derive(Clone, Copy, Debug)]
pub struct Base {
    pub estimates: Estimates,
    pub now: i64,
    pub last: Card,
    pub current: Card,
}

pub open spec fn int_min(a: int, b: int) -> int {
    if a <= b { a } else { b }
}

pub open spec fn int_max(a: int, b: int) -> int {
    if a >= b { a } else { b }
}

/// Days since the card's previous review, as of `now`; zero for a new card.
pub open spec fn spec_elapsed_days(card: Card, now: i64) -> int {
    if card.state == State::New {
        0
    } else {
        days_between(card.last_review, now)
    }
}

/// Days since the card's previous review, as of `now`; zero for a new card.
pub fn elapsed_days(card: &Card, now: i64) -> (r: i64)
    requires
        valid_time(now),
        valid_time(card.last_review),
    ensures
        r == spec_elapsed_days(*card, now),
{
    if card.state == State::New {
        0
    } else if card.last_review <= now {
        (now - card.last_review) / SECS_PER_DAY
    } else {
        -((card.last_review - now) / SECS_PER_DAY)
    }
}

/// The card `current` after a review with `rating` that takes its memory from
/// `e`, schedules it `days` days ahead, makes it due `delay` seconds after
/// `now` and moves it to `state`.
pub open spec fn spec_reviewed(
    current: Card,
    now: i64,
    rating: Rating,
    e: Estimate,
    days: int,
    delay: int,
    state: State,
) -> Card {
    Card {
        difficulty: clamped_difficulty(e.difficulty),
        stability: e.stability,
        scheduled_days: days as i64,
        due: (now + delay) as i64,
        state: state,
        rating: Some(rating),
        ..current
    }
}

pub fn reviewed(
    current: Card,
    now: i64,
    rating: Rating,
    e: Estimate,
    days: i64,
    delay: i64,
    state: State,
) -> (r: Card)
    requires
        valid_time(now),
        0 <= delay <= (MAX_INTERVAL_DAYS + 3) * SECS_PER_DAY,
    ensures
        r == spec_reviewed(current, now, rating, e, days as int, delay as int, state),
        MIN_DIFFICULTY <= r.difficulty <= MAX_DIFFICULTY,
{
    Card {
        difficulty: clamp_difficulty(e.difficulty),
        stability: e.stability,
        scheduled_days: days,
        due: now + delay,
        state: state,
        rating: Some(rating),
        ..current
    }
}

impl Base {
    /// What a strategy needs of its review event: estimates whose intervals
    /// fit, a review time in range, and room for one more lapse.
    pub open spec fn wf(&self) -> bool {
        &&& self.estimates.wf()
        &&& valid_time(self.now)
        &&& self.current.lapses < u32::MAX
    }

    pub open spec fn spec_new(estimates: Estimates, card: Card, now: i64) -> Base {
        Base {
            estimates: estimates,
            now: now,
            last: card,
            current: Card {
                elapsed_days: spec_elapsed_days(card, now) as i64,
                last_review: now,
                reps: (card.reps + 1) as u32,
                ..card
            },
        }
    }

    /// Opens the review of `card` at `now`: the current card counts one more
    /// repetition, records the days elapsed since its last review and is
    /// reviewed at `now`.
    pub fn new(estimates: Estimates, card: Card, now: i64) -> (r: Base)
        requires
            valid_time(now),
            valid_time(card.last_review),
            card.reps < u32::MAX,
        ensures
            r == Base::spec_new(estimates, card, now),
    {
        let mut current = card;
        current.elapsed_days = elapsed_days(&card, now);
        current.last_review = now;
        current.reps = card.reps + 1;
        Base { estimates, now, last: card, current }
    }

    /// The log of a review with `rating`: the state before the review, the
    /// current counters and the review time.
    pub open spec fn spec_build_log(&self, rating: Rating) -> Review {
        Review {
            rating: rating,
            elapsed_days: self.current.elapsed_days,
            scheduled_days: self.current.scheduled_days,
            state: self.last.state,
            reviewed_at: self.now,
        }
    }

    pub fn build_log(&self, rating: Rating) -> (r: Review)
        ensures
            r == self.spec_build_log(rating),
    {
        Review {
            rating,
            elapsed_days: self.current.elapsed_days,
            scheduled_days: self.current.scheduled_days,
            state: self.last.state,
            reviewed_at: self.now,
        }
    }
}

} // verus!
