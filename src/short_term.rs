use vstd::prelude::*;
use crate::basic::learning_easy_interval;
use crate::model::{
    clamp_difficulty, clamped_difficulty, day_secs, next_state, transition, valid_time, Card,
    Estimate, Estimates, Rating, State, MAX_DIFFICULTY, MAX_INTERVAL_DAYS, MIN_DIFFICULTY,
    SECS_PER_DAY, SECS_PER_MINUTE,
};

verus! {

/// The strategy for reviews that recur within a day: intervals come from the
/// new stability alone, and the card keeps its elapsed-day and repetition
/// counters.
#[derive(Clone, Copy, Debug)]
pub struct ShortTerm {
    pub now: i64,
    pub estimates: Estimates,
    pub card: Card,
}

/// `card` after a review at `now` with `rating` that takes its memory from
/// `e`, schedules it `days` days ahead, makes it due `delay` seconds later and
/// moves it to `state`.
pub open spec fn spec_short_reviewed(
    card: Card,
    now: i64,
    rating: Rating,
    e: Estimate,
    days: int,
    delay: int,
    state: State,
) -> Card {
    Card {
        difficulty: clamped_difficulty(e.difficulty),
        stability: e.stability,
        last_review: now,
        scheduled_days: days as i64,
        due: (now + delay) as i64,
        state: state,
        rating: Some(rating),
        ..card
    }
}

/// The whole days that the short-interval strategy schedules for `rating`;
/// zero for the steps counted in minutes.
pub open spec fn short_term_days(s: ShortTerm, rating: Rating) -> int {
    let days = s.estimates.spec_get(rating).interval_days as int;
    match s.card.state {
        State::New => match rating {
            Rating::Easy => days,
            _ => 0,
        },
        State::Learning | State::Relearning => match rating {
            Rating::Again | Rating::Hard => 0,
            Rating::Good => days,
            Rating::Easy => learning_easy_interval(s.estimates),
        },
        State::Reviewing => match rating {
            Rating::Again => 0,
            _ => days,
        },
    }
}

/// Seconds from the review until the card is due again.
pub open spec fn short_term_delay(s: ShortTerm, rating: Rating) -> int {
    match (s.card.state, rating) {
        (State::New, Rating::Again) => SECS_PER_MINUTE as int,
        (State::New, Rating::Hard) => 5 * SECS_PER_MINUTE,
        (State::New, Rating::Good) => 10 * SECS_PER_MINUTE,
        (State::Learning, Rating::Again) | (State::Relearning, Rating::Again) => 5 * SECS_PER_MINUTE,
        (State::Learning, Rating::Hard) | (State::Relearning, Rating::Hard) => 10 * SECS_PER_MINUTE,
        (State::Reviewing, Rating::Again) => 5 * SECS_PER_MINUTE,
        _ => day_secs(short_term_days(s, rating)),
    }
}

/// The card that the short-interval strategy gives for `rating`; Again on a
/// long-interval card counts a lapse.
pub open spec fn short_term_card(s: ShortTerm, rating: Rating) -> Card {
    let c = spec_short_reviewed(
        s.card,
        s.now,
        rating,
        s.estimates.spec_get(rating),
        short_term_days(s, rating),
        short_term_delay(s, rating),
        transition(s.card.state, rating),
    );
    if s.card.state == State::Reviewing && rating == Rating::Again {
        Card { lapses: (c.lapses + 1) as u32, ..c }
    } else {
        c
    }
}

impl ShortTerm {
    pub open spec fn wf(&self) -> bool {
        &&& self.estimates.wf()
        &&& valid_time(self.now)
        &&& self.card.lapses < u32::MAX
    }

    /// Opens the review of `card` at `now`, with the memory model's estimates
    /// for this review event.
    pub fn new(estimates: Estimates, card: Card, now: i64) -> (r: ShortTerm)
        ensures
            r == (ShortTerm { now, estimates, card }),
    {
        ShortTerm { estimates, card, now }
    }

    /// The card after a review with `rating`.
    pub fn next_card(&self, rating: Rating) -> (r: Card)
        requires
            self.wf(),
        ensures
            r == short_term_card(*self, rating),
            r.state == transition(self.card.state, rating),
            r.rating == Some(rating),
            MIN_DIFFICULTY <= r.difficulty <= MAX_DIFFICULTY,
    {
        match self.card.state {
            State::New => self.review_new(rating),
            State::Learning | State::Relearning => self.review_learning(rating),
            State::Reviewing => self.review_reviewing(rating),
        }
    }

    fn short_reviewed(
        &self,
        rating: Rating,
        e: Estimate,
        days: i64,
        delay: i64,
        state: State,
    ) -> (r: Card)
        requires
            self.wf(),
            0 <= delay <= (MAX_INTERVAL_DAYS + 1) * SECS_PER_DAY,
        ensures
            r == spec_short_reviewed(self.card, self.now, rating, e, days as int, delay as int, state),
    {
        Card {
            difficulty: clamp_difficulty(e.difficulty),
            stability: e.stability,
            last_review: self.now,
            scheduled_days: days,
            due: self.now + delay,
            state: state,
            rating: Some(rating),
            ..self.card
        }
    }

    fn review_new(&self, rating: Rating) -> (r: Card)
        requires
            self.wf(),
            self.card.state == State::New,
        ensures
            r == short_term_card(*self, rating),
    {
        let e = self.estimates.get(rating);
        let (days, delay, state): (i64, i64, State) = match rating {
            Rating::Again => (0, SECS_PER_MINUTE, State::Learning),
            Rating::Hard => (0, 5 * SECS_PER_MINUTE, State::Learning),
            Rating::Good => (0, 10 * SECS_PER_MINUTE, State::Learning),
            Rating::Easy => (e.interval_days, e.interval_days * SECS_PER_DAY, State::Reviewing),
        };
        self.short_reviewed(rating, e, days, delay, state)
    }

    fn review_learning(&self, rating: Rating) -> (r: Card)
        requires
            self.wf(),
            self.card.state == State::Learning || self.card.state == State::Relearning,
        ensures
            r == short_term_card(*self, rating),
    {
        let e = self.estimates.get(rating);
        let (days, delay, state): (i64, i64, State) = match rating {
            Rating::Again => (0, 5 * SECS_PER_MINUTE, self.card.state),
            Rating::Hard => (0, 10 * SECS_PER_MINUTE, self.card.state),
            Rating::Good => (e.interval_days, e.interval_days * SECS_PER_DAY, State::Reviewing),
            Rating::Easy => {
                let good_interval = self.estimates.good.interval_days;
                let easy_interval = if e.interval_days >= good_interval + 1 {
                    e.interval_days
                } else {
                    good_interval + 1
                };
                (easy_interval, easy_interval * SECS_PER_DAY, State::Reviewing)
            },
        };
        self.short_reviewed(rating, e, days, delay, state)
    }

    fn review_reviewing(&self, rating: Rating) -> (r: Card)
        requires
            self.wf(),
            self.card.state == State::Reviewing,
        ensures
            r == short_term_card(*self, rating),
    {
        let e = self.estimates.get(rating);
        let (days, delay, lapses): (i64, i64, u32) = match rating {
            Rating::Again => (0, 5 * SECS_PER_MINUTE, 1),
            Rating::Hard | Rating::Good | Rating::Easy => (
                e.interval_days,
                e.interval_days * SECS_PER_DAY,
                0,
            ),
        };
        let mut card = self.short_reviewed(rating, e, days, delay, next_state(rating));
        card.lapses = card.lapses + lapses;
        card
    }
}

} // verus!
