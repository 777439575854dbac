use vstd::prelude::*;
use crate::context::{int_max, int_min, reviewed, spec_reviewed, Base};
use crate::model::{
    day_secs, next_state, transition, valid_time, Card, Estimates, Rating, Review, Schedule,
    State, MAX_DIFFICULTY, MAX_INTERVAL_DAYS, MIN_DIFFICULTY, SECS_PER_DAY, SECS_PER_MINUTE,
};

verus! {

/// The single-outcome strategy: it computes only the card for the rating given.
pub struct Basic(pub Base);

/// Hard, Good and Easy intervals of a long-interval review, forced into
/// strictly increasing order.
pub open spec fn ordered_intervals(e: Estimates) -> (int, int, int) {
    let hard = int_min(e.hard.interval_days as int, e.good.interval_days as int);
    let good = int_max(e.good.interval_days as int, hard + 1);
    let easy = int_max(e.easy.interval_days as int, good + 1);
    (hard, good, easy)
}

/// The Easy interval of a (re)learning review: never shorter than a day past
/// the Good interval.
pub open spec fn learning_easy_interval(e: Estimates) -> int {
    int_max(e.easy.interval_days as int, e.good.interval_days + 1)
}

pub open spec fn spec_review_new(b: Base, rating: Rating) -> Card {
    let e = b.estimates.spec_get(rating);
    match rating {
        Rating::Again => spec_reviewed(b.current, b.now, rating, e, 0, SECS_PER_MINUTE as int, State::Learning),
        Rating::Hard => spec_reviewed(b.current, b.now, rating, e, 0, 5 * SECS_PER_MINUTE, State::Learning),
        Rating::Good => spec_reviewed(b.current, b.now, rating, e, 0, 10 * SECS_PER_MINUTE, State::Learning),
        Rating::Easy => {
            let days = e.interval_days as int;
            spec_reviewed(b.current, b.now, rating, e, days, day_secs(days), State::Reviewing)
        },
    }
}

pub open spec fn spec_review_learning(b: Base, rating: Rating) -> Card {
    let e = b.estimates.spec_get(rating);
    match rating {
        Rating::Again => spec_reviewed(b.current, b.now, rating, e, 0, 5 * SECS_PER_MINUTE, b.last.state),
        Rating::Hard => spec_reviewed(b.current, b.now, rating, e, 0, 10 * SECS_PER_MINUTE, b.last.state),
        Rating::Good => {
            let days = e.interval_days as int;
            spec_reviewed(b.current, b.now, rating, e, days, day_secs(days), State::Reviewing)
        },
        Rating::Easy => {
            let days = learning_easy_interval(b.estimates);
            spec_reviewed(b.current, b.now, rating, e, days, day_secs(days), State::Reviewing)
        },
    }
}

pub open spec fn spec_review_reviewing(b: Base, rating: Rating) -> Card {
    let e = b.estimates.spec_get(rating);
    let (hard, good, easy) = ordered_intervals(b.estimates);
    match rating {
        Rating::Again => {
            let c = spec_reviewed(b.current, b.now, rating, e, 0, 5 * SECS_PER_MINUTE, State::Relearning);
            Card { lapses: (c.lapses + 1) as u32, ..c }
        },
        Rating::Hard => spec_reviewed(b.current, b.now, rating, e, hard, day_secs(hard), State::Reviewing),
        Rating::Good => spec_reviewed(b.current, b.now, rating, e, good, day_secs(good), State::Reviewing),
        Rating::Easy => spec_reviewed(b.current, b.now, rating, e, easy, day_secs(easy), State::Reviewing),
    }
}

/// The card that the single-outcome strategy gives for `rating`.
pub open spec fn basic_card(b: Base, rating: Rating) -> Card {
    match b.last.state {
        State::New => spec_review_new(b, rating),
        State::Learning | State::Relearning => spec_review_learning(b, rating),
        State::Reviewing => spec_review_reviewing(b, rating),
    }
}

impl Basic {
    /// Opens the review of `card` at `now`, with the memory model's estimates
    /// for this review event.
    pub fn new(estimates: Estimates, card: Card, now: i64) -> (r: Basic)
        requires
            valid_time(now),
            valid_time(card.last_review),
            card.reps < u32::MAX,
        ensures
            r.0 == Base::spec_new(estimates, card, now),
    {
        Basic(Base::new(estimates, card, now))
    }

    /// The next card and the log of this review.
    pub fn schedule(&self, rating: Rating) -> (r: Schedule)
        requires
            self.0.wf(),
        ensures
            r.card == basic_card(self.0, rating),
            r.review == self.0.spec_build_log(rating),
    {
        Schedule { card: self.next_card(rating), review: self.current_review(rating) }
    }

    /// The card after a review with `rating`.
    pub fn next_card(&self, rating: Rating) -> (r: Card)
        requires
            self.0.wf(),
        ensures
            r == basic_card(self.0, rating),
            r.state == transition(self.0.last.state, rating),
            MIN_DIFFICULTY <= r.difficulty <= MAX_DIFFICULTY,
    {
        match self.0.last.state {
            State::New => self.review_new(rating),
            State::Learning | State::Relearning => self.review_learning(rating),
            State::Reviewing => self.review_reviewing(rating),
        }
    }

    /// The log of a review with `rating`.
    pub fn current_review(&self, rating: Rating) -> (r: Review)
        ensures
            r == self.0.spec_build_log(rating),
    {
        self.0.build_log(rating)
    }

    fn review_new(&self, rating: Rating) -> (r: Card)
        requires
            self.0.wf(),
        ensures
            r == spec_review_new(self.0, rating),
            MIN_DIFFICULTY <= r.difficulty <= MAX_DIFFICULTY,
    {
        let b = &self.0;
        let e = b.estimates.get(rating);
        let (days, delay, state): (i64, i64, State) = match rating {
            Rating::Again => (0, SECS_PER_MINUTE, State::Learning),
            Rating::Hard => (0, 5 * SECS_PER_MINUTE, State::Learning),
            Rating::Good => (0, 10 * SECS_PER_MINUTE, State::Learning),
            Rating::Easy => {
                let easy_interval = e.interval_days;
                (easy_interval, easy_interval * SECS_PER_DAY, State::Reviewing)
            },
        };
        reviewed(b.current, b.now, rating, e, days, delay, state)
    }

    fn review_learning(&self, rating: Rating) -> (r: Card)
        requires
            self.0.wf(),
        ensures
            r == spec_review_learning(self.0, rating),
            MIN_DIFFICULTY <= r.difficulty <= MAX_DIFFICULTY,
    {
        let b = &self.0;
        let e = b.estimates.get(rating);
        let (days, delay, state): (i64, i64, State) = match rating {
            Rating::Again => (0, 5 * SECS_PER_MINUTE, b.last.state),
            Rating::Hard => (0, 10 * SECS_PER_MINUTE, b.last.state),
            Rating::Good => {
                let good_interval = e.interval_days;
                (good_interval, good_interval * SECS_PER_DAY, State::Reviewing)
            },
            Rating::Easy => {
                let good_interval = b.estimates.good.interval_days;
                let easy_interval = if e.interval_days >= good_interval + 1 {
                    e.interval_days
                } else {
                    good_interval + 1
                };
                (easy_interval, easy_interval * SECS_PER_DAY, State::Reviewing)
            },
        };
        reviewed(b.current, b.now, rating, e, days, delay, state)
    }

    fn review_reviewing(&self, rating: Rating) -> (r: Card)
        requires
            self.0.wf(),
        ensures
            r == spec_review_reviewing(self.0, rating),
            MIN_DIFFICULTY <= r.difficulty <= MAX_DIFFICULTY,
    {
        let b = &self.0;
        let e = b.estimates.get(rating);
        let (hard_interval, good_interval, easy_interval) = self.review_intervals();
        let (days, delay, lapses): (i64, i64, u32) = match rating {
            Rating::Again => (0, 5 * SECS_PER_MINUTE, 1),
            Rating::Hard => (hard_interval, hard_interval * SECS_PER_DAY, 0),
            Rating::Good => (good_interval, good_interval * SECS_PER_DAY, 0),
            Rating::Easy => (easy_interval, easy_interval * SECS_PER_DAY, 0),
        };
        let mut card = reviewed(b.current, b.now, rating, e, days, delay, next_state(rating));
        card.lapses = card.lapses + lapses;
        card
    }

    /// The Hard, Good and Easy intervals, each at least a day longer than the
    /// one before.
    fn review_intervals(&self) -> (r: (i64, i64, i64))
        requires
            self.0.estimates.wf(),
        ensures
            (r.0 as int, r.1 as int, r.2 as int) == ordered_intervals(self.0.estimates),
            0 <= r.0 && r.2 <= MAX_INTERVAL_DAYS + 2,
            r.0 + 1 <= r.1 && r.1 + 1 <= r.2,
    {
        let e = &self.0.estimates;
        let hard_interval = if e.hard.interval_days <= e.good.interval_days {
            e.hard.interval_days
        } else {
            e.good.interval_days
        };
        let good_interval = if e.good.interval_days >= hard_interval + 1 {
            e.good.interval_days
        } else {
            hard_interval + 1
        };
        let easy_interval = if e.easy.interval_days >= good_interval + 1 {
            e.easy.interval_days
        } else {
            good_interval + 1
        };
        (hard_interval, good_interval, easy_interval)
    }
}

/// In a long-interval review the Hard, Good and Easy cards are scheduled in
/// strictly increasing order of days, whatever the estimates; where the
/// estimated intervals already increase strictly, they are kept as they are.
pub proof fn lemma_basic_interval_order(b: Base)
    requires
        b.wf(),
        b.last.state == State::Reviewing,
    ensures
        basic_card(b, Rating::Hard).scheduled_days < basic_card(b, Rating::Good).scheduled_days,
        basic_card(b, Rating::Good).scheduled_days < basic_card(b, Rating::Easy).scheduled_days,
        b.estimates.hard.interval_days < b.estimates.good.interval_days
            < b.estimates.easy.interval_days ==> {
            &&& basic_card(b, Rating::Hard).scheduled_days == b.estimates.hard.interval_days
            &&& basic_card(b, Rating::Good).scheduled_days == b.estimates.good.interval_days
            &&& basic_card(b, Rating::Easy).scheduled_days == b.estimates.easy.interval_days
        },
{
}

/// In a (re)learning review that graduates the card, Easy is scheduled at
/// least a day after Good.
pub proof fn lemma_learning_interval_order(b: Base)
    requires
        b.wf(),
        b.last.state == State::Learning || b.last.state == State::Relearning,
    ensures
        basic_card(b, Rating::Good).scheduled_days < basic_card(b, Rating::Easy).scheduled_days,
{
}

} // verus!
