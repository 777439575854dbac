use vstd::prelude::*;
use crate::context::{int_max, int_min, reviewed, spec_reviewed, Base};
use crate::model::{
    day_secs, lifecycle_transition, transition, valid_time, Card, Estimates, Rating, Review, SchedulingInfo, State, MAX_DIFFICULTY,
    MAX_INTERVAL_DAYS, MIN_DIFFICULTY, SECS_PER_DAY,
};

verus! {

/// The four outcomes of one review event, one per rating.
#[derive(Clone, Copy, Debug)]
pub struct Outcomes {
    pub again: SchedulingInfo,
    pub hard: SchedulingInfo,
    pub good: SchedulingInfo,
    pub easy: SchedulingInfo,
}

impl Outcomes {
    pub open spec fn spec_get(&self, rating: Rating) -> SchedulingInfo {
        match rating {
            Rating::Again => self.again,
            Rating::Hard => self.hard,
            Rating::Good => self.good,
            Rating::Easy => self.easy,
        }
    }

    pub fn get(&self, rating: Rating) -> (r: SchedulingInfo)
        ensures
            r == self.spec_get(rating),
    {
        match rating {
            Rating::Again => self.again,
            Rating::Hard => self.hard,
            Rating::Good => self.good,
            Rating::Easy => self.easy,
        }
    }
}

/// The memoizing strategy: on its first query it computes the outcomes of
/// all four ratings together and keeps them for later queries.
pub struct Longterm {
    pub base: Base,
    pub next: Option<Outcomes>,
}

/// Again, Hard, Good and Easy intervals, forced into strictly increasing order.
pub open spec fn long_intervals(e: Estimates) -> (int, int, int, int) {
    let again = int_min(e.again.interval_days as int, e.hard.interval_days as int);
    let hard = int_max(e.hard.interval_days as int, again + 1);
    let good = int_max(e.good.interval_days as int, hard + 1);
    let easy = int_max(e.easy.interval_days as int, good + 1);
    (again, hard, good, easy)
}

pub open spec fn long_interval(e: Estimates, rating: Rating) -> int {
    let (again, hard, good, easy) = long_intervals(e);
    match rating {
        Rating::Again => again,
        Rating::Hard => hard,
        Rating::Good => good,
        Rating::Easy => easy,
    }
}

/// The card that the memoizing strategy gives for `rating`: the lifecycle
/// state follows the transition table, the interval comes from the ordered
/// four, and Again on a long-interval card counts a lapse.
pub open spec fn longterm_card(b: Base, rating: Rating) -> Card {
    let days = long_interval(b.estimates, rating);
    let c = spec_reviewed(
        b.current,
        b.now,
        rating,
        b.estimates.spec_get(rating),
        days,
        day_secs(days),
        transition(b.last.state, rating),
    );
    if rating == Rating::Again && b.last.state == State::Reviewing {
        Card { lapses: (c.lapses + 1) as u32, ..c }
    } else {
        c
    }
}

/// The log that the memoizing strategy gives for `rating`; a new card's log
/// counts no elapsed and no scheduled days.
pub open spec fn longterm_log(b: Base, rating: Rating) -> Review {
    let log = b.spec_build_log(rating);
    if b.last.state == State::New {
        Review { elapsed_days: 0, scheduled_days: 0, ..log }
    } else {
        log
    }
}

pub open spec fn longterm_outcome(b: Base, rating: Rating) -> SchedulingInfo {
    SchedulingInfo { card: longterm_card(b, rating), review_log: longterm_log(b, rating) }
}

pub open spec fn all_outcomes(b: Base) -> Outcomes {
    Outcomes {
        again: longterm_outcome(b, Rating::Again),
        hard: longterm_outcome(b, Rating::Hard),
        good: longterm_outcome(b, Rating::Good),
        easy: longterm_outcome(b, Rating::Easy),
    }
}

impl Longterm {
    /// The review event is usable and the cache, once filled, holds the four
    /// outcomes of this event.
    pub open spec fn wf(&self) -> bool {
        &&& self.base.wf()
        &&& (self.next matches Some(o) ==> o == all_outcomes(self.base))
    }

    /// Opens the review of `card` at `now`, with nothing cached yet.
    pub fn new(estimates: Estimates, card: Card, now: i64) -> (r: Longterm)
        requires
            valid_time(now),
            valid_time(card.last_review),
            card.reps < u32::MAX,
        ensures
            r.base == Base::spec_new(estimates, card, now),
            r.next.is_none(),
    {
        Longterm { base: Base::new(estimates, card, now), next: None }
    }

    /// The outcome of a review with `rating`; the first query fills the cache
    /// with all four outcomes, later ones read it.
    pub fn review(&mut self, rating: Rating) -> (r: SchedulingInfo)
        requires
            old(self).wf(),
        ensures
            final(self).wf(),
            final(self).base == old(self).base,
            final(self).next == Some(all_outcomes(old(self).base)),
            r == longterm_outcome(old(self).base, rating),
            r.card.state == transition(old(self).base.last.state, rating),
            MIN_DIFFICULTY <= r.card.difficulty <= MAX_DIFFICULTY,
    {
        match self.base.last.state {
            State::New => self.new_state(rating),
            State::Learning | State::Relearning => self.learning_state(rating),
            State::Reviewing => self.review_state(rating),
        }
    }

    fn new_state(&mut self, rating: Rating) -> (r: SchedulingInfo)
        requires
            old(self).wf(),
            old(self).base.last.state == State::New,
        ensures
            final(self).base == old(self).base,
            final(self).next == Some(all_outcomes(old(self).base)),
            r == longterm_outcome(old(self).base, rating),
    {
        if self.next.is_none() {
            let mut log_base = self.base;
            log_base.current.scheduled_days = 0;
            log_base.current.elapsed_days = 0;
            let outcomes = self.next_outcomes(&log_base);
            self.update_next(outcomes);
        }
        self.cached(rating)
    }

    fn learning_state(&mut self, rating: Rating) -> (r: SchedulingInfo)
        requires
            old(self).wf(),
            old(self).base.last.state != State::New,
        ensures
            final(self).base == old(self).base,
            final(self).next == Some(all_outcomes(old(self).base)),
            r == longterm_outcome(old(self).base, rating),
    {
        self.review_state(rating)
    }

    fn review_state(&mut self, rating: Rating) -> (r: SchedulingInfo)
        requires
            old(self).wf(),
            old(self).base.last.state != State::New,
        ensures
            final(self).base == old(self).base,
            final(self).next == Some(all_outcomes(old(self).base)),
            r == longterm_outcome(old(self).base, rating),
    {
        if self.next.is_none() {
            let log_base = self.base;
            let outcomes = self.next_outcomes(&log_base);
            self.update_next(outcomes);
        }
        self.cached(rating)
    }

    /// The cached outcome of `rating`.
    fn cached(&self, rating: Rating) -> (r: SchedulingInfo)
        requires
            self.wf(),
            self.next.is_some(),
        ensures
            r == longterm_outcome(self.base, rating),
    {
        match self.next {
            Some(outcomes) => outcomes.get(rating),
            None => vstd::pervasive::unreached(),
        }
    }

    /// Builds all four outcomes in one pass: memory from the estimates,
    /// intervals ordered together, states from the transition table, a lapse
    /// on Again from the long-interval state, and logs taken from `log_base`.
    fn next_outcomes(&self, log_base: &Base) -> (r: Outcomes)
        requires
            self.base.wf(),
            log_base.now == self.base.now,
            log_base.last == self.base.last,
            log_base.current.elapsed_days == (if self.base.last.state == State::New {
                0
            } else {
                self.base.current.elapsed_days
            }),
            log_base.current.scheduled_days == (if self.base.last.state == State::New {
                0
            } else {
                self.base.current.scheduled_days
            }),
        ensures
            r == all_outcomes(self.base),
    {
        let b = &self.base;
        let (again_interval, hard_interval, good_interval, easy_interval) = self.next_interval();
        let again_lapses: u32 = if b.last.state == State::Reviewing { 1 } else { 0 };
        let mut again = reviewed(
            b.current,
            b.now,
            Rating::Again,
            b.estimates.again,
            again_interval,
            again_interval * SECS_PER_DAY,
            lifecycle_transition(b.last.state, Rating::Again),
        );
        again.lapses = again.lapses + again_lapses;
        let hard = reviewed(
            b.current,
            b.now,
            Rating::Hard,
            b.estimates.hard,
            hard_interval,
            hard_interval * SECS_PER_DAY,
            lifecycle_transition(b.last.state, Rating::Hard),
        );
        let good = reviewed(
            b.current,
            b.now,
            Rating::Good,
            b.estimates.good,
            good_interval,
            good_interval * SECS_PER_DAY,
            lifecycle_transition(b.last.state, Rating::Good),
        );
        let easy = reviewed(
            b.current,
            b.now,
            Rating::Easy,
            b.estimates.easy,
            easy_interval,
            easy_interval * SECS_PER_DAY,
            lifecycle_transition(b.last.state, Rating::Easy),
        );
        Outcomes {
            again: SchedulingInfo { card: again, review_log: log_base.build_log(Rating::Again) },
            hard: SchedulingInfo { card: hard, review_log: log_base.build_log(Rating::Hard) },
            good: SchedulingInfo { card: good, review_log: log_base.build_log(Rating::Good) },
            easy: SchedulingInfo { card: easy, review_log: log_base.build_log(Rating::Easy) },
        }
    }

    /// The four intervals, each at least a day longer than the one before.
    fn next_interval(&self) -> (r: (i64, i64, i64, i64))
        requires
            self.base.estimates.wf(),
        ensures
            (r.0 as int, r.1 as int, r.2 as int, r.3 as int) == long_intervals(
                self.base.estimates,
            ),
            0 <= r.0 && r.3 <= MAX_INTERVAL_DAYS + 3,
            r.0 + 1 <= r.1 && r.1 + 1 <= r.2 && r.2 + 1 <= r.3,
    {
        let e = &self.base.estimates;
        let again_interval = if e.again.interval_days <= e.hard.interval_days {
            e.again.interval_days
        } else {
            e.hard.interval_days
        };
        let hard_interval = if e.hard.interval_days >= again_interval + 1 {
            e.hard.interval_days
        } else {
            again_interval + 1
        };
        let good_interval = if e.good.interval_days >= hard_interval + 1 {
            e.good.interval_days
        } else {
            hard_interval + 1
        };
        let easy_interval = if e.easy.interval_days >= good_interval + 1 {
            e.easy.interval_days
        } else {
            good_interval + 1
        };
        (again_interval, hard_interval, good_interval, easy_interval)
    }

    /// Stores the four outcomes in the cache.
    fn update_next(&mut self, outcomes: Outcomes)
        requires
            old(self).base.wf(),
            outcomes == all_outcomes(old(self).base),
        ensures
            final(self).base == old(self).base,
            final(self).next == Some(outcomes),
            final(self).wf(),
    {
        self.next = Some(outcomes);
    }
}

/// The memoizing strategy schedules Again, Hard, Good and Easy in strictly
/// increasing order of days, in every lifecycle state.
pub proof fn lemma_longterm_interval_order(b: Base)
    requires
        b.wf(),
    ensures
        longterm_card(b, Rating::Again).scheduled_days < longterm_card(b, Rating::Hard).scheduled_days,
        longterm_card(b, Rating::Hard).scheduled_days < longterm_card(b, Rating::Good).scheduled_days,
        longterm_card(b, Rating::Good).scheduled_days < longterm_card(b, Rating::Easy).scheduled_days,
{
}

/// Whatever has been cached, each cached outcome is the one that a fresh
/// computation of that rating alone gives for the same review event.
pub proof fn lemma_cache_equivalence(l: Longterm, rating: Rating)
    requires
        l.wf(),
        l.next.is_some(),
    ensures
        l.next.unwrap().spec_get(rating) == longterm_outcome(l.base, rating),
{
}

} // verus!
