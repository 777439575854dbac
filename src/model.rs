use vstd::prelude::*;

verus! {

/// Seconds in a minute.
pub const SECS_PER_MINUTE: i64 = 60;

/// Seconds in a day.
pub const SECS_PER_DAY: i64 = 86400;

/// Largest distance from the Unix epoch, in seconds, of a timestamp the engine accepts.
pub const MAX_TIMESTAMP: i64 = 10000000000000;

/// Longest interval, in days, that a memory model may propose.
pub const MAX_INTERVAL_DAYS: i64 = 100000000;

/// Difficulty and stability are fixed-point numbers with this many units per whole.
pub const FIXED_SCALE: u64 = 1000000;

/// Lowest difficulty (1.0), in fixed-point units.
pub const MIN_DIFFICULTY: u64 = 1000000;

/// Highest difficulty (10.0), in fixed-point units.
pub const MAX_DIFFICULTY: u64 = 10000000;

/// How well the learner recalled the card, from worst to best.
#[derive(Clone, Copy, Debug, PartialEq, Eq, Structural, Hash)]
pub enum Rating {
    Again,
    Hard,
    Good,
    Easy,
}

/// Where a card stands in its lifecycle.
#[derive(Clone, Copy, Debug, PartialEq, Eq, Structural, Hash)]
pub enum State {
    New,
    Learning,
    Relearning,
    Reviewing,
}

/// One memorized card. Times are seconds from the Unix epoch; difficulty and
/// stability are fixed-point numbers in units of `1 / FIXED_SCALE`.
#[derive(Clone, Copy, Debug)]
pub struct Card {
    pub due: i64,
    pub stability: u64,
    pub difficulty: u64,
    pub elapsed_days: i64,
    pub scheduled_days: i64,
    pub reps: u32,
    pub lapses: u32,
    pub state: State,
    pub last_review: i64,
    pub rating: Option<Rating>,
}

/// The log entry of one review.
#[derive(Clone, Copy, Debug)]
pub struct Review {
    pub rating: Rating,
    pub elapsed_days: i64,
    pub scheduled_days: i64,
    pub state: State,
    pub reviewed_at: i64,
}

/// A card together with the log of the review that produced it.
#[derive(Clone, Copy, Debug)]
pub struct Schedule {
    pub card: Card,
    pub review: Review,
}

/// One cached outcome of the memoizing strategy.
#[derive(Clone, Copy, Debug)]
pub struct SchedulingInfo {
    pub card: Card,
    pub review_log: Review,
}

/// What the memory model proposes for one rating: the updated difficulty and
/// stability, and the interval in whole days that the stability calls for.
#[derive(Clone, Copy, Debug)]
pub struct Estimate {
    pub difficulty: u64,
    pub stability: u64,
    pub interval_days: i64,
}

/// The memory model's proposals for all four ratings of one review event.
#[derive(Clone, Copy, Debug)]
pub struct Estimates {
    pub again: Estimate,
    pub hard: Estimate,
    pub good: Estimate,
    pub easy: Estimate,
}

/// Which formulas of the memory model produce the estimates for a card.
#[derive(Clone, Copy, Debug, PartialEq, Eq, Structural)]
pub enum MemoryUpdate {
    /// Initial difficulty and stability of a card never reviewed.
    Initial,
    /// Short-term stability, while the card is (re)learning.
    ShortTerm,
    /// Stability after recall or forgetting, from the retrievability at the review.
    LongTerm,
}

impl Card {
    /// A card never reviewed, created and due at `now`.
    pub fn new(now: i64) -> (r: Card)
        ensures
            r == (Card {
                due: now,
                stability: 0,
                difficulty: 0,
                elapsed_days: 0,
                scheduled_days: 0,
                reps: 0,
                lapses: 0,
                state: State::New,
                last_review: now,
                rating: None,
            }),
    {
        Card {
            due: now,
            stability: 0,
            difficulty: 0,
            elapsed_days: 0,
            scheduled_days: 0,
            reps: 0,
            lapses: 0,
            state: State::New,
            last_review: now,
            rating: None,
        }
    }
}

pub open spec fn valid_time(t: i64) -> bool {
    -MAX_TIMESTAMP <= t <= MAX_TIMESTAMP
}

pub open spec fn valid_interval(days: i64) -> bool {
    0 <= days <= MAX_INTERVAL_DAYS
}

impl Estimates {
    pub open spec fn wf(&self) -> bool {
        &&& valid_interval(self.again.interval_days)
        &&& valid_interval(self.hard.interval_days)
        &&& valid_interval(self.good.interval_days)
        &&& valid_interval(self.easy.interval_days)
    }

    pub open spec fn spec_get(&self, rating: Rating) -> Estimate {
        match rating {
            Rating::Again => self.again,
            Rating::Hard => self.hard,
            Rating::Good => self.good,
            Rating::Easy => self.easy,
        }
    }

    /// The estimate for `rating`.
    pub fn get(&self, rating: Rating) -> (r: Estimate)
        ensures
            r == self.spec_get(rating),
    {
        match rating {
            Rating::Again => self.again,
            Rating::Hard => self.hard,
            Rating::Good => self.good,
            Rating::Easy => self.easy,
        }
    }
}

/// A difficulty brought back into `[MIN_DIFFICULTY, MAX_DIFFICULTY]`.
pub open spec fn clamped_difficulty(d: u64) -> u64 {
    if d < MIN_DIFFICULTY {
        MIN_DIFFICULTY
    } else if d > MAX_DIFFICULTY {
        MAX_DIFFICULTY
    } else {
        d
    }
}

pub fn clamp_difficulty(d: u64) -> (r: u64)
    ensures
        r == clamped_difficulty(d),
        MIN_DIFFICULTY <= r <= MAX_DIFFICULTY,
{
    if d < MIN_DIFFICULTY {
        MIN_DIFFICULTY
    } else if d > MAX_DIFFICULTY {
        MAX_DIFFICULTY
    } else {
        d
    }
}

/// Whole days from `from` to `to`, rounded toward zero.
pub open spec fn days_between(from: i64, to: i64) -> int {
    if from <= to {
        (to - from) / (SECS_PER_DAY as int)
    } else {
        -((from - to) / (SECS_PER_DAY as int))
    }
}

/// The lifecycle state after a review of a card in the long-interval state.
pub open spec fn spec_next_state(rating: Rating) -> State {
    match rating {
        Rating::Again => State::Relearning,
        _ => State::Reviewing,
    }
}

pub fn next_state(rating: Rating) -> (r: State)
    ensures
        r == spec_next_state(rating),
{
    match rating {
        Rating::Again => State::Relearning,
        Rating::Hard | Rating::Good | Rating::Easy => State::Reviewing,
    }
}

/// The lifecycle state of a card in `state` after a review with `rating`: a
/// new card graduates at once on Easy and otherwise starts learning; a
/// (re)learning card stays put on Again and Hard and graduates on Good and
/// Easy; a long-interval card lapses into relearning on Again and otherwise
/// stays.
pub open spec fn transition(state: State, rating: Rating) -> State {
    match state {
        State::New => match rating {
            Rating::Easy => State::Reviewing,
            _ => State::Learning,
        },
        State::Learning | State::Relearning => match rating {
            Rating::Again | Rating::Hard => state,
            _ => State::Reviewing,
        },
        State::Reviewing => spec_next_state(rating),
    }
}

pub fn lifecycle_transition(state: State, rating: Rating) -> (r: State)
    ensures
        r == transition(state, rating),
{
    match state {
        State::New => match rating {
            Rating::Easy => State::Reviewing,
            Rating::Again | Rating::Hard | Rating::Good => State::Learning,
        },
        State::Learning | State::Relearning => match rating {
            Rating::Again | Rating::Hard => state,
            Rating::Good | Rating::Easy => State::Reviewing,
        },
        State::Reviewing => next_state(rating),
    }
}

/// Which formulas the memory model applies to a card in `state`.
pub open spec fn spec_memory_update(state: State) -> MemoryUpdate {
    match state {
        State::New => MemoryUpdate::Initial,
        State::Learning | State::Relearning => MemoryUpdate::ShortTerm,
        State::Reviewing => MemoryUpdate::LongTerm,
    }
}

pub fn memory_update(state: State) -> (r: MemoryUpdate)
    ensures
        r == spec_memory_update(state),
{
    match state {
        State::New => MemoryUpdate::Initial,
        State::Learning | State::Relearning => MemoryUpdate::ShortTerm,
        State::Reviewing => MemoryUpdate::LongTerm,
    }
}

/// Seconds in `days` whole days.
pub open spec fn day_secs(days: int) -> int {
    days * SECS_PER_DAY
}

} // verus!
