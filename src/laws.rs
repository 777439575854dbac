use vstd::prelude::*;
use crate::basic::basic_card;
use crate::context::Base;
use crate::longterm::longterm_card;
use crate::model::{transition, Rating, State, MAX_DIFFICULTY, MIN_DIFFICULTY};
use crate::short_term::{short_term_card, ShortTerm};

verus! {

/// Every card that any strategy produces has a difficulty within
/// `[MIN_DIFFICULTY, MAX_DIFFICULTY]`, whatever the difficulty it came in with
/// and whatever the memory model proposed.
pub proof fn lemma_difficulty_bound(b: Base, s: ShortTerm, rating: Rating)
    ensures
        MIN_DIFFICULTY <= basic_card(b, rating).difficulty <= MAX_DIFFICULTY,
        MIN_DIFFICULTY <= longterm_card(b, rating).difficulty <= MAX_DIFFICULTY,
        MIN_DIFFICULTY <= short_term_card(s, rating).difficulty <= MAX_DIFFICULTY,
{
}

/// In every strategy an Again on a long-interval card is a lapse: the count
/// grows by one. No other review changes it.
pub proof fn lemma_lapse_counted(b: Base, s: ShortTerm, rating: Rating)
    requires
        b.wf(),
        s.wf(),
    ensures
        basic_card(b, rating).lapses == b.current.lapses + (if b.last.state == State::Reviewing
            && rating == Rating::Again {
            1int
        } else {
            0int
        }),
        longterm_card(b, rating).lapses == b.current.lapses + (if b.last.state
            == State::Reviewing && rating == Rating::Again {
            1int
        } else {
            0int
        }),
        short_term_card(s, rating).lapses == s.card.lapses + (if s.card.state == State::Reviewing
            && rating == Rating::Again {
            1int
        } else {
            0int
        }),
{
}

/// Every lifecycle state and rating lead to a defined next state, the same in
/// all three strategies: they follow the transition table, Again from the
/// long-interval state is a lapse into relearning, and any other rating there
/// keeps the card in the long-interval state.
pub proof fn lemma_transition_total(b: Base, s: ShortTerm, rating: Rating)
    ensures
        basic_card(b, rating).state == transition(b.last.state, rating),
        short_term_card(s, rating).state == transition(s.card.state, rating),
        longterm_card(b, rating).state == transition(b.last.state, rating),
        b.last.state == State::Reviewing ==> (basic_card(b, rating).state == State::Relearning
            <==> rating == Rating::Again),
        b.last.state == State::Reviewing && rating != Rating::Again ==> basic_card(
            b,
            rating,
        ).state == State::Reviewing,
{
}

/// Before a card reaches the long-interval state, the short-interval strategy
/// makes the same decisions as the single-outcome one: for the same card,
/// time and estimates, it gives the same due time, state, scheduled days,
/// lapses and memory.
pub proof fn lemma_short_term_agrees_before_reviewing(b: Base, s: ShortTerm, rating: Rating)
    requires
        b.wf(),
        s.wf(),
        b == Base::spec_new(s.estimates, s.card, s.now),
        s.card.state != State::Reviewing,
    ensures
        short_term_card(s, rating).due == basic_card(b, rating).due,
        short_term_card(s, rating).state == basic_card(b, rating).state,
        short_term_card(s, rating).difficulty == basic_card(b, rating).difficulty,
        short_term_card(s, rating).stability == basic_card(b, rating).stability,
        short_term_card(s, rating).scheduled_days == basic_card(b, rating).scheduled_days,
        short_term_card(s, rating).lapses == basic_card(b, rating).lapses,
{
}

} // verus!
