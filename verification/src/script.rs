//! What sequences of builder operations add up to.
//!
//! A script is a sequence of pushes and binds. Replaying it applies the steps
//! one after the other, each as the builder's own operation specifies it. The
//! proofs below say in closed form where a script leads.

use vstd::prelude::*;
use crate::database::Database;
use crate::error::BindError;
use crate::state::BuilderState;

verus! {

/// One operation on a builder that is being assembled.
pub enum Step {
    /// A push of the given fragment.
    Push(Seq<char>),
    /// A bind of a value with the given encoding.
    Bind(Seq<u8>),
}

/// The state after one step.
pub open spec fn apply<DB: Database>(state: BuilderState, step: Step) -> BuilderState {
    match step {
        Step::Push(fragment) => state.push(fragment),
        Step::Bind(encoding) => state.bind::<DB>(encoding),
    }
}

/// The state after all of `steps`, taken in order.
pub open spec fn replay<DB: Database>(state: BuilderState, steps: Seq<Step>) -> BuilderState
    decreases steps.len(),
{
    if steps.len() == 0 {
        state
    } else {
        apply::<DB>(replay::<DB>(state, steps.drop_last()), steps.last())
    }
}

/// The script that pushes each of `fragments` in turn.
pub open spec fn pushes(fragments: Seq<Seq<char>>) -> Seq<Step> {
    fragments.map_values(|fragment: Seq<char>| Step::Push(fragment))
}

/// The script that binds a value of each of `encodings` in turn.
pub open spec fn binds(encodings: Seq<Seq<u8>>) -> Seq<Step> {
    encodings.map_values(|encoding: Seq<u8>| Step::Bind(encoding))
}

/// The binds of a script, with the pushes left out.
pub open spec fn binds_of(steps: Seq<Step>) -> Seq<Step> {
    steps.filter(|step: Step| step is Bind)
}

/// The fragments one after the other, each with one space in front of it.
pub open spec fn spaced(fragments: Seq<Seq<char>>) -> Seq<char> {
    fragments.map_values(|fragment: Seq<char>| seq![' '] + fragment).flatten()
}

/// The placeholders of the `count` ordinals that follow `bound`, one by one.
pub open spec fn token_list<DB: Database>(bound: nat, count: nat) -> Seq<Seq<char>> {
    Seq::new(count, |i: int| DB::placeholder((bound + i + 1) as nat))
}

/// The placeholders of the `count` ordinals that follow `bound`, in order.
pub open spec fn tokens<DB: Database>(bound: nat, count: nat) -> Seq<char> {
    token_list::<DB>(bound, count).flatten()
}

/// Pushes append their fragments to the text in call order, each after
/// exactly one space, and change nothing else.
pub proof fn pushes_append_in_order<DB: Database>(state: BuilderState, fragments: Seq<Seq<char>>)
    ensures
        replay::<DB>(state, pushes(fragments)) == (BuilderState {
            text: state.text + spaced(fragments),
            ..state
        }),
    decreases fragments.len(),
{
    let separated = |fragment: Seq<char>| seq![' '] + fragment;
    if fragments.len() == 0 {
        assert(state.text + spaced(fragments) =~= state.text);
    } else {
        let front = fragments.drop_last();
        pushes_append_in_order::<DB>(state, front);
        assert(pushes(fragments).drop_last() =~= pushes(front));
        assert(fragments.map_values(separated) =~= front.map_values(separated).push(
            separated(fragments.last()),
        ));
        front.map_values(separated).lemma_flatten_push(separated(fragments.last()));
        assert(state.text + spaced(front) + seq![' '] + fragments.last() =~= state.text + spaced(
            fragments,
        ));
    }
}

/// A fresh builder holds the text it was made with and an empty buffer, so
/// that is what building it right away hands over. As long as nothing is
/// bound, whatever is pushed, the buffer stays present and empty.
pub proof fn unbound_builder_holds_an_empty_buffer<DB: Database>(
    text: Seq<char>,
    fragments: Seq<Seq<char>>,
)
    ensures
        BuilderState::initial(text).text == text,
        BuilderState::initial(text).arguments == Some(Seq::<u8>::empty()),
        BuilderState::initial(text).placeholders == 0,
        replay::<DB>(BuilderState::initial(text), pushes(fragments)).arguments == Some(
            Seq::<u8>::empty(),
        ),
        replay::<DB>(BuilderState::initial(text), pushes(fragments)).placeholders == 0,
{
    pushes_append_in_order::<DB>(BuilderState::initial(text), fragments);
}

/// Binds number their placeholders consecutively from the ordinal after the
/// last one, append them to the text in call order, and append their
/// encodings to the buffer in call order.
pub proof fn binds_number_in_order<DB: Database>(state: BuilderState, encodings: Seq<Seq<u8>>)
    requires
        state.live(),
    ensures
        replay::<DB>(state, binds(encodings)) == (BuilderState {
            text: state.text + tokens::<DB>(state.placeholders, encodings.len()),
            arguments: Some(state.arguments->0 + encodings.flatten()),
            placeholders: state.placeholders + encodings.len(),
        }),
    decreases encodings.len(),
{
    let bound = state.placeholders;
    if encodings.len() == 0 {
        assert(state.text + tokens::<DB>(bound, 0) =~= state.text);
        assert(state.arguments->0 + encodings.flatten() =~= state.arguments->0);
    } else {
        let front = encodings.drop_last();
        let last_token = DB::placeholder(bound + encodings.len());
        binds_number_in_order::<DB>(state, front);
        assert(binds(encodings).drop_last() =~= binds(front));
        assert(tokens::<DB>(bound, encodings.len()) == tokens::<DB>(bound, front.len())
            + last_token) by {
            assert(token_list::<DB>(bound, encodings.len()) =~= token_list::<DB>(
                bound,
                front.len(),
            ).push(last_token));
            token_list::<DB>(bound, front.len()).lemma_flatten_push(last_token);
        }
        assert(encodings.flatten() == front.flatten() + encodings.last()) by {
            assert(encodings =~= front.push(encodings.last()));
            front.lemma_flatten_push(encodings.last());
        }
        assert(state.text + tokens::<DB>(bound, front.len()) + last_token =~= state.text
            + tokens::<DB>(bound, encodings.len()));
        assert(state.arguments->0 + front.flatten() + encodings.last() =~= state.arguments->0
            + encodings.flatten());
    }
}

/// On a fresh builder, `n` binds leave the placeholders of the ordinals 1 to
/// `n` behind the initial text, and the encodings, one after the other, in
/// the buffer.
pub proof fn binds_on_a_fresh_builder<DB: Database>(text: Seq<char>, encodings: Seq<Seq<u8>>)
    ensures
        replay::<DB>(BuilderState::initial(text), binds(encodings)) == (BuilderState {
            text: text + tokens::<DB>(0, encodings.len()),
            arguments: Some(encodings.flatten()),
            placeholders: encodings.len(),
        }),
{
    binds_number_in_order::<DB>(BuilderState::initial(text), encodings);
    assert(Seq::<u8>::empty() + encodings.flatten() =~= encodings.flatten());
}

/// Pushes do not disturb the numbering: with the pushes among the binds or
/// without them, a script leaves the same counter and the same buffer, and
/// the counter has gone up by the number of binds.
pub proof fn pushes_leave_the_numbering_alone<DB: Database>(state: BuilderState, steps: Seq<Step>)
    ensures
        replay::<DB>(state, steps).placeholders == state.placeholders + binds_of(steps).len(),
        replay::<DB>(state, steps).placeholders == replay::<DB>(state, binds_of(steps)).placeholders,
        replay::<DB>(state, steps).arguments == replay::<DB>(state, binds_of(steps)).arguments,
        replay::<DB>(state, steps).live() == state.live(),
    decreases steps.len(),
{
    reveal(Seq::filter);
    if steps.len() > 0 {
        let front = steps.drop_last();
        pushes_leave_the_numbering_alone::<DB>(state, front);
        if steps.last() is Bind {
            assert(binds_of(steps).drop_last() =~= binds_of(front));
        }
    }
}

/// The bind at position `at` of a script emits the placeholder of the ordinal
/// that follows the binds before it, however many pushes stand in between.
pub proof fn bind_takes_the_next_ordinal<DB: Database>(
    state: BuilderState,
    steps: Seq<Step>,
    at: int,
)
    requires
        0 <= at < steps.len(),
        steps[at] is Bind,
    ensures
        replay::<DB>(state, steps.take(at + 1)).text == replay::<DB>(state, steps.take(at)).text
            + DB::placeholder(state.placeholders + binds_of(steps.take(at)).len() + 1),
{
    pushes_leave_the_numbering_alone::<DB>(state, steps.take(at));
    assert(steps.take(at + 1).drop_last() =~= steps.take(at));
}

/// Once a builder is built it refuses every bind for want of a buffer: right
/// away, after any pushes, and after it is built again.
pub proof fn bind_after_build_is_refused<DB: Database>(
    state: BuilderState,
    fragments: Seq<Seq<char>>,
)
    ensures
        state.taken().bind_outcome() == Err::<(), BindError>(BindError::ArgumentsTaken),
        replay::<DB>(state.taken(), pushes(fragments)).bind_outcome() == Err::<(), BindError>(
            BindError::ArgumentsTaken,
        ),
        replay::<DB>(state.taken(), pushes(fragments)).taken().bind_outcome() == Err::<
            (),
            BindError,
        >(BindError::ArgumentsTaken),
{
    pushes_append_in_order::<DB>(state.taken(), fragments);
}

} // verus!
