//! What holds of a channel whatever values travel through it.
//!
//! Each law follows one cell from the state it starts in through the states
//! that [`State::step`] gives, and says what the operations of the endpoints
//! return on the way.

use crate::handshake::Handshake;
use crate::state::combined;
use crate::state::Action;
use crate::state::Cancelled;
use crate::state::State;
use vstd::prelude::*;

verus! {

/// A push on a fresh channel is accepted, and the pull that follows it on the
/// other endpoint returns exactly the value that was pushed.
pub proof fn lemma_push_then_pull<T>(u: Handshake<T>, v: Handshake<T>, v1: T)
    ensures
        u.push_result(State::Unset, v1) == Ok::<Result<(), (Handshake<T>, T)>, T>(Ok(())),
        v.pull_result(State::<T>::Unset.step(Action::Push(v1))) == Ok::<
            Result<T, Handshake<T>>,
            Cancelled,
        >(Ok(v1)),
{
}

/// Of two joins on a fresh channel, the one that arrives first gets nothing,
/// and the one that arrives second gets what the combiner makes of the first
/// value followed by the second; it is never the other way round.
pub proof fn lemma_join_first_then_second<T, U, F: FnOnce(T, T) -> U>(
    v1: T,
    v2: T,
    f: F,
    first: Result<Option<U>, T>,
    second: Result<Option<U>, T>,
)
    requires
        combined(State::<T>::Unset.join_reply(v1), f, first),
        combined(State::<T>::Unset.step(Action::Join(v1)).join_reply(v2), f, second),
    ensures
        first == Ok::<Option<U>, T>(None),
        second matches Ok(Some(made)) && f.ensures((v1, v2), made),
{
}

/// Once an endpoint of a fresh channel is discarded unused, a pull on the other
/// reports the cancellation, and a push or a join on the other reports it too
/// and hands the value back.
pub proof fn lemma_discard_cancels<T, U, F: FnOnce(T, T) -> U>(
    v: Handshake<T>,
    value: T,
    f: F,
    joined: Result<Option<U>, T>,
)
    requires
        combined(State::<T>::Unset.step(Action::Discard).join_reply(value), f, joined),
    ensures
        State::<T>::Unset.step(Action::Discard) == State::<T>::Cancelled,
        v.pull_result(State::<T>::Unset.step(Action::Discard)) == Err::<
            Result<T, Handshake<T>>,
            Cancelled,
        >(Cancelled),
        v.push_result(State::<T>::Unset.step(Action::Discard), value) == Err::<
            Result<(), (Handshake<T>, T)>,
            T,
        >(value),
        joined == Err::<Option<U>, T>(value),
{
}

/// A push on a fresh channel uses the pushing endpoint up, so nothing that
/// happens to that endpoint afterwards is an action on the cell: the value
/// stays until the peer acts, and the peer's pull, join or discard finds it.
pub proof fn lemma_push_is_final<T>(v: Handshake<T>, pushed: T, other: T)
    ensures
        State::<T>::Unset.consumes(Action::Push(pushed)),
        State::<T>::Unset.step(Action::Push(pushed)) == State::Filled(pushed),
        v.pull_result(State::Filled(pushed)) == Ok::<Result<T, Handshake<T>>, Cancelled>(
            Ok(pushed),
        ),
        State::Filled(pushed).join_reply(other) == Ok::<Option<(T, T)>, T>(Some((pushed, other))),
        State::Filled(pushed).discard_reply() == Some(pushed),
{
}

/// A peek reports `false` on a fresh channel, `true` once a value is pushed
/// and not yet pulled, and the cancellation once the peer was discarded
/// without pushing. It never changes the cell nor uses the endpoint up.
pub proof fn lemma_peek_follows_state<T>(value: T, state: State<T>)
    ensures
        State::<T>::Unset.peek_reply() == Ok::<bool, Cancelled>(false),
        State::<T>::Unset.step(Action::Push(value)).peek_reply() == Ok::<bool, Cancelled>(true),
        State::<T>::Unset.step(Action::Discard).peek_reply() == Err::<bool, Cancelled>(Cancelled),
        state.step(Action::Peek) == state,
        !state.consumes(Action::Peek),
{
}

/// Nothing leaves the cancelled state, and every action on it reports the
/// cancellation, handing back the value it came with.
pub proof fn lemma_cancelled_is_terminal<T>(action: Action<T>, value: T)
    ensures
        State::<T>::Cancelled.step(action) == State::<T>::Cancelled,
        State::<T>::Cancelled.push_reply(value) == Err::<Result<(), T>, T>(value),
        State::<T>::Cancelled.pull_reply() == Err::<Option<T>, Cancelled>(Cancelled),
        State::<T>::Cancelled.join_reply(value) == Err::<Option<(T, T)>, T>(value),
        State::<T>::Cancelled.peek_reply() == Err::<bool, Cancelled>(Cancelled),
        State::<T>::Cancelled.discard_reply() == None::<T>,
{
}

/// Of the two actions that use up the endpoints of a fresh channel, the first
/// never is the last use of the cell and the second always is; after the
/// second the cell holds no value.
pub proof fn lemma_second_action_releases<T>(first: Action<T>, second: Action<T>)
    requires
        State::<T>::Unset.consumes(first),
        State::<T>::Unset.step(first).consumes(second),
    ensures
        !State::<T>::Unset.releases(first),
        State::<T>::Unset.step(first).releases(second),
        !(State::<T>::Unset.step(first).step(second) is Filled),
{
}

/// An action that hands the endpoint back leaves the cell as it found it, and
/// is not the last use of the cell.
pub proof fn lemma_refused_action_changes_nothing<T>(state: State<T>, action: Action<T>)
    requires
        !state.consumes(action),
    ensures
        state.step(action) == state,
        !state.releases(action),
{
}

/// An endpoint comes back from a push or a pull exactly when the action did
/// not use it up, and then it is the endpoint that was given.
pub proof fn lemma_endpoint_returns_unless_consumed<T>(
    end: Handshake<T>,
    before: State<T>,
    value: T,
)
    ensures
        end.push_result(before, value) matches Ok(Err((back, _))) ==> back == end,
        end.push_result(before, value) is Ok && end.push_result(before, value)->Ok_0 is Err
            <==> !before.consumes(Action::Push(value)),
        end.pull_result(before) matches Ok(Err(back)) ==> back == end,
        end.pull_result(before) is Ok && end.pull_result(before)->Ok_0 is Err <==> !before.consumes(
            Action::Pull,
        ),
{
}

} // verus!
