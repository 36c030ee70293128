//! The two endpoints of a channel and their operations.
//!
//! Every operation locks the shared cell, performs one transition of
//! [`State`] on it and unlocks. Which state the lock hands out depends on what
//! the peer has done, so the contracts here say what is returned for whatever
//! state `before` the cell was found in; for a given state the transitions of
//! [`State`] say exactly what is returned and what the cell holds afterwards.

use crate::shared::enter;
use crate::shared::new_lock;
use crate::shared::same_cell;
use crate::shared::share;
use crate::shared::state_of;
use crate::state::combine;
use crate::state::combined;
use crate::state::Cancelled;
use crate::state::State;
use std::sync::Arc;
use std::sync::Mutex;
use vstd::prelude::*;

verus! {

/// An endpoint's hold on the shared cell.
///
/// Dropping a hold that is still attached performs the discard transition on
/// the cell. An operation that uses the endpoint up detaches the hold first, so
/// that the drop which follows leaves the cell alone.
#[derive(Debug)]
#[verifier::reject_recursive_types(T)]
struct Hold<T> {
    cell: Option<Arc<Mutex<State<T>>>>,
}

impl<T> Hold<T> {
    /// Takes the cell out of the hold, leaving it detached.
    fn detach(&mut self) -> (cell: Option<Arc<Mutex<State<T>>>>)
        ensures
            cell == old(self).cell,
            final(self).cell is None,
        opens_invariants none
        no_unwind
    {
        let mut cell = None;
        core::mem::swap(&mut self.cell, &mut cell);
        cell
    }

    /// Detaches the hold and performs the discard transition on its cell,
    /// returning the value that the cell held. A detached hold gives `None`
    /// and touches no cell.
    fn release(&mut self) -> (value: Option<T>)
        ensures
            final(self).cell is None,
            old(self).cell is None ==> value is None,
            exists|before: State<T>| value == before.discard_reply(),
        opens_invariants none
        no_unwind
    {
        match self.detach() {
            Some(cell) => {
                let mut guard = enter(&cell);
                let state = state_of(&mut guard);
                let ghost before = *state;
                let value = state.discard();
                assert(value == before.discard_reply());
                value
            },
            None => {
                assert(None::<T> == State::<T>::Cancelled.discard_reply());
                None
            },
        }
    }
}

impl<T> Drop for Hold<T> {
    fn drop(&mut self)
        opens_invariants none
        no_unwind
    {
        let _ = self.release();
    }
}

/// One of the two endpoints of a channel. Both can do the same things; the
/// first to act deposits, the second retrieves.
///
/// Every operation that completes the endpoint's part takes it by value, so a
/// spent endpoint cannot be used again. An endpoint that goes out of scope
/// unused cancels the channel for its peer.
///
/// Two endpoints are equal when they belong to one channel.
#[derive(Debug)]
#[verifier::reject_recursive_types(T)]
pub struct Handshake<T> {
    hold: Hold<T>,
}

impl<T> Handshake<T> {
    /// An endpoint always holds its cell: the operations that detach the hold
    /// take the endpoint apart first.
    #[verifier::type_invariant]
    spec fn attached(self) -> bool {
        self.hold.cell is Some
    }

    /// What `try_push` returns when it finds the cell in state `before`.
    pub open spec fn push_result(self, before: State<T>, value: T) -> Result<
        Result<(), (Self, T)>,
        T,
    > {
        match before.push_reply(value) {
            Ok(Ok(())) => Ok(Ok(())),
            Ok(Err(back)) => Ok(Err((self, back))),
            Err(back) => Err(back),
        }
    }

    /// What `try_pull` returns when it finds the cell in state `before`.
    pub open spec fn pull_result(self, before: State<T>) -> Result<Result<T, Self>, Cancelled> {
        match before.pull_reply() {
            Ok(Some(value)) => Ok(Ok(value)),
            Ok(None) => Ok(Err(self)),
            Err(cancelled) => Err(cancelled),
        }
    }

    /// Uses the endpoint up without touching the cell.
    fn spend(self) {
        let Handshake { hold } = self;
        let mut hold = hold;
        let _ = hold.detach();
    }

    /// Creates a channel that has already been pushed to, and returns the
    /// endpoint that has not acted.
    pub fn wrap(value: T) -> (unused: Handshake<T>) {
        Handshake { hold: Hold { cell: Some(Arc::new(new_lock(State::Filled(value)))) } }
    }

    /// Deposits `value` if the endpoint is first to act; otherwise combines the
    /// deposited value with `value` by `f`, the earlier value first.
    ///
    /// `f` runs after the lock is released.
    pub fn join<U, F: FnOnce(T, T) -> U>(self, value: T, f: F) -> (res: Result<Option<U>, T>)
        requires
            forall|other: T| f.requires((other, value)),
        ensures
            exists|before: State<T>| combined(before.join_reply(value), f, res),
    {
        proof {
            use_type_invariant(&self);
        }
        let ghost before;
        let reply = match &self.hold.cell {
            Some(cell) => {
                let mut guard = enter(cell);
                let state = state_of(&mut guard);
                proof {
                    before = *state;
                }
                state.pair(value)
            },
            None => vstd::pervasive::unreached(),
        };
        self.spend();
        let res = combine(reply, f);
        assert(combined(before.join_reply(value), f, res));
        res
    }

    /// Deposits `value` if the cell is unset. If the peer has deposited first,
    /// the endpoint and the value come back; if the peer is gone, the value.
    pub fn try_push(self, value: T) -> (res: Result<Result<(), (Self, T)>, T>)
        ensures
            exists|before: State<T>| res == self.push_result(before, value),
    {
        proof {
            use_type_invariant(&self);
        }
        let ghost before;
        let reply = match &self.hold.cell {
            Some(cell) => {
                let mut guard = enter(cell);
                let state = state_of(&mut guard);
                proof {
                    before = *state;
                }
                state.push(value)
            },
            None => vstd::pervasive::unreached(),
        };
        let res = match reply {
            Ok(Ok(())) => {
                self.spend();
                Ok(Ok(()))
            },
            Ok(Err(back)) => Ok(Err((self, back))),
            Err(back) => {
                self.spend();
                Err(back)
            },
        };
        assert(res == self.push_result(before, value));
        res
    }

    /// Retrieves the value that the peer deposited. If nothing is deposited
    /// yet, the endpoint comes back.
    pub fn try_pull(self) -> (res: Result<Result<T, Self>, Cancelled>)
        ensures
            exists|before: State<T>| res == self.pull_result(before),
    {
        proof {
            use_type_invariant(&self);
        }
        let ghost before;
        let reply = match &self.hold.cell {
            Some(cell) => {
                let mut guard = enter(cell);
                let state = state_of(&mut guard);
                proof {
                    before = *state;
                }
                state.pull()
            },
            None => vstd::pervasive::unreached(),
        };
        let res = match reply {
            Ok(Some(value)) => {
                self.spend();
                Ok(Ok(value))
            },
            Ok(None) => Ok(Err(self)),
            Err(cancelled) => {
                self.spend();
                Err(cancelled)
            },
        };
        assert(res == self.pull_result(before));
        res
    }

    /// Reports whether a value is deposited, or that the peer is gone, without
    /// using the endpoint up.
    pub fn is_set(&self) -> (res: Result<bool, Cancelled>)
        ensures
            exists|before: State<T>| res == before.peek_reply(),
    {
        proof {
            use_type_invariant(self);
        }
        match &self.hold.cell {
            Some(cell) => {
                let mut guard = enter(cell);
                let state = state_of(&mut guard);
                let ghost before = *state;
                let res = state.peek();
                assert(res == before.peek_reply());
                res
            },
            None => vstd::pervasive::unreached(),
        }
    }
}

/// Creates a channel and returns its two endpoints.
pub fn channel<T>() -> (pair: (Handshake<T>, Handshake<T>))
    ensures
        pair.0 == pair.1,
{
    let cell = Arc::new(new_lock(State::Unset));
    let peer = share(&cell);
    (Handshake { hold: Hold { cell: Some(cell) } }, Handshake { hold: Hold { cell: Some(peer) } })
}

/// Gives the endpoint up at once and returns the value that its peer had
/// deposited, if any. Where nothing was deposited the channel is cancelled.
///
/// This is what dropping the endpoint does, except that the value comes back
/// to the caller, who can take a nested chain of channels apart in a loop.
pub fn take<T>(handshake: Handshake<T>) -> (value: Option<T>)
    ensures
        exists|before: State<T>| value == before.discard_reply(),
{
    let Handshake { hold } = handshake;
    let mut hold = hold;
    hold.release()
}

impl<T> PartialEq for Handshake<T> {
    fn eq(&self, other: &Self) -> (same: bool) {
        proof {
            use_type_invariant(self);
            use_type_invariant(other);
        }
        match (&self.hold.cell, &other.hold.cell) {
            (Some(a), Some(b)) => same_cell(a, b),
            _ => vstd::pervasive::unreached(),
        }
    }
}

impl<T> vstd::std_specs::cmp::PartialEqSpecImpl for Handshake<T> {
    open spec fn obeys_eq_spec() -> bool {
        true
    }

    open spec fn eq_spec(&self, other: &Self) -> bool {
        *self == *other
    }
}

impl<T> Eq for Handshake<T> {

}

} // verus!
