//! The state of a channel's shared cell and the transitions between states.
//!
//! | state     | action             | next state | endpoint used up | last use of the cell |
//! |-----------|--------------------|------------|------------------|----------------------|
//! | unset     | push, join         | filled     | yes              | no                   |
//! | unset     | pull               | unset      | no               | no                   |
//! | unset     | discard            | cancelled  | yes              | no                   |
//! | filled    | pull, join         | unset      | yes              | yes                  |
//! | filled    | push               | filled     | no               | no                   |
//! | filled    | discard            | unset      | yes              | yes                  |
//! | cancelled | push, pull, join   | cancelled  | yes              | yes                  |
//! | cancelled | discard            | cancelled  | yes              | yes                  |
//! | any       | peek               | unchanged  | no               | no                   |

use vstd::prelude::*;

verus! {

/// Reports that the peer endpoint was discarded before a value was exchanged.
#[derive(Debug, PartialEq, Eq, PartialOrd, Ord, Clone, Copy, Structural)]
pub struct Cancelled;

/// What the shared cell of a channel holds.
#[derive(Debug, PartialEq, Eq)]
pub enum State<T> {
    /// No value is stored and no endpoint has been discarded.
    Unset,
    /// One endpoint has deposited a value; the other has not acted yet.
    Filled(T),
    /// An endpoint was discarded before any exchange. Nothing leaves this state.
    Cancelled,
}

/// An operation of one endpoint on the shared cell.
pub enum Action<T> {
    /// Deposit a value.
    Push(T),
    /// Retrieve the deposited value.
    Pull,
    /// Deposit a value, or pair it with the one already deposited.
    Join(T),
    /// Look whether a value is deposited.
    Peek,
    /// Give the endpoint up.
    Discard,
}

impl<T> State<T> {
    /// The state of the cell after `action` was performed on `self`.
    pub open spec fn step(self, action: Action<T>) -> State<T> {
        match (self, action) {
            (State::Unset, Action::Push(value)) => State::Filled(value),
            (State::Unset, Action::Join(value)) => State::Filled(value),
            (State::Unset, Action::Discard) => State::Cancelled,
            (State::Filled(_), Action::Pull) => State::Unset,
            (State::Filled(_), Action::Join(_)) => State::Unset,
            (State::Filled(_), Action::Discard) => State::Unset,
            _ => self,
        }
    }

    /// Whether `action`, performed on `self`, uses up the endpoint that performs it.
    ///
    /// A pull that finds nothing and a push that finds the cell occupied hand
    /// the endpoint back; a peek only borrows it.
    pub open spec fn consumes(self, action: Action<T>) -> bool {
        match (self, action) {
            (_, Action::Peek) => false,
            (State::Unset, Action::Pull) => false,
            (State::Filled(_), Action::Push(_)) => false,
            _ => true,
        }
    }

    /// Whether `action`, performed on `self`, is the last use of the cell, after
    /// which the cell is destroyed.
    pub open spec fn releases(self, action: Action<T>) -> bool {
        self.consumes(action) && !(self is Unset)
    }

    /// What a push of `value` reports: stored, refused with the value handed
    /// back, or cancelled with the value handed back.
    pub open spec fn push_reply(self, value: T) -> Result<Result<(), T>, T> {
        match self {
            State::Unset => Ok(Ok(())),
            State::Filled(_) => Ok(Err(value)),
            State::Cancelled => Err(value),
        }
    }

    /// What a pull reports: the deposited value, nothing yet, or cancelled.
    pub open spec fn pull_reply(self) -> Result<Option<T>, Cancelled> {
        match self {
            State::Unset => Ok(None),
            State::Filled(value) => Ok(Some(value)),
            State::Cancelled => Err(Cancelled),
        }
    }

    /// What a join with `value` reports: nothing when it came first, the
    /// earlier value followed by `value` when it came second, or cancelled with
    /// the value handed back.
    pub open spec fn join_reply(self, value: T) -> Result<Option<(T, T)>, T> {
        match self {
            State::Unset => Ok(None),
            State::Filled(other) => Ok(Some((other, value))),
            State::Cancelled => Err(value),
        }
    }

    /// What a peek reports: whether a value is deposited, or cancelled.
    pub open spec fn peek_reply(self) -> Result<bool, Cancelled> {
        match self {
            State::Unset => Ok(false),
            State::Filled(_) => Ok(true),
            State::Cancelled => Err(Cancelled),
        }
    }

    /// The value that a discard takes out of the cell, if one was deposited.
    pub open spec fn discard_reply(self) -> Option<T> {
        match self {
            State::Filled(value) => Some(value),
            _ => None,
        }
    }

    /// Deposits `value` if the cell is unset; otherwise hands it back.
    pub fn push(&mut self, value: T) -> (reply: Result<Result<(), T>, T>)
        ensures
            *final(self) == old(self).step(Action::Push(value)),
            reply == old(self).push_reply(value),
        no_unwind
    {
        match self {
            State::Unset => {
                *self = State::Filled(value);
                Ok(Ok(()))
            },
            State::Filled(_) => Ok(Err(value)),
            State::Cancelled => Err(value),
        }
    }

    /// Takes the deposited value out, leaving the cell unset.
    pub fn pull(&mut self) -> (reply: Result<Option<T>, Cancelled>)
        ensures
            *final(self) == old(self).step(Action::Pull),
            reply == old(self).pull_reply(),
        no_unwind
    {
        let mut held = State::Unset;
        core::mem::swap(self, &mut held);
        match held {
            State::Unset => Ok(None),
            State::Filled(value) => Ok(Some(value)),
            State::Cancelled => {
                *self = State::Cancelled;
                Err(Cancelled)
            },
        }
    }

    /// The cell's part of a join: deposits `value` if the cell is unset; if a
    /// value is deposited, takes it out and returns it in front of `value`.
    pub fn pair(&mut self, value: T) -> (reply: Result<Option<(T, T)>, T>)
        ensures
            *final(self) == old(self).step(Action::Join(value)),
            reply == old(self).join_reply(value),
        no_unwind
    {
        let mut held = State::Unset;
        core::mem::swap(self, &mut held);
        match held {
            State::Unset => {
                *self = State::Filled(value);
                Ok(None)
            },
            State::Filled(other) => Ok(Some((other, value))),
            State::Cancelled => {
                *self = State::Cancelled;
                Err(value)
            },
        }
    }

    /// Reports whether a value is deposited, without changing the cell.
    pub fn peek(&self) -> (reply: Result<bool, Cancelled>)
        ensures
            reply == self.peek_reply(),
        no_unwind
    {
        match self {
            State::Unset => Ok(false),
            State::Filled(_) => Ok(true),
            State::Cancelled => Err(Cancelled),
        }
    }

    /// Gives an endpoint up: cancels an unset cell, and takes a deposited value
    /// out so that the caller decides where it is dropped.
    pub fn discard(&mut self) -> (value: Option<T>)
        ensures
            *final(self) == old(self).step(Action::Discard),
            value == old(self).discard_reply(),
        opens_invariants none
        no_unwind
    {
        let mut held = State::Cancelled;
        core::mem::swap(self, &mut held);
        match held {
            State::Unset => None,
            State::Filled(value) => {
                *self = State::Unset;
                Some(value)
            },
            State::Cancelled => None,
        }
    }
}

/// Whether `res` is what a join returns for the cell's `reply` and the
/// combiner `f`: the reply itself where nothing was paired, and otherwise what
/// `f` makes of the pair, earlier value first.
pub open spec fn combined<T, U, F: FnOnce(T, T) -> U>(
    reply: Result<Option<(T, T)>, T>,
    f: F,
    res: Result<Option<U>, T>,
) -> bool {
    match reply {
        Ok(None) => res == Ok::<Option<U>, T>(None),
        Ok(Some(pair)) => res matches Ok(Some(made)) && f.ensures(pair, made),
        Err(back) => res == Err::<Option<U>, T>(back),
    }
}

/// Applies the combiner `f` to the pair that a join took out of the cell.
pub fn combine<T, U, F: FnOnce(T, T) -> U>(reply: Result<Option<(T, T)>, T>, f: F) -> (res: Result<
    Option<U>,
    T,
>)
    requires
        reply matches Ok(Some(pair)) ==> f.requires(pair),
    ensures
        combined(reply, f, res),
{
    match reply {
        Ok(Some((first, second))) => Ok(Some(f(first, second))),
        Ok(None) => Ok(None),
        Err(back) => Err(back),
    }
}

} // verus!
