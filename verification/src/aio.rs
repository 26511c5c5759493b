//! The asynchronous completion cell and its operation state machine.
//!
//! One cell stands behind every front-end handle of one asynchronous I/O
//! object. It records which operation, if any, is outstanding on the
//! engine-side handle. Start operations move the cell from idle into an
//! operation state; the single completion of that operation classifies the
//! outcome and moves the cell back to idle. The unverified shell drives the
//! cell under a lock: every start call and every completion synchronizes on
//! the same cell, so the transitions below are exactly the transitions the
//! running object takes.
//!
//! The cell carries two ghost counters, the number of operations ever
//! started and the number ever completed. Their contracts pin the
//! one-completion-per-start discipline: a start is permitted only when the
//! counters are equal, and a completion always restores that equality.
use vstd::prelude::*;

use crate::error::{error_for_code, Error};
use crate::message::Message;

verus! {

/// The state of one asynchronous I/O cell.
#[derive(Clone, Copy, Debug, PartialEq, Eq, Structural)]
pub enum State {
    /// The cell exists but the engine-side handle is not yet allocated.
    /// Transient: no operation can start and no completion can arrive here.
    Building,
    /// No operation is outstanding.
    Inactive,
    /// A send operation is outstanding.
    Sending,
    /// A receive operation is outstanding.
    Receiving,
    /// A sleep operation is outstanding.
    Sleeping,
}

/// The classified outcome of one completed operation, delivered to the
/// user callback exactly once per started operation.
///
/// No variant exists for an idle or still-building cell: a completion can
/// only be classified while an operation is outstanding.
#[derive(Clone, Debug)]
#[must_use]
pub enum AioResult {
    /// The send completed; the engine consumed the message.
    SendOk,
    /// The send failed; the engine handed the unsent message back and it is
    /// returned here together with the error.
    SendErr(Message, Error),
    /// The receive completed and delivered this message.
    RecvOk(Message),
    /// The receive failed.
    RecvErr(Error),
    /// The sleep ran to completion.
    SleepOk,
    /// The sleep ended early, typically by cancellation or timeout.
    SleepErr(Error),
}

impl AioResult {
    /// Collapses the classification into a plain result: a successful
    /// receive yields its message, the other successes yield nothing, and
    /// every failure yields its error (a failed send's returned message is
    /// dropped).
    pub fn into_result(self) -> (r: Result<Option<Message>, Error>)
        ensures
            self is SendOk ==> (r matches Ok(m) && m is None),
            self is SleepOk ==> (r matches Ok(m) && m is None),
            self matches AioResult::RecvOk(msg) ==> (r matches Ok(m) && m == Some(msg)),
            self matches AioResult::SendErr(_, e) ==> (r matches Err(err) && err == e),
            self matches AioResult::RecvErr(e) ==> (r matches Err(err) && err == e),
            self matches AioResult::SleepErr(e) ==> (r matches Err(err) && err == e),
    {
        match self {
            AioResult::SendOk | AioResult::SleepOk => Ok(None),
            AioResult::RecvOk(m) => Ok(Some(m)),
            AioResult::SendErr(_, e) => Err(e),
            AioResult::RecvErr(e) => Err(e),
            AioResult::SleepErr(e) => Err(e),
        }
    }
}

/// Whether a start operation is permitted in the given state.
pub open spec fn can_start(s: State) -> bool {
    s is Inactive
}

/// Whether an operation is outstanding in the given state, which is exactly
/// when a completion can arrive and be classified.
pub open spec fn operation_outstanding(s: State) -> bool {
    s is Sending || s is Receiving || s is Sleeping
}

/// Whether the completion of an operation in state `s` with engine status
/// `rv` hands a message across: a failed send returns the unsent message,
/// and a successful receive delivers the received one.
pub open spec fn completion_takes_message(s: State, rv: u32) -> bool {
    (s is Sending && rv != 0) || (s is Receiving && rv == 0)
}

/// The state a cancellation request leaves the cell in: the request alters
/// nothing by itself. Its effect, if any, is observed only through the later
/// completion of the aborted operation.
pub open spec fn state_after_cancel(s: State) -> State {
    s
}

/// The completion cell shared, under the shell's lock, by every front-end
/// handle of one asynchronous I/O object and by its completion callback.
pub struct AioCell {
    state: State,
    started: Ghost<nat>,
    completed: Ghost<nat>,
}

impl AioCell {
    /// The current operation state.
    pub closed spec fn state(self) -> State {
        self.state
    }

    /// How many operations have ever been started on this cell.
    pub closed spec fn started(self) -> nat {
        self.started@
    }

    /// How many completions have ever been classified on this cell.
    pub closed spec fn completed(self) -> nat {
        self.completed@
    }

    /// Each start is answered by exactly one completion: while an operation
    /// is outstanding exactly one start is unanswered, otherwise none is.
    pub open spec fn wf(self) -> bool {
        if operation_outstanding(self.state()) {
            self.started() == self.completed() + 1
        } else {
            self.started() == self.completed()
        }
    }

    /// Creates a cell for an object under construction. No operation can
    /// start and no completion can arrive until the cell is marked ready.
    pub fn new() -> (r: AioCell)
        ensures
            r.wf(),
            r.state() is Building,
            r.started() == 0,
            r.completed() == 0,
    {
        AioCell { state: State::Building, started: Ghost(0), completed: Ghost(0) }
    }

    /// Marks the cell ready once the engine-side handle is allocated and the
    /// completion callback is registered.
    pub fn mark_ready(&mut self)
        requires
            old(self).wf(),
            old(self).state() is Building,
        ensures
            final(self).wf(),
            final(self).state() is Inactive,
            final(self).started() == old(self).started(),
            final(self).completed() == old(self).completed(),
    {
        self.state = State::Inactive;
    }

    /// Starts a send: the cell moves to `Sending` and the returned message
    /// must be handed to the engine, which now owns it.
    ///
    /// If any operation is already outstanding (or the cell is still
    /// building), nothing starts: the caller gets the message back unchanged
    /// together with `TryAgain`, and the cell is untouched.
    pub fn start_send(&mut self, msg: Message) -> (r: Result<Message, (Message, Error)>)
        requires
            old(self).wf(),
        ensures
            final(self).wf(),
            can_start(old(self).state()) ==> (r matches Ok(m) && m == msg
                && final(self).state() is Sending
                && final(self).started() == old(self).started() + 1
                && final(self).completed() == old(self).completed()),
            !can_start(old(self).state()) ==> (r matches Err((m, e)) && m == msg
                && e == Error::TryAgain && *final(self) == *old(self)),
    {
        if self.is_idle() {
            self.state = State::Sending;
            self.started = Ghost(self.started@ + 1);
            Ok(msg)
        } else {
            Err((msg, Error::TryAgain))
        }
    }

    /// Starts a receive: the cell moves to `Receiving` and the engine must
    /// be asked to receive into this cell's handle.
    ///
    /// If any operation is already outstanding (or the cell is still
    /// building), nothing starts: the caller gets `TryAgain` and the cell is
    /// untouched.
    pub fn start_recv(&mut self) -> (r: Result<(), Error>)
        requires
            old(self).wf(),
        ensures
            final(self).wf(),
            can_start(old(self).state()) ==> (r is Ok
                && final(self).state() is Receiving
                && final(self).started() == old(self).started() + 1
                && final(self).completed() == old(self).completed()),
            !can_start(old(self).state()) ==> (r matches Err(e) && e == Error::TryAgain
                && *final(self) == *old(self)),
    {
        if self.is_idle() {
            self.state = State::Receiving;
            self.started = Ghost(self.started@ + 1);
            Ok(())
        } else {
            Err(Error::TryAgain)
        }
    }

    /// Starts a sleep: the cell moves to `Sleeping` and the engine must be
    /// asked to run the timer on this cell's handle.
    ///
    /// If any operation is already outstanding (or the cell is still
    /// building), nothing starts: the caller gets `TryAgain` and the cell is
    /// untouched.
    pub fn start_sleep(&mut self) -> (r: Result<(), Error>)
        requires
            old(self).wf(),
        ensures
            final(self).wf(),
            can_start(old(self).state()) ==> (r is Ok
                && final(self).state() is Sleeping
                && final(self).started() == old(self).started() + 1
                && final(self).completed() == old(self).completed()),
            !can_start(old(self).state()) ==> (r matches Err(e) && e == Error::TryAgain
                && *final(self) == *old(self)),
    {
        if self.is_idle() {
            self.state = State::Sleeping;
            self.started = Ghost(self.started@ + 1);
            Ok(())
        } else {
            Err(Error::TryAgain)
        }
    }

    /// Whether a start operation would be permitted right now.
    pub fn is_idle(&self) -> (r: bool)
        ensures
            r <==> can_start(self.state()),
    {
        matches!(self.state, State::Inactive)
    }

    /// Whether an operation is outstanding, which is exactly when a
    /// completion may be classified.
    pub fn has_operation(&self) -> (r: bool)
        ensures
            r <==> operation_outstanding(self.state()),
    {
        matches!(self.state, State::Sending | State::Receiving | State::Sleeping)
    }

    /// Whether the completion now arriving with engine status `rv` hands a
    /// message across, so that the caller must fetch it from the engine
    /// before classifying.
    pub fn needs_message(&self, rv: u32) -> (r: bool)
        ensures
            r <==> completion_takes_message(self.state(), rv),
    {
        match self.state {
            State::Sending => rv != 0,
            State::Receiving => rv == 0,
            _ => false,
        }
    }

    /// Classifies the single completion of the outstanding operation and
    /// returns the cell to idle, so that the very next start (for instance
    /// one issued from inside the user callback) is permitted.
    ///
    /// `rv` is the engine's status for the operation; `msg` is the message
    /// the engine handed across, present exactly when the completion carries
    /// one. A failed send's message comes back to the caller inside the
    /// classification, unchanged; no successful send returns one.
    pub fn complete(&mut self, rv: u32, msg: Option<Message>) -> (r: AioResult)
        requires
            old(self).wf(),
            operation_outstanding(old(self).state()),
            completion_takes_message(old(self).state(), rv) <==> msg is Some,
        ensures
            final(self).wf(),
            final(self).state() is Inactive,
            can_start(final(self).state()),
            final(self).started() == old(self).started(),
            final(self).completed() == old(self).completed() + 1,
            final(self).completed() == final(self).started(),
            (old(self).state() is Sending && rv == 0) ==> r is SendOk,
            (old(self).state() is Sending && rv != 0) ==> (r matches AioResult::SendErr(m, e)
                && Some(m) == msg && e == error_for_code(rv)),
            (old(self).state() is Receiving && rv == 0) ==> (r matches AioResult::RecvOk(m)
                && Some(m) == msg),
            (old(self).state() is Receiving && rv != 0) ==> (r matches AioResult::RecvErr(e)
                && e == error_for_code(rv)),
            (old(self).state() is Sleeping && rv == 0) ==> r is SleepOk,
            (old(self).state() is Sleeping && rv != 0) ==> (r matches AioResult::SleepErr(e)
                && e == error_for_code(rv)),
    {
        let res = match self.state {
            State::Sending => {
                if rv == 0 {
                    AioResult::SendOk
                } else {
                    match msg {
                        Some(m) => AioResult::SendErr(m, Error::from_code(rv)),
                        None => unreached(),
                    }
                }
            },
            State::Receiving => {
                if rv == 0 {
                    match msg {
                        Some(m) => AioResult::RecvOk(m),
                        None => unreached(),
                    }
                } else {
                    AioResult::RecvErr(Error::from_code(rv))
                }
            },
            State::Sleeping => {
                if rv == 0 {
                    AioResult::SleepOk
                } else {
                    AioResult::SleepErr(Error::from_code(rv))
                }
            },
            State::Building | State::Inactive => unreached(),
        };
        self.state = State::Inactive;
        self.completed = Ghost(self.completed@ + 1);
        res
    }

    /// Whether teardown of the cell must free the engine-side handle: it
    /// must unless allocation never completed, in which case no handle was
    /// ever stored and nothing may be freed.
    pub fn must_free(&self) -> (r: bool)
        ensures
            r <==> !(self.state() is Building),
    {
        !matches!(self.state, State::Building)
    }
}

/// Classifies the outcome of allocating the engine-side handle.
///
/// A zero status means the handle was allocated. A nonzero status together
/// with a null handle is the engine's ordinary failure, reported under its
/// own code. A nonzero status alongside a non-null handle is a combination
/// the engine never promises: it is classified as an unknown internal error,
/// and the caller leaves the dubious handle alone rather than free a
/// possibly invalid one.
pub fn classify_alloc(rv: u32, handle_is_null: bool) -> (r: Result<(), Error>)
    ensures
        rv == 0 ==> r is Ok,
        (rv != 0 && handle_is_null) ==> (r matches Err(e) && e == error_for_code(rv)),
        (rv != 0 && !handle_is_null) ==> (r matches Err(e) && e == Error::Unknown(0)),
{
    if rv == 0 {
        Ok(())
    } else if handle_is_null {
        Err(Error::from_code(rv))
    } else {
        Err(Error::Unknown(0))
    }
}

/// While an operation is outstanding, no second start is permitted on the
/// same cell: between a successful start and its completion every further
/// start is refused.
pub proof fn lemma_outstanding_excludes_start(s: State)
    ensures
        operation_outstanding(s) ==> !can_start(s),
{
}

/// A completion always returns the cell to the one state that permits a
/// start, so an operation issued from inside the completion callback, after
/// classification, always finds the cell idle.
pub proof fn lemma_completion_reenables_start(c: AioCell)
    requires
        c.wf(),
        c.state() is Inactive,
    ensures
        can_start(c.state()),
        c.started() == c.completed(),
{
}

/// A cancellation request changes nothing on the cell, and no completion
/// can be classified while the cell is idle: cancelling with no outstanding
/// operation is a no-op and triggers no callback.
pub proof fn lemma_cancel_idle_is_noop(s: State)
    ensures
        state_after_cancel(s) == s,
        !operation_outstanding(State::Inactive),
{
}

} // verus!
