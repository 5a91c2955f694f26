//! Capture-session lifecycle: a two-state machine (`Idle` / `Capturing`)
//! whose transitions either succeed or fail without effect.
//!
//! The backend handle itself lives outside the library; a caller performs
//! the backend `start`/`stop` call exactly when the corresponding transition
//! here returns `Ok`.

use vstd::prelude::*;
use crate::error::CaptureError;

verus! {

/// The two lifecycle states of a capture session.
#[derive(Clone, Copy, PartialEq, Eq, Structural, Debug)]
pub enum SessionState {
    Idle,
    Capturing,
}

/// A lifecycle transition request: what a caller asked the session to do.
#[derive(Clone, Copy, PartialEq, Eq, Structural, Debug)]
pub enum LifecycleCall {
    Start,
    Stop,
}

/// Whether the requested transition succeeds from state `s`: a start only
/// from `Idle`, a stop only from `Capturing`.
pub open spec fn call_succeeds(s: SessionState, c: LifecycleCall) -> bool {
    match c {
        LifecycleCall::Start => s is Idle,
        LifecycleCall::Stop => s is Capturing,
    }
}

/// The state after the call.  A successful start leaves `Capturing`, a
/// successful stop leaves `Idle`; a failed call leaves the state unchanged,
/// which coincides with the same expression.
pub open spec fn next_state(s: SessionState, c: LifecycleCall) -> SessionState {
    match c {
        LifecycleCall::Start => SessionState::Capturing,
        LifecycleCall::Stop => SessionState::Idle,
    }
}

/// The state after running a whole sequence of calls from `s`.
pub open spec fn run_calls(s: SessionState, calls: Seq<LifecycleCall>) -> SessionState
    decreases calls.len(),
{
    if calls.len() == 0 {
        s
    } else {
        run_calls(next_state(s, calls[0]), calls.drop_first())
    }
}

/// How many calls of the sequence are successful starts.
pub open spec fn successful_starts(s: SessionState, calls: Seq<LifecycleCall>) -> nat
    decreases calls.len(),
{
    if calls.len() == 0 {
        0
    } else {
        (if call_succeeds(s, calls[0]) && calls[0] is Start {
            1nat
        } else {
            0nat
        }) + successful_starts(next_state(s, calls[0]), calls.drop_first())
    }
}

/// How many calls of the sequence are successful stops.
pub open spec fn successful_stops(s: SessionState, calls: Seq<LifecycleCall>) -> nat
    decreases calls.len(),
{
    if calls.len() == 0 {
        0
    } else {
        (if call_succeeds(s, calls[0]) && calls[0] is Stop {
            1nat
        } else {
            0nat
        }) + successful_stops(next_state(s, calls[0]), calls.drop_first())
    }
}

/// 1 when capturing, 0 when idle: the running balance the lifecycle law
/// speaks of.
pub open spec fn capturing_count(s: SessionState) -> int {
    if s is Capturing {
        1
    } else {
        0
    }
}

/// Balance invariant of the lifecycle: over any run, the capturing count
/// moves exactly with the successful starts and stops.
pub proof fn lemma_lifecycle_balance(s: SessionState, calls: Seq<LifecycleCall>)
    ensures
        capturing_count(run_calls(s, calls)) == capturing_count(s) + successful_starts(s, calls)
            - successful_stops(s, calls),
    decreases calls.len(),
{
    if calls.len() > 0 {
        lemma_lifecycle_balance(next_state(s, calls[0]), calls.drop_first());
    }
}

/// Lifecycle law: after any sequence of `start`/`stop` calls on a freshly
/// opened session, the session is `Capturing` exactly when the successful
/// starts outnumber the successful stops by one.
pub proof fn lemma_capturing_iff_extra_start(calls: Seq<LifecycleCall>)
    ensures
        run_calls(SessionState::Idle, calls) is Capturing <==> successful_starts(
            SessionState::Idle,
            calls,
        ) == successful_stops(SessionState::Idle, calls) + 1,
{
    lemma_lifecycle_balance(SessionState::Idle, calls);
}

/// The session's lifecycle guard.  It records which of the two states the
/// session is in; the backend call behind a successful transition is made by
/// the (unverified) owner of the backend handle, exactly on `Ok`.
pub struct CaptureSession {
    state: SessionState,
}

impl CaptureSession {
    /// The current lifecycle state.
    pub closed spec fn spec_state(&self) -> SessionState {
        self.state
    }

    /// Whether the session is in the `Capturing` state.
    pub open spec fn is_capturing(&self) -> bool {
        self.spec_state() is Capturing
    }

    /// A session begins its life idle: opening the backend handle does not
    /// start frame production.
    pub fn open() -> (s: CaptureSession)
        ensures
            s.spec_state() is Idle,
    {
        CaptureSession { state: SessionState::Idle }
    }

    /// Exec query of the lifecycle state.
    pub fn capturing(&self) -> (b: bool)
        ensures
            b == self.is_capturing(),
    {
        match self.state {
            SessionState::Capturing => true,
            SessionState::Idle => false,
        }
    }

    /// Begin producing frames.  Succeeds exactly from `Idle`; from
    /// `Capturing` it fails with `AlreadyRunning` and has no effect.
    pub fn start_capture(&mut self) -> (r: Result<(), CaptureError>)
        ensures
            final(self).spec_state() == next_state(old(self).spec_state(), LifecycleCall::Start),
            r is Ok <==> call_succeeds(old(self).spec_state(), LifecycleCall::Start),
            r matches Err(e) ==> e is AlreadyRunning && *final(self) == *old(self),
    {
        match self.state {
            SessionState::Idle => {
                self.state = SessionState::Capturing;
                Ok(())
            },
            SessionState::Capturing => Err(CaptureError::AlreadyRunning),
        }
    }

    /// Halt frame production.  Succeeds exactly from `Capturing`; from
    /// `Idle` it fails with `NotRunning` and has no effect.
    pub fn stop_capture(&mut self) -> (r: Result<(), CaptureError>)
        ensures
            final(self).spec_state() == next_state(old(self).spec_state(), LifecycleCall::Stop),
            r is Ok <==> call_succeeds(old(self).spec_state(), LifecycleCall::Stop),
            r matches Err(e) ==> e is NotRunning && *final(self) == *old(self),
    {
        match self.state {
            SessionState::Capturing => {
                self.state = SessionState::Idle;
                Ok(())
            },
            SessionState::Idle => Err(CaptureError::NotRunning),
        }
    }
}

} // verus!
