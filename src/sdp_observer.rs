//! Single-fire completion observers for the asynchronous description
//! operations.
//!
//! An observer is handed to exactly one operation. The engine then reports
//! the outcome once; any later report is refused and leaves the first
//! outcome in place.

use crate::sdp::{SdpType, SessionDescription};
use vstd::prelude::*;

verus! {

/// Where an observer stands: not yet handed to an operation, waiting for the
/// operation it was handed to (with what that operation was asked to do),
/// or holding the one outcome that was delivered.
#[derive(Debug, PartialEq, Eq)]
pub enum ObserverState<P, T> {
    Idle,
    Pending(P),
    Fired(P, Result<T, String>),
}

/// One report from the engine: a pending observer takes the outcome and
/// accepts it; any other observer is left as it was and refuses it.
pub open spec fn fire_step<P, T>(s: ObserverState<P, T>, outcome: Result<T, String>) -> (
    ObserverState<P, T>,
    bool,
) {
    match s {
        ObserverState::Pending(p) => (ObserverState::Fired(p, outcome), true),
        _ => (s, false),
    }
}

/// The state after a series of reports, with how many were accepted.
pub open spec fn fire_all<P, T>(s: ObserverState<P, T>, outcomes: Seq<Result<T, String>>) -> (
    ObserverState<P, T>,
    nat,
)
    decreases outcomes.len(),
{
    if outcomes.len() == 0 {
        (s, 0)
    } else {
        let (next, accepted) = fire_step(s, outcomes[0]);
        let (last, n) = fire_all(next, outcomes.drop_first());
        (last, if accepted { n + 1 } else { n })
    }
}

proof fn lemma_fired_stays<P, T>(p: P, first: Result<T, String>, outcomes: Seq<Result<T, String>>)
    ensures
        fire_all(ObserverState::Fired(p, first), outcomes) == (ObserverState::Fired(p, first), 0nat),
    decreases outcomes.len(),
{
    if outcomes.len() > 0 {
        lemma_fired_stays(p, first, outcomes.drop_first());
    }
}

/// An observer handed to an operation completes exactly once: whatever
/// non-empty series of reports the engine makes, exactly one is accepted and
/// the observer keeps the first outcome.
pub proof fn lemma_completes_exactly_once<P, T>(p: P, outcomes: Seq<Result<T, String>>)
    requires
        outcomes.len() > 0,
    ensures
        fire_all(ObserverState::Pending(p), outcomes) == (
            ObserverState::<P, T>::Fired(p, outcomes[0]),
            1nat,
        ),
{
    lemma_fired_stays(p, outcomes[0], outcomes.drop_first());
}

/// Native address of an engine-side create-description observer.
#[derive(Clone, Copy, Debug, PartialEq, Eq, Structural)]
pub struct RffiCreateSessionDescriptionObserver {
    pub addr: usize,
}

/// Native address of an engine-side set-description observer.
#[derive(Clone, Copy, Debug, PartialEq, Eq, Structural)]
pub struct RffiSetSessionDescriptionObserver {
    pub addr: usize,
}

/// Which of the session's two descriptions an operation applies.
#[derive(Clone, Copy, Debug, PartialEq, Eq, Structural)]
pub enum DescriptionSide {
    Local,
    Remote,
}

fn copy_outcome(o: &Result<SessionDescription, String>) -> (r: Result<SessionDescription, String>)
    ensures
        r == *o,
{
    match o {
        Ok(v) => Ok(v.clone()),
        Err(e) => Err(e.clone()),
    }
}

/// Receives the description produced by `create_offer` or `create_answer`,
/// or the engine's reason for failing.
#[derive(Debug)]
pub struct CreateSessionDescriptionObserver {
    rffi_observer: RffiCreateSessionDescriptionObserver,
    state: ObserverState<SdpType, SessionDescription>,
}

impl CreateSessionDescriptionObserver {
    pub closed spec fn spec_state(&self) -> ObserverState<SdpType, SessionDescription> {
        self.state
    }

    pub closed spec fn spec_rffi_observer(&self) -> RffiCreateSessionDescriptionObserver {
        self.rffi_observer
    }

    /// A fresh observer bound to its engine-side counterpart.
    pub fn new(rffi_observer: RffiCreateSessionDescriptionObserver) -> (r: Self)
        ensures
            r.spec_state() == ObserverState::<SdpType, SessionDescription>::Idle,
            r.spec_rffi_observer() == rffi_observer,
    {
        CreateSessionDescriptionObserver { rffi_observer, state: ObserverState::Idle }
    }

    pub fn get_rffi_observer(&self) -> (r: RffiCreateSessionDescriptionObserver)
        ensures
            r == self.spec_rffi_observer(),
    {
        self.rffi_observer
    }

    /// Whether the observer has not yet been handed to an operation.
    pub fn is_idle(&self) -> (r: bool)
        ensures
            r == (self.spec_state() is Idle),
    {
        match self.state {
            ObserverState::Idle => true,
            _ => false,
        }
    }

    /// Marks the observer as handed to an operation that produces `sdp_type`.
    pub(crate) fn issue(&mut self, sdp_type: SdpType)
        requires
            old(self).spec_state() is Idle,
        ensures
            final(self).spec_state() == ObserverState::<SdpType, SessionDescription>::Pending(
                sdp_type,
            ),
            final(self).spec_rffi_observer() == old(self).spec_rffi_observer(),
    {
        self.state = ObserverState::Pending(sdp_type);
    }

    fn fire(&mut self, outcome: Result<SessionDescription, String>) -> (accepted: bool)
        ensures
            (final(self).spec_state(), accepted) == fire_step(old(self).spec_state(), outcome),
            final(self).spec_rffi_observer() == old(self).spec_rffi_observer(),
    {
        match self.state {
            ObserverState::Pending(t) => {
                self.state = ObserverState::Fired(t, outcome);
                true
            },
            _ => false,
        }
    }

    /// The engine produced `desc`. Accepted only while the observer is pending.
    pub fn on_success(&mut self, desc: SessionDescription) -> (accepted: bool)
        ensures
            (final(self).spec_state(), accepted) == fire_step(old(self).spec_state(), Ok(desc)),
            final(self).spec_rffi_observer() == old(self).spec_rffi_observer(),
    {
        self.fire(Ok(desc))
    }

    /// The engine failed for `reason`. Accepted only while the observer is pending.
    pub fn on_failure(&mut self, reason: String) -> (accepted: bool)
        ensures
            (final(self).spec_state(), accepted) == fire_step(
                old(self).spec_state(),
                Err(reason),
            ),
            final(self).spec_rffi_observer() == old(self).spec_rffi_observer(),
    {
        self.fire(Err(reason))
    }

    /// The delivered outcome, once there is one.
    pub fn result(&self) -> (r: Option<Result<SessionDescription, String>>)
        ensures
            r == (match self.spec_state() {
                ObserverState::Fired(_, o) => Some(o),
                _ => None,
            }),
    {
        match &self.state {
            ObserverState::Fired(_, o) => Some(copy_outcome(o)),
            _ => None,
        }
    }
}

/// What a set-description operation was asked to apply.
pub type PendingSet = (DescriptionSide, SessionDescription);

/// Receives the outcome of `set_local_description` or
/// `set_remote_description`: success, or the engine's reason for failing.
#[derive(Debug)]
pub struct SetSessionDescriptionObserver {
    rffi_observer: RffiSetSessionDescriptionObserver,
    state: ObserverState<PendingSet, ()>,
}

impl SetSessionDescriptionObserver {
    pub closed spec fn spec_state(&self) -> ObserverState<PendingSet, ()> {
        self.state
    }

    pub closed spec fn spec_rffi_observer(&self) -> RffiSetSessionDescriptionObserver {
        self.rffi_observer
    }

    /// A fresh observer bound to its engine-side counterpart.
    pub fn new(rffi_observer: RffiSetSessionDescriptionObserver) -> (r: Self)
        ensures
            r.spec_state() == ObserverState::<PendingSet, ()>::Idle,
            r.spec_rffi_observer() == rffi_observer,
    {
        SetSessionDescriptionObserver { rffi_observer, state: ObserverState::Idle }
    }

    pub fn get_rffi_observer(&self) -> (r: RffiSetSessionDescriptionObserver)
        ensures
            r == self.spec_rffi_observer(),
    {
        self.rffi_observer
    }

    /// Whether the observer has not yet been handed to an operation.
    pub fn is_idle(&self) -> (r: bool)
        ensures
            r == (self.spec_state() is Idle),
    {
        match self.state {
            ObserverState::Idle => true,
            _ => false,
        }
    }

    /// Marks the observer as handed to an operation that applies `desc` as
    /// the `side` description.
    pub(crate) fn issue(&mut self, side: DescriptionSide, desc: SessionDescription)
        requires
            old(self).spec_state() is Idle,
        ensures
            final(self).spec_state() == ObserverState::<PendingSet, ()>::Pending((side, desc)),
            final(self).spec_rffi_observer() == old(self).spec_rffi_observer(),
    {
        self.state = ObserverState::Pending((side, desc));
    }

    /// Delivers one report from the engine; accepted only while pending. On
    /// acceptance, hands back what the operation was asked to apply.
    pub(crate) fn fire(&mut self, outcome: Result<(), String>) -> (r: Option<PendingSet>)
        ensures
            (final(self).spec_state(), r is Some) == fire_step(old(self).spec_state(), outcome),
            r is Some ==> old(self).spec_state() == ObserverState::<PendingSet, ()>::Pending(
                r->0,
            ),
            final(self).spec_rffi_observer() == old(self).spec_rffi_observer(),
    {
        let pending = match &self.state {
            ObserverState::Pending((side, desc)) => Some((*side, desc.clone())),
            _ => None,
        };
        match pending {
            Some((side, desc)) => {
                self.state = ObserverState::Fired((side, desc.clone()), outcome);
                Some((side, desc))
            },
            None => None,
        }
    }

    /// The delivered outcome, once there is one.
    pub fn result(&self) -> (r: Option<Result<(), String>>)
        ensures
            r == (match self.spec_state() {
                ObserverState::Fired(_, o) => Some(o),
                _ => None,
            }),
    {
        match &self.state {
            ObserverState::Fired(_, o) => match o {
                Ok(u) => Some(Ok(*u)),
                Err(e) => Some(Err(e.clone())),
            },
            _ => None,
        }
    }
}

} // verus!
