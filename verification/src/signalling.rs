//! Signalling service entry points and SIP session orchestrator stubs.

use crate::errors::VoipError;
use crate::errors::VoipErrorView;
use crate::supervision::LoopAction;
use crate::text::join;
use crate::supervision::LoopView;
use crate::supervision::SupervisedLoop;
use crate::supervision::Wake;
use vstd::prelude::*;

verus! {

/// Placeholder SIP event enum; will be extended with actual protocol events.
#[derive(Debug, Clone, Copy, PartialEq, Eq, Structural)]
pub enum SipEvent {
    /// A heartbeat used to keep the event loop alive during early development.
    Heartbeat,
}

/// How the signalling loop reads a wake: its stop channel carries no value,
/// so every notification on it is a request to stop.
pub open spec fn signalling_wake(wake: Wake) -> Wake {
    match wake {
        Wake::Notified { .. } => Wake::Notified { stop: true },
        other => other,
    }
}

/// The wakes of a recording, as the signalling loop reads them.
pub open spec fn signalling_wakes(wakes: Seq<Wake>) -> Seq<Wake> {
    Seq::new(wakes.len(), |i: int| signalling_wake(wakes[i]))
}

/// The SIP event that a decision of the loop stands for, if any.
pub open spec fn event_of(action: LoopAction) -> Option<SipEvent> {
    match action {
        LoopAction::Heartbeat => Some(SipEvent::Heartbeat),
        _ => None,
    }
}

/// Signalling service that listens for SIP events and processes them.
#[derive(Debug)]
pub struct SignallingService {
    supervisor: SupervisedLoop,
}

impl View for SignallingService {
    type V = LoopView;

    closed spec fn view(&self) -> LoopView {
        self.supervisor@
    }
}

impl SignallingService {
    /// Create a new signalling service instance.
    pub fn new() -> (service: SignallingService)
        ensures
            service@ == LoopView::initial(),
    {
        SignallingService { supervisor: SupervisedLoop::new() }
    }

    /// To be called before every wait: where a shutdown was requested, the
    /// loop leaves without waiting. Returns whether the loop is out.
    pub fn settle(&mut self) -> (out: bool)
        ensures
            final(self)@ == old(self)@.settle(),
            out == final(self)@.exited,
    {
        self.supervisor.settle()
    }

    /// Decides what the loop does after one wait, and which SIP event it
    /// handles: a heartbeat on every tick until a stop is seen.
    pub fn on_wake(&mut self, wake: Wake) -> (step: (LoopAction, Option<SipEvent>))
        ensures
            step.0 == old(self)@.action(signalling_wake(wake)),
            step.1 == event_of(step.0),
            final(self)@ == old(self)@.step(signalling_wake(wake)),
    {
        let read = match wake {
            Wake::Notified { .. } => Wake::Notified { stop: true },
            other => other,
        };
        let action = self.supervisor.on_wake(read);
        let event = match action {
            LoopAction::Heartbeat => Some(SipEvent::Heartbeat),
            _ => None,
        };
        (action, event)
    }

    /// Run the signalling loop over a recorded sequence of wakes, until
    /// `shutdown` is seen. Returns whether the loop has left.
    pub fn run(&mut self, wakes: &Vec<Wake>) -> (out: bool)
        ensures
            final(self)@ == old(self)@.run(signalling_wakes(wakes@)),
            out == final(self)@.exited,
    {
        let mut read: Vec<Wake> = Vec::new();
        let mut i: usize = 0;
        while i < wakes.len()
            invariant
                i <= wakes.len(),
                read.len() == i,
                forall|j: int| 0 <= j < i ==> read[j] == signalling_wake(wakes[j]),
            decreases wakes.len() - i,
        {
            let wake = match wakes[i] {
                Wake::Notified { .. } => Wake::Notified { stop: true },
                other => other,
            };
            read.push(wake);
            i += 1;
        }
        assert(read@ =~= signalling_wakes(wakes@));
        self.supervisor.run(&read)
    }

    /// Trigger a graceful shutdown. Calling it again changes nothing.
    pub fn shutdown(&mut self)
        ensures
            final(self)@ == old(self)@.request_stop(),
    {
        self.supervisor.request_stop();
    }

    /// What the owner of the loop learns from its completion handle: the
    /// loop's own result where the loop came to an end, an internal error
    /// where the unit that ran it died.
    pub fn completion(joined: Result<Result<(), VoipError>, String>) -> (r: Result<(), VoipError>)
        ensures
            joined matches Ok(ended) ==> r == ended,
            joined matches Err(e) ==> (r matches Err(err) && err@ == VoipErrorView::Internal(
                "joining signalling task failed: "@ + e@,
            )),
    {
        match joined {
            Ok(ended) => ended,
            Err(e) => Err(VoipError::Internal(join("joining signalling task failed: ", e.as_str()))),
        }
    }

    /// Whether the loop has seen the shutdown and left.
    pub fn has_exited(&self) -> (b: bool)
        ensures
            b == self@.exited,
    {
        self.supervisor.has_exited()
    }

    /// Whether a shutdown was requested.
    pub fn shutdown_requested(&self) -> (b: bool)
        ensures
            b == self@.stop_requested,
    {
        self.supervisor.stop_requested()
    }

    /// How many heartbeats the loop has performed.
    pub fn heartbeats(&self) -> (n: u64)
        ensures
            n == self@.heartbeats,
    {
        self.supervisor.heartbeats()
    }
}

} // verus!
