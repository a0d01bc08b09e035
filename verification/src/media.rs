//! Media relay façade managing RTP proxies and QoS telemetry.

use crate::supervision::LoopAction;
use crate::supervision::LoopView;
use crate::supervision::SupervisedLoop;
use crate::supervision::Wake;
use vstd::prelude::*;

verus! {

/// Placeholder struct describing a media relay session.
#[derive(Debug, Clone)]
pub struct MediaSession {
    /// Unique identifier for the media flow.
    pub session_id: String,
    /// Preferred codec negotiated for the session.
    pub codec: String,
}

/// Media relay manager in charge of supervising sessions.
#[derive(Debug)]
pub struct MediaRelay {
    supervisor: SupervisedLoop,
}

impl View for MediaRelay {
    type V = LoopView;

    closed spec fn view(&self) -> LoopView {
        self.supervisor@
    }
}

impl MediaRelay {
    /// Build a new media relay instance.
    pub fn new() -> (relay: MediaRelay)
        ensures
            relay@ == LoopView::initial(),
    {
        MediaRelay { supervisor: SupervisedLoop::new() }
    }

    /// To be called before every wait: where a stop was requested, the loop
    /// leaves without waiting. Returns whether the loop is out.
    pub fn settle(&mut self) -> (out: bool)
        ensures
            final(self)@ == old(self)@.settle(),
            out == final(self)@.exited,
    {
        self.supervisor.settle()
    }

    /// Decides what the supervision loop does after one wait. A notification
    /// stops the loop only where it carries the value `true`; a lost sender
    /// always does.
    pub fn on_wake(&mut self, wake: Wake) -> (action: LoopAction)
        ensures
            action == old(self)@.action(wake),
            final(self)@ == old(self)@.step(wake),
    {
        self.supervisor.on_wake(wake)
    }

    /// Run the supervision loop over a recorded sequence of wakes, until a
    /// stop is seen. Returns whether the loop has left.
    pub fn supervise(&mut self, wakes: &Vec<Wake>) -> (out: bool)
        ensures
            final(self)@ == old(self)@.run(wakes@),
            out == final(self)@.exited,
    {
        self.supervisor.run(wakes)
    }

    /// Request the supervision loop to stop. Calling it again changes nothing.
    pub fn stop(&mut self)
        ensures
            final(self)@ == old(self)@.request_stop(),
    {
        self.supervisor.request_stop();
    }

    /// Whether the loop has seen the stop and left.
    pub fn has_exited(&self) -> (b: bool)
        ensures
            b == self@.exited,
    {
        self.supervisor.has_exited()
    }

    /// Whether a stop was requested.
    pub fn stop_requested(&self) -> (b: bool)
        ensures
            b == self@.stop_requested,
    {
        self.supervisor.stop_requested()
    }

    /// How many heartbeats the loop has performed.
    pub fn heartbeats(&self) -> (n: u64)
        ensures
            n == self@.heartbeats,
    {
        self.supervisor.heartbeats()
    }
}

} // verus!
