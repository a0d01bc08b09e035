//! The supervised loop: a periodic action under cooperative shutdown.
//!
//! A loop waits, in each iteration, for whichever comes first: its timer or a
//! stop notification. The decisions are made here, as a function from the
//! loop's state and what woke it to the next state and what to do; the waiting
//! itself belongs to the caller. The stop request is a persisted flag, so a
//! loop that starts after the request still sees it.

use vstd::prelude::*;

verus! {

/// What a wait resolved on.
#[derive(Clone, Copy, Debug, PartialEq, Eq, Structural)]
pub enum Wake {
    /// The periodic timer fired.
    Tick,
    /// A notification arrived on the stop channel; `stop` is the value it
    /// carried.
    Notified { stop: bool },
    /// The sending side of the stop channel is gone.
    SenderDropped,
}

/// What the loop does after a wait.
#[derive(Clone, Copy, Debug, PartialEq, Eq, Structural)]
pub enum LoopAction {
    /// Perform the periodic action, then wait again.
    Heartbeat,
    /// Wait again.
    Continue,
    /// Leave the loop.
    Exit,
}

/// The mathematical state of a supervised loop.
pub struct LoopView {
    /// Whether a stop was requested.
    pub stop_requested: bool,
    /// Whether the loop has observed the request and left.
    pub exited: bool,
    /// How many periodic actions the loop has performed.
    pub heartbeats: u64,
}

impl LoopView {
    /// A loop that has not run and was not asked to stop.
    pub open spec fn initial() -> LoopView {
        LoopView { stop_requested: false, exited: false, heartbeats: 0 }
    }

    /// The state after a stop request.
    pub open spec fn request_stop(self) -> LoopView {
        LoopView { stop_requested: true, ..self }
    }

    /// Whether a wake tells the loop to stop.
    pub open spec fn stops(wake: Wake) -> bool {
        match wake {
            Wake::Tick => false,
            Wake::Notified { stop } => stop,
            Wake::SenderDropped => true,
        }
    }

    /// What the loop does on a wake. A stop request, old or new, wins over
    /// the timer; a loop that has left stays out.
    pub open spec fn action(self, wake: Wake) -> LoopAction {
        if self.exited || self.stop_requested || Self::stops(wake) {
            LoopAction::Exit
        } else if wake is Tick {
            LoopAction::Heartbeat
        } else {
            LoopAction::Continue
        }
    }

    /// The state after a wake.
    pub open spec fn step(self, wake: Wake) -> LoopView {
        match self.action(wake) {
            LoopAction::Exit => LoopView { exited: true, ..self },
            LoopAction::Heartbeat => LoopView {
                heartbeats: if self.heartbeats < u64::MAX {
                    (self.heartbeats + 1) as u64
                } else {
                    self.heartbeats
                },
                ..self
            },
            LoopAction::Continue => self,
        }
    }

    /// The state before a wait: a loop that was asked to stop leaves without
    /// waiting.
    pub open spec fn settle(self) -> LoopView {
        if self.stop_requested {
            LoopView { exited: true, ..self }
        } else {
            self
        }
    }

    /// The state after the loop has run over a sequence of wakes, or up to
    /// its exit if that comes first.
    pub open spec fn run(self, wakes: Seq<Wake>) -> LoopView
        decreases wakes.len(),
    {
        let s = self.settle();
        if s.exited || wakes.len() == 0 {
            s
        } else {
            s.step(wakes[0]).run(wakes.skip(1))
        }
    }
}

/// Asking twice for a stop is the same as asking once.
pub proof fn lemma_stop_is_idempotent(s: LoopView)
    ensures
        s.request_stop().request_stop() == s.request_stop(),
{
}

/// A loop that was asked to stop before it ran leaves before its first
/// periodic action, whatever wakes it: it performs no action at all.
pub proof fn lemma_stop_before_start_is_not_missed(s: LoopView, wakes: Seq<Wake>)
    ensures
        s.request_stop().run(wakes).exited,
        s.request_stop().run(wakes).heartbeats == s.heartbeats,
        s.request_stop().request_stop().run(wakes) == s.request_stop().run(wakes),
{
}

/// After a stop request no wake leads to a periodic action.
pub proof fn lemma_no_heartbeat_after_stop(s: LoopView, wake: Wake)
    ensures
        s.request_stop().action(wake) == LoopAction::Exit,
        s.request_stop().step(wake).heartbeats == s.heartbeats,
        s.request_stop().step(wake).exited,
{
}

/// A loop whose stop channel lost its sender leaves as it does on a stop
/// request.
pub proof fn lemma_dropped_sender_is_a_stop(s: LoopView, wake: Wake)
    ensures
        s.action(Wake::SenderDropped) == s.request_stop().action(wake),
        s.step(Wake::SenderDropped).exited,
        s.step(Wake::SenderDropped).heartbeats == s.heartbeats,
{
}

/// A loop that has left stays out: further wakes change nothing.
pub proof fn lemma_exit_is_final(s: LoopView, wakes: Seq<Wake>)
    requires
        s.exited,
    ensures
        s.run(wakes).exited,
        s.run(wakes).heartbeats == s.heartbeats,
        s.run(wakes).stop_requested == s.stop_requested,
{
}

/// Running never takes a periodic action back, and a stop request stays.
pub proof fn lemma_run_is_monotonic(s: LoopView, wakes: Seq<Wake>)
    ensures
        s.run(wakes).heartbeats >= s.heartbeats,
        s.run(wakes).stop_requested == s.stop_requested,
        s.exited ==> s.run(wakes).exited,
    decreases wakes.len(),
{
    let t = s.settle();
    if !(t.exited || wakes.len() == 0) {
        lemma_run_is_monotonic(t.step(wakes[0]), wakes.skip(1));
    }
}

/// The state of one supervised loop.
#[derive(Debug)]
pub struct SupervisedLoop {
    stop_requested: bool,
    exited: bool,
    heartbeats: u64,
}

impl View for SupervisedLoop {
    type V = LoopView;

    closed spec fn view(&self) -> LoopView {
        LoopView {
            stop_requested: self.stop_requested,
            exited: self.exited,
            heartbeats: self.heartbeats,
        }
    }
}

impl SupervisedLoop {
    /// A loop that has not run and was not asked to stop.
    pub fn new() -> (l: SupervisedLoop)
        ensures
            l@ == LoopView::initial(),
    {
        SupervisedLoop { stop_requested: false, exited: false, heartbeats: 0 }
    }

    /// Asks the loop to stop. The request stays: the loop sees it at its next
    /// decision, also where that comes much later.
    pub fn request_stop(&mut self)
        ensures
            final(self)@ == old(self)@.request_stop(),
    {
        self.stop_requested = true;
    }

    /// Whether a stop was requested.
    pub fn stop_requested(&self) -> (b: bool)
        ensures
            b == self@.stop_requested,
    {
        self.stop_requested
    }

    /// Whether the loop has left.
    pub fn has_exited(&self) -> (b: bool)
        ensures
            b == self@.exited,
    {
        self.exited
    }

    /// How many periodic actions the loop has performed.
    pub fn heartbeats(&self) -> (n: u64)
        ensures
            n == self@.heartbeats,
    {
        self.heartbeats
    }

    /// To be called before every wait: leaves the loop where a stop was
    /// requested. Returns whether the loop is out.
    pub fn settle(&mut self) -> (out: bool)
        ensures
            final(self)@ == old(self)@.settle(),
            out == final(self)@.exited,
    {
        if self.stop_requested {
            self.exited = true;
        }
        self.exited
    }

    /// Decides what the loop does after a wait that resolved on `wake`.
    pub fn on_wake(&mut self, wake: Wake) -> (action: LoopAction)
        ensures
            action == old(self)@.action(wake),
            final(self)@ == old(self)@.step(wake),
    {
        let stops = match wake {
            Wake::Tick => false,
            Wake::Notified { stop } => stop,
            Wake::SenderDropped => true,
        };
        if self.exited || self.stop_requested || stops {
            self.exited = true;
            LoopAction::Exit
        } else {
            match wake {
                Wake::Tick => {
                    if self.heartbeats < u64::MAX {
                        self.heartbeats = self.heartbeats + 1;
                    }
                    LoopAction::Heartbeat
                },
                _ => LoopAction::Continue,
            }
        }
    }

    /// Runs the loop over a recorded sequence of wakes, up to its exit.
    /// Returns whether the loop is out.
    pub fn run(&mut self, wakes: &Vec<Wake>) -> (out: bool)
        ensures
            final(self)@ == old(self)@.run(wakes@),
            out == final(self)@.exited,
    {
        let mut i: usize = 0;
        let mut out = self.settle();
        proof {
            assert(wakes@.skip(0) =~= wakes@);
        }
        while !out && i < wakes.len()
            invariant
                i <= wakes.len(),
                out == self@.exited,
                self@ == self@.settle(),
                self@.run(wakes@.skip(i as int)) == old(self)@.run(wakes@),
            decreases wakes.len() - i,
        {
            let ghost before = self@;
            let wake = wakes[i];
            self.on_wake(wake);
            out = self.settle();
            proof {
                let rest = wakes@.skip(i as int);
                assert(rest[0] == wake);
                assert(rest.skip(1) =~= wakes@.skip(i + 1));
                assert(before.run(rest) == before.step(wake).run(rest.skip(1)));
                assert(before.step(wake).settle().run(rest.skip(1)) == before.step(wake).run(
                    rest.skip(1),
                ));
            }
            i += 1;
        }
        out
    }
}

} // verus!
