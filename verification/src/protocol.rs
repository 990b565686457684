use vstd::prelude::*;

verus! {

/// The phases of the two-phase graceful-shutdown protocol.
#[derive(Clone, Copy, PartialEq, Eq, Structural, Debug)]
pub enum Phase {
    /// The event loop is ticking normally; no shutdown initiated.
    Idle,
    /// The initiator has spent the begin signal; the loop has not yet seen
    /// it, because it only looks between ticks.
    ShutdownRequested,
    /// The loop observed the begin signal at a tick boundary, schedules no
    /// further ticks, and hands over the replies still in flight.
    Draining,
    /// The done signal has fired and the loop thread has returned.
    Done,
}

/// The bridge's lifecycle, abstracted to what the shutdown protocol
/// promises: the phase, the two single-use signals, and how many accepted
/// calls still owe their caller a reply.
#[derive(Clone, Copy, PartialEq, Eq, Structural, Debug)]
pub struct BridgeState {
    pub phase: Phase,
    /// Whether the single-use begin signal has been spent.
    pub begin_sent: bool,
    /// Whether the single-use done signal has been spent.
    pub done_sent: bool,
    /// Calls accepted whose replies have not yet reached their callers.
    pub in_flight: u64,
}

/// One observable step of the bridge's lifecycle.
#[derive(Clone, Copy, PartialEq, Eq, Structural, Debug)]
pub enum BridgeEvent {
    /// The front end accepts one call; possible only while the loop still
    /// schedules ticks.
    AcceptCall,
    /// The reply of one accepted call reaches its caller.
    DeliverReply,
    /// The initiator asks the bridge to stop.
    RequestShutdown,
    /// One tick of the cooperative scheduler completes; only here may the
    /// loop observe the begin signal — never mid-tick.
    TickBoundary,
    /// The loop, drained, spends the done signal and returns.
    SendDone,
}

impl BridgeState {
    /// The starting state: loop ticking, nothing in flight, neither signal
    /// spent.
    pub open spec fn spec_init() -> BridgeState {
        BridgeState { phase: Phase::Idle, begin_sent: false, done_sent: false, in_flight: 0 }
    }

    /// The protocol invariant: the done signal fires exactly on entry to
    /// Done, the begin signal has been spent exactly when the protocol has
    /// left Idle, and — the no-lost-replies guarantee — nothing is still in
    /// flight once Done is reached.
    pub open spec fn inv(self) -> bool {
        &&& self.done_sent <==> self.phase is Done
        &&& self.begin_sent <==> !(self.phase is Idle)
        &&& self.phase is Done ==> self.in_flight == 0
    }

    /// The transition taken on one event. It is total: an event that is not
    /// enabled in the current state changes nothing, so no event can hang or
    /// fault the protocol.
    pub open spec fn spec_step(self, e: BridgeEvent) -> BridgeState {
        match e {
            BridgeEvent::AcceptCall => {
                if (self.phase is Idle || self.phase is ShutdownRequested) && self.in_flight
                    < u64::MAX {
                    BridgeState { in_flight: (self.in_flight + 1) as u64, ..self }
                } else {
                    self
                }
            },
            BridgeEvent::DeliverReply => {
                if self.in_flight > 0 && !self.done_sent {
                    BridgeState { in_flight: (self.in_flight - 1) as u64, ..self }
                } else {
                    self
                }
            },
            BridgeEvent::RequestShutdown => {
                if self.phase is Idle {
                    BridgeState { phase: Phase::ShutdownRequested, begin_sent: true, ..self }
                } else {
                    self
                }
            },
            BridgeEvent::TickBoundary => {
                if self.phase is ShutdownRequested {
                    BridgeState { phase: Phase::Draining, ..self }
                } else {
                    self
                }
            },
            BridgeEvent::SendDone => {
                if self.phase is Draining && self.in_flight == 0 {
                    BridgeState { phase: Phase::Done, done_sent: true, ..self }
                } else {
                    self
                }
            },
        }
    }

    /// The starting state, executably.
    pub fn init() -> (r: BridgeState)
        ensures
            r == Self::spec_init(),
            r.inv(),
    {
        BridgeState { phase: Phase::Idle, begin_sent: false, done_sent: false, in_flight: 0 }
    }

    /// Take one step; the executable mirror of [`Self::spec_step`].
    pub fn step(&self, e: BridgeEvent) -> (r: BridgeState)
        ensures
            r == self.spec_step(e),
    {
        match e {
            BridgeEvent::AcceptCall => {
                if (matches!(self.phase, Phase::Idle) || matches!(
                    self.phase,
                    Phase::ShutdownRequested,
                )) && self.in_flight < u64::MAX {
                    BridgeState { in_flight: self.in_flight + 1, ..*self }
                } else {
                    *self
                }
            },
            BridgeEvent::DeliverReply => {
                if self.in_flight > 0 && !self.done_sent {
                    BridgeState { in_flight: self.in_flight - 1, ..*self }
                } else {
                    *self
                }
            },
            BridgeEvent::RequestShutdown => {
                if matches!(self.phase, Phase::Idle) {
                    BridgeState { phase: Phase::ShutdownRequested, begin_sent: true, ..*self }
                } else {
                    *self
                }
            },
            BridgeEvent::TickBoundary => {
                if matches!(self.phase, Phase::ShutdownRequested) {
                    BridgeState { phase: Phase::Draining, ..*self }
                } else {
                    *self
                }
            },
            BridgeEvent::SendDone => {
                if matches!(self.phase, Phase::Draining) && self.in_flight == 0 {
                    BridgeState { phase: Phase::Done, done_sent: true, ..*self }
                } else {
                    *self
                }
            },
        }
    }

    /// Every step preserves the protocol invariant, whatever event arrives
    /// in whatever state.
    pub proof fn lemma_step_preserves_inv(self, e: BridgeEvent)
        requires
            self.inv(),
        ensures
            self.spec_step(e).inv(),
    {
    }

    /// No reply is lost: once the protocol has reached Done, no accepted
    /// call is still waiting for its reply — every reply belonging to a call
    /// accepted before the begin signal was handed over before the done
    /// signal fired.
    pub proof fn lemma_no_lost_replies(self)
        requires
            self.inv(),
            self.phase is Done,
        ensures
            self.in_flight == 0,
    {
    }

    /// A reply still in flight is observed by its caller strictly before the
    /// done signal can fire: while anything is in flight, the SendDone step
    /// is disabled and changes nothing.
    pub proof fn lemma_replies_precede_done(self)
        requires
            self.inv(),
            self.in_flight > 0,
        ensures
            self.spec_step(BridgeEvent::SendDone) == self,
    {
    }

    /// Issuing shutdown a second time is a no-op: once the begin signal has
    /// been spent, a further request changes nothing — in particular it does
    /// not spend a second begin signal — and it cannot hang, because the
    /// step is total.
    pub proof fn lemma_second_shutdown_noop(self)
        requires
            self.inv(),
            self.begin_sent,
        ensures
            self.spec_step(BridgeEvent::RequestShutdown) == self,
    {
    }

    /// Shutdown issued with zero in-flight calls reaches Done within one
    /// tick: the request, the very next tick boundary, and the done signal —
    /// with no further tick between them — end in Done with the done signal
    /// spent.
    pub proof fn lemma_idle_shutdown_within_one_tick(self)
        requires
            self.inv(),
            self.phase is Idle,
            self.in_flight == 0,
        ensures
            self.spec_step(BridgeEvent::RequestShutdown).spec_step(
                BridgeEvent::TickBoundary,
            ).spec_step(BridgeEvent::SendDone).phase is Done,
            self.spec_step(BridgeEvent::RequestShutdown).spec_step(
                BridgeEvent::TickBoundary,
            ).spec_step(BridgeEvent::SendDone).done_sent,
    {
    }

    /// The driver's stop decision agrees with the model: from Draining, a
    /// SendDone step reaches Done exactly when nothing is in flight any
    /// more.
    pub proof fn lemma_stop_enabled_iff_drained(self)
        requires
            self.inv(),
            self.phase is Draining,
        ensures
            self.spec_step(BridgeEvent::SendDone).phase is Done <==> self.in_flight == 0,
    {
    }
}

} // verus!
