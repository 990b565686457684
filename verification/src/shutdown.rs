use vstd::prelude::*;

verus! {

#[verifier::external_type_specification]
#[verifier::external_body]
#[verifier::reject_recursive_types(T)]
pub struct ExOneshotSender<T>(futures::channel::oneshot::Sender<T>);

#[verifier::external_type_specification]
#[verifier::external_body]
#[verifier::reject_recursive_types(T)]
pub struct ExOneshotReceiver<T>(futures::channel::oneshot::Receiver<T>);

#[verifier::external_type_specification]
#[verifier::external_body]
pub struct ExOneshotCanceled(futures::channel::oneshot::Canceled);

/// The two single-use signals of the shutdown handshake, as the initiator
/// holds them: begin (initiator to loop thread) and done (loop thread to
/// initiator). Each is consumed exactly once; consumption is enforced by
/// ownership.
pub type DBusApiShutdownChannels = (
    futures::channel::oneshot::Sender<()>,
    futures::channel::oneshot::Receiver<()>,
);

/// One poll of the done channel, as the initiator sees it.
pub enum DoneSignal {
    /// Nothing yet; immediately stale, poll again.
    Pending,
    /// The loop thread has sent the done signal.
    Received,
    /// The loop thread dropped its half without sending; it is gone.
    PeerGone,
}

/// Relies on `futures::channel::oneshot::Sender::send`: consumes the
/// single-use sender and enqueues the value for the receiver, or reports
/// that the receiver is already gone. Consuming the sender is what makes a
/// second begin signal impossible to send.
#[verifier::external_body]
fn send_begin(s: futures::channel::oneshot::Sender<()>) -> (delivered: bool)
{
    s.send(()).is_ok()
}

/// Relies on `futures::channel::oneshot::Receiver::try_recv`: polls without
/// blocking; an absent value must be considered immediately stale, a present
/// value is the single done signal, and an error means the sender was
/// dropped without sending.
#[verifier::external_body]
fn poll_done(r: &mut futures::channel::oneshot::Receiver<()>) -> (d: DoneSignal)
{
    match r.try_recv() {
        Ok(None) => DoneSignal::Pending,
        Ok(Some(())) => DoneSignal::Received,
        Err(_) => DoneSignal::PeerGone,
    }
}

/// How one graceful shutdown ended, as the initiator saw it.
pub enum ShutdownOutcome {
    /// The begin signal could not be delivered: the loop thread was already
    /// gone, so the bridge is treated as stopped without any waiting — this
    /// is what keeps a repeated shutdown from hanging.
    PeerAlreadyGone,
    /// The done signal arrived: the loop finished its final tick, handed
    /// over every outstanding reply, and exited.
    DoneReceived,
    /// The loop thread dropped its half of the done channel without sending;
    /// it is gone all the same.
    DoneChannelClosed,
    /// The bounded wait elapsed without a definite answer. The loop thread
    /// confirms after at most one more tick, so this marks a wedged peer,
    /// not a slow one.
    GaveUp,
}

/// How many times the initiator polls the done channel before giving up.
/// The loop thread confirms after at most one more tick, so the wait is
/// intentionally short-lived; the bound only makes it definite.
pub const DONE_POLL_BOUND: u64 = 4000000000;

/// The coordinator's decision on the spent begin signal: an undeliverable
/// begin means the loop thread is already gone, so the bridge counts as
/// stopped and no waiting may follow; a delivered begin decides nothing yet
/// — the done channel does.
pub fn begin_outcome(delivered: bool) -> (r: Option<ShutdownOutcome>)
    ensures
        !delivered <==> r == Some(ShutdownOutcome::PeerAlreadyGone),
        delivered <==> r is None,
{
    if delivered {
        None
    } else {
        Some(ShutdownOutcome::PeerAlreadyGone)
    }
}

/// The coordinator's decision on one poll of the done channel: the done
/// signal or a dropped peer half each end the wait with its own outcome; a
/// stale answer decides nothing and the polling goes on.
pub fn classify_done(d: DoneSignal) -> (r: Option<ShutdownOutcome>)
    ensures
        d is Received <==> r == Some(ShutdownOutcome::DoneReceived),
        d is PeerGone <==> r == Some(ShutdownOutcome::DoneChannelClosed),
        d is Pending <==> r is None,
{
    match d {
        DoneSignal::Pending => None,
        DoneSignal::Received => Some(ShutdownOutcome::DoneReceived),
        DoneSignal::PeerGone => Some(ShutdownOutcome::DoneChannelClosed),
    }
}

/// Drive one graceful shutdown from the initiator's side: spend the begin
/// signal and, unless the peer is already gone, poll the done channel until
/// it yields a definite answer. Every decision is taken by [`begin_outcome`]
/// and [`classify_done`], whose contracts fix it for each signal outcome;
/// the polling is short-lived because the loop thread signals completion
/// after at most one more tick.
pub fn coordinate_shutdown(ch: DBusApiShutdownChannels) -> (r: ShutdownOutcome)
{
    let (send_shutdown, recv_done) = ch;
    let mut recv_done = recv_done;
    if let Some(outcome) = begin_outcome(send_begin(send_shutdown)) {
        return outcome;
    }
    let mut polls: u64 = 0;
    while polls < DONE_POLL_BOUND
        decreases DONE_POLL_BOUND - polls,
    {
        if let Some(outcome) = classify_done(poll_done(&mut recv_done)) {
            return outcome;
        }
        polls = polls + 1;
    }
    ShutdownOutcome::GaveUp
}

/// Tear down the bridge's dedicated thread without losing a final reply:
/// spend the single-use begin signal and, unless the loop thread is already
/// gone, wait until the loop confirms with the done signal. The loop only
/// evaluates the begin signal between ticks, so the tick that transmits a
/// last reply — say, to the stop-the-service call — finishes first, and only
/// then may the caller join the thread.
pub fn dbus_api_graceful_shutdown(ch: DBusApiShutdownChannels)
{
    coordinate_shutdown(ch);
}

/// What the event loop driver does next, decided only at a tick boundary.
pub enum LoopDirective {
    /// Re-arm exactly one new tick; the loop keeps serving.
    RearmTick,
    /// Schedule no further tick, spend the single-use done signal, and
    /// return so the thread can be joined.
    SendDoneAndStop,
}

/// The event loop driver's decision at a tick boundary: keep exactly one
/// tick outstanding until the begin signal has been observed and every reply
/// accepted before it has been handed over; only then stop and send done.
/// Deciding only at boundaries keeps a tick — and the reply it transmits —
/// from being torn down mid-flight, and the explicit wait on
/// `pending_replies` is the flush that keeps a reply accepted before the
/// begin signal from being lost.
pub fn loop_decision(begin_observed: bool, pending_replies: u64) -> (d: LoopDirective)
    ensures
        d is SendDoneAndStop <==> (begin_observed && pending_replies == 0),
        d is RearmTick <==> !(begin_observed && pending_replies == 0),
{
    if begin_observed && pending_replies == 0 {
        LoopDirective::SendDoneAndStop
    } else {
        LoopDirective::RearmTick
    }
}

/// The event loop driver, abstracted to its scheduling rule: it keeps
/// exactly one tick outstanding while it runs, and none once it has
/// stopped.
#[derive(Clone, Copy, PartialEq, Eq, Structural, Debug)]
pub struct DriverModel {
    /// Ticks currently armed on the dedicated thread.
    pub armed_ticks: u64,
    /// Whether the driver has stopped scheduling and returned.
    pub stopped: bool,
}

impl DriverModel {
    /// The driver as its thread starts: running, with its first tick armed.
    pub open spec fn spec_init() -> DriverModel {
        DriverModel { armed_ticks: 1, stopped: false }
    }

    /// The driver's invariant: never two ticks outstanding at once, and a
    /// stopped driver schedules nothing.
    pub open spec fn inv(self) -> bool {
        &&& self.armed_ticks <= 1
        &&& self.stopped ==> self.armed_ticks == 0
    }

    /// What one tick boundary does to the driver, given the decision taken
    /// there: either the completed tick is replaced by exactly one new one,
    /// or nothing is re-armed and the driver stops. A driver that is already
    /// stopped, or has no tick to complete, changes nothing.
    pub open spec fn spec_on_boundary(self, d: LoopDirective) -> DriverModel {
        if self.stopped || self.armed_ticks == 0 {
            self
        } else {
            match d {
                LoopDirective::RearmTick => self,
                LoopDirective::SendDoneAndStop => DriverModel { armed_ticks: 0, stopped: true },
            }
        }
    }

    /// The starting state, executably.
    pub fn init() -> (r: DriverModel)
        ensures
            r == Self::spec_init(),
            r.inv(),
    {
        DriverModel { armed_ticks: 1, stopped: false }
    }

    /// Take one tick boundary; the executable mirror of
    /// [`Self::spec_on_boundary`].
    pub fn on_boundary(&self, d: LoopDirective) -> (r: DriverModel)
        ensures
            r == self.spec_on_boundary(d),
    {
        if self.stopped || self.armed_ticks == 0 {
            *self
        } else {
            match d {
                LoopDirective::RearmTick => *self,
                LoopDirective::SendDoneAndStop => DriverModel { armed_ticks: 0, stopped: true },
            }
        }
    }

    /// Never two ticks active concurrently: every boundary preserves the
    /// driver's invariant, so the count of outstanding ticks stays at most
    /// one along any run, and stopping is possible only at a boundary —
    /// which bounds shutdown responsiveness by one tick's duration.
    pub proof fn lemma_boundary_preserves_inv(self, d: LoopDirective)
        requires
            self.inv(),
        ensures
            self.spec_on_boundary(d).inv(),
            self.spec_on_boundary(d).armed_ticks <= 1,
    {
    }
}

} // verus!
