use vstd::prelude::*;

use crate::command::Command;
use crate::reply::ControllerReply;

verus! {

#[verifier::external_type_specification]
#[verifier::external_body]
#[verifier::reject_recursive_types(T)]
pub struct ExMpscSender<T>(std::sync::mpsc::Sender<T>);

#[verifier::external_type_specification]
#[verifier::external_body]
#[verifier::reject_recursive_types(T)]
pub struct ExMpscReceiver<T>(std::sync::mpsc::Receiver<T>);

#[verifier::external_type_specification]
#[verifier::external_body]
#[verifier::reject_recursive_types(T)]
pub struct ExStdMutex<T: ?Sized>(std::sync::Mutex<T>);

/// One request as it travels over the command channel: the command together
/// with the sending half of this call's private reply channel, on which the
/// consumer answers exactly this caller.
pub struct ApiRequest {
    pub command: Command,
    pub reply_sender: std::sync::mpsc::Sender<ControllerReply>,
}

/// Relies on `std::sync::mpsc::channel`: a fresh first-in-first-out channel;
/// what is sent on the returned sender is what the returned receiver yields.
#[verifier::external_body]
pub(crate) fn reply_channel() -> (r: (
    std::sync::mpsc::Sender<ControllerReply>,
    std::sync::mpsc::Receiver<ControllerReply>,
))
{
    std::sync::mpsc::channel()
}

/// Relies on `std::sync::mpsc::Sender::send`: queues the request for the
/// single consumer without blocking, or reports that the consumer is gone;
/// sends that complete are delivered first-in-first-out.
#[verifier::external_body]
pub(crate) fn send_request(s: &std::sync::mpsc::Sender<ApiRequest>, req: ApiRequest) -> (r: Result<
    (),
    String,
>)
{
    s.send(req).map_err(|e| format!("{e}"))
}

/// Relies on `std::sync::mpsc::Receiver::recv`: blocks until the consumer
/// answers on this call's private reply channel, or reports that every sender
/// was dropped without an answer.
#[verifier::external_body]
pub(crate) fn recv_reply(rx: &std::sync::mpsc::Receiver<ControllerReply>) -> (r: Result<
    ControllerReply,
    String,
>)
{
    rx.recv().map_err(|e| format!("{e}"))
}

/// The sending half of the command channel as the front end shares it among
/// all call paths: duplication is the sole synchronized step, and each call
/// then owns an independent handle for the send itself, so no lock is ever
/// held across a suspension point.
pub struct SharedSender {
    inner: std::sync::Mutex<std::sync::mpsc::Sender<ApiRequest>>,
}

impl SharedSender {
    /// Relies on `std::sync::Mutex::new`: wraps the sender in the lock that
    /// guards its duplication.
    #[verifier::external_body]
    pub(crate) fn new(sender: std::sync::mpsc::Sender<ApiRequest>) -> (r: SharedSender)
    {
        SharedSender { inner: std::sync::Mutex::new(sender) }
    }

    /// Relies on `std::sync::Mutex::lock` and
    /// `std::sync::mpsc::Sender::clone`: briefly holds the lock for the
    /// duplication step alone and hands back an independent handle onto the
    /// same channel. The wait is bounded because no holder keeps the lock
    /// beyond its own duplication step, and the call never panics: a
    /// poisoned lock still yields the sender, which no holder mutates.
    #[verifier::external_body]
    pub(crate) fn duplicate(&self) -> (r: std::sync::mpsc::Sender<ApiRequest>)
    {
        match self.inner.lock() {
            Ok(guard) => guard.clone(),
            Err(poisoned) => poisoned.into_inner().clone(),
        }
    }
}

} // verus!
