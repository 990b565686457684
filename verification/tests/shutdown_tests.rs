use std::sync::atomic::{AtomicBool, AtomicU64, Ordering};
use std::sync::{Arc, Mutex};
use std::time::{Duration, Instant};

use dbus_bridge::api::DBusApi;
use dbus_bridge::channel::ApiRequest;
use dbus_bridge::protocol::{BridgeEvent, BridgeState, Phase};
use dbus_bridge::reply::ControllerReply;
use dbus_bridge::shutdown::{
    begin_outcome, classify_done, coordinate_shutdown, dbus_api_graceful_shutdown, loop_decision,
    DoneSignal, DriverModel, LoopDirective, ShutdownOutcome,
};
use futures::channel::oneshot;
use vmm_sys_util::eventfd::EventFd;

/// A loop-thread stand-in: ticks, polls the begin signal only between ticks,
/// and stops through `loop_decision`, sending done on exit.
fn spawn_driver(
    recv_begin: oneshot::Receiver<()>,
    send_done: oneshot::Sender<()>,
    pending: Arc<AtomicU64>,
) -> blocking::Task<u64> {
    blocking::unblock(move || {
        let mut recv_begin = recv_begin;
        let mut begin_observed = false;
        let mut boundaries: u64 = 0;
        loop {
            // One tick of the cooperative scheduler stands here.
            boundaries += 1;
            if !begin_observed {
                begin_observed = matches!(recv_begin.try_recv(), Ok(Some(())));
            }
            match loop_decision(begin_observed, pending.load(Ordering::SeqCst)) {
                LoopDirective::RearmTick => {}
                LoopDirective::SendDoneAndStop => {
                    let _ = send_done.send(());
                    return boundaries;
                }
            }
        }
    })
}

#[test]
fn shutdown_with_no_inflight_calls_completes() {
    let (send_begin, recv_begin) = oneshot::channel::<()>();
    let (send_done, recv_done) = oneshot::channel::<()>();
    let driver = spawn_driver(recv_begin, send_done, Arc::new(AtomicU64::new(0)));

    let outcome = coordinate_shutdown((send_begin, recv_done));
    assert!(matches!(outcome, ShutdownOutcome::DoneReceived));
    futures::executor::block_on(driver);
}

#[test]
fn shutdown_model_reaches_done_within_one_tick() {
    let s = BridgeState::init();
    let s = s.step(BridgeEvent::RequestShutdown);
    assert_eq!(s.phase, Phase::ShutdownRequested);
    assert!(s.begin_sent && !s.done_sent);
    let s = s.step(BridgeEvent::TickBoundary);
    assert_eq!(s.phase, Phase::Draining);
    let s = s.step(BridgeEvent::SendDone);
    assert_eq!(s.phase, Phase::Done);
    assert!(s.done_sent);
    assert_eq!(s.in_flight, 0);
}

#[test]
fn second_shutdown_is_noop_in_model() {
    let s = BridgeState::init().step(BridgeEvent::RequestShutdown);
    // A second request changes nothing: no second begin signal, no new phase.
    assert_eq!(s.step(BridgeEvent::RequestShutdown), s);
    let done = s
        .step(BridgeEvent::TickBoundary)
        .step(BridgeEvent::SendDone);
    assert_eq!(done.step(BridgeEvent::RequestShutdown), done);
}

#[test]
fn second_shutdown_with_peer_gone_returns_immediately() {
    // The loop thread is gone: both of its channel halves were dropped, as
    // after a completed first shutdown.
    let (send_begin, recv_begin) = oneshot::channel::<()>();
    drop(recv_begin);
    let (send_done, recv_done) = oneshot::channel::<()>();
    drop(send_done);
    let outcome = coordinate_shutdown((send_begin, recv_done));
    assert!(matches!(outcome, ShutdownOutcome::PeerAlreadyGone));

    // The public entry point completes on the same input without hanging.
    let (send_begin, recv_begin) = oneshot::channel::<()>();
    drop(recv_begin);
    let (send_done, recv_done) = oneshot::channel::<()>();
    drop(send_done);
    dbus_api_graceful_shutdown((send_begin, recv_done));
}

#[test]
fn model_replies_are_drained_before_done() {
    let s = BridgeState::init()
        .step(BridgeEvent::AcceptCall)
        .step(BridgeEvent::AcceptCall)
        .step(BridgeEvent::RequestShutdown)
        .step(BridgeEvent::TickBoundary);
    assert_eq!(s.phase, Phase::Draining);
    assert_eq!(s.in_flight, 2);
    // Done cannot fire while replies are outstanding.
    assert_eq!(s.step(BridgeEvent::SendDone), s);
    let s = s.step(BridgeEvent::DeliverReply);
    assert_eq!(s.step(BridgeEvent::SendDone), s);
    let s = s.step(BridgeEvent::DeliverReply);
    let s = s.step(BridgeEvent::SendDone);
    assert_eq!(s.phase, Phase::Done);
}

#[test]
fn inflight_reply_is_observed_before_done_fires() {
    // A controller stand-in with artificial latency keeps one call in
    // flight while shutdown is issued; its reply must be observed by its
    // caller strictly before the done signal fires.
    let notifier = EventFd::new(0).unwrap();
    let (sender, receiver) = std::sync::mpsc::channel::<ApiRequest>();
    let api = Arc::new(DBusApi::new(notifier, sender));

    let got_request = Arc::new(AtomicBool::new(false));
    {
        let got_request = got_request.clone();
        blocking::unblock(move || {
            while let Ok(req) = receiver.recv() {
                got_request.store(true, Ordering::SeqCst);
                let start = Instant::now();
                while start.elapsed() < Duration::from_millis(200) {}
                req.reply_sender
                    .send(ControllerReply::Body(b"late pong".to_vec()))
                    .unwrap();
            }
        })
        .detach();
    }

    let (send_begin, recv_begin) = oneshot::channel::<()>();
    let (send_done, recv_done) = oneshot::channel::<()>();
    let pending = Arc::new(AtomicU64::new(0));
    let driver = spawn_driver(recv_begin, send_done, pending.clone());

    let order = Arc::new(Mutex::new(Vec::new()));
    pending.fetch_add(1, Ordering::SeqCst);
    let call = {
        let api = api.clone();
        let order = order.clone();
        let pending = pending.clone();
        blocking::unblock(move || {
            let r = api.vmm_ping();
            order.lock().unwrap().push("reply observed");
            pending.fetch_sub(1, Ordering::SeqCst);
            r
        })
    };

    // Only issue shutdown once the call is truly in flight at the stand-in.
    while !got_request.load(Ordering::SeqCst) {}
    let outcome = coordinate_shutdown((send_begin, recv_done));
    assert!(matches!(outcome, ShutdownOutcome::DoneReceived));
    order.lock().unwrap().push("done observed");

    assert_eq!(
        *order.lock().unwrap(),
        vec!["reply observed", "done observed"]
    );
    assert_eq!(
        futures::executor::block_on(call).unwrap(),
        "late pong"
    );
    futures::executor::block_on(driver);
}

#[test]
fn coordinator_decisions_exact_tables() {
    // An undeliverable begin signal ends the shutdown at once; a delivered
    // one hands the decision to the done channel.
    assert!(matches!(
        begin_outcome(false),
        Some(ShutdownOutcome::PeerAlreadyGone)
    ));
    assert!(begin_outcome(true).is_none());
    // Each poll of the done channel either ends the wait or decides nothing.
    assert!(classify_done(DoneSignal::Pending).is_none());
    assert!(matches!(
        classify_done(DoneSignal::Received),
        Some(ShutdownOutcome::DoneReceived)
    ));
    assert!(matches!(
        classify_done(DoneSignal::PeerGone),
        Some(ShutdownOutcome::DoneChannelClosed)
    ));
}

#[test]
fn loop_decision_exact_table() {
    assert!(matches!(loop_decision(false, 0), LoopDirective::RearmTick));
    assert!(matches!(loop_decision(false, 3), LoopDirective::RearmTick));
    assert!(matches!(loop_decision(true, 1), LoopDirective::RearmTick));
    assert!(matches!(
        loop_decision(true, 0),
        LoopDirective::SendDoneAndStop
    ));
}

#[test]
fn driver_model_keeps_one_tick_until_stopped() {
    let d = DriverModel::init();
    assert_eq!(d.armed_ticks, 1);
    let d = d.on_boundary(LoopDirective::RearmTick);
    assert_eq!(d.armed_ticks, 1);
    assert!(!d.stopped);
    let d = d.on_boundary(LoopDirective::SendDoneAndStop);
    assert_eq!(d.armed_ticks, 0);
    assert!(d.stopped);
    // A stopped driver schedules nothing more.
    assert_eq!(d.on_boundary(LoopDirective::RearmTick), d);
}

#[test]
fn model_accept_is_refused_once_draining() {
    let s = BridgeState::init()
        .step(BridgeEvent::RequestShutdown)
        .step(BridgeEvent::TickBoundary);
    assert_eq!(s.phase, Phase::Draining);
    // No new calls are accepted once the loop schedules no further ticks.
    assert_eq!(s.step(BridgeEvent::AcceptCall), s);
}
