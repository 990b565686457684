use std::sync::atomic::{AtomicU64, Ordering};
use std::sync::mpsc;
use std::sync::Arc;

use dbus_bridge::api::{notify_outcome, DBusApi};
use dbus_bridge::channel::ApiRequest;
use dbus_bridge::command::Command;
use dbus_bridge::error::ApiError;
use dbus_bridge::reply::{translate_optional, translate_text, ControllerReply};
use vmm_sys_util::eventfd::EventFd;

fn make_api() -> (DBusApi, mpsc::Receiver<ApiRequest>) {
    let notifier = EventFd::new(0).unwrap();
    let (sender, receiver) = mpsc::channel();
    (DBusApi::new(notifier, sender), receiver)
}

/// Answers every request by re-encoding the configuration it carries (or a
/// fixed text for commands that carry none) and counts the invocations.
fn spawn_echo_consumer(receiver: mpsc::Receiver<ApiRequest>, invocations: Arc<AtomicU64>) {
    blocking::unblock(move || {
        while let Ok(req) = receiver.recv() {
            invocations.fetch_add(1, Ordering::SeqCst);
            let reply = match req.command.payload() {
                Some(p) => {
                    let text = serde_json::to_string(p.value()).unwrap();
                    ControllerReply::Body(text.into_bytes())
                }
                None => ControllerReply::Body(b"pong".to_vec()),
            };
            req.reply_sender.send(reply).unwrap();
        }
    })
    .detach();
}

#[test]
fn wellformed_config_decodes_and_carries_equivalent_value() {
    let (api, receiver) = make_api();
    let invocations = Arc::new(AtomicU64::new(0));
    spawn_echo_consumer(receiver, invocations.clone());

    let input = "{\"path\": \"/dev/vfio/1\", \"id\": \"dev1\"}";
    let expected: serde_json::Value = serde_json::from_str(input).unwrap();
    let expected_text = serde_json::to_string(&expected).unwrap();

    let got = api.vm_add_device(input.to_string()).unwrap().unwrap();
    assert_eq!(got, expected_text);
    assert_eq!(invocations.load(Ordering::SeqCst), 1);
}

#[test]
fn malformed_config_is_decode_error_and_reaches_no_controller() {
    let (api, receiver) = make_api();
    let invocations = Arc::new(AtomicU64::new(0));
    spawn_echo_consumer(receiver, invocations.clone());

    let r = api.vm_add_device("{not valid".to_string());
    assert!(r.unwrap_err().is_decode());
    let r = api.vm_create("[1,".to_string());
    assert!(r.unwrap_err().is_decode());
    let r = api.vm_resize("".to_string());
    assert!(r.unwrap_err().is_decode());
    let r = api.vm_snapshot("\"unterminated".to_string());
    assert!(r.unwrap_err().is_decode());

    assert_eq!(invocations.load(Ordering::SeqCst), 0);
}

#[test]
fn coredump_without_capability_is_fixed_failure_and_reaches_no_controller() {
    let (api, receiver) = make_api();
    let invocations = Arc::new(AtomicU64::new(0));
    spawn_echo_consumer(receiver, invocations.clone());

    // Even a well-formed argument is rejected before any decode or send.
    let r = api.vm_coredump("{\"destination_url\": \"file:///tmp/dump\"}".to_string());
    let e = r.unwrap_err();
    assert!(e.is_capability_unavailable());
    assert_eq!(
        e.message(),
        "the requested operation is unavailable on this build or target"
    );
    // A malformed argument gets the same fixed failure, not a decode error.
    let r = api.vm_coredump("{broken".to_string());
    assert!(r.unwrap_err().is_capability_unavailable());

    assert_eq!(invocations.load(Ordering::SeqCst), 0);
}

#[test]
fn coredump_with_capability_reaches_controller() {
    let (api, receiver) = make_api();
    let api = api.with_coredump_capability(true);
    let invocations = Arc::new(AtomicU64::new(0));
    spawn_echo_consumer(receiver, invocations.clone());

    let r = api.vm_coredump("{\"destination_url\": \"file:///tmp/dump\"}".to_string());
    assert!(r.is_ok());
    assert_eq!(invocations.load(Ordering::SeqCst), 1);
    // The decode gate still applies once the capability is present.
    let r = api.vm_coredump("{broken".to_string());
    assert!(r.unwrap_err().is_decode());
    assert_eq!(invocations.load(Ordering::SeqCst), 1);
}

#[test]
fn fifty_concurrent_calls_each_get_their_own_reply() {
    let (api, receiver) = make_api();
    let invocations = Arc::new(AtomicU64::new(0));
    spawn_echo_consumer(receiver, invocations.clone());

    let api = Arc::new(api);
    let mut tasks = Vec::new();
    for k in 0..50u64 {
        let api = api.clone();
        tasks.push(blocking::unblock(move || {
            let input = format!("{{\"i\": {}}}", k);
            let expected: serde_json::Value = serde_json::from_str(&input).unwrap();
            let expected_text = serde_json::to_string(&expected).unwrap();
            let got = api.vm_add_device(input).unwrap().unwrap();
            (got, expected_text)
        }));
    }
    let results = futures::executor::block_on(futures::future::join_all(tasks));
    assert_eq!(results.len(), 50);
    for (got, expected_text) in results {
        assert_eq!(got, expected_text);
    }
    assert_eq!(invocations.load(Ordering::SeqCst), 50);
}

#[test]
fn ping_returns_reply_body_as_text() {
    let (api, receiver) = make_api();
    spawn_echo_consumer(receiver, Arc::new(AtomicU64::new(0)));
    assert_eq!(api.vmm_ping().unwrap(), "pong");
}

#[test]
fn controller_failure_is_classified_with_its_diagnostic() {
    let (api, receiver) = make_api();
    blocking::unblock(move || {
        while let Ok(req) = receiver.recv() {
            req.reply_sender
                .send(ControllerReply::Failure("the machine is not created".to_string()))
                .unwrap();
        }
    })
    .detach();

    let e = api.vm_boot().unwrap_err();
    assert!(e.is_controller());
    assert_eq!(e.message(), "the machine is not created");
}

#[test]
fn gone_consumer_is_a_controller_error() {
    let (api, receiver) = make_api();
    drop(receiver);
    let e = api.vm_pause().unwrap_err();
    assert!(e.is_controller());
}

#[test]
fn empty_reply_shapes() {
    let (api, receiver) = make_api();
    blocking::unblock(move || {
        while let Ok(req) = receiver.recv() {
            req.reply_sender.send(ControllerReply::Empty).unwrap();
        }
    })
    .detach();

    // An optional-string method turns an empty reply into no value.
    assert_eq!(api.vm_counters().unwrap(), None);
    // A unit method discards the reply body.
    assert_eq!(api.vm_delete().unwrap(), ());
    // A plain-string method cannot do without a body.
    let e = api.vm_info().unwrap_err();
    assert!(e.is_controller());
    assert_eq!(e.message(), "the controller returned no body for this call");
}

#[test]
fn reply_translation_exact_values() {
    let r = translate_optional(ControllerReply::Body(b"{\"ok\":true}".to_vec()));
    assert_eq!(r.unwrap(), Some("{\"ok\":true}".to_string()));
    let r = translate_optional(ControllerReply::Empty);
    assert_eq!(r.unwrap(), None);
    let r = translate_optional(ControllerReply::Failure("nope".to_string()));
    let e = r.unwrap_err();
    assert!(e.is_controller());
    assert_eq!(e.message(), "nope");

    let r = translate_text(ControllerReply::Body(vec![0x68, 0x69]));
    assert_eq!(r.unwrap(), "hi");
    // A multi-byte sequence comes out as its decoded character, and invalid
    // bytes as the replacement character: the conversion is no identity.
    let r = translate_optional(ControllerReply::Body(vec![0xE2, 0x9C, 0x93]));
    assert_eq!(r.unwrap(), Some("\u{2713}".to_string()));
    let r = translate_optional(ControllerReply::Body(vec![0xFF]));
    assert_eq!(r.unwrap(), Some("\u{FFFD}".to_string()));
    let r = translate_text(ControllerReply::Empty);
    assert!(r.unwrap_err().is_controller());
}

#[test]
fn failed_notify_is_reported_to_the_caller() {
    assert!(notify_outcome(Ok(())).is_ok());
    let e = notify_outcome(Err("eventfd write failed".to_string())).unwrap_err();
    assert!(e.is_controller());
    assert_eq!(e.message(), "eventfd write failed");
}

#[test]
fn error_classification_predicates() {
    let e = ApiError::Decode("bad text".to_string());
    assert!(e.is_decode() && !e.is_controller());
    assert_eq!(e.message(), "bad text");
    let e = ApiError::HandleDuplication("no descriptor".to_string());
    assert!(e.is_handle_duplication() && !e.is_decode());
    assert_eq!(e.message(), "no descriptor");
    let e = ApiError::Controller("refused".to_string());
    assert!(e.is_controller() && !e.is_capability_unavailable());
    let e = ApiError::CapabilityUnavailable;
    assert!(e.is_capability_unavailable() && !e.is_handle_duplication());
}

#[test]
fn payload_accessor_matches_config_presence() {
    let (api, receiver) = make_api();
    spawn_echo_consumer(receiver, Arc::new(AtomicU64::new(0)));
    // Exercised indirectly above; here check the two shapes directly.
    let cmd = Command::Boot;
    assert!(cmd.payload().is_none());
    // A config-bearing command built through the public path carries a value.
    let got = api
        .vm_add_disk("{\"path\": \"/tmp/disk.img\"}".to_string())
        .unwrap()
        .unwrap();
    assert_eq!(got, "{\"path\":\"/tmp/disk.img\"}");
}
