use vstd::prelude::*;

use crate::channel::{recv_reply, reply_channel, send_request, ApiRequest, SharedSender};
use crate::command::Command;
use crate::config::{json_ok, ConfigPayload};
use crate::error::ApiError;
use crate::notifier::{eventfd_notify, eventfd_try_clone};
use crate::reply::{translate_optional, translate_text, ControllerReply};

verus! {

/// The continuation of the notify step: a failure to wake the consumer
/// after a successful send is reported to that very caller as the
/// classified controller error carrying the notifier's diagnostic — it is
/// never swallowed as a fire-and-forget event.
pub fn notify_outcome(outcome: Result<(), String>) -> (r: Result<(), ApiError>)
    ensures
        outcome is Ok <==> r is Ok,
        outcome matches Err(m) ==> (r matches Err(e) && e matches ApiError::Controller(d) && d@
            == m@),
{
    match outcome {
        Ok(()) => Ok(()),
        Err(m) => Err(ApiError::Controller(m)),
    }
}

/// Submit one command to the controller and wait for its reply: queue the
/// request on the command channel, wake the single consumer through the
/// notifier, then block on this call's private reply channel. The caller runs
/// this on a separate execution context, so the cooperative scheduler never
/// waits here. Every failure on this path is folded into the controller
/// classification; in particular a failure to notify after a successful send
/// is reported, never dropped.
pub fn submit_and_wait(
    api_notifier: &vmm_sys_util::eventfd::EventFd,
    api_sender: &std::sync::mpsc::Sender<ApiRequest>,
    command: Command,
) -> (r: Result<ControllerReply, ApiError>)
    ensures
        r matches Err(e) ==> e is Controller,
{
    let (reply_sender, reply_receiver) = reply_channel();
    let request = ApiRequest { command, reply_sender };
    match send_request(api_sender, request) {
        Ok(()) => (),
        Err(m) => {
            return Err(ApiError::Controller(m));
        },
    }
    match notify_outcome(eventfd_notify(api_notifier)) {
        Ok(()) => (),
        Err(e) => {
            return Err(e);
        },
    }
    match recv_reply(&reply_receiver) {
        Ok(rep) => Ok(rep),
        Err(m) => Err(ApiError::Controller(m)),
    }
}

/// The remote-procedure front end: one duplicable notifier handle and the
/// guarded sending half of the command channel, shared by every concurrent
/// call path, plus the runtime answer to the capability query that gates the
/// coredump operation.
pub struct DBusApi {
    api_notifier: vmm_sys_util::eventfd::EventFd,
    api_sender: SharedSender,
    coredump_capability: bool,
}

impl DBusApi {
    /// Whether this front end offers the capability-gated coredump operation.
    pub closed spec fn coredump_supported(&self) -> bool {
        self.coredump_capability
    }

    /// Build the front end around the notifier and the sending half of the
    /// command channel. The coredump capability starts absent; a build or
    /// target that has it says so through [`Self::with_coredump_capability`].
    pub fn new(
        api_notifier: vmm_sys_util::eventfd::EventFd,
        api_sender: std::sync::mpsc::Sender<ApiRequest>,
    ) -> (r: DBusApi)
        ensures
            !r.coredump_supported(),
    {
        DBusApi {
            api_notifier,
            api_sender: SharedSender::new(api_sender),
            coredump_capability: false,
        }
    }

    /// The same front end with the capability-gated coredump operation made
    /// available or not, as the runtime capability query found it. The query
    /// is evaluated the same way however the binary was built.
    pub fn with_coredump_capability(self, enabled: bool) -> (r: DBusApi)
        ensures
            r.coredump_supported() == enabled,
    {
        DBusApi { coredump_capability: enabled, ..self }
    }

    /// Duplicate the shared channel sender; the sole synchronized step of a
    /// call, after which the call owns its handle.
    fn clone_api_sender(&self) -> std::sync::mpsc::Sender<ApiRequest> {
        self.api_sender.duplicate()
    }

    /// Duplicate the notifier handle; failure is the classified I/O-class
    /// duplication error.
    fn clone_api_notifier(&self) -> (r: Result<vmm_sys_util::eventfd::EventFd, ApiError>)
        ensures
            r matches Err(e) ==> e is HandleDuplication,
    {
        match eventfd_try_clone(&self.api_notifier) {
            Ok(n) => Ok(n),
            Err(m) => Err(ApiError::HandleDuplication(m)),
        }
    }

    /// The shared per-call path up to the controller's raw reply: duplicate
    /// the channel sender, duplicate the notifier, then run the blocking
    /// round trip.
    fn round_trip(&self, command: Command) -> (r: Result<ControllerReply, ApiError>)
        ensures
            r matches Err(e) ==> (e is HandleDuplication || e is Controller),
    {
        let api_sender = self.clone_api_sender();
        let api_notifier = match self.clone_api_notifier() {
            Ok(n) => n,
            Err(e) => {
                return Err(e);
            },
        };
        submit_and_wait(&api_notifier, &api_sender, command)
    }

    /// Run one command through the full per-call path and shape the reply as
    /// an optional string, the declared result of most machine operations.
    pub fn vm_action(&self, action: Command) -> (r: Result<Option<String>, ApiError>)
        ensures
            r matches Err(e) ==> (e is HandleDuplication || e is Controller),
    {
        match self.round_trip(action) {
            Ok(rep) => translate_optional(rep),
            Err(e) => Err(e),
        }
    }

    /// Liveness probe of the service: the controller's reply body, as text.
    pub fn vmm_ping(&self) -> (r: Result<String, ApiError>)
        ensures
            r matches Err(e) ==> (e is HandleDuplication || e is Controller),
    {
        match self.round_trip(Command::Ping) {
            Ok(rep) => translate_text(rep),
            Err(e) => Err(e),
        }
    }

    /// Ask the service itself to stop. The reply to this very call still
    /// travels over the event loop; the shutdown protocol lets that final
    /// tick finish before the loop exits.
    pub fn vmm_shutdown(&self) -> (r: Result<(), ApiError>)
        ensures
            r matches Err(e) ==> (e is HandleDuplication || e is Controller),
    {
        match self.round_trip(Command::Shutdown) {
            Ok(_) => Ok(()),
            Err(e) => Err(e),
        }
    }

    /// Query the machine's description: the controller's reply body, as text.
    pub fn vm_info(&self) -> (r: Result<String, ApiError>)
        ensures
            r matches Err(e) ==> (e is HandleDuplication || e is Controller),
    {
        match self.round_trip(Command::Info) {
            Ok(rep) => translate_text(rep),
            Err(e) => Err(e),
        }
    }

    /// Create a machine from the caller's configuration text.
    pub fn vm_create(&self, vm_config: String) -> (r: Result<(), ApiError>)
        ensures
            !json_ok(vm_config@) ==> (r matches Err(e) && e is Decode),
            r matches Err(e) ==> (e is Decode <==> !json_ok(vm_config@)),
            r matches Err(e) ==> (e is Decode || e is HandleDuplication || e is Controller),
    {
        let config = match ConfigPayload::decode(vm_config.as_str()) {
            Ok(p) => p,
            Err(e) => {
                return Err(e);
            },
        };
        match self.vm_action(Command::Create(config)) {
            Ok(_) => Ok(()),
            Err(e) => Err(e),
        }
    }

    /// Boot the created machine.
    pub fn vm_boot(&self) -> (r: Result<(), ApiError>)
        ensures
            r matches Err(e) ==> (e is HandleDuplication || e is Controller),
    {
        match self.vm_action(Command::Boot) {
            Ok(_) => Ok(()),
            Err(e) => Err(e),
        }
    }

    /// Delete the machine.
    pub fn vm_delete(&self) -> (r: Result<(), ApiError>)
        ensures
            r matches Err(e) ==> (e is HandleDuplication || e is Controller),
    {
        match self.vm_action(Command::Delete) {
            Ok(_) => Ok(()),
            Err(e) => Err(e),
        }
    }

    /// Pause the machine.
    pub fn vm_pause(&self) -> (r: Result<(), ApiError>)
        ensures
            r matches Err(e) ==> (e is HandleDuplication || e is Controller),
    {
        match self.vm_action(Command::Pause) {
            Ok(_) => Ok(()),
            Err(e) => Err(e),
        }
    }

    /// Resume the paused machine.
    pub fn vm_resume(&self) -> (r: Result<(), ApiError>)
        ensures
            r matches Err(e) ==> (e is HandleDuplication || e is Controller),
    {
        match self.vm_action(Command::Resume) {
            Ok(_) => Ok(()),
            Err(e) => Err(e),
        }
    }

    /// Reboot the machine.
    pub fn vm_reboot(&self) -> (r: Result<(), ApiError>)
        ensures
            r matches Err(e) ==> (e is HandleDuplication || e is Controller),
    {
        match self.vm_action(Command::Reboot) {
            Ok(_) => Ok(()),
            Err(e) => Err(e),
        }
    }

    /// Press the machine's power button.
    pub fn vm_power_button(&self) -> (r: Result<(), ApiError>)
        ensures
            r matches Err(e) ==> (e is HandleDuplication || e is Controller),
    {
        match self.vm_action(Command::PowerButton) {
            Ok(_) => Ok(()),
            Err(e) => Err(e),
        }
    }

    /// Ask the controller to shut the machine down.
    pub fn vm_shutdown(&self) -> (r: Result<(), ApiError>)
        ensures
            r matches Err(e) ==> (e is HandleDuplication || e is Controller),
    {
        match self.vm_action(Command::VmShutdown) {
            Ok(_) => Ok(()),
            Err(e) => Err(e),
        }
    }

    /// Query the machine's counters.
    pub fn vm_counters(&self) -> (r: Result<Option<String>, ApiError>)
        ensures
            r matches Err(e) ==> (e is HandleDuplication || e is Controller),
    {
        self.vm_action(Command::Counters)
    }

    /// Take a guest core dump. The operation is capability-gated: without the
    /// capability it returns the fixed unavailable failure and the controller
    /// is never contacted, whatever the argument holds.
    pub fn vm_coredump(&self, vm_coredump_data: String) -> (r: Result<(), ApiError>)
        ensures
            !self.coredump_supported() ==> (r matches Err(e) && e is CapabilityUnavailable),
            self.coredump_supported() && !json_ok(vm_coredump_data@) ==> (r matches Err(e)
                && e is Decode),
            self.coredump_supported() ==> (r matches Err(e) ==> (e is Decode <==> !json_ok(
                vm_coredump_data@,
            ))),
            self.coredump_supported() ==> (r matches Err(e) ==> (e is Decode
                || e is HandleDuplication || e is Controller)),
    {
        if !self.coredump_capability {
            return Err(ApiError::CapabilityUnavailable);
        }
        let config = match ConfigPayload::decode(vm_coredump_data.as_str()) {
            Ok(p) => p,
            Err(e) => {
                return Err(e);
            },
        };
        match self.vm_action(Command::Coredump(config)) {
            Ok(_) => Ok(()),
            Err(e) => Err(e),
        }
    }

    /// Resize the machine as the configuration text asks.
    pub fn vm_resize(&self, vm_resize: String) -> (r: Result<(), ApiError>)
        ensures
            !json_ok(vm_resize@) ==> (r matches Err(e) && e is Decode),
            r matches Err(e) ==> (e is Decode <==> !json_ok(vm_resize@)),
            r matches Err(e) ==> (e is Decode || e is HandleDuplication || e is Controller),
    {
        let config = match ConfigPayload::decode(vm_resize.as_str()) {
            Ok(p) => p,
            Err(e) => {
                return Err(e);
            },
        };
        match self.vm_action(Command::Resize(config)) {
            Ok(_) => Ok(()),
            Err(e) => Err(e),
        }
    }

    /// Resize one memory zone as the configuration text asks.
    pub fn vm_resize_zone(&self, vm_resize_zone: String) -> (r: Result<(), ApiError>)
        ensures
            !json_ok(vm_resize_zone@) ==> (r matches Err(e) && e is Decode),
            r matches Err(e) ==> (e is Decode <==> !json_ok(vm_resize_zone@)),
            r matches Err(e) ==> (e is Decode || e is HandleDuplication || e is Controller),
    {
        let config = match ConfigPayload::decode(vm_resize_zone.as_str()) {
            Ok(p) => p,
            Err(e) => {
                return Err(e);
            },
        };
        match self.vm_action(Command::ResizeZone(config)) {
            Ok(_) => Ok(()),
            Err(e) => Err(e),
        }
    }

    /// Snapshot the machine as the configuration text asks.
    pub fn vm_snapshot(&self, vm_snapshot_config: String) -> (r: Result<(), ApiError>)
        ensures
            !json_ok(vm_snapshot_config@) ==> (r matches Err(e) && e is Decode),
            r matches Err(e) ==> (e is Decode <==> !json_ok(vm_snapshot_config@)),
            r matches Err(e) ==> (e is Decode || e is HandleDuplication || e is Controller),
    {
        let config = match ConfigPayload::decode(vm_snapshot_config.as_str()) {
            Ok(p) => p,
            Err(e) => {
                return Err(e);
            },
        };
        match self.vm_action(Command::Snapshot(config)) {
            Ok(_) => Ok(()),
            Err(e) => Err(e),
        }
    }

    /// Restore the machine from a snapshot described by the configuration
    /// text.
    pub fn vm_restore(&self, restore_config: String) -> (r: Result<(), ApiError>)
        ensures
            !json_ok(restore_config@) ==> (r matches Err(e) && e is Decode),
            r matches Err(e) ==> (e is Decode <==> !json_ok(restore_config@)),
            r matches Err(e) ==> (e is Decode || e is HandleDuplication || e is Controller),
    {
        let config = match ConfigPayload::decode(restore_config.as_str()) {
            Ok(p) => p,
            Err(e) => {
                return Err(e);
            },
        };
        match self.vm_action(Command::Restore(config)) {
            Ok(_) => Ok(()),
            Err(e) => Err(e),
        }
    }

    /// Send the machine to the migration target the configuration text names.
    pub fn vm_send_migration(&self, send_migration_data: String) -> (r: Result<(), ApiError>)
        ensures
            !json_ok(send_migration_data@) ==> (r matches Err(e) && e is Decode),
            r matches Err(e) ==> (e is Decode <==> !json_ok(send_migration_data@)),
            r matches Err(e) ==> (e is Decode || e is HandleDuplication || e is Controller),
    {
        let config = match ConfigPayload::decode(send_migration_data.as_str()) {
            Ok(p) => p,
            Err(e) => {
                return Err(e);
            },
        };
        match self.vm_action(Command::SendMigration(config)) {
            Ok(_) => Ok(()),
            Err(e) => Err(e),
        }
    }

    /// Receive a machine from the migration source the configuration text
    /// names.
    pub fn vm_receive_migration(&self, receive_migration_data: String) -> (r: Result<(), ApiError>)
        ensures
            !json_ok(receive_migration_data@) ==> (r matches Err(e) && e is Decode),
            r matches Err(e) ==> (e is Decode <==> !json_ok(receive_migration_data@)),
            r matches Err(e) ==> (e is Decode || e is HandleDuplication || e is Controller),
    {
        let config = match ConfigPayload::decode(receive_migration_data.as_str()) {
            Ok(p) => p,
            Err(e) => {
                return Err(e);
            },
        };
        match self.vm_action(Command::ReceiveMigration(config)) {
            Ok(_) => Ok(()),
            Err(e) => Err(e),
        }
    }

    /// Add a generic device as the configuration text describes.
    pub fn vm_add_device(&self, device_config: String) -> (r: Result<Option<String>, ApiError>)
        ensures
            !json_ok(device_config@) ==> (r matches Err(e) && e is Decode),
            r matches Err(e) ==> (e is Decode <==> !json_ok(device_config@)),
            r matches Err(e) ==> (e is Decode || e is HandleDuplication || e is Controller),
    {
        let config = match ConfigPayload::decode(device_config.as_str()) {
            Ok(p) => p,
            Err(e) => {
                return Err(e);
            },
        };
        self.vm_action(Command::AddDevice(config))
    }

    /// Remove the device the configuration text names.
    pub fn vm_remove_device(&self, vm_remove_device: String) -> (r: Result<(), ApiError>)
        ensures
            !json_ok(vm_remove_device@) ==> (r matches Err(e) && e is Decode),
            r matches Err(e) ==> (e is Decode <==> !json_ok(vm_remove_device@)),
            r matches Err(e) ==> (e is Decode || e is HandleDuplication || e is Controller),
    {
        let config = match ConfigPayload::decode(vm_remove_device.as_str()) {
            Ok(p) => p,
            Err(e) => {
                return Err(e);
            },
        };
        match self.vm_action(Command::RemoveDevice(config)) {
            Ok(_) => Ok(()),
            Err(e) => Err(e),
        }
    }

    /// Add a disk as the configuration text describes.
    pub fn vm_add_disk(&self, disk_config: String) -> (r: Result<Option<String>, ApiError>)
        ensures
            !json_ok(disk_config@) ==> (r matches Err(e) && e is Decode),
            r matches Err(e) ==> (e is Decode <==> !json_ok(disk_config@)),
            r matches Err(e) ==> (e is Decode || e is HandleDuplication || e is Controller),
    {
        let config = match ConfigPayload::decode(disk_config.as_str()) {
            Ok(p) => p,
            Err(e) => {
                return Err(e);
            },
        };
        self.vm_action(Command::AddDisk(config))
    }

    /// Add a filesystem as the configuration text describes.
    pub fn vm_add_fs(&self, fs_config: String) -> (r: Result<Option<String>, ApiError>)
        ensures
            !json_ok(fs_config@) ==> (r matches Err(e) && e is Decode),
            r matches Err(e) ==> (e is Decode <==> !json_ok(fs_config@)),
            r matches Err(e) ==> (e is Decode || e is HandleDuplication || e is Controller),
    {
        let config = match ConfigPayload::decode(fs_config.as_str()) {
            Ok(p) => p,
            Err(e) => {
                return Err(e);
            },
        };
        self.vm_action(Command::AddFs(config))
    }

    /// Add a network device as the configuration text describes.
    pub fn vm_add_net(&self, net_config: String) -> (r: Result<Option<String>, ApiError>)
        ensures
            !json_ok(net_config@) ==> (r matches Err(e) && e is Decode),
            r matches Err(e) ==> (e is Decode <==> !json_ok(net_config@)),
            r matches Err(e) ==> (e is Decode || e is HandleDuplication || e is Controller),
    {
        let config = match ConfigPayload::decode(net_config.as_str()) {
            Ok(p) => p,
            Err(e) => {
                return Err(e);
            },
        };
        self.vm_action(Command::AddNet(config))
    }

    /// Add a persistent-memory device as the configuration text describes.
    pub fn vm_add_pmem(&self, pmem_config: String) -> (r: Result<Option<String>, ApiError>)
        ensures
            !json_ok(pmem_config@) ==> (r matches Err(e) && e is Decode),
            r matches Err(e) ==> (e is Decode <==> !json_ok(pmem_config@)),
            r matches Err(e) ==> (e is Decode || e is HandleDuplication || e is Controller),
    {
        let config = match ConfigPayload::decode(pmem_config.as_str()) {
            Ok(p) => p,
            Err(e) => {
                return Err(e);
            },
        };
        self.vm_action(Command::AddPmem(config))
    }

    /// Add a vDPA device as the configuration text describes.
    pub fn vm_add_vdpa(&self, vdpa_config: String) -> (r: Result<Option<String>, ApiError>)
        ensures
            !json_ok(vdpa_config@) ==> (r matches Err(e) && e is Decode),
            r matches Err(e) ==> (e is Decode <==> !json_ok(vdpa_config@)),
            r matches Err(e) ==> (e is Decode || e is HandleDuplication || e is Controller),
    {
        let config = match ConfigPayload::decode(vdpa_config.as_str()) {
            Ok(p) => p,
            Err(e) => {
                return Err(e);
            },
        };
        self.vm_action(Command::AddVdpa(config))
    }

    /// Add a vsock device as the configuration text describes.
    pub fn vm_add_vsock(&self, vsock_config: String) -> (r: Result<Option<String>, ApiError>)
        ensures
            !json_ok(vsock_config@) ==> (r matches Err(e) && e is Decode),
            r matches Err(e) ==> (e is Decode <==> !json_ok(vsock_config@)),
            r matches Err(e) ==> (e is Decode || e is HandleDuplication || e is Controller),
    {
        let config = match ConfigPayload::decode(vsock_config.as_str()) {
            Ok(p) => p,
            Err(e) => {
                return Err(e);
            },
        };
        self.vm_action(Command::AddVsock(config))
    }

    /// Add a user-space device as the configuration text describes.
    pub fn vm_add_user_device(&self, vm_add_user_device: String) -> (r: Result<
        Option<String>,
        ApiError,
    >)
        ensures
            !json_ok(vm_add_user_device@) ==> (r matches Err(e) && e is Decode),
            r matches Err(e) ==> (e is Decode <==> !json_ok(vm_add_user_device@)),
            r matches Err(e) ==> (e is Decode || e is HandleDuplication || e is Controller),
    {
        let config = match ConfigPayload::decode(vm_add_user_device.as_str()) {
            Ok(p) => p,
            Err(e) => {
                return Err(e);
            },
        };
        self.vm_action(Command::AddUserDevice(config))
    }
}

} // verus!
