use vstd::prelude::*;

use crate::config::ConfigPayload;

verus! {

/// One controller operation, as submitted over the command channel. Variants
/// that take a caller-supplied configuration carry it as a decoded
/// [`ConfigPayload`]; the others carry nothing.
pub enum Command {
    /// Liveness probe of the service itself.
    Ping,
    /// Ask the service itself to stop (the "stop the service" call whose
    /// final reply the shutdown protocol protects).
    Shutdown,
    /// Create a machine from the given configuration.
    Create(ConfigPayload),
    /// Boot the created machine.
    Boot,
    /// Delete the machine.
    Delete,
    /// Pause the machine.
    Pause,
    /// Resume the paused machine.
    Resume,
    /// Reboot the machine.
    Reboot,
    /// Press the machine's power button.
    PowerButton,
    /// Ask the controller to shut the machine down.
    VmShutdown,
    /// Query the machine's description.
    Info,
    /// Query the machine's counters.
    Counters,
    /// Take a guest core dump (capability-gated at the front end).
    Coredump(ConfigPayload),
    /// Resize the machine.
    Resize(ConfigPayload),
    /// Resize one memory zone.
    ResizeZone(ConfigPayload),
    /// Snapshot the machine.
    Snapshot(ConfigPayload),
    /// Restore the machine from a snapshot.
    Restore(ConfigPayload),
    /// Send the machine to a migration target.
    SendMigration(ConfigPayload),
    /// Receive a machine from a migration source.
    ReceiveMigration(ConfigPayload),
    /// Add a generic device.
    AddDevice(ConfigPayload),
    /// Remove a device.
    RemoveDevice(ConfigPayload),
    /// Add a disk.
    AddDisk(ConfigPayload),
    /// Add a filesystem.
    AddFs(ConfigPayload),
    /// Add a network device.
    AddNet(ConfigPayload),
    /// Add a persistent-memory device.
    AddPmem(ConfigPayload),
    /// Add a vDPA device.
    AddVdpa(ConfigPayload),
    /// Add a vsock device.
    AddVsock(ConfigPayload),
    /// Add a user-space device.
    AddUserDevice(ConfigPayload),
}

impl Command {
    /// The source text of the configuration this command carries, if any.
    pub open spec fn config(&self) -> Option<Seq<char>> {
        match self {
            Command::Create(p) => Some(p@),
            Command::Coredump(p) => Some(p@),
            Command::Resize(p) => Some(p@),
            Command::ResizeZone(p) => Some(p@),
            Command::Snapshot(p) => Some(p@),
            Command::Restore(p) => Some(p@),
            Command::SendMigration(p) => Some(p@),
            Command::ReceiveMigration(p) => Some(p@),
            Command::AddDevice(p) => Some(p@),
            Command::RemoveDevice(p) => Some(p@),
            Command::AddDisk(p) => Some(p@),
            Command::AddFs(p) => Some(p@),
            Command::AddNet(p) => Some(p@),
            Command::AddPmem(p) => Some(p@),
            Command::AddVdpa(p) => Some(p@),
            Command::AddVsock(p) => Some(p@),
            Command::AddUserDevice(p) => Some(p@),
            _ => None,
        }
    }

    /// The configuration payload this command carries, if any.
    pub fn payload(&self) -> (r: Option<&ConfigPayload>)
        ensures
            (r is Some) == (self.config() is Some),
            r matches Some(p) ==> Some(p@) == self.config(),
    {
        match self {
            Command::Create(p) => Some(p),
            Command::Coredump(p) => Some(p),
            Command::Resize(p) => Some(p),
            Command::ResizeZone(p) => Some(p),
            Command::Snapshot(p) => Some(p),
            Command::Restore(p) => Some(p),
            Command::SendMigration(p) => Some(p),
            Command::ReceiveMigration(p) => Some(p),
            Command::AddDevice(p) => Some(p),
            Command::RemoveDevice(p) => Some(p),
            Command::AddDisk(p) => Some(p),
            Command::AddFs(p) => Some(p),
            Command::AddNet(p) => Some(p),
            Command::AddPmem(p) => Some(p),
            Command::AddVdpa(p) => Some(p),
            Command::AddVsock(p) => Some(p),
            Command::AddUserDevice(p) => Some(p),
            _ => None,
        }
    }
}

/// A command built around a decoded payload carries that payload's source
/// text unchanged, whichever config-bearing operation it is for: together
/// with the decoder's own contract — well-formed text always decodes, to a
/// payload whose view is that text — the command submitted for a well-formed
/// call carries a configuration equivalent to the caller's input.
pub proof fn lemma_command_carries_config(p: ConfigPayload)
    ensures
        Command::Create(p).config() == Some(p@),
        Command::Coredump(p).config() == Some(p@),
        Command::Resize(p).config() == Some(p@),
        Command::ResizeZone(p).config() == Some(p@),
        Command::Snapshot(p).config() == Some(p@),
        Command::Restore(p).config() == Some(p@),
        Command::SendMigration(p).config() == Some(p@),
        Command::ReceiveMigration(p).config() == Some(p@),
        Command::AddDevice(p).config() == Some(p@),
        Command::RemoveDevice(p).config() == Some(p@),
        Command::AddDisk(p).config() == Some(p@),
        Command::AddFs(p).config() == Some(p@),
        Command::AddNet(p).config() == Some(p@),
        Command::AddPmem(p).config() == Some(p@),
        Command::AddVdpa(p).config() == Some(p@),
        Command::AddVsock(p).config() == Some(p@),
        Command::AddUserDevice(p).config() == Some(p@),
{
}

} // verus!
