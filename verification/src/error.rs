use vstd::prelude::*;

verus! {

/// The fixed diagnostic text returned when a capability-gated operation is
/// requested on a build or target that lacks the capability.
pub open spec fn spec_unavailable_text() -> Seq<char> {
    "the requested operation is unavailable on this build or target"@
}

/// Exec counterpart of [`spec_unavailable_text`].
pub fn unavailable_text() -> (r: String)
    ensures
        r@ == spec_unavailable_text(),
{
    "the requested operation is unavailable on this build or target".to_owned()
}

/// Classification of a failed remote call. Every internal failure is folded
/// into one of these before it crosses the interface boundary; any finer
/// distinction survives only as diagnostic text, never as a structured code
/// the caller can branch on.
#[derive(Debug)]
pub enum ApiError {
    /// The caller's structured-text argument did not parse; the controller is
    /// never contacted.
    Decode(String),
    /// Duplicating the notifier handle failed (an I/O-class error).
    HandleDuplication(String),
    /// The controller round trip failed: the command could not be sent, the
    /// consumer could not be woken, the reply channel closed, or the
    /// controller itself rejected the operation.
    Controller(String),
    /// The operation is not supported by this build or target; the controller
    /// is never contacted.
    CapabilityUnavailable,
}

impl ApiError {
    /// The diagnostic text embedded in this failure.
    pub open spec fn spec_message(&self) -> Seq<char> {
        match self {
            ApiError::Decode(m) => m@,
            ApiError::HandleDuplication(m) => m@,
            ApiError::Controller(m) => m@,
            ApiError::CapabilityUnavailable => spec_unavailable_text(),
        }
    }

    /// The diagnostic text of this failure, as shown to the remote caller.
    pub fn message(&self) -> (r: String)
        ensures
            r@ == self.spec_message(),
    {
        match self {
            ApiError::Decode(m) => m.clone(),
            ApiError::HandleDuplication(m) => m.clone(),
            ApiError::Controller(m) => m.clone(),
            ApiError::CapabilityUnavailable => unavailable_text(),
        }
    }

    /// True exactly for decode failures.
    pub fn is_decode(&self) -> (r: bool)
        ensures
            r == (self is Decode),
    {
        matches!(self, ApiError::Decode(_))
    }

    /// True exactly for handle-duplication failures.
    pub fn is_handle_duplication(&self) -> (r: bool)
        ensures
            r == (self is HandleDuplication),
    {
        matches!(self, ApiError::HandleDuplication(_))
    }

    /// True exactly for controller-side failures.
    pub fn is_controller(&self) -> (r: bool)
        ensures
            r == (self is Controller),
    {
        matches!(self, ApiError::Controller(_))
    }

    /// True exactly for the capability-gated rejection.
    pub fn is_capability_unavailable(&self) -> (r: bool)
        ensures
            r == (self is CapabilityUnavailable),
    {
        matches!(self, ApiError::CapabilityUnavailable)
    }
}

} // verus!
