use vstd::prelude::*;

verus! {

#[verifier::external_type_specification]
#[verifier::external_body]
pub struct ExEventFd(vmm_sys_util::eventfd::EventFd);

/// Relies on `vmm_sys_util::eventfd::EventFd::try_clone`: hands out an
/// independent handle onto the same wake event, or reports an I/O error;
/// each duplication is a single descriptor duplication, atomic with respect
/// to other duplications.
#[verifier::external_body]
pub(crate) fn eventfd_try_clone(e: &vmm_sys_util::eventfd::EventFd) -> (r: Result<
    vmm_sys_util::eventfd::EventFd,
    String,
>)
{
    e.try_clone().map_err(|err| format!("{err:?}"))
}

/// Relies on `vmm_sys_util::eventfd::EventFd::write`: adds one to the event's
/// counter, waking the consumer, or reports an I/O error; it never fails
/// silently.
#[verifier::external_body]
pub(crate) fn eventfd_notify(e: &vmm_sys_util::eventfd::EventFd) -> (r: Result<(), String>)
{
    e.write(1).map_err(|err| format!("{err:?}"))
}

} // verus!
