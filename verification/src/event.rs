//! The event: a flag owned by a device that the host may both raise and
//! clear. Both mutations require external synchronization in the native API's
//! terms, so `set` and `reset` take the wrapper by exclusive borrow.

use vstd::prelude::*;
use crate::driver;
use crate::device::Device;
use crate::sys::common::{
    VkResult, VkStructureType, VK_NULL_HANDLE, completion_outcome, event_status_outcome,
};
use crate::sys::event::{VkEvent, VkEventCreateFlags, VkEventCreateInfo};

verus! {

pub struct Event<'a> {
    handle: VkEvent,
    device: &'a Device<'a>,
    signaled: bool,
}

impl<'a> Event<'a> {
    #[verifier::type_invariant]
    spec fn wf(self) -> bool {
        self.handle != VK_NULL_HANDLE
    }

    pub closed spec fn spec_handle(&self) -> VkEvent {
        self.handle
    }

    pub closed spec fn spec_device_handle(&self) -> usize {
        self.device.spec_handle()
    }

    /// The modeled driver-side state of the event.
    pub closed spec fn is_signaled(&self) -> bool {
        self.signaled
    }

    /// What a status query reports: the current flag, never an error.
    pub open spec fn spec_status(&self) -> Result<bool, VkResult> {
        Ok(self.is_signaled())
    }

    /// The event after its flag has been raised; everything else unchanged.
    pub closed spec fn spec_after_set(&self) -> Event<'a> {
        Event { signaled: true, ..*self }
    }

    /// The event after its flag has been cleared; everything else unchanged.
    pub closed spec fn spec_after_reset(&self) -> Event<'a> {
        Event { signaled: false, ..*self }
    }

    /// Creates an event; it starts out unsignaled.
    pub fn new(device: &'a Device<'_>) -> (r: Result<Event<'a>, VkResult>)
        ensures
            r matches Ok(e),
            r matches Ok(e) ==> {
                &&& e.spec_handle() != VK_NULL_HANDLE
                &&& e.spec_device_handle() == device.spec_handle()
                &&& !e.is_signaled()
            },
    {
        let create_info = VkEventCreateInfo {
            s_type: VkStructureType::VK_STRUCTURE_TYPE_EVENT_CREATE_INFO,
            flags: VkEventCreateFlags::Reserved,
        };
        let (code, handle) = driver::create_event(*device.handle(), &create_info);
        match code {
            VkResult::VK_SUCCESS => Ok(Event { handle, device, signaled: false }),
            x => Err(x),
        }
    }

    /// Queries the flag: `Ok(true)` when set, `Ok(false)` when reset; both
    /// states are answers, not errors.
    pub fn signaled(&self) -> (r: Result<bool, VkResult>)
        ensures
            r == self.spec_status(),
    {
        let code = if self.signaled {
            VkResult::VK_EVENT_SET
        } else {
            VkResult::VK_EVENT_RESET
        };
        event_status_outcome(code)
    }

    /// Raises the flag; exclusive access because the native API classifies
    /// the operation as externally synchronized.
    pub fn set(&mut self) -> (r: Result<(), VkResult>)
        ensures
            r == Ok::<(), VkResult>(()),
            *final(self) == old(self).spec_after_set(),
            final(self).is_signaled(),
            final(self).spec_handle() == old(self).spec_handle(),
            final(self).spec_device_handle() == old(self).spec_device_handle(),
    {
        proof {
            use_type_invariant(&*self);
        }
        self.signaled = true;
        completion_outcome(VkResult::VK_SUCCESS)
    }

    /// Clears the flag; exclusive access for the same reason as `set`.
    pub fn reset(&mut self) -> (r: Result<(), VkResult>)
        ensures
            r == Ok::<(), VkResult>(()),
            *final(self) == old(self).spec_after_reset(),
            !final(self).is_signaled(),
            final(self).spec_handle() == old(self).spec_handle(),
            final(self).spec_device_handle() == old(self).spec_device_handle(),
    {
        proof {
            use_type_invariant(&*self);
        }
        self.signaled = false;
        completion_outcome(VkResult::VK_SUCCESS)
    }
}

/// Raising the flag makes the event report `Ok(true)`, clearing it `Ok(false)`,
/// whatever the earlier state; raising and then clearing reads true, then
/// false. Handle and owner are untouched by both.
pub proof fn lemma_event_transitions(e: Event<'_>)
    ensures
        e.spec_after_set().is_signaled(),
        !e.spec_after_reset().is_signaled(),
        e.spec_after_set().spec_status() == Ok::<bool, VkResult>(true),
        e.spec_after_reset().spec_status() == Ok::<bool, VkResult>(false),
        e.spec_after_set().spec_after_reset().spec_status() == Ok::<bool, VkResult>(false),
        e.spec_after_set().spec_handle() == e.spec_handle(),
        e.spec_after_reset().spec_handle() == e.spec_handle(),
        e.spec_after_set().spec_device_handle() == e.spec_device_handle(),
        e.spec_after_reset().spec_device_handle() == e.spec_device_handle(),
{
}

} // verus!
