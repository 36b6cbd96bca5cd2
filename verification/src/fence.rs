//! The fence: a signal flag owned by a device, observed and cleared through
//! it.
//!
//! Observation is tri-state: `signaled` distinguishes ready and not-ready from
//! genuine errors, and `wait` reports expiry of its timeout as a success, not
//! an error. Clearing the flag requires external synchronization in the native
//! API's terms, so `reset` takes the wrapper by exclusive borrow.

use vstd::prelude::*;
use crate::driver;
use crate::device::Device;
use crate::sys::common::{
    VkResult, VkStructureType, VK_NULL_HANDLE, completion_outcome, fence_status_outcome,
    wait_outcome,
};
use crate::sys::fence::{VkFence, VkFenceCreateFlags, VkFenceCreateInfo, VK_FENCE_CREATE_SIGNALED_BIT};

verus! {

pub struct Fence<'a> {
    handle: VkFence,
    device: &'a Device<'a>,
    signaled: bool,
}

impl<'a> Fence<'a> {
    #[verifier::type_invariant]
    spec fn wf(self) -> bool {
        self.handle != VK_NULL_HANDLE
    }

    pub closed spec fn spec_handle(&self) -> VkFence {
        self.handle
    }

    pub closed spec fn spec_device_handle(&self) -> usize {
        self.device.spec_handle()
    }

    /// The modeled driver-side state of the fence.
    pub closed spec fn is_signaled(&self) -> bool {
        self.signaled
    }

    /// What a status query reports: the current flag, never an error.
    pub open spec fn spec_status(&self) -> Result<bool, VkResult> {
        Ok(self.is_signaled())
    }

    /// What a bounded wait reports: nothing signals the fence during the wait
    /// in this model, so the outcome is decided by the current flag alone.
    pub open spec fn spec_wait_result(&self) -> Result<bool, VkResult> {
        Ok(self.is_signaled())
    }

    /// The fence after its flag has been cleared; everything else unchanged.
    pub closed spec fn spec_after_reset(&self) -> Fence<'a> {
        Fence { signaled: false, ..*self }
    }

    /// The request record for a fence that starts out in the given state.
    pub fn create_info(signaled: bool) -> (ci: VkFenceCreateInfo)
        ensures
            ci.s_type == VkStructureType::VK_STRUCTURE_TYPE_FENCE_CREATE_INFO,
            ci.flags.bits == if signaled {
                VK_FENCE_CREATE_SIGNALED_BIT
            } else {
                0u32
            },
            ci.flags.spec_contains(VK_FENCE_CREATE_SIGNALED_BIT) == signaled,
    {
        let flags = if signaled {
            VkFenceCreateFlags::from_bits(VK_FENCE_CREATE_SIGNALED_BIT)
        } else {
            VkFenceCreateFlags::empty()
        };
        proof {
            assert((1u32 & 1u32) == 1u32) by (bit_vector);
            assert((0u32 & 1u32) == 0u32) by (bit_vector);
        }
        VkFenceCreateInfo { s_type: VkStructureType::VK_STRUCTURE_TYPE_FENCE_CREATE_INFO, flags }
    }

    /// Creates a fence whose flag starts out as `signaled`.
    pub fn new(device: &'a Device<'_>, signaled: bool) -> (r: Result<Fence<'a>, VkResult>)
        ensures
            r matches Ok(f),
            r matches Ok(f) ==> {
                &&& f.spec_handle() != VK_NULL_HANDLE
                &&& f.spec_device_handle() == device.spec_handle()
                &&& f.is_signaled() == signaled
            },
    {
        let create_info = Fence::create_info(signaled);
        let (code, handle) = driver::create_fence(*device.handle(), &create_info);
        match code {
            VkResult::VK_SUCCESS => Ok(
                Fence {
                    handle,
                    device,
                    signaled: create_info.flags.contains(VK_FENCE_CREATE_SIGNALED_BIT),
                },
            ),
            x => Err(x),
        }
    }

    /// Queries the flag: `Ok(true)` when signaled, `Ok(false)` when not;
    /// not-ready is an answer, not an error.
    pub fn signaled(&self) -> (r: Result<bool, VkResult>)
        ensures
            r == self.spec_status(),
    {
        let code = if self.signaled {
            VkResult::VK_SUCCESS
        } else {
            VkResult::VK_NOT_READY
        };
        fence_status_outcome(code)
    }

    /// Clears the flag; requires exclusive access to the wrapper because the
    /// native API classifies the operation as externally synchronized.
    pub fn reset(&mut self) -> (r: Result<(), VkResult>)
        ensures
            r == Ok::<(), VkResult>(()),
            *final(self) == old(self).spec_after_reset(),
            !final(self).is_signaled(),
            final(self).spec_handle() == old(self).spec_handle(),
            final(self).spec_device_handle() == old(self).spec_device_handle(),
    {
        proof {
            use_type_invariant(&*self);
        }
        self.signaled = false;
        completion_outcome(VkResult::VK_SUCCESS)
    }

    /// Waits for the flag for at most `timeout` driver time units: `Ok(true)`
    /// when the fence is signaled, `Ok(false)` when the timeout expires first.
    pub fn wait(&self, timeout: u64) -> (r: Result<bool, VkResult>)
        ensures
            r == self.spec_wait_result(),
    {
        let code = if self.signaled {
            VkResult::VK_SUCCESS
        } else {
            VkResult::VK_TIMEOUT
        };
        wait_outcome(code)
    }
}

/// A status query reports exactly the fence's flag: a fence created signaled
/// answers `Ok(true)`, one created unsignaled answers `Ok(false)`.
pub proof fn lemma_status_reports_state(f: Fence<'_>)
    ensures
        f.spec_status() == Ok::<bool, VkResult>(f.is_signaled()),
{
}

/// A reset fence always reports `Ok(false)`, whatever its earlier state, and
/// keeps its handle and owner.
pub proof fn lemma_reset_clears(f: Fence<'_>)
    ensures
        !f.spec_after_reset().is_signaled(),
        f.spec_after_reset().spec_status() == Ok::<bool, VkResult>(false),
        f.spec_after_reset().spec_handle() == f.spec_handle(),
        f.spec_after_reset().spec_device_handle() == f.spec_device_handle(),
{
}

/// A wait on a signaled fence reports `Ok(true)`; on a fence that nothing
/// signals it reports `Ok(false)` once the timeout expires.
pub proof fn lemma_wait_observes_signal(f: Fence<'_>)
    ensures
        f.is_signaled() ==> f.spec_wait_result() == Ok::<bool, VkResult>(true),
        !f.is_signaled() ==> f.spec_wait_result() == Ok::<bool, VkResult>(false),
{
}

} // verus!
