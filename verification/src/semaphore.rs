//! The semaphore: created and destroyed at this layer only; waiting and
//! signaling happen when work is submitted, which is outside this layer.

use vstd::prelude::*;
use crate::driver;
use crate::device::Device;
use crate::sys::common::{VkResult, VkStructureType, VK_NULL_HANDLE};
use crate::sys::semaphore::{VkSemaphore, VkSemaphoreCreateFlags, VkSemaphoreCreateInfo};

verus! {

pub struct Semaphore<'a> {
    handle: VkSemaphore,
    device: &'a Device<'a>,
}

impl<'a> Semaphore<'a> {
    #[verifier::type_invariant]
    spec fn wf(self) -> bool {
        self.handle != VK_NULL_HANDLE
    }

    pub closed spec fn spec_handle(&self) -> VkSemaphore {
        self.handle
    }

    pub closed spec fn spec_device_handle(&self) -> usize {
        self.device.spec_handle()
    }

    /// Creates a semaphore owned by `device`.
    pub fn new(device: &'a Device<'_>) -> (r: Result<Semaphore<'a>, VkResult>)
        ensures
            r matches Ok(s),
            r matches Ok(s) ==> s.spec_handle() != VK_NULL_HANDLE && s.spec_device_handle()
                == device.spec_handle(),
    {
        let create_info = VkSemaphoreCreateInfo {
            s_type: VkStructureType::VK_STRUCTURE_TYPE_SEMAPHORE_CREATE_INFO,
            flags: VkSemaphoreCreateFlags::Reserved,
        };
        let (code, handle) = driver::create_semaphore(*device.handle(), &create_info);
        match code {
            VkResult::VK_SUCCESS => Ok(Semaphore { handle, device }),
            x => Err(x),
        }
    }
}

} // verus!
