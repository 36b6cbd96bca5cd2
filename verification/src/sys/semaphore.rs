//! Records and handle types of the semaphore.

use vstd::prelude::*;
use crate::sys::common::VkStructureType;

verus! {

pub type VkSemaphore = usize;

#[derive(Clone, Copy, Debug, PartialEq, Eq, Structural)]
pub enum VkSemaphoreCreateFlags {
    Reserved,
}

impl VkSemaphoreCreateFlags {
    /// The only representable value; the ABI reserves the whole word.
    pub fn code(self) -> (c: u32)
        ensures
            c == 0,
    {
        0
    }
}

/// Request record for semaphore creation.
#[derive(Clone, Copy, Debug, PartialEq, Eq, Structural)]
pub struct VkSemaphoreCreateInfo {
    pub s_type: VkStructureType,
    pub flags: VkSemaphoreCreateFlags,
}

} // verus!
