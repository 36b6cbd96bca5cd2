//! Records and handle types of the command pool.

use vstd::prelude::*;
use crate::sys::common::{VkFlags, VkStructureType};

verus! {

pub type VkCommandPool = usize;

pub const VK_COMMAND_POOL_CREATE_TRANSIENT_BIT: VkFlags = 0x00000001;

pub const VK_COMMAND_POOL_CREATE_RESET_COMMAND_BUFFER_BIT: VkFlags = 0x00000002;

/// Creation bitmask of a command pool: the transient hint and the per-buffer
/// reset capability.
#[derive(Clone, Copy, Debug, PartialEq, Eq, Structural)]
pub struct VkCommandPoolCreateFlags {
    pub bits: VkFlags,
}

impl VkCommandPoolCreateFlags {
    pub fn empty() -> (f: VkCommandPoolCreateFlags)
        ensures
            f.bits == 0,
    {
        VkCommandPoolCreateFlags { bits: 0 }
    }

    pub fn from_bits(bits: VkFlags) -> (f: VkCommandPoolCreateFlags)
        ensures
            f.bits == bits,
    {
        VkCommandPoolCreateFlags { bits }
    }

    pub open spec fn spec_contains(self, bits: VkFlags) -> bool {
        self.bits & bits == bits
    }

    pub fn contains(self, bits: VkFlags) -> (b: bool)
        ensures
            b == self.spec_contains(bits),
    {
        self.bits & bits == bits
    }
}

pub const VK_COMMAND_POOL_RESET_RELEASE_RESOURCES_BIT: VkFlags = 0x00000001;

/// Bitmask of a pool reset: optionally also return the pool's resources.
#[derive(Clone, Copy, Debug, PartialEq, Eq, Structural)]
pub struct VkCommandPoolResetFlags {
    pub bits: VkFlags,
}

impl VkCommandPoolResetFlags {
    pub fn empty() -> (f: VkCommandPoolResetFlags)
        ensures
            f.bits == 0,
    {
        VkCommandPoolResetFlags { bits: 0 }
    }

    pub fn from_bits(bits: VkFlags) -> (f: VkCommandPoolResetFlags)
        ensures
            f.bits == bits,
    {
        VkCommandPoolResetFlags { bits }
    }
}

/// Request record for command-pool creation.
#[derive(Clone, Copy, Debug, PartialEq, Eq, Structural)]
pub struct VkCommandPoolCreateInfo {
    pub s_type: VkStructureType,
    pub flags: VkCommandPoolCreateFlags,
    pub queue_family_index: u32,
}

} // verus!
