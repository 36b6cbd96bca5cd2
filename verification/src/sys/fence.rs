//! Records and handle types of the fence.

use vstd::prelude::*;
use crate::sys::common::{VkFlags, VkStructureType};

verus! {

pub type VkFence = usize;

pub const VK_FENCE_CREATE_SIGNALED_BIT: VkFlags = 0x00000001;

/// Creation bitmask of a fence; only the signaled bit is defined.
#[derive(Clone, Copy, Debug, PartialEq, Eq, Structural)]
pub struct VkFenceCreateFlags {
    pub bits: VkFlags,
}

impl VkFenceCreateFlags {
    pub fn empty() -> (f: VkFenceCreateFlags)
        ensures
            f.bits == 0,
    {
        VkFenceCreateFlags { bits: 0 }
    }

    pub fn from_bits(bits: VkFlags) -> (f: VkFenceCreateFlags)
        ensures
            f.bits == bits,
    {
        VkFenceCreateFlags { bits }
    }

    pub open spec fn spec_contains(self, bits: VkFlags) -> bool {
        self.bits & bits == bits
    }

    pub fn contains(self, bits: VkFlags) -> (b: bool)
        ensures
            b == self.spec_contains(bits),
    {
        self.bits & bits == bits
    }
}

/// Request record for fence creation.
#[derive(Clone, Copy, Debug, PartialEq, Eq, Structural)]
pub struct VkFenceCreateInfo {
    pub s_type: VkStructureType,
    pub flags: VkFenceCreateFlags,
}

} // verus!
