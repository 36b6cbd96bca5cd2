//! Records and handle types of the command buffer.

use vstd::prelude::*;
use crate::sys::common::{VkFlags, VkStructureType};
use crate::sys::command_pool::VkCommandPool;

verus! {

pub type VkCommandBuffer = usize;

/// Recording level of a command buffer.
#[derive(Clone, Copy, Debug, PartialEq, Eq, Structural)]
pub enum VkCommandBufferLevel {
    VK_COMMAND_BUFFER_LEVEL_PRIMARY,
    VK_COMMAND_BUFFER_LEVEL_SECONDARY,
}

impl VkCommandBufferLevel {
    /// The integer representation fixed by the native ABI.
    pub fn code(self) -> (c: u32)
        ensures
            c == self.spec_code(),
    {
        match self {
            VkCommandBufferLevel::VK_COMMAND_BUFFER_LEVEL_PRIMARY => 0,
            VkCommandBufferLevel::VK_COMMAND_BUFFER_LEVEL_SECONDARY => 1,
        }
    }

    pub open spec fn spec_code(self) -> u32 {
        match self {
            VkCommandBufferLevel::VK_COMMAND_BUFFER_LEVEL_PRIMARY => 0u32,
            VkCommandBufferLevel::VK_COMMAND_BUFFER_LEVEL_SECONDARY => 1u32,
        }
    }
}

/// Request record for a batched command-buffer allocation: one call produces
/// `command_buffer_count` buffers of the given level from `command_pool`.
#[derive(Clone, Copy, Debug, PartialEq, Eq, Structural)]
pub struct VkCommandBufferAllocateInfo {
    pub s_type: VkStructureType,
    pub command_pool: VkCommandPool,
    pub level: VkCommandBufferLevel,
    pub command_buffer_count: u32,
}

pub const VK_COMMAND_BUFFER_RESET_RELEASE_RESOURCES_BIT: VkFlags = 0x00000001;

/// Bitmask of a single-buffer reset.
#[derive(Clone, Copy, Debug, PartialEq, Eq, Structural)]
pub struct VkCommandBufferResetFlags {
    pub bits: VkFlags,
}

impl VkCommandBufferResetFlags {
    pub fn empty() -> (f: VkCommandBufferResetFlags)
        ensures
            f.bits == 0,
    {
        VkCommandBufferResetFlags { bits: 0 }
    }

    pub fn from_bits(bits: VkFlags) -> (f: VkCommandBufferResetFlags)
        ensures
            f.bits == bits,
    {
        VkCommandBufferResetFlags { bits }
    }
}

} // verus!
