//! Records and handle types of the event.

use vstd::prelude::*;
use crate::sys::common::VkStructureType;

verus! {

pub type VkEvent = usize;

#[derive(Clone, Copy, Debug, PartialEq, Eq, Structural)]
pub enum VkEventCreateFlags {
    Reserved,
}

impl VkEventCreateFlags {
    /// The only representable value; the ABI reserves the whole word.
    pub fn code(self) -> (c: u32)
        ensures
            c == 0,
    {
        0
    }
}

/// Request record for event creation.
#[derive(Clone, Copy, Debug, PartialEq, Eq, Structural)]
pub struct VkEventCreateInfo {
    pub s_type: VkStructureType,
    pub flags: VkEventCreateFlags,
}

} // verus!
