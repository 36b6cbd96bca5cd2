//! Records and handle types of the instance level.

use vstd::prelude::*;
use crate::sys::common::{VkExtent3D, VkFlags, VkStructureType};

verus! {

pub type VkInstance = usize;

pub type VkPhysicalDevice = usize;

pub const VK_QUEUE_GRAPHICS_BIT: VkFlags = 0x00000001;

pub const VK_QUEUE_COMPUTE_BIT: VkFlags = 0x00000002;

pub const VK_QUEUE_TRANSFER_BIT: VkFlags = 0x00000004;

pub const VK_QUEUE_SPARSE_BINDING_BIT: VkFlags = 0x00000008;

/// Capability bitmask of a queue family.
#[derive(Clone, Copy, Debug, PartialEq, Eq, Structural)]
pub struct VkQueueFlags {
    pub bits: VkFlags,
}

impl VkQueueFlags {
    pub fn empty() -> (f: VkQueueFlags)
        ensures
            f.bits == 0,
    {
        VkQueueFlags { bits: 0 }
    }

    pub fn from_bits(bits: VkFlags) -> (f: VkQueueFlags)
        ensures
            f.bits == bits,
    {
        VkQueueFlags { bits }
    }

    pub open spec fn spec_contains(self, bits: VkFlags) -> bool {
        self.bits & bits == bits
    }

    pub fn contains(self, bits: VkFlags) -> (b: bool)
        ensures
            b == self.spec_contains(bits),
    {
        self.bits & bits == bits
    }
}

#[derive(Clone, Copy, Debug, PartialEq, Eq, Structural)]
pub enum VkInstanceCreateFlags {
    Reserved,
}

impl VkInstanceCreateFlags {
    /// The only representable value; the ABI reserves the whole word.
    pub fn code(self) -> (c: u32)
        ensures
            c == 0,
    {
        0
    }
}

/// Optional self-description of the application, forwarded verbatim to the
/// driver. The two name fields stand for null-terminated strings at the ABI.
pub struct VkApplicationInfo {
    pub s_type: VkStructureType,
    pub p_application_name: String,
    pub application_version: u32,
    pub p_engine_name: String,
    pub engine_version: u32,
    pub api_version: u32,
}

/// Request record for instance creation. The ABI carries each list as a count
/// plus a pointer to null-terminated strings; the counts are the lengths of
/// the lists held here.
pub struct VkInstanceCreateInfo {
    pub s_type: VkStructureType,
    pub flags: VkInstanceCreateFlags,
    pub p_application_info: Option<VkApplicationInfo>,
    pub pp_enabled_layer_names: Vec<String>,
    pub pp_enabled_extension_names: Vec<String>,
}

impl VkInstanceCreateInfo {
    pub open spec fn wf(&self) -> bool {
        &&& self.s_type == VkStructureType::VK_STRUCTURE_TYPE_INSTANCE_CREATE_INFO
        &&& self.pp_enabled_layer_names@.len() <= u32::MAX
        &&& self.pp_enabled_extension_names@.len() <= u32::MAX
    }

    pub fn enabled_layer_count(&self) -> (n: u32)
        requires
            self.wf(),
        ensures
            n == self.pp_enabled_layer_names@.len(),
    {
        self.pp_enabled_layer_names.len() as u32
    }

    pub fn enabled_extension_count(&self) -> (n: u32)
        requires
            self.wf(),
        ensures
            n == self.pp_enabled_extension_names@.len(),
    {
        self.pp_enabled_extension_names.len() as u32
    }
}

/// What the driver reports about one queue family.
#[derive(Clone, Copy, Debug, PartialEq, Eq, Structural)]
pub struct VkQueueFamilyProperties {
    pub queue_flags: VkQueueFlags,
    pub queue_count: u32,
    pub timestamp_valid_bits: u32,
    pub min_image_transfer_granularity: VkExtent3D,
}

} // verus!
