//! The deterministic model of the native driver's entry points.
//!
//! The verified layer is written against this model: creation calls accept
//! every well-formed request and hand back a nonzero handle, enumeration
//! reports a single adapter with the one queue family of
//! [`adapter_queue_family`], and batched allocation hands back pairwise
//! distinct handles. State that the real driver keeps per object (the signal
//! flag of a fence or event, the recorded queue counts of a device) is carried
//! by the owning wrapper itself, so every status query is answered from that
//! state. The unverified C binding that forwards the same requests to a real
//! driver lives with the embedding application, outside this crate.

use vstd::prelude::*;
use crate::sys::common::{VkResult, VkExtent3D, VK_NULL_HANDLE};
use crate::sys::instance::{
    VkInstance, VkPhysicalDevice, VkInstanceCreateInfo, VkQueueFamilyProperties, VkQueueFlags,
    VK_QUEUE_GRAPHICS_BIT, VK_QUEUE_COMPUTE_BIT, VK_QUEUE_TRANSFER_BIT,
};
use crate::sys::device::{VkDevice, VkDeviceCreateInfo, VkQueue};
use crate::sys::fence::{VkFence, VkFenceCreateInfo};
use crate::sys::event::{VkEvent, VkEventCreateInfo};
use crate::sys::semaphore::{VkSemaphore, VkSemaphoreCreateInfo};
use crate::sys::command_pool::{VkCommandPool, VkCommandPoolCreateInfo, VkCommandPoolResetFlags};
use crate::sys::command_buffer::{
    VkCommandBuffer, VkCommandBufferAllocateInfo, VkCommandBufferResetFlags,
};
use crate::sys::debug::{VkDebugReportCallbackEXT, VkDebugReportCallbackCreateInfoEXT};

verus! {

/// The one queue family the modeled adapter reports: graphics-capable, with
/// four queues.
pub open spec fn adapter_queue_family() -> VkQueueFamilyProperties {
    VkQueueFamilyProperties {
        queue_flags: VkQueueFlags {
            bits: VK_QUEUE_GRAPHICS_BIT | VK_QUEUE_COMPUTE_BIT | VK_QUEUE_TRANSFER_BIT,
        },
        queue_count: 4,
        timestamp_valid_bits: 64,
        min_image_transfer_granularity: VkExtent3D { width: 1, height: 1, depth: 1 },
    }
}

/// The second queue family the modeled adapter reports: transfer-only, with
/// one queue.
pub open spec fn transfer_queue_family() -> VkQueueFamilyProperties {
    VkQueueFamilyProperties {
        queue_flags: VkQueueFlags { bits: VK_QUEUE_TRANSFER_BIT },
        queue_count: 1,
        timestamp_valid_bits: 0,
        min_image_transfer_granularity: VkExtent3D { width: 1, height: 1, depth: 1 },
    }
}

/// How many queue families the modeled adapter reports.
pub open spec fn adapter_family_count() -> int {
    2
}

pub(crate) fn create_instance(info: &VkInstanceCreateInfo) -> (r: (VkResult, VkInstance))
    ensures
        r.0 == VkResult::VK_SUCCESS,
        r.1 != VK_NULL_HANDLE,
{
    (VkResult::VK_SUCCESS, 1)
}

pub(crate) fn enumerate_physical_devices(instance: VkInstance) -> (r: (
    VkResult,
    Vec<VkPhysicalDevice>,
))
    ensures
        r.0 == VkResult::VK_SUCCESS,
        r.1@.len() == 1,
        forall|k: int| 0 <= k < r.1@.len() ==> #[trigger] r.1@[k] != VK_NULL_HANDLE,
{
    let mut handles: Vec<VkPhysicalDevice> = Vec::new();
    handles.push(2);
    (VkResult::VK_SUCCESS, handles)
}

pub(crate) fn get_queue_family_properties(physical_device: VkPhysicalDevice) -> (v: Vec<
    VkQueueFamilyProperties,
>)
    ensures
        v@.len() == adapter_family_count(),
        v@[0] == adapter_queue_family(),
        v@[1] == transfer_queue_family(),
{
    let mut properties: Vec<VkQueueFamilyProperties> = Vec::new();
    properties.push(VkQueueFamilyProperties {
        queue_flags: VkQueueFlags::from_bits(
            VK_QUEUE_GRAPHICS_BIT | VK_QUEUE_COMPUTE_BIT | VK_QUEUE_TRANSFER_BIT,
        ),
        queue_count: 4,
        timestamp_valid_bits: 64,
        min_image_transfer_granularity: VkExtent3D { width: 1, height: 1, depth: 1 },
    });
    properties.push(VkQueueFamilyProperties {
        queue_flags: VkQueueFlags::from_bits(VK_QUEUE_TRANSFER_BIT),
        queue_count: 1,
        timestamp_valid_bits: 0,
        min_image_transfer_granularity: VkExtent3D { width: 1, height: 1, depth: 1 },
    });
    properties
}

pub(crate) fn create_device(physical_device: VkPhysicalDevice, info: &VkDeviceCreateInfo) -> (r: (
    VkResult,
    VkDevice,
))
    ensures
        r.0 == VkResult::VK_SUCCESS,
        r.1 != VK_NULL_HANDLE,
{
    (VkResult::VK_SUCCESS, 3)
}

pub(crate) fn get_device_queue(device: VkDevice, family: u32, index: u32) -> (q: VkQueue)
    ensures
        q != VK_NULL_HANDLE,
{
    4
}

pub(crate) fn create_fence(device: VkDevice, info: &VkFenceCreateInfo) -> (r: (VkResult, VkFence))
    ensures
        r.0 == VkResult::VK_SUCCESS,
        r.1 != VK_NULL_HANDLE,
{
    (VkResult::VK_SUCCESS, 5)
}

pub(crate) fn create_event(device: VkDevice, info: &VkEventCreateInfo) -> (r: (VkResult, VkEvent))
    ensures
        r.0 == VkResult::VK_SUCCESS,
        r.1 != VK_NULL_HANDLE,
{
    (VkResult::VK_SUCCESS, 6)
}

pub(crate) fn create_semaphore(device: VkDevice, info: &VkSemaphoreCreateInfo) -> (r: (
    VkResult,
    VkSemaphore,
))
    ensures
        r.0 == VkResult::VK_SUCCESS,
        r.1 != VK_NULL_HANDLE,
{
    (VkResult::VK_SUCCESS, 7)
}

pub(crate) fn create_command_pool(device: VkDevice, info: &VkCommandPoolCreateInfo) -> (r: (
    VkResult,
    VkCommandPool,
))
    ensures
        r.0 == VkResult::VK_SUCCESS,
        r.1 != VK_NULL_HANDLE,
{
    (VkResult::VK_SUCCESS, 8)
}

pub(crate) fn reset_command_pool(
    device: VkDevice,
    command_pool: VkCommandPool,
    flags: VkCommandPoolResetFlags,
) -> (code: VkResult)
    ensures
        code == VkResult::VK_SUCCESS,
{
    VkResult::VK_SUCCESS
}

/// One batched call hands back `command_buffer_count` pairwise distinct
/// nonzero handles.
pub(crate) fn allocate_command_buffers(
    device: VkDevice,
    info: &VkCommandBufferAllocateInfo,
) -> (r: (VkResult, Vec<VkCommandBuffer>))
    ensures
        r.0 == VkResult::VK_SUCCESS,
        r.1@.len() == info.command_buffer_count,
        forall|k: int| 0 <= k < r.1@.len() ==> #[trigger] r.1@[k] != VK_NULL_HANDLE,
        forall|a: int, b: int|
            0 <= a < b < r.1@.len() ==> #[trigger] r.1@[a] != #[trigger] r.1@[b],
{
    let n = info.command_buffer_count;
    let mut handles: Vec<VkCommandBuffer> = Vec::new();
    let mut i: u32 = 0;
    while i < n
        invariant
            0 <= i <= n,
            handles@.len() == i,
            forall|k: int| 0 <= k < i ==> #[trigger] handles@[k] == k + 1,
        decreases n - i,
    {
        handles.push((i + 1) as usize);
        i += 1;
    }
    (VkResult::VK_SUCCESS, handles)
}

pub(crate) fn reset_command_buffer(
    command_buffer: VkCommandBuffer,
    flags: VkCommandBufferResetFlags,
) -> (code: VkResult)
    ensures
        code == VkResult::VK_SUCCESS,
{
    VkResult::VK_SUCCESS
}

pub(crate) fn create_debug_report_callback(
    instance: VkInstance,
    info: &VkDebugReportCallbackCreateInfoEXT,
) -> (r: (VkResult, VkDebugReportCallbackEXT))
    ensures
        r.0 == VkResult::VK_SUCCESS,
        r.1 != 0,
{
    (VkResult::VK_SUCCESS, 9)
}

} // verus!
