//! Capability-polymorphic command pools.
//!
//! Two pool kinds share one contract through the [`CommandPool`] trait and
//! differ only in the capability marker [`CommandPool::buffer_reset`]: a
//! [`SplitCommandPool`] allows its buffers to be reset one at a time, a
//! [`UnifiedCommandPool`] does not. The marker is folded into the creation
//! bitmask and — through the buffer layer — decides, at the type level, which
//! buffer operations exist; no runtime check is involved.
//!
//! Resetting a pool invalidates every buffer allocated from it on the native
//! side. The operation takes the pool by exclusive borrow, so no buffer
//! borrowed from the pool can still be reachable in the same scope.

use vstd::prelude::*;
use crate::driver;
use crate::device::Device;
use crate::sys::common::{VkResult, VkStructureType, VK_NULL_HANDLE, completion_outcome};
use crate::sys::command_pool::{
    VkCommandPool, VkCommandPoolCreateFlags, VkCommandPoolCreateInfo, VkCommandPoolResetFlags,
    VK_COMMAND_POOL_CREATE_RESET_COMMAND_BUFFER_BIT, VK_COMMAND_POOL_CREATE_TRANSIENT_BIT,
};
use crate::sys::device::VkDevice;

verus! {

pub type CommandPoolCreateFlags = VkCommandPoolCreateFlags;

pub type CommandPoolResetFlags = VkCommandPoolResetFlags;

/// The creation bitmask a pool kind uses: the reset capability and the
/// transient hint, and nothing else.
pub open spec fn spec_pool_create_bits(buffer_reset: bool, transient: bool) -> u32 {
    (if buffer_reset {
        VK_COMMAND_POOL_CREATE_RESET_COMMAND_BUFFER_BIT
    } else {
        0u32
    }) | (if transient {
        VK_COMMAND_POOL_CREATE_TRANSIENT_BIT
    } else {
        0u32
    })
}

/// No other combination than the four choices of the two bits is
/// representable in a pool's creation bitmask.
pub proof fn lemma_pool_create_bits_range(buffer_reset: bool, transient: bool)
    ensures
        spec_pool_create_bits(buffer_reset, transient) == (if buffer_reset {
            2u32
        } else {
            0u32
        }) + (if transient {
            1u32
        } else {
            0u32
        }),
        spec_pool_create_bits(buffer_reset, transient) <= 3,
{
    assert((2u32 | 1u32) == 3u32) by (bit_vector);
    assert((2u32 | 0u32) == 2u32) by (bit_vector);
    assert((0u32 | 1u32) == 1u32) by (bit_vector);
    assert((0u32 | 0u32) == 0u32) by (bit_vector);
}

/// The shared contract of every pool kind. `buffer_reset` is the capability
/// marker: it is folded into the creation bitmask, and only the kind carrying
/// it supports per-buffer reset at the buffer layer.
pub trait CommandPool<'a>: Sized {
    /// Capability marker: whether buffers from this pool kind may be reset
    /// one at a time.
    spec fn buffer_reset() -> bool;

    spec fn spec_handle(&self) -> VkCommandPool;

    spec fn spec_device_handle(&self) -> VkDevice;

    /// Executable mirror of the capability marker.
    fn supports_buffer_reset() -> (b: bool)
        ensures
            b == Self::buffer_reset(),
    ;

    /// Wraps a handle the driver has just produced, binding it to `device`.
    fn _new(handle: VkCommandPool, device: &'a Device<'a>) -> (p: Self)
        requires
            handle != VK_NULL_HANDLE,
        ensures
            p.spec_handle() == handle,
            p.spec_device_handle() == device.spec_handle(),
    ;

    fn handle(&self) -> (h: &VkCommandPool)
        ensures
            *h == self.spec_handle(),
    ;

    fn device(&self) -> (d: &Device<'a>)
        ensures
            d.spec_handle() == self.spec_device_handle(),
    ;

    /// The request record this pool kind sends: its capability marker and the
    /// transient hint, folded into the bitmask.
    fn create_info(queue_family_index: u32, transient: bool) -> (ci: VkCommandPoolCreateInfo)
        ensures
            ci.s_type == VkStructureType::VK_STRUCTURE_TYPE_COMMAND_POOL_CREATE_INFO,
            ci.queue_family_index == queue_family_index,
            ci.flags.bits == spec_pool_create_bits(Self::buffer_reset(), transient),
    {
        let reset_bits: u32 = if Self::supports_buffer_reset() {
            VK_COMMAND_POOL_CREATE_RESET_COMMAND_BUFFER_BIT
        } else {
            0
        };
        let transient_bits: u32 = if transient {
            VK_COMMAND_POOL_CREATE_TRANSIENT_BIT
        } else {
            0
        };
        VkCommandPoolCreateInfo {
            s_type: VkStructureType::VK_STRUCTURE_TYPE_COMMAND_POOL_CREATE_INFO,
            flags: VkCommandPoolCreateFlags::from_bits(reset_bits | transient_bits),
            queue_family_index,
        }
    }

    /// Creates a pool of this kind for the given queue family.
    fn new(device: &'a Device<'a>, queue_family_index: u32, transient: bool) -> (r: Result<
        Self,
        VkResult,
    >)
        ensures
            r matches Ok(p),
            r matches Ok(p) ==> p.spec_handle() != VK_NULL_HANDLE && p.spec_device_handle()
                == device.spec_handle(),
    {
        let create_info = Self::create_info(queue_family_index, transient);
        let (code, handle) = driver::create_command_pool(*device.handle(), &create_info);
        match code {
            VkResult::VK_SUCCESS => Ok(Self::_new(handle, device)),
            x => Err(x),
        }
    }

    /// Returns every buffer of the pool to the pool at once. Exclusive access
    /// is required: no buffer wrapper borrowed from this pool may be live
    /// across the reset, since the native side invalidates them all.
    fn reset(&mut self, flags: CommandPoolResetFlags) -> (r: Result<(), VkResult>)
        ensures
            r == Ok::<(), VkResult>(()),
            final(self).spec_handle() == old(self).spec_handle(),
            final(self).spec_device_handle() == old(self).spec_device_handle(),
    {
        let code = driver::reset_command_pool(*self.device().handle(), *self.handle(), flags);
        completion_outcome(code)?;
        Ok(())
    }
}

/// The reset-capable pool kind: buffers allocated from it may be reset one at
/// a time.
pub struct SplitCommandPool<'a> {
    handle: VkCommandPool,
    device: &'a Device<'a>,
}

impl<'a> SplitCommandPool<'a> {
    #[verifier::type_invariant]
    spec fn wf(self) -> bool {
        self.handle != VK_NULL_HANDLE
    }
}

impl<'a> CommandPool<'a> for SplitCommandPool<'a> {
    open spec fn buffer_reset() -> bool {
        true
    }

    closed spec fn spec_handle(&self) -> VkCommandPool {
        self.handle
    }

    closed spec fn spec_device_handle(&self) -> VkDevice {
        self.device.spec_handle()
    }

    fn supports_buffer_reset() -> (b: bool)
        ensures
            b == Self::buffer_reset(),
    {
        true
    }

    fn _new(handle: VkCommandPool, device: &'a Device<'a>) -> (p: Self)
        ensures
            p.spec_handle() == handle,
            p.spec_device_handle() == device.spec_handle(),
    {
        SplitCommandPool { handle, device }
    }

    fn handle(&self) -> (h: &VkCommandPool)
        ensures
            *h == self.spec_handle(),
    {
        &self.handle
    }

    fn device(&self) -> (d: &Device<'a>)
        ensures
            d.spec_handle() == self.spec_device_handle(),
    {
        self.device
    }
}

/// The bulk-only pool kind: its buffers can only be recycled through a reset
/// of the whole pool, so no per-buffer reset operation exists for them.
pub struct UnifiedCommandPool<'a> {
    handle: VkCommandPool,
    device: &'a Device<'a>,
}

impl<'a> UnifiedCommandPool<'a> {
    #[verifier::type_invariant]
    spec fn wf(self) -> bool {
        self.handle != VK_NULL_HANDLE
    }
}

impl<'a> CommandPool<'a> for UnifiedCommandPool<'a> {
    open spec fn buffer_reset() -> bool {
        false
    }

    closed spec fn spec_handle(&self) -> VkCommandPool {
        self.handle
    }

    closed spec fn spec_device_handle(&self) -> VkDevice {
        self.device.spec_handle()
    }

    fn supports_buffer_reset() -> (b: bool)
        ensures
            b == Self::buffer_reset(),
    {
        false
    }

    fn _new(handle: VkCommandPool, device: &'a Device<'a>) -> (p: Self)
        ensures
            p.spec_handle() == handle,
            p.spec_device_handle() == device.spec_handle(),
    {
        UnifiedCommandPool { handle, device }
    }

    fn handle(&self) -> (h: &VkCommandPool)
        ensures
            *h == self.spec_handle(),
    {
        &self.handle
    }

    fn device(&self) -> (d: &Device<'a>)
        ensures
            d.spec_handle() == self.spec_device_handle(),
    {
        self.device
    }
}

} // verus!
