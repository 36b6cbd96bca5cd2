//! Command buffers, allocated in batches from a pool.
//!
//! One native call produces `n` buffers; each wrapper borrows the pool it came
//! from, so the pool cannot be dropped — nor reset, since reset needs an
//! exclusive borrow — while any of its buffers is reachable.
//!
//! Per-buffer reset is a capability of the pool kind: the
//! [`ResetableCommandBuffer`] trait is implemented exactly for buffers of a
//! [`SplitCommandPool`], so the operation does not exist — at the type level —
//! on buffers of a [`UnifiedCommandPool`].

use vstd::prelude::*;
use crate::driver;
use crate::command_pool::{CommandPool, SplitCommandPool};
use crate::sys::common::{VkResult, VkStructureType, VK_NULL_HANDLE, completion_outcome};
use crate::sys::command_buffer::{
    VkCommandBuffer, VkCommandBufferAllocateInfo, VkCommandBufferLevel, VkCommandBufferResetFlags,
};
use crate::sys::command_pool::VkCommandPool;

verus! {

pub type CommandBufferResetFlags = VkCommandBufferResetFlags;

/// The shared contract of every command-buffer kind allocated from pools of
/// kind `P`.
pub trait CommandBuffer<'a, P: CommandPool<'a> + 'a>: Sized {
    /// The recording level of this buffer kind.
    spec fn spec_level() -> VkCommandBufferLevel;

    spec fn spec_handle(&self) -> VkCommandBuffer;

    spec fn spec_pool_handle(&self) -> VkCommandPool;

    /// Executable mirror of the recording level.
    fn level() -> (l: VkCommandBufferLevel)
        ensures
            l == Self::spec_level(),
    ;

    /// Wraps a handle the driver has just produced, binding it to `pool`.
    fn _new(handle: VkCommandBuffer, pool: &'a P) -> (b: Self)
        requires
            handle != VK_NULL_HANDLE,
        ensures
            b.spec_handle() == handle,
            b.spec_pool_handle() == pool.spec_handle(),
    ;

    fn handle(&self) -> (h: &VkCommandBuffer)
        ensures
            *h == self.spec_handle(),
    ;

    /// Allocates `n` buffers from `pool` with one batched native call: on
    /// success exactly `n` wrappers come back, bound to `pool`, their handles
    /// pairwise distinct and never the null sentinel.
    fn allocate(pool: &'a P, n: u32) -> (r: Result<Vec<Self>, VkResult>)
        ensures
            r matches Ok(v),
            r matches Ok(v) ==> {
                &&& v@.len() == n
                &&& forall|k: int|
                    0 <= k < v@.len() ==> (#[trigger] v@[k]).spec_handle() != VK_NULL_HANDLE
                        && v@[k].spec_pool_handle() == pool.spec_handle()
                &&& forall|a: int, b: int|
                    0 <= a < b < v@.len() ==> (#[trigger] v@[a]).spec_handle() != (
                    #[trigger] v@[b]).spec_handle()
            },
    {
        let allocate_info = VkCommandBufferAllocateInfo {
            s_type: VkStructureType::VK_STRUCTURE_TYPE_COMMAND_BUFFER_ALLOCATE_INFO,
            command_pool: *pool.handle(),
            level: Self::level(),
            command_buffer_count: n,
        };
        let device = pool.device().handle();
        let (code, handles) = driver::allocate_command_buffers(*device, &allocate_info);
        match code {
            VkResult::VK_SUCCESS => {
                let mut buffers: Vec<Self> = Vec::new();
                let mut i: usize = 0;
                while i < handles.len()
                    invariant
                        0 <= i <= handles@.len(),
                        buffers@.len() == i,
                        forall|k: int| 0 <= k < handles@.len() ==> #[trigger] handles@[k]
                            != VK_NULL_HANDLE,
                        forall|a: int, b: int|
                            0 <= a < b < handles@.len() ==> #[trigger] handles@[a]
                                != #[trigger] handles@[b],
                        forall|k: int|
                            0 <= k < i ==> (#[trigger] buffers@[k]).spec_handle() == handles@[k]
                                && buffers@[k].spec_pool_handle() == pool.spec_handle(),
                    decreases handles@.len() - i,
                {
                    buffers.push(Self::_new(handles[i], pool));
                    i += 1;
                }
                Ok(buffers)
            },
            x => Err(x),
        }
    }
}

/// Per-buffer reset, available exactly for buffers of the reset-capable pool
/// kind; for buffers of a bulk-only pool the operation does not exist.
pub trait ResetableCommandBuffer<'a>: CommandBuffer<'a, SplitCommandPool<'a>> {
    /// Returns this one buffer to its initial state. Exclusive access because
    /// the native API classifies the operation as externally synchronized.
    fn reset(&mut self, flags: CommandBufferResetFlags) -> (r: Result<(), VkResult>)
        ensures
            r == Ok::<(), VkResult>(()),
            *final(self) == *old(self),
    {
        let code = driver::reset_command_buffer(*self.handle(), flags);
        completion_outcome(code)
    }
}

impl<'a, B: CommandBuffer<'a, SplitCommandPool<'a>>> ResetableCommandBuffer<'a> for B {

}

/// A batch of primary buffers produced by one allocation call and returned by
/// one batched free call when the group is dropped: the batched path is a
/// performance variant of per-wrapper freeing, and a group can never be
/// partially freed — no operation takes a single buffer out of it.
pub struct CommandBufferGroup<'a, P: CommandPool<'a> + 'a> {
    handles: Vec<VkCommandBuffer>,
    pool: &'a P,
}

impl<'a, P: CommandPool<'a> + 'a> CommandBufferGroup<'a, P> {
    #[verifier::type_invariant]
    spec fn wf(self) -> bool {
        &&& forall|k: int| 0 <= k < self.handles@.len() ==> #[trigger] self.handles@[k]
            != VK_NULL_HANDLE
        &&& forall|a: int, b: int|
            0 <= a < b < self.handles@.len() ==> #[trigger] self.handles@[a] != #[trigger] self
                .handles@[b]
    }

    pub closed spec fn spec_handles(&self) -> Seq<VkCommandBuffer> {
        self.handles@
    }

    pub closed spec fn spec_pool_handle(&self) -> VkCommandPool {
        self.pool.spec_handle()
    }

    /// Allocates `n` primary buffers as one group with one batched native
    /// call: on success the group holds exactly `n` pairwise distinct nonzero
    /// handles, all bound to `pool`.
    pub fn allocate(pool: &'a P, n: u32) -> (r: Result<CommandBufferGroup<'a, P>, VkResult>)
        ensures
            r matches Ok(g),
            r matches Ok(g) ==> {
                &&& g.spec_handles().len() == n
                &&& g.spec_pool_handle() == pool.spec_handle()
                &&& forall|k: int|
                    0 <= k < g.spec_handles().len() ==> #[trigger] g.spec_handles()[k]
                        != VK_NULL_HANDLE
                &&& forall|a: int, b: int|
                    0 <= a < b < g.spec_handles().len() ==> #[trigger] g.spec_handles()[a] != (
                    #[trigger] g.spec_handles()[b])
            },
    {
        let allocate_info = VkCommandBufferAllocateInfo {
            s_type: VkStructureType::VK_STRUCTURE_TYPE_COMMAND_BUFFER_ALLOCATE_INFO,
            command_pool: *pool.handle(),
            level: VkCommandBufferLevel::VK_COMMAND_BUFFER_LEVEL_PRIMARY,
            command_buffer_count: n,
        };
        let device = pool.device().handle();
        let (code, handles) = driver::allocate_command_buffers(*device, &allocate_info);
        match code {
            VkResult::VK_SUCCESS => Ok(CommandBufferGroup { handles, pool }),
            x => Err(x),
        }
    }

    /// How many buffers the group holds; fixed at allocation.
    pub fn len(&self) -> (n: usize)
        ensures
            n == self.spec_handles().len(),
    {
        self.handles.len()
    }

    /// The handles of the group's buffers, in allocation order.
    pub fn handles(&self) -> (v: &Vec<VkCommandBuffer>)
        ensures
            v@ =~= self.spec_handles(),
    {
        &self.handles
    }
}

/// A buffer recorded and submitted on its own (the only level modeled here;
/// buffers executed from within another buffer are the parallel, secondary
/// case of the same shape).
pub struct PrimaryCommandBuffer<'a, P: CommandPool<'a> + 'a> {
    handle: VkCommandBuffer,
    pool: &'a P,
}

impl<'a, P: CommandPool<'a> + 'a> PrimaryCommandBuffer<'a, P> {
    #[verifier::type_invariant]
    spec fn wf(self) -> bool {
        self.handle != VK_NULL_HANDLE
    }
}

impl<'a, P: CommandPool<'a> + 'a> CommandBuffer<'a, P> for PrimaryCommandBuffer<'a, P> {
    open spec fn spec_level() -> VkCommandBufferLevel {
        VkCommandBufferLevel::VK_COMMAND_BUFFER_LEVEL_PRIMARY
    }

    closed spec fn spec_handle(&self) -> VkCommandBuffer {
        self.handle
    }

    closed spec fn spec_pool_handle(&self) -> VkCommandPool {
        self.pool.spec_handle()
    }

    fn level() -> (l: VkCommandBufferLevel)
        ensures
            l == Self::spec_level(),
    {
        VkCommandBufferLevel::VK_COMMAND_BUFFER_LEVEL_PRIMARY
    }

    fn _new(handle: VkCommandBuffer, pool: &'a P) -> (b: Self)
        ensures
            b.spec_handle() == handle,
            b.spec_pool_handle() == pool.spec_handle(),
    {
        PrimaryCommandBuffer { handle, pool }
    }

    fn handle(&self) -> (h: &VkCommandBuffer)
        ensures
            *h == self.spec_handle(),
    {
        &self.handle
    }
}

} // verus!
