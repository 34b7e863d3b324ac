//! Command pools: builder-style creation and batched command-buffer
//! allocation.
//!
//! A pool pairs its raw native handle with the owning device and the
//! creation parameters it was built with, shared by reference counting so
//! that command buffers allocated from it can keep it alive.  The embedding
//! program performs the native entry points (pool creation, command-buffer
//! allocation) and hands their outcomes to the functions here; it pairs the
//! shared wrapper with a [`crate::lifecycle::OwnerCount`] and performs the
//! native pool-destroy call exactly when the last owner releases.

use vstd::prelude::*;

use std::sync::Arc;

use crate::command_buffer::CommandBuffer;
use crate::command_buffer::CommandBufferHandle;
use crate::command_buffer::CommandBufferLevel;
use crate::device::Device;
use crate::error::Error;
use crate::error::VooResult;
use crate::flags::CommandPoolCreateFlags;
use crate::handle::Handle;
use crate::small_vec::HandleVec;
use crate::small_vec::handle_contents;

verus! {

/// Raw native identifier of a command pool.
#[derive(Clone, Copy, Debug, PartialEq, Eq, Structural)]
pub struct CommandPoolHandle(pub u64);

impl Handle for CommandPoolHandle {
    type Target = CommandPoolHandle;

    open spec fn spec_handle(&self) -> CommandPoolHandle {
        *self
    }

    fn handle(&self) -> (h: CommandPoolHandle)
        ensures
            h == self.spec_handle(),
    {
        *self
    }
}

/// Creation parameters of a command pool: usage flags and the queue family
/// all command buffers allocated from the pool must be submitted on.
#[derive(Clone, Copy, Debug, PartialEq, Eq, Structural)]
pub struct CommandPoolCreateInfo {
    pub flags: CommandPoolCreateFlags,
    pub queue_family_index: u32,
}

impl Default for CommandPoolCreateInfo {
    /// No flags, queue family index zero.
    fn default() -> (i: CommandPoolCreateInfo)
        ensures
            i.flags.bits == 0,
            i.queue_family_index == 0,
    {
        CommandPoolCreateInfo { flags: CommandPoolCreateFlags::empty(), queue_family_index: 0 }
    }
}

/// Descriptor of one batched command-buffer allocation: the pool to
/// allocate from, the level of the buffers, and how many.
#[derive(Clone, Copy, Debug, PartialEq, Eq, Structural)]
pub struct CommandBufferAllocateInfo {
    pub command_pool: CommandPoolHandle,
    pub level: CommandBufferLevel,
    pub command_buffer_count: u32,
}

struct CommandPoolInner {
    handle: CommandPoolHandle,
    device: Device,
    create_info: CommandPoolCreateInfo,
}

/// A native command pool paired with the device that owns it and the
/// parameters it was created with, shared by reference counting so several
/// owners (command buffers among them) can keep it alive.
pub struct CommandPool {
    inner: Arc<CommandPoolInner>,
}

impl CommandPool {
    /// The wrapped native pool handle.
    pub closed spec fn spec_handle(&self) -> CommandPoolHandle {
        self.inner.handle
    }

    /// The device the pool was created from.
    pub closed spec fn spec_device(&self) -> Device {
        self.inner.device
    }

    /// The parameters the pool was created with.
    pub closed spec fn spec_create_info(&self) -> CommandPoolCreateInfo {
        self.inner.create_info
    }

    /// Returns a new `CommandPoolBuilder` with default creation parameters.
    pub fn builder() -> (b: CommandPoolBuilder)
        ensures
            b.create_info.flags.bits == 0,
            b.create_info.queue_family_index == 0,
    {
        CommandPoolBuilder::new()
    }

    /// The descriptor for a batched allocation of `count` command buffers
    /// of the given level from this pool: what the embedding program hands
    /// to the native allocation entry point.
    pub fn allocate_info(&self, level: CommandBufferLevel, count: u32) -> (info:
        CommandBufferAllocateInfo)
        ensures
            info.command_pool == self.spec_handle(),
            info.level == level,
            info.command_buffer_count == count,
    {
        CommandBufferAllocateInfo {
            command_pool: self.handle(),
            level,
            command_buffer_count: count,
        }
    }

    /// Wraps the raw handles the native batched allocation returned.
    ///
    /// `raw` is the outcome of the native allocation call made with
    /// [`CommandPool::allocate_info`]`(level, count)`: the filled buffer,
    /// whose length equals `count` exactly on native success, or the status
    /// code of a failed allocation, which aborts the whole operation and is
    /// propagated unchanged, with no partial result.
    pub fn allocate_command_buffer_handles(
        &self,
        level: CommandBufferLevel,
        count: u32,
        raw: Result<Vec<u64>, i32>,
    ) -> (r: VooResult<HandleVec>)
        requires
            raw matches Ok(v) ==> v@.len() == count,
        ensures
            raw matches Ok(v) ==> (r matches Ok(buf) && handle_contents(buf) == v@),
            raw matches Err(code) ==> (r matches Err(e) && e.code == code),
    {
        match raw {
            Ok(v) => {
                let mut buf = HandleVec::new();
                let mut i: usize = 0;
                while i < v.len()
                    invariant
                        i <= v@.len(),
                        handle_contents(buf) == v@.take(i as int),
                    decreases v@.len() - i,
                {
                    buf.push(CommandBufferHandle(v[i]));
                    proof {
                        assert(v@.take(i + 1 as int) =~= v@.take(i as int).push(v@[i as int]));
                    }
                    i += 1;
                }
                proof {
                    assert(handle_contents(buf) =~= v@);
                }
                Ok(buf)
            },
            Err(code) => Err(Error::api_call(code)),
        }
    }

    /// Wraps each raw handle the native batched allocation returned
    /// together with a clone of this pool into a command buffer.
    ///
    /// `raw` is the outcome of the native allocation call, as in
    /// [`CommandPool::allocate_command_buffer_handles`].  On native success
    /// the result holds exactly `count` command buffers, each referencing
    /// this pool; a native failure aborts the whole operation, with no
    /// partial result.
    pub fn allocate_command_buffers(
        &self,
        level: CommandBufferLevel,
        count: u32,
        raw: Result<Vec<u64>, i32>,
    ) -> (r: VooResult<Vec<CommandBuffer>>)
        requires
            raw matches Ok(v) ==> v@.len() == count,
        ensures
            raw matches Ok(v) ==> (r matches Ok(cbs) && cbs@.len() == count && forall|j: int|
                0 <= j < cbs@.len() ==> (#[trigger] cbs@[j]).spec_pool() == *self
                    && cbs@[j].spec_handle() == CommandBufferHandle(v@[j])),
            raw matches Err(code) ==> (r matches Err(e) && e.code == code),
    {
        match self.allocate_command_buffer_handles(level, count, raw) {
            Ok(handles) => {
                let n = handles.len();
                let mut cbs: Vec<CommandBuffer> = Vec::new();
                let mut i: usize = 0;
                while i < n
                    invariant
                        i <= n,
                        n == handle_contents(handles).len(),
                        cbs@.len() == i,
                        forall|j: int| 0 <= j < i ==> (#[trigger] cbs@[j]).spec_pool() == *self
                            && cbs@[j].spec_handle().0 == handle_contents(handles)[j],
                    decreases n - i,
                {
                    let h = handles.get(i);
                    let cb = CommandBuffer::from_parts(self.clone(), h);
                    cbs.push(cb);
                    i += 1;
                }
                Ok(cbs)
            },
            Err(e) => Err(e),
        }
    }

    /// Allocates a single command buffer: a batched allocation of count one
    /// followed by extracting its only element.
    ///
    /// `raw` is the outcome of the native allocation call made with
    /// [`CommandPool::allocate_info`]`(level, 1)`, so on native success it
    /// holds exactly one raw handle.
    pub fn allocate_command_buffer(&self, level: CommandBufferLevel, raw: Result<Vec<u64>, i32>)
        -> (r: VooResult<CommandBuffer>)
        requires
            raw matches Ok(v) ==> v@.len() == 1,
        ensures
            raw matches Ok(v) ==> (r matches Ok(cb) && cb.spec_pool() == *self && cb.spec_handle()
                == CommandBufferHandle(v@[0])),
            raw matches Err(code) ==> (r matches Err(e) && e.code == code),
    {
        match self.allocate_command_buffers(level, 1, raw) {
            Ok(mut cbs) => {
                let cb = cbs.remove(0);
                Ok(cb)
            },
            Err(e) => Err(e),
        }
    }

    /// Returns the wrapped native pool handle.
    pub fn handle(&self) -> (h: CommandPoolHandle)
        ensures
            h == self.spec_handle(),
    {
        self.inner.handle
    }

    /// Returns a reference to the associated device.
    pub fn device(&self) -> (d: &Device)
        ensures
            *d == self.spec_device(),
    {
        &self.inner.device
    }

    /// The usage flags the pool was created with.
    pub fn flags(&self) -> (f: CommandPoolCreateFlags)
        ensures
            f == self.spec_create_info().flags,
    {
        self.inner.create_info.flags
    }

    /// The queue family index the pool was created with.
    pub fn queue_family_index(&self) -> (q: u32)
        ensures
            q == self.spec_create_info().queue_family_index,
    {
        self.inner.create_info.queue_family_index
    }
}

/// Allocating a single command buffer behaves identically to allocating a
/// batch of one and extracting its only element: for the same pool, level
/// and native outcome, the two calls succeed together, a successful batch
/// holds exactly one command buffer with the same pool and handle as the
/// single allocation's, and a failure carries the same error.
pub proof fn lemma_single_allocation_matches_batch(
    pool: &CommandPool,
    level: CommandBufferLevel,
    raw: Result<Vec<u64>, i32>,
    single: VooResult<CommandBuffer>,
    batch: VooResult<Vec<CommandBuffer>>,
)
    requires
        raw matches Ok(v) ==> v@.len() == 1,
        CommandPool::allocate_command_buffer.ensures((pool, level, raw), single),
        CommandPool::allocate_command_buffers.ensures((pool, level, 1u32, raw), batch),
    ensures
        (single matches Ok(cb)) <==> (batch matches Ok(cbs)),
        single matches Ok(cb) ==> (batch matches Ok(cbs) && cbs@.len() == 1 && cb.spec_pool()
            == cbs@[0].spec_pool() && cb.spec_handle() == cbs@[0].spec_handle()),
        single matches Err(e) ==> (batch matches Err(e2) && e == e2),
{
}

impl Clone for CommandPool {
    /// A clone shares the same native pool, device and creation parameters.
    fn clone(&self) -> (r: Self)
        ensures
            r == *self,
    {
        CommandPool { inner: crate::arc_clone(&self.inner) }
    }
}

impl Handle for &CommandPool {
    type Target = CommandPoolHandle;

    open spec fn spec_handle(&self) -> CommandPoolHandle {
        CommandPool::spec_handle(*self)
    }

    fn handle(&self) -> (h: CommandPoolHandle)
        ensures
            h == self.spec_handle(),
    {
        CommandPool::handle(*self)
    }
}

/// A builder for `CommandPool`: accumulates creation parameters, then turns
/// the native creation outcome into a pool.
#[derive(Clone, Copy, Debug, PartialEq, Eq, Structural)]
pub struct CommandPoolBuilder {
    pub create_info: CommandPoolCreateInfo,
}

impl CommandPoolBuilder {
    /// Returns a new command pool builder with default creation parameters.
    pub fn new() -> (b: CommandPoolBuilder)
        ensures
            b.create_info.flags.bits == 0,
            b.create_info.queue_family_index == 0,
    {
        CommandPoolBuilder { create_info: Default::default() }
    }

    /// Specifies the usage behavior for the pool and command buffers
    /// allocated from it.  No validation is performed here: invalid
    /// combinations are rejected by the native driver at build time.
    pub fn flags(self, flags: CommandPoolCreateFlags) -> (b: CommandPoolBuilder)
        ensures
            b.create_info.flags == flags,
            b.create_info.queue_family_index == self.create_info.queue_family_index,
    {
        CommandPoolBuilder {
            create_info: CommandPoolCreateInfo {
                flags,
                queue_family_index: self.create_info.queue_family_index,
            },
        }
    }

    /// Specifies a queue family.
    ///
    /// All command buffers allocated from this command pool must be
    /// submitted on queues from the same queue family.
    pub fn queue_family_index(self, queue_family_index: u32) -> (b: CommandPoolBuilder)
        ensures
            b.create_info.queue_family_index == queue_family_index,
            b.create_info.flags == self.create_info.flags,
    {
        CommandPoolBuilder {
            create_info: CommandPoolCreateInfo { flags: self.create_info.flags, queue_family_index },
        }
    }

    /// Wraps the outcome of the native pool creation, which the embedding
    /// program performed with this builder's `create_info` and this device.
    ///
    /// On native success the returned pool carries exactly the queue-family
    /// index and flags accumulated in this builder, together with the
    /// returned handle and the device; a native status code is propagated
    /// unchanged.
    pub fn build(&self, device: Device, raw: Result<u64, i32>) -> (r: VooResult<CommandPool>)
        ensures
            raw matches Ok(h) ==> (r matches Ok(pool) && pool.spec_handle() == CommandPoolHandle(h)
                && pool.spec_device() == device && pool.spec_create_info() == self.create_info),
            raw matches Err(code) ==> (r matches Err(e) && e.code == code),
    {
        match raw {
            Ok(h) => Ok(
                CommandPool {
                    inner: Arc::new(
                        CommandPoolInner {
                            handle: CommandPoolHandle(h),
                            device,
                            create_info: self.create_info,
                        },
                    ),
                },
            ),
            Err(code) => Err(Error::api_call(code)),
        }
    }
}

} // verus!
