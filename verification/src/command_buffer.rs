//! Command buffers allocated from a command pool.
//!
//! A command buffer pairs its raw native handle with a shared reference to
//! the pool it was allocated from, so that the pool stays alive while any
//! of its command buffers does.  Recording and submission are the native
//! driver's business, outside this layer's scope.

use vstd::prelude::*;

use crate::command_pool::CommandPool;
use crate::handle::Handle;

verus! {

/// Raw native identifier of a command buffer.
#[derive(Clone, Copy, Debug, PartialEq, Eq, Structural)]
pub struct CommandBufferHandle(pub u64);

impl Handle for CommandBufferHandle {
    type Target = CommandBufferHandle;

    open spec fn spec_handle(&self) -> CommandBufferHandle {
        *self
    }

    fn handle(&self) -> (h: CommandBufferHandle)
        ensures
            h == self.spec_handle(),
    {
        *self
    }
}

/// Level requested for a command buffer: primary buffers are submitted to
/// queues, secondary buffers are executed from primary ones.
#[derive(Clone, Copy, Debug, PartialEq, Eq, Structural)]
pub enum CommandBufferLevel {
    Primary,
    Secondary,
}

/// A native command buffer paired with the pool it was allocated from.
pub struct CommandBuffer {
    pool: CommandPool,
    handle: CommandBufferHandle,
}

impl CommandBuffer {
    /// The pool this command buffer was allocated from.
    pub closed spec fn spec_pool(&self) -> CommandPool {
        self.pool
    }

    /// The wrapped native command-buffer handle.
    pub closed spec fn spec_handle(&self) -> CommandBufferHandle {
        self.handle
    }

    /// Pairs a raw command-buffer handle with the pool it was allocated
    /// from.
    pub fn from_parts(pool: CommandPool, handle: CommandBufferHandle) -> (cb: CommandBuffer)
        ensures
            cb.spec_pool() == pool,
            cb.spec_handle() == handle,
    {
        CommandBuffer { pool, handle }
    }

    /// Returns a reference to the pool this command buffer was allocated
    /// from.
    pub fn pool(&self) -> (p: &CommandPool)
        ensures
            *p == self.spec_pool(),
    {
        &self.pool
    }

    /// Returns the wrapped native command-buffer handle.
    pub fn handle(&self) -> (h: CommandBufferHandle)
        ensures
            h == self.spec_handle(),
    {
        self.handle
    }
}

impl Clone for CommandBuffer {
    /// A clone shares the same native command buffer and pool.
    fn clone(&self) -> (r: Self)
        ensures
            r == *self,
    {
        CommandBuffer { pool: self.pool.clone(), handle: self.handle }
    }
}

} // verus!
