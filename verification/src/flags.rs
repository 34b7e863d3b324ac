//! Bit-flag types for creation parameters and queue-family capabilities.

use vstd::prelude::*;

verus! {

/// A queue family supports graphics operations.
pub const QUEUE_GRAPHICS_BIT: u32 = 0x1;

/// A queue family supports compute operations.
pub const QUEUE_COMPUTE_BIT: u32 = 0x2;

/// A queue family supports transfer operations.
pub const QUEUE_TRANSFER_BIT: u32 = 0x4;

/// A queue family supports sparse-binding operations.
pub const QUEUE_SPARSE_BINDING_BIT: u32 = 0x8;

/// Capability flags of a queue family, as the native driver reports them.
#[derive(Clone, Copy, Debug, PartialEq, Eq, Structural)]
pub struct QueueFlags {
    pub bits: u32,
}

impl QueueFlags {
    /// `other` is a subset of the capabilities in `self`.
    pub open spec fn spec_contains(self, other: QueueFlags) -> bool {
        self.bits & other.bits == other.bits
    }

    /// Flags with exactly the given bits set.
    pub fn from_bits(bits: u32) -> (f: QueueFlags)
        ensures
            f.bits == bits,
    {
        QueueFlags { bits }
    }

    /// The empty set of capabilities.
    pub fn empty() -> (f: QueueFlags)
        ensures
            f.bits == 0,
    {
        QueueFlags { bits: 0 }
    }

    /// Whether every capability in `other` is also in `self`.
    pub fn contains(&self, other: QueueFlags) -> (r: bool)
        ensures
            r == self.spec_contains(other),
    {
        self.bits & other.bits == other.bits
    }
}

/// Command buffers allocated from the pool are short-lived.
pub const COMMAND_POOL_CREATE_TRANSIENT_BIT: u32 = 0x1;

/// Command buffers allocated from the pool may be reset individually.
pub const COMMAND_POOL_CREATE_RESET_COMMAND_BUFFER_BIT: u32 = 0x2;

/// Usage behavior requested for a command pool at creation time.
#[derive(Clone, Copy, Debug, PartialEq, Eq, Structural)]
pub struct CommandPoolCreateFlags {
    pub bits: u32,
}

impl CommandPoolCreateFlags {
    /// Flags with exactly the given bits set.
    pub fn from_bits(bits: u32) -> (f: CommandPoolCreateFlags)
        ensures
            f.bits == bits,
    {
        CommandPoolCreateFlags { bits }
    }

    /// No creation flags.
    pub fn empty() -> (f: CommandPoolCreateFlags)
        ensures
            f.bits == 0,
    {
        CommandPoolCreateFlags { bits: 0 }
    }
}

} // verus!
