//! Safety wrapper around a native graphics driver's object-lifecycle
//! primitives: command pools, command buffers, queues and semaphores.
//!
//! Each resource wrapper pairs a raw native handle with the logical device
//! that owns it.  Builders accumulate creation parameters and turn the
//! native driver's answer into a wrapped resource; the queue-family scan
//! filters a physical device's queue families by capability flags and
//! presentation support.  The native entry points themselves (creation,
//! destruction, allocation, queries) are performed by the embedding
//! program, which hands their outcomes to this library as plain values.

use vstd::prelude::*;

pub mod command_buffer;
pub mod command_pool;
pub mod device;
pub mod error;
pub mod flags;
pub mod handle;
pub mod lifecycle;
pub mod queue;
pub mod semaphore;
pub mod small_vec;

pub use error::Error;
pub use error::VooResult;
pub use handle::Handle;

verus! {

/// Relies on `std::sync::Arc::clone`: the clone shares the same allocation
/// as the original, so it carries the same value.
#[verifier::external_body]
pub(crate) fn arc_clone<T>(v: &std::sync::Arc<T>) -> (r: std::sync::Arc<T>)
    ensures
        r == *v,
{
    std::sync::Arc::clone(v)
}

} // verus!
