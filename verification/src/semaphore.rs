//! Semaphores: opaque synchronization tokens.
//!
//! A semaphore here is only a wrapped native handle paired with its owning
//! device; signal and wait semantics are driven by whatever native
//! submission calls reference the handle, outside this layer's scope.  The
//! wrapper is shared by reference counting; the embedding program pairs the
//! shared allocation with a [`crate::lifecycle::OwnerCount`] and performs
//! the native semaphore-destroy call exactly when the last owner releases.

use vstd::prelude::*;

use std::sync::Arc;

use crate::device::Device;
use crate::error::Error;
use crate::error::VooResult;
use crate::handle::Handle;

verus! {

/// Raw native identifier of a semaphore.
#[derive(Clone, Copy, Debug, PartialEq, Eq, Structural)]
pub struct SemaphoreHandle(pub u64);

impl Handle for SemaphoreHandle {
    type Target = SemaphoreHandle;

    open spec fn spec_handle(&self) -> SemaphoreHandle {
        *self
    }

    fn handle(&self) -> (h: SemaphoreHandle)
        ensures
            h == self.spec_handle(),
    {
        *self
    }
}

/// Creation descriptor for a semaphore.  No creation flags are defined, so
/// the descriptor always carries zero flags.
#[derive(Clone, Copy, Debug, PartialEq, Eq, Structural)]
pub struct SemaphoreCreateInfo {
    pub flags: u32,
}

impl SemaphoreCreateInfo {
    /// The descriptor handed to the native semaphore-create entry point.
    pub fn new() -> (i: SemaphoreCreateInfo)
        ensures
            i.flags == 0,
    {
        SemaphoreCreateInfo { flags: 0 }
    }
}

struct SemaphoreInner {
    handle: SemaphoreHandle,
    device: Device,
}

/// A native semaphore paired with the device that owns it, shared by
/// reference counting so several owners can keep it alive.
pub struct Semaphore {
    inner: Arc<SemaphoreInner>,
}

impl Semaphore {
    /// The wrapped native semaphore handle.
    pub closed spec fn spec_handle(&self) -> SemaphoreHandle {
        self.inner.handle
    }

    /// The device the semaphore was created from.
    pub closed spec fn spec_device(&self) -> Device {
        self.inner.device
    }

    /// Wraps the outcome of the native semaphore creation, which the
    /// embedding program performed with the descriptor
    /// [`SemaphoreCreateInfo::new`] and this device.
    ///
    /// On native success the returned handle is paired with the device in a
    /// shared wrapper; a native status code is propagated unchanged.
    pub fn new(device: Device, raw: Result<u64, i32>) -> (r: VooResult<Semaphore>)
        ensures
            raw matches Ok(h) ==> (r matches Ok(s) && s.spec_handle() == SemaphoreHandle(h)
                && s.spec_device() == device),
            raw matches Err(code) ==> (r matches Err(e) && e.code == code),
    {
        match raw {
            Ok(h) => Ok(
                Semaphore {
                    inner: Arc::new(
                        SemaphoreInner { handle: SemaphoreHandle(h), device },
                    ),
                },
            ),
            Err(code) => Err(Error::api_call(code)),
        }
    }

    /// Returns the wrapped native semaphore handle.
    pub fn handle(&self) -> (h: SemaphoreHandle)
        ensures
            h == self.spec_handle(),
    {
        self.inner.handle
    }

    /// Returns a reference to the associated device.
    pub fn device(&self) -> (d: &Device)
        ensures
            *d == self.spec_device(),
    {
        &self.inner.device
    }
}

impl Clone for Semaphore {
    /// A clone shares the same native semaphore and device.
    fn clone(&self) -> (r: Self)
        ensures
            r == *self,
    {
        Semaphore { inner: crate::arc_clone(&self.inner) }
    }
}

impl Handle for &Semaphore {
    type Target = SemaphoreHandle;

    open spec fn spec_handle(&self) -> SemaphoreHandle {
        Semaphore::spec_handle(*self)
    }

    fn handle(&self) -> (h: SemaphoreHandle)
        ensures
            h == self.spec_handle(),
    {
        Semaphore::handle(*self)
    }
}

} // verus!
