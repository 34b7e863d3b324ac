//! Models of the logical and physical device a resource belongs to.
//!
//! The native device objects live with the native driver; this layer only
//! needs their raw handles to pair each resource with its owner.

use vstd::prelude::*;

use crate::handle::Handle;

verus! {

/// Raw native identifier of a logical device.
#[derive(Clone, Copy, Debug, PartialEq, Eq, Structural)]
pub struct DeviceHandle(pub u64);

impl Handle for DeviceHandle {
    type Target = DeviceHandle;

    open spec fn spec_handle(&self) -> DeviceHandle {
        *self
    }

    fn handle(&self) -> (h: DeviceHandle)
        ensures
            h == self.spec_handle(),
    {
        *self
    }
}

/// A logical device, identified by its raw native handle.
///
/// Resources created from a device keep a copy of this identification so
/// that their native destroy calls can name the owning device.
#[derive(Clone, Copy, Debug, PartialEq, Eq, Structural)]
pub struct Device {
    handle: DeviceHandle,
}

impl Device {
    /// The device's handle as a mathematical value.
    pub closed spec fn spec_handle(&self) -> DeviceHandle {
        self.handle
    }

    /// Wraps the raw handle of an existing logical device.
    pub fn new(handle: DeviceHandle) -> (d: Device)
        ensures
            d.spec_handle() == handle,
    {
        Device { handle }
    }

    /// Returns the raw native device handle.
    pub fn handle(&self) -> (h: DeviceHandle)
        ensures
            h == self.spec_handle(),
    {
        self.handle
    }
}

/// Raw native identifier of a physical device.
#[derive(Clone, Copy, Debug, PartialEq, Eq, Structural)]
pub struct PhysicalDeviceHandle(pub u64);

/// A physical device, identified by its raw native handle.
///
/// Queue-family discovery records which physical device was scanned.
#[derive(Clone, Copy, Debug, PartialEq, Eq, Structural)]
pub struct PhysicalDevice {
    handle: PhysicalDeviceHandle,
}

impl PhysicalDevice {
    /// The physical device's handle as a mathematical value.
    pub closed spec fn spec_handle(&self) -> PhysicalDeviceHandle {
        self.handle
    }

    /// Wraps the raw handle of a physical device.
    pub fn new(handle: PhysicalDeviceHandle) -> (d: PhysicalDevice)
        ensures
            d.spec_handle() == handle,
    {
        PhysicalDevice { handle }
    }

    /// Returns the raw native physical-device handle.
    pub fn handle(&self) -> (h: PhysicalDeviceHandle)
        ensures
            h == self.spec_handle(),
    {
        self.handle
    }
}

} // verus!
