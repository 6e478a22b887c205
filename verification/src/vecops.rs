//! The solver's vector handle: storage plus the DLPack device it lives
//! on. Only the CPU has a backend; any other device is refused rather
//! than staged through the host.

use vstd::prelude::*;

use crate::manifold::packing::filled;

verus! {

/// A DLPack device: the `DLDeviceType` discriminant and the device index.
#[derive(Clone, Copy, Debug, PartialEq, Eq, Structural)]
pub struct Device {
    /// `DLDeviceType` discriminant (`kDLCPU` is 1).
    pub device_type: u32,
    /// Device index; 0 for host memory.
    pub device_id: i32,
}

/// DLPack `kDLCPU`.
pub const DEVICE_TYPE_CPU: u32 = 1;

/// The host CPU device.
pub open spec fn spec_cpu() -> Device {
    Device { device_type: DEVICE_TYPE_CPU, device_id: 0 }
}

/// The host CPU device.
pub fn cpu() -> (r: Device)
    ensures
        r == spec_cpu(),
{
    Device { device_type: DEVICE_TYPE_CPU, device_id: 0 }
}

/// The device tag names a backend this build does not carry.
#[derive(Clone, Copy, Debug, PartialEq, Eq, Structural)]
pub struct UnsupportedDevice {
    /// The DLPack `DLDeviceType` discriminant that was refused.
    pub device_type: i32,
}

/// A solver-owned vector: storage plus the device it lives on.
#[derive(Debug)]
pub struct Vector<T> {
    data: Vec<T>,
    device: Device,
}

impl<T> Vector<T> {
    /// The stored entries.
    pub closed spec fn entries(&self) -> Seq<T> {
        self.data@
    }

    /// The device the entries live on.
    pub closed spec fn spec_device(&self) -> Device {
        self.device
    }

    /// A CPU vector of `n` copies of `zero`.
    pub fn zeros_cpu(n: usize, zero: T) -> (r: Self)
        where
            T: Copy,
        ensures
            r.entries() == Seq::new(n as nat, |k: int| zero),
            r.spec_device() == spec_cpu(),
    {
        Vector { data: filled(zero, n), device: cpu() }
    }

    /// Wrap host storage as a CPU vector. No copy.
    pub fn from_host(data: Vec<T>) -> (r: Self)
        ensures
            r.entries() == data@,
            r.spec_device() == spec_cpu(),
    {
        Vector { data, device: cpu() }
    }

    /// Claim `data` for `device`. Only the CPU has a backend; any other
    /// tag is refused so device data is never silently staged through
    /// the host.
    pub fn try_on(device: Device, data: Vec<T>) -> (r: Result<Self, UnsupportedDevice>)
        ensures
            device.device_type == DEVICE_TYPE_CPU ==> (r matches Ok(v) && v.entries() == data@
                && v.spec_device() == device),
            device.device_type != DEVICE_TYPE_CPU ==> r == Err::<Self, UnsupportedDevice>(
                UnsupportedDevice { device_type: device.device_type as i32 },
            ),
    {
        if device.device_type == DEVICE_TYPE_CPU {
            Ok(Vector { data, device })
        } else {
            Err(UnsupportedDevice { device_type: device.device_type as i32 })
        }
    }

    /// The device this vector lives on.
    pub fn device(&self) -> (r: Device)
        ensures
            r == self.spec_device(),
    {
        self.device
    }

    /// Host view of the CPU arm.
    pub fn host_view(&self) -> (r: &Vec<T>)
        ensures
            r@ == self.entries(),
    {
        &self.data
    }

    /// Mutable host storage of the CPU arm.
    pub fn host_mut(&mut self) -> (r: &mut Vec<T>)
        ensures
            r@ == old(self).entries(),
            final(self).entries() == final(r)@,
            final(self).spec_device() == old(self).spec_device(),
    {
        &mut self.data
    }

    /// Unwrap into host storage.
    pub fn into_host(self) -> (r: Vec<T>)
        ensures
            r@ == self.entries(),
    {
        self.data
    }
}

} // verus!
