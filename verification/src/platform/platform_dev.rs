//! A platform device: the bus-specific wrapper around a generic device.

use vstd::prelude::*;

use crate::device::Device;
use crate::device::DeviceOps;
use crate::error::Error;
use crate::of::FwNode;
use crate::of::spec_irq_args;

verus! {

/// One device on the platform bus, generic over the driver-private data
/// type `D` stored for it.
pub struct PlatformDevice<D> {
    /// The wrapped generic device.
    pub device: Device<D>,
}

impl<D> PlatformDevice<D> {
    /// Creates a platform device from its firmware-description node, with
    /// an empty private-data slot.
    pub fn new(of_node: FwNode) -> (r: Self)
        ensures
            r.device.of_node == of_node,
            r.device.drv_data is None,
    {
        PlatformDevice { device: Device::new(of_node) }
    }

    /// Looks the device's interrupt number up at `index`.
    pub fn irq_resource(&self, index: u32) -> (r: Result<i32, Error>)
        requires
            spec_irq_args(self.device.of_node, index as int) matches Some(a) ==> a.len() == 3,
        ensures
            match spec_irq_args(self.device.of_node, index as int) {
                Option::Some(a) => r == Ok::<i32, Error>(a[1] as i32),
                Option::None => r == Err::<i32, Error>(Error::InvalidArgument),
            },
    {
        self.device.irq_resource(index)
    }

    /// Empties the driver-private data slot and hands its payload out.
    pub fn take_drv_data(&mut self) -> (r: Option<D>)
        ensures
            r == old(self).device.drv_data,
            final(self).device.drv_data is None,
            final(self).device.of_node == old(self).device.of_node,
    {
        self.device.take_drv_data()
    }
}

impl<D> DeviceOps<D> for PlatformDevice<D> {
    open spec fn spec_drv_data(&self) -> Option<D> {
        self.device.drv_data
    }

    open spec fn spec_compat(&self) -> Seq<Seq<char>> {
        self.device.of_node.compat_view()
    }

    fn set_drv_data(&mut self, drv_data: D) {
        self.device.set_drv_data(drv_data);
    }

    fn get_drv_data(&self) -> (r: Option<&D>) {
        self.device.get_drv_data()
    }

    fn compatible_match(&self, compatible: &str) -> (r: bool) {
        self.device.compatible_match(compatible)
    }
}

} // verus!
