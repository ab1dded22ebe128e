//! Generic devices of the driver model.
//!
//! A device represents one discovered hardware unit.  It keeps the
//! firmware-description node it came from, and one slot for a
//! driver-private data payload; the registry sets the slot exactly once,
//! after the device's probe succeeded, and clears it on removal.

use vstd::prelude::*;

use crate::error::Error;
use crate::of::FwNode;
use crate::of::of_irq_get;
use crate::of::spec_irq_args;

verus! {

/// One discovered hardware unit, generic over the driver-private data type
/// `D` its bus stores for it.
pub struct Device<D> {
    /// The firmware-description node the device was created from.
    pub of_node: FwNode,
    /// The driver-private data slot; `Some` exactly while a driver holds
    /// the device.
    pub drv_data: Option<D>,
}

impl<D> Device<D> {
    /// Creates a device from its node of origin, with an empty private-data
    /// slot.
    pub fn new(of_node: FwNode) -> (r: Self)
        ensures
            r.of_node == of_node,
            r.drv_data is None,
    {
        Device { of_node, drv_data: None }
    }

    /// Fills the driver-private data slot.
    pub fn set_drv_data(&mut self, drv_data: D)
        ensures
            final(self).drv_data == Some(drv_data),
            final(self).of_node == old(self).of_node,
    {
        self.drv_data = Some(drv_data);
    }

    /// Reads the driver-private data slot.
    pub fn get_drv_data(&self) -> (r: Option<&D>)
        ensures
            r is Some <==> self.drv_data is Some,
            r matches Some(v) ==> self.drv_data == Some(*v),
    {
        self.drv_data.as_ref()
    }

    /// Empties the driver-private data slot and hands its payload out.
    pub fn take_drv_data(&mut self) -> (r: Option<D>)
        ensures
            r == old(self).drv_data,
            final(self).drv_data is None,
            final(self).of_node == old(self).of_node,
    {
        let mut taken: Option<D> = None;
        core::mem::swap(&mut taken, &mut self.drv_data);
        taken
    }

    /// Whether the device's node carries the given compatible string.
    pub fn compatible_match(&self, compatible: &str) -> (r: bool)
        ensures
            r == self.of_node.has_compatible(compatible@),
    {
        self.of_node.compatible_contains(compatible)
    }

    /// Looks the device's interrupt number up at `index` in its node's
    /// interrupt description.
    pub fn irq_resource(&self, index: u32) -> (r: Result<i32, Error>)
        requires
            spec_irq_args(self.of_node, index as int) matches Some(a) ==> a.len() == 3,
        ensures
            match spec_irq_args(self.of_node, index as int) {
                Option::Some(a) => r == Ok::<i32, Error>(a[1] as i32),
                Option::None => r == Err::<i32, Error>(Error::InvalidArgument),
            },
    {
        match of_irq_get(&self.of_node, index as usize) {
            Ok(v) => Ok(
                #[verifier::truncate]
                (v as i32),
            ),
            Err(e) => Err(e),
        }
    }
}

/// The device operations a bus-specific device wrapper offers the registry.
pub trait DeviceOps<D> {
    /// The contents of the wrapped device's private-data slot.
    spec fn spec_drv_data(&self) -> Option<D>;

    /// The compatible strings of the wrapped device's node.
    spec fn spec_compat(&self) -> Seq<Seq<char>>;

    /// Fills the driver-private data slot.
    fn set_drv_data(&mut self, drv_data: D)
        ensures
            final(self).spec_drv_data() == Some(drv_data),
            final(self).spec_compat() == old(self).spec_compat(),
    ;

    /// Reads the driver-private data slot.
    fn get_drv_data(&self) -> (r: Option<&D>)
        ensures
            r is Some <==> self.spec_drv_data() is Some,
            r matches Some(v) ==> self.spec_drv_data() == Some(*v),
    ;

    /// Whether the wrapped device's node carries the given compatible
    /// string.
    fn compatible_match(&self, compatible: &str) -> (r: bool)
        ensures
            r == self.spec_compat().contains(compatible@),
    ;
}

} // verus!
