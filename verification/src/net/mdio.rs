//! MDIO bus records.

use vstd::prelude::*;

use crate::driver::DeviceDriver;

verus! {

/// The flag marking an MDIO device as a PHY.
pub const MDIO_DEVICE_IS_PHY: u32 = 0x80000000;

/// The record common to all MDIO drivers: the generic driver record plus
/// the MDIO flags.
pub struct MdioDriverCommon {
    /// The generic driver record.
    pub device_driver: DeviceDriver,
    /// The MDIO driver flags.
    pub flags: u32,
}

impl MdioDriverCommon {
    /// Wraps a generic driver record with MDIO flags.
    pub fn new(flags: u32, drv: DeviceDriver) -> (r: Self)
        ensures
            r.device_driver == drv,
            r.flags == flags,
    {
        MdioDriverCommon { device_driver: drv, flags }
    }
}

} // verus!
