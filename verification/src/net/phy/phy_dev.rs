//! The PHY device model.

use vstd::prelude::*;

use crate::error::Error;
use crate::net::phy::DeviceState;
use crate::net::phy::DuplexMode;
use crate::net::phy::PhyDeviceOps;

verus! {

/// The PHY device status bits.
#[derive(Clone, Copy, Debug, PartialEq, Eq, Structural)]
pub struct PhyDeviceFlags {
    /// The raw status bits.
    pub bits: u32,
}

impl PhyDeviceFlags {
    /// The device speaks clause-45 MDIO.
    pub const IS_C45: u32 = 0x0000_0001;

    /// The PHY is internal.
    pub const IS_INTERNAL: u32 = 0x0000_0002;

    /// The link is emulated rather than managed.
    pub const IS_PSEUDO_FIXED_LINK: u32 = 0x0000_0004;

    /// The device can do gigabit speeds.
    pub const IS_GIGABIT_CAPABLE: u32 = 0x0000_0008;

    /// Fixups apply to this device.
    pub const HAS_FIXUPS: u32 = 0x0000_0010;

    /// The device is suspended.
    pub const SUSPENDED: u32 = 0x0000_0020;

    /// The device was suspended by the MDIO bus.
    pub const SUSPENDED_BY_MDIO_BUS: u32 = 0x0000_0040;

    /// Sysfs links exist for the device.
    pub const SYSFS_LINKS: u32 = 0x0000_0080;

    /// Loopback is enabled.
    pub const LOOPBACK_ENABLED: u32 = 0x0000_0100;

    /// The rate was downshifted.
    pub const DOWNSHIFTED_RATE: u32 = 0x0000_0200;

    /// The device sits on an SFP module.
    pub const IS_ON_SFP_MODULE: u32 = 0x0000_0400;

    /// Power management is MAC-managed.
    pub const MAC_MANAGED_PM: u32 = 0x0000_0800;

    /// Wake-on-LAN is enabled.
    pub const WOL_ENABLED: u32 = 0x0000_1000;

    /// Auto-negotiation is enabled.
    pub const AUTONEG: u32 = 0x0000_2000;

    /// The link is up.
    pub const LINK: u32 = 0x0000_4000;

    /// Auto-negotiation is completed.
    pub const AUTONEG_COMPLETE: u32 = 0x0000_8000;

    /// Interrupts are enabled.
    pub const INTERRUPTS: u32 = 0x0001_0000;

    /// The interrupt is suspended.
    pub const IRQ_SUSPENDED: u32 = 0x0002_0000;

    /// The interrupt handler must be rerun.
    pub const IRQ_RERUN: u32 = 0x0004_0000;

    /// No bit set.
    pub fn empty() -> (r: Self)
        ensures
            r.bits == 0,
    {
        PhyDeviceFlags { bits: 0 }
    }

    /// The flags with exactly the given bits set.
    pub fn from_bits(bits: u32) -> (r: Self)
        ensures
            r.bits == bits,
    {
        PhyDeviceFlags { bits }
    }

    /// Whether every bit of `other` is set here.
    pub fn contains(&self, other: &Self) -> (r: bool)
        ensures
            r == (self.bits & other.bits == other.bits),
    {
        self.bits & other.bits == other.bits
    }
}

/// An instance of a PHY device.
pub struct PhyDevice {
    /// The PHY's hardware id.
    pub phy_id: u32,
    /// The state of the PHY's software state machine.
    pub state: DeviceState,
    /// The device status bits.
    pub flags: PhyDeviceFlags,
    /// The negotiated speed.
    pub speed: u32,
    /// The negotiated duplex mode.
    pub duplex: DuplexMode,
}

impl PhyDevice {
    /// Creates a PHY device instance.
    pub fn new(phy_id: u32, state: DeviceState, flags: PhyDeviceFlags, speed: u32,
        duplex: DuplexMode) -> (r: Self)
        ensures
            r.phy_id == phy_id,
            r.state == state,
            r.flags == flags,
            r.speed == speed,
            r.duplex == duplex,
    {
        PhyDevice { phy_id, state, flags, speed, duplex }
    }
}

impl PhyDeviceOps for PhyDevice {
    open spec fn spec_phy_id(&self) -> u32 {
        self.phy_id
    }

    open spec fn spec_state(&self) -> DeviceState {
        self.state
    }

    open spec fn spec_flags(&self) -> u32 {
        self.flags.bits
    }

    open spec fn spec_speed(&self) -> u32 {
        self.speed
    }

    open spec fn spec_duplex(&self) -> DuplexMode {
        self.duplex
    }

    fn state(&self) -> (r: DeviceState) {
        self.state
    }

    fn phy_id(&self) -> (r: u32) {
        self.phy_id
    }

    fn set_speed(&mut self, speed: u32) {
        self.speed = speed;
    }

    fn set_duplex(&mut self, mode: DuplexMode) {
        self.duplex = mode;
    }

    fn is_link_up(&self) -> (r: bool) {
        self.flags.contains(&PhyDeviceFlags::from_bits(PhyDeviceFlags::LINK))
    }

    fn is_autoneg_enabled(&self) -> (r: bool) {
        self.flags.contains(&PhyDeviceFlags::from_bits(PhyDeviceFlags::AUTONEG))
    }

    fn is_autoneg_completed(&self) -> (r: bool) {
        self.flags.contains(&PhyDeviceFlags::from_bits(PhyDeviceFlags::AUTONEG_COMPLETE))
    }

    fn read(&mut self, _regnum: u16) -> (r: Result<u16, Error>)
        ensures
            r == Ok::<u16, Error>(0u16),
            *final(self) == *old(self),
    {
        Ok(0)
    }

    fn write(&mut self, _regnum: u16, _val: u16) -> (r: Result<(), Error>)
        ensures
            r is Ok,
            *final(self) == *old(self),
    {
        Ok(())
    }

    fn read_paged(&mut self, _page: u16, _regnum: u16) -> (r: Result<u16, Error>)
        ensures
            r == Ok::<u16, Error>(0u16),
            *final(self) == *old(self),
    {
        Ok(0)
    }

    fn resolve_aneg_linkmode(&mut self)
        ensures
            *final(self) == *old(self),
    {
    }

    fn genphy_soft_reset(&mut self) -> (r: Result<(), Error>)
        ensures
            r is Ok,
            *final(self) == *old(self),
    {
        Ok(())
    }

    fn init_hw(&mut self) -> (r: Result<(), Error>)
        ensures
            r is Ok,
            *final(self) == *old(self),
    {
        Ok(())
    }

    fn start_aneg(&mut self) -> (r: Result<(), Error>)
        ensures
            r is Ok,
            *final(self) == *old(self),
    {
        Ok(())
    }

    fn genphy_resume(&mut self) -> (r: Result<(), Error>)
        ensures
            r is Ok,
            *final(self) == *old(self),
    {
        Ok(())
    }

    fn genphy_suspend(&mut self) -> (r: Result<(), Error>)
        ensures
            r is Ok,
            *final(self) == *old(self),
    {
        Ok(())
    }

    fn genphy_read_status(&mut self) -> (r: Result<u16, Error>)
        ensures
            r == Ok::<u16, Error>(0u16),
            *final(self) == *old(self),
    {
        Ok(0)
    }

    fn genphy_update_link(&mut self) -> (r: Result<(), Error>)
        ensures
            r is Ok,
            *final(self) == *old(self),
    {
        Ok(())
    }

    fn genphy_read_lpa(&mut self) -> (r: Result<(), Error>)
        ensures
            r is Ok,
            *final(self) == *old(self),
    {
        Ok(())
    }

    fn genphy_read_abilities(&mut self) -> (r: Result<(), Error>)
        ensures
            r is Ok,
            *final(self) == *old(self),
    {
        Ok(())
    }
}

} // verus!
