//! Network PHY devices and drivers.
//!
//! A PHY driver implementation states, once per driver type, which
//! optional operations it overrides; [`create_phy_driver`] turns that
//! capability description into a dispatch record whose absent slots are
//! recorded as absent, never as callable stubs.  Invoking an absent slot
//! through the record is rejected as unsupported.

mod phy_dev;
mod phy_drv;

pub use phy_dev::PhyDevice;
pub use phy_dev::PhyDeviceFlags;
pub use phy_drv::PhyDriver;

use vstd::prelude::*;

use crate::ThisModule;
use crate::error::Error;

verus! {

/// The feature flags a PHY driver may declare.
#[derive(Clone, Copy, Debug, PartialEq, Eq, Structural)]
pub struct PhyDriverFlags {
    /// The raw flag bits.
    pub bits: u32,
}

impl PhyDriverFlags {
    /// PHY is internal.
    pub const IS_INTERNAL: u32 = 0x00000001;

    /// PHY needs to be reset after the refclk is enabled.
    pub const RST_AFTER_CLK_EN: u32 = 0x00000002;

    /// Polling is used to detect PHY status changes.
    pub const POLL_CABLE_TEST: u32 = 0x00000004;

    /// Don't suspend.
    pub const ALWAYS_CALL_SUSPEND: u32 = 0x00000008;

    /// No flag set.
    pub fn empty() -> (r: Self)
        ensures
            r.bits == 0,
    {
        PhyDriverFlags { bits: 0 }
    }

    /// The flags with exactly the given bits set.
    pub fn from_bits(bits: u32) -> (r: Self)
        ensures
            r.bits == bits,
    {
        PhyDriverFlags { bits }
    }

    /// Whether every bit of `other` is set here.
    pub fn contains(&self, other: &Self) -> (r: bool)
        ensures
            r == (self.bits & other.bits == other.bits),
    {
        self.bits & other.bits == other.bits
    }
}

/// PHY state machine states.
#[derive(Clone, Copy, Debug, PartialEq, Eq, Structural)]
pub enum DeviceState {
    /// PHY device and driver are not ready for anything.
    Down,
    /// PHY is ready to send and receive packets.
    Ready,
    /// PHY is up, but no polling or interrupts are done.
    Halted,
    /// PHY is up, but is in an error state.
    Error,
    /// PHY and attached device are ready to do work.
    Up,
    /// PHY is currently running.
    Running,
    /// PHY is up, but not currently plugged in.
    NoLink,
    /// PHY is performing a cable test.
    CableTest,
}

/// A mode of Ethernet communication.
#[derive(Clone, Copy, Debug, PartialEq, Eq, Structural)]
pub enum DuplexMode {
    /// PHY is in full-duplex mode.
    Full,
    /// PHY is in half-duplex mode.
    Half,
    /// PHY is in unknown duplex mode.
    Unknown,
}

/// The operations a PHY device offers its drivers.
pub trait PhyDeviceOps {
    /// The PHY's hardware id.
    spec fn spec_phy_id(&self) -> u32;

    /// The state of the PHY's software state machine.
    spec fn spec_state(&self) -> DeviceState;

    /// The device status bits.
    spec fn spec_flags(&self) -> u32;

    /// The negotiated speed.
    spec fn spec_speed(&self) -> u32;

    /// The negotiated duplex mode.
    spec fn spec_duplex(&self) -> DuplexMode;

    /// Gets the state of PHY state machine states.
    fn state(&self) -> (r: DeviceState)
        ensures
            r == self.spec_state(),
    ;

    /// Gets the id of the PHY.
    fn phy_id(&self) -> (r: u32)
        ensures
            r == self.spec_phy_id(),
    ;

    /// Sets the speed of the PHY.
    fn set_speed(&mut self, speed: u32)
        ensures
            final(self).spec_speed() == speed,
            final(self).spec_phy_id() == old(self).spec_phy_id(),
            final(self).spec_state() == old(self).spec_state(),
            final(self).spec_flags() == old(self).spec_flags(),
            final(self).spec_duplex() == old(self).spec_duplex(),
    ;

    /// Sets duplex mode.
    fn set_duplex(&mut self, mode: DuplexMode)
        ensures
            final(self).spec_duplex() == mode,
            final(self).spec_phy_id() == old(self).spec_phy_id(),
            final(self).spec_state() == old(self).spec_state(),
            final(self).spec_flags() == old(self).spec_flags(),
            final(self).spec_speed() == old(self).spec_speed(),
    ;

    /// Gets the current link state.
    ///
    /// It returns true if the link is up.
    fn is_link_up(&self) -> (r: bool)
        ensures
            r == (self.spec_flags() & PhyDeviceFlags::LINK == PhyDeviceFlags::LINK),
    ;

    /// Gets the current auto-negotiation configuration.
    ///
    /// It returns true if auto-negotiation is enabled.
    fn is_autoneg_enabled(&self) -> (r: bool)
        ensures
            r == (self.spec_flags() & PhyDeviceFlags::AUTONEG == PhyDeviceFlags::AUTONEG),
    ;

    /// Gets the current auto-negotiation state.
    ///
    /// It returns true if auto-negotiation is completed.
    fn is_autoneg_completed(&self) -> (r: bool)
        ensures
            r == (self.spec_flags() & PhyDeviceFlags::AUTONEG_COMPLETE
                == PhyDeviceFlags::AUTONEG_COMPLETE),
    ;

    /// Reads a given C22 PHY register.
    fn read(&mut self, regnum: u16) -> (r: Result<u16, Error>);

    /// Writes a given C22 PHY register.
    fn write(&mut self, regnum: u16, val: u16) -> (r: Result<(), Error>);

    /// Reads a paged register.
    fn read_paged(&mut self, page: u16, regnum: u16) -> (r: Result<u16, Error>);

    /// Resolves the advertisements into PHY settings.
    fn resolve_aneg_linkmode(&mut self);

    /// Executes software reset the PHY via `BMCR_RESET` bit.
    fn genphy_soft_reset(&mut self) -> (r: Result<(), Error>);

    /// Initializes the PHY.
    fn init_hw(&mut self) -> (r: Result<(), Error>);

    /// Starts auto-negotiation.
    fn start_aneg(&mut self) -> (r: Result<(), Error>);

    /// Resumes the PHY via `BMCR_PDOWN` bit.
    fn genphy_resume(&mut self) -> (r: Result<(), Error>);

    /// Suspends the PHY via `BMCR_PDOWN` bit.
    fn genphy_suspend(&mut self) -> (r: Result<(), Error>);

    /// Checks the link status and updates current link state.
    fn genphy_read_status(&mut self) -> (r: Result<u16, Error>);

    /// Updates the link status.
    fn genphy_update_link(&mut self) -> (r: Result<(), Error>);

    /// Reads link partner ability.
    fn genphy_read_lpa(&mut self) -> (r: Result<(), Error>);

    /// Reads PHY abilities.
    fn genphy_read_abilities(&mut self) -> (r: Result<(), Error>);
}

/// An instance of a PHY device, as the driver dispatch sees it.
pub type Device = PhyDevice;

/// Driver implementation for a particular PHY type.
///
/// A driver overrides the operations it implements and marks each
/// overridden operation by setting the matching `HAS_` constant to true;
/// the constants are the driver's capability description, consumed by
/// [`create_phy_driver`].  The default operation bodies are never reached
/// through a dispatch record whose capability slots are honest, since an
/// absent slot is rejected before any call.
pub trait Driver {
    /// Whether the driver overrides [`Driver::soft_reset`].
    const HAS_SOFT_RESET: bool = false;

    /// Whether the driver overrides [`Driver::get_features`].
    const HAS_GET_FEATURES: bool = false;

    /// Whether the driver overrides [`Driver::match_phy_device`].
    const HAS_MATCH_PHY_DEVICE: bool = false;

    /// Whether the driver overrides [`Driver::config_aneg`].
    const HAS_CONFIG_ANEG: bool = false;

    /// Whether the driver overrides [`Driver::read_status`].
    const HAS_READ_STATUS: bool = false;

    /// Whether the driver overrides [`Driver::suspend`].
    const HAS_SUSPEND: bool = false;

    /// Whether the driver overrides [`Driver::resume`].
    const HAS_RESUME: bool = false;

    /// Whether the driver overrides [`Driver::read_mmd`].
    const HAS_READ_MMD: bool = false;

    /// Whether the driver overrides [`Driver::write_mmd`].
    const HAS_WRITE_MMD: bool = false;

    /// Whether the driver overrides [`Driver::link_change_notify`].
    const HAS_LINK_CHANGE_NOTIFY: bool = false;

    /// The friendly name of this PHY type.
    fn name() -> String;

    /// Defines certain other features this PHY supports.
    fn flags() -> PhyDriverFlags {
        PhyDriverFlags::empty()
    }

    /// This driver only works for PHYs with IDs which match this id.
    /// The default id and mask are zero.
    fn phy_device_id() -> DeviceId {
        DeviceId::new_with_custom_mask(0, 0)
    }

    /// Issues a PHY software reset.
    fn soft_reset(_dev: &mut Device) -> (r: Result<(), Error>) {
        Err(Error::Unsupported)
    }

    /// Probes the hardware to determine what abilities it has.
    fn get_features(_dev: &mut Device) -> (r: Result<(), Error>) {
        Err(Error::Unsupported)
    }

    /// Returns true if this is a suitable driver for the given phydev.
    /// If not implemented, matching is based on [`Driver::phy_device_id`].
    fn match_phy_device(_dev: &Device) -> (r: bool) {
        false
    }

    /// Configures the advertisement and resets auto-negotiation
    /// if auto-negotiation is enabled.
    fn config_aneg(_dev: &mut Device) -> (r: Result<(), Error>) {
        Err(Error::Unsupported)
    }

    /// Determines the negotiated speed and duplex.
    fn read_status(_dev: &mut Device) -> (r: Result<u16, Error>) {
        Err(Error::Unsupported)
    }

    /// Suspends the hardware, saving state if needed.
    fn suspend(_dev: &mut Device) -> (r: Result<(), Error>) {
        Err(Error::Unsupported)
    }

    /// Resumes the hardware, restoring state if needed.
    fn resume(_dev: &mut Device) -> (r: Result<(), Error>) {
        Err(Error::Unsupported)
    }

    /// Overrides the default MMD read function for reading a MMD register.
    fn read_mmd(_dev: &mut Device, _devnum: u8, _regnum: u16) -> (r: Result<u16, Error>) {
        Err(Error::Unsupported)
    }

    /// Overrides the default MMD write function for writing a MMD
    /// register.
    fn write_mmd(_dev: &mut Device, _devnum: u8, _regnum: u16, _val: u16) -> (r: Result<
        (),
        Error,
    >) {
        Err(Error::Unsupported)
    }

    /// Callback for notification of link change.
    fn link_change_notify(_dev: &mut Device) {
    }
}

/// An adapter for the registration of a PHY driver: the statically
/// dispatched entry points a dispatch record stands for.
pub struct Adapter<T: Driver> {
    _p: core::marker::PhantomData<T>,
}

impl<T: Driver> Adapter<T> {
    /// Runs the driver's soft reset.
    pub fn soft_reset_callback(dev: &mut Device) -> (r: Result<(), Error>) {
        T::soft_reset(dev)
    }

    /// Runs the driver's feature probe.
    pub fn get_features_callback(dev: &mut Device) -> (r: Result<(), Error>) {
        T::get_features(dev)
    }

    /// Runs the driver's suspend.
    pub fn suspend_callback(phydev: &mut Device) -> (r: Result<(), Error>) {
        T::suspend(phydev)
    }

    /// Runs the driver's resume.
    pub fn resume_callback(phydev: &mut Device) -> (r: Result<(), Error>) {
        T::resume(phydev)
    }

    /// Runs the driver's auto-negotiation configuration.
    pub fn config_aneg_callback(phydev: &mut Device) -> (r: Result<(), Error>) {
        T::config_aneg(phydev)
    }

    /// Runs the driver's status read.
    pub fn read_status_callback(phydev: &mut Device) -> (r: Result<u16, Error>) {
        T::read_status(phydev)
    }

    /// Runs the driver's custom match.
    pub fn match_phy_device_callback(phydev: &Device) -> (r: bool) {
        T::match_phy_device(phydev)
    }

    /// Runs the driver's MMD register read.
    pub fn read_mmd_callback(dev: &mut Device, devnum: u8, regnum: u16) -> (r: Result<
        u16,
        Error,
    >) {
        T::read_mmd(dev, devnum, regnum)
    }

    /// Runs the driver's MMD register write.
    pub fn write_mmd_callback(dev: &mut Device, devnum: u8, regnum: u16, val: u16) -> (r: Result<
        (),
        Error,
    >) {
        T::write_mmd(dev, devnum, regnum, val)
    }

    /// Runs the driver's link-change notification.
    pub fn link_change_notify_callback(phydev: &mut Device) {
        T::link_change_notify(phydev)
    }
}

/// The dispatch record of one PHY driver.
pub struct DriverVTable(pub PhyDriver);

/// Creates a [`DriverVTable`] instance from a [`Driver`] implementation:
/// each optional slot is recorded as installed exactly when the driver
/// marks the matching operation overridden, so a driver pays nothing for
/// the operations it does not implement.
pub fn create_phy_driver<T: Driver>() -> (r: DriverVTable)
    ensures
        call_ensures(T::name, (), r.0.name),
        call_ensures(T::flags, (), r.0.flags),
        call_ensures(T::phy_device_id, (), r.0.deviceid),
        r.0.soft_reset == T::HAS_SOFT_RESET,
        r.0.get_features == T::HAS_GET_FEATURES,
        r.0.match_phy_device == T::HAS_MATCH_PHY_DEVICE,
        r.0.config_aneg == T::HAS_CONFIG_ANEG,
        r.0.read_status == T::HAS_READ_STATUS,
        r.0.suspend == T::HAS_SUSPEND,
        r.0.resume == T::HAS_RESUME,
        r.0.read_mmd == T::HAS_READ_MMD,
        r.0.write_mmd == T::HAS_WRITE_MMD,
        r.0.link_change_notify == T::HAS_LINK_CHANGE_NOTIFY,
{
    DriverVTable(
        PhyDriver {
            name: T::name(),
            flags: T::flags(),
            deviceid: T::phy_device_id(),
            soft_reset: T::HAS_SOFT_RESET,
            get_features: T::HAS_GET_FEATURES,
            match_phy_device: T::HAS_MATCH_PHY_DEVICE,
            config_aneg: T::HAS_CONFIG_ANEG,
            read_status: T::HAS_READ_STATUS,
            suspend: T::HAS_SUSPEND,
            resume: T::HAS_RESUME,
            read_mmd: T::HAS_READ_MMD,
            write_mmd: T::HAS_WRITE_MMD,
            link_change_notify: T::HAS_LINK_CHANGE_NOTIFY,
        },
    )
}

impl DriverVTable {
    /// Invokes the soft-reset slot: an absent slot is rejected as
    /// unsupported, never silently replaced by a default.
    pub fn invoke_soft_reset<T: Driver>(&self, dev: &mut Device) -> (r: Result<(), Error>)
        ensures
            !self.0.soft_reset ==> r == Err::<(), Error>(Error::Unsupported) && *final(dev)
                == *old(dev),
    {
        if self.0.soft_reset {
            Adapter::<T>::soft_reset_callback(dev)
        } else {
            Err(Error::Unsupported)
        }
    }

    /// Invokes the get-features slot; an absent slot is rejected as
    /// unsupported.
    pub fn invoke_get_features<T: Driver>(&self, dev: &mut Device) -> (r: Result<(), Error>)
        ensures
            !self.0.get_features ==> r == Err::<(), Error>(Error::Unsupported) && *final(dev)
                == *old(dev),
    {
        if self.0.get_features {
            Adapter::<T>::get_features_callback(dev)
        } else {
            Err(Error::Unsupported)
        }
    }

    /// Invokes the custom-match slot; without one, matching falls back to
    /// the driver's device id, so an absent slot answers false.
    pub fn invoke_match_phy_device<T: Driver>(&self, dev: &Device) -> (r: bool)
        ensures
            !self.0.match_phy_device ==> r == false,
    {
        if self.0.match_phy_device {
            Adapter::<T>::match_phy_device_callback(dev)
        } else {
            false
        }
    }

    /// Invokes the config-aneg slot; an absent slot is rejected as
    /// unsupported.
    pub fn invoke_config_aneg<T: Driver>(&self, dev: &mut Device) -> (r: Result<(), Error>)
        ensures
            !self.0.config_aneg ==> r == Err::<(), Error>(Error::Unsupported) && *final(dev)
                == *old(dev),
    {
        if self.0.config_aneg {
            Adapter::<T>::config_aneg_callback(dev)
        } else {
            Err(Error::Unsupported)
        }
    }

    /// Invokes the read-status slot; an absent slot is rejected as
    /// unsupported.
    pub fn invoke_read_status<T: Driver>(&self, dev: &mut Device) -> (r: Result<u16, Error>)
        ensures
            !self.0.read_status ==> r == Err::<u16, Error>(Error::Unsupported) && *final(dev)
                == *old(dev),
    {
        if self.0.read_status {
            Adapter::<T>::read_status_callback(dev)
        } else {
            Err(Error::Unsupported)
        }
    }

    /// Invokes the suspend slot; an absent slot is rejected as
    /// unsupported.
    pub fn invoke_suspend<T: Driver>(&self, dev: &mut Device) -> (r: Result<(), Error>)
        ensures
            !self.0.suspend ==> r == Err::<(), Error>(Error::Unsupported) && *final(dev) == *old(
                dev,
            ),
    {
        if self.0.suspend {
            Adapter::<T>::suspend_callback(dev)
        } else {
            Err(Error::Unsupported)
        }
    }

    /// Invokes the resume slot; an absent slot is rejected as
    /// unsupported.
    pub fn invoke_resume<T: Driver>(&self, dev: &mut Device) -> (r: Result<(), Error>)
        ensures
            !self.0.resume ==> r == Err::<(), Error>(Error::Unsupported) && *final(dev) == *old(
                dev,
            ),
    {
        if self.0.resume {
            Adapter::<T>::resume_callback(dev)
        } else {
            Err(Error::Unsupported)
        }
    }

    /// Invokes the MMD-read slot; an absent slot is rejected as
    /// unsupported.
    pub fn invoke_read_mmd<T: Driver>(&self, dev: &mut Device, devnum: u8, regnum: u16) -> (r:
        Result<u16, Error>)
        ensures
            !self.0.read_mmd ==> r == Err::<u16, Error>(Error::Unsupported) && *final(dev)
                == *old(dev),
    {
        if self.0.read_mmd {
            Adapter::<T>::read_mmd_callback(dev, devnum, regnum)
        } else {
            Err(Error::Unsupported)
        }
    }

    /// Invokes the MMD-write slot; an absent slot is rejected as
    /// unsupported.
    pub fn invoke_write_mmd<T: Driver>(&self, dev: &mut Device, devnum: u8, regnum: u16, val: u16)
        -> (r: Result<(), Error>)
        ensures
            !self.0.write_mmd ==> r == Err::<(), Error>(Error::Unsupported) && *final(dev)
                == *old(dev),
    {
        if self.0.write_mmd {
            Adapter::<T>::write_mmd_callback(dev, devnum, regnum, val)
        } else {
            Err(Error::Unsupported)
        }
    }

    /// Invokes the link-change notification slot; an absent slot does
    /// nothing at all.
    pub fn invoke_link_change_notify<T: Driver>(&self, dev: &mut Device)
        ensures
            !self.0.link_change_notify ==> *final(dev) == *old(dev),
    {
        if self.0.link_change_notify {
            Adapter::<T>::link_change_notify_callback(dev);
        }
    }
}

/// Registration structure for PHY drivers.
pub struct Registration {
    /// The registered dispatch records.
    pub drivers: Vec<DriverVTable>,
}

impl Registration {
    /// Registers a set of PHY drivers; an empty set is rejected as an
    /// invalid argument.
    pub fn register(_module: &'static ThisModule, drivers: Vec<DriverVTable>) -> (r: Result<
        Registration,
        Error,
    >)
        ensures
            drivers@.len() == 0 ==> r == Err::<Registration, Error>(Error::InvalidArgument),
            drivers@.len() > 0 ==> (r matches Ok(reg) && reg.drivers == drivers),
    {
        if drivers.is_empty() {
            return Err(Error::InvalidArgument);
        }
        Ok(Registration { drivers })
    }
}

/// An identifier for PHY devices on an MDIO/MII bus, used to find an
/// appropriate PHY driver.
pub struct DeviceId {
    /// The identifier's key.
    pub id: u32,
    /// The mask policy reducing the key to its match-relevant bits.
    pub mask: DeviceMask,
}

impl DeviceId {
    /// Creates a new instance with the exact match mask.
    pub fn new_with_exact_mask(id: u32) -> (r: Self)
        ensures
            r.id == id,
            r.mask == DeviceMask::Exact,
    {
        DeviceId { id, mask: DeviceMask::Exact }
    }

    /// Creates a new instance with the model match mask.
    pub fn new_with_model_mask(id: u32) -> (r: Self)
        ensures
            r.id == id,
            r.mask == DeviceMask::Model,
    {
        DeviceId { id, mask: DeviceMask::Model }
    }

    /// Creates a new instance with the vendor match mask.
    pub fn new_with_vendor_mask(id: u32) -> (r: Self)
        ensures
            r.id == id,
            r.mask == DeviceMask::Vendor,
    {
        DeviceId { id, mask: DeviceMask::Vendor }
    }

    /// Creates a new instance with a custom match mask.
    pub fn new_with_custom_mask(id: u32, mask: u32) -> (r: Self)
        ensures
            r.id == id,
            r.mask == DeviceMask::Custom(mask),
    {
        DeviceId { id, mask: DeviceMask::Custom(mask) }
    }

    /// Creates a new instance from a [`Driver`] implementation.
    pub fn new_with_driver<T: Driver>() -> DeviceId {
        T::phy_device_id()
    }

    /// Get a `mask` as u32.
    pub fn mask_as_int(&self) -> (r: u32)
        ensures
            r == self.mask.spec_as_int(),
    {
        self.mask.as_int()
    }

    /// Whether this identifier matches a PHY with hardware id `phy_id`:
    /// the two ids must agree on every bit the mask policy keeps.
    pub open spec fn spec_matches(self, phy_id: u32) -> bool {
        phy_id & self.mask.spec_as_int() == self.id & self.mask.spec_as_int()
    }

    /// Whether this identifier matches the given PHY hardware id under
    /// its mask policy.
    pub fn matches(&self, phy_id: u32) -> (r: bool)
        ensures
            r == self.spec_matches(phy_id),
    {
        let m = self.mask.as_int();
        phy_id & m == self.id & m
    }
}

/// The mask policies an identifier may use.
#[derive(Clone, Copy, Debug, PartialEq, Eq, Structural)]
pub enum DeviceMask {
    /// Every bit of the key matters.
    Exact,
    /// Only the model bits matter.
    Model,
    /// Only the vendor bits matter.
    Vendor,
    /// Exactly the given bits matter.
    Custom(u32),
}

/// The exact-match mask: every bit kept.
pub const MASK_EXACT: u32 = !0u32;

/// The model mask: the revision bits dropped.
pub const MASK_MODEL: u32 = !0u32 << 4;

/// The vendor mask: model and revision bits dropped.
pub const MASK_VENDOR: u32 = !0u32 << 10;

impl DeviceMask {
    /// The mask's kept bits.
    pub open spec fn spec_as_int(self) -> u32 {
        match self {
            DeviceMask::Exact => MASK_EXACT,
            DeviceMask::Model => MASK_MODEL,
            DeviceMask::Vendor => MASK_VENDOR,
            DeviceMask::Custom(mask) => mask,
        }
    }

    /// The mask's kept bits.
    pub fn as_int(&self) -> (r: u32)
        ensures
            r == self.spec_as_int(),
    {
        match self {
            DeviceMask::Exact => MASK_EXACT,
            DeviceMask::Model => MASK_MODEL,
            DeviceMask::Vendor => MASK_VENDOR,
            DeviceMask::Custom(mask) => *mask,
        }
    }
}

} // verus!
