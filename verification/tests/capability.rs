use r4l::error::Error;
use r4l::net::phy::DeviceState;
use r4l::net::phy::Driver;
use r4l::net::phy::DuplexMode;
use r4l::net::phy::PhyDevice;
use r4l::net::phy::PhyDeviceFlags;
use r4l::net::phy::Registration;
use r4l::net::phy::create_phy_driver;
use r4l::ThisModule;

fn phy_dev() -> PhyDevice {
    PhyDevice::new(0x1234, DeviceState::Ready, PhyDeviceFlags::empty(), 0, DuplexMode::Unknown)
}

/// A driver that overrides nothing optional: every optional slot of its
/// dispatch record must be absent.
struct BarePhy;

impl Driver for BarePhy {
    fn name() -> String {
        "bare".to_string()
    }
}

/// A driver that overrides the soft-reset and read-status operations
/// only.
struct ResetPhy;

impl Driver for ResetPhy {
    const HAS_SOFT_RESET: bool = true;
    const HAS_READ_STATUS: bool = true;

    fn name() -> String {
        "reset".to_string()
    }

    fn soft_reset(_dev: &mut PhyDevice) -> Result<(), Error> {
        Ok(())
    }

    fn read_status(dev: &mut PhyDevice) -> Result<u16, Error> {
        Ok((dev.phy_id & 0xFFFF) as u16)
    }
}

#[test]
fn bare_driver_has_all_optional_slots_absent() {
    let vt = create_phy_driver::<BarePhy>();
    assert!(!vt.0.soft_reset);
    assert!(!vt.0.get_features);
    assert!(!vt.0.match_phy_device);
    assert!(!vt.0.config_aneg);
    assert!(!vt.0.read_status);
    assert!(!vt.0.suspend);
    assert!(!vt.0.resume);
    assert!(!vt.0.read_mmd);
    assert!(!vt.0.write_mmd);
    assert!(!vt.0.link_change_notify);
    assert_eq!(vt.0.name, "bare");
}

#[test]
fn absent_slot_invocation_rejected_unsupported() {
    let vt = create_phy_driver::<BarePhy>();
    let mut dev = phy_dev();
    assert_eq!(vt.invoke_soft_reset::<BarePhy>(&mut dev), Err(Error::Unsupported));
    assert_eq!(vt.invoke_get_features::<BarePhy>(&mut dev), Err(Error::Unsupported));
    assert_eq!(vt.invoke_config_aneg::<BarePhy>(&mut dev), Err(Error::Unsupported));
    assert_eq!(vt.invoke_read_status::<BarePhy>(&mut dev), Err(Error::Unsupported));
    assert_eq!(vt.invoke_suspend::<BarePhy>(&mut dev), Err(Error::Unsupported));
    assert_eq!(vt.invoke_resume::<BarePhy>(&mut dev), Err(Error::Unsupported));
    assert_eq!(vt.invoke_read_mmd::<BarePhy>(&mut dev, 1, 2), Err(Error::Unsupported));
    assert_eq!(vt.invoke_write_mmd::<BarePhy>(&mut dev, 1, 2, 3), Err(Error::Unsupported));
    assert!(!vt.invoke_match_phy_device::<BarePhy>(&dev));
    vt.invoke_link_change_notify::<BarePhy>(&mut dev);
}

#[test]
fn present_slot_dispatches_to_the_driver() {
    let vt = create_phy_driver::<ResetPhy>();
    assert!(vt.0.soft_reset);
    assert!(vt.0.read_status);
    assert!(!vt.0.suspend);
    let mut dev = phy_dev();
    assert_eq!(vt.invoke_soft_reset::<ResetPhy>(&mut dev), Ok(()));
    assert_eq!(vt.invoke_read_status::<ResetPhy>(&mut dev), Ok(0x1234));
    assert_eq!(vt.invoke_suspend::<ResetPhy>(&mut dev), Err(Error::Unsupported));
}

#[test]
fn empty_driver_set_rejected() {
    let module: &'static ThisModule = &ThisModule();
    assert!(Registration::register(module, Vec::new()).is_err());
    let one = vec![create_phy_driver::<BarePhy>()];
    let reg = Registration::register(module, one).unwrap();
    assert_eq!(reg.drivers.len(), 1);
}
