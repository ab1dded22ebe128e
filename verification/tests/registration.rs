use r4l::ThisModule;
use r4l::device::DeviceOps;
use r4l::driver::DeviceRemoval;
use r4l::driver::Registration;
use r4l::error::Error;
use r4l::of::DeviceId;
use r4l::of::FwNode;
use r4l::platform::Adapter;
use r4l::platform::Driver;
use r4l::platform::PlatformBus;
use r4l::platform::PlatformDevice;
use r4l::platform::PlatformDriver;
use r4l::platform::platform_device_register;
use r4l::platform::platform_driver_register;

fn node(compat: &[&str]) -> FwNode {
    let compatible: Vec<String> = compat.iter().map(|s| s.to_string()).collect();
    FwNode::new_leaf(compatible, true)
}

struct Payload(u32);

impl DeviceRemoval for Payload {
    fn device_remove(&self) {}
}

fn abc_table() -> Vec<DeviceId> {
    vec![
        DeviceId::Compatible("vendor,a".to_string()),
        DeviceId::Compatible("vendor,b".to_string()),
        DeviceId::Compatible("vendor,c".to_string()),
    ]
}

fn foo_table() -> Vec<DeviceId> {
    vec![DeviceId::Compatible("vendor,foo".to_string())]
}

fn probe_fail_on(
    dev: &mut PlatformDevice<Payload>,
    fail_compat: &str,
) -> Result<Payload, Error> {
    if dev.compatible_match(fail_compat) {
        Err(Error::ProbeFailed)
    } else {
        Ok(Payload(1))
    }
}

/// Probes every matched device successfully.
struct OkDriver;

impl Driver for OkDriver {
    type Data = Payload;
    type IdInfo = ();

    fn id_table() -> Option<Vec<DeviceId>> {
        Some(foo_table())
    }

    fn probe(_dev: &mut PlatformDevice<Payload>, _id_info: Option<&()>) -> Result<Payload, Error> {
        Ok(Payload(7))
    }
}

/// Fails to probe the device with compatible string "vendor,a".
struct FailOnA;

impl Driver for FailOnA {
    type Data = Payload;
    type IdInfo = ();

    fn id_table() -> Option<Vec<DeviceId>> {
        Some(abc_table())
    }

    fn probe(dev: &mut PlatformDevice<Payload>, _id_info: Option<&()>) -> Result<Payload, Error> {
        probe_fail_on(dev, "vendor,a")
    }
}

/// Fails to probe the device with compatible string "vendor,b".
struct FailOnB;

impl Driver for FailOnB {
    type Data = Payload;
    type IdInfo = ();

    fn id_table() -> Option<Vec<DeviceId>> {
        Some(abc_table())
    }

    fn probe(dev: &mut PlatformDevice<Payload>, _id_info: Option<&()>) -> Result<Payload, Error> {
        probe_fail_on(dev, "vendor,b")
    }
}

/// Fails to probe the device with compatible string "vendor,c".
struct FailOnC;

impl Driver for FailOnC {
    type Data = Payload;
    type IdInfo = ();

    fn id_table() -> Option<Vec<DeviceId>> {
        Some(abc_table())
    }

    fn probe(dev: &mut PlatformDevice<Payload>, _id_info: Option<&()>) -> Result<Payload, Error> {
        probe_fail_on(dev, "vendor,c")
    }
}

/// Claims any "vendor,foo" device it is allowed to probe.
struct Eager;

impl Driver for Eager {
    type Data = Payload;
    type IdInfo = ();

    fn id_table() -> Option<Vec<DeviceId>> {
        Some(foo_table())
    }

    fn probe(_dev: &mut PlatformDevice<Payload>, _id_info: Option<&()>) -> Result<Payload, Error> {
        Ok(Payload(99))
    }
}

fn make_driver(name: &'static str, table: Vec<DeviceId>) -> PlatformDriver {
    let module: &'static ThisModule = &ThisModule();
    let mut pdrv = PlatformDriver::default();
    pdrv.init(true, true, Some(table)).unwrap();
    pdrv.driver.register(name, module).unwrap();
    pdrv
}

fn abc_bus() -> PlatformBus<Payload> {
    let mut bus = PlatformBus::new();
    platform_device_register(&mut bus, PlatformDevice::new(node(&["vendor,a"]))).unwrap();
    platform_device_register(&mut bus, PlatformDevice::new(node(&["vendor,b"]))).unwrap();
    platform_device_register(&mut bus, PlatformDevice::new(node(&["vendor,c"]))).unwrap();
    bus
}

#[test]
fn duplicate_driver_rejected_busy() {
    let mut bus: PlatformBus<Payload> = PlatformBus::new();
    let first = make_driver("samename", foo_table());
    assert!(platform_driver_register::<OkDriver>(&mut bus, first).is_ok());
    assert_eq!(bus.drivers.len(), 1);
    let second = make_driver("samename", foo_table());
    assert_eq!(platform_driver_register::<OkDriver>(&mut bus, second), Err(Error::Busy));
    assert_eq!(bus.drivers.len(), 1);
}

#[test]
fn registration_object_rejects_second_use() {
    let module: &'static ThisModule = &ThisModule();
    let mut bus: PlatformBus<Payload> = PlatformBus::new();
    let mut reg: Registration<Adapter<OkDriver>> = Registration::new();
    assert!(reg.register(&mut bus, "drv-one", module).is_ok());
    assert_eq!(reg.register(&mut bus, "drv-one", module), Err(Error::InvalidArgument));
    assert_eq!(bus.drivers.len(), 1);
}

#[test]
fn malformed_table_rejected() {
    let mut pdrv = PlatformDriver::default();
    let dup = vec![
        DeviceId::Compatible("vendor,foo".to_string()),
        DeviceId::Compatible("vendor,foo".to_string()),
    ];
    assert_eq!(pdrv.init(true, true, Some(dup)), Err(Error::InvalidArgument));
    assert!(pdrv.id_table().is_none());
}

#[test]
fn all_matched_devices_bound_on_success() {
    let mut bus = abc_bus();
    platform_device_register(&mut bus, PlatformDevice::new(node(&["vendor,other"]))).unwrap();
    let pdrv = make_driver("abc", abc_table());
    let r = platform_driver_register::<OkDriver>(&mut bus, pdrv);
    assert!(r.is_ok());
    assert!(bus.devices[0].get_drv_data().is_some());
    assert!(bus.devices[1].get_drv_data().is_some());
    assert!(bus.devices[2].get_drv_data().is_some());
    assert!(bus.devices[3].get_drv_data().is_none());
}

#[test]
fn probe_failure_on_last_binds_first_two() {
    let mut bus = abc_bus();
    let pdrv = make_driver("abc", abc_table());
    assert!(platform_driver_register::<FailOnC>(&mut bus, pdrv).is_err());
    assert!(bus.devices[0].get_drv_data().is_some());
    assert!(bus.devices[1].get_drv_data().is_some());
    assert!(bus.devices[2].get_drv_data().is_none());
}

#[test]
fn probe_failure_keeps_earlier_bindings_and_skips_later() {
    let mut bus = abc_bus();
    let pdrv = make_driver("abc", abc_table());
    let r = platform_driver_register::<FailOnB>(&mut bus, pdrv);
    assert_eq!(r, Err(Error::ProbeFailed));
    // d1 remains bound, d2 failed, d3 was never probed.
    assert!(bus.devices[0].get_drv_data().is_some());
    assert!(bus.devices[1].get_drv_data().is_none());
    assert!(bus.devices[2].get_drv_data().is_none());
    // the driver stays in the list.
    assert_eq!(bus.drivers.len(), 1);
}

#[test]
fn probe_failure_on_first_binds_nothing() {
    let mut bus = abc_bus();
    let pdrv = make_driver("abc", abc_table());
    assert!(platform_driver_register::<FailOnA>(&mut bus, pdrv).is_err());
    assert!(bus.devices[0].get_drv_data().is_none());
    assert!(bus.devices[1].get_drv_data().is_none());
    assert!(bus.devices[2].get_drv_data().is_none());
}

#[test]
fn claimed_device_not_probed_again() {
    let mut bus: PlatformBus<Payload> = PlatformBus::new();
    platform_device_register(&mut bus, PlatformDevice::new(node(&["vendor,foo"]))).unwrap();
    let first = make_driver("one", foo_table());
    assert!(platform_driver_register::<OkDriver>(&mut bus, first).is_ok());
    assert_eq!(bus.devices[0].get_drv_data().map(|p| p.0), Some(7));
    // A second driver matching the same device never probes it: the
    // device is already claimed by the first successful probe.
    let second = make_driver("two", foo_table());
    assert!(platform_driver_register::<Eager>(&mut bus, second).is_ok());
    assert_eq!(bus.devices[0].get_drv_data().map(|p| p.0), Some(7));
}

/// Carries per-entry context: entry 0 has none, entry 1 carries a code.
struct ContextDriver;

impl Driver for ContextDriver {
    type Data = Payload;
    type IdInfo = u32;

    fn id_table() -> Option<Vec<DeviceId>> {
        Some(vec![
            DeviceId::Compatible("vendor,plain".to_string()),
            DeviceId::Compatible("vendor,ctx".to_string()),
        ])
    }

    fn id_info(index: usize) -> Option<u32> {
        if index == 1 { Some(0xC0DE) } else { None }
    }

    fn probe(_dev: &mut PlatformDevice<Payload>, id_info: Option<&u32>) -> Result<Payload, Error> {
        // store the surfaced context in the payload so the test can read
        // which entry's data arrived.
        Ok(Payload(id_info.copied().unwrap_or(0)))
    }
}

#[test]
fn matched_entry_context_reaches_probe() {
    let mut bus: PlatformBus<Payload> = PlatformBus::new();
    platform_device_register(&mut bus, PlatformDevice::new(node(&["vendor,ctx"]))).unwrap();
    platform_device_register(&mut bus, PlatformDevice::new(node(&["vendor,plain"]))).unwrap();
    let pdrv = make_driver("ctx", ContextDriver::id_table().unwrap());
    assert!(platform_driver_register::<ContextDriver>(&mut bus, pdrv).is_ok());
    // the first device matches the table's second entry, which carries
    // context; the second device matches the first entry, which does not.
    assert_eq!(bus.devices[0].get_drv_data().map(|p| p.0), Some(0xC0DE));
    assert_eq!(bus.devices[1].get_drv_data().map(|p| p.0), Some(0));
}
