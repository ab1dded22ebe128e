use r4l::driver::DeviceRemoval;
use r4l::error::Error;
use r4l::of::DeviceId;
use r4l::of::FwNode;
use r4l::of::of_platform_bus_device_create;
use r4l::of::of_platform_default_populate_init;
use r4l::init::SequencerState;
use r4l::init::driver_framework_init;
use r4l::init::subsys_fn_init;
use r4l::platform::Driver;
use r4l::platform::PlatformBus;
use r4l::platform::PlatformDevice;
use r4l::platform::platform_driver_register;
use r4l::platform::PlatformDriver;
use r4l::ThisModule;

fn leaf(compat: &[&str], available: bool) -> FwNode {
    let compatible: Vec<String> = compat.iter().map(|s| s.to_string()).collect();
    FwNode::new_leaf(compatible, available)
}

fn container(compat: &str, children: Vec<FwNode>) -> FwNode {
    FwNode {
        compatible: vec![compat.to_string()],
        available: true,
        interrupt_parent_cells: None,
        interrupts: Vec::new(),
        children,
    }
}

#[test]
fn one_child_with_compatible_becomes_one_device() {
    // A "simple-bus" container with two children, one carrying the
    // compatible string "vendor,foo" and one without any compatible
    // string: population creates exactly one device and skips the other
    // without error.
    let tree = vec![container(
        "simple-bus",
        vec![leaf(&["vendor,foo"], true), leaf(&[], true)],
    )];
    let mut bus: PlatformBus<u32> = PlatformBus::new();
    assert_eq!(of_platform_default_populate_init(tree, &mut bus), Ok(()));
    assert_eq!(bus.devices.len(), 1);
    assert!(bus.devices[0].device.compatible_match("vendor,foo"));
}

#[test]
fn unavailable_child_skipped() {
    let tree = vec![container(
        "simple-mfd",
        vec![leaf(&["vendor,foo"], false), leaf(&["vendor,bar"], true)],
    )];
    let mut bus: PlatformBus<u32> = PlatformBus::new();
    assert_eq!(of_platform_default_populate_init(tree, &mut bus), Ok(()));
    assert_eq!(bus.devices.len(), 1);
    assert!(bus.devices[0].device.compatible_match("vendor,bar"));
}

#[test]
fn non_container_nodes_contribute_nothing() {
    let tree = vec![
        leaf(&["vendor,foo"], true),
        container("vendor,private-bus", vec![leaf(&["vendor,foo"], true)]),
    ];
    let mut bus: PlatformBus<u32> = PlatformBus::new();
    assert_eq!(of_platform_default_populate_init(tree, &mut bus), Ok(()));
    assert_eq!(bus.devices.len(), 0);
}

#[test]
fn all_container_kinds_populate_in_order() {
    let tree = vec![
        container("simple-bus", vec![leaf(&["vendor,a"], true)]),
        container("simple-mfd", vec![leaf(&["vendor,b"], true)]),
        container("isa", vec![leaf(&["vendor,c"], true)]),
        container("arm,amba-bus", vec![leaf(&["vendor,d"], true)]),
    ];
    let mut bus: PlatformBus<u32> = PlatformBus::new();
    assert_eq!(of_platform_default_populate_init(tree, &mut bus), Ok(()));
    assert_eq!(bus.devices.len(), 4);
    assert!(bus.devices[0].device.compatible_match("vendor,a"));
    assert!(bus.devices[1].device.compatible_match("vendor,b"));
    assert!(bus.devices[2].device.compatible_match("vendor,c"));
    assert!(bus.devices[3].device.compatible_match("vendor,d"));
}

#[test]
fn device_create_skips_without_error() {
    let mut bus: PlatformBus<u32> = PlatformBus::new();
    assert_eq!(of_platform_bus_device_create(leaf(&[], true), &mut bus), Ok(()));
    assert_eq!(of_platform_bus_device_create(leaf(&["vendor,x"], false), &mut bus), Ok(()));
    assert_eq!(bus.devices.len(), 0);
    assert_eq!(of_platform_bus_device_create(leaf(&["vendor,x"], true), &mut bus), Ok(()));
    assert_eq!(bus.devices.len(), 1);
}

struct Payload;

impl DeviceRemoval for Payload {
    fn device_remove(&self) {}
}

struct FooDriver;

impl Driver for FooDriver {
    type Data = Payload;
    type IdInfo = ();

    fn id_table() -> Option<Vec<DeviceId>> {
        Some(vec![DeviceId::Compatible("vendor,foo".to_string())])
    }

    fn probe(_dev: &mut PlatformDevice<Payload>, _id_info: Option<&()>) -> Result<Payload, Error> {
        Ok(Payload)
    }
}

#[test]
fn boot_populates_then_runs_initcalls() {
    let tree = vec![container("simple-bus", vec![leaf(&["vendor,foo"], true)])];
    let mut bus: PlatformBus<Payload> = PlatformBus::new();
    let invoke = |_l: usize, _o: usize| -> i32 { 0 };
    assert_eq!(driver_framework_init(tree, &mut bus, vec![1, 1], &invoke), Ok(()));
    assert_eq!(bus.devices.len(), 1);
    // a driver registered after boot claims the populated device.
    let module: &'static ThisModule = &ThisModule();
    let mut pdrv = PlatformDriver::default();
    pdrv.init(true, true, FooDriver::id_table()).unwrap();
    pdrv.driver.register("foo", module).unwrap();
    assert!(platform_driver_register::<FooDriver>(&mut bus, pdrv).is_ok());
}

#[test]
fn boot_aborts_on_negative_initcall() {
    let mut bus: PlatformBus<u32> = PlatformBus::new();
    let invoke = |l: usize, _o: usize| -> i32 {
        if l == 1 {
            -22
        } else {
            0
        }
    };
    assert_eq!(
        driver_framework_init(Vec::new(), &mut bus, vec![1, 1, 1], &invoke),
        Err(Error::Fatal)
    );
    let direct = r4l::init::module_fn_init(vec![1, 1, 1], &invoke);
    assert_eq!(direct, SequencerState::Aborted(1, 0, -22));
}

#[test]
fn subsys_init_populates() {
    let tree = vec![container("isa", vec![leaf(&["vendor,z"], true)])];
    let mut bus: PlatformBus<u32> = PlatformBus::new();
    assert_eq!(subsys_fn_init(tree, &mut bus), Ok(()));
    assert_eq!(bus.devices.len(), 1);
}
