use r4l::bus::BusList;
use r4l::bus::BusMethodEnum;
use r4l::bus::BusType;
use r4l::bus::BusTypeMethod;
use r4l::bus::bus_register;
use r4l::bus::bus_unregister;
use r4l::device::Device;
use r4l::driver::DeviceDriver;
use r4l::driver::IdArray;
use r4l::error::Error;
use r4l::irq::Handler;
use r4l::irq::IrqEntry;
use r4l::irq::IrqRegistry;
use r4l::irq::Registration;
use r4l::irq::Return;
use r4l::irq::unregister;
use r4l::net::mdio::MDIO_DEVICE_IS_PHY;
use r4l::net::mdio::MdioDriverCommon;
use r4l::net::phy::DeviceState;
use r4l::net::phy::DuplexMode;
use r4l::net::phy::PhyDevice;
use r4l::net::phy::PhyDeviceFlags;
use r4l::net::phy::PhyDeviceOps;
use r4l::of::FwNode;
use r4l::of::OfPhandleArgs;
use r4l::of::of_irq_get;
use r4l::print::LogLevel;
use r4l::str::CString;
use r4l::irq::InternalRegistration;
use r4l::ThisModule;

fn irq_node(cells: Option<usize>, interrupts: &[u32]) -> FwNode {
    FwNode {
        compatible: vec!["vendor,foo".to_string()],
        available: true,
        interrupt_parent_cells: cells,
        interrupts: interrupts.to_vec(),
        children: Vec::new(),
    }
}

#[test]
fn drv_data_slot_lifecycle() {
    let mut dev: Device<u32> = Device::new(FwNode::new_leaf(Vec::new(), true));
    assert!(dev.get_drv_data().is_none());
    dev.set_drv_data(17);
    assert_eq!(dev.get_drv_data(), Some(&17));
    assert_eq!(dev.take_drv_data(), Some(17));
    assert!(dev.get_drv_data().is_none());
    assert_eq!(dev.take_drv_data(), None);
}

#[test]
fn irq_parse_reads_three_cells() {
    let node = irq_node(Some(3), &[0, 42, 4, 0, 77, 4]);
    let parsed = OfPhandleArgs::of_irq_parse_one(&node, 1).unwrap();
    assert_eq!(parsed.args_count, 3);
    assert_eq!(parsed.args, vec![0, 77, 4]);
    assert_eq!(of_irq_get(&node, 0), Ok(42));
    assert_eq!(of_irq_get(&node, 1), Ok(77));
}

#[test]
fn irq_parse_rejects_bad_nodes() {
    let no_parent = irq_node(None, &[0, 42, 4]);
    assert_eq!(of_irq_get(&no_parent, 0), Err(Error::InvalidArgument));
    let short = irq_node(Some(3), &[0, 42]);
    assert_eq!(of_irq_get(&short, 0), Err(Error::InvalidArgument));
    let out_of_range = irq_node(Some(3), &[0, 42, 4]);
    assert_eq!(of_irq_get(&out_of_range, 1), Err(Error::InvalidArgument));
}

#[test]
fn device_irq_resource() {
    let mut node = irq_node(Some(3), &[0, 42, 4]);
    node.compatible = vec!["vendor,foo".to_string()];
    let dev: Device<u32> = Device::new(node);
    assert_eq!(dev.irq_resource(0), Ok(42));
}

#[test]
fn id_array_holds_ids_and_infos() {
    let arr: IdArray<u32, &str, 3> = IdArray::new([10, 20, 30], [Some("a"), None, Some("c")]);
    assert_eq!(arr.count(), 3);
    assert_eq!(arr.ids, [10, 20, 30]);
    assert_eq!(arr.id_infos, [Some("a"), None, Some("c")]);
}

#[test]
fn device_driver_records_name_and_owner() {
    let module: &'static ThisModule = &ThisModule();
    let mut drv = DeviceDriver::default();
    assert_eq!(drv.name, "");
    assert!(drv.register("uart", module).is_ok());
    assert_eq!(drv.name, "uart");
    assert!(drv.owner.is_some());
}

#[test]
fn bus_list_add_and_remove() {
    let mut list = BusList::new();
    bus_register(&mut list, BusType::new("platform", "pdev"));
    bus_register(&mut list, BusType::new("mdio", "mdev"));
    assert_eq!(list.list.len(), 2);
    let removed = bus_unregister(&mut list, "platform").unwrap();
    assert_eq!(removed.inner.name, "platform");
    assert_eq!(removed.inner.dev_name, "pdev");
    assert_eq!(list.list.len(), 1);
    assert!(bus_unregister(&mut list, "platform").is_none());
    assert_eq!(list.list.len(), 1);
}

/// A bus kind that supports matching but not probing.
struct MatchOnlyBus;

impl BusTypeMethod for MatchOnlyBus {
    fn method_support(&self, method: BusMethodEnum) -> bool {
        matches!(method, BusMethodEnum::MATCH)
    }

    fn bus_match(&self) {}

    fn probe(&self) {}
}

#[test]
fn bus_method_support() {
    let b = MatchOnlyBus;
    assert!(b.method_support(BusMethodEnum::MATCH));
    assert!(!b.method_support(BusMethodEnum::PROBE));
    b.bus_match();
}

#[test]
fn log_levels_are_distinct() {
    assert_eq!(LogLevel::Info, LogLevel::Info);
    assert_ne!(LogLevel::Info, LogLevel::Warn);
    assert_eq!(format!("{:?}", LogLevel::Emerge), "Emerge");
}

struct EchoHandler;

impl Handler for EchoHandler {
    type Data = u32;

    fn handle_irq(data: &u32) -> Return {
        if *data == 0 {
            Return::Unhandled
        } else {
            Return::Handled
        }
    }
}

#[test]
fn irq_dispatch_finds_first_entry() {
    let mut registry: IrqRegistry<u32> = IrqRegistry::new();
    registry.entries.push(IrqEntry { irq: 5, data: 0 });
    registry.entries.push(IrqEntry { irq: 9, data: 3 });
    assert_eq!(Registration::handler::<EchoHandler>(&registry, 5), Return::Unhandled);
    assert_eq!(Registration::handler::<EchoHandler>(&registry, 9), Return::Handled);
}

#[test]
fn irq_unregister_drops_matching_entries() {
    let mut registry: IrqRegistry<u32> = IrqRegistry::new();
    registry.entries.push(IrqEntry { irq: 5, data: 1 });
    registry.entries.push(IrqEntry { irq: 9, data: 2 });
    registry.entries.push(IrqEntry { irq: 5, data: 3 });
    let reg = Registration(InternalRegistration {
        irq: 5,
        name: CString { inner: "dev-5".to_string() },
    });
    unregister(&mut registry, reg);
    assert_eq!(registry.entries.len(), 1);
    assert_eq!(registry.entries[0].irq, 9);
    assert_eq!(registry.entries[0].data, 2);
}

#[test]
fn phy_device_accessors() {
    let flags = PhyDeviceFlags::from_bits(PhyDeviceFlags::LINK | PhyDeviceFlags::AUTONEG);
    let mut dev = PhyDevice::new(0xABCD_1234, DeviceState::Running, flags, 100, DuplexMode::Half);
    assert_eq!(dev.phy_id(), 0xABCD_1234);
    assert_eq!(dev.state(), DeviceState::Running);
    assert!(dev.is_link_up());
    assert!(dev.is_autoneg_enabled());
    assert!(!dev.is_autoneg_completed());
    dev.set_speed(1000);
    dev.set_duplex(DuplexMode::Full);
    assert_eq!(dev.speed, 1000);
    assert!(matches!(dev.duplex, DuplexMode::Full));
    assert_eq!(dev.read(0).unwrap(), 0);
    assert!(dev.genphy_soft_reset().is_ok());
}

#[test]
fn mdio_driver_record() {
    let common = MdioDriverCommon::new(MDIO_DEVICE_IS_PHY, DeviceDriver::default());
    assert_eq!(common.flags, 0x80000000);
    assert_eq!(common.device_driver.name, "");
}
