use std::cell::Cell;
use std::rc::Rc;

use r4l::device::DeviceOps;
use r4l::driver::DeviceRemoval;
use r4l::error::Error;
use r4l::of::DeviceId;
use r4l::of::FwNode;
use r4l::platform::Adapter;
use r4l::platform::Driver;
use r4l::platform::PlatformDevice;

fn node(compat: &[&str]) -> FwNode {
    let compatible: Vec<String> = compat.iter().map(|s| s.to_string()).collect();
    FwNode::new_leaf(compatible, true)
}

/// A payload that counts how often its removal hook runs.
struct Counted {
    removed: Rc<Cell<u32>>,
}

impl DeviceRemoval for Counted {
    fn device_remove(&self) {
        self.removed.set(self.removed.get() + 1);
    }
}

struct CountingDriver;

impl Driver for CountingDriver {
    type Data = Counted;
    type IdInfo = ();

    fn id_table() -> Option<Vec<DeviceId>> {
        Some(vec![DeviceId::Compatible("vendor,foo".to_string())])
    }

    fn probe(
        _dev: &mut PlatformDevice<Counted>,
        _id_info: Option<&()>,
    ) -> Result<Counted, Error> {
        Err(Error::ProbeFailed)
    }

    fn remove(data: &Counted) -> Result<(), Error> {
        // count driver-side remove invocations in the same cell, shifted
        // by a large stride so both counts stay readable.
        data.removed.set(data.removed.get() + 1000);
        Ok(())
    }
}

#[test]
fn remove_clears_slot_and_runs_hooks_once() {
    let counter = Rc::new(Cell::new(0));
    let mut dev: PlatformDevice<Counted> = PlatformDevice::new(node(&["vendor,foo"]));
    dev.set_drv_data(Counted { removed: counter.clone() });
    assert!(dev.get_drv_data().is_some());
    assert_eq!(Adapter::<CountingDriver>::remove_callback(&mut dev), Ok(()));
    assert!(dev.get_drv_data().is_none());
    // driver remove ran once (+1000), the payload's removal hook once (+1).
    assert_eq!(counter.get(), 1001);
}

#[test]
fn second_remove_is_a_no_op() {
    let counter = Rc::new(Cell::new(0));
    let mut dev: PlatformDevice<Counted> = PlatformDevice::new(node(&["vendor,foo"]));
    dev.set_drv_data(Counted { removed: counter.clone() });
    assert_eq!(Adapter::<CountingDriver>::remove_callback(&mut dev), Ok(()));
    assert_eq!(counter.get(), 1001);
    // the slot is already empty: the second call neither fails nor
    // invokes any callback again.
    assert_eq!(Adapter::<CountingDriver>::remove_callback(&mut dev), Ok(()));
    assert_eq!(counter.get(), 1001);
    assert!(dev.get_drv_data().is_none());
}

#[test]
fn remove_on_never_bound_device_is_a_no_op() {
    let mut dev: PlatformDevice<Counted> = PlatformDevice::new(node(&["vendor,foo"]));
    assert_eq!(Adapter::<CountingDriver>::remove_callback(&mut dev), Ok(()));
    assert!(dev.get_drv_data().is_none());
}

#[test]
fn failed_probe_leaves_slot_empty() {
    let mut dev: PlatformDevice<Counted> = PlatformDevice::new(node(&["vendor,foo"]));
    assert_eq!(Adapter::<CountingDriver>::probe_callback(&mut dev), Err(Error::ProbeFailed));
    assert!(dev.get_drv_data().is_none());
}
