//! Platform drivers: the driver record kept by the bus registry, the
//! driver contract its implementers supply, and the lifecycle adapter that
//! wraps an implementation into the shape the registry needs.

use vstd::prelude::*;

use crate::ThisModule;
use crate::device::DeviceOps;
use crate::driver::DeviceDriver;
use crate::driver::DeviceRemoval;
use crate::driver::DriverOps;
use crate::error::Error;
use crate::of::DeviceId;
use crate::platform::platform_bus::PlatformBus;
use crate::platform::platform_bus::first_match_index;
use crate::platform::platform_bus::platform_driver_register;
use crate::platform::platform_bus::spec_has_driver_name;
use crate::platform::platform_bus::spec_match_target;
use crate::platform::platform_bus::spec_probe_stopped;
use crate::platform::platform_bus::spec_table_of;
use crate::platform::platform_dev::PlatformDevice;
use crate::str::string_eq;

verus! {

/// Whether an identifier table is well formed: its identifiers are
/// pairwise distinct.
pub open spec fn table_wf(t: Seq<DeviceId>) -> bool {
    forall|i: int, j: int| 0 <= i < j < t.len() ==> t[i].key_view() != t[j].key_view()
}

/// The record the platform bus registry keeps for one registered driver.
///
/// A callback slot records presence only: an absent callback is recorded
/// as absent, never as a callable stub.  The callbacks themselves are
/// dispatched statically through [`Adapter`].
pub struct PlatformDriver {
    /// The common driver record.
    pub driver: DeviceDriver,
    /// Whether a probe entry point is installed.
    pub has_probe: bool,
    /// Whether a remove entry point is installed.
    pub has_remove: bool,
    /// The driver's identifier table, if it declares one.
    pub id_table: Option<Vec<DeviceId>>,
}

impl Default for PlatformDriver {
    fn default() -> (r: Self)
        ensures
            r.driver.name@ == Seq::<char>::empty(),
            r.driver.owner is None,
            !r.has_probe,
            !r.has_remove,
            r.id_table is None,
    {
        PlatformDriver {
            driver: DeviceDriver::default(),
            has_probe: false,
            has_remove: false,
            id_table: None,
        }
    }
}

impl PlatformDriver {
    /// Installs the driver's entry points and identifier table.
    ///
    /// A malformed table, one holding the same identifier twice, is
    /// rejected as an invalid argument and nothing is installed.
    pub fn init(&mut self, has_probe: bool, has_remove: bool, id_table: Option<Vec<DeviceId>>)
        -> (r: Result<(), Error>)
        ensures
            match id_table {
                Option::Some(t) => {
                    &&& (r is Ok <==> table_wf(t@))
                    &&& r is Ok ==> *final(self) == (PlatformDriver {
                        has_probe,
                        has_remove,
                        id_table: Some(t),
                        ..*old(self)
                    })
                    &&& r is Err ==> {
                        &&& r == Err::<(), Error>(Error::InvalidArgument)
                        &&& *final(self) == *old(self)
                    }
                },
                Option::None => r is Ok && *final(self) == (PlatformDriver {
                    has_probe,
                    has_remove,
                    id_table: None,
                    ..*old(self)
                }),
            },
    {
        let id_table = match id_table {
            Option::None => {
                self.has_probe = has_probe;
                self.has_remove = has_remove;
                self.id_table = None;
                return Ok(());
            },
            Option::Some(t) => t,
        };
        if !check_table_wf(&id_table) {
            return Err(Error::InvalidArgument);
        }
        self.has_probe = has_probe;
        self.has_remove = has_remove;
        self.id_table = Some(id_table);
        Ok(())
    }

    /// The subsystem hook run at driver registration; the registry itself
    /// does the work, so there is nothing left to do here.
    pub fn register(&self, _name: &'static str, _module: &'static ThisModule) -> (r: Result<
        (),
        Error,
    >)
        ensures
            r is Ok,
    {
        Ok(())
    }

    /// The subsystem hook run at driver unregistration.
    pub fn unregister(&mut self)
        ensures
            *final(self) == *old(self),
    {
    }

    /// The driver's identifier table.
    pub fn id_table(&self) -> (r: &Option<Vec<DeviceId>>)
        ensures
            r == self.id_table,
    {
        &self.id_table
    }
}

/// Whether the given table's identifiers are pairwise distinct.
fn check_table_wf(t: &Vec<DeviceId>) -> (r: bool)
    ensures
        r == table_wf(t@),
{
    let n = t.len();
    let mut i: usize = 0;
    while i < n
        invariant
            0 <= i <= n,
            n == t@.len(),
            forall|p: int, q: int| 0 <= p < q < t@.len() && p < i ==> t@[p].key_view()
                != t@[q].key_view(),
        decreases n - i,
    {
        let mut j: usize = i + 1;
        while j < n
            invariant
                0 <= i < j <= n,
                n == t@.len(),
                forall|q: int| i < q < j ==> t@[i as int].key_view() != t@[q].key_view(),
            decreases n - j,
        {
            let eq = match (&t[i], &t[j]) {
                (DeviceId::Compatible(a), DeviceId::Compatible(b)) => string_eq(a, b),
            };
            if eq {
                assert(t@[i as int].key_view() == t@[j as int].key_view());
                return false;
            }
            j += 1;
        }
        i += 1;
    }
    true
}

/// A platform driver implementation.
///
/// Implementers supply the identifier table and the lifecycle entry
/// points; the registry invokes them through [`Adapter`].  The registry
/// owns each device's private-data slot: probe computes the payload and
/// returns it, and must leave the slot of the device it receives as it
/// found it.
pub trait Driver: Sized {
    /// Data stored against a device by this driver after a successful
    /// probe.
    type Data: DeviceRemoval;

    /// The type holding information about each device id supported by the
    /// driver.
    type IdInfo;

    /// The table of device ids supported by the driver.
    fn id_table() -> Option<Vec<DeviceId>>;

    /// The context data the driver pairs with the identifier-table entry
    /// at `index`, surfaced to probe as auxiliary match data; a driver
    /// without per-entry context answers none.
    fn id_info(index: usize) -> (r: Option<Self::IdInfo>) {
        None
    }

    /// Platform driver probe.
    ///
    /// Called when a device matching the driver's table is found.
    /// Implementers should attempt to initialize the device here and
    /// return the payload to store against it.
    fn probe(dev: &mut PlatformDevice<Self::Data>, id_info: Option<&Self::IdInfo>) -> (r: Result<
        Self::Data,
        Error,
    >)
        ensures
            final(dev).device.drv_data == old(dev).device.drv_data,
    ;

    /// Platform driver remove.
    ///
    /// Called with the payload of a device being released.
    fn remove(data: &Self::Data) -> (r: Result<(), Error>) {
        Ok(())
    }
}

/// The device as releasing it from its driver leaves it: the
/// private-data slot empty, everything else untouched.
pub open spec fn spec_released<D>(dev: PlatformDevice<D>) -> PlatformDevice<D> {
    PlatformDevice {
        device: crate::device::Device { of_node: dev.device.of_node, drv_data: None },
    }
}

/// Releasing a device is idempotent: releasing an already-released device
/// changes nothing, so a second removal is a no-op rather than a second
/// invocation of the driver's teardown.
pub proof fn lemma_release_idempotent<D>(dev: PlatformDevice<D>)
    ensures
        spec_released(spec_released(dev)) == spec_released(dev),
{
}

/// An adapter for the registration of platform drivers: it wraps a
/// [`Driver`] implementation into the shape the bus registry needs.
pub struct Adapter<T: Driver>(core::marker::PhantomData<T>);

impl<T: Driver> Adapter<T> {
    /// The per-entry context for the device: the context the driver pairs
    /// with the first identifier-table entry matching the device, or none
    /// when the driver has no table, no entry matches, or the matched
    /// entry carries no context.
    pub fn get_id_info(pdev: &PlatformDevice<T::Data>) -> (r: Option<T::IdInfo>)
        ensures
            r is Some ==> exists|k: usize| #[trigger] call_ensures(T::id_info, (k,), r),
    {
        let table = match T::id_table() {
            Option::Some(t) => t,
            Option::None => {
                return None;
            },
        };
        match first_match_index(pdev, &table) {
            Option::Some(k) => T::id_info(k),
            Option::None => None,
        }
    }

    /// Probes one matched device: runs the driver's probe and, when it
    /// succeeds, fills the device's private-data slot with the returned
    /// payload.  On failure the slot is left as it was.
    pub fn probe_callback(pdev: &mut PlatformDevice<T::Data>) -> (r: Result<(), Error>)
        ensures
            r is Ok ==> final(pdev).device.drv_data is Some,
            r is Err ==> final(pdev).device.drv_data == old(pdev).device.drv_data,
    {
        let info = Self::get_id_info(pdev);
        match T::probe(pdev, info.as_ref()) {
            Ok(data) => {
                pdev.set_drv_data(data);
                Ok(())
            },
            Err(e) => Err(e),
        }
    }

    /// Releases one device from the driver: empties its private-data slot,
    /// runs the driver's remove on the payload, then the payload's own
    /// removal hook.  On a device whose slot is already empty this is a
    /// no-op: the callbacks are not invoked again.
    pub fn remove_callback(pdev: &mut PlatformDevice<T::Data>) -> (r: Result<(), Error>)
        ensures
            *final(pdev) == spec_released(*old(pdev)),
            old(pdev).device.drv_data is None ==> r is Ok && *final(pdev) == *old(pdev),
            old(pdev).device.drv_data matches Some(d) ==> call_ensures(T::remove, (&d,), r),
    {
        match pdev.take_drv_data() {
            Option::None => Ok(()),
            Option::Some(data) => {
                let ret = T::remove(&data);
                data.device_remove();
                ret
            },
        }
    }
}

impl<T: Driver> DriverOps for Adapter<T> {
    type RegType = PlatformDriver;

    type Bus = PlatformBus<T::Data>;

    fn register(
        reg: &mut PlatformDriver,
        bus: &mut PlatformBus<T::Data>,
        name: &'static str,
        module: &'static ThisModule,
    ) -> (r: Result<(), Error>)
        ensures
            final(bus).devices@.len() == old(bus).devices@.len(),
            r is Ok ==> {
                &&& final(bus).drivers@.len() == old(bus).drivers@.len() + 1
                &&& final(bus).drivers@.drop_last() == old(bus).drivers@
                &&& final(bus).drivers@.last().driver.name@ == name@
                &&& final(bus).drivers@.last().id_table is Some
                &&& final(bus).drivers@.last().has_probe
                &&& forall|j: int| 0 <= j < old(bus).devices@.len() && spec_match_target(
                    old(bus).devices@[j],
                    spec_table_of(final(bus).drivers@.last()),
                ) ==> final(bus).devices@[j].device.drv_data is Some
            },
            r is Err ==> {
                ||| (*final(bus) == *old(bus) && exists|t: Option<Vec<DeviceId>>|
                    #[trigger] call_ensures(T::id_table, (), t) && (t is None || !table_wf(
                        t->Some_0@,
                    )))
                ||| (*final(bus) == *old(bus) && spec_has_driver_name(
                    old(bus).drivers@,
                    name@,
                ))
                ||| (final(bus).drivers@ == old(bus).drivers@.push(
                    final(bus).drivers@.last(),
                ) && final(bus).drivers@.last().driver.name@ == name@ && exists|b: int|
                    spec_probe_stopped(
                        old(bus).devices@,
                        final(bus).devices@,
                        spec_table_of(final(bus).drivers@.last()),
                        b,
                    ))
            },
            spec_has_driver_name(old(bus).drivers@, name@) && (forall|t: Option<Vec<DeviceId>>|
                #[trigger] call_ensures(T::id_table, (), t) ==> (t matches Some(tv)
                    && table_wf(tv@))) ==> r == Err::<(), Error>(Error::Busy),
            (forall|t: Option<Vec<DeviceId>>| #[trigger] call_ensures(T::id_table, (), t) ==> t
                is None) ==> r == Err::<(), Error>(Error::InvalidArgument),
    {
        let table = T::id_table();
        let ghost t0 = table;
        match reg.init(true, true, table) {
            Ok(()) => (),
            Err(e) => {
                proof {
                    assert(call_ensures(T::id_table, (), t0) && (t0 is None || !table_wf(
                        t0->Some_0@,
                    )));
                }
                return Err(e);
            },
        }
        // A platform driver without an identifier table can never match a
        // device; registering one is rejected as an invalid argument.
        match reg.id_table() {
            Option::Some(_) => (),
            Option::None => {
                proof {
                    assert(call_ensures(T::id_table, (), t0) && t0 is None);
                }
                return Err(Error::InvalidArgument);
            },
        }
        match reg.driver.register(name, module) {
            Ok(()) => (),
            Err(e) => {
                return Err(e);
            },
        }
        // The registry owns the driver record from here on; the
        // registration object keeps only the default placeholder.
        let mut pdrv = PlatformDriver::default();
        core::mem::swap(&mut pdrv, reg);
        let ghost pdrv0 = pdrv;
        let r = platform_driver_register::<T>(bus, pdrv);
        proof {
            if !spec_has_driver_name(old(bus).drivers@, pdrv0.driver.name@) {
                assert(bus.drivers@.last() == pdrv0);
                assert(bus.drivers@.drop_last() =~= old(bus).drivers@);
            }
        }
        r
    }

    fn unregister(reg: &mut PlatformDriver) {
        reg.unregister();
    }
}

} // verus!
