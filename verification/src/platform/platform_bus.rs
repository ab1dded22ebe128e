//! The platform bus registry: the live lists of registered devices and
//! drivers, the matching algorithm, and the registration protocol.
//!
//! The registry is an explicitly owned value, handed to the functions that
//! work on it.  Callbacks never receive the registry itself, only the one
//! device they are invoked for, so a callback can never deadlock against
//! the registry or mutate devices other than its own.  That narrowing is
//! deliberate: a probe that needs to register further devices or drivers
//! does so through the boot harness that owns the registry, between
//! probes, not from inside one.
//!
//! The registry's fields are plain data on purpose: the contracts state
//! the invariants (unique driver names, well-formed tables) as properties
//! that the verified operations establish and preserve, not as properties
//! every value of the type carries.

use vstd::prelude::*;

use crate::error::Error;
use crate::of::DeviceId;
use crate::platform::platform_dev::PlatformDevice;
use crate::platform::platform_drv::Adapter;
use crate::platform::platform_drv::Driver;
use crate::platform::platform_drv::PlatformDriver;
use crate::str::string_eq;

verus! {

/// Whether some entry of the identifier table `t` matches the device
/// `dev`: the table drives the match, the device supplies its node's
/// compatible strings.  An empty table never matches.
pub open spec fn spec_device_matches<D>(dev: PlatformDevice<D>, t: Seq<DeviceId>) -> bool {
    exists|i: int| 0 <= i < t.len() && t[i].spec_matches(dev.device.of_node)
}

/// Whether the device at hand is a target for a newly registered driver
/// with table `t`: it must be unclaimed (its private-data slot empty) and
/// the table must match it.  A device claimed by an earlier driver is not
/// attempted again.
pub open spec fn spec_match_target<D>(dev: PlatformDevice<D>, t: Seq<DeviceId>) -> bool {
    dev.device.drv_data is None && spec_device_matches(dev, t)
}

/// Whether the driver list already holds a driver with the given name.
pub open spec fn spec_has_driver_name(drivers: Seq<PlatformDriver>, name: Seq<char>) -> bool {
    exists|i: int| 0 <= i < drivers.len() && drivers[i].driver.name@ == name
}

/// The identifier table of a driver record known to carry one.
pub open spec fn spec_table_of(pdrv: PlatformDriver) -> Seq<DeviceId> {
    pdrv.id_table->Some_0@
}

/// Whether `j` occurs among the index list `m`.
pub open spec fn spec_index_listed(m: Seq<usize>, j: int) -> bool {
    exists|k: int| 0 <= k < m.len() && m[k] as int == j
}

/// Whether `j` occurs among the first `upto` entries of the index list
/// `m`.
pub open spec fn spec_index_listed_before(m: Seq<usize>, upto: int, j: int) -> bool {
    exists|k: int| 0 <= k < upto && k < m.len() && m[k] as int == j
}

/// How the device list looks after a probe sweep that stopped at device
/// `b`: `b` was a match target of `pre` and its slot is still empty, every
/// earlier match target got its slot filled, and every later match target
/// was never touched.
pub open spec fn spec_probe_stopped<D>(
    pre: Seq<PlatformDevice<D>>,
    post: Seq<PlatformDevice<D>>,
    t: Seq<DeviceId>,
    b: int,
) -> bool {
    &&& 0 <= b < pre.len()
    &&& spec_match_target(pre[b], t)
    &&& post[b].device.drv_data is None
    &&& forall|j: int| 0 <= j < b && spec_match_target(pre[j], t) ==> post[j].device.drv_data
        is Some
    &&& forall|j: int| b < j < pre.len() && spec_match_target(pre[j], t) ==> post[j] == pre[j]
}

/// The position of the first entry of `table` that matches the device,
/// if any: first match wins, and that entry's context is the one
/// surfaced to probe.
pub fn first_match_index<D>(dev: &PlatformDevice<D>, table: &Vec<DeviceId>) -> (r: Option<usize>)
    ensures
        match r {
            Option::Some(k) => {
                &&& k < table@.len()
                &&& table@[k as int].spec_matches(dev.device.of_node)
                &&& forall|j: int| 0 <= j < k ==> !table@[j].spec_matches(dev.device.of_node)
            },
            Option::None => !spec_device_matches(*dev, table@),
        },
{
    let mut k: usize = 0;
    while k < table.len()
        invariant
            0 <= k <= table@.len(),
            forall|i: int| 0 <= i < k ==> !table@[i].spec_matches(dev.device.of_node),
        decreases table@.len() - k,
    {
        if table[k].matches_node(&dev.device.of_node) {
            return Some(k);
        }
        k += 1;
    }
    None
}

/// Whether some entry of `table` matches the device.  Entries are tried in
/// table order and the first match wins; the result is the same either
/// way.
pub fn device_match<D>(dev: &PlatformDevice<D>, table: &Vec<DeviceId>) -> (r: bool)
    ensures
        r == spec_device_matches(*dev, table@),
{
    match first_match_index(dev, table) {
        Option::Some(k) => {
            proof {
                assert(table@[k as int].spec_matches(dev.device.of_node));
            }
            true
        },
        Option::None => false,
    }
}

/// The bus registry for the platform bus class: the ordered lists of its
/// devices and drivers, generic over the driver-private data type `D` its
/// devices store.
pub struct PlatformBus<D> {
    /// The registered devices, in registration order.
    pub devices: Vec<PlatformDevice<D>>,
    /// The registered drivers, in registration order.
    pub drivers: Vec<PlatformDriver>,
}

impl<D> PlatformBus<D> {
    /// Creates an empty registry.
    pub fn new() -> (r: Self)
        ensures
            r.devices@ == Seq::<PlatformDevice<D>>::empty(),
            r.drivers@ == Seq::<PlatformDriver>::empty(),
    {
        PlatformBus { devices: Vec::new(), drivers: Vec::new() }
    }

    /// Appends a device to the device list.  Devices are not matched
    /// against already-registered drivers here: matching runs when a
    /// driver registers.
    pub fn add_device(&mut self, device: PlatformDevice<D>) -> (r: Result<(), Error>)
        ensures
            r is Ok,
            final(self).devices@ == old(self).devices@.push(device),
            final(self).drivers@ == old(self).drivers@,
    {
        self.devices.push(device);
        Ok(())
    }

    /// Appends a driver to the driver list.  A driver whose name is
    /// already taken is rejected as busy and the list is left without a
    /// duplicate entry.
    pub fn add_driver(&mut self, driver: PlatformDriver) -> (r: Result<(), Error>)
        ensures
            spec_has_driver_name(old(self).drivers@, driver.driver.name@) ==> {
                &&& r == Err::<(), Error>(Error::Busy)
                &&& *final(self) == *old(self)
            },
            !spec_has_driver_name(old(self).drivers@, driver.driver.name@) ==> {
                &&& r is Ok
                &&& final(self).drivers@ == old(self).drivers@.push(driver)
                &&& final(self).devices@ == old(self).devices@
            },
    {
        let mut i: usize = 0;
        while i < self.drivers.len()
            invariant
                0 <= i <= self.drivers@.len(),
                forall|j: int| 0 <= j < i ==> self.drivers@[j].driver.name@
                    != driver.driver.name@,
            decreases self.drivers@.len() - i,
        {
            if string_eq(&self.drivers[i].driver.name, &driver.driver.name) {
                return Err(Error::Busy);
            }
            i += 1;
        }
        self.drivers.push(driver);
        Ok(())
    }

    /// The matching sweep: the indices, in device-list order, of the
    /// unclaimed devices that the driver's identifier table matches.
    pub fn bus_driver_match(&self, pdrv: &PlatformDriver) -> (r: Vec<usize>)
        requires
            pdrv.id_table is Some,
        ensures
            forall|k: int| 0 <= k < r@.len() ==> r@[k] < self.devices@.len()
                && spec_match_target(self.devices@[r@[k] as int], spec_table_of(*pdrv)),
            forall|k1: int, k2: int| 0 <= k1 < k2 < r@.len() ==> r@[k1] < r@[k2],
            forall|j: int| 0 <= j < self.devices@.len() && spec_match_target(
                self.devices@[j],
                spec_table_of(*pdrv),
            ) ==> spec_index_listed(r@, j),
    {
        let table = match pdrv.id_table() {
            Option::Some(t) => t,
            Option::None => {
                return Vec::new();
            },
        };
        let mut matched: Vec<usize> = Vec::new();
        let mut i: usize = 0;
        while i < self.devices.len()
            invariant
                0 <= i <= self.devices@.len(),
                table@ == spec_table_of(*pdrv),
                forall|k: int| 0 <= k < matched@.len() ==> matched@[k] < i
                    && spec_match_target(self.devices@[matched@[k] as int], table@),
                forall|k1: int, k2: int| 0 <= k1 < k2 < matched@.len() ==> matched@[k1]
                    < matched@[k2],
                forall|j: int| 0 <= j < i && spec_match_target(self.devices@[j], table@)
                    ==> spec_index_listed(matched@, j),
            decreases self.devices@.len() - i,
        {
            let dev = &self.devices[i];
            let ghost m0 = matched@;
            if dev.device.get_drv_data().is_none() && device_match(dev, table) {
                matched.push(i);
                proof {
                    assert forall|j: int|
                        0 <= j < i + 1 && spec_match_target(self.devices@[j], table@)
                        implies spec_index_listed(matched@, j) by {
                        if j < i {
                            assert(spec_index_listed(m0, j));
                            let k = choose|k: int| 0 <= k < m0.len() && m0[k] as int == j;
                            assert(matched@[k] as int == j);
                        } else {
                            assert(matched@[m0.len() as int] as int == j);
                        }
                    }
                }
            } else {
                proof {
                    assert forall|j: int|
                        0 <= j < i + 1 && spec_match_target(self.devices@[j], table@)
                        implies spec_index_listed(matched@, j) by {
                        assert(j != i);
                    }
                }
            }
            i += 1;
        }
        matched
    }
}

/// Registers a device with the registry.
pub fn platform_device_register<D>(bus: &mut PlatformBus<D>, device: PlatformDevice<D>) -> (r:
    Result<(), Error>)
    ensures
        r is Ok,
        final(bus).devices@ == old(bus).devices@.push(device),
        final(bus).drivers@ == old(bus).drivers@,
{
    bus.add_device(device)
}

/// Registers a driver with the registry, as one logical transaction: the
/// driver is appended to the driver list (a name already taken is
/// rejected as busy), the unclaimed devices matching its identifier table
/// are computed in device-list order, and each matched device is probed in
/// that order.  A probe failure is propagated and stops the sweep: devices
/// probed successfully before it stay bound, later matched devices are
/// never probed, and the driver stays registered.
#[verifier::loop_isolation(false)]
pub fn platform_driver_register<T: Driver>(bus: &mut PlatformBus<T::Data>, pdrv: PlatformDriver)
    -> (r: Result<(), Error>)
    requires
        pdrv.id_table is Some,
        pdrv.has_probe,
    ensures
        spec_has_driver_name(old(bus).drivers@, pdrv.driver.name@) ==> {
            &&& r == Err::<(), Error>(Error::Busy)
            &&& *final(bus) == *old(bus)
        },
        !spec_has_driver_name(old(bus).drivers@, pdrv.driver.name@) ==> {
            &&& final(bus).drivers@ == old(bus).drivers@.push(pdrv)
            &&& final(bus).devices@.len() == old(bus).devices@.len()
            &&& forall|j: int| 0 <= j < old(bus).devices@.len() && !spec_match_target(
                old(bus).devices@[j],
                spec_table_of(pdrv),
            ) ==> final(bus).devices@[j] == old(bus).devices@[j]
            &&& (r is Ok ==> forall|j: int|
                0 <= j < old(bus).devices@.len() && spec_match_target(
                    old(bus).devices@[j],
                    spec_table_of(pdrv),
                ) ==> final(bus).devices@[j].device.drv_data is Some)
            &&& (r is Err ==> exists|b: int| spec_probe_stopped(
                old(bus).devices@,
                final(bus).devices@,
                spec_table_of(pdrv),
                b,
            ))
        },
{
    let ghost table = spec_table_of(pdrv);
    let ghost pdrv0 = pdrv;
    let ghost devs0 = old(bus).devices@;
    let matched = bus.bus_driver_match(&pdrv);
    match bus.add_driver(pdrv) {
        Ok(()) => (),
        Err(e) => {
            return Err(e);
        },
    }
    let mut idx: usize = 0;
    while idx < matched.len()
        invariant
            0 <= idx <= matched@.len(),
            !spec_has_driver_name(old(bus).drivers@, pdrv0.driver.name@),
            bus.drivers@ == old(bus).drivers@.push(pdrv0),
            bus.devices@.len() == devs0.len(),
            devs0 == old(bus).devices@,
            table == spec_table_of(pdrv0),
            forall|k: int| 0 <= k < matched@.len() ==> matched@[k] < devs0.len()
                && spec_match_target(devs0[matched@[k] as int], table),
            forall|k1: int, k2: int| 0 <= k1 < k2 < matched@.len() ==> matched@[k1]
                < matched@[k2],
            forall|j: int| 0 <= j < devs0.len() && spec_match_target(devs0[j], table)
                ==> spec_index_listed(matched@, j),
            forall|k: int| 0 <= k < idx
                ==> bus.devices@[matched@[k] as int].device.drv_data is Some,
            forall|j: int| 0 <= j < devs0.len() && !spec_index_listed_before(
                matched@,
                idx as int,
                j,
            ) ==> bus.devices@[j] == devs0[j],
        decreases matched@.len() - idx,
    {
        let di = matched[idx];
        let ghost pre = bus.devices@;
        let r = Adapter::<T>::probe_callback(&mut bus.devices[di]);
        match r {
            Ok(()) => {
                proof {
                    assert forall|j: int|
                        0 <= j < devs0.len() && !spec_index_listed_before(matched@, idx + 1, j)
                        implies bus.devices@[j] == devs0[j] by {
                        assert(!spec_index_listed_before(matched@, idx as int, j));
                        assert(j != di as int);
                    }
                    assert forall|k: int| 0 <= k < idx + 1
                        implies bus.devices@[matched@[k] as int].device.drv_data is Some by {
                        if k < idx {
                            assert(matched@[k] < matched@[idx as int]);
                            assert(pre[matched@[k] as int].device.drv_data is Some);
                        }
                    }
                }
            },
            Err(e) => {
                proof {
                    let b = di as int;
                    assert(!spec_index_listed_before(matched@, idx as int, b)) by {
                        if spec_index_listed_before(matched@, idx as int, b) {
                            let k = choose|k: int|
                                0 <= k < idx && k < matched@.len() && matched@[k] as int == b;
                            assert(matched@[k] < matched@[idx as int]);
                        }
                    }
                    assert(pre[b] == devs0[b]);
                    assert forall|j: int| 0 <= j < b && spec_match_target(devs0[j], table)
                        implies bus.devices@[j].device.drv_data is Some by {
                        assert(spec_index_listed(matched@, j));
                        let k = choose|k: int|
                            0 <= k < matched@.len() && matched@[k] as int == j;
                        if k > idx {
                            assert(matched@[idx as int] < matched@[k]);
                            assert(false);
                        }
                        assert(k < idx);
                        assert(pre[j].device.drv_data is Some);
                        assert(j != b);
                    }
                    assert forall|j: int|
                        b < j < devs0.len() && spec_match_target(devs0[j], table)
                        implies bus.devices@[j] == devs0[j] by {
                        assert(spec_index_listed(matched@, j));
                        let k = choose|k: int|
                            0 <= k < matched@.len() && matched@[k] as int == j;
                        if k < idx {
                            assert(matched@[k] < matched@[idx as int]);
                            assert(false);
                        }
                        if k == idx {
                            assert(false);
                        }
                        assert(!spec_index_listed_before(matched@, idx as int, j)) by {
                            if spec_index_listed_before(matched@, idx as int, j) {
                                let k2 = choose|k2: int|
                                    0 <= k2 < idx && k2 < matched@.len() && matched@[k2] as int
                                        == j;
                                assert(matched@[k2] < matched@[idx as int]);
                            }
                        }
                        assert(pre[j] == devs0[j]);
                        assert(j != b);
                    }
                    assert(spec_probe_stopped(devs0, bus.devices@, table, b));
                    assert forall|j: int|
                        0 <= j < devs0.len() && !spec_match_target(devs0[j], table)
                        implies bus.devices@[j] == devs0[j] by {
                        lemma_not_target_not_listed(matched@, devs0, table, j);
                        assert(pre[j] == devs0[j]);
                        assert(j != b);
                    }
                }
                return Err(e);
            },
        }
        idx += 1;
    }
    proof {
        assert forall|j: int| 0 <= j < devs0.len() && spec_match_target(devs0[j], table)
            implies bus.devices@[j].device.drv_data is Some by {
            assert(spec_index_listed(matched@, j));
            let k = choose|k: int| 0 <= k < matched@.len() && matched@[k] as int == j;
            assert(bus.devices@[matched@[k] as int].device.drv_data is Some);
        }
        assert forall|j: int| 0 <= j < devs0.len() && !spec_match_target(devs0[j], table)
            implies bus.devices@[j] == devs0[j] by {
            lemma_not_target_not_listed(matched@, devs0, table, j);
        }
    }
    Ok(())
}

/// An empty identifier table never matches any device.
pub proof fn lemma_empty_table_never_matches<D>(dev: PlatformDevice<D>)
    ensures
        !spec_device_matches(dev, Seq::<DeviceId>::empty()),
{
}

/// Once a driver is appended to the driver list, its name is taken: a
/// second registration under the same name meets the busy rejection and
/// cannot duplicate the entry.
pub proof fn lemma_registered_name_taken(drivers: Seq<PlatformDriver>, pdrv: PlatformDriver)
    ensures
        spec_has_driver_name(drivers.push(pdrv), pdrv.driver.name@),
{
    assert(drivers.push(pdrv)[drivers.len() as int] == pdrv);
}

/// An index that is not a match target is not among the matched indices,
/// so the sweep never touches it.
proof fn lemma_not_target_not_listed<D>(
    m: Seq<usize>,
    devs: Seq<PlatformDevice<D>>,
    table: Seq<DeviceId>,
    j: int,
)
    requires
        forall|k: int| 0 <= k < m.len() ==> m[k] < devs.len() && spec_match_target(
            devs[m[k] as int],
            table,
        ),
        0 <= j < devs.len(),
        !spec_match_target(devs[j], table),
    ensures
        forall|upto: int| !spec_index_listed_before(m, upto, j),
{
    assert forall|upto: int| !spec_index_listed_before(m, upto, j) by {
        if spec_index_listed_before(m, upto, j) {
            let k = choose|k: int| 0 <= k < upto && k < m.len() && m[k] as int == j;
            assert(spec_match_target(devs[m[k] as int], table));
        }
    }
}

} // verus!
