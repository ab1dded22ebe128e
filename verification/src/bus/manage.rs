//! The list of registered bus classes.
//!
//! Each bus class (platform, MDIO, etc.) registers one node here; the
//! list only keeps their identities, the per-class device and driver
//! lists live in each class's own registry.

use vstd::prelude::*;

use crate::str::string_eq_str;

verus! {

/// The identity of one bus class.
pub struct BusInner {
    /// The bus class's name.
    pub name: String,
    /// The default name stem its devices take.
    pub dev_name: String,
}

impl BusInner {
    /// Creates a bus identity.
    pub fn new(name: &str, dev_name: &str) -> (r: Self)
        ensures
            r.name@ == name@,
            r.dev_name@ == dev_name@,
    {
        BusInner { name: name.to_owned(), dev_name: dev_name.to_owned() }
    }
}

/// The methods a bus class may support.
#[derive(Clone, Copy, Debug, PartialEq, Eq, Structural)]
pub enum BusMethodEnum {
    /// Matching a device against a driver's identifier table.
    MATCH,
    /// Probing a matched device.
    PROBE,
}

/// What a bus class answers about the methods it supports.
pub trait BusTypeMethod {
    /// Whether the bus class supports the given method.
    fn method_support(&self, method: BusMethodEnum) -> bool;

    /// Matches registered devices against a driver's identifier table.
    fn bus_match(&self);

    /// Probes a matched device.
    fn probe(&self);
}

/// One registered bus class.
pub struct BusType {
    /// The bus class's identity.
    pub inner: BusInner,
}

impl BusType {
    /// Creates a new bus node.
    pub fn new(name: &str, dev_name: &str) -> (r: Self)
        ensures
            r.inner.name@ == name@,
            r.inner.dev_name@ == dev_name@,
    {
        BusType { inner: BusInner::new(name, dev_name) }
    }
}

/// Whether the list holds a bus with the given name.
pub open spec fn spec_bus_named(l: Seq<BusType>, name: Seq<char>) -> bool {
    exists|i: int| 0 <= i < l.len() && l[i].inner.name@ == name
}

/// The ordered list of registered bus classes.
pub struct BusList {
    /// The registered buses, in registration order.
    pub list: Vec<BusType>,
}

impl BusList {
    /// Creates an empty list.
    pub fn new() -> (r: Self)
        ensures
            r.list@ == Seq::<BusType>::empty(),
    {
        BusList { list: Vec::new() }
    }

    /// Adds a bus to the back of the list.
    pub fn add(&mut self, node: BusType)
        ensures
            final(self).list@ == old(self).list@.push(node),
    {
        self.list.push(node);
    }

    /// Removes the first bus with the given name, and hands it out.
    #[verifier::loop_isolation(false)]
    pub fn remove(&mut self, name: &str) -> (r: Option<BusType>)
        ensures
            r is Some <==> spec_bus_named(old(self).list@, name@),
            r is None ==> final(self).list@ == old(self).list@,
            r matches Some(b) ==> exists|i: int|
                {
                    &&& 0 <= i < old(self).list@.len()
                    &&& old(self).list@[i].inner.name@ == name@
                    &&& forall|j: int| 0 <= j < i ==> old(self).list@[j].inner.name@ != name@
                    &&& b == old(self).list@[i]
                    &&& final(self).list@ == old(self).list@.remove(i)
                },
    {
        let mut i: usize = 0;
        while i < self.list.len()
            invariant
                0 <= i <= self.list@.len(),
                self.list@ == old(self).list@,
                forall|j: int| 0 <= j < i ==> self.list@[j].inner.name@ != name@,
            decreases self.list@.len() - i,
        {
            if string_eq_str(&self.list[i].inner.name, name) {
                proof {
                    assert(old(self).list@[i as int].inner.name@ == name@);
                }
                let b = self.list.remove(i);
                proof {
                    assert({
                        &&& 0 <= (i as int) && (i as int) < old(self).list@.len()
                        &&& old(self).list@[i as int].inner.name@ == name@
                        &&& forall|j: int| 0 <= j < i as int ==> old(self).list@[j].inner.name@
                            != name@
                        &&& b == old(self).list@[i as int]
                        &&& self.list@ == old(self).list@.remove(i as int)
                    });
                }
                return Some(b);
            }
            i += 1;
        }
        proof {
            assert(!spec_bus_named(self.list@, name@)) by {
                if spec_bus_named(self.list@, name@) {
                    let k = choose|k: int|
                        0 <= k < self.list@.len() && self.list@[k].inner.name@ == name@;
                    assert(self.list@[k].inner.name@ != name@);
                }
            }
        }
        None
    }
}

/// Registers a bus class.
pub fn bus_register(list: &mut BusList, bus: BusType)
    ensures
        final(list).list@ == old(list).list@.push(bus),
{
    list.add(bus);
}

/// Unregisters the first bus class with the given name.
pub fn bus_unregister(list: &mut BusList, name: &str) -> (r: Option<BusType>)
    ensures
        r is Some <==> spec_bus_named(old(list).list@, name@),
        r is None ==> final(list).list@ == old(list).list@,
{
    list.remove(name)
}

} // verus!
