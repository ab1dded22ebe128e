//! Device population from a firmware description: walks the known
//! bus-container nodes and registers one platform device per qualifying
//! child node.

use vstd::prelude::*;

use crate::error::Error;
use crate::of::node::FwNode;
use crate::platform::PlatformBus;
use crate::platform::PlatformDevice;
use crate::platform::platform_device_register;

verus! {

/// Whether a node is one of the default bus containers whose children are
/// populated as platform devices.
pub open spec fn spec_is_bus_container(n: FwNode) -> bool {
    ||| n.has_compatible("simple-bus"@)
    ||| n.has_compatible("simple-mfd"@)
    ||| n.has_compatible("isa"@)
    ||| n.has_compatible("arm,amba-bus"@)
}

/// The platform device a node turns into when populated.
pub open spec fn spec_device_of<D>(n: FwNode) -> PlatformDevice<D> {
    PlatformDevice { device: crate::device::Device { of_node: n, drv_data: None } }
}

/// The devices that populating the children `cs` of one bus container
/// creates: one per available child with a compatible string, in child
/// order.
pub open spec fn spec_child_devices<D>(cs: Seq<FwNode>) -> Seq<PlatformDevice<D>>
    decreases cs.len(),
{
    if cs.len() == 0 {
        Seq::empty()
    } else {
        spec_child_devices::<D>(cs.drop_last()) + if cs.last().is_device_candidate() {
            seq![spec_device_of::<D>(cs.last())]
        } else {
            Seq::empty()
        }
    }
}

/// The devices that one node contributes: its qualifying children if it is
/// a bus container, none otherwise.
pub open spec fn spec_node_devices<D>(n: FwNode) -> Seq<PlatformDevice<D>> {
    if spec_is_bus_container(n) {
        spec_child_devices::<D>(n.children@)
    } else {
        Seq::empty()
    }
}

/// The devices that populating the whole node list creates, in list and
/// child order.
pub open spec fn spec_populated<D>(nodes: Seq<FwNode>) -> Seq<PlatformDevice<D>>
    decreases nodes.len(),
{
    if nodes.len() == 0 {
        Seq::empty()
    } else {
        spec_populated::<D>(nodes.drop_last()) + spec_node_devices::<D>(nodes.last())
    }
}

/// Whether the node is one of the default bus containers.
pub fn is_default_bus_node(node: &FwNode) -> (r: bool)
    ensures
        r == spec_is_bus_container(*node),
{
    node.compatible_contains("simple-bus") || node.compatible_contains("simple-mfd")
        || node.compatible_contains("isa") || node.compatible_contains("arm,amba-bus")
}

/// Turns one child node into a platform device and registers it, when it
/// qualifies: an unavailable node is skipped, and so is a node without any
/// compatible string; neither is an error.
pub fn of_platform_bus_device_create<D>(node: FwNode, bus: &mut PlatformBus<D>) -> (r: Result<
    (),
    Error,
>)
    ensures
        r is Ok,
        node.is_device_candidate() ==> final(bus).devices@ == old(bus).devices@.push(
            spec_device_of::<D>(node),
        ),
        !node.is_device_candidate() ==> final(bus).devices@ == old(bus).devices@,
        final(bus).drivers@ == old(bus).drivers@,
{
    if !node.available {
        return Ok(());
    }
    if node.compatible.len() == 0 {
        return Ok(());
    }
    let pdev = PlatformDevice::new(node);
    platform_device_register(bus, pdev)
}

/// Populates the platform bus from a firmware description, given as the
/// description's nodes in tree order: every child of a default
/// bus-container node that is available and carries a compatible string
/// becomes one registered platform device; all other nodes are skipped
/// without error.
#[verifier::loop_isolation(false)]
pub fn of_platform_default_populate_init<D>(nodes: Vec<FwNode>, bus: &mut PlatformBus<D>) -> (r:
    Result<(), Error>)
    ensures
        r is Ok,
        final(bus).devices@ == old(bus).devices@ + spec_populated::<D>(nodes@),
        final(bus).drivers@ == old(bus).drivers@,
{
    let ghost nodes0 = nodes@;
    let mut nodes = nodes;
    let n_nodes = nodes.len();
    let mut i: usize = 0;
    proof {
        assert(nodes0.len() == n_nodes as int);
        assert(bus.devices@ =~= old(bus).devices@ + spec_populated::<D>(nodes0.take(0)));
    }
    while nodes.len() > 0
        invariant
            0 <= i <= nodes0.len(),
            nodes@ == nodes0.skip(i as int),
            bus.devices@ == old(bus).devices@ + spec_populated::<D>(nodes0.take(i as int)),
            bus.drivers@ == old(bus).drivers@,
        decreases nodes@.len(),
    {
        let node = nodes.remove(0);
        let ghost node_spec = node;
        proof {
            assert(node_spec == nodes0[i as int]);
            assert(nodes@ =~= nodes0.skip(i as int + 1));
        }
        let ghost pre = bus.devices@;
        if is_default_bus_node(&node) {
            let mut children = node.children;
            let ghost cs0 = children@;
            let n_children = children.len();
            let mut k: usize = 0;
            proof {
                assert(cs0.len() == n_children as int);
                assert(bus.devices@ =~= pre + spec_child_devices::<D>(cs0.take(0)));
            }
            while children.len() > 0
                invariant
                    0 <= k <= cs0.len(),
                    children@ == cs0.skip(k as int),
                    bus.devices@ == pre + spec_child_devices::<D>(cs0.take(k as int)),
                    bus.drivers@ == old(bus).drivers@,
                decreases children@.len(),
            {
                let child = children.remove(0);
                proof {
                    assert(child == cs0[k as int]);
                    assert(children@ =~= cs0.skip(k as int + 1));
                }
                match of_platform_bus_device_create(child, bus) {
                    Ok(()) => (),
                    Err(e) => {
                        return Err(e);
                    },
                }
                proof {
                    lemma_take_step_child::<D>(cs0, k as int);
                    assert(bus.devices@ =~= pre + spec_child_devices::<D>(
                        cs0.take(k as int + 1),
                    ));
                }
                k += 1;
            }
            proof {
                assert(cs0.take(cs0.len() as int) =~= cs0);
                assert(spec_is_bus_container(node_spec));
                assert(node_spec.children@ == cs0);
            }
        }
        proof {
            lemma_take_step_node::<D>(nodes0, i as int);
            if spec_is_bus_container(node_spec) {
                assert(bus.devices@ =~= pre + spec_node_devices::<D>(node_spec));
            } else {
                assert(spec_node_devices::<D>(node_spec) =~= Seq::empty());
                assert(bus.devices@ =~= pre + spec_node_devices::<D>(node_spec));
            }
            assert(bus.devices@ =~= old(bus).devices@ + spec_populated::<D>(
                nodes0.take(i as int + 1),
            ));
        }
        i += 1;
    }
    proof {
        assert(nodes0.take(nodes0.len() as int) =~= nodes0);
    }
    Ok(())
}

/// Extending the processed child prefix by one appends that child's
/// device, if it qualifies.
proof fn lemma_take_step_child<D>(cs: Seq<FwNode>, k: int)
    requires
        0 <= k < cs.len(),
    ensures
        spec_child_devices::<D>(cs.take(k + 1)) == spec_child_devices::<D>(cs.take(k))
            + if cs[k].is_device_candidate() {
            seq![spec_device_of::<D>(cs[k])]
        } else {
            Seq::<PlatformDevice<D>>::empty()
        },
{
    assert(cs.take(k + 1).drop_last() =~= cs.take(k));
    assert(cs.take(k + 1).last() == cs[k]);
}

/// Extending the processed node prefix by one appends that node's
/// devices.
proof fn lemma_take_step_node<D>(nodes: Seq<FwNode>, i: int)
    requires
        0 <= i < nodes.len(),
    ensures
        spec_populated::<D>(nodes.take(i + 1)) == spec_populated::<D>(nodes.take(i))
            + spec_node_devices::<D>(nodes[i]),
{
    assert(nodes.take(i + 1).drop_last() =~= nodes.take(i));
    assert(nodes.take(i + 1).last() == nodes[i]);
}

} // verus!
