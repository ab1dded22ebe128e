//! Firmware-description device identifiers.

use vstd::prelude::*;

use crate::of::node::FwNode;

verus! {

/// A firmware-description device id.
pub enum DeviceId {
    /// A device id where only a compatible string is specified.
    Compatible(String),
}

impl DeviceId {
    /// The identifier's match-relevant key.
    pub open spec fn key_view(self) -> Seq<char> {
        match self {
            DeviceId::Compatible(s) => s@,
        }
    }

    /// Whether this identifier matches a device whose node is `node`: the
    /// entry's compatible string must be one of the node's compatible
    /// strings.
    pub open spec fn spec_matches(self, node: FwNode) -> bool {
        node.has_compatible(self.key_view())
    }

    /// Whether this identifier matches the given node.
    pub fn matches_node(&self, node: &FwNode) -> (r: bool)
        ensures
            r == self.spec_matches(*node),
    {
        match self {
            DeviceId::Compatible(s) => node.compatible_contains(s.as_str()),
        }
    }
}

impl Clone for DeviceId {
    fn clone(&self) -> (r: Self)
        ensures
            r == *self,
    {
        match self {
            DeviceId::Compatible(s) => DeviceId::Compatible(s.clone()),
        }
    }
}

} // verus!
