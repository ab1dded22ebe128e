//! The model of a firmware-description node.
//!
//! A node carries the attributes that the driver-model core reads: its
//! compatible strings, its availability, its interrupt description and its
//! children.  Whatever else a firmware description holds is irrelevant here
//! and is kept by the collaborator that builds these nodes.

use vstd::prelude::*;

verus! {

/// One node of the firmware-description tree.
pub struct FwNode {
    /// The node's compatible strings, most specific first.  An empty
    /// sequence stands for a node without a "compatible" property.
    pub compatible: Vec<String>,
    /// Whether the node's status marks it available.
    pub available: bool,
    /// The `#interrupt-cells` value of the node's interrupt parent, or
    /// `None` when the node has no interrupt parent.
    pub interrupt_parent_cells: Option<usize>,
    /// The node's flat "interrupts" property.
    pub interrupts: Vec<u32>,
    /// The node's children, in declaration order.
    pub children: Vec<FwNode>,
}

impl FwNode {
    /// The node's compatible strings as sequences of characters.
    pub open spec fn compat_view(self) -> Seq<Seq<char>> {
        self.compatible@.map_values(|s: String| s@)
    }

    /// Whether one of the node's compatible strings is `s`.
    pub open spec fn has_compatible(self, s: Seq<char>) -> bool {
        self.compat_view().contains(s)
    }

    /// Whether device population turns this node into a device: it must be
    /// available and must carry at least one compatible string.
    pub open spec fn is_device_candidate(self) -> bool {
        self.available && self.compatible@.len() > 0
    }

    /// Builds a node that has only compatible strings and availability;
    /// no interrupts, no children.
    pub fn new_leaf(compatible: Vec<String>, available: bool) -> (r: FwNode)
        ensures
            r.compatible == compatible,
            r.available == available,
            r.interrupt_parent_cells is None,
            r.interrupts@ == Seq::<u32>::empty(),
            r.children@ == Seq::<FwNode>::empty(),
    {
        FwNode {
            compatible,
            available,
            interrupt_parent_cells: None,
            interrupts: Vec::new(),
            children: Vec::new(),
        }
    }

    /// Whether one of the node's compatible strings equals `s`.
    pub fn compatible_contains(&self, s: &str) -> (r: bool)
        ensures
            r == self.has_compatible(s@),
    {
        let mut i: usize = 0;
        while i < self.compatible.len()
            invariant
                0 <= i <= self.compatible@.len(),
                forall|j: int| 0 <= j < i ==> self.compat_view()[j] != s@,
            decreases self.compatible@.len() - i,
        {
            if crate::str::string_eq_str(&self.compatible[i], s) {
                assert(self.compat_view()[i as int] == s@);
                return true;
            }
            i += 1;
        }
        assert(forall|j: int| 0 <= j < self.compat_view().len() ==> self.compat_view()[j] != s@);
        false
    }
}

} // verus!
