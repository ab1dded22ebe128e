//! Interrupt lookup on firmware-description nodes.

use vstd::prelude::*;

use crate::error::Error;
use crate::of::node::FwNode;

verus! {

/// The largest number of cells one interrupt specifier may carry.
pub const MAX_PHANDLE_ARGS: usize = 32;

/// One parsed interrupt specifier: the cells read from the node's
/// "interrupts" property for one index.
pub struct OfPhandleArgs {
    /// How many cells the specifier holds.
    pub args_count: usize,
    /// The cells, in property order; exactly `args_count` of them.
    pub args: Vec<u32>,
}

/// The interrupt specifier that parsing the node's "interrupts" property at
/// `index` yields: `None` when the node has no interrupt parent or the
/// property is too short, else the `cells` consecutive entries starting at
/// `index * cells`.
pub open spec fn spec_irq_args(node: FwNode, index: int) -> Option<Seq<u32>> {
    match node.interrupt_parent_cells {
        Option::None => Option::None,
        Option::Some(cells) => {
            if index * cells + cells <= node.interrupts@.len() && cells <= MAX_PHANDLE_ARGS {
                Option::Some(node.interrupts@.subrange(index * cells, index * cells + cells))
            } else {
                Option::None
            }
        },
    }
}

impl OfPhandleArgs {
    /// Parses one interrupt specifier: resolves the node's interrupt
    /// parent's cell count, then reads that many cells from the node's
    /// "interrupts" property at position `index * cells`.  A node without
    /// an interrupt parent, a too-large cell count, or a too-short property
    /// is rejected as an invalid argument.
    pub fn of_irq_parse_one(node: &FwNode, index: usize) -> (r: Result<OfPhandleArgs, Error>)
        ensures
            match spec_irq_args(*node, index as int) {
                Option::Some(a) => r matches Ok(p) && p.args@ == a && p.args_count == a.len(),
                Option::None => r == Err::<OfPhandleArgs, Error>(Error::InvalidArgument),
            },
    {
        let cells = match node.interrupt_parent_cells {
            Option::None => {
                return Err(Error::InvalidArgument);
            },
            Option::Some(c) => c,
        };
        if cells > MAX_PHANDLE_ARGS {
            return Err(Error::InvalidArgument);
        }
        let len = node.interrupts.len();
        let base = match index.checked_mul(cells) {
            Option::None => {
                return Err(Error::InvalidArgument);
            },
            Option::Some(b) => b,
        };
        let end = match base.checked_add(cells) {
            Option::None => {
                return Err(Error::InvalidArgument);
            },
            Option::Some(e) => e,
        };
        if end > len {
            return Err(Error::InvalidArgument);
        }
        let mut args: Vec<u32> = Vec::new();
        let mut i: usize = 0;
        while i < cells
            invariant
                0 <= i <= cells,
                base == index * cells,
                end == base + cells,
                end <= node.interrupts@.len(),
                args@ == node.interrupts@.subrange(base as int, base + i),
            decreases cells - i,
        {
            args.push(node.interrupts[base + i]);
            proof {
                assert(args@ =~= node.interrupts@.subrange(base as int, base + i + 1));
            }
            i += 1;
        }
        proof {
            assert(args@ =~= spec_irq_args(*node, index as int)->Some_0);
        }
        Ok(OfPhandleArgs { args_count: cells, args })
    }
}

/// Looks the node's interrupt number up at `index`.
///
/// Only three-cell interrupt specifiers are supported; the interrupt number
/// is the specifier's second cell.
pub fn of_irq_get(node: &FwNode, index: usize) -> (r: Result<u32, Error>)
    requires
        spec_irq_args(*node, index as int) matches Some(a) ==> a.len() == 3,
    ensures
        match spec_irq_args(*node, index as int) {
            Option::Some(a) => r == Ok::<u32, Error>(a[1]),
            Option::None => r == Err::<u32, Error>(Error::InvalidArgument),
        },
{
    let oirq = match OfPhandleArgs::of_irq_parse_one(node, index) {
        Ok(p) => p,
        Err(e) => {
            return Err(e);
        },
    };
    Ok(oirq.args[1])
}

} // verus!
