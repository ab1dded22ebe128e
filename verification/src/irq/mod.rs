//! Interrupt handler registration and dispatch.
//!
//! A handler registers with the interrupt registry under an interrupt
//! number, together with its context data; dispatch finds the first entry
//! for the raised number and invokes the handler on that data.  Hooking
//! the handler into the machine's interrupt controller is the embedding
//! program's edge and stays outside this registry.

use vstd::prelude::*;

use crate::error::Error;
use crate::str::CString;

verus! {

/// The return value from interrupt handlers.
#[derive(Clone, Copy, Debug, PartialEq, Eq, Structural)]
pub enum Return {
    /// The interrupt was not from this device or was not handled.
    Unhandled,
    /// The interrupt was handled by this device.
    Handled,
    /// The handler wants the handler thread to wake up.
    WakeThread,
}

/// An irq handler.
pub trait Handler {
    /// The context data associated with and made available to the
    /// handler.
    type Data;

    /// Called from interrupt context when the irq happens.
    fn handle_irq(data: &Self::Data) -> Return;
}

/// One registered handler's context: its interrupt number and data.
pub struct IrqEntry<D> {
    /// The interrupt number the entry is registered under.
    pub irq: u32,
    /// The context data handed to the handler.
    pub data: D,
}

/// The registry of handler contexts, generic over the context data type.
pub struct IrqRegistry<D> {
    /// The registered entries, in registration order.
    pub entries: Vec<IrqEntry<D>>,
}

/// The registry without any entry for the given interrupt number; what
/// unregistration leaves behind.
pub open spec fn spec_entries_without<D>(entries: Seq<IrqEntry<D>>, irq: u32) -> Seq<IrqEntry<D>>
    decreases entries.len(),
{
    if entries.len() == 0 {
        Seq::empty()
    } else {
        spec_entries_without(entries.drop_last(), irq) + if entries.last().irq == irq {
            Seq::empty()
        } else {
            seq![entries.last()]
        }
    }
}

impl<D> IrqRegistry<D> {
    /// Creates an empty registry.
    pub fn new() -> (r: Self)
        ensures
            r.entries@ == Seq::<IrqEntry<D>>::empty(),
    {
        IrqRegistry { entries: Vec::new() }
    }
}

/// The registration data the registry keeps per handler.
pub struct InternalRegistration {
    /// The interrupt number.
    pub irq: u32,
    /// The registration's name.
    pub name: CString,
}

impl InternalRegistration {
    /// Builds the registration record; hooking the handler into the
    /// interrupt controller is the embedding program's work.  The one
    /// failure is a name whose formatting fails.
    fn try_new(irq: u32, _flags: usize, name: core::fmt::Arguments<'_>) -> (r: Result<
        Self,
        Error,
    >)
        ensures
            r matches Ok(reg) ==> reg.irq == irq,
            r matches Err(e) ==> e == Error::InvalidArgument,
    {
        let name = match CString::try_from_fmt(name) {
            Ok(n) => n,
            Err(e) => {
                return Err(e);
            },
        };
        Ok(Self { irq, name })
    }
}

/// The registration of an interrupt handler.
pub struct Registration(pub InternalRegistration);

impl Registration {
    /// Registers a new irq handler: records its context data in the
    /// registry and hands back the registration object.  The one failure
    /// is a name whose formatting fails; the registry is then untouched.
    pub fn try_new<H: Handler>(
        registry: &mut IrqRegistry<H::Data>,
        irq: u32,
        data: H::Data,
        flags: usize,
        name: core::fmt::Arguments<'_>,
    ) -> (r: Result<Registration, Error>)
        ensures
            r matches Ok(reg) ==> reg.0.irq == irq && final(registry).entries@ == old(
                registry,
            ).entries@.push((IrqEntry { irq, data })),
            r matches Err(e) ==> e == Error::InvalidArgument && *final(registry) == *old(
                registry,
            ),
    {
        let inner = match InternalRegistration::try_new(irq, flags, name) {
            Ok(i) => i,
            Err(e) => {
                return Err(e);
            },
        };
        registry.entries.push(IrqEntry { irq, data });
        Ok(Registration(inner))
    }

    /// Dispatches one raised interrupt: finds the first entry registered
    /// under the number and invokes the handler on its context data; the
    /// result is the handler's verdict on that entry's data.
    pub fn handler<H: Handler>(registry: &IrqRegistry<H::Data>, irq: u32) -> (r: Return)
        requires
            exists|i: int| 0 <= i < registry.entries@.len() && registry.entries@[i].irq == irq,
        ensures
            exists|i: int|
                {
                    &&& 0 <= i < registry.entries@.len()
                    &&& registry.entries@[i].irq == irq
                    &&& (forall|j: int| 0 <= j < i ==> registry.entries@[j].irq != irq)
                    &&& #[trigger] call_ensures(H::handle_irq, (&registry.entries@[i].data,), r)
                },
    {
        let mut i: usize = 0;
        while i < registry.entries.len()
            invariant
                0 <= i <= registry.entries@.len(),
                forall|j: int| 0 <= j < i ==> registry.entries@[j].irq != irq,
                exists|j: int| 0 <= j < registry.entries@.len() && registry.entries@[j].irq
                    == irq,
            decreases registry.entries@.len() - i,
        {
            if registry.entries[i].irq == irq {
                let verdict = H::handle_irq(&registry.entries[i].data);
                proof {
                    assert(call_ensures(
                        H::handle_irq,
                        (&registry.entries@[i as int].data,),
                        verdict,
                    ));
                }
                return verdict;
            }
            i += 1;
        }
        proof {
            let w = choose|j: int|
                0 <= j < registry.entries@.len() && registry.entries@[j].irq == irq;
            assert(registry.entries@[w].irq != irq);
        }
        Return::Unhandled
    }
}

/// Drops a handler registration: removes every entry registered under its
/// interrupt number, so the handler is no longer dispatched.
#[verifier::loop_isolation(false)]
pub fn unregister<D>(registry: &mut IrqRegistry<D>, reg: Registration)
    ensures
        final(registry).entries@ == spec_entries_without(old(registry).entries@, reg.0.irq),
{
    let irq = reg.0.irq;
    let ghost entries0 = registry.entries@;
    let mut kept: Vec<IrqEntry<D>> = Vec::new();
    let mut rest: Vec<IrqEntry<D>> = Vec::new();
    core::mem::swap(&mut rest, &mut registry.entries);
    let n = rest.len();
    let mut i: usize = 0;
    proof {
        assert(entries0.len() == n as int);
        assert(kept@ =~= spec_entries_without(entries0.take(0), irq));
    }
    while rest.len() > 0
        invariant
            0 <= i <= entries0.len(),
            rest@ == entries0.skip(i as int),
            kept@ == spec_entries_without(entries0.take(i as int), irq),
        decreases rest@.len(),
    {
        let e = rest.remove(0);
        proof {
            assert(e == entries0[i as int]);
            assert(rest@ =~= entries0.skip(i as int + 1));
            lemma_without_take_step(entries0, irq, i as int);
        }
        if e.irq != irq {
            kept.push(e);
        }
        proof {
            assert(kept@ =~= spec_entries_without(entries0.take(i as int + 1), irq));
        }
        i += 1;
    }
    proof {
        assert(entries0.take(entries0.len() as int) =~= entries0);
    }
    registry.entries = kept;
}

/// Extending the processed prefix by one entry keeps it exactly when its
/// number differs.
proof fn lemma_without_take_step<D>(entries: Seq<IrqEntry<D>>, irq: u32, i: int)
    requires
        0 <= i < entries.len(),
    ensures
        spec_entries_without(entries.take(i + 1), irq) == spec_entries_without(
            entries.take(i),
            irq,
        ) + if entries[i].irq == irq {
            Seq::<IrqEntry<D>>::empty()
        } else {
            seq![entries[i]]
        },
{
    assert(entries.take(i + 1).drop_last() =~= entries.take(i));
    assert(entries.take(i + 1).last() == entries[i]);
}

} // verus!
