//! The boot-time initialization sequencer.
//!
//! Initialization routines are grouped into ordered priority levels and
//! invoked in ascending level order, each level's routines in slot order.
//! A strictly negative return value is fatal and aborts the whole
//! sequence at once; no completed routine is rolled back.  The walk over
//! the registered routines is driven through a caller-supplied invoker, so
//! the sequencer itself needs only the number of routines per level, never
//! a routine list of its own.

use vstd::prelude::*;

use crate::error::Error;
use crate::of::FwNode;
use crate::of::spec_populated;
use crate::platform::PlatformBus;

verus! {

/// Where the sequencer stands.
#[derive(Clone, Copy, Debug, PartialEq, Eq, Structural)]
pub enum SequencerState {
    /// No routine has been invoked yet.
    NotStarted,
    /// The routine at this level and offset is the next to be invoked.
    Running(usize, usize),
    /// All levels are exhausted; every routine returned a non-negative
    /// status.
    Completed,
    /// The routine at this level and offset returned the given strictly
    /// negative status; nothing after it was invoked.
    Aborted(usize, usize, i32),
}

/// The first position at or after level `from` that holds a routine, or
/// completion when none is left.
pub open spec fn spec_first_pos(levels: Seq<usize>, from: int) -> SequencerState
    decreases levels.len() - from,
{
    if from < 0 || from >= levels.len() {
        SequencerState::Completed
    } else if levels[from] > 0 {
        SequencerState::Running(from as usize, 0)
    } else {
        spec_first_pos(levels, from + 1)
    }
}

/// The state following a successful routine at level `l`, offset `o`: the
/// next slot of the same level, or the first position of a later level.
pub open spec fn spec_advance(levels: Seq<usize>, l: int, o: int) -> SequencerState {
    if o + 1 < levels[l] {
        SequencerState::Running(l as usize, (o + 1) as usize)
    } else {
        spec_first_pos(levels, l + 1)
    }
}

/// The boot-time initialization sequencer: the per-level routine counts
/// and the position it stands at.
pub struct Sequencer {
    /// How many routines each level holds, in ascending level order.
    pub levels: Vec<usize>,
    /// Where the sequencer stands.
    pub state: SequencerState,
}

impl Sequencer {
    /// A running position always points at an existing slot.
    pub open spec fn wf(self) -> bool {
        match self.state {
            SequencerState::Running(l, o) => l < self.levels@.len() && o < self.levels@[l as int],
            _ => true,
        }
    }

    /// Creates a sequencer over the given per-level routine counts.
    pub fn new(levels: Vec<usize>) -> (r: Sequencer)
        ensures
            r.levels@ == levels@,
            r.state == SequencerState::NotStarted,
            r.wf(),
    {
        Sequencer { levels, state: SequencerState::NotStarted }
    }

    /// Moves to the first routine, or straight to completion when every
    /// level is empty.
    pub fn start(&mut self)
        requires
            old(self).state == SequencerState::NotStarted,
        ensures
            final(self).levels@ == old(self).levels@,
            final(self).state == spec_first_pos(old(self).levels@, 0),
            final(self).wf(),
    {
        self.state = first_pos(&self.levels, 0);
    }

    /// Whether the sequencer stands at a routine still to be invoked.
    pub fn is_running(&self) -> (r: bool)
        ensures
            r == (self.state matches SequencerState::Running(_, _)),
    {
        match self.state {
            SequencerState::Running(_, _) => true,
            _ => false,
        }
    }

    /// The level and offset of the routine to invoke next, if the
    /// sequencer is running.
    pub fn current(&self) -> (r: Option<(usize, usize)>)
        ensures
            match self.state {
                SequencerState::Running(l, o) => r == Some::<(usize, usize)>((l, o)),
                _ => r is None,
            },
    {
        match self.state {
            SequencerState::Running(l, o) => Some((l, o)),
            _ => None,
        }
    }

    /// Feeds the running routine's return status in: a strictly negative
    /// status aborts the sequence at the current position with that
    /// status; any other advances to the next routine or to completion.
    pub fn step(&mut self, code: i32)
        requires
            old(self).state matches SequencerState::Running(_, _),
            old(self).wf(),
        ensures
            final(self).levels@ == old(self).levels@,
            final(self).wf(),
            match old(self).state {
                SequencerState::Running(l, o) => final(self).state == if code < 0 {
                    SequencerState::Aborted(l, o, code)
                } else {
                    spec_advance(old(self).levels@, l as int, o as int)
                },
                _ => false,
            },
    {
        let (l, o) = match self.state {
            SequencerState::Running(l, o) => (l, o),
            _ => (0, 0),
        };
        if code < 0 {
            self.state = SequencerState::Aborted(l, o, code);
        } else if o + 1 < self.levels[l] {
            self.state = SequencerState::Running(l, o + 1);
        } else {
            let n = self.levels.len();
            proof {
                assert(l < n);
            }
            self.state = first_pos(&self.levels, l + 1);
        }
    }
}

/// The first position at or after level `from` that holds a routine.
fn first_pos(levels: &Vec<usize>, from: usize) -> (r: SequencerState)
    ensures
        r == spec_first_pos(levels@, from as int),
        match r {
            SequencerState::Running(l, o) => l < levels@.len() && o < levels@[l as int],
            _ => true,
        },
{
    let mut l = from;
    while l < levels.len()
        invariant
            from <= l,
            spec_first_pos(levels@, from as int) == spec_first_pos(levels@, l as int),
        decreases levels@.len() - l,
    {
        if levels[l] > 0 {
            return SequencerState::Running(l, 0);
        }
        l += 1;
    }
    SequencerState::Completed
}

/// Whether the routine at level `l`, offset `o` has a non-negative
/// possible return of the invoker `f`: witness that invoking the slot can
/// have succeeded.
pub open spec fn spec_slot_succeeded<F: Fn(usize, usize) -> i32>(f: F, l: usize, o: usize) -> bool {
    exists|c: i32| c >= 0 && #[trigger] call_ensures(f, (l, o), c)
}

/// Walks one level's routine slots in order, invoking each routine, and
/// stops at the first strictly negative status, reporting its offset and
/// status.  A normal return vouches for every slot of the level: each has
/// a witnessed non-negative return of the invoker.
#[verifier::loop_isolation(false)]
pub fn initcall<F: Fn(usize, usize) -> i32>(level: usize, count: usize, invoke: &F) -> (r: Result<
    (),
    (usize, i32),
>)
    requires
        forall|l: usize, o: usize| #[trigger] call_requires(*invoke, (l, o)),
    ensures
        r matches Err(a) ==> {
            &&& a.1 < 0
            &&& a.0 < count
            &&& call_ensures(*invoke, (level, a.0), a.1)
        },
        r is Ok ==> forall|o: usize| o < count ==> spec_slot_succeeded(*invoke, level, o),
        (forall|o: usize, c: i32| #[trigger] call_ensures(*invoke, (level, o), c) ==> c >= 0)
            ==> r is Ok,
{
    let mut o: usize = 0;
    while o < count
        invariant
            0 <= o <= count,
            forall|o2: usize| o2 < o ==> spec_slot_succeeded(*invoke, level, o2),
        decreases count - o,
    {
        let code = invoke(level, o);
        if code < 0 {
            return Err((o, code));
        }
        proof {
            assert(spec_slot_succeeded(*invoke, level, o));
        }
        o += 1;
    }
    Ok(())
}

/// Runs the registered initialization routines, in ascending level order
/// and slot order within each level, with fail-fast semantics.
///
/// `levels` gives how many routines each level holds; `invoke` runs the
/// routine at a level and offset and hands back its status.  The result is
/// the sequencer's terminal state: completion, in which case every slot of
/// every level has a witnessed non-negative return of the invoker, or the
/// position and status of the first routine that returned a strictly
/// negative status, in which case no later routine was invoked.
#[verifier::loop_isolation(false)]
pub fn module_fn_init<F: Fn(usize, usize) -> i32>(levels: Vec<usize>, invoke: &F) -> (r:
    SequencerState)
    requires
        forall|l: usize, o: usize| #[trigger] call_requires(*invoke, (l, o)),
    ensures
        r is Completed || r is Aborted,
        r matches SequencerState::Aborted(l, o, c) ==> {
            &&& c < 0
            &&& l < levels@.len()
            &&& o < levels@[l as int]
            &&& call_ensures(*invoke, (l, o), c)
        },
        r is Completed ==> forall|l: usize, o: usize|
            l < levels@.len() && o < levels@[l as int] ==> spec_slot_succeeded(*invoke, l, o),
        (forall|l: usize, o: usize, c: i32| #[trigger] call_ensures(*invoke, (l, o), c) ==> c
            >= 0) ==> r is Completed,
{
    let mut l: usize = 0;
    while l < levels.len()
        invariant
            0 <= l <= levels@.len(),
            forall|l2: usize, o: usize| l2 < l && o < levels@[l2 as int]
                ==> spec_slot_succeeded(*invoke, l2, o),
        decreases levels@.len() - l,
    {
        match initcall(l, levels[l], invoke) {
            Ok(()) => (),
            Err(a) => {
                return SequencerState::Aborted(l, a.0, a.1);
            },
        }
        l += 1;
    }
    SequencerState::Completed
}

/// Populates the platform bus from the firmware description; the
/// subsystem step of the boot sequence.
pub fn subsys_fn_init<D>(nodes: Vec<FwNode>, bus: &mut PlatformBus<D>) -> (r: Result<(), Error>)
    ensures
        r is Ok,
        final(bus).devices@ == old(bus).devices@ + spec_populated::<D>(nodes@),
        final(bus).drivers@ == old(bus).drivers@,
{
    crate::of::of_platform_default_populate_init(nodes, bus)
}

/// The boot entry point of the driver framework: populates the platform
/// bus from the firmware description, then runs the registered
/// initialization routines level by level.  On success every routine slot
/// of every level has a witnessed non-negative return of the invoker.  A
/// routine that returns a strictly negative status makes the whole
/// sequence fail as fatal; the caller is expected to halt rather than
/// continue half-initialized.
pub fn driver_framework_init<D, F: Fn(usize, usize) -> i32>(
    nodes: Vec<FwNode>,
    bus: &mut PlatformBus<D>,
    levels: Vec<usize>,
    invoke: &F,
) -> (r: Result<(), Error>)
    requires
        forall|l: usize, o: usize| #[trigger] call_requires(*invoke, (l, o)),
    ensures
        final(bus).devices@ == old(bus).devices@ + spec_populated::<D>(nodes@),
        final(bus).drivers@ == old(bus).drivers@,
        r is Ok ==> forall|l: usize, o: usize|
            l < levels@.len() && o < levels@[l as int] ==> spec_slot_succeeded(*invoke, l, o),
        (forall|l: usize, o: usize, c: i32| #[trigger] call_ensures(*invoke, (l, o), c) ==> c
            >= 0) ==> r is Ok,
        r matches Err(e) ==> e == Error::Fatal && exists|l: usize, o: usize, c: i32| c < 0
            && #[trigger] call_ensures(*invoke, (l, o), c),
{
    match subsys_fn_init(nodes, bus) {
        Ok(()) => (),
        Err(e) => {
            return Err(e);
        },
    }
    match module_fn_init(levels, invoke) {
        SequencerState::Aborted(_, _, _) => Err(Error::Fatal),
        _ => Ok(()),
    }
}

} // verus!
