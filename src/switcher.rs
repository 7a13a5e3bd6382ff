//! Exclusive hand-off of one payload among any number of registered slots.
//!
//! A `Switcher` owns a single payload value. It starts out in a home cell that
//! belongs to no slot; `port` registers a new, empty slot and returns its two
//! handles. `Control::switch` moves the payload into its own slot, and
//! `Port::access` yields the payload only while its slot holds it.
use vstd::prelude::*;

verus! {

pub struct Switcher<T> {
    home: Option<T>,
    slots: Vec<Option<T>>,
    current: Option<usize>,
}

/// Read-side handle of one slot: delivers into the payload while it is there.
#[derive(Clone, Copy, Debug)]
pub struct Port {
    slot: usize,
}

/// Write-side handle of one slot: asks for the payload, or asks whether it has it.
#[derive(Clone, Copy, Debug)]
pub struct Control {
    slot: usize,
}

impl<T> Switcher<T> {
    /// What each registered slot currently holds.
    pub closed spec fn cells(&self) -> Seq<Option<T>> {
        self.slots@
    }

    /// The home cell, which holds the payload until the first switch.
    pub closed spec fn home_cell(&self) -> Option<T> {
        self.home
    }

    /// The slot that was switched to last, if any.
    pub closed spec fn active(&self) -> Option<nat> {
        match self.current {
            Some(i) => Some(i as nat),
            None => None,
        }
    }

    /// Number of registered slots.
    pub open spec fn num_slots(&self) -> nat {
        self.cells().len()
    }

    /// The payload lies in exactly one place: the home cell before the first
    /// switch, the active slot afterwards.
    pub open spec fn wf(&self) -> bool {
        match self.active() {
            None => {
                &&& self.home_cell() is Some
                &&& forall|i: int| 0 <= i < self.cells().len() ==> #[trigger] self.cells()[i] is None
            },
            Some(a) => {
                &&& a < self.cells().len()
                &&& self.home_cell() is None
                &&& forall|i: int|
                    0 <= i < self.cells().len() ==> (#[trigger] self.cells()[i] is Some <==> i == a)
            },
        }
    }

    /// The one payload, wherever it lies.
    pub open spec fn payload(&self) -> T {
        match self.active() {
            None => self.home_cell()->0,
            Some(a) => self.cells()[a as int]->0,
        }
    }

    /// Whether slot `i` holds the payload.
    pub open spec fn holds(&self, i: int) -> bool {
        0 <= i < self.cells().len() && self.cells()[i] is Some
    }

    /// Creates a switcher whose payload rests in the home cell; no slot is active.
    pub fn new(value: T) -> (r: Switcher<T>)
        ensures
            r.wf(),
            r.active() is None,
            r.num_slots() == 0,
            r.payload() == value,
    {
        Switcher { home: Some(value), slots: Vec::new(), current: None }
    }

    /// Number of registered slots.
    pub fn slot_count(&self) -> (r: usize)
        ensures
            r == self.num_slots(),
    {
        self.slots.len()
    }

    /// Registers a new, empty slot and returns its two handles.
    pub fn port(&mut self) -> (r: (Port, Control))
        requires
            old(self).wf(),
            old(self).num_slots() < usize::MAX,
        ensures
            final(self).wf(),
            r.0.slot() == old(self).num_slots(),
            r.1.slot() == old(self).num_slots(),
            final(self).cells() == old(self).cells().push(None),
            final(self).active() == old(self).active(),
            final(self).home_cell() == old(self).home_cell(),
            final(self).payload() == old(self).payload(),
    {
        let slot = self.slots.len();
        self.slots.push(None);
        proof {
            assert(self.cells()[slot as int] is None);
            assert forall|i: int| 0 <= i < old(self).cells().len() implies self.cells()[i]
                == old(self).cells()[i] by {}
        }
        (Port { slot }, Control { slot })
    }

    /// Removes the payload from where it lies; afterwards no cell holds it.
    fn take_payload(&mut self) -> (r: T)
        requires
            old(self).wf(),
        ensures
            r == old(self).payload(),
            final(self).home_cell() is None,
            final(self).cells().len() == old(self).cells().len(),
            forall|i: int| 0 <= i < final(self).cells().len() ==> #[trigger] final(self).cells()[i] is None,
    {
        match self.current {
            None => {
                let v = self.home.take();
                v.unwrap()
            },
            Some(a) => {
                let cell = self.slots.remove(a);
                self.slots.insert(a, None);
                proof {
                    assert forall|i: int| 0 <= i < self.cells().len() implies #[trigger] self.cells()[i] is None by {
                        if i != a {
                            assert(old(self).cells()[i] is None);
                            assert(self.cells()[i] == old(self).cells()[i]);
                        }
                    }
                }
                cell.unwrap()
            },
        }
    }
}

impl Port {
    /// Index of the slot this handle belongs to.
    pub closed spec fn slot(&self) -> nat {
        self.slot as nat
    }

    /// The payload, while this port's slot holds it; `None` otherwise, and the
    /// caller then drops what it was about to deliver.
    pub fn access<'a, T>(&self, sw: &'a mut Switcher<T>) -> (r: Option<&'a mut T>)
        requires
            old(sw).wf(),
        ensures
            r is Some <==> old(sw).active() == Some(self.slot()),
            r is Some ==> *r->0 == old(sw).payload(),
            r is Some ==> final(sw).cells() == old(sw).cells().update(
                self.slot() as int,
                Some(*final(r->0)),
            ),
            r is Some ==> final(sw).active() == old(sw).active(),
            r is Some ==> final(sw).home_cell() == old(sw).home_cell(),
            r is None ==> *final(sw) == *old(sw),
    {
        if self.slot < sw.slots.len() && sw.slots[self.slot].is_some() {
            match &mut sw.slots[self.slot] {
                Some(v) => Some(v),
                None => None,
            }
        } else {
            None
        }
    }
}

impl Control {
    /// Index of the slot this handle belongs to.
    pub closed spec fn slot(&self) -> nat {
        self.slot as nat
    }

    /// Moves the payload into this control's slot. Afterwards this control is
    /// the active one and every other is not; the payload itself is unchanged.
    pub fn switch<T>(&self, sw: &mut Switcher<T>)
        requires
            old(sw).wf(),
            self.slot() < old(sw).num_slots(),
        ensures
            final(sw).wf(),
            final(sw).active() == Some(self.slot()),
            final(sw).payload() == old(sw).payload(),
            final(sw).num_slots() == old(sw).num_slots(),
    {
        let value = sw.take_payload();
        sw.slots.remove(self.slot);
        sw.slots.insert(self.slot, Some(value));
        sw.current = Some(self.slot);
        proof {
            let a = self.slot as int;
            assert forall|i: int| 0 <= i < sw.cells().len() implies (#[trigger] sw.cells()[i] is Some
                <==> i == a) by {
                if i != a {
                    assert(sw.cells()[i] is None);
                }
            }
        }
    }

    /// Whether this control's slot is the active one; reads no payload.
    pub fn is_active<T>(&self, sw: &Switcher<T>) -> (r: bool)
        ensures
            r == control_active(sw, *self),
    {
        match sw.current {
            Some(a) => a == self.slot,
            None => false,
        }
    }
}

/// Whether `c` is the active control of `sw`, as `Control::is_active` reports.
pub open spec fn control_active<T>(sw: &Switcher<T>, c: Control) -> bool {
    sw.active() == Some(c.slot())
}

/// The cells that hold the payload: `-1` stands for the home cell, `i >= 0`
/// for slot `i`.
pub open spec fn holders<T>(sw: &Switcher<T>) -> Set<int> {
    Set::new(|i: int| (i == -1 && sw.home_cell() is Some) || sw.holds(i))
}

/// Of the controls of one switcher, at most one is active at any time.
pub proof fn lemma_at_most_one_active<T>(sw: &Switcher<T>, a: Control, b: Control)
    requires
        sw.wf(),
        control_active(sw, a),
        control_active(sw, b),
    ensures
        a.slot() == b.slot(),
{
}

/// Right after `c.switch(..)`, `c` is active and every control of another
/// slot is not.
pub proof fn lemma_switch_exclusive<T>(before: &Switcher<T>, after: &Switcher<T>, c: Control, other: Control)
    requires
        before.wf(),
        c.slot() < before.num_slots(),
        after.wf(),
        after.active() == Some(c.slot()),
        other.slot() != c.slot(),
    ensures
        control_active(after, c),
        !control_active(after, other),
{
}

/// The payload is in exactly one cell: never in two slots at once, and in a
/// slot exactly when that slot is the active one.
pub proof fn lemma_payload_in_one_place<T>(sw: &Switcher<T>, i: int, j: int)
    requires
        sw.wf(),
    ensures
        sw.holds(i) && sw.holds(j) ==> i == j,
        sw.holds(i) <==> sw.active() == Some(i as nat) && i >= 0,
        holders(sw).len() == 1,
{
    match sw.active() {
        None => {
            assert(holders(sw) =~= set![-1int]);
        },
        Some(a) => {
            assert(holders(sw) =~= set![a as int]);
        },
    }
}

} // verus!
