//! The registry of original entry points, one write-once slot per hook.

use vstd::prelude::*;

verus! {

/// One interceptable function.
#[derive(Clone, Copy, Debug, PartialEq, Eq, Structural)]
pub enum HookSlot {
    /// The native `stat` symbol.
    Stat,
    /// The native `access` symbol.
    Access,
    /// The native system-property getter.
    PropertyGet,
    /// The managed `Activity.startActivity` method.
    StartActivity,
    /// The managed `Application.onCreate` method.
    ApplicationCreate,
}

/// Number of hook slots.
pub const SLOT_COUNT: usize = 5;

impl HookSlot {
    /// Position of the slot in a registry's view.
    pub open spec fn index(self) -> int {
        match self {
            HookSlot::Stat => 0,
            HookSlot::Access => 1,
            HookSlot::PropertyGet => 2,
            HookSlot::StartActivity => 3,
            HookSlot::ApplicationCreate => 4,
        }
    }

    fn position(self) -> (r: usize)
        ensures
            r == self.index(),
            r < SLOT_COUNT,
    {
        match self {
            HookSlot::Stat => 0,
            HookSlot::Access => 1,
            HookSlot::PropertyGet => 2,
            HookSlot::StartActivity => 3,
            HookSlot::ApplicationCreate => 4,
        }
    }
}

/// The original recorded for `slot` in a registry view, where 0 stands for
/// "nothing recorded" (a null entry point).
pub open spec fn lookup(v: Seq<usize>, slot: HookSlot) -> Option<usize> {
    if v[slot.index()] == 0 {
        None
    } else {
        Some(v[slot.index()])
    }
}

/// The view after recording `ptr` for `slot`: the first non-null entry point
/// recorded for a slot is kept; a null one, or any later one, changes nothing.
pub open spec fn after_record(v: Seq<usize>, slot: HookSlot, ptr: usize) -> Seq<usize> {
    if ptr != 0 && lookup(v, slot) is None {
        v.update(slot.index(), ptr)
    } else {
        v
    }
}

/// The view of a registry in which nothing has been recorded.
pub open spec fn empty_view() -> Seq<usize> {
    Seq::new(SLOT_COUNT as nat, |i: int| 0usize)
}

/// Original entry points, indexed by [`HookSlot`].
pub struct HookRegistry {
    entries: Vec<usize>,
}

impl View for HookRegistry {
    type V = Seq<usize>;

    closed spec fn view(&self) -> Seq<usize> {
        self.entries@
    }
}

impl HookRegistry {
    /// Every slot has its entry.
    pub open spec fn wf(&self) -> bool {
        self@.len() == SLOT_COUNT
    }

    /// A registry with nothing recorded.
    pub fn new() -> (r: Self)
        ensures
            r.wf(),
            r@ == empty_view(),
    {
        let r = HookRegistry { entries: vec![0usize, 0usize, 0usize, 0usize, 0usize] };
        assert(r@ =~= empty_view());
        r
    }

    /// Records `ptr` as the original of `slot`, unless it is null or the slot
    /// already holds one. Returns whether it was stored.
    pub fn record(&mut self, slot: HookSlot, ptr: usize) -> (r: bool)
        requires
            old(self).wf(),
        ensures
            final(self).wf(),
            final(self)@ == after_record(old(self)@, slot, ptr),
            r == (ptr != 0 && lookup(old(self)@, slot) is None),
    {
        let i = slot.position();
        if ptr != 0 && self.entries[i] == 0 {
            self.entries.set(i, ptr);
            true
        } else {
            false
        }
    }

    /// The original recorded for `slot`, if any.
    pub fn resolve(&self, slot: HookSlot) -> (r: Option<usize>)
        requires
            self.wf(),
        ensures
            r == lookup(self@, slot),
    {
        let p = self.entries[slot.position()];
        if p == 0 {
            None
        } else {
            Some(p)
        }
    }
}

} // verus!
