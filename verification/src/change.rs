//! Which frame slots must have their commands recorded again.

use vstd::prelude::*;

verus! {

/// What the pass tells the scheduler after preparing a frame slot.
#[derive(Clone, Copy, Debug, PartialEq, Eq, Structural)]
pub enum PrepareResult {
    /// The commands recorded for the slot are still valid.
    DrawReuse,
    /// The commands of the slot have to be recorded again.
    DrawRecord,
}

/// Whether preparing slot `index` asks for a new recording, given the slots
/// that are `dirty` and whether this frame `changed` the topology.
pub open spec fn record_needed(dirty: Set<usize>, index: usize, changed: bool) -> bool {
    changed || dirty.contains(index)
}

/// The dirty slots after slot `index` was prepared: a change dirties every
/// slot, and the slot just prepared is clean.
pub open spec fn dirty_after(dirty: Set<usize>, index: usize, changed: bool) -> Set<usize> {
    if changed {
        Set::<usize>::full().remove(index)
    } else {
        dirty.remove(index)
    }
}

/// Remembers, for every frame slot, whether the topology changed since the
/// slot was last prepared.
#[derive(Debug)]
pub struct ChangeDetection {
    /// Whether any change was ever reported.
    changed_once: bool,
    /// The slots prepared since the last change.
    seen: Vec<usize>,
}

impl View for ChangeDetection {
    type V = Set<usize>;

    /// The dirty slots.
    closed spec fn view(&self) -> Set<usize> {
        Set::new(|slot: usize| self.changed_once && !self.seen@.contains(slot))
    }
}

impl ChangeDetection {
    /// A fresh state: no slot is dirty.
    pub fn new() -> (fresh: ChangeDetection)
        ensures
            fresh@ == Set::<usize>::empty(),
    {
        let fresh = ChangeDetection { changed_once: false, seen: Vec::new() };
        assert(fresh@ =~= Set::<usize>::empty());
        fresh
    }

    fn has_seen(&self, index: usize) -> (found: bool)
        ensures
            found == self.seen@.contains(index),
    {
        let n: usize = self.seen.len();
        let mut i: usize = 0;
        while i < n
            invariant
                n == self.seen@.len(),
                i <= n,
                forall|j: int| 0 <= j < i ==> self.seen@[j] != index,
            decreases n - i,
        {
            if self.seen[i] == index {
                return true;
            }
            i += 1;
        }
        false
    }

    /// Notes that slot `index` is being prepared and whether the topology
    /// `changed`, and tells whether the commands of the slot can be reused.
    pub fn can_reuse(&mut self, index: usize, changed: bool) -> (reuse: bool)
        ensures
            reuse == !record_needed(old(self)@, index, changed),
            final(self)@ == dirty_after(old(self)@, index, changed),
    {
        if changed {
            self.changed_once = true;
            self.seen.clear();
        }
        let ghost kept = self.seen@;
        let reuse = !self.changed_once || self.has_seen(index);
        if !reuse {
            self.seen.push(index);
        }
        proof {
            let goal = dirty_after(old(self)@, index, changed);
            assert forall|slot: usize| self@.contains(slot) == goal.contains(slot) by {
                if !reuse {
                    assert(self.seen@ == kept.push(index));
                    assert(self.seen@[kept.len() as int] == index);
                    if kept.contains(slot) {
                        let j = choose|j: int| 0 <= j < kept.len() && kept[j] == slot;
                        assert(self.seen@[j] == slot);
                    }
                }
            }
            assert(self@ =~= goal);
        }
        reuse
    }

    /// As `can_reuse`, in the scheduler's terms.
    pub fn prepare_result(&mut self, index: usize, changed: bool) -> (result: PrepareResult)
        ensures
            result == if record_needed(old(self)@, index, changed) {
                PrepareResult::DrawRecord
            } else {
                PrepareResult::DrawReuse
            },
            final(self)@ == dirty_after(old(self)@, index, changed),
    {
        if self.can_reuse(index, changed) {
            PrepareResult::DrawReuse
        } else {
            PrepareResult::DrawRecord
        }
    }
}

impl Default for ChangeDetection {
    fn default() -> (fresh: ChangeDetection)
        ensures
            fresh@ == Set::<usize>::empty(),
    {
        ChangeDetection::new()
    }
}

/// On a fresh state a recording is asked for exactly when the topology
/// changed.
pub proof fn lemma_fresh_follows_change(index: usize, changed: bool)
    ensures
        record_needed(Set::<usize>::empty(), index, changed) == changed,
{
}

/// When a slot is prepared twice in a row, the second call asks for a
/// recording exactly when the topology changed between the two, whatever
/// the state was before and whatever the first call reported.
pub proof fn lemma_same_slot_follows_change(
    dirty: Set<usize>,
    index: usize,
    first_changed: bool,
    second_changed: bool,
)
    ensures
        record_needed(dirty_after(dirty, index, first_changed), index, second_changed)
            == second_changed,
{
}

/// While the slot is clean, a recording is asked for exactly when the
/// topology changed.
pub proof fn lemma_clean_slot_follows_change(dirty: Set<usize>, index: usize, changed: bool)
    requires
        !dirty.contains(index),
    ensures
        record_needed(dirty, index, changed) == changed,
{
}

/// A change dirties every other slot: the next call for another slot asks
/// for a recording even if nothing changed since.
pub proof fn lemma_change_reaches_other_slots(dirty: Set<usize>, index: usize, other: usize)
    requires
        other != index,
    ensures
        record_needed(dirty_after(dirty, index, true), other, false),
{
}

} // verus!
