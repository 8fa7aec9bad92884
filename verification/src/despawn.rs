//! The despawn step: every dying enemy whose death animation is over is
//! removed from the store.

use crate::entity::Enemy;
use crate::store::{positions, EntityStore};
use vstd::prelude::*;

verus! {

/// Whether a slot holds an enemy that the despawn step removes.
pub open spec fn slot_has_died(slot: Option<Enemy>) -> bool {
    match slot {
        Some(enemy) => enemy.has_died(),
        None => false,
    }
}

/// What the despawn step does to one slot of the store.
pub open spec fn despawn_slot(slot: Option<Enemy>) -> Option<Enemy> {
    if slot_has_died(slot) {
        None
    } else {
        slot
    }
}

/// The store after the despawn step.
pub open spec fn despawn_step(slots: Seq<Option<Enemy>>) -> Seq<Option<Enemy>> {
    Seq::new(slots.len(), |id: int| despawn_slot(slots[id]))
}

/// For each handle, whether the despawn step removes its enemy.
pub open spec fn died_marks(slots: Seq<Option<Enemy>>) -> Seq<bool> {
    Seq::new(slots.len(), |id: int| slot_has_died(slots[id]))
}

/// The handles of the enemies that the despawn step removes, in increasing
/// order.
pub open spec fn dead(slots: Seq<Option<Enemy>>) -> Seq<usize> {
    positions(died_marks(slots))
}

/// Runs the despawn step over the whole store and returns the handles of the
/// enemies that it removed.
pub fn has_died(store: &mut EntityStore) -> (removed: Vec<usize>)
    ensures
        final(store)@ == despawn_step(old(store)@),
        removed@ == dead(old(store)@),
        old(store).wf() ==> final(store).wf(),
{
    let ghost before = store@;
    let ghost marks = died_marks(before);
    let mut removed: Vec<usize> = Vec::new();
    let count = store.len();
    let mut id: usize = 0;
    while id < count
        invariant
            id <= count,
            count == before.len(),
            store@.len() == before.len(),
            forall|j: int| 0 <= j < id ==> store@[j] == despawn_slot(#[trigger] before[j]),
            forall|j: int| id <= j < count ==> store@[j] == #[trigger] before[j],
            removed@ == positions(marks.take(id as int)),
            marks == died_marks(before),
            old(store).wf() ==> store.wf(),
            before == old(store)@,
        decreases count - id,
    {
        proof {
            assert(marks.take(id + 1).drop_last() == marks.take(id as int));
            assert(marks.take(id + 1).last() == marks[id as int]);
        }
        if let Some(enemy) = store.get(id) {
            if enemy.died() {
                store.remove_entity(id);
                removed.push(id);
            }
        }
        id += 1;
    }
    proof {
        assert(marks.take(count as int) == marks);
        assert(store@ =~= despawn_step(before));
    }
    removed
}

} // verus!
