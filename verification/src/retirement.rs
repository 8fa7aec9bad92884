//! The retirement step: every enemy flagged for retirement starts its death
//! animation and moves on to the dying state.

use crate::entity::Enemy;
use crate::store::{phase_of, positions, EntityStore, Phase};
use vstd::prelude::*;

verus! {

/// What the retirement step does to one slot of the store.
pub open spec fn retire_slot(slot: Option<Enemy>) -> Option<Enemy> {
    match slot {
        Some(enemy) => Some(enemy.retired()),
        None => None,
    }
}

/// The store after the retirement step.
pub open spec fn retirement_step(slots: Seq<Option<Enemy>>) -> Seq<Option<Enemy>> {
    Seq::new(slots.len(), |id: int| retire_slot(slots[id]))
}

/// For each handle, whether it names an enemy marked `ShouldKill`.
pub open spec fn should_kill_marks(slots: Seq<Option<Enemy>>) -> Seq<bool> {
    Seq::new(slots.len(), |id: int| phase_of(slots, id) == Phase::ShouldKill)
}

/// The handles of the enemies marked `ShouldKill`, in increasing order.
pub open spec fn awaiting_retirement(slots: Seq<Option<Enemy>>) -> Seq<usize> {
    positions(should_kill_marks(slots))
}

/// Runs the retirement step over the whole store and returns the handles of
/// the enemies that it moved on to the dying state.
pub fn kill(store: &mut EntityStore) -> (dying: Vec<usize>)
    ensures
        final(store)@ == retirement_step(old(store)@),
        dying@ == awaiting_retirement(old(store)@),
        old(store).wf() ==> final(store).wf(),
{
    let ghost before = store@;
    let ghost marks = should_kill_marks(before);
    let mut dying: Vec<usize> = Vec::new();
    let count = store.len();
    let mut id: usize = 0;
    while id < count
        invariant
            id <= count,
            count == before.len(),
            store@.len() == before.len(),
            forall|j: int| 0 <= j < id ==> store@[j] == retire_slot(#[trigger] before[j]),
            forall|j: int| id <= j < count ==> store@[j] == #[trigger] before[j],
            dying@ == positions(marks.take(id as int)),
            marks == should_kill_marks(before),
            old(store).wf() ==> store.wf(),
            before == old(store)@,
        decreases count - id,
    {
        proof {
            assert(marks.take(id + 1).drop_last() == marks.take(id as int));
            assert(marks.take(id + 1).last() == marks[id as int]);
        }
        if store.start_dying(id) {
            dying.push(id);
        }
        id += 1;
    }
    proof {
        assert(marks.take(count as int) == marks);
        assert(store@ =~= retirement_step(before));
    }
    dying
}

} // verus!
