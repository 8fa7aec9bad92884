//! One frame of the enemy population: the spawn step, the retirement step
//! and the despawn step, always in this order.

use crate::despawn::{dead, despawn_step, has_died};
use crate::entity::Enemy;
use crate::manager::{spawn_step, update, EnemyManager, ManagerView, SpawnOutcome};
use crate::retirement::{awaiting_retirement, kill, retirement_step};
use crate::store::EntityStore;
use vstd::prelude::*;

verus! {

/// What the three steps of one frame did.
#[derive(Debug)]
pub struct FrameReport {
    /// What the spawn step did.
    pub spawn: SpawnOutcome,
    /// The handles that the retirement step moved on to the dying state.
    pub dying: Vec<usize>,
    /// The handles that the despawn step removed.
    pub removed: Vec<usize>,
}

/// The store as the spawn step of a frame leaves it.
pub open spec fn after_spawn(m: ManagerView, slots: Seq<Option<Enemy>>, delta: nat) -> Seq<
    Option<Enemy>,
> {
    spawn_step(m, slots, delta).1
}

/// The store as the retirement step of a frame leaves it.
pub open spec fn after_retirement(m: ManagerView, slots: Seq<Option<Enemy>>, delta: nat) -> Seq<
    Option<Enemy>,
> {
    retirement_step(after_spawn(m, slots, delta))
}

/// One whole frame as a function on the manager and the store.
pub open spec fn frame_step(m: ManagerView, slots: Seq<Option<Enemy>>, delta: nat) -> (
    ManagerView,
    Seq<Option<Enemy>>,
) {
    (spawn_step(m, slots, delta).0, despawn_step(after_retirement(m, slots, delta)))
}

/// The enemy spawner: it fixes which steps make up a frame and their order.
#[derive(Clone, Copy, Debug, PartialEq, Eq, Structural)]
pub struct EnemySpawnerPlugin;

impl EnemySpawnerPlugin {
    /// Runs one frame that lasted `delta_nanos` nanoseconds: the spawn step,
    /// then the retirement step, then the despawn step.
    pub fn run_frame(
        &self,
        manager: &mut EnemyManager,
        store: &mut EntityStore,
        delta_nanos: u64,
    ) -> (report: FrameReport)
        requires
            old(manager).wf(),
        ensures
            final(manager).wf(),
            old(store).wf() ==> final(store).wf(),
            (final(manager)@, final(store)@) == frame_step(
                old(manager)@,
                old(store)@,
                delta_nanos as nat,
            ),
            report.spawn == spawn_step(old(manager)@, old(store)@, delta_nanos as nat).2,
            report.dying@ == awaiting_retirement(
                after_spawn(old(manager)@, old(store)@, delta_nanos as nat),
            ),
            report.removed@ == dead(
                after_retirement(old(manager)@, old(store)@, delta_nanos as nat),
            ),
    {
        let spawn = update(manager, store, delta_nanos);
        let dying = kill(store);
        let removed = has_died(store);
        FrameReport { spawn, dying, removed }
    }
}

} // verus!
