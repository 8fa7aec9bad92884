//! The population manager: the spawn timer, the enemies it tracks in spawn
//! order, and the spawn step that runs once per frame.

use crate::config::{POPULATION_CAP, SPAWN_INTERVAL_NANOS};
use crate::entity::Enemy;
use crate::store::{flag_entry, EntityStore};
use crate::timer::{fires, SpawnTimer};
use vstd::prelude::*;

verus! {

/// What the manager holds, as mathematical values.
pub struct ManagerView {
    /// The handles of the tracked enemies, oldest first.
    pub enemies: Seq<usize>,
    /// The time accumulated since the last spawn, in nanoseconds.
    pub elapsed: nat,
}

/// What one spawn step did.
#[derive(Clone, Copy, Debug, PartialEq, Eq)]
pub struct SpawnOutcome {
    /// The handle of the enemy created in this step, if the timer fired.
    pub spawned: Option<usize>,
    /// The handle taken from the front of the tracked enemies and flagged
    /// for retirement, if the step went over the cap.
    pub retired: Option<usize>,
}

/// Between steps the manager tracks no more enemies than the cap allows, and
/// its timer has not reached the spawn interval.
pub open spec fn manager_wf(m: ManagerView) -> bool {
    m.enemies.len() <= POPULATION_CAP && m.elapsed < SPAWN_INTERVAL_NANOS
}

/// Whether a spawn step with `delta` nanoseconds of frame time spawns.
pub open spec fn spawns(m: ManagerView, delta: nat) -> bool {
    fires(m.elapsed, SPAWN_INTERVAL_NANOS as nat, delta)
}

/// The spawn step as a function on the manager and the store. Until the
/// accumulated time reaches the spawn interval only the time moves on. When
/// it does, the timer starts again from zero, a fresh enemy is created and
/// tracked last, and if more enemies are tracked than the cap allows, the
/// first of them leaves the tracked enemies and is flagged for retirement.
pub open spec fn spawn_step(m: ManagerView, slots: Seq<Option<Enemy>>, delta: nat) -> (
    ManagerView,
    Seq<Option<Enemy>>,
    SpawnOutcome,
) {
    if !spawns(m, delta) {
        (
            ManagerView { enemies: m.enemies, elapsed: m.elapsed + delta },
            slots,
            SpawnOutcome { spawned: None, retired: None },
        )
    } else {
        let id = slots.len() as usize;
        let grown = m.enemies.push(id);
        let created = slots.push(Some(Enemy::fresh()));
        if grown.len() > POPULATION_CAP {
            (
                ManagerView { enemies: grown.drop_first(), elapsed: 0 },
                flag_entry(created, grown[0] as int),
                SpawnOutcome { spawned: Some(id), retired: Some(grown[0]) },
            )
        } else {
            (
                ManagerView { enemies: grown, elapsed: 0 },
                created,
                SpawnOutcome { spawned: Some(id), retired: None },
            )
        }
    }
}

/// The population manager.
pub struct EnemyManager {
    enemies: Vec<usize>,
    timer: SpawnTimer,
}

impl View for EnemyManager {
    type V = ManagerView;

    closed spec fn view(&self) -> ManagerView {
        ManagerView { enemies: self.enemies@, elapsed: self.timer.elapsed() }
    }
}

impl EnemyManager {
    /// The timer runs at the spawn interval and is not left in its finished
    /// state between steps.
    pub closed spec fn timer_armed(&self) -> bool {
        self.timer.period() == SPAWN_INTERVAL_NANOS && !self.timer.is_finished()
    }

    /// The manager is in a state in which a step may begin.
    pub open spec fn wf(&self) -> bool {
        self.timer_armed() && manager_wf(self@)
    }

    /// The handles of the tracked enemies, oldest first.
    pub fn enemies(&self) -> (r: &Vec<usize>)
        ensures
            r@ == self@.enemies,
    {
        &self.enemies
    }

    /// The number of tracked enemies.
    pub fn len(&self) -> (n: usize)
        ensures
            n == self@.enemies.len(),
    {
        self.enemies.len()
    }

    /// The time accumulated since the last spawn, in nanoseconds.
    pub fn elapsed_nanos(&self) -> (r: u64)
        ensures
            r == self@.elapsed,
    {
        self.timer.elapsed_nanos()
    }
}

/// Creates the manager: nothing tracked, and a repeating timer at the spawn
/// interval with nothing elapsed.
pub fn startup() -> (manager: EnemyManager)
    ensures
        manager.wf(),
        manager@.enemies == Seq::<usize>::empty(),
        manager@.elapsed == 0,
{
    EnemyManager { enemies: Vec::new(), timer: SpawnTimer::new(SPAWN_INTERVAL_NANOS) }
}

/// The spawn step of one frame that lasted `delta_nanos` nanoseconds.
pub fn update(manager: &mut EnemyManager, store: &mut EntityStore, delta_nanos: u64) -> (outcome:
    SpawnOutcome)
    requires
        old(manager).wf(),
    ensures
        final(manager).wf(),
        old(store).wf() ==> final(store).wf(),
        (final(manager)@, final(store)@, outcome) == spawn_step(
            old(manager)@,
            old(store)@,
            delta_nanos as nat,
        ),
{
    manager.timer.tick(delta_nanos);

    if manager.timer.finished() {
        manager.timer.reset();

        let enemy = store.spawn();
        manager.enemies.push(enemy);

        let mut retired: Option<usize> = None;
        if manager.enemies.len() > POPULATION_CAP {
            let oldest = manager.enemies.remove(0);
            store.mark_should_kill(oldest);
            retired = Some(oldest);
        }
        SpawnOutcome { spawned: Some(enemy), retired }
    } else {
        SpawnOutcome { spawned: None, retired: None }
    }
}

} // verus!
