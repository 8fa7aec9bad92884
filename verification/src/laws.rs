//! Laws of the enemy population, stated over the step functions and proved.

use crate::config::{DYING_FRAME_THRESHOLD, POPULATION_CAP, SPAWN_INTERVAL_NANOS};
use crate::despawn::despawn_step;
use crate::entity::{AnimationTag, Enemy};
use crate::manager::{manager_wf, spawn_step, spawns, ManagerView};
use crate::plugin::{after_retirement, after_spawn, frame_step};
use crate::retirement::{awaiting_retirement, retirement_step, should_kill_marks};
use crate::store::{
    all_wf, flag_entry, is_live, phase_of, positions, retire_entry, with_next_frame, with_playback,
    Phase,
};
use vstd::prelude::*;

verus! {

/// The place of a phase in the order in which a handle passes through them.
pub open spec fn phase_rank(phase: Phase) -> int {
    match phase {
        Phase::Unborn => 0,
        Phase::Active => 1,
        Phase::ShouldKill => 2,
        Phase::Dying => 3,
        Phase::Removed => 4,
    }
}

/// A handle stays in its phase or moves on to the very next one.
pub open spec fn moves_forward(before: Phase, after: Phase) -> bool {
    before == after || phase_rank(after) == phase_rank(before) + 1
}

/// The tracked handles are in the order in which the store gave them out, and
/// the store has given out each of them.
pub open spec fn in_spawn_order(m: ManagerView, slots: Seq<Option<Enemy>>) -> bool {
    &&& forall|i: int, j: int| 0 <= i < j < m.enemies.len() ==> m.enemies[i] < m.enemies[j]
    &&& forall|i: int| 0 <= i < m.enemies.len() ==> (#[trigger] m.enemies[i]) < slots.len()
}

/// The manager and the store after a run of frames of the given lengths.
pub open spec fn after_frames(m: ManagerView, slots: Seq<Option<Enemy>>, deltas: Seq<nat>) -> (
    ManagerView,
    Seq<Option<Enemy>>,
)
    decreases deltas.len(),
{
    if deltas.len() == 0 {
        (m, slots)
    } else {
        let (m_before, slots_before) = after_frames(m, slots, deltas.drop_last());
        frame_step(m_before, slots_before, deltas.last())
    }
}

/// A spawn step leaves no more enemies tracked than the cap allows, and the
/// timer short of the spawn interval.
pub proof fn law_spawn_step_keeps_cap(m: ManagerView, slots: Seq<Option<Enemy>>, delta: nat)
    requires
        manager_wf(m),
    ensures
        manager_wf(spawn_step(m, slots, delta).0),
        spawn_step(m, slots, delta).0.enemies.len() <= POPULATION_CAP,
{
}

/// Whatever the lengths of the frames, no more enemies are tracked after any
/// number of them than the cap allows.
pub proof fn law_population_capped(m: ManagerView, slots: Seq<Option<Enemy>>, deltas: Seq<nat>)
    requires
        manager_wf(m),
    ensures
        manager_wf(after_frames(m, slots, deltas).0),
        after_frames(m, slots, deltas).0.enemies.len() <= POPULATION_CAP,
    decreases deltas.len(),
{
    if deltas.len() > 0 {
        law_population_capped(m, slots, deltas.drop_last());
        let (m_before, slots_before) = after_frames(m, slots, deltas.drop_last());
        law_spawn_step_keeps_cap(m_before, slots_before, deltas.last());
    }
}

/// Retirement is first in, first out. When a spawn step retires a handle, it
/// is the first of the tracked handles, which is the one that the store gave
/// out earliest among them; the others stay tracked in their order, followed
/// by the new handle; and the retired handle is tracked no longer.
pub proof fn law_retires_oldest(m: ManagerView, slots: Seq<Option<Enemy>>, delta: nat)
    requires
        manager_wf(m),
        in_spawn_order(m, slots),
        slots.len() <= usize::MAX,
    ensures
        in_spawn_order(spawn_step(m, slots, delta).0, spawn_step(m, slots, delta).1),
        spawn_step(m, slots, delta).2.retired is Some <==> spawns(m, delta) && m.enemies.len()
            == POPULATION_CAP,
        spawn_step(m, slots, delta).2.retired is Some ==> ({
            let retired = spawn_step(m, slots, delta).2.retired.unwrap();
            &&& retired == m.enemies[0]
            &&& forall|i: int| 0 <= i < m.enemies.len() ==> retired <= #[trigger] m.enemies[i]
            &&& !spawn_step(m, slots, delta).0.enemies.contains(retired)
            &&& spawn_step(m, slots, delta).0.enemies == m.enemies.drop_first().push(
                slots.len() as usize,
            )
        }),
        spawns(m, delta) && spawn_step(m, slots, delta).2.retired is None ==> spawn_step(
            m,
            slots,
            delta,
        ).0.enemies == m.enemies.push(slots.len() as usize),
        !spawns(m, delta) ==> spawn_step(m, slots, delta).0.enemies == m.enemies,
{
    let (after, created, outcome) = spawn_step(m, slots, delta);
    if spawns(m, delta) {
        let id = slots.len() as usize;
        let grown = m.enemies.push(id);
        assert forall|i: int, j: int| 0 <= i < j < grown.len() implies grown[i] < grown[j] by {
            if j < m.enemies.len() {
                assert(m.enemies[i] < m.enemies[j]);
            } else {
                assert(m.enemies[i] < slots.len());
            }
        }
        if grown.len() > POPULATION_CAP {
            let retired = grown[0];
            assert(after.enemies =~= m.enemies.drop_first().push(id));
            assert forall|i: int| 0 <= i < m.enemies.len() implies retired <= #[trigger] m.enemies[i] by {
                if i > 0 {
                    assert(grown[0] < grown[i]);
                }
            }
            assert forall|k: int| 0 <= k < after.enemies.len() implies after.enemies[k] != retired by {
                assert(grown[0] < grown[k + 1]);
            }
            assert forall|i: int, j: int| 0 <= i < j < after.enemies.len() implies after.enemies[i]
                < after.enemies[j] by {
                assert(grown[i + 1] < grown[j + 1]);
            }
            assert forall|i: int| 0 <= i < after.enemies.len() implies (#[trigger] after.enemies[i])
                < created.len() by {
                assert(after.enemies[i] == grown[i + 1]);
                if i + 1 < m.enemies.len() {
                    assert(m.enemies[i + 1] < slots.len());
                }
            }
        } else {
            assert forall|i: int| 0 <= i < after.enemies.len() implies (#[trigger] after.enemies[i])
                < created.len() by {
                if i < m.enemies.len() {
                    assert(m.enemies[i] < slots.len());
                }
            }
        }
    }
}

/// Flagging an enemy, starting its death animation and reporting the progress
/// of its animation move no enemy backward and none further than to the next
/// phase; reporting the progress of an animation changes no phase at all.
pub proof fn law_store_operations_move_forward(
    slots: Seq<Option<Enemy>>,
    target: int,
    is_playing: bool,
    current_frame: u32,
    id: int,
)
    ensures
        moves_forward(phase_of(slots, id), phase_of(flag_entry(slots, target), id)),
        moves_forward(phase_of(slots, id), phase_of(retire_entry(slots, target), id)),
        phase_of(with_playback(slots, target, is_playing, current_frame), id) == phase_of(slots, id),
        phase_of(with_next_frame(slots, target), id) == phase_of(slots, id),
{
}

/// The spawn step moves no enemy of the store backward, and none further
/// than to the next phase.
pub proof fn law_spawn_step_moves_forward(
    m: ManagerView,
    slots: Seq<Option<Enemy>>,
    delta: nat,
    id: int,
)
    requires
        0 <= id < slots.len(),
    ensures
        moves_forward(phase_of(slots, id), phase_of(after_spawn(m, slots, delta), id)),
        phase_of(after_spawn(m, slots, delta), id) == Phase::Removed ==> phase_of(slots, id)
            == Phase::Removed,
{
}

/// The retirement step moves no enemy backward, and none further than to the
/// next phase: it only takes enemies marked `ShouldKill` on to `Dying`.
pub proof fn law_retirement_moves_forward(slots: Seq<Option<Enemy>>, id: int)
    ensures
        moves_forward(phase_of(slots, id), phase_of(retirement_step(slots), id)),
        phase_of(retirement_step(slots), id) != phase_of(slots, id) ==> phase_of(slots, id)
            == Phase::ShouldKill,
{
}

/// The despawn step moves no enemy backward, and none further than to the
/// next phase: it only removes enemies marked `Dying`.
pub proof fn law_despawn_moves_forward(slots: Seq<Option<Enemy>>, id: int)
    ensures
        moves_forward(phase_of(slots, id), phase_of(despawn_step(slots), id)),
        phase_of(despawn_step(slots), id) != phase_of(slots, id) ==> phase_of(slots, id)
            == Phase::Dying,
{
}

/// Over a whole frame an enemy never moves backward and never skips the
/// dying phase: one that the frame removes was dying when the frame began.
pub proof fn law_frame_never_skips_dying(
    m: ManagerView,
    slots: Seq<Option<Enemy>>,
    delta: nat,
    id: int,
)
    requires
        0 <= id < slots.len(),
    ensures
        phase_rank(phase_of(slots, id)) <= phase_rank(phase_of(frame_step(m, slots, delta).1, id)),
        phase_of(frame_step(m, slots, delta).1, id) == Phase::Removed ==> phase_of(slots, id)
            == Phase::Dying || phase_of(slots, id) == Phase::Removed,
{
    law_spawn_step_moves_forward(m, slots, delta, id);
    law_retirement_moves_forward(after_spawn(m, slots, delta), id);
    law_despawn_moves_forward(after_retirement(m, slots, delta), id);
}

/// No position is listed where no mark is set.
proof fn lemma_no_marks_no_positions(marks: Seq<bool>)
    requires
        forall|i: int| 0 <= i < marks.len() ==> !marks[i],
    ensures
        positions(marks) == Seq::<usize>::empty(),
    decreases marks.len(),
{
    if marks.len() > 0 {
        lemma_no_marks_no_positions(marks.drop_last());
    }
}

/// The retirement step is idempotent: run a second time with nothing in
/// between, it finds no enemy to move on and leaves the store as it is.
pub proof fn law_retirement_idempotent(slots: Seq<Option<Enemy>>)
    ensures
        retirement_step(retirement_step(slots)) == retirement_step(slots),
        awaiting_retirement(retirement_step(slots)) == Seq::<usize>::empty(),
{
    assert(retirement_step(retirement_step(slots)) =~= retirement_step(slots));
    lemma_no_marks_no_positions(should_kill_marks(retirement_step(slots)));
}

/// The store after the animation of `id` has moved `n` frames further.
pub open spec fn after_frame_advances(slots: Seq<Option<Enemy>>, id: int, n: nat) -> Seq<
    Option<Enemy>,
>
    decreases n,
{
    if n == 0 {
        slots
    } else {
        with_next_frame(after_frame_advances(slots, id, (n - 1) as nat), id)
    }
}

/// Advancing the animation of a live enemy changes its frame index alone.
proof fn lemma_frame_advances(slots: Seq<Option<Enemy>>, id: int, n: nat)
    requires
        is_live(slots, id),
    ensures
        is_live(after_frame_advances(slots, id, n), id),
        after_frame_advances(slots, id, n).len() == slots.len(),
        after_frame_advances(slots, id, n)[id].unwrap().lifecycle == slots[id].unwrap().lifecycle,
        after_frame_advances(slots, id, n)[id].unwrap().animation.current_frame == if slots[id].unwrap().animation.current_frame
            + n <= u32::MAX {
            slots[id].unwrap().animation.current_frame + n
        } else {
            u32::MAX as int
        },
    decreases n,
{
    if n > 0 {
        lemma_frame_advances(slots, id, (n - 1) as nat);
    }
}

/// A dying enemy is always removed in the end: once its animation has moved
/// far enough to reach the frame threshold, which takes no more advances
/// than the threshold itself, the despawn step removes it, whether or not
/// the animation reports that it is still playing.
pub proof fn law_dying_enemy_removed(slots: Seq<Option<Enemy>>, id: int, n: nat)
    requires
        phase_of(slots, id) == Phase::Dying,
        slots[id].unwrap().animation.current_frame + n >= DYING_FRAME_THRESHOLD,
    ensures
        phase_of(despawn_step(after_frame_advances(slots, id, n)), id) == Phase::Removed,
{
    lemma_frame_advances(slots, id, n);
}

/// An enemy created in a frame is still alive and unmarked when the frame
/// ends: the frame neither flags nor removes it.
pub proof fn law_spawned_enemy_outlives_frame(m: ManagerView, slots: Seq<Option<Enemy>>, delta: nat)
    requires
        manager_wf(m),
        in_spawn_order(m, slots),
        slots.len() <= usize::MAX,
        spawns(m, delta),
    ensures
        spawn_step(m, slots, delta).2.spawned == Some(slots.len() as usize),
        phase_of(slots, slots.len() as int) == Phase::Unborn,
        phase_of(frame_step(m, slots, delta).1, slots.len() as int) == Phase::Active,
{
    if m.enemies.len() > 0 {
        assert(m.enemies[0] < slots.len());
    }
}

/// An enemy that a frame flags for retirement is dying when the frame ends:
/// it shows the death animation from its first frame and is not yet removed.
pub proof fn law_retired_enemy_is_dying(m: ManagerView, slots: Seq<Option<Enemy>>, delta: nat)
    requires
        spawn_step(m, slots, delta).2.retired is Some,
        phase_of(slots, spawn_step(m, slots, delta).2.retired.unwrap() as int) == Phase::Active,
    ensures
        ({
            let id = spawn_step(m, slots, delta).2.retired.unwrap() as int;
            let enemy = frame_step(m, slots, delta).1[id];
            &&& phase_of(after_spawn(m, slots, delta), id) == Phase::ShouldKill
            &&& phase_of(frame_step(m, slots, delta).1, id) == Phase::Dying
            &&& enemy.unwrap().animation.tag == AnimationTag::Death
            &&& enemy.unwrap().animation.current_frame == 0
            &&& enemy.unwrap().animation.is_playing
        }),
{
}

/// In a well-formed store every dying enemy shows the death animation, and
/// each step of a frame keeps the store well formed.
pub proof fn law_dying_shows_death(m: ManagerView, slots: Seq<Option<Enemy>>, delta: nat)
    requires
        all_wf(slots),
    ensures
        forall|id: int| phase_of(slots, id) == Phase::Dying ==> (#[trigger] slots[id]).unwrap().animation.tag
            == AnimationTag::Death,
        all_wf(after_spawn(m, slots, delta)),
        all_wf(after_retirement(m, slots, delta)),
        all_wf(frame_step(m, slots, delta).1),
{
    let spawned = after_spawn(m, slots, delta);
    assert forall|i: int| 0 <= i < spawned.len() && (#[trigger] spawned[i]) is Some implies spawned[i].unwrap().wf() by {
        if i < slots.len() {
            assert(slots[i] is Some);
        }
    }
    let retired = after_retirement(m, slots, delta);
    assert forall|i: int| 0 <= i < retired.len() && (#[trigger] retired[i]) is Some implies retired[i].unwrap().wf() by {
        assert(spawned[i] is Some);
    }
    let swept = frame_step(m, slots, delta).1;
    assert forall|i: int| 0 <= i < swept.len() && (#[trigger] swept[i]) is Some implies swept[i].unwrap().wf() by {
        assert(retired[i] is Some);
    }
}

/// The time that a run of frames took.
pub open spec fn total(deltas: Seq<nat>) -> nat
    decreases deltas.len(),
{
    if deltas.len() == 0 {
        0
    } else {
        total(deltas.drop_last()) + deltas.last()
    }
}

/// The number of frames, in a run of frames, whose spawn step spawned.
pub open spec fn spawn_count(m: ManagerView, slots: Seq<Option<Enemy>>, deltas: Seq<nat>) -> nat
    decreases deltas.len(),
{
    if deltas.len() == 0 {
        0
    } else {
        let before = after_frames(m, slots, deltas.drop_last());
        spawn_count(m, slots, deltas.drop_last()) + if spawns(before.0, deltas.last()) {
            1nat
        } else {
            0nat
        }
    }
}

/// However the time is split into frames, nothing spawns as long as the
/// accumulated time stays short of the spawn interval: the time adds up and
/// the tracked enemies stay as they are.
pub proof fn law_no_spawn_before_interval(
    m: ManagerView,
    slots: Seq<Option<Enemy>>,
    deltas: Seq<nat>,
)
    requires
        m.elapsed + total(deltas) < SPAWN_INTERVAL_NANOS,
    ensures
        spawn_count(m, slots, deltas) == 0,
        after_frames(m, slots, deltas).0.elapsed == m.elapsed + total(deltas),
        after_frames(m, slots, deltas).0.enemies == m.enemies,
    decreases deltas.len(),
{
    if deltas.len() > 0 {
        law_no_spawn_before_interval(m, slots, deltas.drop_last());
    }
}

/// However the time is split into frames, the frame in which the accumulated
/// time reaches the spawn interval spawns, it is the only one up to then that
/// does, and it starts the timer again from zero.
pub proof fn law_one_spawn_per_interval(
    m: ManagerView,
    slots: Seq<Option<Enemy>>,
    deltas: Seq<nat>,
)
    requires
        deltas.len() > 0,
        m.elapsed + total(deltas.drop_last()) < SPAWN_INTERVAL_NANOS,
        m.elapsed + total(deltas) >= SPAWN_INTERVAL_NANOS,
    ensures
        spawn_count(m, slots, deltas.drop_last()) == 0,
        spawn_count(m, slots, deltas) == 1,
        after_frames(m, slots, deltas).0.elapsed == 0,
{
    law_no_spawn_before_interval(m, slots, deltas.drop_last());
}

/// A run of frames gives out one handle for each frame that spawns, and
/// keeps the tracked handles in spawn order.
proof fn lemma_frames_keep_spawn_order(m: ManagerView, slots: Seq<Option<Enemy>>, deltas: Seq<nat>)
    requires
        manager_wf(m),
        in_spawn_order(m, slots),
        slots.len() + deltas.len() <= usize::MAX,
    ensures
        manager_wf(after_frames(m, slots, deltas).0),
        in_spawn_order(after_frames(m, slots, deltas).0, after_frames(m, slots, deltas).1),
        slots.len() <= after_frames(m, slots, deltas).1.len() <= slots.len() + deltas.len(),
    decreases deltas.len(),
{
    if deltas.len() > 0 {
        lemma_frames_keep_spawn_order(m, slots, deltas.drop_last());
        let (m_before, slots_before) = after_frames(m, slots, deltas.drop_last());
        law_retires_oldest(m_before, slots_before, deltas.last());
    }
}

/// A handle that the store has given out and that is not tracked is never
/// tracked again, however many frames follow: an enemy that has left the
/// tracked enemies does not come back.
pub proof fn law_retired_enemy_never_tracked_again(
    m: ManagerView,
    slots: Seq<Option<Enemy>>,
    deltas: Seq<nat>,
    id: usize,
)
    requires
        manager_wf(m),
        in_spawn_order(m, slots),
        slots.len() + deltas.len() <= usize::MAX,
        id < slots.len(),
        !m.enemies.contains(id),
    ensures
        !after_frames(m, slots, deltas).0.enemies.contains(id),
    decreases deltas.len(),
{
    if deltas.len() > 0 {
        law_retired_enemy_never_tracked_again(m, slots, deltas.drop_last(), id);
        lemma_frames_keep_spawn_order(m, slots, deltas.drop_last());
        let (m_before, slots_before) = after_frames(m, slots, deltas.drop_last());
        let m_after = after_frames(m, slots, deltas).0;
        law_retires_oldest(m_before, slots_before, deltas.last());
        if m_after.enemies.contains(id) {
            let k = choose|k: int| 0 <= k < m_after.enemies.len() && m_after.enemies[k] == id;
            if spawn_step(m_before, slots_before, deltas.last()).2.retired is Some {
                if k < m_after.enemies.len() - 1 {
                    assert(m_before.enemies[k + 1] == id);
                }
            } else if spawns(m_before, deltas.last()) {
                if k < m_after.enemies.len() - 1 {
                    assert(m_before.enemies[k] == id);
                }
            }
            assert(m_before.enemies.contains(id));
        }
    }
}

} // verus!
