//! The entity store: an arena of enemy records addressed by stable integer
//! handles. A handle is the position at which its enemy was created and is
//! never given out twice.

use crate::entity::{Animation, Enemy, Lifecycle};
use vstd::prelude::*;

verus! {

/// The phase of a handle, from before its creation to after its removal.
#[derive(Clone, Copy, Debug, PartialEq, Eq, Structural)]
pub enum Phase {
    /// No enemy has been created under this handle yet.
    Unborn,
    /// Alive and unmarked.
    Active,
    /// Marked `ShouldKill`.
    ShouldKill,
    /// Marked `Dying`.
    Dying,
    /// The enemy has been removed from the store.
    Removed,
}

/// Whether `id` names an enemy that is in the store.
pub open spec fn is_live(slots: Seq<Option<Enemy>>, id: int) -> bool {
    0 <= id < slots.len() && slots[id] is Some
}

/// The record of `id`, if it names an enemy that is in the store.
pub open spec fn entry(slots: Seq<Option<Enemy>>, id: int) -> Option<Enemy> {
    if is_live(slots, id) {
        slots[id]
    } else {
        None
    }
}

/// The phase of the handle `id`.
pub open spec fn phase_of(slots: Seq<Option<Enemy>>, id: int) -> Phase {
    if id < 0 || id >= slots.len() {
        Phase::Unborn
    } else {
        match slots[id] {
            None => Phase::Removed,
            Some(enemy) => match enemy.lifecycle {
                Lifecycle::Active => Phase::Active,
                Lifecycle::ShouldKill(_) => Phase::ShouldKill,
                Lifecycle::Dying(_) => Phase::Dying,
            },
        }
    }
}

/// Every enemy in the store is well formed.
pub open spec fn all_wf(slots: Seq<Option<Enemy>>) -> bool {
    forall|i: int| 0 <= i < slots.len() && (#[trigger] slots[i]) is Some ==> slots[i].unwrap().wf()
}

/// The store with the record of `id` replaced by `enemy`; unchanged where
/// `id` names no enemy in the store.
pub open spec fn with_entry(slots: Seq<Option<Enemy>>, id: int, enemy: Enemy) -> Seq<Option<Enemy>> {
    if is_live(slots, id) {
        slots.update(id, Some(enemy))
    } else {
        slots
    }
}

/// The store after `id` has been flagged for retirement: an unmarked live
/// enemy gets the `ShouldKill` marker, anything else leaves the store as it is.
pub open spec fn flag_entry(slots: Seq<Option<Enemy>>, id: int) -> Seq<Option<Enemy>> {
    if is_live(slots, id) {
        with_entry(slots, id, slots[id].unwrap().flagged())
    } else {
        slots
    }
}

/// The store after the retirement step has visited `id`: a live enemy marked
/// `ShouldKill` starts its death animation and is marked `Dying`, anything
/// else leaves the store as it is.
pub open spec fn retire_entry(slots: Seq<Option<Enemy>>, id: int) -> Seq<Option<Enemy>> {
    if is_live(slots, id) {
        with_entry(slots, id, slots[id].unwrap().retired())
    } else {
        slots
    }
}

/// The store after the playback status of `id` has been set.
pub open spec fn with_playback(
    slots: Seq<Option<Enemy>>,
    id: int,
    is_playing: bool,
    current_frame: u32,
) -> Seq<Option<Enemy>> {
    if is_live(slots, id) {
        let enemy = slots[id].unwrap();
        with_entry(
            slots,
            id,
            Enemy { animation: Animation { is_playing, current_frame, ..enemy.animation }, ..enemy },
        )
    } else {
        slots
    }
}

/// The store after the animation of `id` has moved one frame further.
pub open spec fn with_next_frame(slots: Seq<Option<Enemy>>, id: int) -> Seq<Option<Enemy>> {
    if is_live(slots, id) {
        let enemy = slots[id].unwrap();
        with_entry(slots, id, Enemy { animation: enemy.animation.next_frame(), ..enemy })
    } else {
        slots
    }
}

/// The store after the enemy `id` has been taken out of it.
pub open spec fn without_entry(slots: Seq<Option<Enemy>>, id: int) -> Seq<Option<Enemy>> {
    if is_live(slots, id) {
        slots.update(id, None)
    } else {
        slots
    }
}

/// The positions at which `marks` holds `true`, in increasing order.
pub open spec fn positions(marks: Seq<bool>) -> Seq<usize>
    decreases marks.len(),
{
    if marks.len() == 0 {
        Seq::empty()
    } else {
        let before = positions(marks.drop_last());
        if marks.last() {
            before.push((marks.len() - 1) as usize)
        } else {
            before
        }
    }
}

/// The arena of enemy records.
pub struct EntityStore {
    slots: Vec<Option<Enemy>>,
}

impl View for EntityStore {
    type V = Seq<Option<Enemy>>;

    /// One slot per handle given out so far, in the order of creation; the
    /// slot of a removed enemy is `None`.
    closed spec fn view(&self) -> Seq<Option<Enemy>> {
        self.slots@
    }
}

impl EntityStore {
    /// Every enemy in the store is well formed.
    pub open spec fn wf(&self) -> bool {
        all_wf(self@)
    }

    /// An empty store.
    pub fn new() -> (store: EntityStore)
        ensures
            store@ == Seq::<Option<Enemy>>::empty(),
            store.wf(),
    {
        EntityStore { slots: Vec::new() }
    }

    /// The number of handles given out so far.
    pub fn len(&self) -> (n: usize)
        ensures
            n == self@.len(),
    {
        self.slots.len()
    }

    /// Creates an enemy and returns its handle.
    pub fn spawn(&mut self) -> (id: usize)
        ensures
            id == old(self)@.len(),
            final(self)@ == old(self)@.push(Some(Enemy::fresh())),
            old(self).wf() ==> final(self).wf(),
    {
        let id = self.slots.len();
        self.slots.push(Some(Enemy::new()));
        id
    }

    /// The record of `id`; `None` where `id` names no enemy in the store.
    pub fn get(&self, id: usize) -> (r: Option<Enemy>)
        ensures
            r == entry(self@, id as int),
    {
        if id < self.slots.len() {
            self.slots[id]
        } else {
            None
        }
    }

    /// The phase of the handle `id`.
    pub fn phase(&self, id: usize) -> (r: Phase)
        ensures
            r == phase_of(self@, id as int),
    {
        if id >= self.slots.len() {
            Phase::Unborn
        } else {
            match self.slots[id] {
                None => Phase::Removed,
                Some(enemy) => match enemy.lifecycle {
                    Lifecycle::Active => Phase::Active,
                    Lifecycle::ShouldKill(_) => Phase::ShouldKill,
                    Lifecycle::Dying(_) => Phase::Dying,
                },
            }
        }
    }

    /// Whether the animation of `id` is playing, and its current frame;
    /// `None` where `id` names no enemy in the store.
    pub fn query_animation(&self, id: usize) -> (r: Option<(bool, u32)>)
        ensures
            r == match entry(self@, id as int) {
                Some(enemy) => Some((enemy.animation.is_playing, enemy.animation.current_frame)),
                None => None,
            },
    {
        match self.get(id) {
            Some(enemy) => Some((enemy.animation.is_playing, enemy.animation.current_frame)),
            None => None,
        }
    }

    /// Replaces the record of a live `id`; the caller has checked the handle.
    fn put(&mut self, id: usize, enemy: Enemy)
        requires
            is_live(old(self)@, id as int),
        ensures
            final(self)@ == with_entry(old(self)@, id as int, enemy),
            old(self).wf() && enemy.wf() ==> final(self).wf(),
    {
        self.slots.set(id, Some(enemy));
    }

    /// Sets the playback status of `id` as the animation player reports it.
    /// Returns whether `id` names an enemy in the store; if not, nothing changes.
    pub fn record_playback(&mut self, id: usize, is_playing: bool, current_frame: u32) -> (found: bool)
        ensures
            found == is_live(old(self)@, id as int),
            final(self)@ == with_playback(old(self)@, id as int, is_playing, current_frame),
            old(self).wf() ==> final(self).wf(),
    {
        match self.get(id) {
            Some(enemy) => {
                let animation = Animation { is_playing, current_frame, ..enemy.animation };
                self.put(id, Enemy { animation, ..enemy });
                true
            },
            None => false,
        }
    }

    /// Moves the animation of `id` one frame further. Returns whether `id`
    /// names an enemy in the store; if not, nothing changes.
    pub fn advance_frame(&mut self, id: usize) -> (found: bool)
        ensures
            found == is_live(old(self)@, id as int),
            final(self)@ == with_next_frame(old(self)@, id as int),
            old(self).wf() ==> final(self).wf(),
    {
        match self.get(id) {
            Some(enemy) => {
                let mut animation = enemy.animation;
                animation.advance();
                self.put(id, Enemy { animation, ..enemy });
                true
            },
            None => false,
        }
    }

    /// Flags `id` for retirement: an unmarked live enemy is marked
    /// `ShouldKill`. A handle that names no enemy in the store, or an enemy
    /// that already carries a marker, is passed over. Returns whether the
    /// marker was set.
    pub fn mark_should_kill(&mut self, id: usize) -> (marked: bool)
        ensures
            marked == (phase_of(old(self)@, id as int) == Phase::Active),
            final(self)@ == flag_entry(old(self)@, id as int),
            old(self).wf() ==> final(self).wf(),
    {
        match self.get(id) {
            Some(enemy) => {
                let mut flagged = enemy;
                flagged.flag();
                self.put(id, flagged);
                matches!(enemy.lifecycle, Lifecycle::Active)
            },
            None => false,
        }
    }

    /// Starts the death animation of `id` if it is a live enemy marked
    /// `ShouldKill`, and marks it `Dying` instead. Any other handle is passed
    /// over. Returns whether the enemy was moved on.
    pub fn start_dying(&mut self, id: usize) -> (started: bool)
        ensures
            started == (phase_of(old(self)@, id as int) == Phase::ShouldKill),
            final(self)@ == retire_entry(old(self)@, id as int),
            old(self).wf() ==> final(self).wf(),
    {
        match self.get(id) {
            Some(enemy) => {
                let mut retired = enemy;
                retired.retire();
                self.put(id, retired);
                matches!(enemy.lifecycle, Lifecycle::ShouldKill(_))
            },
            None => false,
        }
    }

    /// Takes the enemy `id` out of the store. Returns whether `id` named an
    /// enemy in the store; if not, nothing changes.
    pub fn remove_entity(&mut self, id: usize) -> (removed: bool)
        ensures
            removed == is_live(old(self)@, id as int),
            final(self)@ == without_entry(old(self)@, id as int),
            old(self).wf() ==> final(self).wf(),
    {
        if id < self.slots.len() && self.slots[id].is_some() {
            self.slots.set(id, None);
            true
        } else {
            false
        }
    }
}

} // verus!
