//! The record kept for each enemy: its animation and its lifecycle marker.

use crate::config::DYING_FRAME_THRESHOLD;
use vstd::prelude::*;

verus! {

/// Marker of an enemy that has been retired from the tracked population and
/// waits for its death animation to start.
#[derive(Clone, Copy, Debug, PartialEq, Eq, Structural)]
pub struct ShouldKill;

/// Marker of an enemy whose death animation is running.
#[derive(Clone, Copy, Debug, PartialEq, Eq, Structural)]
pub struct Dying;

/// Where an enemy stands between its creation and its removal. An enemy
/// carries at most one marker, so the two markers exclude each other.
#[derive(Clone, Copy, Debug, PartialEq, Eq, Structural)]
pub enum Lifecycle {
    /// Alive and unmarked.
    Active,
    /// Retired; the death animation has not started yet.
    ShouldKill(ShouldKill),
    /// The death animation is running.
    Dying(Dying),
}

/// The named animation that an enemy shows.
#[derive(Clone, Copy, Debug, PartialEq, Eq, Structural)]
pub enum AnimationTag {
    Idle,
    Death,
}

/// An animation together with its playback status.
#[derive(Clone, Copy, Debug, PartialEq, Eq, Structural)]
pub struct Animation {
    pub tag: AnimationTag,
    pub is_playing: bool,
    pub current_frame: u32,
}

/// One enemy as the entity store holds it.
#[derive(Clone, Copy, Debug, PartialEq, Eq, Structural)]
pub struct Enemy {
    pub animation: Animation,
    pub lifecycle: Lifecycle,
}

impl Animation {
    /// The animation `tag` at its first frame, playing.
    pub open spec fn started(tag: AnimationTag) -> Animation {
        Animation { tag, is_playing: true, current_frame: 0 }
    }

    /// Whether a death animation in this state is over: playback has stopped,
    /// or the frame index has reached the threshold.
    pub open spec fn is_over(self) -> bool {
        !self.is_playing || self.current_frame >= DYING_FRAME_THRESHOLD
    }

    /// This animation one frame further; the frame index stays at its
    /// largest value once it is there.
    pub open spec fn next_frame(self) -> Animation {
        Animation {
            current_frame: if self.current_frame < u32::MAX {
                (self.current_frame + 1) as u32
            } else {
                self.current_frame
            },
            ..self
        }
    }

    /// Starts the animation `tag` from its first frame.
    pub fn start(tag: AnimationTag) -> (animation: Animation)
        ensures
            animation == Animation::started(tag),
    {
        Animation { tag, is_playing: true, current_frame: 0 }
    }

    /// Tells whether a death animation in this state is over.
    pub fn over(&self) -> (r: bool)
        ensures
            r == self.is_over(),
    {
        !self.is_playing || self.current_frame >= DYING_FRAME_THRESHOLD
    }

    /// Moves one frame further.
    pub fn advance(&mut self)
        ensures
            *final(self) == old(self).next_frame(),
    {
        if self.current_frame < u32::MAX {
            self.current_frame = self.current_frame + 1;
        }
    }
}

impl Enemy {
    /// A dying enemy shows the death animation, and only a dying enemy does.
    pub open spec fn wf(self) -> bool {
        (self.lifecycle is Dying) == (self.animation.tag is Death)
    }

    /// A newly created enemy: idle animation from its first frame, no marker.
    pub open spec fn fresh() -> Enemy {
        Enemy { animation: Animation::started(AnimationTag::Idle), lifecycle: Lifecycle::Active }
    }

    /// This enemy after the manager has retired it: an unmarked enemy gets
    /// the `ShouldKill` marker, a marked one is left as it is.
    pub open spec fn flagged(self) -> Enemy {
        if self.lifecycle is Active {
            Enemy { lifecycle: Lifecycle::ShouldKill(ShouldKill), ..self }
        } else {
            self
        }
    }

    /// This enemy after the retirement step: one marked `ShouldKill` starts
    /// the death animation and is marked `Dying` instead; any other is left
    /// as it is.
    pub open spec fn retired(self) -> Enemy {
        if self.lifecycle is ShouldKill {
            Enemy {
                animation: Animation::started(AnimationTag::Death),
                lifecycle: Lifecycle::Dying(Dying),
            }
        } else {
            self
        }
    }

    /// Whether the despawn step removes this enemy: it is marked `Dying` and
    /// its animation is over.
    pub open spec fn has_died(self) -> bool {
        self.lifecycle is Dying && self.animation.is_over()
    }

    /// Creates an enemy.
    pub fn new() -> (enemy: Enemy)
        ensures
            enemy == Enemy::fresh(),
            enemy.wf(),
    {
        Enemy { animation: Animation::start(AnimationTag::Idle), lifecycle: Lifecycle::Active }
    }

    /// Marks an unmarked enemy `ShouldKill`.
    pub fn flag(&mut self)
        ensures
            *final(self) == old(self).flagged(),
            old(self).wf() ==> final(self).wf(),
    {
        if let Lifecycle::Active = self.lifecycle {
            self.lifecycle = Lifecycle::ShouldKill(ShouldKill);
        }
    }

    /// Moves an enemy marked `ShouldKill` on to `Dying` and starts its death
    /// animation.
    pub fn retire(&mut self)
        ensures
            *final(self) == old(self).retired(),
            old(self).wf() ==> final(self).wf(),
    {
        if let Lifecycle::ShouldKill(_) = self.lifecycle {
            self.animation = Animation::start(AnimationTag::Death);
            self.lifecycle = Lifecycle::Dying(Dying);
        }
    }

    /// Tells whether the despawn step removes this enemy.
    pub fn died(&self) -> (r: bool)
        ensures
            r == self.has_died(),
    {
        match self.lifecycle {
            Lifecycle::Dying(_) => self.animation.over(),
            _ => false,
        }
    }
}

} // verus!
