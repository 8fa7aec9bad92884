//! Configuration constants of the enemy population.

use vstd::prelude::*;

verus! {

/// Largest number of enemies that stay tracked once a spawn step has completed.
pub const POPULATION_CAP: usize = 3;

/// Period of the spawn timer, in nanoseconds (two seconds).
pub const SPAWN_INTERVAL_NANOS: u64 = 2_000_000_000;

/// Frame index of the death animation at which a dying enemy is removed even
/// when the animation still reports that it is playing.
pub const DYING_FRAME_THRESHOLD: u32 = 49;

/// Half the side of the square, centred at the origin, in which enemies appear.
pub const SPAWN_HALF_EXTENT: u32 = 250;

/// Uniform scale factor applied to every spawned enemy.
pub const ENEMY_SCALE: u32 = 5;

} // verus!
