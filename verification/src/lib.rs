//! A bounded population of short-lived enemies: a repeating timer spawns them,
//! the oldest is retired once the cap is exceeded, and a retired enemy is
//! removed when its death animation has run its course.

pub mod config;
pub mod despawn;
pub mod entity;
pub mod laws;
pub mod manager;
pub mod plugin;
pub mod retirement;
pub mod store;
pub mod timer;
