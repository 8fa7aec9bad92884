use enemy_spawner::config::{
    DYING_FRAME_THRESHOLD, ENEMY_SCALE, POPULATION_CAP, SPAWN_HALF_EXTENT, SPAWN_INTERVAL_NANOS,
};
use enemy_spawner::despawn::has_died;
use enemy_spawner::entity::{Animation, AnimationTag, Dying, Enemy, Lifecycle, ShouldKill};
use enemy_spawner::manager::{startup, update, SpawnOutcome};
use enemy_spawner::plugin::EnemySpawnerPlugin;
use enemy_spawner::retirement::kill;
use enemy_spawner::store::{EntityStore, Phase};

#[test]
fn configuration_values() {
    assert_eq!(POPULATION_CAP, 3);
    assert_eq!(DYING_FRAME_THRESHOLD, 49);
    assert_eq!(SPAWN_HALF_EXTENT, 250);
    assert_eq!(ENEMY_SCALE, 5);
}

#[test]
fn startup_tracks_nothing() {
    let manager = startup();
    assert!(manager.enemies().is_empty());
    assert_eq!(manager.len(), 0);
    assert_eq!(manager.elapsed_nanos(), 0);
}

#[test]
fn first_interval_spawns_one_active_enemy() {
    let mut manager = startup();
    let mut store = EntityStore::new();
    let report = EnemySpawnerPlugin.run_frame(&mut manager, &mut store, SPAWN_INTERVAL_NANOS);
    assert_eq!(report.spawn, SpawnOutcome { spawned: Some(0), retired: None });
    assert!(report.dying.is_empty());
    assert!(report.removed.is_empty());
    assert_eq!(manager.enemies(), &vec![0]);
    assert_eq!(store.phase(0), Phase::Active);
    assert_eq!(
        store.get(0),
        Some(Enemy {
            animation: Animation { tag: AnimationTag::Idle, is_playing: true, current_frame: 0 },
            lifecycle: Lifecycle::Active,
        })
    );
}

#[test]
fn fourth_interval_retires_the_first_enemy() {
    let mut manager = startup();
    let mut store = EntityStore::new();
    for _ in 0..3 {
        let report = EnemySpawnerPlugin.run_frame(&mut manager, &mut store, SPAWN_INTERVAL_NANOS);
        assert_eq!(report.spawn.retired, None);
    }
    assert_eq!(manager.enemies(), &vec![0, 1, 2]);

    let report = EnemySpawnerPlugin.run_frame(&mut manager, &mut store, SPAWN_INTERVAL_NANOS);
    assert_eq!(report.spawn, SpawnOutcome { spawned: Some(3), retired: Some(0) });
    assert_eq!(report.dying, vec![0]);
    assert!(report.removed.is_empty());
    assert_eq!(manager.enemies(), &vec![1, 2, 3]);
    assert_eq!(manager.len(), 3);
    assert_eq!(store.phase(0), Phase::Dying);
    assert_eq!(
        store.get(0),
        Some(Enemy {
            animation: Animation { tag: AnimationTag::Death, is_playing: true, current_frame: 0 },
            lifecycle: Lifecycle::Dying(Dying),
        })
    );
    assert_eq!(store.phase(1), Phase::Active);
    assert_eq!(store.phase(2), Phase::Active);
    assert_eq!(store.phase(3), Phase::Active);

    assert!(store.record_playback(0, true, 48));
    let report = EnemySpawnerPlugin.run_frame(&mut manager, &mut store, 0);
    assert!(report.removed.is_empty());
    assert_eq!(store.phase(0), Phase::Dying);

    assert!(store.record_playback(0, true, 49));
    let report = EnemySpawnerPlugin.run_frame(&mut manager, &mut store, 0);
    assert_eq!(report.removed, vec![0]);
    assert_eq!(store.phase(0), Phase::Removed);
    assert_eq!(store.get(0), None);
    assert_eq!(store.query_animation(0), None);
    assert!(!manager.enemies().contains(&0));
}

#[test]
fn update_alone_flags_without_starting_the_animation() {
    let mut manager = startup();
    let mut store = EntityStore::new();
    for _ in 0..4 {
        update(&mut manager, &mut store, SPAWN_INTERVAL_NANOS);
    }
    assert_eq!(store.phase(0), Phase::ShouldKill);
    assert_eq!(
        store.get(0),
        Some(Enemy {
            animation: Animation { tag: AnimationTag::Idle, is_playing: true, current_frame: 0 },
            lifecycle: Lifecycle::ShouldKill(ShouldKill),
        })
    );
}

#[test]
fn population_never_exceeds_the_cap() {
    let mut manager = startup();
    let mut store = EntityStore::new();
    let deltas: [u64; 7] = [0, 1, 700_000_000, 2_000_000_000, 1_999_999_999, 5_000_000_000, u64::MAX];
    for round in 0..40 {
        let delta = deltas[round % deltas.len()];
        update(&mut manager, &mut store, delta);
        assert!(manager.len() <= POPULATION_CAP);
        assert!(manager.elapsed_nanos() < SPAWN_INTERVAL_NANOS);
    }
    assert_eq!(manager.len(), POPULATION_CAP);
}

#[test]
fn enemies_retire_in_spawn_order() {
    let mut manager = startup();
    let mut store = EntityStore::new();
    let mut retired: Vec<usize> = Vec::new();
    let mut spawned: Vec<usize> = Vec::new();
    for _ in 0..10 {
        let outcome = update(&mut manager, &mut store, SPAWN_INTERVAL_NANOS);
        if let Some(id) = outcome.retired {
            assert!(manager.enemies().iter().all(|other| *other > id));
            retired.push(id);
        }
        if let Some(id) = outcome.spawned {
            assert_eq!(manager.enemies().last(), Some(&id));
            spawned.push(id);
        }
    }
    assert_eq!(spawned, vec![0, 1, 2, 3, 4, 5, 6, 7, 8, 9]);
    assert_eq!(retired, vec![0, 1, 2, 3, 4, 5, 6]);
    assert_eq!(manager.enemies(), &vec![7, 8, 9]);
}

#[test]
fn lifecycle_moves_through_every_phase_in_order() {
    let mut manager = startup();
    let mut store = EntityStore::new();
    assert_eq!(store.phase(0), Phase::Unborn);
    for _ in 0..3 {
        update(&mut manager, &mut store, SPAWN_INTERVAL_NANOS);
    }
    assert_eq!(store.phase(0), Phase::Active);
    kill(&mut store);
    has_died(&mut store);
    assert_eq!(store.phase(0), Phase::Active);

    update(&mut manager, &mut store, SPAWN_INTERVAL_NANOS);
    assert_eq!(store.phase(0), Phase::ShouldKill);
    assert_eq!(has_died(&mut store), Vec::<usize>::new());
    assert_eq!(store.phase(0), Phase::ShouldKill);

    assert_eq!(kill(&mut store), vec![0]);
    assert_eq!(store.phase(0), Phase::Dying);
    assert_eq!(has_died(&mut store), Vec::<usize>::new());
    assert_eq!(store.phase(0), Phase::Dying);

    store.record_playback(0, false, 10);
    assert_eq!(has_died(&mut store), vec![0]);
    assert_eq!(store.phase(0), Phase::Removed);

    kill(&mut store);
    has_died(&mut store);
    update(&mut manager, &mut store, SPAWN_INTERVAL_NANOS);
    assert_eq!(store.phase(0), Phase::Removed);
}

#[test]
fn retirement_step_twice_changes_nothing_more() {
    let mut manager = startup();
    let mut store = EntityStore::new();
    for _ in 0..5 {
        update(&mut manager, &mut store, SPAWN_INTERVAL_NANOS);
    }
    assert_eq!(kill(&mut store), vec![0, 1]);
    store.record_playback(0, true, 7);
    let first = (0..store.len()).map(|id| store.get(id)).collect::<Vec<_>>();
    assert_eq!(kill(&mut store), Vec::<usize>::new());
    let second = (0..store.len()).map(|id| store.get(id)).collect::<Vec<_>>();
    assert_eq!(first, second);
    assert_eq!(store.query_animation(0), Some((true, 7)));
    assert_eq!(store.phase(0), Phase::Dying);
    assert_eq!(store.phase(1), Phase::Dying);
}

#[test]
fn dying_enemy_is_removed_within_fifty_frame_advances() {
    let mut manager = startup();
    let mut store = EntityStore::new();
    for _ in 0..4 {
        EnemySpawnerPlugin.run_frame(&mut manager, &mut store, SPAWN_INTERVAL_NANOS);
    }
    assert_eq!(store.phase(0), Phase::Dying);
    let mut advances = 0;
    while store.phase(0) == Phase::Dying {
        assert!(store.advance_frame(0));
        advances += 1;
        assert!(advances <= 50);
        has_died(&mut store);
    }
    assert_eq!(advances, 49);
    assert_eq!(store.phase(0), Phase::Removed);
}

#[test]
fn stopped_animation_removes_a_dying_enemy_at_once() {
    let mut manager = startup();
    let mut store = EntityStore::new();
    for _ in 0..4 {
        EnemySpawnerPlugin.run_frame(&mut manager, &mut store, SPAWN_INTERVAL_NANOS);
    }
    store.record_playback(0, false, 0);
    assert_eq!(has_died(&mut store), vec![0]);
    assert_eq!(store.get(0), None);
}

#[test]
fn stopped_animation_does_not_remove_an_enemy_that_is_not_dying() {
    let mut manager = startup();
    let mut store = EntityStore::new();
    for _ in 0..4 {
        update(&mut manager, &mut store, SPAWN_INTERVAL_NANOS);
    }
    store.record_playback(0, false, 60);
    store.record_playback(1, false, 60);
    assert_eq!(has_died(&mut store), Vec::<usize>::new());
    assert_eq!(store.phase(0), Phase::ShouldKill);
    assert_eq!(store.phase(1), Phase::Active);
}

#[test]
fn enemy_removed_from_outside_is_passed_over() {
    let mut manager = startup();
    let mut store = EntityStore::new();
    for _ in 0..3 {
        update(&mut manager, &mut store, SPAWN_INTERVAL_NANOS);
    }
    assert!(store.remove_entity(0));
    let outcome = update(&mut manager, &mut store, SPAWN_INTERVAL_NANOS);
    assert_eq!(outcome, SpawnOutcome { spawned: Some(3), retired: Some(0) });
    assert_eq!(store.phase(0), Phase::Removed);
    assert_eq!(kill(&mut store), Vec::<usize>::new());
    assert_eq!(has_died(&mut store), Vec::<usize>::new());
    assert_eq!(manager.enemies(), &vec![1, 2, 3]);
}

#[test]
fn several_dying_enemies_are_swept_together() {
    let mut manager = startup();
    let mut store = EntityStore::new();
    for _ in 0..6 {
        EnemySpawnerPlugin.run_frame(&mut manager, &mut store, SPAWN_INTERVAL_NANOS);
    }
    assert_eq!(store.phase(0), Phase::Dying);
    assert_eq!(store.phase(1), Phase::Dying);
    assert_eq!(store.phase(2), Phase::Dying);
    store.record_playback(0, true, 49);
    store.record_playback(1, true, 12);
    store.record_playback(2, true, 300);
    assert_eq!(has_died(&mut store), vec![0, 2]);
    assert_eq!(store.phase(1), Phase::Dying);
    assert_eq!(store.query_animation(1), Some((true, 12)));
}
