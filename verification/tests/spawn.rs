use woids::boid::{
    coordinate_from_raw, flock_is_valid, initialize_boids, initialize_flock, spawn_boid, Boid,
    INITIAL_VELOCITY_X, INITIAL_VELOCITY_Y, MAX_BOIDS, MAX_COORDINATE, MAX_VELOCITY, NUM_BOIDS,
    NUM_VERTS,
};
use woids::fixed::SCALE;
use woids::sim::update_boids;
use woids::vector::{Rotation2, Vector2};

#[test]
fn flock_constants() {
    assert_eq!(NUM_BOIDS, 20);
    assert_eq!(NUM_VERTS, 3);
    assert_eq!(INITIAL_VELOCITY_X, 10 * SCALE);
    assert_eq!(INITIAL_VELOCITY_Y, SCALE);
}

#[test]
fn raw_words_map_onto_the_domain() {
    assert_eq!(coordinate_from_raw(0), -1_000_000);
    assert_eq!(coordinate_from_raw(255), -1_000_000);
    assert_eq!(coordinate_from_raw(256), -999_999);
    assert_eq!(coordinate_from_raw(0x4000_0000), -500_000);
    assert_eq!(coordinate_from_raw(0x8000_0000), 0);
    assert_eq!(coordinate_from_raw(3_160_493_571), 471_719);
    assert_eq!(coordinate_from_raw(u32::MAX), 999_999);
}

#[test]
fn spawned_boid_heads_up_with_the_initial_velocity() {
    let b = spawn_boid(0x4000_0000, u32::MAX);
    assert_eq!(
        b,
        Boid {
            position: Vector2::new(-500_000, 999_999),
            rotation: Rotation2::identity(),
            velocity: Vector2::new(10_000_000, 1_000_000),
        }
    );
    assert!(b.is_valid());
}

#[test]
fn boid_validity_tests_every_field() {
    let ok = spawn_boid(7, 9);
    assert!(Boid { position: Vector2::new(MAX_COORDINATE, -MAX_COORDINATE), ..ok }.is_valid());
    assert!(!Boid { position: Vector2::new(MAX_COORDINATE + 1, 0), ..ok }.is_valid());
    assert!(!Boid { velocity: Vector2::new(0, MAX_VELOCITY + 1), ..ok }.is_valid());
    assert!(!Boid { rotation: Rotation2 { cos: 0, sin: SCALE + 1 }, ..ok }.is_valid());
}

#[test]
fn flock_validity_needs_every_boid() {
    let ok = spawn_boid(7, 9);
    let bad = Boid { position: Vector2::new(0, -MAX_COORDINATE - 1), ..ok };
    assert!(flock_is_valid(&[]));
    assert!(flock_is_valid(&[ok, ok]));
    assert!(!flock_is_valid(&[ok, bad, ok]));
}

#[test]
fn initial_flock_has_twenty_boids_in_the_domain() {
    let flock = initialize_boids();
    assert_eq!(flock.len(), 20);
    let mut i = 0;
    while i < flock.len() {
        let b = flock[i];
        assert!(-SCALE <= b.position.x && b.position.x < SCALE);
        assert!(-SCALE <= b.position.y && b.position.y < SCALE);
        assert_eq!(b.rotation, Rotation2::identity());
        assert_eq!(b.velocity, Vector2::new(10_000_000, 1_000_000));
        i += 1;
    }
    assert!(flock_is_valid(&flock));
}

#[test]
fn initial_positions_are_not_all_the_same() {
    let flock = initialize_flock(256).unwrap();
    let first = flock[0].position;
    let mut differs = false;
    let mut i = 1;
    while i < flock.len() {
        if flock[i].position != first {
            differs = true;
        }
        i += 1;
    }
    assert!(differs);
}

#[test]
fn initialize_flock_makes_as_many_boids_as_asked() {
    assert_eq!(initialize_flock(1).unwrap().len(), 1);
    assert_eq!(initialize_flock(37).unwrap().len(), 37);
    assert_eq!(initialize_flock(MAX_BOIDS).unwrap().len(), MAX_BOIDS);
}

#[test]
fn initialize_flock_refuses_an_empty_flock() {
    assert_eq!(initialize_flock(0), None);
}

#[test]
fn initialize_flock_refuses_an_oversized_flock() {
    assert_eq!(initialize_flock(MAX_BOIDS + 1), None);
    assert_eq!(initialize_flock(usize::MAX), None);
}

#[test]
fn initial_flock_can_be_advanced() {
    let mut flock = initialize_boids();
    let mut tick = 0;
    while tick < 10 {
        if !flock_is_valid(&flock) {
            break;
        }
        assert_eq!(update_boids(&mut flock, 1_000), Ok(()));
        assert_eq!(flock.len(), 20);
        tick += 1;
    }
    assert!(tick > 0);
}
