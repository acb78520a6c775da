use nalgebra::{Point2, Rotation2 as FloatRotation, Vector2 as FloatVector};
use woids::boid::Boid;
use woids::mesh::flock_vertices;
use woids::sim::update_boids;
use woids::vector::{Rotation2, Vector2};

struct FloatBoid {
    position: Point2<f64>,
    rotation: FloatRotation<f64>,
    velocity: FloatVector<f64>,
}

fn torus(x: f64) -> f64 {
    if x.abs() > 1.0 {
        -x + 0.01
    } else {
        x
    }
}

fn float_tick(boids: &mut Vec<FloatBoid>, dt: f64) {
    let n = boids.len() as f64;
    let mut center = FloatVector::new(0.0, 0.0);
    let mut mean_velocity = FloatVector::new(0.0, 0.0);
    for b in boids.iter() {
        center += b.position.coords;
        mean_velocity += b.velocity;
    }
    center /= n;
    mean_velocity /= n;
    let positions: Vec<Point2<f64>> = boids.iter().map(|b| b.position).collect();
    for b in boids.iter_mut() {
        let cohesion = center - b.position.coords;
        let mut separation = FloatVector::new(0.0, 0.0);
        for other in positions.iter() {
            let distance = nalgebra::distance(&b.position, other);
            if distance < 0.1 && distance > 0.0 {
                separation += (b.position.coords - other.coords).normalize() / distance;
            }
        }
        let alignment = mean_velocity - b.velocity;
        let steer = cohesion * 0.4 + separation * 2.0 + alignment * 0.02;
        b.velocity = b.velocity.normalize() * 150.0 + steer;
        b.position += b.velocity * dt;
        b.position = Point2::new(torus(b.position.x), torus(b.position.y));
        b.rotation = FloatRotation::rotation_between(&FloatVector::new(0.0, 1.0), &b.velocity);
    }
}

fn to_fixed(x: f64) -> i64 {
    (x * 1_000_000.0).round() as i64
}

fn to_float(x: i64) -> f64 {
    x as f64 / 1_000_000.0
}

fn close(a: f64, b: f64, tolerance: f64) -> bool {
    (a - b).abs() <= tolerance
}

fn flocks() -> (Vec<Boid>, Vec<FloatBoid>) {
    let raw: [(f64, f64, f64, f64); 6] = [
        (0.10, 0.20, 10.0, 1.0),
        (0.13, 0.24, -3.0, 4.0),
        (-0.70, -0.10, 0.5, -2.0),
        (0.45, -0.62, 10.0, 1.0),
        (0.47, -0.60, -7.0, -7.0),
        (-0.05, 0.91, 1.0, 9.0),
    ];
    let mut fixed = Vec::new();
    let mut float = Vec::new();
    for (px, py, vx, vy) in raw {
        fixed.push(Boid {
            position: Vector2::new(to_fixed(px), to_fixed(py)),
            rotation: Rotation2::identity(),
            velocity: Vector2::new(to_fixed(vx), to_fixed(vy)),
        });
        float.push(FloatBoid {
            position: Point2::new(px, py),
            rotation: FloatRotation::identity(),
            velocity: FloatVector::new(vx, vy),
        });
    }
    (fixed, float)
}

#[test]
fn one_tick_agrees_with_floating_point() {
    let (mut fixed, mut float) = flocks();
    assert_eq!(update_boids(&mut fixed, 4_000), Ok(()));
    float_tick(&mut float, 0.004);
    for (a, b) in fixed.iter().zip(float.iter()) {
        assert!(close(to_float(a.velocity.x), b.velocity.x, 1e-3));
        assert!(close(to_float(a.velocity.y), b.velocity.y, 1e-3));
        assert!(close(to_float(a.position.x), b.position.x, 1e-4));
        assert!(close(to_float(a.position.y), b.position.y, 1e-4));
    }
}

#[test]
fn heading_agrees_with_rotation_between() {
    let (mut fixed, mut float) = flocks();
    assert_eq!(update_boids(&mut fixed, 4_000), Ok(()));
    float_tick(&mut float, 0.004);
    for (a, b) in fixed.iter().zip(float.iter()) {
        let m = b.rotation.matrix();
        assert!(close(to_float(a.rotation.cos), m[(0, 0)], 1e-5));
        assert!(close(to_float(a.rotation.sin), m[(1, 0)], 1e-5));
    }
}

#[test]
fn mesh_agrees_with_floating_point() {
    let (mut fixed, mut float) = flocks();
    assert_eq!(update_boids(&mut fixed, 4_000), Ok(()));
    float_tick(&mut float, 0.004);
    let mesh = flock_vertices(&fixed);
    let corners = [
        FloatVector::new(0.02, -0.05),
        FloatVector::new(0.0, 0.05),
        FloatVector::new(-0.02, -0.05),
    ];
    for (i, b) in float.iter().enumerate() {
        for (k, corner) in corners.iter().enumerate() {
            let expected = b.rotation * corner + b.position.coords;
            let vertex = mesh[3 * i + k];
            assert!(close(to_float(vertex.position[0]), expected.x, 1e-4));
            assert!(close(to_float(vertex.position[1]), expected.y, 1e-4));
        }
    }
}

#[test]
fn several_ticks_stay_close_to_floating_point() {
    let (mut fixed, mut float) = flocks();
    for _ in 0..5 {
        assert_eq!(update_boids(&mut fixed, 1_000), Ok(()));
        float_tick(&mut float, 0.001);
    }
    for (a, b) in fixed.iter().zip(float.iter()) {
        assert!(close(to_float(a.velocity.x), b.velocity.x, 1e-2));
        assert!(close(to_float(a.velocity.y), b.velocity.y, 1e-2));
        assert!(close(to_float(a.position.x), b.position.x, 1e-3));
        assert!(close(to_float(a.position.y), b.position.y, 1e-3));
    }
}
