use particle_sim::particle::{ColorM, Particle, ParticleInstance, Vec2M};
use particle_sim::sim::ParticleSimulation;

fn gray() -> ColorM {
    ColorM { r: 500, g: 500, b: 500, a: 1000 }
}

#[test]
fn bounce_off_top_boundary() {
    // A particle at (10, 10) px moving up at 100 px/s, dt = 1 s, gravity
    // 9.8 px/s^2, damping 0.7, radius 1.5 px, bounds 800 x 600 px.
    // Velocity becomes (0, -90.2) px/s, the tentative position (10, -80.2)
    // px crosses the top boundary, so the position clamps to y = 1.5 px and
    // the vertical velocity flips to 90.2 * 0.7 = 63.14 px/s.
    let mut p = Particle::new(
        Vec2M { x: 10_000, y: 10_000 },
        Vec2M { x: 0, y: -100_000 },
        gray(),
    );
    p.update(1_000, 800_000, 600_000);
    assert_eq!(p.velocity.x, 0);
    assert_eq!(p.velocity.y, 63_140);
    assert_eq!(p.position.x, 10_000);
    assert_eq!(p.position.y, 1_500);
}

#[test]
fn bounce_off_bottom_boundary() {
    // Moving down at 100 px/s from just above the bottom: after gravity the
    // speed is 109.8 px/s, the tentative position crosses the bottom, so the
    // position clamps to height - radius and the velocity flips to
    // -109.8 * 0.7 = -76.86 px/s.
    let mut p = Particle::new(
        Vec2M { x: 100_000, y: 599_000 },
        Vec2M { x: 0, y: 100_000 },
        gray(),
    );
    p.update(1_000, 800_000, 600_000);
    assert_eq!(p.position.y, 598_500);
    assert_eq!(p.velocity.y, -76_860);
}

#[test]
fn zero_dt_is_a_no_op() {
    let mut p = Particle::new(
        Vec2M { x: 400_000, y: 300_000 },
        Vec2M { x: 12_345, y: -6_789 },
        gray(),
    );
    let before = p;
    p.update(0, 800_000, 600_000);
    assert_eq!(p, before);
}

#[test]
fn step_keeps_every_particle_inside() {
    // Even a particle flying fast toward a corner ends the step fully
    // inside the play area.
    let mut p = Particle::new(
        Vec2M { x: 790_000, y: 590_000 },
        Vec2M { x: 5_000_000, y: 5_000_000 },
        gray(),
    );
    p.update(1_000, 800_000, 600_000);
    assert!(p.position.x >= 1_500 && p.position.x <= 800_000 - 1_500);
    assert!(p.position.y >= 1_500 && p.position.y <= 600_000 - 1_500);
}

#[test]
fn corner_hit_damps_both_axes() {
    // Crossing the right and bottom boundaries in the same step clamps both
    // coordinates and flips both components.
    let mut p = Particle::new(
        Vec2M { x: 799_000, y: 599_000 },
        Vec2M { x: 200_000, y: 200_000 },
        gray(),
    );
    p.update(1_000, 800_000, 600_000);
    assert_eq!(p.position.x, 798_500);
    assert_eq!(p.position.y, 598_500);
    assert_eq!(p.velocity.x, -140_000); // -(200 * 0.7) px/s: gravity only acts on y
    assert_eq!(p.velocity.y, -146_860); // -(209.8 * 0.7) px/s
}

#[test]
fn initial_store_is_inside_bounds_with_pastel_colors() {
    // 5000 particles over an 800 x 600 play area: every position in
    // [0, 800) x [0, 600) px, every color channel in [0.3, 1.0), alpha
    // exactly 1.0.
    let sim = ParticleSimulation::new(800, 600);
    let mut first_x: Option<i64> = None;
    let mut all_same_x = true;
    let mut count = 0usize;
    for p in &sim.particles {
        assert!(p.position.x >= 0 && p.position.x < 800_000);
        assert!(p.position.y >= 0 && p.position.y < 600_000);
        assert!(p.velocity.x >= -50_000 && p.velocity.x < 50_000);
        assert!(p.velocity.y >= -50_000 && p.velocity.y < 50_000);
        assert!(p.color.r >= 300 && p.color.r < 1_000);
        assert!(p.color.g >= 300 && p.color.g < 1_000);
        assert!(p.color.b >= 300 && p.color.b < 1_000);
        assert_eq!(p.color.a, 1_000);
        match first_x {
            None => first_x = Some(p.position.x),
            Some(x) => {
                if p.position.x != x {
                    all_same_x = false;
                }
            }
        }
        count += 1;
    }
    assert_eq!(count, 5000);
    // 5000 independent uniform draws over 800000 values never coincide.
    assert!(!all_same_x);
}

#[test]
fn store_with_zero_count_is_empty() {
    let sim = ParticleSimulation::with_count(0, 800, 600);
    assert_eq!(sim.len(), 0);
    assert!(sim.get_instance_data().is_empty());
}

#[test]
fn projection_is_a_pure_function_of_state() {
    // Two projections with no step between them are identical.
    let sim = ParticleSimulation::new(640, 480);
    let a = sim.get_instance_data();
    let b = sim.get_instance_data();
    assert_eq!(a, b);
}

#[test]
fn projection_carries_position_and_color() {
    let p = Particle::new(
        Vec2M { x: 123_456, y: 654_321 },
        Vec2M { x: 7, y: -7 },
        ColorM { r: 310, g: 420, b: 530, a: 1000 },
    );
    let inst: ParticleInstance = p.to_instance();
    assert_eq!(inst.position, Vec2M { x: 123_456, y: 654_321 });
    assert_eq!(inst.color, ColorM { r: 310, g: 420, b: 530, a: 1000 });
}

#[test]
fn store_update_advances_every_particle() {
    // A 16 ms step away from every boundary: pure gravity plus drift,
    // truncated toward zero at each scaling.
    let particles = vec![
        Particle::new(Vec2M { x: 100_000, y: 200_000 }, Vec2M { x: 10_000, y: -20_000 }, gray()),
        Particle::new(Vec2M { x: 400_000, y: 300_000 }, Vec2M { x: -4_000, y: 4_000 }, gray()),
    ];
    let mut sim = ParticleSimulation { particles };
    sim.update(16, 800_000, 600_000);
    assert_eq!(sim.len(), 2);

    // gravity: vy += 9800 * 16 / 1000 = 156 milli-px/s
    let first = &sim.particles[0];
    assert_eq!(first.velocity.x, 10_000);
    assert_eq!(first.velocity.y, -19_844);
    assert_eq!(first.position.x, 100_000 + 10_000 * 16 / 1_000);
    assert_eq!(first.position.y, 200_000 - 317); // -19844 * 16 / 1000 = -317

    let second = &sim.particles[1];
    assert_eq!(second.velocity.x, -4_000);
    assert_eq!(second.velocity.y, 4_156);
    assert_eq!(second.position.x, 400_000 - 64);
    assert_eq!(second.position.y, 300_000 + 66); // 4156 * 16 / 1000 = 66
}
