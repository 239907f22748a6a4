use fluid_simulation::units::FULL_LIFE;
use fluid_simulation::units::GRAVITY;
use fluid_simulation::units::MAX_PARTICLES;
use fluid_simulation::units::MAX_SPAWN_SPEED;
use fluid_simulation::units::POSITION_SCALE;
use fluid_simulation::units::VELOCITY_SCALE;
use fluid_simulation::Particle;
use fluid_simulation::ParticleSystem;
use fluid_simulation::Vec2;

fn units(n: i64) -> i64 {
    n * POSITION_SCALE
}

fn default_system() -> ParticleSystem {
    ParticleSystem::new(units(200), units(300), units(100), false)
}

#[test]
fn particle_new_has_full_life() {
    let p = Particle::new(Vec2::new(1, 2), Vec2::new(3, 4));
    assert_eq!(p.position, Vec2::new(1, 2));
    assert_eq!(p.velocity, Vec2::new(3, 4));
    assert_eq!(p.life, FULL_LIFE);
}

#[test]
fn particle_update_is_semi_implicit_euler() {
    let mut p = Particle::new(Vec2::new(1_000, 2_000), Vec2::new(30, -40));
    p.update(16, 981);
    let vy = -40 + 981 * 16;
    assert_eq!(p.velocity, Vec2::new(30, vy));
    assert_eq!(p.position, Vec2::new(1_000 + 30 * 16, 2_000 + vy * 16));
    assert_eq!(p.life, FULL_LIFE - 5 * 16);
}

#[test]
fn particle_update_with_zero_step_changes_nothing() {
    let mut p = Particle::new(Vec2::new(7, 8), Vec2::new(9, 10));
    p.update(0, GRAVITY);
    assert_eq!(p, Particle::new(Vec2::new(7, 8), Vec2::new(9, 10)));
}

#[test]
fn tube_geometry_without_t_junction() {
    let s = default_system();
    assert_eq!(s.container_bounds(), (Vec2::new(units(50), units(50)), Vec2::new(units(250), units(350))));
    assert_eq!(s.tube_start(), Vec2::new(units(150), units(350)));
    assert_eq!(s.tube_end(), Vec2::new(units(150), units(450)));
    assert!(!s.t_junction());
    assert_eq!(s.t_junction_end(), None);
    assert!(s.get_particles().is_empty());
}

#[test]
fn tube_geometry_with_t_junction() {
    let s = ParticleSystem::new(units(200), units(300), units(100), true);
    assert_eq!(s.tube_start(), Vec2::new(units(150), units(350)));
    assert_eq!(s.tube_end(), Vec2::new(units(150), units(450)));
    assert!(s.t_junction());
    assert_eq!(s.t_junction_end(), Some(Vec2::new(units(200), units(450))));
}

#[test]
fn construction_is_deterministic() {
    let a = ParticleSystem::new(units(120), units(340), units(75), true);
    let b = ParticleSystem::new(units(120), units(340), units(75), true);
    assert_eq!(a.container_bounds(), b.container_bounds());
    assert_eq!(a.tube_start(), b.tube_start());
    assert_eq!(a.tube_end(), b.tube_end());
    assert_eq!(a.t_junction(), b.t_junction());
    assert_eq!(a.t_junction_end(), b.t_junction_end());
    assert_eq!(a.get_particles().len(), 0);
    assert_eq!(b.get_particles().len(), 0);
}

#[test]
fn wall_collision_clamps_left_wall() {
    let s = default_system();
    let mut p = Particle::new(Vec2::new(units(40), units(100)), Vec2::new(-10 * VELOCITY_SCALE, 0));
    s.collide_with_walls(&mut p);
    assert_eq!(p.position, Vec2::new(units(50), units(100)));
    assert_eq!(p.velocity, Vec2::new(5 * VELOCITY_SCALE, 0));
    assert_eq!(p.life, FULL_LIFE);
}

#[test]
fn wall_collision_clamps_right_wall_rounding_toward_zero() {
    let s = default_system();
    let mut p = Particle::new(Vec2::new(units(260), units(100)), Vec2::new(7, 3));
    s.collide_with_walls(&mut p);
    assert_eq!(p.position, Vec2::new(units(250), units(100)));
    assert_eq!(p.velocity, Vec2::new(-3, 3));
}

#[test]
fn wall_collision_leaves_inside_particle_alone() {
    let s = default_system();
    let mut p = Particle::new(Vec2::new(units(50), units(100)), Vec2::new(-11, 3));
    s.collide_with_walls(&mut p);
    assert_eq!(p, Particle::new(Vec2::new(units(50), units(100)), Vec2::new(-11, 3)));
}

#[test]
fn advance_emits_and_integrates_new_particle() {
    let mut s = default_system();
    s.advance(16, units(100), 0);
    let ps = s.get_particles();
    assert_eq!(ps.len(), 1);
    let vy = GRAVITY * 16;
    assert_eq!(ps[0].velocity, Vec2::new(0, vy));
    assert_eq!(ps[0].position, Vec2::new(units(100), units(300) + vy * 16));
    assert_eq!(ps[0].life, FULL_LIFE - 80);
}

#[test]
fn advance_accelerates_particle_in_tube() {
    let mut s = default_system();
    s.advance(1000, units(150), 0);
    let p = s.get_particles()[0];
    // One second of gravity drops the particle 98.1 units, below the tube's start.
    assert_eq!(p.position.y, units(300) + 981_000 * 1000);
    assert_eq!(p.velocity.y, 981_000 + 2_000_000);
    assert_eq!(p.velocity.x, 0);
    assert_eq!(p.life, FULL_LIFE / 2);
}

#[test]
fn advance_outside_tube_radius_has_no_tube_bias() {
    let mut s = default_system();
    s.advance(1000, units(160), 0);
    let p = s.get_particles()[0];
    assert_eq!(p.velocity.y, 981_000);
}

#[test]
fn advance_pushes_toward_t_junction_below_tube_end() {
    let mut s = ParticleSystem::new(units(200), units(300), 0, true);
    s.advance(1000, units(60), 0);
    let p = s.get_particles()[0];
    assert_eq!(p.velocity.x, 1_000_000);
    assert_eq!(p.velocity.y, 981_000);
}

#[test]
fn advance_without_t_junction_has_no_sideways_push() {
    let mut s = ParticleSystem::new(units(200), units(300), 0, false);
    s.advance(1000, units(60), 0);
    assert_eq!(s.get_particles()[0].velocity.x, 0);
}

#[test]
fn dead_particles_are_removed() {
    let mut s = default_system();
    s.advance(1000, units(60), 0);
    assert_eq!(s.get_particles().len(), 1);
    s.advance(1000, units(70), 0);
    // The first particle reached life 0 and is gone; the second is left.
    let ps = s.get_particles();
    assert_eq!(ps.len(), 1);
    assert_eq!(ps[0].position.x, units(70));
    assert!(ps.iter().all(|p| p.life > 0));
}

#[test]
fn count_never_exceeds_cap() {
    let mut s = default_system();
    for _ in 0..1100 {
        s.update(0);
        assert!(s.get_particles().len() <= MAX_PARTICLES);
    }
    assert_eq!(s.get_particles().len(), MAX_PARTICLES);
}

#[test]
fn full_system_emits_nothing() {
    let mut s = default_system();
    for _ in 0..MAX_PARTICLES {
        s.advance(0, units(100), 0);
    }
    s.advance(0, units(200), 0);
    let ps = s.get_particles();
    assert_eq!(ps.len(), MAX_PARTICLES);
    assert!(ps.iter().all(|p| p.position.x == units(100)));
}

#[test]
fn sixty_steps_keep_sixty_particles() {
    let mut s = default_system();
    for _ in 0..60 {
        s.update(16);
    }
    assert_eq!(s.get_particles().len(), 60);
    assert!(s.get_particles().iter().all(|p| p.life > 0));
}

#[test]
fn emission_draws_spread_over_their_ranges() {
    let mut s = default_system();
    for _ in 0..200 {
        s.update(0);
    }
    let ps = s.get_particles();
    let (min, max) = s.container_bounds();
    assert!(ps.iter().all(|p| min.x <= p.position.x && p.position.x < max.x));
    assert!(ps.iter().all(|p| 0 <= p.velocity.y && p.velocity.y < MAX_SPAWN_SPEED));
    assert!(ps.iter().any(|p| p.position.x != min.x));
    assert!(ps.iter().any(|p| p.velocity.y != 0));
}
