//! Two-dimensional fixed-point vectors and single particles.

use vstd::prelude::*;
use crate::units::FULL_LIFE;
use crate::units::LIFE_DECAY_PER_MS;

verus! {

/// A point or a velocity with integer coordinates. `y` grows downward.
#[derive(Clone, Copy, Debug, PartialEq, Eq, Structural)]
pub struct Vec2 {
    pub x: i64,
    pub y: i64,
}

impl Vec2 {
    pub fn new(x: i64, y: i64) -> (r: Vec2)
        ensures
            r.x == x,
            r.y == y,
    {
        Vec2 { x, y }
    }
}

/// One particle: where it is, how it moves, and how much life it has left.
#[derive(Clone, Copy, Debug, PartialEq, Eq, Structural)]
pub struct Particle {
    pub position: Vec2,
    pub velocity: Vec2,
    pub life: i64,
}

/// The results of one integration step of `p` all fit in an `i64`.
pub open spec fn update_fits(p: Particle, dt: int, gravity: int) -> bool {
    let vy = p.velocity.y + gravity * dt;
    &&& i64::MIN <= vy <= i64::MAX
    &&& i64::MIN <= p.position.x + p.velocity.x * dt <= i64::MAX
    &&& i64::MIN <= p.position.y + vy * dt <= i64::MAX
    &&& i64::MIN <= p.life - LIFE_DECAY_PER_MS * dt <= i64::MAX
}

/// The particle after one semi-implicit Euler step of `dt` milliseconds:
/// gravity first changes the vertical velocity, the new velocity then moves
/// the particle, and the particle loses half a unit of life per second.
pub open spec fn integrated(p: Particle, dt: int, gravity: int) -> Particle {
    let vy = p.velocity.y + gravity * dt;
    Particle {
        position: Vec2 {
            x: (p.position.x + p.velocity.x * dt) as i64,
            y: (p.position.y + vy * dt) as i64,
        },
        velocity: Vec2 { x: p.velocity.x, y: vy as i64 },
        life: (p.life - LIFE_DECAY_PER_MS * dt) as i64,
    }
}

impl Particle {
    /// A particle with full life.
    pub fn new(position: Vec2, velocity: Vec2) -> (r: Particle)
        ensures
            r.position == position,
            r.velocity == velocity,
            r.life == FULL_LIFE,
    {
        Particle { position, velocity, life: FULL_LIFE }
    }

    /// Advances the particle by `dt` milliseconds under a downward
    /// acceleration `gravity` (in acceleration units).
    pub fn update(&mut self, dt: i64, gravity: i64)
        requires
            update_fits(*old(self), dt as int, gravity as int),
        ensures
            final(self).velocity.x == old(self).velocity.x,
            final(self).velocity.y == old(self).velocity.y + gravity * dt,
            final(self).position.x == old(self).position.x + final(self).velocity.x * dt,
            final(self).position.y == old(self).position.y + final(self).velocity.y * dt,
            final(self).life == old(self).life - LIFE_DECAY_PER_MS * dt,
            *final(self) == integrated(*old(self), dt as int, gravity as int),
    {
        // Products of two i64 values always fit in an i128.
        let vy = self.velocity.y as i128 + gravity as i128 * dt as i128;
        self.velocity.y = vy as i64;
        let x = self.position.x as i128 + self.velocity.x as i128 * dt as i128;
        self.position.x = x as i64;
        let y = self.position.y as i128 + self.velocity.y as i128 * dt as i128;
        self.position.y = y as i64;
        let life = self.life as i128 - LIFE_DECAY_PER_MS as i128 * dt as i128;
        self.life = life as i64;
    }
}

} // verus!
