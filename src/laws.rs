//! Properties of the simulation that hold for every input, proved from the
//! step's specification.

use vstd::prelude::*;
use crate::particle::Particle;
use crate::system::initial;
use crate::system::survivors;
use crate::system::valid_dimensions;
use crate::system::SystemView;
use crate::units::MAX_PARTICLES;

verus! {

/// A step never takes a system above `MAX_PARTICLES` particles: at most
/// one is emitted, and only when there is room, and removal only shrinks
/// the collection. By induction the bound holds after any number of steps.
pub proof fn lemma_step_keeps_count_bounded(s: SystemView, dt: int, x: i64, vy: i64)
    requires
        s.particles.len() <= MAX_PARTICLES,
    ensures
        s.after_step(dt, x, vy).particles.len() <= MAX_PARTICLES,
{
    let moved = s.moved_all(dt, s.with_emission(x, vy));
    moved.filter_lemma(|p: Particle| p.life > 0);
}

/// After a step every particle left has life above zero, and no particle
/// whose life ran out during the step is still in the collection.
pub proof fn lemma_step_removes_dead(s: SystemView, dt: int, x: i64, vy: i64)
    ensures
        forall|i: int|
            0 <= i < s.after_step(dt, x, vy).particles.len()
                ==> #[trigger] s.after_step(dt, x, vy).particles[i].life > 0,
        forall|p: Particle|
            s.moved_all(dt, s.with_emission(x, vy)).contains(p) && p.life <= 0
                ==> !(#[trigger] s.after_step(dt, x, vy).particles.contains(p)),
{
    let moved = s.moved_all(dt, s.with_emission(x, vy));
    moved.filter_lemma(|p: Particle| p.life > 0);
    assert(s.after_step(dt, x, vy).particles == survivors(moved));
}

/// Building a system twice from the same dimensions gives the same
/// geometry, and both times an empty collection of particles.
pub proof fn lemma_construction_is_deterministic(
    first: SystemView,
    second: SystemView,
    width: int,
    height: int,
    tube_length: int,
    t_junction: bool,
)
    requires
        valid_dimensions(width, height, tube_length),
        first == initial(width, height, tube_length, t_junction),
        second == initial(width, height, tube_length, t_junction),
    ensures
        first.same_geometry(second),
        first.particles.len() == 0,
        second.particles.len() == 0,
{
}

} // verus!
