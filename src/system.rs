//! The particle system: container and tube geometry, emission, and the
//! per-frame step.

use vstd::prelude::*;
use crate::particle::integrated;
use crate::particle::Particle;
use crate::particle::Vec2;
use crate::random::gen_between;
use crate::units::BRANCH_FLOW_ACCELERATION;
use crate::units::BRANCH_OFFSET;
use crate::units::CONTAINER_ORIGIN;
use crate::units::FULL_LIFE;
use crate::units::GRAVITY;
use crate::units::MAX_EXTENT;
use crate::units::MAX_PARTICLES;
use crate::units::MAX_SPAWN_SPEED;
use crate::units::MAX_STEP_MS;
use crate::units::SURFACE_DEPTH;
use crate::units::TUBE_FLOW_ACCELERATION;
use crate::units::TUBE_RADIUS;

verus! {

/// What a particle system holds, as its contracts speak of it.
pub struct SystemView {
    pub particles: Seq<Particle>,
    pub container_min: Vec2,
    pub container_max: Vec2,
    pub tube_start: Vec2,
    pub tube_end: Vec2,
    pub t_junction: bool,
    pub t_junction_end: Option<Vec2>,
}

/// Container width and height and tube length that a system can be built
/// from. The width must be positive: particles are emitted at a random
/// position strictly inside the container's horizontal extent.
pub open spec fn valid_dimensions(width: int, height: int, tube_length: int) -> bool {
    &&& 0 < width <= MAX_EXTENT
    &&& 0 <= height <= MAX_EXTENT
    &&& 0 <= tube_length <= MAX_EXTENT
}

/// The freshly built system: the container's top-left corner sits at
/// `CONTAINER_ORIGIN` on both axes, the tube hangs from the middle of the
/// container's bottom edge, and the T-junction's end, when there is one,
/// lies `BRANCH_OFFSET` to the right of the tube's end. No particles yet.
pub open spec fn initial(width: int, height: int, tube_length: int, t_junction: bool) -> SystemView {
    let left = CONTAINER_ORIGIN as int;
    let top = CONTAINER_ORIGIN as int;
    let centre = left + width / 2;
    let bottom = top + height;
    SystemView {
        particles: Seq::empty(),
        container_min: Vec2 { x: left as i64, y: top as i64 },
        container_max: Vec2 { x: (left + width) as i64, y: bottom as i64 },
        tube_start: Vec2 { x: centre as i64, y: bottom as i64 },
        tube_end: Vec2 { x: centre as i64, y: (bottom + tube_length) as i64 },
        t_junction,
        t_junction_end: if t_junction {
            Some(Vec2 { x: (centre + BRANCH_OFFSET) as i64, y: (bottom + tube_length) as i64 })
        } else {
            None
        },
    }
}

/// A velocity reversed and halved, rounding toward zero.
pub open spec fn rebound(v: int) -> int {
    if v >= 0 {
        -(v / 2)
    } else {
        (-v) / 2
    }
}

/// The particles of `ps` that still have life left, in their order.
pub open spec fn survivors(ps: Seq<Particle>) -> Seq<Particle> {
    ps.filter(|p: Particle| p.life > 0)
}

impl SystemView {
    pub open spec fn width(self) -> int {
        self.container_max.x - self.container_min.x
    }

    pub open spec fn height(self) -> int {
        self.container_max.y - self.container_min.y
    }

    pub open spec fn tube_length(self) -> int {
        self.tube_end.y - self.tube_start.y
    }

    /// The geometry is the one that `initial` gives for some valid
    /// dimensions.
    pub open spec fn geometry_ok(self) -> bool {
        &&& valid_dimensions(self.width(), self.height(), self.tube_length())
        &&& self.same_geometry(initial(self.width(), self.height(), self.tube_length(), self.t_junction))
    }

    /// The two views agree on everything but their particles.
    pub open spec fn same_geometry(self, other: SystemView) -> bool {
        &&& self.container_min == other.container_min
        &&& self.container_max == other.container_max
        &&& self.tube_start == other.tube_start
        &&& self.tube_end == other.tube_end
        &&& self.t_junction == other.t_junction
        &&& self.t_junction_end == other.t_junction_end
    }

    /// Height at which particles are emitted.
    pub open spec fn surface_y(self) -> int {
        self.container_max.y - SURFACE_DEPTH
    }

    /// Bounds that every live particle keeps. With `spent` the life a
    /// particle has used up, its speeds and its drop below the emission line
    /// grow at most in proportion to `spent`; it stays between the side
    /// walls and never rises above the emission line.
    pub open spec fn in_range(self, p: Particle) -> bool {
        let spent = FULL_LIFE - p.life;
        &&& 0 < p.life <= FULL_LIFE
        &&& -200 * spent <= p.velocity.x <= 200 * spent
        &&& 0 <= p.velocity.y <= MAX_SPAWN_SPEED + 600 * spent
        &&& self.container_min.x <= p.position.x <= self.container_max.x
        &&& self.surface_y() <= p.position.y <= self.surface_y() + 1_300_000 * spent
    }

    /// The invariant of a particle system: consistent geometry, at most
    /// `MAX_PARTICLES` particles, and every particle alive and in range.
    pub open spec fn well_formed(self) -> bool {
        &&& self.geometry_ok()
        &&& self.particles.len() <= MAX_PARTICLES
        &&& forall|i: int| 0 <= i < self.particles.len() ==> self.in_range(#[trigger] self.particles[i])
    }

    /// The particle emitted at horizontal position `x` with downward
    /// speed `vy`.
    pub open spec fn emitted(self, x: i64, vy: i64) -> Particle {
        Particle {
            position: Vec2 { x, y: self.surface_y() as i64 },
            velocity: Vec2 { x: 0, y: vy },
            life: FULL_LIFE,
        }
    }

    /// The particles after emission: one more unless the system is full.
    pub open spec fn with_emission(self, x: i64, vy: i64) -> Seq<Particle> {
        if self.particles.len() < MAX_PARTICLES {
            self.particles.push(self.emitted(x, vy))
        } else {
            self.particles
        }
    }

    /// A particle beyond a side wall is put back on it, its horizontal
    /// velocity reversed and halved.
    pub open spec fn wall_collided(self, p: Particle) -> Particle {
        if p.position.x < self.container_min.x {
            Particle {
                position: Vec2 { x: self.container_min.x, y: p.position.y },
                velocity: Vec2 { x: rebound(p.velocity.x as int) as i64, y: p.velocity.y },
                life: p.life,
            }
        } else if p.position.x > self.container_max.x {
            Particle {
                position: Vec2 { x: self.container_max.x, y: p.position.y },
                velocity: Vec2 { x: rebound(p.velocity.x as int) as i64, y: p.velocity.y },
                life: p.life,
            }
        } else {
            p
        }
    }

    /// A particle below the tube's start and within `TUBE_RADIUS` of its
    /// centre line is pulled down harder.
    pub open spec fn tube_pulled(self, dt: int, p: Particle) -> Particle {
        if p.position.y > self.tube_start.y && self.tube_start.x - TUBE_RADIUS < p.position.x
            < self.tube_start.x + TUBE_RADIUS {
            Particle {
                position: p.position,
                velocity: Vec2 {
                    x: p.velocity.x,
                    y: (p.velocity.y + TUBE_FLOW_ACCELERATION * dt) as i64,
                },
                life: p.life,
            }
        } else {
            p
        }
    }

    /// With the T-junction on, a particle below the tube's end is pushed
    /// toward the branch, wherever it is horizontally.
    pub open spec fn branch_pulled(self, dt: int, p: Particle) -> Particle {
        if self.t_junction && self.t_junction_end is Some && p.position.y > self.tube_end.y {
            Particle {
                position: p.position,
                velocity: Vec2 {
                    x: (p.velocity.x + BRANCH_FLOW_ACCELERATION * dt) as i64,
                    y: p.velocity.y,
                },
                life: p.life,
            }
        } else {
            p
        }
    }

    /// One particle through one step of `dt` milliseconds: integration
    /// under `GRAVITY`, wall collision, tube flow, T-junction flow.
    pub open spec fn moved(self, dt: int, p: Particle) -> Particle {
        self.branch_pulled(dt, self.tube_pulled(dt, self.wall_collided(integrated(p, dt, GRAVITY as int))))
    }

    /// Each particle of `ps` moved by one step, in order.
    pub open spec fn moved_all(self, dt: int, ps: Seq<Particle>) -> Seq<Particle> {
        ps.map_values(|p: Particle| self.moved(dt, p))
    }

    /// The system after one full step: emission, motion of every particle,
    /// then removal of the particles whose life has run out.
    pub open spec fn after_step(self, dt: int, x: i64, vy: i64) -> SystemView {
        SystemView {
            particles: survivors(self.moved_all(dt, self.with_emission(x, vy))),
            ..self
        }
    }
}

/// Particles in a container with a tube below it.
pub struct ParticleSystem {
    particles: Vec<Particle>,
    container_bounds: (Vec2, Vec2),
    tube_start: Vec2,
    tube_end: Vec2,
    t_junction: bool,
    t_junction_end: Option<Vec2>,
}

/// `v` reversed and halved, rounding toward zero.
fn halve_reversed(v: i64) -> (r: i64)
    requires
        v > i64::MIN,
    ensures
        r == rebound(v as int),
{
    if v >= 0 {
        -(v / 2)
    } else {
        (-v) / 2
    }
}

impl View for ParticleSystem {
    type V = SystemView;

    closed spec fn view(&self) -> SystemView {
        SystemView {
            particles: self.particles@,
            container_min: self.container_bounds.0,
            container_max: self.container_bounds.1,
            tube_start: self.tube_start,
            tube_end: self.tube_end,
            t_junction: self.t_junction,
            t_junction_end: self.t_junction_end,
        }
    }
}

/// `survivors` of a sequence with one more particle at its end.
proof fn lemma_survivors_push(ps: Seq<Particle>, p: Particle)
    ensures
        survivors(ps.push(p)) == if p.life > 0 {
            survivors(ps).push(p)
        } else {
            survivors(ps)
        },
{
    reveal(Seq::filter);
    assert(ps.push(p).drop_last() =~= ps);
}

/// Moving a particle in range keeps every intermediate value in an `i64`,
/// and a particle that survives the step is again in range.
proof fn lemma_moved_in_range(s: SystemView, dt: int, p: Particle)
    requires
        s.geometry_ok(),
        0 <= dt <= MAX_STEP_MS,
        s.in_range(p),
    ensures
        crate::particle::update_fits(p, dt, GRAVITY as int),
        s.moved(dt, p).life > 0 ==> s.in_range(s.moved(dt, p)),
{
    let vx = p.velocity.x as int;
    let vy1 = p.velocity.y + GRAVITY * dt;
    assert(-2_000_000 <= vx <= 2_000_000);
    assert(-2_000_000_000 <= vx * dt <= 2_000_000_000) by (nonlinear_arith)
        requires
            -2_000_000 <= vx <= 2_000_000,
            0 <= dt <= 1000,
    ;
    assert(0 <= vy1 <= 7_500_000);
    assert(0 <= vy1 * dt <= 7_500_000_000) by (nonlinear_arith)
        requires
            0 <= vy1 <= 7_500_000,
            0 <= dt <= 1000,
    ;
    let q = s.moved(dt, p);
    if q.life > 0 {
        assert(vy1 <= 6_500_000);
        assert(vy1 * dt <= 6_500_000 * dt) by (nonlinear_arith)
            requires
                vy1 <= 6_500_000,
                0 <= dt,
        ;
    }
}

impl ParticleSystem {
    /// Puts a particle that has crossed a side wall of the container back
    /// on that wall, with its horizontal velocity reversed and halved.
    pub fn collide_with_walls(&self, particle: &mut Particle)
        requires
            self@.geometry_ok(),
            old(particle).velocity.x > i64::MIN,
        ensures
            *final(particle) == self@.wall_collided(*old(particle)),
    {
        if particle.position.x < self.container_bounds.0.x {
            particle.position.x = self.container_bounds.0.x;
            particle.velocity.x = halve_reversed(particle.velocity.x);
        } else if particle.position.x > self.container_bounds.1.x {
            particle.position.x = self.container_bounds.1.x;
            particle.velocity.x = halve_reversed(particle.velocity.x);
        }
    }

    /// One particle through one step; the caller drops it if its life has
    /// run out.
    fn move_particle(&self, dt: i64, p: Particle) -> (q: Particle)
        requires
            self@.geometry_ok(),
            0 <= dt <= MAX_STEP_MS,
            self@.in_range(p),
        ensures
            q == self@.moved(dt as int, p),
            q.life > 0 ==> self@.in_range(q),
    {
        proof {
            lemma_moved_in_range(self@, dt as int, p);
        }
        let mut q = p;
        q.update(dt, GRAVITY);
        self.collide_with_walls(&mut q);
        if q.position.y > self.tube_start.y {
            if q.position.x > self.tube_start.x - TUBE_RADIUS && q.position.x < self.tube_start.x + TUBE_RADIUS {
                q.velocity.y = q.velocity.y + TUBE_FLOW_ACCELERATION * dt;
            }
        }
        if self.t_junction && q.position.y > self.tube_end.y {
            if self.t_junction_end.is_some() {
                q.velocity.x = q.velocity.x + BRANCH_FLOW_ACCELERATION * dt;
            }
        }
        q
    }
    /// An empty system with the geometry that the three dimensions (in
    /// position units) and the T-junction switch give.
    pub fn new(container_width: i64, container_height: i64, tube_length: i64, t_junction: bool) -> (r: Self)
        requires
            valid_dimensions(container_width as int, container_height as int, tube_length as int),
        ensures
            r@ == initial(container_width as int, container_height as int, tube_length as int, t_junction),
            r@.well_formed(),
    {
        let container_bounds = (
            Vec2::new(CONTAINER_ORIGIN, CONTAINER_ORIGIN),
            Vec2::new(CONTAINER_ORIGIN + container_width, CONTAINER_ORIGIN + container_height),
        );
        let tube_start = Vec2::new(container_bounds.0.x + container_width / 2, container_bounds.1.y);
        let tube_end = Vec2::new(tube_start.x, tube_start.y + tube_length);
        let t_junction_end = if t_junction {
            Some(Vec2::new(tube_end.x + BRANCH_OFFSET, tube_end.y))
        } else {
            None
        };
        let r = ParticleSystem {
            particles: Vec::new(),
            container_bounds,
            tube_start,
            tube_end,
            t_junction,
            t_junction_end,
        };
        assert(r@.particles =~= Seq::empty());
        r
    }
    /// One step of `dt` milliseconds with the emission draws given: a new
    /// particle at horizontal position `spawn_x` with downward speed
    /// `spawn_vy` unless the system is full, then every particle moved, then
    /// the particles whose life has run out removed.
    pub fn advance(&mut self, dt: i64, spawn_x: i64, spawn_vy: i64)
        requires
            old(self)@.well_formed(),
            0 <= dt <= MAX_STEP_MS,
            old(self)@.container_min.x <= spawn_x < old(self)@.container_max.x,
            0 <= spawn_vy < MAX_SPAWN_SPEED,
        ensures
            final(self)@ == old(self)@.after_step(dt as int, spawn_x, spawn_vy),
            final(self)@.well_formed(),
    {
        let ghost start = self@;
        if self.particles.len() < MAX_PARTICLES {
            let surface = self.container_bounds.1.y - SURFACE_DEPTH;
            self.particles.push(Particle::new(Vec2::new(spawn_x, surface), Vec2::new(0, spawn_vy)));
        }
        let ghost emitted = self.particles@;
        assert(emitted == start.with_emission(spawn_x, spawn_vy));
        assert forall|i: int| 0 <= i < emitted.len() implies start.in_range(#[trigger] emitted[i]) by {
            if i == start.particles.len() {
                assert(emitted[i] == start.emitted(spawn_x, spawn_vy));
            }
        }
        let mut kept: Vec<Particle> = Vec::new();
        let mut i: usize = 0;
        while i < self.particles.len()
            invariant
                self@ == (SystemView { particles: emitted, ..start }),
                start.well_formed(),
                0 <= dt <= MAX_STEP_MS,
                forall|j: int| 0 <= j < emitted.len() ==> start.in_range(#[trigger] emitted[j]),
                0 <= i <= emitted.len(),
                kept@ == survivors(start.moved_all(dt as int, emitted.subrange(0, i as int))),
                kept@.len() <= i,
                forall|j: int| 0 <= j < kept@.len() ==> start.in_range(#[trigger] kept@[j]),
            decreases emitted.len() - i,
        {
            let q = self.move_particle(dt, self.particles[i]);
            proof {
                let before = start.moved_all(dt as int, emitted.subrange(0, i as int));
                assert(start.moved_all(dt as int, emitted.subrange(0, i + 1)) =~= before.push(q));
                lemma_survivors_push(before, q);
            }
            if q.life > 0 {
                kept.push(q);
            }
            i = i + 1;
        }
        assert(emitted.subrange(0, emitted.len() as int) =~= emitted);
        self.particles = kept;
    }

    /// One step of `dt` milliseconds, with the new particle's horizontal
    /// position drawn uniformly from the container's extent and its
    /// downward speed from `[0, MAX_SPAWN_SPEED)`.
    pub fn update(&mut self, dt: i64)
        requires
            old(self)@.well_formed(),
            0 <= dt <= MAX_STEP_MS,
        ensures
            exists|x: i64, vy: i64|
                old(self)@.container_min.x <= x < old(self)@.container_max.x && 0 <= vy < MAX_SPAWN_SPEED
                    && final(self)@ == #[trigger] old(self)@.after_step(dt as int, x, vy),
            final(self)@.well_formed(),
            final(self)@.particles.len() <= MAX_PARTICLES,
            forall|i: int| 0 <= i < final(self)@.particles.len() ==> #[trigger] final(self)@.particles[i].life > 0,
    {
        let mut rng = rand::thread_rng();
        let x = gen_between(&mut rng, self.container_bounds.0.x, self.container_bounds.1.x);
        let vy = gen_between(&mut rng, 0, MAX_SPAWN_SPEED);
        self.advance(dt, x, vy);
        assert(final(self)@ == old(self)@.after_step(dt as int, x, vy));
    }

    /// The live particles, in the order in which they were emitted.
    pub fn get_particles(&self) -> (r: &[Particle])
        ensures
            r@ == self@.particles,
    {
        self.particles.as_slice()
    }

    /// The container's top-left and bottom-right corners.
    pub fn container_bounds(&self) -> (r: (Vec2, Vec2))
        ensures
            r == (self@.container_min, self@.container_max),
    {
        self.container_bounds
    }

    /// The middle of the container's bottom edge, where the tube begins.
    pub fn tube_start(&self) -> (r: Vec2)
        ensures
            r == self@.tube_start,
    {
        self.tube_start
    }

    /// The bottom of the tube.
    pub fn tube_end(&self) -> (r: Vec2)
        ensures
            r == self@.tube_end,
    {
        self.tube_end
    }

    /// Whether the T-junction is on.
    pub fn t_junction(&self) -> (r: bool)
        ensures
            r == self@.t_junction,
    {
        self.t_junction
    }

    /// The T-junction's end, when the T-junction is on.
    pub fn t_junction_end(&self) -> (r: Option<Vec2>)
        ensures
            r == self@.t_junction_end,
    {
        self.t_junction_end
    }
}

} // verus!
