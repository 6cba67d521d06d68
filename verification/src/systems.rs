//! The steps of the simulation: making a spawner, emitting bursts, and
//! moving the particles frame by frame.

use vstd::prelude::*;
use vstd::arithmetic::div_mod::lemma_div_is_ordered;
use crate::components::ConfigError;
use crate::components::GRAVITY;
use crate::components::hidden_before;
use crate::components::hidden_count;
use crate::components::Particle;
use crate::components::ParticleCollection;
use crate::components::ParticleColor;
use crate::components::ParticleSize;
use crate::components::ParticleSpawner;
use crate::components::ParticleSpawnerTimer;
use crate::components::ParticleVelocity;
use crate::components::shifted;
use crate::components::SpawnerPhase;
use crate::components::SpawnerRuntime;
use crate::components::travel;
use crate::interp::lerp;
use crate::interp::lerp_color;
use crate::interp::lerp_vec2;
use crate::random::is_unit;
use crate::random::ParticleRoll;
use crate::random::roll_particle;
use crate::timer::Timer;
use crate::timer::TimerMode;
use crate::units::div_floor;
use crate::units::NANOS_PER_SECOND;
use crate::units::ONE;
use crate::units::Ratio;
use crate::units::saturate;
use crate::units::Vec2;

verus! {

/// Moves `x` by `step`, stopping at the ends of the range.
fn shift(x: i64, step: i128) -> (r: i64)
    requires
        -0x4000_0000_0000_0000_0000_0000_0000_0000 <= step
            <= 0x4000_0000_0000_0000_0000_0000_0000_0000,
    ensures
        r == shifted(x, step as int),
{
    saturate(x as i128 + step)
}

/// The distance covered in `delta` nanoseconds at `speed` steps per second.
fn distance(speed: i64, delta: u64) -> (d: i128)
    ensures
        d == travel(speed, delta),
        -0x4000_0000_0000_0000_0000_0000_0000_0000 <= d
            <= 0x4000_0000_0000_0000_0000_0000_0000_0000,
{
    proof {
        assert(-0x8000_0000_0000_0000 * 0xffff_ffff_ffff_ffff <= speed * delta
            <= 0x8000_0000_0000_0000 * 0xffff_ffff_ffff_ffff) by (nonlinear_arith)
            requires
                -0x8000_0000_0000_0000 <= speed <= 0x8000_0000_0000_0000,
                0 <= delta <= 0xffff_ffff_ffff_ffff,
        ;
        lemma_div_is_ordered(
            -0x8000_0000_0000_0000 * 0xffff_ffff_ffff_ffff,
            speed * delta,
            1_000_000_000,
        );
        lemma_div_is_ordered(
            speed * delta,
            0x8000_0000_0000_0000int * 0xffff_ffff_ffff_ffff,
            1_000_000_000,
        );
    }
    div_floor((speed as i128) * (delta as i128), NANOS_PER_SECOND as i128)
}

/// Places a coordinate around `base` by the draw `u`.
fn scatter(spawner: &ParticleSpawner, base: i64, u: i64) -> (r: i64)
    requires
        is_unit(u),
    ensures
        r == spawner.scattered(base, u),
{
    let spread: i128 = 2 * (u as i128) - (ONE as i128);
    proof {
        let v: int = spawner.position_variance as int;
        assert(-0x8000_0000_0000_0000 * 0x100_0000 <= v * spread <= 0x8000_0000_0000_0000
            * 0x100_0000) by (nonlinear_arith)
            requires
                -0x8000_0000_0000_0000 <= v <= 0x8000_0000_0000_0000,
                -0x100_0000 <= spread <= 0x100_0000,
        ;
        lemma_div_is_ordered(-0x8000_0000_0000_0000 * 0x100_0000, v * spread, 0x100_0000);
        lemma_div_is_ordered(v * spread, 0x8000_0000_0000_0000int * 0x100_0000, 0x100_0000);
    }
    let step: i128 = div_floor((spawner.position_variance as i128) * spread, ONE as i128);
    shift(base, step)
}

/// The horizontal speed that the draw `u` gives.
fn spray(spawner: &ParticleSpawner, u: i64) -> (r: i64)
    requires
        is_unit(u),
    ensures
        r == spawner.spray_speed(u),
{
    let sum: i128 = (u as i128) + (spawner.offset as i128);
    proof {
        let s: int = spawner.spray as int;
        assert(-0x8000_0000_0000_0000 * 0x8000_0000_0100_0000 <= s * sum <= 0x8000_0000_0000_0000
            * 0x8000_0000_0100_0000) by (nonlinear_arith)
            requires
                -0x8000_0000_0000_0000 <= s <= 0x8000_0000_0000_0000,
                -0x8000_0000_0100_0000 <= sum <= 0x8000_0000_0100_0000,
        ;
    }
    saturate(div_floor((spawner.spray as i128) * sum, ONE as i128))
}

/// The velocity curve that `roll` gives a particle.
fn roll_velocity(spawner: &ParticleSpawner, roll: ParticleRoll) -> (v: ParticleVelocity)
    requires
        spawner.particle_velocity.is_some(),
        roll.wf(),
    ensures
        v == spawner.rolled_velocity(roll),
{
    let curve: ParticleVelocity = spawner.particle_velocity.unwrap();
    ParticleVelocity {
        start: Vec2 { x: spray(spawner, roll.speed_start), y: curve.start.y },
        end: Vec2 { x: spray(spawner, roll.speed_end), y: curve.end.y },
    }
}

/// The position that `roll` gives a particle around `origin`.
fn roll_position(spawner: &ParticleSpawner, origin: Vec2, roll: ParticleRoll) -> (p: Vec2)
    requires
        roll.wf(),
    ensures
        p == spawner.spawn_position(origin, roll),
{
    Vec2 { x: scatter(spawner, origin.x, roll.left), y: scatter(spawner, origin.y, roll.top) }
}

/// The point around which a spawner places its particles in a window of the
/// given width: the middle of the top edge.
pub fn spawn_origin(window_width: i64) -> (origin: Vec2)
    ensures
        origin.x == window_width as int / 2,
        origin.y == 0,
{
    let half: i128 = div_floor(window_width as i128, 2);
    Vec2 { x: half as i64, y: 0 }
}

/// Makes one slot of a new pool: hidden, placed and sprayed by `roll`, at
/// the start of the size and colour curves.
pub fn build_particle(spawner: &ParticleSpawner, origin: Vec2, roll: ParticleRoll) -> (particle:
    Particle)
    requires
        spawner.complete(),
        roll.wf(),
    ensures
        particle == spawner.built(origin, roll),
        particle.wf(),
{
    let size: ParticleSize = spawner.particle_size.unwrap();
    let color: ParticleColor = spawner.particle_color.unwrap();
    Particle {
        lifetime: Timer::new(spawner.particle_lifetime, TimerMode::Once),
        visible: false,
        position: roll_position(spawner, origin, roll),
        size: size.start,
        color: color.start,
        velocity: roll_velocity(spawner, roll),
    }
}

/// Claims a slot for a new particle: its age starts at zero again, it is
/// shown, and `roll` gives it a new position and new horizontal speeds.
pub fn activate(particle: &mut Particle, spawner: &ParticleSpawner, origin: Vec2, roll: ParticleRoll)
    requires
        spawner.complete(),
        roll.wf(),
    ensures
        *final(particle) == spawner.activated(origin, roll, *old(particle)),
        final(particle).wf(),
{
    particle.lifetime = Timer::new(spawner.particle_lifetime, TimerMode::Once);
    particle.visible = true;
    particle.position = roll_position(spawner, origin, roll);
    particle.velocity = roll_velocity(spawner, roll);
}

/// Runs the frame's tick of `delta` nanoseconds on a slot: a particle on
/// show ages and is hidden if its time is up; a hidden slot keeps its age and
/// stays hidden.
pub fn update_particle_lifetime(particle: &mut Particle, delta: u64)
    requires
        old(particle).wf(),
    ensures
        *final(particle) == old(particle).aged(delta),
        final(particle).wf(),
{
    if particle.visible {
        particle.lifetime.tick(delta);
        particle.visible = !particle.lifetime.finished();
    } else {
        particle.lifetime.just_finished = false;
    }
}

/// Moves a particle by what its velocity covers in `delta` nanoseconds. A
/// slot that is hidden, and was not hidden by the last tick of its age,
/// stays where it is.
pub fn update_particle_position(particle: &mut Particle, delta: u64)
    requires
        old(particle).wf(),
    ensures
        *final(particle) == old(particle).moved(delta),
        final(particle).wf(),
{
    if particle.visible || particle.lifetime.just_finished() {
        let t: Ratio = particle.lifetime.percent();
        let v: Vec2 = lerp_vec2(particle.velocity.start, particle.velocity.end, t);
        let fall: i64 = shift(v.y, GRAVITY as i128);
        particle.position = Vec2 {
            x: shift(particle.position.x, distance(v.x, delta)),
            y: shift(particle.position.y, distance(fall, delta)),
        };
    }
}

/// Gives a particle the size of its age. A slot that is hidden, and was not
/// hidden by the last tick of its age, keeps its size.
pub fn update_particle_size(particle: &mut Particle, curve: &ParticleSize)
    requires
        old(particle).wf(),
    ensures
        *final(particle) == old(particle).resized(*curve),
        final(particle).wf(),
{
    if particle.visible || particle.lifetime.just_finished() {
        particle.size = lerp(curve.start, curve.end, particle.lifetime.percent());
    }
}

/// Gives a particle the colour of its age. A slot that is hidden, and was
/// not hidden by the last tick of its age, keeps its colour.
pub fn update_particle_color(particle: &mut Particle, curve: &ParticleColor)
    requires
        old(particle).wf(),
    ensures
        *final(particle) == old(particle).recolored(*curve),
        final(particle).wf(),
{
    if particle.visible || particle.lifetime.just_finished() {
        particle.color = lerp_color(curve.start, curve.end, particle.lifetime.percent());
    }
}

/// The count of hidden slots among the first `n` lies between 0 and `n`.
pub proof fn lemma_hidden_before_bounds(slots: Seq<Particle>, n: int)
    requires
        0 <= n,
    ensures
        0 <= hidden_before(slots, n) <= n,
    decreases n,
{
    if n > 0 {
        lemma_hidden_before_bounds(slots, n - 1);
    }
}

/// A burst claims as many hidden slots as it asks for, or all of them if
/// there are fewer: among the first `n` slots, and so in the whole pool, the
/// hidden ones become fewer by the smaller of the burst's amount and their
/// number, and no visible slot is hidden.
pub proof fn lemma_burst_claims(
    spawner: ParticleSpawner,
    origin: Vec2,
    before: Seq<Particle>,
    after: Seq<Particle>,
    n: int,
)
    requires
        spawner.emitted(origin, before, after),
        0 <= n <= before.len(),
    ensures
        hidden_before(before, n) <= spawner.amount_per_burst ==> hidden_before(after, n) == 0,
        hidden_before(before, n) > spawner.amount_per_burst ==> hidden_before(after, n)
            == hidden_before(before, n) - spawner.amount_per_burst,
        forall|i: int| 0 <= i < before.len() && before[i].visible ==> after[i].visible,
    decreases n,
{
    if n > 0 {
        lemma_burst_claims(spawner, origin, before, after, n - 1);
        lemma_hidden_before_bounds(before, n - 1);
        let slot = after[n - 1];
        if spawner.claimed_at(before, n - 1) {
            assert(spawner.claims(origin, before[n - 1], slot));
        } else {
            assert(slot == before[n - 1]);
        }
    }
    assert forall|i: int| 0 <= i < before.len() && before[i].visible implies after[i].visible by {
        let slot = after[i];
        assert(!spawner.claimed_at(before, i));
    }
}

/// The update pass shows no slot: among the first `n` slots, and so in the
/// whole pool, no fewer are hidden after it than before.
pub proof fn lemma_update_shows_nothing(
    before: Seq<Particle>,
    after: Seq<Particle>,
    size: ParticleSize,
    color: ParticleColor,
    delta: u64,
    n: int,
)
    requires
        after.len() == before.len(),
        0 <= n <= before.len(),
        forall|i: int|
            0 <= i < before.len() ==> #[trigger] after[i] == before[i].updated(size, color, delta),
    ensures
        hidden_before(after, n) >= hidden_before(before, n),
    decreases n,
{
    if n > 0 {
        lemma_update_shows_nothing(before, after, size, color, delta, n - 1);
        assert(after[n - 1] == before[n - 1].updated(size, color, delta));
    }
}

/// Emits one burst: goes through the pool in slot order and claims hidden
/// slots, each with draws of its own, until the burst's amount is reached or
/// no hidden slot is left. The pool keeps its size.
pub fn emit_burst(spawner: &ParticleSpawner, particles: &mut ParticleCollection, origin: Vec2)
    requires
        spawner.complete(),
        old(particles).wf(),
    ensures
        spawner.emitted(origin, old(particles).entities@, final(particles).entities@),
        final(particles).wf(),
        old(particles).timed(spawner.particle_lifetime) ==> final(particles).timed(
            spawner.particle_lifetime,
        ),
        hidden_count(final(particles).entities@) == hidden_count(old(particles).entities@) - if
            hidden_count(old(particles).entities@) <= spawner.amount_per_burst {
            hidden_count(old(particles).entities@)
        } else {
            spawner.amount_per_burst as int
        },
{
    let ghost before: Seq<Particle> = particles.entities@;
    let n: usize = particles.entities.len();
    let mut claimed: usize = 0;
    let mut i: usize = 0;
    while i < n
        invariant
            spawner.complete(),
            n == before.len(),
            particles.entities@.len() == n,
            i <= n,
            claimed <= spawner.amount_per_burst,
            claimed <= hidden_before(before, i as int),
            claimed == spawner.amount_per_burst || claimed == hidden_before(before, i as int),
            forall|j: int|
                0 <= j < i ==> if spawner.claimed_at(before, j) {
                    spawner.claims(origin, before[j], #[trigger] particles.entities@[j])
                } else {
                    particles.entities@[j] == before[j]
                },
            forall|j: int| i <= j < n ==> particles.entities@[j] == before[j],
            particles.wf(),
            before =~= old(particles).entities@,
            old(particles).timed(spawner.particle_lifetime) ==> particles.timed(
                spawner.particle_lifetime,
            ),
        decreases n - i,
    {
        let mut slot: Particle = particles.entities[i];
        if !slot.visible && claimed < spawner.amount_per_burst {
            let roll: ParticleRoll = roll_particle();
            activate(&mut slot, spawner, origin, roll);
            particles.entities.set(i, slot);
            claimed = claimed + 1;
            assert(roll.wf() && slot == spawner.activated(origin, roll, before[i as int]));
            assert(spawner.claims(origin, before[i as int], particles.entities@[i as int]));
        }
        i = i + 1;
    }
    proof {
        lemma_burst_claims(*spawner, origin, before, particles.entities@, n as int);
    }
}

/// Runs one frame of `delta` nanoseconds over the pool: every particle on
/// show ages, is hidden if its time is up, moves, and takes the size and
/// colour of its age. A slot that was hidden before the frame keeps its age,
/// position, size and colour.
pub fn update_particles(
    particles: &mut ParticleCollection,
    size: &ParticleSize,
    color: &ParticleColor,
    delta: u64,
)
    requires
        old(particles).wf(),
    ensures
        final(particles).entities@.len() == old(particles).entities@.len(),
        forall|i: int|
            0 <= i < old(particles).entities@.len() ==> #[trigger] final(particles).entities@[i]
                == old(particles).entities@[i].updated(*size, *color, delta),
        final(particles).wf(),
        forall|d: u64| old(particles).timed(d) ==> final(particles).timed(d),
{
    let ghost before: Seq<Particle> = particles.entities@;
    let n: usize = particles.entities.len();
    let mut i: usize = 0;
    while i < n
        invariant
            n == before.len(),
            particles.entities@.len() == n,
            i <= n,
            forall|j: int|
                0 <= j < i ==> #[trigger] particles.entities@[j] == before[j].updated(
                    *size,
                    *color,
                    delta,
                ),
            forall|j: int| i <= j < n ==> particles.entities@[j] == before[j],
            particles.wf(),
            before =~= old(particles).entities@,
            old(particles).wf(),
            forall|j: int|
                0 <= j < n ==> (#[trigger] particles.entities@[j]).lifetime.duration
                    == before[j].lifetime.duration,
        decreases n - i,
    {
        let mut slot: Particle = particles.entities[i];
        update_particle_lifetime(&mut slot, delta);
        update_particle_position(&mut slot, delta);
        update_particle_size(&mut slot, size);
        update_particle_color(&mut slot, color);
        particles.entities.set(i, slot);
        i = i + 1;
    }
}

/// Computes the number of slots that the pool of `spawner` needs.
pub fn pool_capacity(spawner: &ParticleSpawner) -> (r: Result<usize, ConfigError>)
    ensures
        match r {
            Ok(n) => spawner.rate > 0 && n == spawner.capacity(),
            Err(ConfigError::ZeroRate) => spawner.rate == 0,
            Err(ConfigError::PoolTooLarge) => spawner.rate > 0 && spawner.capacity() > usize::MAX,
            Err(_) => false,
        },
{
    if spawner.rate == 0 {
        return Err(ConfigError::ZeroRate);
    }
    let needed: u128 = 11 * (spawner.particle_lifetime as u128) + 10 * (spawner.rate as u128) - 1;
    let bursts: u128 = needed / (10 * (spawner.rate as u128));
    assert(bursts == spawner.bursts_alive());
    if spawner.amount_per_burst == 0 {
        assert(spawner.capacity() == 0) by (nonlinear_arith)
            requires
                spawner.capacity() == spawner.bursts_alive() * spawner.amount_per_burst,
                spawner.amount_per_burst == 0,
        ;
        return Ok(0);
    }
    if bursts > usize::MAX as u128 {
        assert(spawner.capacity() >= bursts) by (nonlinear_arith)
            requires
                spawner.capacity() == bursts * spawner.amount_per_burst,
                spawner.amount_per_burst >= 1,
                bursts >= 0,
        ;
        return Err(ConfigError::PoolTooLarge);
    }
    assert(bursts * spawner.amount_per_burst <= 0xffff_ffff_ffff_ffff * 0xffff_ffff_ffff_ffff)
        by (nonlinear_arith)
        requires
            0 <= bursts <= 0xffff_ffff_ffff_ffff,
            0 <= spawner.amount_per_burst <= 0xffff_ffff_ffff_ffff,
    ;
    let slots: u128 = bursts * (spawner.amount_per_burst as u128);
    if slots > usize::MAX as u128 {
        Err(ConfigError::PoolTooLarge)
    } else {
        Ok(slots as usize)
    }
}

/// Makes a spawner at work from a configuration, around `origin`: checks the
/// configuration, starts the three timers, and fills the pool with hidden
/// slots, each made with draws of its own.
pub fn spawn_particle_spawner(spawner: ParticleSpawner, origin: Vec2) -> (r: Result<
    SpawnerRuntime,
    ConfigError,
>)
    ensures
        match r {
            Ok(runtime) => {
                &&& spawner.fault().is_none()
                &&& runtime.wf()
                &&& runtime.spawner == spawner
                &&& runtime.origin == origin
                &&& runtime.timer == spawner.fresh_timers()
                &&& runtime.on_course()
                &&& forall|i: int|
                    0 <= i < runtime.particles.entities@.len() ==> spawner.builds(
                        origin,
                        #[trigger] runtime.particles.entities@[i],
                    )
            },
            Err(e) => spawner.fault() == Some(e),
        },
{
    if spawner.particle_size.is_none() {
        return Err(ConfigError::MissingSize);
    }
    if spawner.particle_color.is_none() {
        return Err(ConfigError::MissingColor);
    }
    if spawner.particle_velocity.is_none() {
        return Err(ConfigError::MissingVelocity);
    }
    let capacity: usize = match pool_capacity(&spawner) {
        Ok(n) => n,
        Err(e) => {
            return Err(e);
        },
    };
    let mut entities: Vec<Particle> = Vec::new();
    let mut i: usize = 0;
    while i < capacity
        invariant
            spawner.complete(),
            i <= capacity,
            entities@.len() == i,
            forall|j: int| 0 <= j < i ==> spawner.builds(origin, #[trigger] entities@[j]),
            forall|j: int| 0 <= j < i ==> (#[trigger] entities@[j]).wf(),
            forall|j: int| 0 <= j < i ==> !(#[trigger] entities@[j]).visible,
            forall|j: int|
                0 <= j < i ==> (#[trigger] entities@[j]).lifetime.duration
                    == spawner.particle_lifetime,
        decreases capacity - i,
    {
        let roll: ParticleRoll = roll_particle();
        let slot: Particle = build_particle(&spawner, origin, roll);
        assert(roll.wf() && slot == spawner.built(origin, roll));
        assert(spawner.builds(origin, slot));
        entities.push(slot);
        i = i + 1;
    }
    Ok(
        SpawnerRuntime {
            spawner,
            timer: ParticleSpawnerTimer {
                spray_timer: Timer::new(spawner.rate, TimerMode::Repeating),
                lifetime: Timer::new(spawner.lifetime, TimerMode::Once),
                finishing_time: Timer::new(spawner.particle_lifetime, TimerMode::Once),
            },
            particles: ParticleCollection { entities },
            origin,
        },
    )
}

impl ParticleSpawnerTimer {
    /// The stage that the spawner is in.
    pub fn current_phase(&self) -> (phase: SpawnerPhase)
        ensures
            phase == self.phase(),
    {
        if self.finishing_time.finished() {
            SpawnerPhase::Finished
        } else if self.lifetime.finished() {
            SpawnerPhase::Draining
        } else {
            SpawnerPhase::Bursting
        }
    }
}

/// Runs the spawner's part of one frame of `delta` nanoseconds: advances the
/// timers of the stage the spawner is in and, while it is bursting, emits a
/// burst if the spray timer completed. Says whether the spawner is finished
/// and is to be torn down with its pool.
pub fn emit_particles(runtime: &mut SpawnerRuntime, delta: u64) -> (done: bool)
    requires
        old(runtime).wf(),
    ensures
        final(runtime).wf(),
        final(runtime).spawner == old(runtime).spawner,
        final(runtime).origin == old(runtime).origin,
        final(runtime).timer == old(runtime).timer.stepped(delta),
        done == (final(runtime).timer.phase() == SpawnerPhase::Finished),
        if old(runtime).timer.bursts(delta) {
            old(runtime).spawner.emitted(
                old(runtime).origin,
                old(runtime).particles.entities@,
                final(runtime).particles.entities@,
            )
        } else {
            final(runtime).particles.entities@ == old(runtime).particles.entities@
        },
{
    match runtime.timer.current_phase() {
        SpawnerPhase::Bursting => {
            runtime.timer.spray_timer.tick(delta);
            runtime.timer.lifetime.tick(delta);
            if runtime.timer.spray_timer.just_finished() {
                emit_burst(&runtime.spawner, &mut runtime.particles, runtime.origin);
            }
            false
        },
        SpawnerPhase::Draining => {
            runtime.timer.finishing_time.tick(delta);
            runtime.timer.finishing_time.finished()
        },
        SpawnerPhase::Finished => true,
    }
}

impl SpawnerRuntime {
    /// Runs one frame of `delta` nanoseconds: first the spawner's part, with
    /// its timers and a burst if one is due, then the update pass over the
    /// pool, so that a particle is updated in the frame it is born in. A
    /// spawner that was finished before the frame stays as it is. Says
    /// whether the spawner is finished. The pool keeps its size, and by the
    /// time the spawner is finished every particle has run its course.
    pub fn step(&mut self, delta: u64) -> (done: bool)
        requires
            old(self).wf(),
        ensures
            final(self).wf(),
            final(self).spawner == old(self).spawner,
            final(self).origin == old(self).origin,
            final(self).timer == old(self).timer.stepped(delta),
            done == (final(self).timer.phase() == SpawnerPhase::Finished),
            final(self).particles.entities@.len() == old(self).particles.entities@.len(),
            forall|i: int|
                0 <= i < old(self).particles.entities@.len() ==> old(self).frame_slot(
                    delta,
                    i,
                    #[trigger] final(self).particles.entities@[i],
                ),
            old(self).on_course() ==> final(self).on_course(),
            hidden_count(final(self).particles.entities@) >= hidden_count(
                old(self).particles.entities@,
            ) - if old(self).timer.bursts(delta) {
                old(self).spawner.amount_per_burst as int
            } else {
                0int
            },
    {
        let ghost before: SpawnerRuntime = *self;
        let was_done: bool = self.timer.finishing_time.finished();
        let done: bool = emit_particles(self, delta);
        let ghost emitted: Seq<Particle> = self.particles.entities@;
        if !was_done {
            let size: ParticleSize = self.spawner.particle_size.unwrap();
            let color: ParticleColor = self.spawner.particle_color.unwrap();
            update_particles(&mut self.particles, &size, &color, delta);
        }
        proof {
            let all: int = before.particles.entities@.len() as int;
            lemma_hidden_before_bounds(before.particles.entities@, all);
            if before.timer.bursts(delta) {
                lemma_burst_claims(before.spawner, before.origin, before.particles.entities@, emitted, all);
            }
            if !was_done {
                lemma_update_shows_nothing(
                    emitted,
                    self.particles.entities@,
                    before.spawner.particle_size.unwrap(),
                    before.spawner.particle_color.unwrap(),
                    delta,
                    all,
                );
            }
            assert forall|i: int| 0 <= i < before.particles.entities@.len() implies before.frame_slot(
                delta,
                i,
                #[trigger] self.particles.entities@[i],
            ) by {
                let after: Particle = self.particles.entities@[i];
                let slot: Particle = emitted[i];
                assert(after == before.settled(delta, slot));
                if before.timer.bursts(delta) && before.spawner.claimed_at(
                    before.particles.entities@,
                    i,
                ) {
                    assert(before.spawner.claims(before.origin, before.particles.entities@[i], slot));
                    let roll: ParticleRoll = choose|roll: ParticleRoll| #[trigger]
                        roll.wf() && slot == before.spawner.activated(
                            before.origin,
                            roll,
                            before.particles.entities@[i],
                        );
                    assert(roll.wf() && after == before.settled(
                        delta,
                        before.spawner.activated(before.origin, roll, before.particles.entities@[i]),
                    ));
                }
            }
            if before.on_course() {
                assert forall|i: int|
                    0 <= i < self.particles.entities@.len() && (
                    #[trigger] self.particles.entities@[i]).visible implies {
                    &&& !self.particles.entities@[i].lifetime.finished
                    &&& self.timer.phase() != SpawnerPhase::Finished
                    &&& self.timer.phase() == SpawnerPhase::Draining
                        ==> self.particles.entities@[i].lifetime.elapsed
                        >= self.timer.finishing_time.elapsed
                } by {
                    let first: Particle = before.particles.entities@[i];
                    let slot: Particle = emitted[i];
                    assert(first.wf());
                    assert(first.lifetime.duration == before.spawner.particle_lifetime);
                    if before.timer.bursts(delta) && before.spawner.claimed_at(
                        before.particles.entities@,
                        i,
                    ) {
                        assert(before.spawner.claims(before.origin, first, slot));
                    } else {
                        assert(slot == first);
                    }
                }
            }
        }
        done
    }
}

} // verus!
