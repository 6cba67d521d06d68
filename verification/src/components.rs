//! The data of a particle effect: curves, the spawner's configuration, its
//! timers, and the pool of particle slots.

use vstd::prelude::*;
use crate::interp::lerp_point;
use crate::interp::lerp_shade;
use crate::interp::lerp_value;
use crate::random::ParticleRoll;
use crate::timer::Timer;
use crate::timer::TimerMode;
use crate::units::clamp;
use crate::units::Color;
use crate::units::Vec2;
use crate::units::NANOS_PER_SECOND;
use crate::units::ONE;

verus! {

/// The speed, in fixed-point steps per second, that is added to every
/// particle's vertical velocity after interpolation.
pub const GRAVITY: i64 = 503_316_480;

/// The size a particle starts and ends with.
#[derive(Clone, Copy, Debug, PartialEq, Eq)]
pub struct ParticleSize {
    pub start: i64,
    pub end: i64,
}

/// The colour a particle starts and ends with.
#[derive(Clone, Copy, Debug, PartialEq, Eq)]
pub struct ParticleColor {
    pub start: Color,
    pub end: Color,
}

/// The velocity a particle starts and ends with, in steps per second.
#[derive(Clone, Copy, Debug, PartialEq, Eq)]
pub struct ParticleVelocity {
    pub start: Vec2,
    pub end: Vec2,
}

/// The stage a spawner is in.
#[derive(Clone, Copy, Debug, PartialEq, Eq, Structural)]
pub enum SpawnerPhase {
    /// The spawner emits a burst whenever its spray timer completes.
    Bursting,
    /// The spawner emits nothing more and waits for its particles to finish.
    Draining,
    /// The spawner and its pool are to be torn down.
    Finished,
}

/// The three timers of a spawner.
#[derive(Clone, Copy, Debug, PartialEq, Eq)]
pub struct ParticleSpawnerTimer {
    /// Repeats with the burst interval.
    pub spray_timer: Timer,
    /// Runs once, for the time during which bursts are emitted.
    pub lifetime: Timer,
    /// Runs once after `lifetime`, for as long as one particle lives.
    pub finishing_time: Timer,
}

/// The configuration of a spawner. Times are in nanoseconds.
#[derive(Clone, Copy, Debug, PartialEq, Eq)]
pub struct ParticleSpawner {
    /// The time between two bursts.
    pub rate: u64,
    /// The number of particles that a burst tries to activate.
    pub amount_per_burst: usize,
    /// The greatest distance, per axis, between a new particle and the origin.
    pub position_variance: i64,
    /// The factor of the horizontal spray speed.
    pub spray: i64,
    /// What is added to the random number of the spray before the factor applies.
    pub offset: i64,
    /// The time during which the spawner emits bursts.
    pub lifetime: u64,
    /// The time a particle lives.
    pub particle_lifetime: u64,
    pub particle_size: Option<ParticleSize>,
    pub particle_velocity: Option<ParticleVelocity>,
    pub particle_color: Option<ParticleColor>,
}

/// One slot of the pool.
#[derive(Clone, Copy, Debug, PartialEq, Eq)]
pub struct Particle {
    /// Counts the particle's age.
    pub lifetime: Timer,
    /// The slot holds a live particle; a hidden slot is free to be claimed.
    pub visible: bool,
    pub position: Vec2,
    pub size: i64,
    pub color: Color,
    /// The particle's own velocity curve, with its rolled horizontal speeds.
    pub velocity: ParticleVelocity,
}

/// The pool of particle slots of one spawner, in slot order.
#[derive(Clone, Debug, PartialEq, Eq)]
pub struct ParticleCollection {
    pub entities: Vec<Particle>,
}

/// Why a configuration cannot make a spawner.
#[derive(Clone, Copy, Debug, PartialEq, Eq, Structural)]
pub enum ConfigError {
    /// The configuration has no size curve.
    MissingSize,
    /// The configuration has no colour curve.
    MissingColor,
    /// The configuration has no velocity curve.
    MissingVelocity,
    /// The burst interval is zero, so no pool could hold the particles.
    ZeroRate,
    /// The pool would have more slots than can be counted.
    PoolTooLarge,
}

/// A spawner at work: its configuration, its timers, its pool, and the point
/// around which it places new particles.
#[derive(Clone, Debug, PartialEq, Eq)]
pub struct SpawnerRuntime {
    pub spawner: ParticleSpawner,
    pub timer: ParticleSpawnerTimer,
    pub particles: ParticleCollection,
    pub origin: Vec2,
}

/// `x` moved by `step`, kept in range.
pub open spec fn shifted(x: i64, step: int) -> i64 {
    clamp(x + step) as i64
}

/// The distance covered in `delta` nanoseconds at `speed` steps per second,
/// rounded down to a whole step.
pub open spec fn travel(speed: i64, delta: u64) -> int {
    (speed * delta) / (NANOS_PER_SECOND as int)
}

impl ParticleSpawner {
    /// The configuration has all three curves.
    pub open spec fn complete(self) -> bool {
        self.particle_size.is_some() && self.particle_color.is_some()
            && self.particle_velocity.is_some()
    }

    /// The number of bursts whose particles can be alive at once, with a tenth
    /// to spare: 1.1 times the particle lifetime over the burst interval,
    /// rounded up. It is defined for a burst interval that is not zero.
    pub open spec fn bursts_alive(self) -> int {
        (11 * self.particle_lifetime + 10 * self.rate - 1) / (10 * self.rate)
    }

    /// The number of slots in the pool of a spawner with this configuration.
    pub open spec fn capacity(self) -> int {
        self.bursts_alive() * self.amount_per_burst
    }

    /// The coordinate, on one axis, of a particle placed by the draw `u`
    /// around `base`: somewhere within `position_variance` of it.
    pub open spec fn scattered(self, base: i64, u: i64) -> i64 {
        shifted(base, (self.position_variance * (2 * u - ONE)) / (ONE as int))
    }

    /// The position of a particle placed around `origin` by `roll`.
    pub open spec fn spawn_position(self, origin: Vec2, roll: ParticleRoll) -> Vec2 {
        Vec2 { x: self.scattered(origin.x, roll.left), y: self.scattered(origin.y, roll.top) }
    }

    /// The horizontal speed that the draw `u` gives: the spray factor times
    /// the sum of the draw and the offset.
    pub open spec fn spray_speed(self, u: i64) -> i64 {
        clamp((self.spray * (u + self.offset)) / (ONE as int)) as i64
    }

    /// The velocity curve of a particle: the configured one, with both
    /// horizontal speeds replaced by what `roll` gives.
    pub open spec fn rolled_velocity(self, roll: ParticleRoll) -> ParticleVelocity {
        let curve = self.particle_velocity.unwrap();
        ParticleVelocity {
            start: Vec2 { x: self.spray_speed(roll.speed_start), y: curve.start.y },
            end: Vec2 { x: self.spray_speed(roll.speed_end), y: curve.end.y },
        }
    }

    /// The slot that the pool is first filled with: a hidden particle at the
    /// start of its curves.
    pub open spec fn built(self, origin: Vec2, roll: ParticleRoll) -> Particle {
        Particle {
            lifetime: Timer::fresh(self.particle_lifetime, TimerMode::Once),
            visible: false,
            position: self.spawn_position(origin, roll),
            size: self.particle_size.unwrap().start,
            color: self.particle_color.unwrap().start,
            velocity: self.rolled_velocity(roll),
        }
    }

    /// The slot `slot` once it is claimed for a new particle: its age is
    /// zero, it is visible, and position and velocity are rolled anew.
    pub open spec fn activated(self, origin: Vec2, roll: ParticleRoll, slot: Particle) -> Particle {
        Particle {
            lifetime: Timer::fresh(self.particle_lifetime, TimerMode::Once),
            visible: true,
            position: self.spawn_position(origin, roll),
            velocity: self.rolled_velocity(roll),
            ..slot
        }
    }

    /// `after` is the slot `before` claimed for a new particle by some draws.
    pub open spec fn claims(self, origin: Vec2, before: Particle, after: Particle) -> bool {
        exists|roll: ParticleRoll| #[trigger] roll.wf() && after == self.activated(origin, roll, before)
    }

    /// `after` is a slot of a new pool, made by some draws.
    pub open spec fn builds(self, origin: Vec2, after: Particle) -> bool {
        exists|roll: ParticleRoll| #[trigger] roll.wf() && after == self.built(origin, roll)
    }

    /// The slot at `i` is claimed by a burst on the pool `before`: it is
    /// hidden, and fewer hidden slots than the burst's amount come before it.
    pub open spec fn claimed_at(self, before: Seq<Particle>, i: int) -> bool {
        !before[i].visible && hidden_before(before, i) < self.amount_per_burst
    }

    /// `after` is the pool `before` after one burst around `origin`: the
    /// first hidden slots, in slot order and up to the burst's amount, are
    /// claimed, and every other slot is as it was.
    pub open spec fn emitted(self, origin: Vec2, before: Seq<Particle>, after: Seq<Particle>) -> bool {
        &&& after.len() == before.len()
        &&& forall|i: int|
            0 <= i < before.len() ==> if self.claimed_at(before, i) {
                self.claims(origin, before[i], #[trigger] after[i])
            } else {
                after[i] == before[i]
            }
    }

    /// What is wrong with the configuration, if anything: the first of a
    /// missing size, colour or velocity curve, a burst interval of zero, and
    /// a pool too large to count.
    pub open spec fn fault(self) -> Option<ConfigError> {
        if self.particle_size.is_none() {
            Some(ConfigError::MissingSize)
        } else if self.particle_color.is_none() {
            Some(ConfigError::MissingColor)
        } else if self.particle_velocity.is_none() {
            Some(ConfigError::MissingVelocity)
        } else if self.rate == 0 {
            Some(ConfigError::ZeroRate)
        } else if self.capacity() > usize::MAX {
            Some(ConfigError::PoolTooLarge)
        } else {
            None
        }
    }

    /// The timers of a spawner that has just been made.
    pub open spec fn fresh_timers(self) -> ParticleSpawnerTimer {
        ParticleSpawnerTimer {
            spray_timer: Timer::fresh(self.rate, TimerMode::Repeating),
            lifetime: Timer::fresh(self.lifetime, TimerMode::Once),
            finishing_time: Timer::fresh(self.particle_lifetime, TimerMode::Once),
        }
    }
}

impl ParticleSpawnerTimer {
    /// The timers are valid, each runs in its own mode, and the finishing
    /// time has not started before the lifetime is over.
    pub open spec fn wf(self) -> bool {
        &&& self.spray_timer.wf()
        &&& self.lifetime.wf()
        &&& self.finishing_time.wf()
        &&& self.spray_timer.mode == TimerMode::Repeating
        &&& self.lifetime.mode == TimerMode::Once
        &&& self.finishing_time.mode == TimerMode::Once
        &&& !self.lifetime.finished ==> self.finishing_time.elapsed == 0
            && !self.finishing_time.finished
    }

    /// The stage that the timers stand for.
    pub open spec fn phase(self) -> SpawnerPhase {
        if self.finishing_time.finished {
            SpawnerPhase::Finished
        } else if self.lifetime.finished {
            SpawnerPhase::Draining
        } else {
            SpawnerPhase::Bursting
        }
    }

    /// The timers after a frame of `delta` nanoseconds. While bursting, the
    /// spray timer and the lifetime advance; while draining, only the
    /// finishing time does; once finished, nothing moves.
    pub open spec fn stepped(self, delta: u64) -> ParticleSpawnerTimer {
        match self.phase() {
            SpawnerPhase::Bursting => ParticleSpawnerTimer {
                spray_timer: self.spray_timer.ticked(delta),
                lifetime: self.lifetime.ticked(delta),
                ..self
            },
            SpawnerPhase::Draining => ParticleSpawnerTimer {
                finishing_time: self.finishing_time.ticked(delta),
                ..self
            },
            SpawnerPhase::Finished => self,
        }
    }

    /// A frame of `delta` nanoseconds emits a burst: the spawner is bursting
    /// and its spray timer completes during the frame.
    pub open spec fn bursts(self, delta: u64) -> bool {
        self.phase() == SpawnerPhase::Bursting && self.spray_timer.ticked(delta).just_finished
    }
}

impl Particle {
    /// The slot's timer is valid and runs once.
    pub open spec fn wf(self) -> bool {
        self.lifetime.wf() && self.lifetime.mode == TimerMode::Once
    }

    /// The slot holds a particle that the frame has to draw: one on show, or
    /// one that the last tick of its age has just hidden.
    pub open spec fn animated(self) -> bool {
        self.visible || self.lifetime.just_finished
    }

    /// The slot after the frame's tick of `delta` nanoseconds. A particle on
    /// show ages, and is hidden if its time is up. A hidden slot keeps its
    /// age and stays hidden; it is only no longer one that has just finished.
    pub open spec fn aged(self, delta: u64) -> Particle {
        if self.visible {
            let lifetime = self.lifetime.ticked(delta);
            Particle { lifetime, visible: !lifetime.finished, ..self }
        } else {
            Particle { lifetime: Timer { just_finished: false, ..self.lifetime }, ..self }
        }
    }

    /// The particle's velocity at its age: the point of its velocity curve,
    /// with gravity added to the vertical speed.
    pub open spec fn velocity_now(self) -> Vec2 {
        let v = lerp_point(self.velocity.start, self.velocity.end, self.lifetime.fraction());
        Vec2 { x: v.x, y: shifted(v.y, GRAVITY as int) }
    }

    /// The slot moved by what its velocity covers in `delta` nanoseconds, if
    /// it holds a particle to draw; any other slot stays where it is.
    pub open spec fn moved(self, delta: u64) -> Particle {
        if self.animated() {
            let v = self.velocity_now();
            Particle {
                position: Vec2 {
                    x: shifted(self.position.x, travel(v.x, delta)),
                    y: shifted(self.position.y, travel(v.y, delta)),
                },
                ..self
            }
        } else {
            self
        }
    }

    /// The slot with the size that `curve` gives at the particle's age, if
    /// it holds a particle to draw; any other slot keeps its size.
    pub open spec fn resized(self, curve: ParticleSize) -> Particle {
        if self.animated() {
            Particle {
                size: lerp_value(curve.start as int, curve.end as int, self.lifetime.fraction()) as i64,
                ..self
            }
        } else {
            self
        }
    }

    /// The slot with the colour that `curve` gives at the particle's age, if
    /// it holds a particle to draw; any other slot keeps its colour.
    pub open spec fn recolored(self, curve: ParticleColor) -> Particle {
        if self.animated() {
            Particle { color: lerp_shade(curve.start, curve.end, self.lifetime.fraction()), ..self }
        } else {
            self
        }
    }

    /// The slot after one frame of `delta` nanoseconds: it ages, then moves,
    /// then takes the size and the colour of its age. So a particle on show
    /// is updated, also in the frame that hides it, and a slot that was
    /// hidden before the frame keeps its age, position, size and colour.
    pub open spec fn updated(self, size: ParticleSize, color: ParticleColor, delta: u64) -> Particle {
        self.aged(delta).moved(delta).resized(size).recolored(color)
    }
}

/// The number of hidden slots among the first `n` of `slots`.
pub open spec fn hidden_before(slots: Seq<Particle>, n: int) -> int
    decreases n,
{
    if n <= 0 {
        0
    } else {
        hidden_before(slots, n - 1) + if slots[n - 1].visible { 0int } else { 1int }
    }
}

/// The number of hidden slots in `slots`.
pub open spec fn hidden_count(slots: Seq<Particle>) -> int {
    hidden_before(slots, slots.len() as int)
}

impl ParticleCollection {
    /// Every slot is valid.
    pub open spec fn wf(self) -> bool {
        forall|i: int| 0 <= i < self.entities@.len() ==> (#[trigger] self.entities@[i]).wf()
    }

    /// Every slot's timer runs for `duration` nanoseconds.
    pub open spec fn timed(self, duration: u64) -> bool {
        forall|i: int|
            0 <= i < self.entities@.len() ==> (#[trigger] self.entities@[i]).lifetime.duration
                == duration
    }
}

impl SpawnerRuntime {
    /// The configuration is complete, the timers and the slots run for the
    /// configured times, and the pool has as many slots as the configuration
    /// asks for.
    pub open spec fn wf(self) -> bool {
        &&& self.spawner.complete()
        &&& self.spawner.rate > 0
        &&& self.timer.wf()
        &&& self.timer.spray_timer.duration == self.spawner.rate
        &&& self.timer.lifetime.duration == self.spawner.lifetime
        &&& self.timer.finishing_time.duration == self.spawner.particle_lifetime
        &&& self.particles.wf()
        &&& self.particles.timed(self.spawner.particle_lifetime)
        &&& self.particles.entities@.len() == self.spawner.capacity()
    }

    /// No particle outlives its spawner: a particle on show has not used up
    /// its lifetime, it has lived at least as long as the spawner has been
    /// draining, and a finished spawner shows none.
    pub open spec fn on_course(self) -> bool {
        forall|i: int|
            0 <= i < self.particles.entities@.len() && (#[trigger] self.particles.entities@[i]).visible
                ==> {
                &&& !self.particles.entities@[i].lifetime.finished
                &&& self.timer.phase() != SpawnerPhase::Finished
                &&& self.timer.phase() == SpawnerPhase::Draining
                    ==> self.particles.entities@[i].lifetime.elapsed
                    >= self.timer.finishing_time.elapsed
            }
    }

    /// What the update pass of a frame of `delta` nanoseconds makes of
    /// `slot`: nothing if the spawner was finished before the frame, else the
    /// slot updated with the configured size and colour curves.
    pub open spec fn settled(self, delta: u64, slot: Particle) -> Particle {
        if self.timer.phase() == SpawnerPhase::Finished {
            slot
        } else {
            slot.updated(
                self.spawner.particle_size.unwrap(),
                self.spawner.particle_color.unwrap(),
                delta,
            )
        }
    }

    /// `after` is what a frame of `delta` nanoseconds makes of the slot at
    /// `i`: if the frame emits a burst that claims the slot, the slot is
    /// first claimed by some draws; then the update pass runs over it.
    pub open spec fn frame_slot(self, delta: u64, i: int, after: Particle) -> bool {
        if self.timer.bursts(delta) && self.spawner.claimed_at(self.particles.entities@, i) {
            exists|roll: ParticleRoll| #[trigger]
                roll.wf() && after == self.settled(
                    delta,
                    self.spawner.activated(self.origin, roll, self.particles.entities@[i]),
                )
        } else {
            after == self.settled(delta, self.particles.entities@[i])
        }
    }
}

} // verus!
