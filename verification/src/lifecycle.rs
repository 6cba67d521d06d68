//! What holds of a spawner and of a particle over a whole life.

use vstd::prelude::*;
use vstd::arithmetic::div_mod::lemma_div_is_ordered;
use vstd::arithmetic::div_mod::lemma_div_multiples_vanish;
use vstd::arithmetic::div_mod::lemma_fundamental_div_mod;
use vstd::arithmetic::div_mod::lemma_mod_bound;
use crate::components::Particle;
use crate::components::ParticleColor;
use crate::components::ParticleSize;
use crate::components::ParticleSpawner;
use crate::components::ParticleSpawnerTimer;
use crate::components::SpawnerPhase;
use crate::components::SpawnerRuntime;
use crate::components::hidden_count;
use crate::interp::lemma_lerp_end;
use crate::interp::lemma_lerp_start;
use crate::random::is_unit;
use crate::units::clamp;
use crate::units::ONE;

verus! {

/// The time that the frames `deltas` take together, in nanoseconds.
pub open spec fn total_time(deltas: Seq<u64>) -> int
    decreases deltas.len(),
{
    if deltas.len() == 0 {
        0
    } else {
        total_time(deltas.drop_last()) + deltas.last()
    }
}

/// The timers after the frames `deltas`, taken in order.
pub open spec fn run(timers: ParticleSpawnerTimer, deltas: Seq<u64>) -> ParticleSpawnerTimer
    decreases deltas.len(),
{
    if deltas.len() == 0 {
        timers
    } else {
        run(timers, deltas.drop_last()).stepped(deltas.last())
    }
}

/// No frame of `deltas` is longer than `longest` nanoseconds.
pub open spec fn frames_within(deltas: Seq<u64>, longest: int) -> bool {
    forall|i: int| 0 <= i < deltas.len() ==> #[trigger] deltas[i] <= longest
}

/// Where the timers of a spawner stand after `total` nanoseconds in frames
/// of at most `longest`: while bursting the lifetime has counted all of the
/// time; while draining the finishing time started within one frame after
/// the lifetime's end; once finished, lifetime and finishing time have both
/// gone by.
pub open spec fn on_schedule(
    spawner: ParticleSpawner,
    timers: ParticleSpawnerTimer,
    total: int,
    longest: int,
) -> bool {
    &&& timers.wf()
    &&& timers.lifetime.duration == spawner.lifetime
    &&& timers.finishing_time.duration == spawner.particle_lifetime
    &&& match timers.phase() {
        SpawnerPhase::Bursting => timers.lifetime.elapsed == total
            && timers.finishing_time.elapsed == 0,
        SpawnerPhase::Draining => spawner.lifetime <= total - timers.finishing_time.elapsed
            <= spawner.lifetime + longest,
        SpawnerPhase::Finished => total >= spawner.lifetime + spawner.particle_lifetime,
    }
}

/// A spawner keeps to its schedule through any frames.
pub proof fn lemma_run_on_schedule(spawner: ParticleSpawner, deltas: Seq<u64>, longest: int)
    requires
        frames_within(deltas, longest),
    ensures
        on_schedule(spawner, run(spawner.fresh_timers(), deltas), total_time(deltas), longest),
    decreases deltas.len(),
{
    if deltas.len() > 0 {
        let earlier: Seq<u64> = deltas.drop_last();
        assert(frames_within(earlier, longest)) by {
            assert forall|i: int| 0 <= i < earlier.len() implies #[trigger] earlier[i]
                <= longest by {
                assert(earlier[i] == deltas[i]);
            }
        }
        lemma_run_on_schedule(spawner, earlier, longest);
        assert(deltas[deltas.len() - 1] <= longest);
    }
}

/// A spawner is never finished before its lifetime and the lifetime of one
/// particle have both gone by, whatever the frames.
pub proof fn lemma_never_finished_early(spawner: ParticleSpawner, deltas: Seq<u64>)
    requires
        run(spawner.fresh_timers(), deltas).phase() == SpawnerPhase::Finished,
    ensures
        total_time(deltas) >= spawner.lifetime + spawner.particle_lifetime,
{
    assert(frames_within(deltas, u64::MAX as int));
    lemma_run_on_schedule(spawner, deltas, u64::MAX as int);
}

/// A spawner is finished once more time has gone by than its lifetime, the
/// lifetime of one particle, and the longest frame: the finishing time starts
/// with the frame after the one that ends the lifetime, and ends with the
/// frame that completes it.
pub proof fn lemma_finished_in_time(spawner: ParticleSpawner, deltas: Seq<u64>, longest: u64)
    requires
        frames_within(deltas, longest as int),
        total_time(deltas) > spawner.lifetime + spawner.particle_lifetime + longest,
    ensures
        run(spawner.fresh_timers(), deltas).phase() == SpawnerPhase::Finished,
{
    lemma_run_on_schedule(spawner, deltas, longest as int);
}

/// Once a spawner is finished, further frames change nothing.
pub proof fn lemma_finished_stays(timers: ParticleSpawnerTimer, delta: u64)
    requires
        timers.phase() == SpawnerPhase::Finished,
    ensures
        timers.stepped(delta) == timers,
{
}

/// While a spawner drains, the spray timer stands still, so no burst is emitted.
pub proof fn lemma_draining_emits_nothing(timers: ParticleSpawnerTimer, delta: u64)
    requires
        timers.phase() != SpawnerPhase::Bursting,
    ensures
        !timers.bursts(delta),
        timers.stepped(delta).spray_timer == timers.spray_timer,
        timers.stepped(delta).phase() != SpawnerPhase::Bursting,
{
}

/// A particle on show of age zero, with a lifetime that is not zero, has
/// the size and the colour that its curves start with.
pub proof fn lemma_particle_starts_at_start(
    particle: Particle,
    size: ParticleSize,
    color: ParticleColor,
)
    requires
        particle.wf(),
        particle.visible,
        particle.lifetime.duration > 0,
        particle.lifetime.elapsed == 0,
    ensures
        particle.resized(size).size == size.start,
        particle.recolored(color).color == color.start,
{
    let t = particle.lifetime.fraction();
    lemma_lerp_start(size.start as int, size.end as int, t);
    lemma_lerp_start(color.start.r as int, color.end.r as int, t);
    lemma_lerp_start(color.start.g as int, color.end.g as int, t);
    lemma_lerp_start(color.start.b as int, color.end.b as int, t);
    lemma_lerp_start(color.start.a as int, color.end.a as int, t);
}

/// A particle whose age is its whole lifetime, in the frame that hides it,
/// has the size and the colour that its curves end with.
pub proof fn lemma_particle_ends_at_end(particle: Particle, size: ParticleSize, color: ParticleColor)
    requires
        particle.wf(),
        particle.animated(),
        particle.lifetime.elapsed == particle.lifetime.duration,
    ensures
        particle.resized(size).size == size.end,
        particle.recolored(color).color == color.end,
{
    let t = particle.lifetime.fraction();
    lemma_lerp_end(size.start as int, size.end as int, t);
    lemma_lerp_end(color.start.r as int, color.end.r as int, t);
    lemma_lerp_end(color.start.g as int, color.end.g as int, t);
    lemma_lerp_end(color.start.b as int, color.end.b as int, t);
    lemma_lerp_end(color.start.a as int, color.end.a as int, t);
}

/// The pool is sized by the least whole number of burst intervals that
/// cover 1.1 particle lifetimes.
pub proof fn lemma_bursts_alive_is_ceiling(spawner: ParticleSpawner)
    requires
        spawner.rate > 0,
    ensures
        10 * spawner.rate * spawner.bursts_alive() >= 11 * spawner.particle_lifetime,
        10 * spawner.rate * (spawner.bursts_alive() - 1) < 11 * spawner.particle_lifetime,
{
    let d: int = 10 * spawner.rate;
    let n: int = 11 * spawner.particle_lifetime + d - 1;
    lemma_fundamental_div_mod(n, d);
    lemma_mod_bound(n, d);
    assert(d * (spawner.bursts_alive() - 1) == d * spawner.bursts_alive() - d) by (nonlinear_arith);
}

/// A finished spawner has no particle left on show: the finishing time
/// lasts as long as a particle lives, so each has run its course.
pub proof fn lemma_finished_shows_nothing(runtime: SpawnerRuntime)
    requires
        runtime.on_course(),
        runtime.timer.phase() == SpawnerPhase::Finished,
    ensures
        forall|i: int|
            0 <= i < runtime.particles.entities@.len() ==> !(
            #[trigger] runtime.particles.entities@[i]).visible,
{
}

/// A new particle lies within the position variance of the origin, on
/// either axis, as far as the range of coordinates goes.
pub proof fn lemma_scattered_within(spawner: ParticleSpawner, base: i64, u: i64)
    requires
        is_unit(u),
        spawner.position_variance >= 0,
    ensures
        clamp(base - spawner.position_variance) <= spawner.scattered(base, u) <= clamp(
            base + spawner.position_variance,
        ),
{
    let v: int = spawner.position_variance as int;
    let one: int = ONE as int;
    let spread: int = 2 * u - one;
    assert(one * (-v) <= v * spread <= one * v) by (nonlinear_arith)
        requires
            0 <= v,
            -one <= spread <= one,
    ;
    lemma_div_is_ordered(one * (-v), v * spread, one);
    lemma_div_is_ordered(v * spread, one * v, one);
    lemma_div_multiples_vanish(-v, one);
    lemma_div_multiples_vanish(v, one);
}

/// The number of frames of `deltas` that emit a burst, for a spawner whose
/// timers stand at `timers` before the first of them.
pub open spec fn bursts_in(timers: ParticleSpawnerTimer, deltas: Seq<u64>) -> int
    decreases deltas.len(),
{
    if deltas.len() == 0 {
        0
    } else {
        bursts_in(timers, deltas.drop_last()) + if run(timers, deltas.drop_last()).bursts(
            deltas.last(),
        ) {
            1int
        } else {
            0int
        }
    }
}

/// The most bursts that a spawner can emit: one for each burst interval
/// that its lifetime begins, and one in any case.
pub open spec fn bursts_due(spawner: ParticleSpawner) -> int {
    if spawner.lifetime == 0 {
        1
    } else {
        (spawner.lifetime + spawner.rate - 1) / (spawner.rate as int)
    }
}

/// How the bursts emitted so far stand to the time gone by: while the
/// spawner is bursting, each burst has used up a burst interval of the
/// lifetime counted so far, and the lifetime is not yet over unless no frame
/// has run.
pub open spec fn bursts_paid(spawner: ParticleSpawner, timers: ParticleSpawnerTimer, count: int) -> bool {
    &&& timers.wf()
    &&& timers.spray_timer.duration == spawner.rate
    &&& timers.lifetime.duration == spawner.lifetime
    &&& 0 <= count <= bursts_due(spawner)
    &&& timers.phase() == SpawnerPhase::Bursting ==> {
        &&& count * spawner.rate + timers.spray_timer.elapsed <= timers.lifetime.elapsed
        &&& timers.lifetime.elapsed < spawner.lifetime || count == 0
    }
}

/// Whatever the frames, a spawner emits no more bursts than its lifetime
/// begins burst intervals, and at least one is allowed: with a lifetime of
/// one second and a burst every half second, no more than two.
pub proof fn lemma_bursts_bounded(spawner: ParticleSpawner, deltas: Seq<u64>)
    requires
        spawner.rate > 0,
    ensures
        bursts_paid(
            spawner,
            run(spawner.fresh_timers(), deltas),
            bursts_in(spawner.fresh_timers(), deltas),
        ),
        bursts_in(spawner.fresh_timers(), deltas) <= bursts_due(spawner),
    decreases deltas.len(),
{
    let rate: int = spawner.rate as int;
    let life: int = spawner.lifetime as int;
    if life > 0 {
        lemma_fundamental_div_mod(life + rate - 1, rate);
        lemma_mod_bound(life + rate - 1, rate);
        assert(rate * bursts_due(spawner) >= life);
        assert(bursts_due(spawner) >= 1) by (nonlinear_arith)
            requires
                rate * bursts_due(spawner) >= life,
                life > 0,
                rate > 0,
        ;
    }
    if deltas.len() > 0 {
        let earlier: Seq<u64> = deltas.drop_last();
        let delta: u64 = deltas.last();
        lemma_bursts_bounded(spawner, earlier);
        let before: ParticleSpawnerTimer = run(spawner.fresh_timers(), earlier);
        let count: int = bursts_in(spawner.fresh_timers(), earlier);
        if before.bursts(delta) {
            let spent: int = before.spray_timer.elapsed + delta;
            lemma_fundamental_div_mod(spent, rate);
            lemma_mod_bound(spent, rate);
            assert(spent / rate >= 1) by (nonlinear_arith)
                requires
                    spent == rate * (spent / rate) + spent % rate,
                    0 <= spent % rate < rate,
                    spent >= rate,
                    rate > 0,
            ;
            assert(rate * (spent / rate) >= rate) by (nonlinear_arith)
                requires
                    spent / rate >= 1,
                    rate > 0,
            ;
            assert((count + 1) * rate == count * rate + rate) by (nonlinear_arith);
            if count > 0 {
                assert(count + 1 <= bursts_due(spawner)) by (nonlinear_arith)
                    requires
                        count * rate <= life - 1,
                        rate * bursts_due(spawner) + rate - 1 >= life + rate - 1,
                        rate > 0,
                ;
            }
        }
    }
}

/// `count` frames of `delta` nanoseconds each.
pub open spec fn even_frames(delta: u64, count: nat) -> Seq<u64> {
    Seq::new(count, |i: int| delta)
}

/// The number of frames of `delta` nanoseconds that a one-shot timer of
/// `duration` needs to finish: as many as cover the duration, and one at least.
pub open spec fn frames_for(duration: u64, delta: u64) -> int {
    if duration == 0 {
        1
    } else {
        (duration + delta - 1) / (delta as int)
    }
}

/// The frames that a timer needs are the fewest that cover its duration.
pub proof fn lemma_frames_for(duration: u64, delta: u64)
    requires
        delta > 0,
    ensures
        frames_for(duration, delta) >= 1,
        frames_for(duration, delta) * delta >= duration,
        duration > 0 ==> (frames_for(duration, delta) - 1) * delta < duration,
{
    let d: int = delta as int;
    let k: int = frames_for(duration, delta);
    if duration > 0 {
        lemma_fundamental_div_mod(duration + d - 1, d);
        lemma_mod_bound(duration + d - 1, d);
        assert(k * d == d * k && (k - 1) * d == d * k - d) by (nonlinear_arith);
        assert(k >= 1) by (nonlinear_arith)
            requires
                d * k >= duration,
                duration > 0,
                d > 0,
        ;
    } else {
        assert(k * d == d) by (nonlinear_arith)
            requires
                k == 1,
        ;
    }
}

/// Where the timers stand after `count` frames of `delta` nanoseconds each:
/// bursting until the lifetime has had its frames, then draining until the
/// finishing time has had its own, then finished.
pub open spec fn on_even_schedule(
    spawner: ParticleSpawner,
    timers: ParticleSpawnerTimer,
    delta: u64,
    count: nat,
) -> bool {
    let first: int = frames_for(spawner.lifetime, delta);
    let second: int = frames_for(spawner.particle_lifetime, delta);
    &&& timers.wf()
    &&& timers.lifetime.duration == spawner.lifetime
    &&& timers.finishing_time.duration == spawner.particle_lifetime
    &&& count < first ==> timers.phase() == SpawnerPhase::Bursting && timers.lifetime.elapsed
        == count * delta
    &&& first <= count < first + second ==> timers.phase() == SpawnerPhase::Draining
        && timers.finishing_time.elapsed == (count - first) * delta
    &&& first + second <= count ==> timers.phase() == SpawnerPhase::Finished
}

/// In frames of one length a spawner is finished exactly from the frame on
/// in which the lifetime and then the finishing time have each had the
/// frames they need.
pub proof fn lemma_even_schedule(spawner: ParticleSpawner, delta: u64, count: nat)
    requires
        delta > 0,
    ensures
        on_even_schedule(spawner, run(spawner.fresh_timers(), even_frames(delta, count)), delta, count),
    decreases count,
{
    let first: int = frames_for(spawner.lifetime, delta);
    let second: int = frames_for(spawner.particle_lifetime, delta);
    lemma_frames_for(spawner.lifetime, delta);
    lemma_frames_for(spawner.particle_lifetime, delta);
    let d: int = delta as int;
    if count > 0 {
        let earlier: nat = (count - 1) as nat;
        lemma_even_schedule(spawner, delta, earlier);
        assert(even_frames(delta, count).drop_last() =~= even_frames(delta, earlier));
        assert(even_frames(delta, count).last() == delta);
        assert(count * d == earlier * d + d) by (nonlinear_arith)
            requires
                count == earlier + 1,
        ;
        let before: ParticleSpawnerTimer = run(spawner.fresh_timers(), even_frames(delta, earlier));
        let after: ParticleSpawnerTimer = run(spawner.fresh_timers(), even_frames(delta, count));
        assert(after == before.stepped(delta));
        if earlier < first {
            if count < first {
                assert(count * d <= (first - 1) * d) by (nonlinear_arith)
                    requires
                        count <= first - 1,
                        d > 0,
                ;
            } else {
                assert(count * d >= first * d) by (nonlinear_arith)
                    requires
                        count >= first,
                        d > 0,
                ;
            }
        } else if earlier < first + second {
            let done: int = count - first;
            assert(done * d == (earlier - first) * d + d) by (nonlinear_arith)
                requires
                    done == earlier - first + 1,
            ;
            if count < first + second {
                assert(done * d <= (second - 1) * d) by (nonlinear_arith)
                    requires
                        done <= second - 1,
                        d > 0,
                ;
            } else {
                assert(done * d >= second * d) by (nonlinear_arith)
                    requires
                        done >= second,
                        d > 0,
                ;
            }
        }
    } else {
        assert(even_frames(delta, count) =~= Seq::<u64>::empty());
        assert(0 * d == 0);
    }
}

/// In frames of one length, the frame that finishes a spawner ends no
/// earlier than its lifetime and the lifetime of one particle together, and
/// less than two frames later: each of the two timers may overshoot by less
/// than a frame, or by a whole frame if its duration is zero. Where the two
/// overshoots together are no more than one frame, the spawner is finished
/// within one frame of that time.
pub proof fn lemma_finished_within_frames(spawner: ParticleSpawner, delta: u64)
    requires
        delta > 0,
    ensures
        ({
            let frames: int = frames_for(spawner.lifetime, delta) + frames_for(
                spawner.particle_lifetime,
                delta,
            );
            let due: int = spawner.lifetime + spawner.particle_lifetime;
            &&& frames >= 2
            &&& run(spawner.fresh_timers(), even_frames(delta, frames as nat)).phase()
                == SpawnerPhase::Finished
            &&& run(spawner.fresh_timers(), even_frames(delta, (frames - 1) as nat)).phase()
                != SpawnerPhase::Finished
            &&& due <= frames * delta <= due + 2 * delta
            &&& (frames_for(spawner.lifetime, delta) * delta - spawner.lifetime) + (frames_for(
                spawner.particle_lifetime,
                delta,
            ) * delta - spawner.particle_lifetime) <= delta ==> frames * delta <= due + delta
        }),
{
    let first: int = frames_for(spawner.lifetime, delta);
    let second: int = frames_for(spawner.particle_lifetime, delta);
    let d: int = delta as int;
    lemma_frames_for(spawner.lifetime, delta);
    lemma_frames_for(spawner.particle_lifetime, delta);
    lemma_even_schedule(spawner, delta, (first + second) as nat);
    lemma_even_schedule(spawner, delta, (first + second - 1) as nat);
    assert((first + second) * d == first * d + second * d) by (nonlinear_arith);
    assert((first - 1) * d == first * d - d && (second - 1) * d == second * d - d)
        by (nonlinear_arith);
    if spawner.lifetime == 0 {
        assert(first * d == d) by (nonlinear_arith)
            requires
                first == 1,
        ;
    }
    if spawner.particle_lifetime == 0 {
        assert(second * d == d) by (nonlinear_arith)
            requires
                second == 1,
        ;
    }
}

/// `after` is what one frame of `delta` nanoseconds makes of `before`: the
/// configuration and the pool's size stay, the timers step, every slot is
/// what the frame makes of it, and no more slots come on show than a burst
/// of this frame claims.
pub open spec fn follows(before: SpawnerRuntime, delta: u64, after: SpawnerRuntime) -> bool {
    &&& after.spawner == before.spawner
    &&& after.origin == before.origin
    &&& after.timer == before.timer.stepped(delta)
    &&& after.particles.entities@.len() == before.particles.entities@.len()
    &&& forall|i: int|
        0 <= i < before.particles.entities@.len() ==> before.frame_slot(
            delta,
            i,
            #[trigger] after.particles.entities@[i],
        )
    &&& hidden_count(after.particles.entities@) >= hidden_count(before.particles.entities@) - if
        before.timer.bursts(delta) {
        before.spawner.amount_per_burst as int
    } else {
        0int
    }
}

/// `states` is the life of a spawner through the frames `deltas`: it begins
/// with a new spawner, whose timers are fresh and whose slots are all
/// hidden, and each state follows from the one before by one frame.
pub open spec fn is_life(states: Seq<SpawnerRuntime>, deltas: Seq<u64>) -> bool {
    &&& states.len() == deltas.len() + 1
    &&& states[0].timer == states[0].spawner.fresh_timers()
    &&& hidden_count(states[0].particles.entities@) == states[0].particles.entities@.len()
    &&& forall|i: int| 0 <= i < deltas.len() ==> follows(states[i], #[trigger] deltas[i], states[i + 1])
}

/// Through any frames, a spawner keeps its configuration and the size of
/// its pool, its timers are those that the frames give, and no more
/// particles are on show than its bursts so far have asked for; so never
/// more than the burst's amount times the bursts that its lifetime allows.
pub proof fn lemma_life_shows_bursts(states: Seq<SpawnerRuntime>, deltas: Seq<u64>)
    requires
        is_life(states, deltas),
        states[0].spawner.rate > 0,
    ensures
        states.last().spawner == states[0].spawner,
        states.last().particles.entities@.len() == states[0].particles.entities@.len(),
        states.last().timer == run(states[0].spawner.fresh_timers(), deltas),
        states.last().particles.entities@.len() - hidden_count(states.last().particles.entities@)
            <= states[0].spawner.amount_per_burst * bursts_in(
            states[0].spawner.fresh_timers(),
            deltas,
        ),
        states.last().particles.entities@.len() - hidden_count(states.last().particles.entities@)
            <= states[0].spawner.amount_per_burst * bursts_due(states[0].spawner),
    decreases deltas.len(),
{
    let spawner: ParticleSpawner = states[0].spawner;
    let amount: int = spawner.amount_per_burst as int;
    lemma_bursts_bounded(spawner, deltas);
    let so_far: int = bursts_in(spawner.fresh_timers(), deltas);
    assert(amount * so_far <= amount * bursts_due(spawner)) by (nonlinear_arith)
        requires
            0 <= amount,
            so_far <= bursts_due(spawner),
    ;
    if deltas.len() == 0 {
        assert(amount * 0 == 0);
    } else {
        let earlier: Seq<u64> = deltas.drop_last();
        let lived: Seq<SpawnerRuntime> = states.drop_last();
        let last: int = deltas.len() - 1;
        assert(is_life(lived, earlier)) by {
            assert forall|i: int| 0 <= i < earlier.len() implies follows(
                lived[i],
                #[trigger] earlier[i],
                lived[i + 1],
            ) by {
                assert(follows(states[i], deltas[i], states[i + 1]));
            }
        }
        lemma_life_shows_bursts(lived, earlier);
        assert(lived.last() == states[last]);
        assert(follows(states[last], deltas[last], states[last + 1]));
        let before: int = bursts_in(spawner.fresh_timers(), earlier);
        assert(amount * (before + 1) == amount * before + amount) by (nonlinear_arith);
    }
}

} // verus!
