use particles::components::ConfigError;
use particles::components::Particle;
use particles::components::ParticleColor;
use particles::components::ParticleSize;
use particles::components::ParticleSpawner;
use particles::components::ParticleVelocity;
use particles::components::SpawnerRuntime;
use particles::systems::emit_burst;
use particles::systems::emit_particles;
use particles::systems::pool_capacity;
use particles::systems::spawn_origin;
use particles::systems::spawn_particle_spawner;
use particles::timer::TimerMode;
use particles::units::Color;
use particles::units::Vec2;
use particles::units::NANOS_PER_SECOND;
use particles::units::ONE;

const HALF_SECOND: u64 = NANOS_PER_SECOND / 2;

fn white() -> Color {
    Color { r: ONE, g: ONE, b: ONE, a: ONE }
}

fn clear() -> Color {
    Color { r: ONE, g: 0, b: 0, a: 0 }
}

fn config() -> ParticleSpawner {
    ParticleSpawner {
        rate: HALF_SECOND,
        amount_per_burst: 3,
        position_variance: 10 * ONE,
        spray: 100 * ONE,
        offset: -ONE / 2,
        lifetime: NANOS_PER_SECOND,
        particle_lifetime: 2 * NANOS_PER_SECOND,
        particle_size: Some(ParticleSize { start: 8 * ONE, end: 2 * ONE }),
        particle_velocity: Some(ParticleVelocity {
            start: Vec2 { x: 0, y: -200 * ONE },
            end: Vec2 { x: 0, y: 50 * ONE },
        }),
        particle_color: Some(ParticleColor { start: white(), end: clear() }),
    }
}

fn origin() -> Vec2 {
    Vec2 { x: 400 * ONE, y: 0 }
}

fn visible(runtime: &SpawnerRuntime) -> usize {
    runtime.particles.entities.iter().filter(|p| p.visible).count()
}

fn spawned(config: ParticleSpawner) -> SpawnerRuntime {
    match spawn_particle_spawner(config, origin()) {
        Ok(runtime) => runtime,
        Err(e) => panic!("{:?}", e),
    }
}

#[test]
fn capacity_covers_the_particles_alive_at_once() {
    assert_eq!(pool_capacity(&config()), Ok(15));
}

#[test]
fn capacity_rounds_the_bursts_up() {
    let mut c = config();
    c.particle_lifetime = NANOS_PER_SECOND;
    c.rate = NANOS_PER_SECOND;
    c.amount_per_burst = 1;
    assert_eq!(pool_capacity(&c), Ok(2));
    c.rate = 11 * NANOS_PER_SECOND / 10;
    assert_eq!(pool_capacity(&c), Ok(1));
    c.rate = 11 * NANOS_PER_SECOND / 10 - 1;
    assert_eq!(pool_capacity(&c), Ok(2));
    c.rate = NANOS_PER_SECOND / 10;
    c.amount_per_burst = 7;
    assert_eq!(pool_capacity(&c), Ok(77));
}

#[test]
fn capacity_is_zero_without_particles() {
    let mut c = config();
    c.amount_per_burst = 0;
    assert_eq!(pool_capacity(&c), Ok(0));
    let mut d = config();
    d.particle_lifetime = 0;
    assert_eq!(pool_capacity(&d), Ok(0));
    assert_eq!(spawned(d).particles.entities.len(), 0);
}

#[test]
fn capacity_needs_a_burst_interval() {
    let mut c = config();
    c.rate = 0;
    assert_eq!(pool_capacity(&c), Err(ConfigError::ZeroRate));
    assert_eq!(spawn_particle_spawner(c, origin()).err(), Some(ConfigError::ZeroRate));
}

#[test]
fn capacity_must_be_countable() {
    let mut c = config();
    c.rate = 1;
    c.particle_lifetime = u64::MAX;
    c.amount_per_burst = usize::MAX;
    assert_eq!(pool_capacity(&c), Err(ConfigError::PoolTooLarge));
    assert_eq!(spawn_particle_spawner(c, origin()).err(), Some(ConfigError::PoolTooLarge));
    c.amount_per_burst = 1;
    c.particle_lifetime = 10;
    assert_eq!(pool_capacity(&c), Ok(11));
}

#[test]
fn missing_curves_are_refused() {
    let mut c = config();
    c.particle_size = None;
    assert_eq!(spawn_particle_spawner(c, origin()).err(), Some(ConfigError::MissingSize));
    let mut c = config();
    c.particle_color = None;
    assert_eq!(spawn_particle_spawner(c, origin()).err(), Some(ConfigError::MissingColor));
    let mut c = config();
    c.particle_velocity = None;
    assert_eq!(spawn_particle_spawner(c, origin()).err(), Some(ConfigError::MissingVelocity));
}

#[test]
fn first_missing_curve_is_reported() {
    let mut c = config();
    c.particle_size = None;
    c.particle_color = None;
    c.particle_velocity = None;
    c.rate = 0;
    assert_eq!(spawn_particle_spawner(c, origin()).err(), Some(ConfigError::MissingSize));
    c.particle_size = Some(ParticleSize { start: 1, end: 2 });
    assert_eq!(spawn_particle_spawner(c, origin()).err(), Some(ConfigError::MissingColor));
    c.particle_color = Some(ParticleColor { start: white(), end: clear() });
    assert_eq!(spawn_particle_spawner(c, origin()).err(), Some(ConfigError::MissingVelocity));
}

#[test]
fn new_spawner_has_hidden_slots_and_fresh_timers() {
    let runtime = spawned(config());
    assert_eq!(runtime.spawner, config());
    assert_eq!(runtime.origin, origin());
    assert_eq!(runtime.particles.entities.len(), 15);
    assert_eq!(runtime.timer.spray_timer.duration, HALF_SECOND);
    assert_eq!(runtime.timer.spray_timer.mode, TimerMode::Repeating);
    assert_eq!(runtime.timer.lifetime.duration, NANOS_PER_SECOND);
    assert_eq!(runtime.timer.lifetime.mode, TimerMode::Once);
    assert_eq!(runtime.timer.finishing_time.duration, 2 * NANOS_PER_SECOND);
    assert_eq!(runtime.timer.finishing_time.mode, TimerMode::Once);
    for p in runtime.particles.entities.iter() {
        assert!(!p.visible);
        assert_eq!(p.lifetime.elapsed, 0);
        assert_eq!(p.lifetime.duration, 2 * NANOS_PER_SECOND);
        assert_eq!(p.size, 8 * ONE);
        assert_eq!(p.color, white());
        assert!(390 * ONE <= p.position.x && p.position.x <= 410 * ONE);
        assert!(-10 * ONE <= p.position.y && p.position.y <= 10 * ONE);
        assert!(-50 * ONE <= p.velocity.start.x && p.velocity.start.x < 50 * ONE);
        assert!(-50 * ONE <= p.velocity.end.x && p.velocity.end.x < 50 * ONE);
        assert_eq!(p.velocity.start.y, -200 * ONE);
        assert_eq!(p.velocity.end.y, 50 * ONE);
    }
}

#[test]
fn slots_are_not_all_alike() {
    let mut c = config();
    c.amount_per_burst = 40;
    let runtime = spawned(c);
    let first: Particle = runtime.particles.entities[0];
    assert!(runtime.particles.entities.iter().any(|p| p.position != first.position));
    assert!(runtime.particles.entities.iter().any(|p| p.velocity != first.velocity));
    assert!(runtime.particles.entities.iter().any(|p| p.velocity.start.x != p.velocity.end.x));
}

#[test]
fn origin_is_the_middle_of_the_top_edge() {
    assert_eq!(spawn_origin(800 * ONE), Vec2 { x: 400 * ONE, y: 0 });
    assert_eq!(spawn_origin(3), Vec2 { x: 1, y: 0 });
    assert_eq!(spawn_origin(-3), Vec2 { x: -2, y: 0 });
    assert_eq!(spawn_origin(0), Vec2 { x: 0, y: 0 });
}

#[test]
fn burst_claims_the_first_hidden_slots() {
    let mut runtime = spawned(config());
    emit_burst(&runtime.spawner, &mut runtime.particles, runtime.origin);
    let shown: Vec<bool> = runtime.particles.entities.iter().map(|p| p.visible).collect();
    let mut expected = vec![false; 15];
    expected[0] = true;
    expected[1] = true;
    expected[2] = true;
    assert_eq!(shown, expected);
    runtime.particles.entities[1].visible = false;
    runtime.particles.entities[4].visible = true;
    let kept: Particle = runtime.particles.entities[4];
    let kept_first: Particle = runtime.particles.entities[0];
    emit_burst(&runtime.spawner, &mut runtime.particles, runtime.origin);
    let shown: Vec<bool> = runtime.particles.entities.iter().map(|p| p.visible).collect();
    let mut expected = vec![false; 15];
    for i in 0..=5 {
        expected[i] = true;
    }
    assert_eq!(shown, expected);
    assert_eq!(runtime.particles.entities[4], kept);
    assert_eq!(runtime.particles.entities[0], kept_first);
}

#[test]
fn burst_claims_what_is_left_when_the_pool_runs_out() {
    let mut runtime = spawned(config());
    for i in 0..13 {
        runtime.particles.entities[i].visible = true;
    }
    let before = runtime.particles.clone();
    emit_burst(&runtime.spawner, &mut runtime.particles, runtime.origin);
    assert_eq!(visible(&runtime), 15);
    assert_eq!(runtime.particles.entities.len(), 15);
    for i in 0..13 {
        assert_eq!(runtime.particles.entities[i], before.entities[i]);
    }
    let full = runtime.particles.clone();
    emit_burst(&runtime.spawner, &mut runtime.particles, runtime.origin);
    assert_eq!(runtime.particles, full);
}

#[test]
fn burst_starts_the_particle_anew() {
    let mut runtime = spawned(config());
    runtime.particles.entities[0].lifetime.tick(3 * NANOS_PER_SECOND);
    runtime.particles.entities[0].size = 5;
    runtime.particles.entities[0].color = clear();
    assert!(runtime.particles.entities[0].lifetime.finished());
    emit_burst(&runtime.spawner, &mut runtime.particles, runtime.origin);
    let p: Particle = runtime.particles.entities[0];
    assert!(p.visible);
    assert_eq!(p.lifetime.elapsed, 0);
    assert!(!p.lifetime.finished());
    assert!(!p.lifetime.just_finished());
    assert_eq!(p.lifetime.duration, 2 * NANOS_PER_SECOND);
    assert_eq!(p.size, 5);
    assert_eq!(p.color, clear());
    assert!(390 * ONE <= p.position.x && p.position.x <= 410 * ONE);
    assert!(-10 * ONE <= p.position.y && p.position.y <= 10 * ONE);
}

#[test]
fn two_bursts_then_drain() {
    let mut runtime = spawned(config());
    assert_eq!(runtime.particles.entities.len(), 15);
    assert!(!runtime.step(HALF_SECOND));
    assert_eq!(visible(&runtime), 3);
    assert!(!runtime.timer.lifetime.finished());
    assert!(!runtime.step(HALF_SECOND));
    assert_eq!(visible(&runtime), 6);
    assert!(runtime.timer.lifetime.finished());
    assert!(!runtime.timer.finishing_time.finished());
    assert!(!runtime.step(HALF_SECOND));
    assert_eq!(visible(&runtime), 6);
    assert!(!runtime.step(HALF_SECOND));
    assert_eq!(visible(&runtime), 3);
    assert!(!runtime.step(HALF_SECOND));
    assert_eq!(visible(&runtime), 0);
    assert_eq!(runtime.particles.entities.len(), 15);
    assert!(runtime.step(HALF_SECOND));
    assert!(runtime.timer.finishing_time.finished());
    assert_eq!(runtime.particles.entities.len(), 15);
}

#[test]
fn finished_spawner_stays_as_it_is() {
    let mut runtime = spawned(config());
    let mut frames = 0;
    while !runtime.step(HALF_SECOND) {
        frames += 1;
        assert!(frames < 100);
    }
    let done = runtime.clone();
    assert!(runtime.step(HALF_SECOND));
    assert_eq!(runtime, done);
    assert!(emit_particles(&mut runtime, 7));
    assert_eq!(runtime, done);
}

#[test]
fn spawner_is_never_finished_early() {
    for frame in [1_000_000u64, 16_666_667, 333_333_333, 700_000_000, 999_999_999, 3_100_000_000] {
        let mut runtime = spawned(config());
        let mut total: u64 = 0;
        let mut frames = 0;
        loop {
            let done = runtime.step(frame);
            total += frame;
            frames += 1;
            assert!(frames < 10_000);
            if done {
                break;
            }
            assert!(total <= 3 * NANOS_PER_SECOND + frame);
        }
        assert!(total >= 3 * NANOS_PER_SECOND);
        assert!(total <= 3 * NANOS_PER_SECOND + 2 * frame);
    }
}

#[test]
fn draining_spawner_emits_nothing() {
    let mut runtime = spawned(config());
    assert!(!emit_particles(&mut runtime, NANOS_PER_SECOND));
    assert_eq!(visible(&runtime), 3);
    assert!(runtime.timer.lifetime.finished());
    let spray = runtime.timer.spray_timer;
    assert!(!emit_particles(&mut runtime, HALF_SECOND));
    assert!(!emit_particles(&mut runtime, HALF_SECOND));
    assert_eq!(visible(&runtime), 3);
    assert_eq!(runtime.timer.spray_timer, spray);
    assert_eq!(runtime.timer.finishing_time.elapsed, NANOS_PER_SECOND);
}

#[test]
fn bursting_spawner_emits_once_a_frame() {
    let mut c = config();
    c.lifetime = 100 * NANOS_PER_SECOND;
    let mut runtime = spawned(c);
    assert!(!emit_particles(&mut runtime, HALF_SECOND - 1));
    assert_eq!(visible(&runtime), 0);
    assert!(!emit_particles(&mut runtime, 1));
    assert_eq!(visible(&runtime), 3);
    assert!(!emit_particles(&mut runtime, 3 * HALF_SECOND));
    assert_eq!(visible(&runtime), 6);
    assert_eq!(runtime.timer.lifetime.elapsed, 4 * HALF_SECOND);
    assert_eq!(runtime.timer.finishing_time.elapsed, 0);
}

#[test]
fn pool_keeps_its_size_through_many_bursts() {
    let mut c = config();
    c.lifetime = 20 * NANOS_PER_SECOND;
    let mut runtime = spawned(c);
    let mut frames = 0;
    while !runtime.step(HALF_SECOND / 3) {
        assert_eq!(runtime.particles.entities.len(), 15);
        assert!(visible(&runtime) <= 15);
        assert_eq!(runtime.spawner, c);
        frames += 1;
        assert!(frames < 1000);
    }
    assert_eq!(runtime.particles.entities.len(), 15);
}

#[test]
fn finished_spawner_shows_nothing() {
    for frame in [1_000_000u64, 16_666_667, 333_333_333, 700_000_000, 999_999_999, 3_100_000_000] {
        let mut c = config();
        c.lifetime = 3 * NANOS_PER_SECOND;
        let mut runtime = spawned(c);
        let mut shown = 0;
        let mut frames = 0;
        while !runtime.step(frame) {
            shown = shown.max(visible(&runtime));
            frames += 1;
            assert!(frames < 10_000);
        }
        assert_eq!(visible(&runtime), 0);
        assert!(frame > 2 * NANOS_PER_SECOND || shown > 0);
    }
}

fn frames_for(duration: u64, frame: u64) -> u64 {
    if duration == 0 {
        1
    } else {
        (duration + frame - 1) / frame
    }
}

#[test]
fn even_frames_finish_when_both_timers_had_theirs() {
    for frame in [1_000_000u64, 16_666_667, 333_333_333, 500_000_000, 700_000_000, 999_999_999, 3_100_000_000] {
        for (life, particle_life) in [(NANOS_PER_SECOND, 2 * NANOS_PER_SECOND), (600_000_000, 600_000_000), (0, NANOS_PER_SECOND), (NANOS_PER_SECOND, 0), (0, 0)] {
            let mut c = config();
            c.lifetime = life;
            c.particle_lifetime = particle_life;
            let mut runtime = spawned(c);
            let mut frames: u64 = 0;
            loop {
                frames += 1;
                assert!(frames < 10_000);
                if runtime.step(frame) {
                    break;
                }
            }
            assert_eq!(frames, frames_for(life, frame) + frames_for(particle_life, frame));
            assert!(frames * frame >= life + particle_life);
            assert!(frames * frame <= life + particle_life + 2 * frame);
        }
    }
}

#[test]
fn two_timers_of_six_tenths_in_half_second_frames_take_two_seconds() {
    let mut c = config();
    c.lifetime = 600_000_000;
    c.particle_lifetime = 600_000_000;
    let mut runtime = spawned(c);
    assert!(!runtime.step(HALF_SECOND));
    assert!(!runtime.step(HALF_SECOND));
    assert!(!runtime.step(HALF_SECOND));
    assert!(runtime.step(HALF_SECOND));
}

#[test]
fn no_more_than_two_bursts_in_a_second_of_half_second_bursts() {
    for frame in [1_000_000u64, 16_666_667, 250_000_000, 333_333_333, 499_999_999, 500_000_000, 700_000_000, 999_999_999, 1_000_000_000, 3_100_000_000] {
        let mut runtime = spawned(config());
        let mut most = 0;
        let mut frames = 0;
        loop {
            let draining = runtime.timer.lifetime.finished();
            let done = runtime.step(frame);
            most = most.max(visible(&runtime));
            assert!(visible(&runtime) <= 6);
            assert_eq!(runtime.particles.entities.len(), 15);
            if draining {
                assert!(visible(&runtime) <= most);
            }
            frames += 1;
            assert!(frames < 10_000);
            if done {
                break;
            }
        }
        assert!(most <= 6);
    }
}

#[test]
fn burst_is_emitted_in_a_frame_of_many_burst_intervals() {
    let mut c = config();
    c.rate = 1;
    c.particle_lifetime = 1;
    c.lifetime = 100 * NANOS_PER_SECOND;
    let mut runtime = spawned(c);
    assert_eq!(runtime.particles.entities.len(), 6);
    assert!(!emit_particles(&mut runtime, 1 << 32));
    assert!(runtime.timer.spray_timer.just_finished());
    assert_eq!(visible(&runtime), 3);
    assert!(!emit_particles(&mut runtime, 1 << 33));
    assert_eq!(visible(&runtime), 6);
}
