use raindesk::config::{RainColor, RainConfig};
use raindesk::particles::ParticleSystem;

fn base_config() -> RainConfig {
    RainConfig {
        enabled: true,
        intensity: 0,
        speed: 1000,
        angle: 0,
        drop_length: 20_000,
        drop_width: 2000,
        color: RainColor { r: 174, g: 194, b: 224, a: 180 },
        opacity: 700,
        splash_enabled: true,
        splash_intensity: 500,
        preset: None,
    }
}

#[test]
fn spawn_rate_cache_matches_formula() {
    let mut cfg = base_config();
    let mut sys = ParticleSystem::new(800, 600, &cfg);
    assert_eq!(sys.spawn_rate, 50_000);

    cfg.intensity = 1000;
    sys.update_config(&cfg);
    assert_eq!(sys.spawn_rate, 3_000_000);

    cfg.intensity = 500;
    sys.update_config(&cfg);
    // 50_000 + 500 * 500 * 2950 / 1000
    assert_eq!(sys.spawn_rate, 50_000 + 737_500);
}

#[test]
fn one_second_at_zero_intensity_spawns_fifty_drops() {
    let cfg = base_config();
    let mut sys = ParticleSystem::new(800, 600, &cfg);
    sys.update(1000);
    assert_eq!(sys.drops.len(), 50);
    assert_eq!(sys.spawn_acc, 0);
}

#[test]
fn one_second_at_full_intensity_spawns_three_thousand_drops() {
    let mut cfg = base_config();
    cfg.intensity = 1000;
    let mut sys = ParticleSystem::new(800, 600, &cfg);
    sys.update(1000);
    assert_eq!(sys.drops.len(), 3000);
    assert_eq!(sys.spawn_acc, 0);
}

#[test]
fn fractional_spawn_rate_carries_over() {
    let cfg = base_config();
    let mut sys = ParticleSystem::new(800, 600, &cfg);
    // 10 ms at 50 drops/s gathers half a drop.
    sys.update(10);
    assert_eq!(sys.drops.len(), 0);
    assert_eq!(sys.spawn_acc, 500_000);
    sys.update(10);
    assert_eq!(sys.drops.len(), 1);
    assert_eq!(sys.spawn_acc, 0);
}

#[test]
fn vertical_rain_falls_straight_down() {
    let cfg = base_config();
    let mut sys = ParticleSystem::new(800, 600, &cfg);
    sys.update(1000);
    assert!(!sys.drops.is_empty());
    for d in &sys.drops {
        assert_eq!(d.vx, 0);
        assert!(d.vy > 0);
    }
}

#[test]
fn slanted_rain_drifts_sideways() {
    let mut cfg = base_config();
    cfg.angle = 30_000;
    let mut sys = ParticleSystem::new(800, 600, &cfg);
    sys.update(1000);
    assert!(!sys.drops.is_empty());
    for d in &sys.drops {
        // positive angle slants the fall toward negative x
        assert!(d.vx < 0);
        assert!(d.vy > 0);
    }
}

#[test]
fn disabling_drains_all_particles_within_three_short_steps() {
    let cfg = base_config();
    let mut sys = ParticleSystem::new(800, 600, &cfg);
    sys.update(1000);
    assert!(!sys.drops.is_empty());
    let mut off = base_config();
    off.enabled = false;
    sys.update_config(&off);
    // alpha starts at most 1000 and falls by 3 * 400 per call
    sys.update(400);
    sys.update(400);
    sys.update(400);
    assert!(sys.drops.is_empty());
    assert!(sys.splashes.is_empty());
}

#[test]
fn disabled_updates_never_grow_the_population() {
    let cfg = base_config();
    let mut sys = ParticleSystem::new(800, 600, &cfg);
    sys.update(1000);
    let mut off = base_config();
    off.enabled = false;
    sys.update_config(&off);
    let mut last = sys.drops.len() + sys.splashes.len();
    for _ in 0..20 {
        sys.update(50);
        let now = sys.drops.len() + sys.splashes.len();
        assert!(now <= last);
        last = now;
    }
    assert_eq!(last, 0);
}

#[test]
fn two_identical_runs_stay_identical() {
    let mut cfg = base_config();
    cfg.intensity = 400;
    cfg.angle = -15_000;
    let mut a = ParticleSystem::new(800, 600, &cfg);
    let mut b = ParticleSystem::new(800, 600, &cfg);
    for dt in [16u32, 17, 16, 250, 3, 1000] {
        a.update(dt);
        b.update(dt);
        assert_eq!(a.drops, b.drops);
        assert_eq!(a.splashes, b.splashes);
        assert_eq!(a.rng, b.rng);
        assert_eq!(a.spawn_acc, b.spawn_acc);
    }
}

#[test]
fn splash_decision_is_a_pure_function_of_position() {
    for x in [-5000i64, 0, 1234, 999_999, 400_000_000] {
        let first = ParticleSystem::splash_decision(x, 700);
        for _ in 0..3 {
            assert_eq!(ParticleSystem::splash_decision(x, 700), first);
        }
    }
    // sub-pixel positions share a bucket
    assert_eq!(
        ParticleSystem::splash_decision(5000, 300),
        ParticleSystem::splash_decision(5999, 300)
    );
    // zero intensity never splashes; at full intensity every bucket does,
    // the topmost one (x = 175 px hashes to 255) included: 255/256 < 1
    assert!(!ParticleSystem::splash_decision(123_456, 0));
    assert!(ParticleSystem::splash_decision(0, 1000));
    assert!(ParticleSystem::splash_decision(175_000, 1000));
    assert!(!ParticleSystem::splash_decision(175_000, 996));
}

#[test]
fn resize_keeps_existing_particles_untouched() {
    let cfg = base_config();
    let mut sys = ParticleSystem::new(800, 600, &cfg);
    sys.update(1000);
    let drops_before = sys.drops.clone();
    let splashes_before = sys.splashes.clone();
    sys.resize(1920, 1080);
    assert_eq!(sys.drops, drops_before);
    assert_eq!(sys.splashes, splashes_before);
    assert_eq!(sys.screen_w, 1_920_000);
    assert_eq!(sys.screen_h, 1_080_000);
}

#[test]
fn ingesting_the_same_snapshot_twice_changes_nothing() {
    let mut cfg = base_config();
    cfg.intensity = 777;
    cfg.angle = -42_000;
    cfg.opacity = 321;
    let mut sys = ParticleSystem::new(800, 600, &cfg);
    sys.update_config(&cfg);
    let once = [
        sys.spawn_rate,
        sys.pixel_speed,
        sys.sin_a,
        sys.cos_a,
        sys.drop_length,
        sys.drop_width,
        sys.color_r,
        sys.color_g,
        sys.color_b,
        sys.color_a,
        sys.opacity,
        sys.splash_intensity,
    ];
    let flags_once = (sys.splash_enabled, sys.enabled);
    sys.update_config(&cfg);
    let twice = [
        sys.spawn_rate,
        sys.pixel_speed,
        sys.sin_a,
        sys.cos_a,
        sys.drop_length,
        sys.drop_width,
        sys.color_r,
        sys.color_g,
        sys.color_b,
        sys.color_a,
        sys.opacity,
        sys.splash_intensity,
    ];
    let flags_twice = (sys.splash_enabled, sys.enabled);
    assert_eq!(once, twice);
    assert_eq!(flags_once, flags_twice);
}

#[test]
fn drops_leave_through_the_bottom_and_may_splash() {
    let mut cfg = base_config();
    cfg.intensity = 300;
    cfg.splash_intensity = 1000;
    let mut sys = ParticleSystem::new(800, 600, &cfg);
    // let drops spawn and fall well past the bottom of a 600px screen
    for _ in 0..20 {
        sys.update(250);
    }
    // drops keep spawning, but some have landed and splashed
    assert!(!sys.splashes.is_empty());
    for s in &sys.splashes {
        assert_eq!(s.y, 600_000 - 2000);
        assert!(s.life > 0 && s.life <= 1000);
        assert!(s.radius >= 0 && s.radius <= s.max_radius);
    }
}

#[test]
fn splashes_are_capped_per_step() {
    let mut cfg = base_config();
    cfg.intensity = 1000;
    cfg.splash_intensity = 1000;
    let mut sys = ParticleSystem::new(800, 600, &cfg);
    // at full intensity about 300 drops land per 100 ms step in the steady
    // state, far more than the per-step splash budget of 200
    for _ in 0..30 {
        sys.update(100);
    }
    // a splash born this step has aged once: life 1000 - 3 * 100
    let fresh = sys.splashes.iter().filter(|s| s.life == 700).count();
    assert_eq!(fresh, 200);
}

#[test]
fn no_splashes_when_disabled_by_config() {
    let mut cfg = base_config();
    cfg.intensity = 300;
    cfg.splash_enabled = false;
    let mut sys = ParticleSystem::new(800, 600, &cfg);
    for _ in 0..40 {
        sys.update(250);
    }
    assert!(sys.splashes.is_empty());
}

#[test]
fn color_premultiplies_opacity_into_alpha() {
    let cfg = base_config();
    let sys = ParticleSystem::new(800, 600, &cfg);
    let c = sys.color();
    // channels 174, 194, 224, 180 as milli fractions of 255
    assert_eq!(c[0], 174 * 1000 / 255);
    assert_eq!(c[1], 194 * 1000 / 255);
    assert_eq!(c[2], 224 * 1000 / 255);
    // alpha basis: opacity 700 times normalized channel alpha
    assert_eq!(c[3], 700 * (180 * 1000 / 255) / 1000);
}

#[test]
fn new_drops_fade_in_after_spawn() {
    let cfg = base_config();
    let mut sys = ParticleSystem::new(800, 600, &cfg);
    sys.update(40);
    assert!(!sys.drops.is_empty());
    for d in &sys.drops {
        // spawned at zero, advanced by 8 per second within the same step
        assert!(d.fade_in <= 320);
    }
    sys.update(200);
    // after 0.125 s of life, fade-in saturates at full
    sys.update(1000);
    assert!(sys.drops.iter().any(|d| d.fade_in == 1000));
}
