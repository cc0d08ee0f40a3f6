use raindesk::config::RainConfig;
use raindesk::particles::{Raindrop, Splash};
use raindesk::render_pack::{pack_drop_instances, pack_splash_instances};
use raindesk::rng::Rng;
use raindesk::trig::{cos_signed, sin_signed};

#[test]
fn xorshift_matches_the_reference_recurrence() {
    let mut rng = Rng::new(42);
    let mut x: u64 = 42;
    for _ in 0..100 {
        x ^= x << 13;
        x ^= x >> 7;
        x ^= x << 17;
        assert_eq!(rng.next_u64(), x);
    }
}

#[test]
fn zero_seed_is_replaced() {
    let a = Rng::new(0);
    assert_eq!(a.state, 0xDEAD_BEEF_CAFE_BABE);
    let b = Rng::new(5);
    assert_eq!(b.state, 5);
}

#[test]
fn equal_seeds_draw_equal_sequences() {
    let mut a = Rng::new(123_456_789);
    let mut b = Rng::new(123_456_789);
    for _ in 0..50 {
        assert_eq!(a.next_u64(), b.next_u64());
    }
}

#[test]
fn sine_hits_the_exact_rational_points() {
    assert_eq!(sin_signed(0), 0);
    assert_eq!(sin_signed(90_000), 1000);
    assert_eq!(sin_signed(30_000), 500);
    assert_eq!(sin_signed(-30_000), -500);
    // the approximation stays within about two milli-units of the truth
    let s60 = sin_signed(60_000);
    assert!((s60 - 866).abs() <= 2, "sin 60 deg ~ {s60}");
    assert_eq!(cos_signed(0), 1000);
    assert_eq!(cos_signed(60_000), 500);
    assert_eq!(cos_signed(-60_000), 500);
}

#[test]
fn clamp_forces_every_field_into_range() {
    let mut c = RainConfig {
        enabled: true,
        intensity: 5000,
        speed: 0,
        angle: 90_000,
        drop_length: 1,
        drop_width: 99_999,
        color: Default::default(),
        opacity: -5,
        splash_enabled: true,
        splash_intensity: 1001,
        preset: None,
    };
    c.clamp();
    assert_eq!(c.intensity, 1000);
    assert_eq!(c.speed, 500);
    assert_eq!(c.angle, 60_000);
    assert_eq!(c.drop_length, 5000);
    assert_eq!(c.drop_width, 10_000);
    assert_eq!(c.opacity, 0);
    assert_eq!(c.splash_intensity, 1000);
}

#[test]
fn clamp_leaves_valid_values_alone() {
    let mut c = RainConfig::default();
    let before = c.clone();
    c.clamp();
    assert_eq!(c.intensity, before.intensity);
    assert_eq!(c.speed, before.speed);
    assert_eq!(c.angle, before.angle);
    assert_eq!(c.drop_length, before.drop_length);
    assert_eq!(c.drop_width, before.drop_width);
    assert_eq!(c.opacity, before.opacity);
    assert_eq!(c.splash_intensity, before.splash_intensity);
}

#[test]
fn drop_records_pack_eight_numbers_each() {
    let drops = vec![
        Raindrop { x: 1, y: 2, vx: 3, vy: 4, length: 5, width: 6, alpha: 7, fade_in: 8 },
        Raindrop {
            x: -10,
            y: 20,
            vx: -30,
            vy: 40,
            length: 50,
            width: 60,
            alpha: 70,
            fade_in: 80,
        },
    ];
    let flat = pack_drop_instances(&drops);
    assert_eq!(flat, vec![1, 2, 3, 4, 5, 6, 7, 8, -10, 20, -30, 40, 50, 60, 70, 80]);
    assert!(pack_drop_instances(&vec![]).is_empty());
}

#[test]
fn splash_records_pack_four_numbers_each() {
    let splashes = vec![
        Splash { x: 9, y: 8, radius: 7, max_radius: 100, alpha: 6, life: 500 },
        Splash { x: -1, y: -2, radius: 3, max_radius: 50, alpha: 4, life: 900 },
    ];
    let flat = pack_splash_instances(&splashes);
    assert_eq!(flat, vec![9, 8, 7, 6, -1, -2, 3, 4]);
    assert!(pack_splash_instances(&vec![]).is_empty());
}
