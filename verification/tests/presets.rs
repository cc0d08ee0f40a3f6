use raindesk::config::{RainColor, RainConfig};
use raindesk::presets::{apply_preset, get_builtin_presets};

#[test]
fn eight_builtin_presets_in_order() {
    let presets = get_builtin_presets();
    let names: Vec<&str> = presets.iter().map(|p| p.name.as_str()).collect();
    assert_eq!(
        names,
        vec![
            "Light Drizzle",
            "Steady Rain",
            "Heavy Downpour",
            "Windy Storm",
            "Misty",
            "Cyberpunk",
            "Warm Sunset",
            "Blood Rain",
        ]
    );
    for p in &presets {
        assert!(!p.description.is_empty());
    }
}

#[test]
fn steady_rain_preset_values() {
    let presets = get_builtin_presets();
    let p = &presets[1].config;
    assert_eq!(p.intensity, 500);
    assert_eq!(p.speed, 1000);
    assert_eq!(p.angle, 0);
    assert_eq!(p.drop_length, 20_000);
    assert_eq!(p.drop_width, 2000);
    assert_eq!(p.color, RainColor { r: 174, g: 194, b: 224, a: 180 });
    assert_eq!(p.opacity, 700);
    assert!(p.splash_enabled);
    assert_eq!(p.splash_intensity, 500);
}

#[test]
fn windy_storm_slants_the_rain() {
    let presets = get_builtin_presets();
    let p = &presets[3].config;
    assert_eq!(p.angle, -30_000);
    assert_eq!(p.speed, 2000);
}

#[test]
fn apply_preset_merges_and_remembers_the_name() {
    let mut cfg = RainConfig::default();
    cfg.enabled = false;
    let out = apply_preset(&cfg, String::from("Misty")).unwrap();
    assert!(!out.enabled);
    assert_eq!(out.intensity, 600);
    assert_eq!(out.speed, 500);
    assert_eq!(out.drop_length, 8000);
    assert!(!out.splash_enabled);
    assert_eq!(out.splash_intensity, 0);
    assert_eq!(out.preset.as_deref(), Some("Misty"));
}

#[test]
fn apply_preset_rejects_unknown_names() {
    let cfg = RainConfig::default();
    assert!(apply_preset(&cfg, String::from("Plasma Storm")).is_none());
    assert!(apply_preset(&cfg, String::from("")).is_none());
}
