use crate::config::{RainColor, RainConfig};
use vstd::prelude::*;
use vstd::string::StringExecFns;

verus! {

/// A named rain preset.
#[derive(Clone, Debug)]
pub struct Preset {
    pub name: String,
    pub description: String,
    pub config: PresetConfig,
}

/// The configurable subset a preset carries — everything but the enabled
/// flag — in the same milli-units as `RainConfig`.
#[derive(Clone, Copy, Debug, PartialEq, Eq, Structural)]
pub struct PresetConfig {
    pub intensity: i64,
    pub speed: i64,
    pub angle: i64,
    pub drop_length: i64,
    pub drop_width: i64,
    pub color: RainColor,
    pub opacity: i64,
    pub splash_enabled: bool,
    pub splash_intensity: i64,
}

/// How many presets are built in.
pub const BUILTIN_PRESET_COUNT: usize = 8;

/// The name of the `i`-th built-in preset.
pub open spec fn builtin_name(i: int) -> Seq<char> {
    if i == 0 {
        "Light Drizzle"@
    } else if i == 1 {
        "Steady Rain"@
    } else if i == 2 {
        "Heavy Downpour"@
    } else if i == 3 {
        "Windy Storm"@
    } else if i == 4 {
        "Misty"@
    } else if i == 5 {
        "Cyberpunk"@
    } else if i == 6 {
        "Warm Sunset"@
    } else {
        "Blood Rain"@
    }
}

/// The description of the `i`-th built-in preset.
pub open spec fn builtin_description(i: int) -> Seq<char> {
    if i == 0 {
        "Gentle, calming light rain"@
    } else if i == 1 {
        "Moderate steady rainfall"@
    } else if i == 2 {
        "Intense heavy rain"@
    } else if i == 3 {
        "Rain blown by strong wind"@
    } else if i == 4 {
        "Fine misty rain, almost fog-like"@
    } else if i == 5 {
        "Neon-tinted futuristic rain"@
    } else if i == 6 {
        "Golden hour rain"@
    } else {
        "Ominous red-tinted rain"@
    }
}

/// The configuration of the `i`-th built-in preset.
pub open spec fn builtin_config(i: int) -> PresetConfig {
    if i == 0 {
        PresetConfig {
            intensity: 300,
            speed: 800,
            angle: 0,
            drop_length: 15_000,
            drop_width: 1500,
            color: RainColor { r: 200, g: 220, b: 255, a: 120 },
            opacity: 500,
            splash_enabled: true,
            splash_intensity: 300,
        }
    } else if i == 1 {
        PresetConfig {
            intensity: 500,
            speed: 1000,
            angle: 0,
            drop_length: 20_000,
            drop_width: 2000,
            color: RainColor { r: 174, g: 194, b: 224, a: 180 },
            opacity: 700,
            splash_enabled: true,
            splash_intensity: 500,
        }
    } else if i == 2 {
        PresetConfig {
            intensity: 900,
            speed: 1500,
            angle: -5000i64,
            drop_length: 30_000,
            drop_width: 2500,
            color: RainColor { r: 150, g: 170, b: 200, a: 200 },
            opacity: 850,
            splash_enabled: true,
            splash_intensity: 800,
        }
    } else if i == 3 {
        PresetConfig {
            intensity: 700,
            speed: 2000,
            angle: -30_000i64,
            drop_length: 25_000,
            drop_width: 2000,
            color: RainColor { r: 140, g: 160, b: 190, a: 180 },
            opacity: 750,
            splash_enabled: true,
            splash_intensity: 600,
        }
    } else if i == 4 {
        PresetConfig {
            intensity: 600,
            speed: 500,
            angle: 0,
            drop_length: 8000,
            drop_width: 1000,
            color: RainColor { r: 220, g: 230, b: 245, a: 100 },
            opacity: 400,
            splash_enabled: false,
            splash_intensity: 0,
        }
    } else if i == 5 {
        PresetConfig {
            intensity: 500,
            speed: 1200,
            angle: -10_000i64,
            drop_length: 35_000,
            drop_width: 1500,
            color: RainColor { r: 0, g: 255, b: 200, a: 150 },
            opacity: 600,
            splash_enabled: true,
            splash_intensity: 400,
        }
    } else if i == 6 {
        PresetConfig {
            intensity: 400,
            speed: 900,
            angle: 5000,
            drop_length: 18_000,
            drop_width: 2000,
            color: RainColor { r: 255, g: 200, b: 150, a: 140 },
            opacity: 550,
            splash_enabled: true,
            splash_intensity: 350,
        }
    } else {
        PresetConfig {
            intensity: 600,
            speed: 1100,
            angle: -8000i64,
            drop_length: 22_000,
            drop_width: 2500,
            color: RainColor { r: 180, g: 50, b: 50, a: 160 },
            opacity: 650,
            splash_enabled: true,
            splash_intensity: 500,
        }
    }
}

/// One built-in preset, by index.
fn make_preset(name: &'static str, description: &'static str, config: PresetConfig) -> (p: Preset)
    ensures
        p.name@ == name@,
        p.description@ == description@,
        p.config == config,
{
    Preset {
        name: String::from_str(name),
        description: String::from_str(description),
        config,
    }
}

/// The eight built-in presets, in their fixed order: the same list on
/// every call, every field pinned.
pub fn get_builtin_presets() -> (r: Vec<Preset>)
    ensures
        r@.len() == BUILTIN_PRESET_COUNT,
        forall|i: int|
            0 <= i < BUILTIN_PRESET_COUNT ==> (#[trigger] r@[i]).name@ == builtin_name(i),
        forall|i: int|
            0 <= i < BUILTIN_PRESET_COUNT ==> (#[trigger] r@[i]).description@
                == builtin_description(i),
        forall|i: int|
            0 <= i < BUILTIN_PRESET_COUNT ==> (#[trigger] r@[i]).config == builtin_config(i),
{
    let mut r: Vec<Preset> = Vec::new();
    r.push(
        make_preset("Light Drizzle", "Gentle, calming light rain", builtin_config_at(0)),
    );
    r.push(make_preset("Steady Rain", "Moderate steady rainfall", builtin_config_at(1)));
    r.push(make_preset("Heavy Downpour", "Intense heavy rain", builtin_config_at(2)));
    r.push(make_preset("Windy Storm", "Rain blown by strong wind", builtin_config_at(3)));
    r.push(make_preset("Misty", "Fine misty rain, almost fog-like", builtin_config_at(4)));
    r.push(make_preset("Cyberpunk", "Neon-tinted futuristic rain", builtin_config_at(5)));
    r.push(make_preset("Warm Sunset", "Golden hour rain", builtin_config_at(6)));
    r.push(make_preset("Blood Rain", "Ominous red-tinted rain", builtin_config_at(7)));
    r
}

/// The `i`-th built-in configuration as a runtime value.
fn builtin_config_at(i: usize) -> (c: PresetConfig)
    requires
        i < BUILTIN_PRESET_COUNT,
    ensures
        c == builtin_config(i as int),
{
    if i == 0 {
        PresetConfig {
            intensity: 300,
            speed: 800,
            angle: 0,
            drop_length: 15_000,
            drop_width: 1500,
            color: RainColor { r: 200, g: 220, b: 255, a: 120 },
            opacity: 500,
            splash_enabled: true,
            splash_intensity: 300,
        }
    } else if i == 1 {
        PresetConfig {
            intensity: 500,
            speed: 1000,
            angle: 0,
            drop_length: 20_000,
            drop_width: 2000,
            color: RainColor { r: 174, g: 194, b: 224, a: 180 },
            opacity: 700,
            splash_enabled: true,
            splash_intensity: 500,
        }
    } else if i == 2 {
        PresetConfig {
            intensity: 900,
            speed: 1500,
            angle: -5000,
            drop_length: 30_000,
            drop_width: 2500,
            color: RainColor { r: 150, g: 170, b: 200, a: 200 },
            opacity: 850,
            splash_enabled: true,
            splash_intensity: 800,
        }
    } else if i == 3 {
        PresetConfig {
            intensity: 700,
            speed: 2000,
            angle: -30_000,
            drop_length: 25_000,
            drop_width: 2000,
            color: RainColor { r: 140, g: 160, b: 190, a: 180 },
            opacity: 750,
            splash_enabled: true,
            splash_intensity: 600,
        }
    } else if i == 4 {
        PresetConfig {
            intensity: 600,
            speed: 500,
            angle: 0,
            drop_length: 8000,
            drop_width: 1000,
            color: RainColor { r: 220, g: 230, b: 245, a: 100 },
            opacity: 400,
            splash_enabled: false,
            splash_intensity: 0,
        }
    } else if i == 5 {
        PresetConfig {
            intensity: 500,
            speed: 1200,
            angle: -10_000,
            drop_length: 35_000,
            drop_width: 1500,
            color: RainColor { r: 0, g: 255, b: 200, a: 150 },
            opacity: 600,
            splash_enabled: true,
            splash_intensity: 400,
        }
    } else if i == 6 {
        PresetConfig {
            intensity: 400,
            speed: 900,
            angle: 5000,
            drop_length: 18_000,
            drop_width: 2000,
            color: RainColor { r: 255, g: 200, b: 150, a: 140 },
            opacity: 550,
            splash_enabled: true,
            splash_intensity: 350,
        }
    } else {
        PresetConfig {
            intensity: 600,
            speed: 1100,
            angle: -8000,
            drop_length: 22_000,
            drop_width: 2500,
            color: RainColor { r: 180, g: 50, b: 50, a: 160 },
            opacity: 650,
            splash_enabled: true,
            splash_intensity: 500,
        }
    }
}

/// The first built-in preset index bearing `name`, looking from `i` on.
pub open spec fn find_preset_from(name: Seq<char>, i: int) -> Option<int>
    decreases BUILTIN_PRESET_COUNT - i,
{
    if i < 0 || i >= BUILTIN_PRESET_COUNT {
        None
    } else if builtin_name(i) == name {
        Some(i)
    } else {
        find_preset_from(name, i + 1)
    }
}

/// The configuration that applying the named built-in preset to `c` yields:
/// the preset's values, with `c`'s enabled flag kept and the preset's name
/// remembered; `None` when no built-in preset bears the name.
pub fn apply_preset(c: &RainConfig, preset_name: String) -> (r: Option<RainConfig>)
    ensures
        r is Some <==> find_preset_from(preset_name@, 0) is Some,
        r is Some ==> {
            let p = builtin_config(find_preset_from(preset_name@, 0)->0);
            &&& r->0.enabled == c.enabled
            &&& r->0.intensity == p.intensity
            &&& r->0.speed == p.speed
            &&& r->0.angle == p.angle
            &&& r->0.drop_length == p.drop_length
            &&& r->0.drop_width == p.drop_width
            &&& r->0.color == p.color
            &&& r->0.opacity == p.opacity
            &&& r->0.splash_enabled == p.splash_enabled
            &&& r->0.splash_intensity == p.splash_intensity
            &&& r->0.preset == Some(preset_name)
        },
        r is Some ==> r->0.valid(),
{
    let presets = get_builtin_presets();
    let mut i: usize = 0;
    while i < presets.len()
        invariant
            i <= BUILTIN_PRESET_COUNT,
            presets@.len() == BUILTIN_PRESET_COUNT,
            forall|k: int|
                0 <= k < BUILTIN_PRESET_COUNT ==> (#[trigger] presets@[k]).name@ == builtin_name(
                    k,
                ),
            forall|k: int|
                0 <= k < BUILTIN_PRESET_COUNT ==> (#[trigger] presets@[k]).config
                    == builtin_config(k),
            find_preset_from(preset_name@, 0) == find_preset_from(preset_name@, i as int),
        decreases presets@.len() - i,
    {
        if presets[i].name == preset_name {
            let p = &presets[i].config;
            return Some(
                RainConfig {
                    enabled: c.enabled,
                    intensity: p.intensity,
                    speed: p.speed,
                    angle: p.angle,
                    drop_length: p.drop_length,
                    drop_width: p.drop_width,
                    color: p.color,
                    opacity: p.opacity,
                    splash_enabled: p.splash_enabled,
                    splash_intensity: p.splash_intensity,
                    preset: Some(preset_name),
                },
            );
        }
        i = i + 1;
    }
    None
}

} // verus!
