use vstd::prelude::*;

verus! {

/// RGBA color with 8-bit channels.
#[derive(Clone, Copy, Debug, PartialEq, Eq, Structural)]
pub struct RainColor {
    pub r: u8,
    pub g: u8,
    pub b: u8,
    pub a: u8,
}

impl Default for RainColor {
    /// A pale blue-grey, the stock rain tint.
    fn default() -> (c: RainColor)
        ensures
            c == (RainColor { r: 174, g: 194, b: 224, a: 180 }),
    {
        RainColor { r: 174, g: 194, b: 224, a: 180 }
    }
}

/// Rain configuration, in milli-units: `intensity`, `opacity` and
/// `splash_intensity` are fractions in `0..=1000`; `speed` is a multiplier
/// in `500..=5000` (0.5x to 5x); `angle` is in milli-degrees within
/// `-60000..=60000`; `drop_length` and `drop_width` are milli-pixels.
#[derive(Clone, Debug)]
pub struct RainConfig {
    /// Whether the rain effect is enabled.
    pub enabled: bool,
    /// Rain intensity as a fraction, 0 to 1000.
    pub intensity: i64,
    /// Fall-speed multiplier in milli-units, 500 to 5000.
    pub speed: i64,
    /// Rain slant in milli-degrees, -60000 to 60000.
    pub angle: i64,
    /// Drop length in milli-pixels.
    pub drop_length: i64,
    /// Drop width in milli-pixels.
    pub drop_width: i64,
    /// Rain color.
    pub color: RainColor,
    /// Overall opacity as a fraction, 0 to 1000.
    pub opacity: i64,
    /// Whether drops ending on the bottom edge may splash.
    pub splash_enabled: bool,
    /// Splash probability as a fraction, 0 to 1000.
    pub splash_intensity: i64,
    /// Name of the preset this configuration came from, if any.
    pub preset: Option<String>,
}

impl RainConfig {
    /// The ranges every configuration is kept inside by its owner; the
    /// simulation takes them as given.
    pub open spec fn valid(self) -> bool {
        &&& 0 <= self.intensity <= 1000
        &&& 500 <= self.speed <= 5000
        &&& -60_000 <= self.angle <= 60_000
        &&& 5000 <= self.drop_length <= 100_000
        &&& 1000 <= self.drop_width <= 10_000
        &&& 0 <= self.opacity <= 1000
        &&& 0 <= self.splash_intensity <= 1000
    }

    /// Force every numeric field into its valid range, leaving in-range
    /// values untouched.
    pub fn clamp(&mut self)
        ensures
            final(self).valid(),
            final(self).enabled == old(self).enabled,
            final(self).color == old(self).color,
            final(self).splash_enabled == old(self).splash_enabled,
            final(self).preset == old(self).preset,
            final(self).intensity == clamp_spec(old(self).intensity as int, 0, 1000),
            final(self).speed == clamp_spec(old(self).speed as int, 500, 5000),
            final(self).angle == clamp_spec(old(self).angle as int, -60_000, 60_000),
            final(self).drop_length == clamp_spec(old(self).drop_length as int, 5000, 100_000),
            final(self).drop_width == clamp_spec(old(self).drop_width as int, 1000, 10_000),
            final(self).opacity == clamp_spec(old(self).opacity as int, 0, 1000),
            final(self).splash_intensity == clamp_spec(old(self).splash_intensity as int, 0, 1000),
    {
        self.intensity = clamp_i64(self.intensity, 0, 1000);
        self.speed = clamp_i64(self.speed, 500, 5000);
        self.angle = clamp_i64(self.angle, -60_000, 60_000);
        self.drop_length = clamp_i64(self.drop_length, 5000, 100_000);
        self.drop_width = clamp_i64(self.drop_width, 1000, 10_000);
        self.opacity = clamp_i64(self.opacity, 0, 1000);
        self.splash_intensity = clamp_i64(self.splash_intensity, 0, 1000);
    }
}

impl Default for RainConfig {
    /// Moderate steady rain at half intensity.
    fn default() -> (c: RainConfig)
        ensures
            c.valid(),
            c.enabled,
            c.intensity == 500,
            c.speed == 1000,
            c.angle == 0,
            c.drop_length == 20_000,
            c.drop_width == 2000,
            c.color == (RainColor { r: 174, g: 194, b: 224, a: 180 }),
            c.opacity == 700,
            c.splash_enabled,
            c.splash_intensity == 500,
            c.preset is None,
    {
        RainConfig {
            enabled: true,
            intensity: 500,
            speed: 1000,
            angle: 0,
            drop_length: 20_000,
            drop_width: 2000,
            color: RainColor { r: 174, g: 194, b: 224, a: 180 },
            opacity: 700,
            splash_enabled: true,
            splash_intensity: 500,
            preset: None,
        }
    }
}

/// The value `x` forced into `[lo, hi]`.
pub open spec fn clamp_spec(x: int, lo: int, hi: int) -> int {
    if x < lo {
        lo
    } else if x > hi {
        hi
    } else {
        x
    }
}

/// Executable clamp of an `i64` into `[lo, hi]`.
pub fn clamp_i64(x: i64, lo: i64, hi: i64) -> (r: i64)
    requires
        lo <= hi,
    ensures
        r == clamp_spec(x as int, lo as int, hi as int),
        lo <= r <= hi,
{
    if x < lo {
        lo
    } else if x > hi {
        hi
    } else {
        x
    }
}

} // verus!
