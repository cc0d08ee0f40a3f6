use crate::config::RainConfig;
use crate::rng::{frac_of, range_spec, rng_next_spec, Rng};
use crate::trig::{
    cos_signed, cos_signed_spec, lemma_sin_at_least_half, lemma_sin_bounds, sin_signed,
    sin_signed_spec,
};
use vstd::prelude::*;

verus! {

/// Largest magnitude a stored drop coordinate can have, in milli-pixels.
/// Stored drops either survived a cull against the screen edges or were just
/// spawned along the top edge, and screens are at most `u32::MAX` pixels
/// wide, so this bound holds with room to spare and keeps one integration
/// step far away from `i64` overflow.
pub const POS_LIMIT: i64 = 0x800_0000_0000;

/// Fixed seed of the per-session generator, so every session replays the
/// same drop pattern and tests are deterministic.
pub const SESSION_SEED: u64 = 0x8886_7B18_0000_002A;

/// A single raindrop. Positions and sizes are in milli-pixels, velocities in
/// milli-pixels per second, `alpha` and `fade_in` are fractions in `0..=1000`.
#[derive(Clone, Copy, Debug, PartialEq, Eq, Structural)]
pub struct Raindrop {
    pub x: i64,
    pub y: i64,
    pub vx: i64,
    pub vy: i64,
    pub length: i64,
    pub width: i64,
    pub alpha: i64,
    pub fade_in: i64,
}

/// A splash ring spawned where a raindrop crossed the bottom edge.
/// `radius` grows toward `max_radius`; `life` falls from 1000 to 0.
#[derive(Clone, Copy, Debug, PartialEq, Eq, Structural)]
pub struct Splash {
    pub x: i64,
    pub y: i64,
    pub radius: i64,
    pub max_radius: i64,
    pub alpha: i64,
    pub life: i64,
}

/// Mathematical state of a particle system: the two particle sequences, the
/// generator word, and every cached derived value.
#[verifier::ext_equal]
pub struct PsModel {
    pub drops: Seq<Raindrop>,
    pub splashes: Seq<Splash>,
    pub rng: u64,
    pub screen_w: int,
    pub screen_h: int,
    pub spawn_rate: int,
    pub pixel_speed: int,
    pub sin_a: int,
    pub cos_a: int,
    pub drop_length: int,
    pub drop_width: int,
    pub color_r: int,
    pub color_g: int,
    pub color_b: int,
    pub color_a: int,
    pub opacity: int,
    pub splash_enabled: bool,
    pub splash_intensity: int,
    pub enabled: bool,
    pub spawn_acc: int,
}

/// Spawn rate in milli-drops per second for an intensity fraction:
/// 50 drops per second at zero, 3000 at full, growing with the square of the
/// intensity so perceived heaviness rises faster near the top of the range.
pub open spec fn spawn_rate_of(intensity: int) -> int {
    50_000 + intensity * intensity * 2950 / 1000
}

/// Fall speed in milli-pixels per second for a speed multiplier: 400 pixels
/// per second at multiplier one.
pub open spec fn pixel_speed_of(speed: int) -> int {
    400 * speed
}

/// An 8-bit color channel as a fraction in `0..=1000`.
pub open spec fn channel_milli(c: int) -> int {
    c * 1000 / 255
}

/// Truncating (round-toward-zero) scaling of `a` by the fraction `b / 1000`,
/// for `b >= 0`, as the executable code computes it through unsigned
/// division of the magnitude.
pub open spec fn scale_milli_spec(a: int, b: int) -> int {
    if a >= 0 {
        a * b / 1000
    } else {
        -((-a) * b / 1000)
    }
}

/// Well-formedness of a stored raindrop: coordinates within [`POS_LIMIT`],
/// velocity within the largest spawnable speed and pointing downward, and
/// size and fraction fields in their ranges.
pub open spec fn wf_drop(d: Raindrop) -> bool {
    &&& -POS_LIMIT <= d.x <= POS_LIMIT
    &&& -200_000 <= d.y <= POS_LIMIT
    &&& -2_600_000 <= d.vx <= 2_600_000
    &&& 0 < d.vy <= 2_600_000
    &&& 0 < d.length <= 140_000
    &&& 0 < d.width <= 13_000
    &&& 0 <= d.alpha <= 1000
    &&& 0 <= d.fade_in <= 1000
}

/// Well-formedness of a stored splash: the ring never outgrows its cap and
/// its fractions stay in range; a stored splash is still alive.
pub open spec fn wf_splash(s: Splash) -> bool {
    &&& 0 < s.max_radius <= 41_000
    &&& 0 <= s.radius <= s.max_radius
    &&& 0 <= s.alpha <= 1000
    &&& 0 < s.life <= 1000
}

/// The particle collections hold only well-formed particles.
pub open spec fn wf_particles(m: PsModel) -> bool {
    &&& forall|i: int| 0 <= i < m.drops.len() ==> wf_drop(#[trigger] m.drops[i])
    &&& forall|i: int| 0 <= i < m.splashes.len() ==> wf_splash(#[trigger] m.splashes[i])
}

/// The screen extent fits a `u32`-pixel screen and the fractional spawn
/// accumulator holds less than one whole drop.
pub open spec fn wf_frame(m: PsModel) -> bool {
    &&& 0 <= m.screen_w <= 4_295_000_000_000
    &&& 0 <= m.screen_h <= 4_295_000_000_000
    &&& 0 <= m.spawn_acc < 1_000_000
}

/// The cached derived values lie in the ranges that a valid configuration
/// produces.
pub open spec fn wf_caches(m: PsModel) -> bool {
    &&& 50_000 <= m.spawn_rate <= 3_000_000
    &&& 200_000 <= m.pixel_speed <= 2_000_000
    &&& -1000 <= m.sin_a <= 1000
    &&& 500 <= m.cos_a <= 1000
    &&& 5000 <= m.drop_length <= 100_000
    &&& 1000 <= m.drop_width <= 10_000
    &&& 0 <= m.color_r <= 1000
    &&& 0 <= m.color_g <= 1000
    &&& 0 <= m.color_b <= 1000
    &&& 0 <= m.color_a <= 1000
    &&& 0 <= m.opacity <= 1000
    &&& 0 <= m.splash_intensity <= 1000
}

/// Full well-formedness of a particle system state.
pub open spec fn wf_model(m: PsModel) -> bool {
    wf_particles(m) && wf_frame(m) && wf_caches(m)
}

/// The caches that ingesting configuration `c` writes, over the rest of the
/// state `m`; the particles, the generator, the accumulator and the screen
/// extent are untouched.
pub open spec fn ingest_spec(m: PsModel, c: RainConfig) -> PsModel {
    PsModel {
        spawn_rate: spawn_rate_of(c.intensity as int),
        pixel_speed: pixel_speed_of(c.speed as int),
        sin_a: sin_signed_spec(c.angle as int),
        cos_a: cos_signed_spec(c.angle as int),
        drop_length: c.drop_length as int,
        drop_width: c.drop_width as int,
        color_r: channel_milli(c.color.r as int),
        color_g: channel_milli(c.color.g as int),
        color_b: channel_milli(c.color.b as int),
        color_a: channel_milli(c.color.a as int),
        opacity: c.opacity as int,
        splash_enabled: c.splash_enabled,
        splash_intensity: c.splash_intensity as int,
        enabled: c.enabled,
        ..m
    }
}

/// One freshly spawned raindrop from generator word `r0`, and the generator
/// word after the five draws it consumes: speed factor, horizontal and
/// vertical position, length factor, width factor, in that order.
pub open spec fn spawn_one_spec(m: PsModel, r0: u64) -> (Raindrop, u64) {
    let r1 = rng_next_spec(r0);
    let u_speed = 700 + frac_of(r1) * 600 / 1000;
    let spd = m.pixel_speed * u_speed / 1000;
    let vx = scale_milli_spec(-m.sin_a, spd);
    let vy = m.cos_a * spd / 1000;
    let sin_abs = if m.sin_a >= 0 {
        m.sin_a
    } else {
        -m.sin_a
    };
    let extra_raw = sin_abs * m.screen_h / 1000;
    let half_w = m.screen_w / 2;
    let extra = if extra_raw < half_w {
        extra_raw
    } else {
        half_w
    };
    let r2 = rng_next_spec(r1);
    let x = range_spec(-extra, m.screen_w + extra, frac_of(r2));
    let r3 = rng_next_spec(r2);
    let y = range_spec(-2 * m.drop_length, -m.drop_length, frac_of(r3));
    let r4 = rng_next_spec(r3);
    let length = m.drop_length * (600 + frac_of(r4) * 800 / 1000) / 1000;
    let r5 = rng_next_spec(r4);
    let width = m.drop_width * (700 + frac_of(r5) * 600 / 1000) / 1000;
    let d = Raindrop {
        x: x as i64,
        y: y as i64,
        vx: vx as i64,
        vy: vy as i64,
        length: length as i64,
        width: width as i64,
        alpha: (m.opacity * m.color_a / 1000) as i64,
        fade_in: 0,
    };
    (d, r5)
}

/// The first `k` spawned drops of a step, with the generator word they leave
/// behind.
pub open spec fn spawn_upto_spec(m: PsModel, k: nat) -> (Seq<Raindrop>, u64)
    decreases k,
{
    if k == 0 {
        (Seq::empty(), m.rng)
    } else {
        let prev = spawn_upto_spec(m, (k - 1) as nat);
        let one = spawn_one_spec(m, prev.1);
        (prev.0.push(one.0), one.1)
    }
}

/// A raindrop after `dt` milliseconds: fade-in advances toward full at rate
/// 8 per second, the position moves by `velocity * dt`.
pub open spec fn integrated_drop(d: Raindrop, dt: int) -> Raindrop {
    Raindrop {
        x: (d.x + scale_milli_spec(d.vx as int, dt)) as i64,
        y: (d.y + scale_milli_spec(d.vy as int, dt)) as i64,
        fade_in: (if d.fade_in + 8 * dt >= 1000 {
            1000int
        } else {
            d.fade_in + 8 * dt
        }) as i64,
        ..d
    }
}

/// Multiplicative hash of a horizontal position, as a bucket in `0..=255`.
/// The position is truncated to whole pixels and saturated to the `u32`
/// range first, so sub-pixel positions share a bucket.
pub open spec fn splash_hash(x: int) -> int {
    let px = if x < 0 {
        0int
    } else {
        x / 1000
    };
    let sat = if px > 0xFFFF_FFFF {
        0xFFFF_FFFFint
    } else {
        px
    };
    (sat * 2654435761) % 256
}

/// Whether a drop landing at horizontal position `x` splashes: the hash
/// bucket, normalized from `0..=255` to a fraction in `[0, 1)` by dividing
/// by 256, must fall below the splash intensity. A pure function of `x` and
/// the splash intensity alone, nothing else.
pub open spec fn splash_decision_spec(x: int, splash_intensity: int) -> bool {
    splash_hash(x) * 1000 < splash_intensity * 256
}

/// The splash a landing drop leaves: a ring on the bottom edge whose cap is
/// three drop widths plus two pixels.
pub open spec fn new_splash_spec(x: i64, width: i64, screen_h: int) -> Splash {
    Splash {
        x: x,
        y: (screen_h - 2000) as i64,
        radius: 0,
        max_radius: (3 * width + 2000) as i64,
        alpha: 800,
        life: 1000,
    }
}

/// Fold over the first `k` drops of `s`: integrate each, drop the ones that
/// left the screen, and collect the splashes of bottom-crossing drops, at
/// most 200 per step. Yields the surviving drops and the new splashes, both
/// in order.
pub open spec fn sim_upto_spec(m: PsModel, s: Seq<Raindrop>, dt: int, k: nat) -> (
    Seq<Raindrop>,
    Seq<Splash>,
)
    decreases k,
{
    if k == 0 {
        (Seq::empty(), Seq::empty())
    } else {
        let prev = sim_upto_spec(m, s, dt, (k - 1) as nat);
        let d = integrated_drop(s[k - 1], dt);
        if d.y > m.screen_h + 10_000 {
            if m.splash_enabled && prev.1.len() < 200 && splash_decision_spec(
                d.x as int,
                m.splash_intensity,
            ) {
                (prev.0, prev.1.push(new_splash_spec(d.x, d.width, m.screen_h)))
            } else {
                prev
            }
        } else if d.x < -50_000 || d.x > m.screen_w + 50_000 {
            prev
        } else {
            (prev.0.push(d), prev.1)
        }
    }
}

/// A still-living splash after `dt` milliseconds: life has fallen at rate 3
/// per second, the radius has moved toward its cap at rate 8 per second
/// (never past it), and the alpha is 0.6 of the remaining life.
pub open spec fn aged_splash(sp: Splash, dt: int) -> Splash {
    let life2 = sp.life - 3 * dt;
    let grown = sp.radius + scale_milli_spec(sp.max_radius - sp.radius, 8 * dt);
    let radius2 = if grown > sp.max_radius {
        sp.max_radius as int
    } else {
        grown
    };
    Splash {
        life: life2 as i64,
        radius: radius2 as i64,
        alpha: (life2 * 600 / 1000) as i64,
        ..sp
    }
}

/// Fold over the first `k` splashes of `s`: age each and keep the ones still
/// alive, in order.
pub open spec fn age_upto_spec(s: Seq<Splash>, dt: int, k: nat) -> Seq<Splash>
    decreases k,
{
    if k == 0 {
        Seq::empty()
    } else {
        let prefix = age_upto_spec(s, dt, (k - 1) as nat);
        let sp = s[k - 1];
        if sp.life - 3 * dt > 0 {
            prefix.push(aged_splash(sp, dt))
        } else {
            prefix
        }
    }
}

/// Fold over the first `k` drops of `s` while the effect is disabled: every
/// alpha falls at rate 3 per second and drops that reach zero vanish.
pub open spec fn decay_drops_upto(s: Seq<Raindrop>, dt: int, k: nat) -> Seq<Raindrop>
    decreases k,
{
    if k == 0 {
        Seq::empty()
    } else {
        let prefix = decay_drops_upto(s, dt, (k - 1) as nat);
        let d = s[k - 1];
        if d.alpha - 3 * dt > 0 {
            prefix.push(Raindrop { alpha: (d.alpha - 3 * dt) as i64, ..d })
        } else {
            prefix
        }
    }
}

/// Fold over the first `k` splashes of `s` while the effect is disabled:
/// every life falls at rate 3 per second and splashes that reach zero vanish.
pub open spec fn decay_splashes_upto(s: Seq<Splash>, dt: int, k: nat) -> Seq<Splash>
    decreases k,
{
    if k == 0 {
        Seq::empty()
    } else {
        let prefix = decay_splashes_upto(s, dt, (k - 1) as nat);
        let sp = s[k - 1];
        if sp.life - 3 * dt > 0 {
            prefix.push(Splash { life: (sp.life - 3 * dt) as i64, ..sp })
        } else {
            prefix
        }
    }
}

/// One whole simulation step of `dt` milliseconds. Disabled, the particles
/// only fade and nothing spawns; enabled, the accumulator gathers
/// `spawn_rate * dt`, one drop spawns per whole unit gathered, every drop
/// integrates and is culled at the edges, landing drops may splash, and
/// splashes age.
pub open spec fn step_spec(m: PsModel, dt: int) -> PsModel {
    if !m.enabled {
        PsModel {
            drops: decay_drops_upto(m.drops, dt, m.drops.len()),
            splashes: decay_splashes_upto(m.splashes, dt, m.splashes.len()),
            ..m
        }
    } else {
        let acc1 = m.spawn_acc + m.spawn_rate * dt;
        let spawned = spawn_upto_spec(m, (acc1 / 1_000_000) as nat);
        let all = m.drops + spawned.0;
        let simmed = sim_upto_spec(m, all, dt, all.len());
        let spl_all = m.splashes + simmed.1;
        PsModel {
            drops: simmed.0,
            splashes: age_upto_spec(spl_all, dt, spl_all.len()),
            rng: spawned.1,
            spawn_acc: acc1 % 1_000_000,
            ..m
        }
    }
}

/// Division by 1000 maps `[1000 * lo, 1000 * hi]` into `[lo, hi]`.
pub proof fn lemma_div1000_between(lo: int, p: int, hi: int)
    requires
        1000 * lo <= p,
        p <= 1000 * hi,
    ensures
        lo <= p / 1000 <= hi,
{
    vstd::arithmetic::div_mod::lemma_div_is_ordered(1000 * lo, p, 1000);
    vstd::arithmetic::div_mod::lemma_div_is_ordered(p, 1000 * hi, 1000);
    vstd::arithmetic::div_mod::lemma_div_multiples_vanish(lo, 1000);
    vstd::arithmetic::div_mod::lemma_div_multiples_vanish(hi, 1000);
}

/// Truncating scaling of `a` by `b / 1000` for `b >= 0`, through unsigned
/// division of the magnitude.
pub fn scale_milli(a: i64, b: i64) -> (r: i64)
    requires
        0 <= b,
        -0x7FFF_FFFF_FFFF_FFFF <= a,
        a * b <= 0x7FFF_FFFF_FFFF_FFFF,
        -(a * b) <= 0x7FFF_FFFF_FFFF_FFFF,
    ensures
        r == scale_milli_spec(a as int, b as int),
        0 <= a ==> 0 <= r && 1000 * r <= a * b < 1000 * (r + 1),
        a < 0 ==> r <= 0 && 1000 * (-r) <= (-a) * b < 1000 * ((-r) + 1),
{
    if a >= 0 {
        proof {
            assert(a * b >= 0) by (nonlinear_arith)
                requires a >= 0, b >= 0;
        }
        let p: i64 = a * b;
        let q: u64 = (p as u64) / 1000;
        proof {
            vstd::arithmetic::div_mod::lemma_fundamental_div_mod(p as int, 1000);
            vstd::arithmetic::div_mod::lemma_mod_bound(p as int, 1000);
        }
        q as i64
    } else {
        proof {
            assert(-a * b >= 0) by (nonlinear_arith)
                requires a < 0, b >= 0;
            assert(-a * b == -(a * b)) by (nonlinear_arith);
        }
        let p: i64 = (-a) * b;
        let q: u64 = (p as u64) / 1000;
        proof {
            vstd::arithmetic::div_mod::lemma_fundamental_div_mod(p as int, 1000);
            vstd::arithmetic::div_mod::lemma_mod_bound(p as int, 1000);
        }
        -(q as i64)
    }
}

/// The live particle simulation: raindrops, splashes, an owned seeded
/// generator, the screen extent and the cached configuration-derived values.
pub struct ParticleSystem {
    pub drops: Vec<Raindrop>,
    pub splashes: Vec<Splash>,
    pub rng: Rng,
    pub screen_w: i64,
    pub screen_h: i64,
    pub spawn_rate: i64,
    pub pixel_speed: i64,
    pub sin_a: i64,
    pub cos_a: i64,
    pub drop_length: i64,
    pub drop_width: i64,
    pub color_r: i64,
    pub color_g: i64,
    pub color_b: i64,
    pub color_a: i64,
    pub opacity: i64,
    pub splash_enabled: bool,
    pub splash_intensity: i64,
    pub enabled: bool,
    pub spawn_acc: i64,
}

impl View for ParticleSystem {
    type V = PsModel;

    open spec fn view(&self) -> PsModel {
        PsModel {
            drops: self.drops@,
            splashes: self.splashes@,
            rng: self.rng.state,
            screen_w: self.screen_w as int,
            screen_h: self.screen_h as int,
            spawn_rate: self.spawn_rate as int,
            pixel_speed: self.pixel_speed as int,
            sin_a: self.sin_a as int,
            cos_a: self.cos_a as int,
            drop_length: self.drop_length as int,
            drop_width: self.drop_width as int,
            color_r: self.color_r as int,
            color_g: self.color_g as int,
            color_b: self.color_b as int,
            color_a: self.color_a as int,
            opacity: self.opacity as int,
            splash_enabled: self.splash_enabled,
            splash_intensity: self.splash_intensity as int,
            enabled: self.enabled,
            spawn_acc: self.spawn_acc as int,
        }
    }
}

impl ParticleSystem {
    /// An empty system sized to the screen, with caches derived from the
    /// given configuration and the fixed session seed.
    pub fn new(screen_w: u32, screen_h: u32, config: &RainConfig) -> (s: ParticleSystem)
        requires
            config.valid(),
        ensures
            wf_model(s@),
            s@ == ingest_spec(
                PsModel {
                    drops: Seq::empty(),
                    splashes: Seq::empty(),
                    rng: SESSION_SEED,
                    screen_w: screen_w * 1000,
                    screen_h: screen_h * 1000,
                    spawn_rate: 0,
                    pixel_speed: 0,
                    sin_a: 0,
                    cos_a: 0,
                    drop_length: 0,
                    drop_width: 0,
                    color_r: 0,
                    color_g: 0,
                    color_b: 0,
                    color_a: 0,
                    opacity: 0,
                    splash_enabled: false,
                    splash_intensity: 0,
                    enabled: false,
                    spawn_acc: 0,
                },
                *config,
            ),
    {
        let mut sys = ParticleSystem {
            drops: Vec::new(),
            splashes: Vec::new(),
            rng: Rng::new(SESSION_SEED),
            screen_w: (screen_w as i64) * 1000,
            screen_h: (screen_h as i64) * 1000,
            spawn_rate: 0,
            pixel_speed: 0,
            sin_a: 0,
            cos_a: 0,
            drop_length: 0,
            drop_width: 0,
            color_r: 0,
            color_g: 0,
            color_b: 0,
            color_a: 0,
            opacity: 0,
            splash_enabled: false,
            splash_intensity: 0,
            enabled: false,
            spawn_acc: 0,
        };
        sys.update_config(config);
        sys
    }

    /// Update the cached screen extent; existing particles are untouched and
    /// only future spawns and boundary checks see the new extent.
    pub fn resize(&mut self, screen_w: u32, screen_h: u32)
        ensures
            final(self)@ == (PsModel {
                screen_w: screen_w * 1000,
                screen_h: screen_h * 1000,
                ..old(self)@
            }),
            wf_model(old(self)@) ==> wf_model(final(self)@),
    {
        self.screen_w = (screen_w as i64) * 1000;
        self.screen_h = (screen_h as i64) * 1000;
    }

    /// Recompute every cached derived value from a configuration snapshot.
    /// The caches are a function of the snapshot alone, so ingesting the
    /// same snapshot again changes nothing.
    pub fn update_config(&mut self, config: &RainConfig)
        requires
            config.valid(),
            wf_particles(old(self)@),
            wf_frame(old(self)@),
        ensures
            final(self)@ == ingest_spec(old(self)@, *config),
            wf_model(final(self)@),
    {
        self.enabled = config.enabled;
        let i: u64 = config.intensity as u64;
        proof {
            assert(i * i <= 1_000_000) by (nonlinear_arith)
                requires i <= 1000;
        }
        self.spawn_rate = (50_000 + i * i * 2950 / 1000) as i64;
        self.pixel_speed = 400 * config.speed;
        self.sin_a = sin_signed(config.angle);
        self.cos_a = cos_signed(config.angle);
        proof {
            if config.angle >= 0 {
                lemma_sin_at_least_half(90_000 - config.angle as int);
            } else {
                lemma_sin_at_least_half(90_000 + config.angle as int);
            }
        }
        self.drop_length = config.drop_length;
        self.drop_width = config.drop_width;
        self.color_r = ((config.color.r as u64) * 1000 / 255) as i64;
        self.color_g = ((config.color.g as u64) * 1000 / 255) as i64;
        self.color_b = ((config.color.b as u64) * 1000 / 255) as i64;
        self.color_a = ((config.color.a as u64) * 1000 / 255) as i64;
        self.opacity = config.opacity;
        self.splash_enabled = config.splash_enabled;
        self.splash_intensity = config.splash_intensity;
        proof {
            assert(self@ =~= ingest_spec(old(self)@, *config));
        }
    }

    /// The render color: the three normalized channels and the drop alpha
    /// basis, the color alpha scaled by the overall opacity.
    pub fn color(&self) -> (c: [i64; 4])
        requires
            wf_caches(self@),
        ensures
            c@.len() == 4,
            c@[0] == self@.color_r,
            c@[1] == self@.color_g,
            c@[2] == self@.color_b,
            c@[3] == self@.opacity * self@.color_a / 1000,
    {
        proof {
            assert(self@.opacity * self@.color_a <= 1_000_000) by (nonlinear_arith)
                requires 0 <= self@.opacity <= 1000, 0 <= self@.color_a <= 1000;
        }
        let a: i64 = scale_milli(self.opacity, self.color_a);
        [self.color_r, self.color_g, self.color_b, a]
    }

    /// Whether a drop landing at horizontal position `x` (milli-pixels)
    /// splashes at the given splash intensity. Pure in its two arguments:
    /// simulation history plays no part.
    pub fn splash_decision(x: i64, splash_intensity: i64) -> (b: bool)
        requires
            0 <= splash_intensity <= 1000,
        ensures
            b == splash_decision_spec(x as int, splash_intensity as int),
    {
        let px: u64 = if x < 0 {
            0
        } else {
            (x as u64) / 1000
        };
        let sat: u64 = if px > 0xFFFF_FFFF {
            0xFFFF_FFFF
        } else {
            px
        };
        let hash: u64 = (sat * 2654435761) % 256;
        hash * 1000 < (splash_intensity as u64) * 256
    }

    /// Advance the simulation by `dt` milliseconds, exactly as [`step_spec`]
    /// says: a pure function of the previous state and `dt`, so two systems
    /// in equal states fed equal deltas stay equal forever.
    #[verifier::loop_isolation(false)]
    pub fn update(&mut self, dt: u32)
        requires
            wf_model(old(self)@),
        ensures
            final(self)@ == step_spec(old(self)@, dt as int),
            wf_model(final(self)@),
    {
        let ghost m0 = self@;
        let dt_i: i64 = dt as i64;
        if !self.enabled {
            let n: usize = self.drops.len();
            let mut kept: Vec<Raindrop> = Vec::new();
            let mut i: usize = 0;
            while i < n
                invariant
                    i <= n,
                    kept@ == decay_drops_upto(m0.drops, dt as int, i as nat),
                    forall|k: int| 0 <= k < kept@.len() ==> wf_drop(#[trigger] kept@[k]),
                decreases n - i,
            {
                let d = self.drops[i];
                let a2: i64 = d.alpha - 3 * dt_i;
                if a2 > 0 {
                    kept.push(Raindrop { alpha: a2, ..d });
                }
                i = i + 1;
            }
            self.drops = kept;
            let ns: usize = self.splashes.len();
            let mut kept_s: Vec<Splash> = Vec::new();
            let mut j: usize = 0;
            while j < ns
                invariant
                    j <= ns,
                    kept_s@ == decay_splashes_upto(m0.splashes, dt as int, j as nat),
                    forall|k: int| 0 <= k < kept_s@.len() ==> wf_splash(#[trigger] kept_s@[k]),
                decreases ns - j,
            {
                let sp = self.splashes[j];
                let l2: i64 = sp.life - 3 * dt_i;
                if l2 > 0 {
                    kept_s.push(Splash { life: l2, ..sp });
                }
                j = j + 1;
            }
            self.splashes = kept_s;
            proof {
                assert(self@ =~= step_spec(m0, dt as int));
            }
        } else {
            proof {
                assert(0 <= m0.spawn_rate * (dt as int) <= 3_000_000 * 4_294_967_295int)
                    by (nonlinear_arith)
                    requires 0 <= m0.spawn_rate <= 3_000_000, 0 <= dt <= 4_294_967_295;
            }
            let rate_dt: i64 = self.spawn_rate * dt_i;
            let acc1: i64 = self.spawn_acc + rate_dt;
            let n_spawn: u64 = (acc1 as u64) / 1_000_000;
            let acc2: i64 = ((acc1 as u64) % 1_000_000) as i64;
            let mut rng: Rng = self.rng;
            let mut newd: Vec<Raindrop> = Vec::new();
            let mut c: u64 = 0;
            while c < n_spawn
                invariant
                    c <= n_spawn,
                    newd@ == spawn_upto_spec(m0, c as nat).0,
                    rng.state == spawn_upto_spec(m0, c as nat).1,
                    forall|k: int| 0 <= k < newd@.len() ==> wf_drop(#[trigger] newd@[k]),
                decreases n_spawn - c,
            {
                let d = self.spawn_drop(&mut rng);
                newd.push(d);
                c = c + 1;
            }
            self.rng = rng;
            self.spawn_acc = acc2;
            self.drops.append(&mut newd);
            let ghost all = m0.drops + spawn_upto_spec(m0, n_spawn as nat).0;
            let total: usize = self.drops.len();
            let mut kept: Vec<Raindrop> = Vec::new();
            let mut new_spl: Vec<Splash> = Vec::new();
            let mut t: usize = 0;
            while t < total
                invariant
                    t <= total,
                    total == all.len(),
                    self.drops@ == all,
                    forall|k: int| 0 <= k < all.len() ==> wf_drop(#[trigger] all[k]),
                    kept@ == sim_upto_spec(m0, all, dt as int, t as nat).0,
                    new_spl@ == sim_upto_spec(m0, all, dt as int, t as nat).1,
                    forall|k: int| 0 <= k < kept@.len() ==> wf_drop(#[trigger] kept@[k]),
                    forall|k: int| 0 <= k < new_spl@.len() ==> wf_splash(#[trigger] new_spl@[k]),
                decreases total - t,
            {
                let d0 = self.drops[t];
                proof {
                    assert(-11_180_000_000_000_000 <= d0.vx * (dt as int) <= 11_180_000_000_000_000
                        && -11_180_000_000_000_000 <= (-d0.vx) * (dt as int)
                            <= 11_180_000_000_000_000
                        && 0 <= d0.vy * (dt as int) <= 11_180_000_000_000_000)
                        by (nonlinear_arith)
                        requires
                            -2_600_000 <= d0.vx <= 2_600_000,
                            0 <= d0.vy <= 2_600_000,
                            0 <= dt <= 4_294_967_295,
                    ;
                }
                let dx: i64 = scale_milli(d0.vx, dt_i);
                let dy: i64 = scale_milli(d0.vy, dt_i);
                let x2: i64 = d0.x + dx;
                let y2: i64 = d0.y + dy;
                let f8: i64 = d0.fade_in + 8 * dt_i;
                let fade2: i64 = if f8 >= 1000 {
                    1000
                } else {
                    f8
                };
                let d = Raindrop { x: x2, y: y2, fade_in: fade2, ..d0 };
                if d.y > self.screen_h + 10_000 {
                    if self.splash_enabled && new_spl.len() < 200 {
                        if ParticleSystem::splash_decision(d.x, self.splash_intensity) {
                            new_spl.push(
                                Splash {
                                    x: d.x,
                                    y: self.screen_h - 2000,
                                    radius: 0,
                                    max_radius: 3 * d.width + 2000,
                                    alpha: 800,
                                    life: 1000,
                                },
                            );
                        }
                    }
                } else if d.x < -50_000 || d.x > self.screen_w + 50_000 {
                } else {
                    kept.push(d);
                }
                t = t + 1;
            }
            self.drops = kept;
            self.splashes.append(&mut new_spl);
            let ghost spl_all = m0.splashes + sim_upto_spec(m0, all, dt as int, all.len()).1;
            let ns2: usize = self.splashes.len();
            let mut aged: Vec<Splash> = Vec::new();
            let mut u: usize = 0;
            while u < ns2
                invariant
                    u <= ns2,
                    ns2 == spl_all.len(),
                    self.splashes@ == spl_all,
                    forall|k: int| 0 <= k < spl_all.len() ==> wf_splash(#[trigger] spl_all[k]),
                    aged@ == age_upto_spec(spl_all, dt as int, u as nat),
                    forall|k: int| 0 <= k < aged@.len() ==> wf_splash(#[trigger] aged@[k]),
                decreases ns2 - u,
            {
                let sp = self.splashes[u];
                let l2: i64 = sp.life - 3 * dt_i;
                if l2 > 0 {
                    proof {
                        assert(0 <= (sp.max_radius - sp.radius) * (8 * (dt as int))
                            <= 1_410_000_000_000_000) by (nonlinear_arith)
                            requires
                                0 <= sp.max_radius - sp.radius <= 41_000,
                                0 <= dt <= 4_294_967_295,
                        ;
                    }
                    let inc: i64 = scale_milli(sp.max_radius - sp.radius, 8 * dt_i);
                    let grown: i64 = sp.radius + inc;
                    let radius2: i64 = if grown > sp.max_radius {
                        sp.max_radius
                    } else {
                        grown
                    };
                    let alpha2: i64 = scale_milli(l2, 600);
                    aged.push(Splash { life: l2, radius: radius2, alpha: alpha2, ..sp });
                }
                u = u + 1;
            }
            self.splashes = aged;
            proof {
                assert(self@ =~= step_spec(m0, dt as int));
            }
        }
    }

    /// Spawn one raindrop along the extended top edge, drawing five values
    /// from the generator. A drop spawned with no slant falls straight down:
    /// its horizontal velocity is zero, and `wf_drop` gives `vy > 0` always.
    fn spawn_drop(&self, rng: &mut Rng) -> (d: Raindrop)
        requires
            wf_caches(self@),
            wf_frame(self@),
        ensures
            d == spawn_one_spec(self@, old(rng).state).0,
            final(rng).state == spawn_one_spec(self@, old(rng).state).1,
            wf_drop(d),
            d.fade_in == 0,
            self@.sin_a == 0 ==> d.vx == 0,
    {
        let ghost m = self@;
        let f_speed: i64 = rng.next_frac() as i64;
        let u_speed: i64 = 700 + scale_milli(f_speed, 600);
        proof {
            assert(m.pixel_speed * (u_speed as int) <= 2_600_000_000) by (nonlinear_arith)
                requires 0 <= m.pixel_speed <= 2_000_000, 0 <= u_speed <= 1300;
            assert(m.pixel_speed * (u_speed as int) >= 140_000_000) by (nonlinear_arith)
                requires 200_000 <= m.pixel_speed, 700 <= u_speed;
        }
        let spd: i64 = scale_milli(self.pixel_speed, u_speed);
        proof {
            assert(-2_600_000_000 <= (-m.sin_a) * (spd as int) <= 2_600_000_000
                && -2_600_000_000 <= m.sin_a * (spd as int) <= 2_600_000_000)
                by (nonlinear_arith)
                requires -1000 <= m.sin_a <= 1000, 0 <= spd <= 2_600_000;
        }
        let vx: i64 = scale_milli(-self.sin_a, spd);
        proof {
            assert(70_000_000 <= m.cos_a * (spd as int) <= 2_600_000_000) by (nonlinear_arith)
                requires 500 <= m.cos_a <= 1000, 140_000 <= spd <= 2_600_000;
        }
        let vy: i64 = scale_milli(self.cos_a, spd);
        let sin_abs: i64 = if self.sin_a >= 0 {
            self.sin_a
        } else {
            -self.sin_a
        };
        proof {
            assert(0 <= sin_abs * m.screen_h <= 4_295_000_000_000_000) by (nonlinear_arith)
                requires 0 <= sin_abs <= 1000, 0 <= m.screen_h <= 4_295_000_000_000;
        }
        let extra_raw: i64 = scale_milli(sin_abs, self.screen_h);
        let half_w: i64 = ((self.screen_w as u64) / 2) as i64;
        let extra: i64 = if extra_raw < half_w {
            extra_raw
        } else {
            half_w
        };
        let x: i64 = rng.range_milli(-extra, self.screen_w + extra);
        let y: i64 = rng.range_milli(-2 * self.drop_length, -self.drop_length);
        let f_len: i64 = rng.next_frac() as i64;
        let uf_len: i64 = 600 + scale_milli(f_len, 800);
        proof {
            assert(3_000_000 <= m.drop_length * (uf_len as int) <= 140_000_000)
                by (nonlinear_arith)
                requires 5000 <= m.drop_length <= 100_000, 600 <= uf_len <= 1400;
        }
        let length: i64 = scale_milli(self.drop_length, uf_len);
        let f_wid: i64 = rng.next_frac() as i64;
        let uf_wid: i64 = 700 + scale_milli(f_wid, 600);
        proof {
            assert(700_000 <= m.drop_width * (uf_wid as int) <= 13_000_000) by (nonlinear_arith)
                requires 1000 <= m.drop_width <= 10_000, 700 <= uf_wid <= 1300;
        }
        let width: i64 = scale_milli(self.drop_width, uf_wid);
        proof {
            assert(0 <= m.opacity * m.color_a <= 1_000_000) by (nonlinear_arith)
                requires 0 <= m.opacity <= 1000, 0 <= m.color_a <= 1000;
        }
        let alpha: i64 = scale_milli(self.opacity, self.color_a);
        proof {
            if m.sin_a == 0 {
                assert(0int * (spd as int) == 0) by (nonlinear_arith);
                vstd::arithmetic::div_mod::lemma_div_of0(1000);
            }
        }
        Raindrop { x, y, vx, vy, length, width, alpha, fade_in: 0 }
    }
}

} // verus!
