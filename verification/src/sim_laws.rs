//! Laws of the particle simulation, each proved against the step function
//! that `ParticleSystem::update` is specified by.

use crate::config::RainConfig;
use crate::particles::{
    decay_drops_upto, decay_splashes_upto, ingest_spec, lemma_div1000_between, spawn_one_spec,
    spawn_rate_of, splash_decision_spec, step_spec, wf_caches, wf_frame, wf_model, PsModel,
    Raindrop, Splash,
};
use crate::rng::{frac_of, lemma_frac_of_bounds, rng_next_spec};
use crate::trig::sin_mdeg_spec;
use vstd::prelude::*;

verus! {

/// The state after `n` steps of `dt` milliseconds each.
pub open spec fn steps_spec(m: PsModel, dt: int, n: nat) -> PsModel
    decreases n,
{
    if n == 0 {
        m
    } else {
        steps_spec(step_spec(m, dt), dt, (n - 1) as nat)
    }
}

/// Every drop alpha in `s` is at most `b`.
pub open spec fn drops_alpha_at_most(s: Seq<Raindrop>, b: int) -> bool {
    forall|i: int| 0 <= i < s.len() ==> (#[trigger] s[i]).alpha <= b
}

/// Every splash life in `s` is at most `b`.
pub open spec fn splashes_life_at_most(s: Seq<Splash>, b: int) -> bool {
    forall|i: int| 0 <= i < s.len() ==> (#[trigger] s[i]).life <= b
}

/// The spawn rate formula at its endpoints: 50 drops per second at zero
/// intensity and 3000 at full.
pub proof fn lemma_spawn_rate_endpoints()
    ensures
        spawn_rate_of(0) == 50_000,
        spawn_rate_of(1000) == 3_000_000,
{
    lemma_div1000_between(0int, 0int, 0int);
    lemma_div1000_between(2_950_000int, 1000int * 1000 * 2950, 2_950_000int);
}

/// Advancing is deterministic: one step is a pure function of the prior
/// state and the time delta, so two runs from equal states under equal
/// deltas yield equal particle collections, step after step.
pub proof fn lemma_steps_deterministic(m1: PsModel, m2: PsModel, dt: int, n: nat)
    requires
        m1 == m2,
    ensures
        steps_spec(m1, dt, n) == steps_spec(m2, dt, n),
{
}

/// The splash decision for a landing position is a function of that position
/// and the splash intensity alone: two systems with the same splash
/// intensity agree on it whatever their histories hold.
pub proof fn lemma_splash_decision_history_free(m1: PsModel, m2: PsModel, x: int)
    requires
        m1.splash_intensity == m2.splash_intensity,
    ensures
        splash_decision_spec(x, m1.splash_intensity) == splash_decision_spec(
            x,
            m2.splash_intensity,
        ),
{
}

/// Ingesting the same configuration snapshot twice leaves exactly the caches
/// that ingesting it once leaves.
pub proof fn lemma_ingest_idempotent(m: PsModel, c: RainConfig)
    ensures
        ingest_spec(ingest_spec(m, c), c) == ingest_spec(m, c),
{
    assert(ingest_spec(ingest_spec(m, c), c) =~= ingest_spec(m, c));
}

/// A drop spawned with zero slant falls straight down: its horizontal
/// velocity is zero and its vertical velocity is positive, whatever the
/// generator word.
pub proof fn lemma_vertical_spawn(m: PsModel, r0: u64)
    requires
        wf_caches(m),
        wf_frame(m),
        m.sin_a == 0,
    ensures
        spawn_one_spec(m, r0).0.vx == 0,
        spawn_one_spec(m, r0).0.vy > 0,
{
    let r1 = rng_next_spec(r0);
    lemma_frac_of_bounds(r1);
    let u_speed = 700 + frac_of(r1) * 600 / 1000;
    lemma_div1000_between(0, frac_of(r1) * 600, 600);
    assert(140_000_000 <= m.pixel_speed * u_speed <= 2_600_000_000) by (nonlinear_arith)
        requires 200_000 <= m.pixel_speed <= 2_000_000, 700 <= u_speed <= 1300;
    let spd = m.pixel_speed * u_speed / 1000;
    lemma_div1000_between(140_000, m.pixel_speed * u_speed, 2_600_000);
    assert(70_000_000 <= m.cos_a * spd <= 2_600_000_000) by (nonlinear_arith)
        requires 500 <= m.cos_a <= 1000, 140_000 <= spd <= 2_600_000;
    lemma_div1000_between(70_000, m.cos_a * spd, 2_600_000);
    lemma_div1000_between(0, 0 * spd, 0);
    assert(0 * spd == 0) by (nonlinear_arith);
}

/// Ingesting a valid configuration with zero slant caches an exactly
/// vertical direction: sine zero and cosine one.
pub proof fn lemma_zero_angle_caches(m: PsModel, c: RainConfig)
    requires
        c.valid(),
        c.angle == 0,
    ensures
        ingest_spec(m, c).sin_a == 0,
        ingest_spec(m, c).cos_a == 1000,
{
    assert(sin_mdeg_spec(0) == 0) by {
        vstd::arithmetic::div_mod::lemma_div_of0(40_500_000_000);
    }
    assert(sin_mdeg_spec(90_000) == 1000) by {
        assert(90_000int * (180_000 - 90_000) == 8_100_000_000);
        vstd::arithmetic::div_mod::lemma_div_multiples_vanish(1000, 32_400_000_000);
    }
}

/// The speed law of a drop spawned straight down: with sine zero and cosine
/// one cached, the new drop's `vx` is zero and its `vy` is the configured
/// fall speed scaled by a draw from `[0.7, 1.3)` — downward, never zero.
pub proof fn lemma_vertical_spawn_speed(m: PsModel, r0: u64)
    requires
        wf_caches(m),
        wf_frame(m),
        m.sin_a == 0,
        m.cos_a == 1000,
    ensures
        spawn_one_spec(m, r0).0.vx == 0,
        exists|u: int|
            700 <= u < 1300 && spawn_one_spec(m, r0).0.vy == #[trigger] (m.pixel_speed * u)
                / 1000,
{
    lemma_vertical_spawn(m, r0);
    let r1 = rng_next_spec(r0);
    lemma_frac_of_bounds(r1);
    let u_speed = 700 + frac_of(r1) * 600 / 1000;
    lemma_div1000_between(0, frac_of(r1) * 600, 600);
    vstd::arithmetic::div_mod::lemma_multiply_divide_lt(frac_of(r1) * 600, 1000, 600);
    assert(140_000_000 <= m.pixel_speed * u_speed <= 2_600_000_000) by (nonlinear_arith)
        requires 200_000 <= m.pixel_speed <= 2_000_000, 700 <= u_speed <= 1300;
    let spd = m.pixel_speed * u_speed / 1000;
    lemma_div1000_between(140_000, m.pixel_speed * u_speed, 2_600_000);
    assert(m.cos_a * spd == 1000 * spd);
    vstd::arithmetic::div_mod::lemma_div_multiples_vanish(spd, 1000);
    assert(700 <= u_speed < 1300 && spawn_one_spec(m, r0).0.vy == m.pixel_speed * u_speed
        / 1000);
}

/// Fractional spawn rates average out exactly over time: one enabled step
/// spawns a whole drop per whole unit gathered and carries the exact
/// remainder, so nothing is ever lost or gained to rounding.
pub proof fn lemma_spawn_accumulator_conserved(m: PsModel, dt: int)
    requires
        m.enabled,
    ensures
        1_000_000 * ((m.spawn_acc + m.spawn_rate * dt) / 1_000_000) + step_spec(m, dt).spawn_acc
            == m.spawn_acc + m.spawn_rate * dt,
        0 <= step_spec(m, dt).spawn_acc < 1_000_000,
{
    vstd::arithmetic::div_mod::lemma_fundamental_div_mod(
        m.spawn_acc + m.spawn_rate * dt,
        1_000_000,
    );
    vstd::arithmetic::div_mod::lemma_mod_bound(m.spawn_acc + m.spawn_rate * dt, 1_000_000);
}

/// While the effect is disabled, one step only fades what is there: no drop
/// or splash is added, every survivor is the old particle with its alpha or
/// life lowered by `3 * dt`, still positive, and the counts never grow.
pub proof fn lemma_decay_drops_bound(s: Seq<Raindrop>, dt: int, k: nat, b: int)
    requires
        0 <= dt <= 4_294_967_295,
        k <= s.len(),
        drops_alpha_at_most(s, b),
    ensures
        decay_drops_upto(s, dt, k).len() <= k,
        drops_alpha_at_most(decay_drops_upto(s, dt, k), b - 3 * dt),
        forall|i: int|
            0 <= i < decay_drops_upto(s, dt, k).len() ==> (#[trigger] decay_drops_upto(
                s,
                dt,
                k,
            )[i]).alpha > 0,
    decreases k,
{
    if k > 0 {
        lemma_decay_drops_bound(s, dt, (k - 1) as nat, b);
        let prev = decay_drops_upto(s, dt, (k - 1) as nat);
        let cur = decay_drops_upto(s, dt, k);
        let d = s[k - 1];
        assert(d.alpha <= b);
        if d.alpha - 3 * dt > 0 {
            let e = Raindrop { alpha: (d.alpha - 3 * dt) as i64, ..d };
            assert(cur == prev.push(e));
            assert(e.alpha <= b - 3 * dt && e.alpha > 0);
            assert forall|i: int|
                0 <= i < cur.len() implies (#[trigger] cur[i]).alpha <= b - 3 * dt
                && cur[i].alpha > 0 by {
                if i < prev.len() {
                    assert(cur[i] == prev[i]);
                } else {
                    assert(cur[i] == e);
                }
            }
        } else {
            assert(cur == prev);
        }
    }
}

/// The splash counterpart of [`lemma_decay_drops_bound`].
pub proof fn lemma_decay_splashes_bound(s: Seq<Splash>, dt: int, k: nat, b: int)
    requires
        0 <= dt <= 4_294_967_295,
        k <= s.len(),
        splashes_life_at_most(s, b),
    ensures
        decay_splashes_upto(s, dt, k).len() <= k,
        splashes_life_at_most(decay_splashes_upto(s, dt, k), b - 3 * dt),
        forall|i: int|
            0 <= i < decay_splashes_upto(s, dt, k).len() ==> (#[trigger] decay_splashes_upto(
                s,
                dt,
                k,
            )[i]).life > 0,
    decreases k,
{
    if k > 0 {
        lemma_decay_splashes_bound(s, dt, (k - 1) as nat, b);
        let prev = decay_splashes_upto(s, dt, (k - 1) as nat);
        let cur = decay_splashes_upto(s, dt, k);
        let sp = s[k - 1];
        assert(sp.life <= b);
        if sp.life - 3 * dt > 0 {
            let e = Splash { life: (sp.life - 3 * dt) as i64, ..sp };
            assert(cur == prev.push(e));
            assert(e.life <= b - 3 * dt && e.life > 0);
            assert forall|i: int|
                0 <= i < cur.len() implies (#[trigger] cur[i]).life <= b - 3 * dt
                && cur[i].life > 0 by {
                if i < prev.len() {
                    assert(cur[i] == prev[i]);
                } else {
                    assert(cur[i] == e);
                }
            }
        } else {
            assert(cur == prev);
        }
    }
}

/// While the effect is disabled the particle counts never grow from one step
/// to the next.
pub proof fn lemma_disabled_step_counts(m: PsModel, dt: int)
    requires
        !m.enabled,
        0 <= dt <= 4_294_967_295,
    ensures
        step_spec(m, dt).drops.len() <= m.drops.len(),
        step_spec(m, dt).splashes.len() <= m.splashes.len(),
        !step_spec(m, dt).enabled,
{
    lemma_decay_drops_bound(m.drops, dt, m.drops.len(), 0x7FFF_FFFF_FFFF_FFFF);
    lemma_decay_splashes_bound(m.splashes, dt, m.splashes.len(), 0x7FFF_FFFF_FFFF_FFFF);
}

/// While the effect is disabled, every particle's alpha or life falls by at
/// least `3 * dt` per step, so once `3 * dt * n` passes the common bound `b`,
/// `n` steps leave no particle at all: the effect drains in bounded time.
pub proof fn lemma_disabled_drains(m: PsModel, dt: int, n: nat, b: int)
    requires
        !m.enabled,
        1 <= dt <= 4_294_967_295,
        n >= 1,
        drops_alpha_at_most(m.drops, b),
        splashes_life_at_most(m.splashes, b),
        3 * dt * n >= b,
    ensures
        steps_spec(m, dt, n).drops.len() == 0,
        steps_spec(m, dt, n).splashes.len() == 0,
    decreases n,
{
    let m1 = step_spec(m, dt);
    lemma_decay_drops_bound(m.drops, dt, m.drops.len(), b);
    lemma_decay_splashes_bound(m.splashes, dt, m.splashes.len(), b);
    if n == 1 {
        assert(steps_spec(m1, dt, 0) == m1);
        assert(steps_spec(m, dt, n) == m1);
        assert(3 * dt * 1 == 3 * dt);
        if m1.drops.len() > 0 {
            assert(m1.drops[0].alpha <= b - 3 * dt);
            assert(m1.drops[0].alpha > 0);
        }
        if m1.splashes.len() > 0 {
            assert(m1.splashes[0].life <= b - 3 * dt);
            assert(m1.splashes[0].life > 0);
        }
    } else {
        assert((n - 1) as nat == n - 1);
        assert(3 * dt * ((n - 1) as int) == 3 * dt * n - 3 * dt) by (nonlinear_arith);
        lemma_disabled_drains(m1, dt, (n - 1) as nat, b - 3 * dt);
    }
}

/// Disabling the effect empties it in bounded time: from any well-formed
/// state — where every alpha and life is at most 1000 — `n` disabled steps
/// of `dt` milliseconds leave no particle once `3 * dt * n` reaches 1000.
pub proof fn lemma_disabled_fade_out(m: PsModel, dt: int, n: nat)
    requires
        wf_model(m),
        !m.enabled,
        1 <= dt <= 4_294_967_295,
        n >= 1,
        3 * dt * n >= 1000,
    ensures
        steps_spec(m, dt, n).drops.len() == 0,
        steps_spec(m, dt, n).splashes.len() == 0,
{
    assert(drops_alpha_at_most(m.drops, 1000));
    assert(splashes_life_at_most(m.splashes, 1000));
    lemma_disabled_drains(m, dt, n, 1000);
}

} // verus!
