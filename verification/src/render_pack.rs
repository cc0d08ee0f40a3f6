//! Packing of live particles into the flat per-instance records the
//! instanced renderer uploads, one stretch of numbers per particle in a
//! fixed order. The numbers are milli-units here; the GPU side divides by
//! 1000 into 32-bit floats, keeping the record layout and order exactly as
//! stated.

use crate::particles::{Raindrop, Splash};
use vstd::prelude::*;

verus! {

/// The per-instance record of one raindrop, in upload order:
/// position, velocity, length, width, alpha, fade-in.
pub open spec fn drop_record(d: Raindrop) -> Seq<i64> {
    seq![d.x, d.y, d.vx, d.vy, d.length, d.width, d.alpha, d.fade_in]
}

/// The per-instance record of one splash, in upload order:
/// position, radius, alpha.
pub open spec fn splash_record(s: Splash) -> Seq<i64> {
    seq![s.x, s.y, s.radius, s.alpha]
}

/// One flat array of raindrop records, eight numbers per live drop, in the
/// collection's order.
pub fn pack_drop_instances(drops: &Vec<Raindrop>) -> (r: Vec<i64>)
    ensures
        r@.len() == 8 * drops@.len(),
        forall|i: int|
            0 <= i < drops@.len() ==> r@.subrange(8 * i, 8 * i + 8) == drop_record(
                #[trigger] drops@[i],
            ),
{
    let mut r: Vec<i64> = Vec::new();
    let n: usize = drops.len();
    let mut j: usize = 0;
    while j < n
        invariant
            j <= n,
            n == drops@.len(),
            r@.len() == 8 * j,
            forall|i: int|
                0 <= i < j ==> r@.subrange(8 * i, 8 * i + 8) == drop_record(#[trigger] drops@[i]),
        decreases n - j,
    {
        let ghost r0 = r@;
        let d = drops[j];
        r.push(d.x);
        r.push(d.y);
        r.push(d.vx);
        r.push(d.vy);
        r.push(d.length);
        r.push(d.width);
        r.push(d.alpha);
        r.push(d.fade_in);
        proof {
            assert forall|i: int|
                0 <= i < j + 1 implies r@.subrange(8 * i, 8 * i + 8) == drop_record(
                #[trigger] drops@[i],
            ) by {
                if i < j {
                    assert(r@.subrange(8 * i, 8 * i + 8) =~= r0.subrange(8 * i, 8 * i + 8));
                } else {
                    assert(r@.subrange(8 * i, 8 * i + 8) =~= drop_record(drops@[i]));
                }
            }
        }
        j = j + 1;
    }
    r
}

/// One flat array of splash records, four numbers per live splash, in the
/// collection's order.
pub fn pack_splash_instances(splashes: &Vec<Splash>) -> (r: Vec<i64>)
    ensures
        r@.len() == 4 * splashes@.len(),
        forall|i: int|
            0 <= i < splashes@.len() ==> r@.subrange(4 * i, 4 * i + 4) == splash_record(
                #[trigger] splashes@[i],
            ),
{
    let mut r: Vec<i64> = Vec::new();
    let n: usize = splashes.len();
    let mut j: usize = 0;
    while j < n
        invariant
            j <= n,
            n == splashes@.len(),
            r@.len() == 4 * j,
            forall|i: int|
                0 <= i < j ==> r@.subrange(4 * i, 4 * i + 4) == splash_record(
                    #[trigger] splashes@[i],
                ),
        decreases n - j,
    {
        let ghost r0 = r@;
        let s = splashes[j];
        r.push(s.x);
        r.push(s.y);
        r.push(s.radius);
        r.push(s.alpha);
        proof {
            assert forall|i: int|
                0 <= i < j + 1 implies r@.subrange(4 * i, 4 * i + 4) == splash_record(
                #[trigger] splashes@[i],
            ) by {
                if i < j {
                    assert(r@.subrange(4 * i, 4 * i + 4) =~= r0.subrange(4 * i, 4 * i + 4));
                } else {
                    assert(r@.subrange(4 * i, 4 * i + 4) =~= splash_record(splashes@[i]));
                }
            }
        }
        j = j + 1;
    }
    r
}

} // verus!
