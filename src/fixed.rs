//! Fixed-point arithmetic behind the coordinate conversions.
use vstd::prelude::*;
use vstd::arithmetic::div_mod::{lemma_div_is_ordered, lemma_fundamental_div_mod_converse};
use crate::transform::{FIXED_ONE, fits_i64, ndc_coord, fixed_mul};

verus! {

/// Floor division of `a` by a positive `b`.
pub(crate) fn floor_div(a: i128, b: i128) -> (q: i128)
    requires
        b > 0,
        a > i128::MIN,
    ensures
        q == a / b,
{
    if a >= 0 {
        let q: i128 = ((a as u128) / (b as u128)) as i128;
        q
    } else {
        let n: u128 = (-a) as u128;
        let t: u128 = (n + (b as u128 - 1)) / (b as u128);
        proof {
            let ni = n as int;
            let bi = b as int;
            let ti = t as int;
            assert((ni + bi - 1) / bi == ti);
            vstd::arithmetic::div_mod::lemma_fundamental_div_mod(ni + bi - 1, bi);
            let m = (ni + bi - 1) % bi;
            assert(0 <= a + bi * ti < bi && ti <= ni && a as int == (-ti) * bi + (a + bi * ti)) by (nonlinear_arith)
                requires ni + bi - 1 == bi * ti + m, 0 <= m < bi, bi >= 1, ni >= 1, a == -ni;
            lemma_fundamental_div_mod_converse(a as int, bi, -ti, a + bi * ti);
        }
        -(t as i128)
    }
}

/// Dividing a negative number by a positive one does not move it further
/// from zero.
proof fn lemma_floor_div_not_below(x: int, d: int)
    requires
        x < 0,
        d >= 1,
    ensures
        x <= x / d,
{
    vstd::arithmetic::div_mod::lemma_fundamental_div_mod(x, d);
    let q = x / d;
    let r = x % d;
    assert(x <= q) by (nonlinear_arith)
        requires x == d * q + r, 0 <= r < d, d >= 1, x < 0;
}

/// Device coordinate of pixel `p` on an axis of `extent` pixels.
pub(crate) fn ndc_axis(p: i32, extent: u32) -> (r: i128)
    requires
        extent > 0,
    ensures
        r == ndc_coord(p as int, extent as int),
        -0x200_0000_0000_0000_0000 < r < 0x200_0000_0000_0000_0000,
{
    let two_one: i128 = 2 * (FIXED_ONE as i128);
    assert(-0x100_0000_0000_0000_0000 <= p * two_one <= 0x100_0000_0000_0000_0000) by (nonlinear_arith)
        requires two_one == 0x200_0000_0000, -0x8000_0000 <= p < 0x8000_0000;
    let num: i128 = (p as i128) * two_one;
    assert(num == 2 * (p as int) * FIXED_ONE) by (nonlinear_arith)
        requires num == p * two_one, two_one == 2 * FIXED_ONE;
    let q = floor_div(num, extent as i128);
    proof {
        if num >= 0 {
            vstd::arithmetic::div_mod::lemma_div_pos_is_pos(num as int, extent as int);
            vstd::arithmetic::div_mod::lemma_div_is_ordered_by_denominator(num as int, 1, extent as int);
        } else {
            lemma_div_is_ordered(num as int, 0, extent as int);
            lemma_floor_div_not_below(num as int, extent as int);
        }
    }
    q - FIXED_ONE as i128
}

/// `fixed_mul(ndc, zoom) - sub`, or none where it does not fit an `i64`.
pub(crate) fn mul_sub_axis(ndc: i128, zoom: i64, sub: i64) -> (r: Option<i64>)
    requires
        -0x200_0000_0000_0000_0000 < ndc < 0x200_0000_0000_0000_0000,
    ensures
        r == (if fits_i64(fixed_mul(ndc as int, zoom as int) - sub) {
            Some((fixed_mul(ndc as int, zoom as int) - sub) as i64)
        } else {
            None::<i64>
        }),
{
    let one: i128 = FIXED_ONE as i128;
    let checked = ndc.checked_mul(zoom as i128);
    if checked.is_none() || checked == Some(i128::MIN) {
        proof {
            let prod = ndc * zoom;
            if prod > 0 {
                lemma_div_is_ordered(0x8000_0000_0000_0000_0000_0000_0000_0000, prod, one as int);
            } else {
                lemma_div_is_ordered(prod, -0x8000_0000_0000_0000_0000_0000_0000_0000, one as int);
            }
        }
        None
    } else {
        let prod = checked.unwrap();
        let scaled = floor_div(prod, one);
        proof {
            lemma_div_is_ordered(i128::MIN as int + 1, prod as int, one as int);
            lemma_div_is_ordered(prod as int, i128::MAX as int, one as int);
        }
        let v: i128 = scaled - sub as i128;
        if i64::MIN as i128 <= v && v <= i64::MAX as i128 {
            Some(v as i64)
        } else {
            None
        }
    }
}

} // verus!
