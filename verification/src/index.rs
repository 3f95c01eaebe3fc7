//! The water index of a pair of samples, and the two 8-bit levels that are
//! derived from it.
//!
//! For a green sample `g` and a near-infrared sample `n` the index is the
//! fraction `(g - n) / (g + n)`. The water level is 255 times the index, the
//! land level 100 times the cube of one minus the index; both are rounded to
//! the nearest integer, a tie to the even one, and limited to the 8-bit
//! range. The levels are stated and computed over exact fractions. Evaluated
//! in 32-bit floating point, the same formulas give the same level for every
//! pair of samples for which the index exists.

use vstd::prelude::*;
use vstd::arithmetic::div_mod::lemma_fundamental_div_mod_converse;

verus! {

/// Number of pairs of samples.
pub const LEVEL_COUNT: usize = 65536;

/// The fraction `a / b` rounded to the nearest integer, a tie to the even
/// one.
pub open spec fn rounded(a: int, b: int) -> int
    recommends
        a >= 0,
        b > 0,
{
    let q = a / b;
    let r = a % b;
    if 2 * r > b || (2 * r == b && q % 2 == 1) {
        q + 1
    } else {
        q
    }
}

/// A value limited to the 8-bit range.
pub open spec fn limited(v: int) -> u8 {
    if v > 255 {
        255u8
    } else if v < 0 {
        0u8
    } else {
        v as u8
    }
}

/// The third power.
pub open spec fn cube(x: int) -> int {
    x * x * x
}

/// The water level of a pair of samples: 255 times the index
/// `(green - nir) / (green + nir)`, rounded and limited. Where the index is
/// not positive, and where it does not exist because both samples are zero,
/// the level is 0.
pub open spec fn water_level(green: u8, nir: u8) -> u8 {
    if green <= nir {
        0
    } else {
        limited(rounded(255 * (green - nir), green + nir))
    }
}

/// The land level of a pair of samples: 100 times the cube of one minus the
/// index, rounded and limited. One minus the index is the fraction
/// `2 * nir / (green + nir)`. Where the index does not exist because both
/// samples are zero, the level is 0.
pub open spec fn land_level(green: u8, nir: u8) -> u8 {
    if green + nir == 0 {
        0
    } else {
        limited(rounded(100 * cube(2 * nir), cube(green + nir)))
    }
}

/// The position of a pair of samples in a table of levels.
pub open spec fn pair_index(green: u8, nir: u8) -> int {
    green * 256 + nir
}

/// The water levels of all pairs of samples, that of `(green, nir)` at
/// `pair_index(green, nir)`.
pub open spec fn water_levels() -> Seq<u8> {
    Seq::new(LEVEL_COUNT as nat, |i: int| water_level((i / 256) as u8, (i % 256) as u8))
}

/// The land levels of all pairs of samples, that of `(green, nir)` at
/// `pair_index(green, nir)`.
pub open spec fn land_levels() -> Seq<u8> {
    Seq::new(LEVEL_COUNT as nat, |i: int| land_level((i / 256) as u8, (i % 256) as u8))
}

/// The fraction `a / b` rounded to the nearest integer, a tie to the even
/// one.
pub fn round_div(a: u64, b: u64) -> (r: u64)
    requires
        b > 0,
        a < u64::MAX,
    ensures
        r == rounded(a as int, b as int),
{
    let q: u64 = a / b;
    let rem: u64 = a % b;
    proof {
        vstd::arithmetic::div_mod::lemma_fundamental_div_mod(a as int, b as int);
        assert(q * b >= q) by (nonlinear_arith)
            requires
                b >= 1,
                q >= 0,
        ;
    }
    if rem > b - rem || (rem == b - rem && q % 2 == 1) {
        q + 1
    } else {
        q
    }
}

/// A value limited to the 8-bit range.
pub fn limit(v: u64) -> (r: u8)
    ensures
        r == limited(v as int),
{
    if v > 255 {
        255
    } else {
        v as u8
    }
}

/// The water level of a pair of samples.
pub fn water_level_of(green: u8, nir: u8) -> (r: u8)
    ensures
        r == water_level(green, nir),
{
    if green <= nir {
        0
    } else {
        let top: u64 = 255 * ((green - nir) as u64);
        let bottom: u64 = (green as u64) + (nir as u64);
        limit(round_div(top, bottom))
    }
}

/// The land level of a pair of samples.
pub fn land_level_of(green: u8, nir: u8) -> (r: u8)
    ensures
        r == land_level(green, nir),
{
    if green == 0 && nir == 0 {
        0
    } else {
        let twice: u64 = 2 * (nir as u64);
        let sum: u64 = (green as u64) + (nir as u64);
        proof {
            assert(twice * twice <= 510 * 510) by (nonlinear_arith)
                requires
                    0 <= twice <= 510,
            ;
            assert(twice * twice * twice <= 510 * 510 * 510) by (nonlinear_arith)
                requires
                    0 <= twice <= 510,
                    0 <= twice * twice <= 510 * 510,
            ;
            assert(sum * sum <= 510 * 510) by (nonlinear_arith)
                requires
                    0 <= sum <= 510,
            ;
            assert(sum * sum * sum <= 510 * 510 * 510) by (nonlinear_arith)
                requires
                    0 <= sum <= 510,
                    0 <= sum * sum <= 510 * 510,
            ;
            assert(sum * sum * sum > 0) by (nonlinear_arith)
                requires
                    sum > 0,
            ;
        }
        let top: u64 = 100 * (twice * twice * twice);
        let bottom: u64 = sum * sum * sum;
        limit(round_div(top, bottom))
    }
}

/// The water levels of all pairs of samples.
pub fn water_table() -> (r: Vec<u8>)
    ensures
        r@ == water_levels(),
{
    let mut r: Vec<u8> = Vec::with_capacity(LEVEL_COUNT);
    let mut i: usize = 0;
    while i < LEVEL_COUNT
        invariant
            0 <= i <= LEVEL_COUNT,
            r@.len() == i,
            forall|j: int| 0 <= j < i ==> r@[j] == #[trigger] water_levels()[j],
        decreases LEVEL_COUNT - i,
    {
        r.push(water_level_of((i / 256) as u8, (i % 256) as u8));
        i += 1;
    }
    r
}

/// The land levels of all pairs of samples.
pub fn land_table() -> (r: Vec<u8>)
    ensures
        r@ == land_levels(),
{
    let mut r: Vec<u8> = Vec::with_capacity(LEVEL_COUNT);
    let mut i: usize = 0;
    while i < LEVEL_COUNT
        invariant
            0 <= i <= LEVEL_COUNT,
            r@.len() == i,
            forall|j: int| 0 <= j < i ==> r@[j] == #[trigger] land_levels()[j],
        decreases LEVEL_COUNT - i,
    {
        r.push(land_level_of((i / 256) as u8, (i % 256) as u8));
        i += 1;
    }
    r
}

/// Each table holds the level of a pair of samples at the pair's position.
pub proof fn lemma_tables(green: u8, nir: u8)
    ensures
        0 <= pair_index(green, nir) < LEVEL_COUNT,
        water_levels()[pair_index(green, nir)] == water_level(green, nir),
        land_levels()[pair_index(green, nir)] == land_level(green, nir),
{
}

/// Where the green and the near-infrared sample are equal and not zero, the
/// index is zero: the water level is the zero point 0, and the land level is
/// 100, which is 100 times the cube of one.
pub proof fn lemma_equal_samples(v: u8)
    requires
        v > 0,
    ensures
        water_level(v, v) == 0,
        land_level(v, v) == 100,
{
    let c = cube(2 * v);
    assert(c > 0) by (nonlinear_arith)
        requires
            c == (2 * v) * (2 * v) * (2 * v),
            v > 0,
    ;
    lemma_fundamental_div_mod_converse(100 * c, c, 100, 0);
}

/// Where there is no near infrared at all, the index is one: the water level
/// is 255 and the land level 0.
pub proof fn lemma_pure_water(green: u8)
    requires
        green > 0,
    ensures
        water_level(green, 0) == 255,
        land_level(green, 0) == 0,
{
    lemma_fundamental_div_mod_converse(255 * green, green as int, 255, 0);
    let c = cube(green as int);
    assert(c > 0) by (nonlinear_arith)
        requires
            c == green * green * green,
            green > 0,
    ;
    lemma_fundamental_div_mod_converse(0, c, 0, 0);
}

} // verus!
