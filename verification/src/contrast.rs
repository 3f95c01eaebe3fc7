//! Contrast: every sample of an image times a multiplier, limited to the
//! 8-bit range.
//!
//! The multiplier is a fraction of two whole numbers. The product of a sample
//! and the multiplier is rounded to the nearest integer, a tie to the even
//! one, and limited to 255.

use vstd::prelude::*;
use vstd::arithmetic::div_mod::lemma_fundamental_div_mod_converse;
use crate::filters::{apply_tone_table, remapped, TONE_COUNT};
use crate::index::{limit, limited, round_div, rounded};
use crate::raster::Image;

verus! {

/// The largest numerator of a multiplier: 255 times it still fits 64 bits.
pub const MAX_NUMERATOR: u64 = 0x00ff_ffff_ffff_ffff;

/// The fraction is a multiplier that the machine can apply.
pub open spec fn applicable(numerator: u64, denominator: u64) -> bool {
    denominator > 0 && numerator <= MAX_NUMERATOR
}

/// A sample times the multiplier `numerator / denominator`, rounded and
/// limited to the 8-bit range.
pub open spec fn contrast_level(sample: u8, numerator: u64, denominator: u64) -> u8 {
    limited(rounded(sample * numerator, denominator as int))
}

/// For each sample value its contrast level.
pub open spec fn contrast_levels(numerator: u64, denominator: u64) -> Seq<u8> {
    Seq::new(TONE_COUNT as nat, |s: int| contrast_level(s as u8, numerator, denominator))
}

/// The bytes in which each byte of `bytes` is replaced by its contrast
/// level.
pub open spec fn contrasted(bytes: Seq<u8>, numerator: u64, denominator: u64) -> Seq<u8> {
    Seq::new(bytes.len(), |i: int| contrast_level(bytes[i], numerator, denominator))
}

/// Whether the fraction is a multiplier that the machine can apply.
pub fn is_applicable(numerator: u64, denominator: u64) -> (r: bool)
    ensures
        r == applicable(numerator, denominator),
{
    denominator > 0 && numerator <= MAX_NUMERATOR
}

/// The tone table of a multiplier: for each sample value its contrast
/// level.
pub fn contrast_table(numerator: u64, denominator: u64) -> (r: Vec<u8>)
    requires
        applicable(numerator, denominator),
    ensures
        r@ == contrast_levels(numerator, denominator),
{
    let mut r: Vec<u8> = Vec::with_capacity(TONE_COUNT);
    let mut s: usize = 0;
    while s < TONE_COUNT
        invariant
            applicable(numerator, denominator),
            0 <= s <= TONE_COUNT,
            r@.len() == s,
            forall|j: int| 0 <= j < s ==> r@[j] == #[trigger] contrast_levels(numerator, denominator)[j],
        decreases TONE_COUNT - s,
    {
        proof {
            assert(s * numerator <= 255 * MAX_NUMERATOR) by (nonlinear_arith)
                requires
                    0 <= s <= 255,
                    0 <= numerator <= MAX_NUMERATOR,
            ;
        }
        let top: u64 = (s as u64) * numerator;
        r.push(limit(round_div(top, denominator)));
        s += 1;
    }
    proof {
        assert(r@ =~= contrast_levels(numerator, denominator));
    }
    r
}

/// Multiplies every sample of every channel of an image by the multiplier
/// `numerator / denominator` and limits it to the 8-bit range. The
/// dimensions stay as they are.
pub fn adjust_contrast(image: &Image, numerator: u64, denominator: u64) -> (out: Image)
    requires
        applicable(numerator, denominator),
    ensures
        out.rows == image.rows,
        out.cols == image.cols,
        out.data@ == contrasted(image.data@, numerator, denominator),
{
    let table = contrast_table(numerator, denominator);
    let out = apply_tone_table(image, &table);
    proof {
        assert(remapped(image.data@, table@) =~= contrasted(image.data@, numerator, denominator));
    }
    out
}

/// Under a whole multiplier `k` a sample becomes `k` times itself, and 255
/// where that is more. Under the multiplier 2 it becomes the smaller of its
/// double and 255.
pub proof fn lemma_whole_multiplier(sample: u8, k: u64)
    ensures
        contrast_level(sample, k, 1) == if sample * k > 255 {
            255
        } else {
            sample * k
        },
        contrast_level(sample, 2, 1) == if 2 * sample > 255 {
            255
        } else {
            2 * sample
        },
{
    lemma_fundamental_div_mod_converse(sample * k, 1, sample * k, 0);
    lemma_fundamental_div_mod_converse(sample * 2, 1, sample * 2, 0);
}

/// Under the multiplier one, written with any denominator, every sample
/// stays as it is.
pub proof fn lemma_unit_multiplier(sample: u8, d: u64)
    requires
        d > 0,
    ensures
        contrast_level(sample, d, d) == sample,
{
    lemma_fundamental_div_mod_converse(sample * d, d as int, sample as int, 0);
}

} // verus!
