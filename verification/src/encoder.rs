//! The decisions of the adaptive encoder: at which quality to encode next,
//! and which encoding to return.

use vstd::prelude::*;

verus! {

/// The quality of the first attempt.
pub const START_QUALITY: u8 = 95;

/// By how much the quality drops from one attempt to the next.
pub const QUALITY_STEP: u8 = 10;

/// Attempts are made only at qualities above this one.
pub const QUALITY_FLOOR: u8 = 10;

/// The number of attempts at most: the qualities 95, 85, and so on down to
/// 15.
pub const MAX_ATTEMPTS: usize = 9;

/// The size ceiling of a size-budgeted response: 32 MiB.
pub const SIZE_CEILING: usize = 33554432;

/// What the encoder does next.
#[derive(Clone, Copy, Debug, PartialEq, Eq, Structural)]
pub enum Attempt {
    /// Encode the image at this quality and report the size.
    Encode { quality: u8 },
    /// Return the encoding of attempt `index`, counted from 0. `exceeded`
    /// says that even this encoding is above the budget.
    Return { index: usize, exceeded: bool },
}

/// The quality of attempt `k`, counted from 0.
pub open spec fn quality_at(k: int) -> int {
    START_QUALITY - QUALITY_STEP * k
}

/// Attempt `i` gave the smallest encoding, and no later attempt, at a lower
/// quality, gave one as small.
pub open spec fn last_smallest(sizes: Seq<usize>, i: int) -> bool {
    &&& 0 <= i < sizes.len()
    &&& forall|j: int| 0 <= j < sizes.len() ==> sizes[i] <= sizes[j]
    &&& forall|j: int| i < j < sizes.len() ==> sizes[j] > sizes[i]
}

/// `r` is the decision after attempts that gave encodings of these sizes, in
/// this order. An encoding within the budget is returned at once. Otherwise
/// the next lower quality is tried, as long as it lies above the floor. Once
/// it does not, the smallest encoding is returned as exceeding the budget; of
/// several that are equally small, the one of the lowest quality.
pub open spec fn decides(sizes: Seq<usize>, max_bytes: usize, r: Attempt) -> bool {
    if sizes.len() > 0 && sizes.last() <= max_bytes {
        r matches Attempt::Return { index, exceeded } && !exceeded && index == sizes.len() - 1
    } else if sizes.len() < MAX_ATTEMPTS {
        r == (Attempt::Encode { quality: quality_at(sizes.len() as int) as u8 })
    } else {
        r matches Attempt::Return { index, exceeded } && exceeded && last_smallest(
            sizes,
            index as int,
        )
    }
}

/// The last position of the smallest of the sizes.
pub fn smallest_attempt(sizes: &Vec<usize>) -> (r: usize)
    requires
        sizes@.len() > 0,
    ensures
        last_smallest(sizes@, r as int),
{
    let mut best: usize = 0;
    let mut i: usize = 1;
    while i < sizes.len()
        invariant
            1 <= i <= sizes@.len(),
            0 <= best < i,
            forall|j: int| 0 <= j < i ==> sizes@[best as int] <= sizes@[j],
            forall|j: int| best < j < i ==> sizes@[j] > sizes@[best as int],
        decreases sizes@.len() - i,
    {
        if sizes[i] <= sizes[best] {
            best = i;
        }
        i += 1;
    }
    best
}

/// Decides what the encoder does after the attempts so far, whose encodings
/// had the sizes `sizes`, in the order of the attempts.
pub fn next_attempt(sizes: &Vec<usize>, max_bytes: usize) -> (r: Attempt)
    ensures
        decides(sizes@, max_bytes, r),
{
    let n: usize = sizes.len();
    if n > 0 && sizes[n - 1] <= max_bytes {
        Attempt::Return { index: n - 1, exceeded: false }
    } else if n < MAX_ATTEMPTS {
        let drop: u8 = QUALITY_STEP * (n as u8);
        Attempt::Encode { quality: START_QUALITY - drop }
    } else {
        Attempt::Return { index: smallest_attempt(sizes), exceeded: true }
    }
}

/// The sizes never grow from one attempt to the next.
pub open spec fn non_increasing(sizes: Seq<usize>) -> bool {
    forall|i: int, j: int| 0 <= i <= j < sizes.len() ==> sizes[i] >= sizes[j]
}

/// Every attempt is made at a quality above the floor, the first at the
/// start quality and each further one ten below the one before; one more
/// step down from the last would reach the floor or pass it.
pub proof fn lemma_qualities(k: int)
    requires
        0 <= k < MAX_ATTEMPTS,
    ensures
        quality_at(0) == START_QUALITY,
        QUALITY_FLOOR < quality_at(k) <= START_QUALITY,
        k > 0 ==> quality_at(k) == quality_at(k - 1) - QUALITY_STEP,
        quality_at(MAX_ATTEMPTS as int) <= QUALITY_FLOOR,
{
}

/// While no encoding fits the budget and a quality above the floor is left,
/// the encoder goes on with the next lower quality.
pub proof fn lemma_retries_while_over_budget(sizes: Seq<usize>, max_bytes: usize, r: Attempt)
    requires
        decides(sizes, max_bytes, r),
        sizes.len() < MAX_ATTEMPTS,
        sizes.len() == 0 || sizes.last() > max_bytes,
    ensures
        r == (Attempt::Encode { quality: quality_at(sizes.len() as int) as u8 }),
{
}

/// What is returned is never larger than the budget unless every attempt
/// was: a returned encoding either fits, or is the smallest of all nine.
pub proof fn lemma_return_is_best(sizes: Seq<usize>, max_bytes: usize, index: usize, exceeded: bool)
    requires
        decides(sizes, max_bytes, Attempt::Return { index, exceeded }),
    ensures
        index < sizes.len(),
        !exceeded ==> sizes[index as int] <= max_bytes,
        exceeded ==> sizes.len() >= MAX_ATTEMPTS && forall|j: int|
            0 <= j < sizes.len() ==> sizes[index as int] <= #[trigger] sizes[j],
{
}

/// If the encodings do not grow as the quality drops, and none of the nine
/// fits the budget, the encoding returned is that of the last attempt, the
/// one at the lowest quality.
pub proof fn lemma_monotone_returns_last(sizes: Seq<usize>, max_bytes: usize, r: Attempt)
    requires
        sizes.len() == MAX_ATTEMPTS,
        non_increasing(sizes),
        forall|j: int| 0 <= j < sizes.len() ==> #[trigger] sizes[j] > max_bytes,
        decides(sizes, max_bytes, r),
    ensures
        r == (Attempt::Return { index: (MAX_ATTEMPTS - 1) as usize, exceeded: true }),
{
}

/// At most one decision satisfies `decides`: after given attempts the
/// encoder has one thing to do.
pub proof fn lemma_decides_unique(sizes: Seq<usize>, max_bytes: usize, a: Attempt, b: Attempt)
    requires
        decides(sizes, max_bytes, a),
        decides(sizes, max_bytes, b),
    ensures
        a == b,
{
}

} // verus!
