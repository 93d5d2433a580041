//! Deterministic hypothesis scoring.
//!
//! A score combines a hash of the hypothesis text, a bias from the task's
//! heuristics, a bias from the dataset size and a small seeded perturbation,
//! clamped to the fixed-point interval [0, `SCORE_ONE`].  Every component is
//! a pure function of its inputs, so a harness that fixes the seed
//! reproduces the exact scores.

use vstd::prelude::*;
use vstd::string::StringSliceAdditionalSpecFns;
use rand::RngCore;
use rand::SeedableRng;
use crate::task::{Heuristics, SCORE_ONE};

verus! {

/// The first word drawn from rand's generator when seeded with `seed`.
pub uninterp spec fn seeded_word_of(seed: u64) -> u64;

/// Relies on rand 0.8's `StdRng::seed_from_u64` and `RngCore::next_u64`:
/// the generator state is built from the seed alone, so the first word it
/// yields is a reproducible function of the seed.
#[verifier::external_body]
pub(crate) fn seeded_word(seed: u64) -> (r: u64)
    ensures
        r == seeded_word_of(seed),
{
    rand::rngs::StdRng::seed_from_u64(seed).next_u64()
}

/// Perturbation drawn for `seed`: a value in [-NOISE_SPAN, NOISE_SPAN).
pub open spec fn noise_of(seed: u64) -> int {
    seeded_word_of(seed) % 1000 - 500
}

/// Draws the seeded perturbation for one hypothesis.
pub fn noise_from_seed(seed: u64) -> (n: i64)
    ensures
        n == noise_of(seed),
        -500 <= n < 500,
{
    let w = seeded_word(seed);
    (w % 1000) as i64 - 500
}

/// Byte hash of a hypothesis text: the bytewise sum, wrapping at 2^32.
pub open spec fn byte_hash(bytes: Seq<u8>) -> nat
    decreases bytes.len(),
{
    if bytes.len() == 0 {
        0
    } else {
        (byte_hash(bytes.drop_last()) + bytes.last() as nat) % 0x1_0000_0000
    }
}

/// Computes the byte hash of a text.
pub fn hash_text(text: &str) -> (h: u32)
    ensures
        h as nat == byte_hash(text.spec_bytes()),
{
    let bytes: &[u8] = text.as_bytes();
    let ghost all = text.spec_bytes();
    let n = bytes.len();
    let mut h: u32 = 0;
    let mut i: usize = 0;
    while i < n
        invariant
            0 <= i <= n,
            n == all.len(),
            bytes@ == all,
            h as nat == byte_hash(all.subrange(0, i as int)),
        decreases n - i,
    {
        proof {
            let pre = all.subrange(0, i + 1);
            assert(pre.drop_last() =~= all.subrange(0, i as int));
            assert(pre.last() == all[i as int]);
        }
        h = h.wrapping_add(bytes[i] as u32);
        i = i + 1;
    }
    proof {
        assert(all.subrange(0, n as int) =~= all);
    }
    h
}

/// Bias contributed by the heuristics: 0.4 of the edge threshold, 0.2 of
/// the contrast boost, and the minimum blob area divided by 400, all on the
/// fixed-point scale.
pub open spec fn heuristic_bias(h: Heuristics) -> int {
    (4 * (h.edge_threshold as int) + 2 * (h.contrast_boost as int)) / 10 + (h.min_blob_area as int) * 25
}

/// Bias contributed by the dataset size: size / 25 on the fixed-point scale.
pub open spec fn dataset_bias(dataset_len: nat) -> int {
    (dataset_len as int) * 400
}

/// The score of a hypothesis text: 0.4 hash component + 0.4 heuristics bias
/// + 0.2 dataset bias + perturbation, clamped to [0, SCORE_ONE].
pub open spec fn score_of(bytes: Seq<u8>, h: Heuristics, dataset_len: nat, noise: int) -> int {
    let hash_part = (byte_hash(bytes) % 100) * 100;
    let raw = (4 * hash_part + 4 * heuristic_bias(h) + 2 * dataset_bias(dataset_len)) / 10
        + noise;
    if raw < 0 {
        0
    } else if raw > SCORE_ONE {
        SCORE_ONE as int
    } else {
        raw
    }
}

/// Scores one hypothesis text.  The caller supplies the perturbation (drawn
/// from `noise_from_seed`), which keeps the whole computation a function of
/// its arguments.
pub fn evaluate_hypothesis(
    hypothesis: &str,
    heuristics: &Heuristics,
    dataset_len: usize,
    noise: i64,
) -> (score: u32)
    ensures
        score == score_of(hypothesis.spec_bytes(), *heuristics, dataset_len as nat, noise as int),
        score <= SCORE_ONE,
{
    let hash = hash_text(hypothesis);
    let hash_part: u64 = ((hash % 100) as u64) * 100;
    let heur: u128 = ((4 * (heuristics.edge_threshold as u128)
        + 2 * (heuristics.contrast_boost as u128)) / 10)
        + (heuristics.min_blob_area as u128) * 25;
    let ds: u128 = (dataset_len as u128) * 400;
    let base: u128 = (4 * (hash_part as u128) + 4 * heur + 2 * ds) / 10;
    proof {
        assert(base <= 0xffff_ffff_ffff_ffff_ffff_u128);
    }
    let raw: i128 = base as i128 + noise as i128;
    proof {
        assert(heur as int == heuristic_bias(*heuristics));
        assert(base as int == (4 * ((byte_hash(hypothesis.spec_bytes()) % 100) * 100) + 4
            * heuristic_bias(*heuristics) + 2 * dataset_bias(dataset_len as nat)) / 10);
    }
    if raw < 0 {
        0
    } else if raw > SCORE_ONE as i128 {
        SCORE_ONE
    } else {
        raw as u32
    }
}

} // verus!
