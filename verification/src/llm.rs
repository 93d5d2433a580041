//! Hypothesis source.
//!
//! The engine treats hypothesis generation as an external collaborator that
//! hands back a list of candidate strings per task and iteration.  This
//! module provides the deterministic mock source: a seeded generator whose
//! candidate count and texts are functions of the task and iteration alone,
//! so whole pipeline runs are reproducible.

use vstd::prelude::*;
use crate::evaluator::seeded_word_of;
use crate::task::{Heuristics, TaskDefinition};
use crate::text::{dec_digits, fixed2_digits, fixed2_to_string, u64_to_string};

verus! {

/// Deterministic mock hypothesis source.
#[derive(Clone, Debug)]
pub struct RigLlm {
    pub seed: u64,
}

/// `x * 9973`, saturating at the top of `u64`.
pub open spec fn sat_mul_9973(x: u64) -> u64 {
    if x * 9973 > u64::MAX {
        u64::MAX
    } else {
        (x * 9973) as u64
    }
}

/// Generator seed for one task / iteration pair.
pub open spec fn generation_seed(source_seed: u64, task_id: u64, iteration: u64) -> u64 {
    source_seed ^ task_id ^ sat_mul_9973(iteration)
}

/// Number of candidates the mock source yields for this seed: 4 to 7.
pub open spec fn mock_count(gseed: u64) -> nat {
    (4 + seeded_word_of(gseed) % 4) as nat
}

/// Text of one mock candidate.
pub open spec fn mock_line(iteration: nat, idx: nat, h: Heuristics) -> Seq<char> {
    "Iter "@ + dec_digits(iteration) + " hypothesis "@ + dec_digits(idx)
        + ": focus on blobs>="@ + dec_digits(h.min_blob_area as nat) + " and edge "@
        + fixed2_digits(h.edge_threshold as nat)
}

impl RigLlm {
    /// Mock source with a fixed seed.
    pub fn new_mock() -> (r: RigLlm)
        ensures
            r.seed == 42,
    {
        RigLlm { seed: 42 }
    }

    /// Produces the candidate hypothesis texts for one iteration of a task:
    /// a seeded count of deterministic lines mentioning the task's
    /// heuristics.
    pub fn generate_hypotheses(&self, task: &TaskDefinition, iteration: usize) -> (r: Vec<
        String,
    >)
        ensures
            r.len() == mock_count(
                generation_seed(self.seed, task.id as u64, iteration as u64),
            ),
            4 <= r.len() <= 7,
            forall|i: int|
                0 <= i < r.len() ==> r[i]@ == mock_line(
                    iteration as nat,
                    i as nat,
                    task.heuristics,
                ),
    {
        let gseed = self.generation_seed_exec(task.id as u64, iteration as u64);
        let word = crate::evaluator::seeded_word(gseed);
        let count: usize = 4 + ((word % 4) as usize);
        let mut out: Vec<String> = Vec::new();
        let mut i: usize = 0;
        while i < count
            invariant
                0 <= i <= count,
                count == mock_count(generation_seed(self.seed, task.id as u64, iteration as u64)),
                4 <= count <= 7,
                out.len() == i,
                forall|k: int|
                    0 <= k < i ==> out[k]@ == mock_line(
                        iteration as nat,
                        k as nat,
                        task.heuristics,
                    ),
            decreases count - i,
        {
            let line = mock_line_exec(iteration, i, &task.heuristics);
            out.push(line);
            i = i + 1;
        }
        out
    }

    /// Generator seed for one task / iteration pair.
    fn generation_seed_exec(&self, task_id: u64, iteration: u64) -> (r: u64)
        ensures
            r == generation_seed(self.seed, task_id, iteration),
    {
        let m: u64 = if iteration > u64::MAX / 9973 {
            u64::MAX
        } else {
            iteration * 9973
        };
        proof {
            assert(m == sat_mul_9973(iteration)) by {
                if iteration > u64::MAX / 9973 {
                    assert(iteration >= u64::MAX / 9973 + 1);
                    assert(iteration * 9973 >= (u64::MAX / 9973 + 1) * 9973) by (nonlinear_arith)
                        requires iteration >= u64::MAX / 9973 + 1;
                    assert((u64::MAX / 9973 + 1) * 9973 > u64::MAX);
                }
            }
        }
        self.seed ^ task_id ^ m
    }
}

/// Builds the text of one mock candidate.
fn mock_line_exec(iteration: usize, idx: usize, h: &Heuristics) -> (r: String)
    ensures
        r@ == mock_line(iteration as nat, idx as nat, *h),
{
    let mut s = String::from_str("Iter ");
    let part = u64_to_string(iteration as u64);
    s.append(part.as_str());
    s.append(" hypothesis ");
    let part = u64_to_string(idx as u64);
    s.append(part.as_str());
    s.append(": focus on blobs>=");
    let part = u64_to_string(h.min_blob_area as u64);
    s.append(part.as_str());
    s.append(" and edge ");
    let part = fixed2_to_string(h.edge_threshold);
    s.append(part.as_str());
    proof {
        assert(s@ =~= mock_line(iteration as nat, idx as nat, *h));
    }
    s
}

} // verus!
