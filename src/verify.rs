//! The budget-bounded verifier of subset-sum solutions.

use vstd::prelude::*;
use crate::types::{HardwareTier, Problem, Solution, VerifyBudget, VerifyResult};

verus! {

/// Why a verification call gave no verdict.
#[derive(Clone, Copy, Debug, PartialEq, Eq, Structural)]
pub enum VerifyError {
    /// The problem is malformed: no elements, or an element count outside
    /// its tier's range.
    InvalidInput,
    /// The solution holds more indices than the budget allows operations.
    BudgetExceeded,
}

/// The sum of the elements at the first `k` indices.
pub open spec fn partial_sum(elements: Seq<i64>, indices: Seq<u32>, k: int) -> int
    decreases k,
{
    if k <= 0 {
        0
    } else {
        partial_sum(elements, indices, k - 1) + elements[indices[k - 1] as int]
    }
}

/// Every one of the first `k` indices points into `elements`.
pub open spec fn in_range(elements: Seq<i64>, indices: Seq<u32>, k: int) -> bool {
    forall|j: int| 0 <= j < k ==> (#[trigger] indices[j]) < elements.len()
}

/// No index occurs twice among the first `k`.
pub open spec fn distinct(indices: Seq<u32>, k: int) -> bool {
    forall|a: int, b: int| 0 <= a < b < k ==> #[trigger] indices[a] != #[trigger] indices[b]
}

/// Every running sum over the first `k` indices fits in an `i64`.
pub open spec fn sums_fit(elements: Seq<i64>, indices: Seq<u32>, k: int) -> bool {
    forall|m: int|
        0 <= m <= k ==> i64::MIN <= #[trigger] partial_sum(elements, indices, m) <= i64::MAX
}

/// The first `k` indices are in range, distinct, and sum without overflow.
pub open spec fn sound_prefix(elements: Seq<i64>, indices: Seq<u32>, k: int) -> bool {
    &&& in_range(elements, indices, k)
    &&& distinct(indices, k)
    &&& sums_fit(elements, indices, k)
}

proof fn lemma_sound_step(elements: Seq<i64>, indices: Seq<u32>, k: int)
    requires
        0 <= k < indices.len(),
    ensures
        sound_prefix(elements, indices, k + 1) == {
            &&& sound_prefix(elements, indices, k)
            &&& indices[k] < elements.len()
            &&& forall|j: int| 0 <= j < k ==> indices[j] != indices[k]
            &&& i64::MIN <= partial_sum(elements, indices, k + 1) <= i64::MAX
        },
{
    if sound_prefix(elements, indices, k + 1) {
        assert(indices[k] < elements.len());
        assert forall|j: int| 0 <= j < k implies indices[j] != indices[k] by {
            assert(indices[j] != indices[k]);
        }
        assert(i64::MIN <= partial_sum(elements, indices, k + 1) <= i64::MAX);
    }
    if sound_prefix(elements, indices, k) && indices[k] < elements.len() && (forall|j: int|
        0 <= j < k ==> indices[j] != indices[k]) && i64::MIN <= partial_sum(elements, indices, k + 1)
        <= i64::MAX {
        assert forall|a: int, b: int| 0 <= a < b < k + 1 implies #[trigger] indices[a]
            != #[trigger] indices[b] by {
            if b == k {
                assert(indices[a] != indices[k]);
            }
        }
        assert forall|m: int| 0 <= m <= k + 1 implies i64::MIN <= #[trigger] partial_sum(
            elements,
            indices,
            m,
        ) <= i64::MAX by {
            if m == k + 1 {
            }
        }
    }
}

/// The indices name distinct in-range elements whose sum, taken without
/// overflow, is `target`.
pub open spec fn solves(elements: Seq<i64>, target: i64, indices: Seq<u32>) -> bool {
    &&& sound_prefix(elements, indices, indices.len() as int)
    &&& partial_sum(elements, indices, indices.len() as int) == target
}

/// The element count is allowed on `tier`.
pub open spec fn size_allowed(tier: HardwareTier, n: nat) -> bool {
    n > 0 && tier.range_spec().0 <= n <= tier.range_spec().1
}

/// The outcome of verifying `indices` against `elements` and `target` on
/// `tier` within `max_ops` operations.
pub open spec fn verify_spec(
    tier: HardwareTier,
    elements: Seq<i64>,
    target: i64,
    indices: Seq<u32>,
    max_ops: u64,
) -> Result<VerifyResult, VerifyError> {
    if !size_allowed(tier, elements.len()) {
        Err(VerifyError::InvalidInput)
    } else if indices.len() > max_ops {
        Err(VerifyError::BudgetExceeded)
    } else {
        Ok(
            VerifyResult {
                valid: solves(elements, target, indices),
                ops_used: indices.len() as u64,
            },
        )
    }
}

/// Verifies `solution` against `problem` within `budget`. One operation is
/// counted per index; the walk stops with `BudgetExceeded` as soon as the
/// count passes `budget.max_ops`. Bad, repeated or overflowing indices make
/// the verdict invalid without ending the walk.
pub fn verify_solution(problem: &Problem, solution: &Solution, budget: &VerifyBudget) -> (r:
    Result<VerifyResult, VerifyError>)
    ensures
        r == verify_spec(
            problem.tier,
            problem.elements@,
            problem.target,
            solution.indices@,
            budget.max_ops,
        ),
        r matches Ok(v) ==> v.ops_used <= budget.max_ops,
{
    let elements = &problem.elements;
    let indices = &solution.indices;
    let ghost es = elements@;
    let ghost is = indices@;
    let n = elements.len();
    let (min_len, max_len) = problem.tier.element_range();
    if n == 0 || n < min_len || n > max_len {
        return Err(VerifyError::InvalidInput);
    }
    let mut seen: Vec<bool> = Vec::new();
    let mut s: usize = 0;
    while s < n
        invariant
            s <= n,
            seen@.len() == s,
            forall|x: int| 0 <= x < s ==> !(#[trigger] seen@[x]),
        decreases n - s,
    {
        seen.push(false);
        s += 1;
    }
    let mut ops: u64 = 0;
    let mut ok = true;
    let mut sum: i64 = 0;
    let mut i: usize = 0;
    while i < indices.len()
        invariant
            es == elements@,
            is == indices@,
            es == problem.elements@,
            is == solution.indices@,
            n == es.len(),
            size_allowed(problem.tier, n as nat),
            i <= is.len(),
            ops == i,
            ops <= budget.max_ops,
            seen@.len() == n,
            forall|x: int|
                0 <= x < n ==> (#[trigger] seen@[x] <==> exists|j: int|
                    0 <= j < i && is[j] as int == x),
            ok == sound_prefix(es, is, i as int),
            ok ==> sum == partial_sum(es, is, i as int),
        decreases is.len() - i,
    {
        proof {
            lemma_sound_step(es, is, i as int);
        }
        if ops == budget.max_ops {
            assert(is.len() > budget.max_ops);
            assert(size_allowed(problem.tier, es.len()));
            return Err(VerifyError::BudgetExceeded);
        }
        ops = ops + 1;
        let idx = indices[i] as usize;
        let ghost k = i as int;
        if idx >= n {
            ok = false;
        } else if seen[idx] {
            let ghost j = choose|j: int| 0 <= j < k && is[j] as int == idx as int;
            assert(is[j] == is[k]);
            ok = false;
        } else if !ok {
            seen.set(idx, true);
        } else {
            seen.set(idx, true);
            assert forall|j: int| 0 <= j < k implies is[j] != is[k] by {
                if is[j] == is[k] {
                    assert(seen@[idx as int]);
                }
            }
            match sum.checked_add(elements[idx]) {
                Some(t) => {
                    sum = t;
                },
                None => {
                    ok = false;
                },
            }
        }
        i += 1;
        assert forall|x: int| 0 <= x < n implies (#[trigger] seen@[x] <==> exists|j: int|
            0 <= j < i && is[j] as int == x) by {
            if x == is[k] as int {
                assert(is[k] as int == x);
            }
        }
        if ok {
            assert(in_range(es, is, i as int));
        }
    }
    Ok(VerifyResult { valid: ok && sum == problem.target, ops_used: ops })
}

/// A solution that repeats an index is never valid, whatever the problem.
pub proof fn lemma_duplicate_never_valid(
    elements: Seq<i64>,
    target: i64,
    indices: Seq<u32>,
    a: int,
    b: int,
)
    requires
        0 <= a < b < indices.len(),
        indices[a] == indices[b],
    ensures
        !solves(elements, target, indices),
{
    if distinct(indices, indices.len() as int) {
        assert(indices[a] != indices[b]);
    }
}

/// A verdict never reports more operations than the budget allows: it counts
/// one per index, and more indices than `max_ops` on a well-sized problem
/// give `BudgetExceeded` instead of a verdict.
pub proof fn lemma_ops_within_budget(
    tier: HardwareTier,
    elements: Seq<i64>,
    target: i64,
    indices: Seq<u32>,
    max_ops: u64,
)
    ensures
        verify_spec(tier, elements, target, indices, max_ops) matches Ok(v) ==> v.ops_used
            <= max_ops && v.ops_used == indices.len(),
        size_allowed(tier, elements.len()) && indices.len() > max_ops ==> verify_spec(
            tier,
            elements,
            target,
            indices,
            max_ops,
        ) == Err::<VerifyResult, VerifyError>(VerifyError::BudgetExceeded),
{
}

} // verus!
