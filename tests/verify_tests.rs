use coinjecture_core::boundary::{coinjecture_verify_subset_sum, tier_from_code, CoinjResult};
use coinjecture_core::verify::{verify_solution, VerifyError};
use coinjecture_core::{HardwareTier, Problem, ProblemType, Solution, VerifyBudget};

fn problem(elements: Vec<i64>, target: i64) -> Problem {
    Problem {
        problem_type: ProblemType::SubsetSum,
        tier: HardwareTier::Mobile,
        elements,
        target,
        timestamp: 0,
    }
}

fn solution(indices: Vec<u32>) -> Solution {
    Solution { indices, timestamp: 0 }
}

fn budget(max_ops: u64) -> VerifyBudget {
    VerifyBudget { max_ops, max_duration_ms: 1000, max_memory_bytes: 1 << 20 }
}

#[test]
fn subset_sum_valid_and_invalid() {
    let p = problem(vec![3, 7, 11], 18);
    // 7 + 11 = 18
    let ok = verify_solution(&p, &solution(vec![1, 2]), &budget(100)).unwrap();
    assert!(ok.valid);
    assert_eq!(ok.ops_used, 2);
    // 3 + 11 = 14
    let near = verify_solution(&p, &solution(vec![0, 2]), &budget(100)).unwrap();
    assert!(!near.valid);
    let p14 = problem(vec![3, 7, 11], 14);
    assert!(verify_solution(&p14, &solution(vec![0, 2]), &budget(100)).unwrap().valid);
    let bad = verify_solution(&p, &solution(vec![0, 1]), &budget(100)).unwrap();
    assert!(!bad.valid);
    assert_eq!(bad.ops_used, 2);
}

#[test]
fn duplicate_indices_are_invalid() {
    let p = problem(vec![9, 1, 2], 18);
    let r = verify_solution(&p, &solution(vec![0, 0]), &budget(100)).unwrap();
    assert!(!r.valid);
}

#[test]
fn out_of_range_index_is_invalid_and_counted() {
    let p = problem(vec![3, 7, 11], 3);
    let r = verify_solution(&p, &solution(vec![5, 0, 1]), &budget(100)).unwrap();
    assert!(!r.valid);
    assert_eq!(r.ops_used, 3);
}

#[test]
fn overflow_is_invalid_not_an_error() {
    let p = problem(vec![i64::MAX, 1, i64::MIN], -1);
    let r = verify_solution(&p, &solution(vec![0, 1, 2]), &budget(100)).unwrap();
    assert!(!r.valid);
    let fine = verify_solution(&p, &solution(vec![0, 2]), &budget(100)).unwrap();
    assert!(fine.valid);
}

#[test]
fn budget_smaller_than_indices_is_an_error() {
    let p = problem(vec![3, 7, 11], 21);
    assert_eq!(
        verify_solution(&p, &solution(vec![0, 1, 2]), &budget(2)),
        Err(VerifyError::BudgetExceeded)
    );
    let exact = verify_solution(&p, &solution(vec![0, 1, 2]), &budget(3)).unwrap();
    assert!(exact.valid);
    assert_eq!(exact.ops_used, 3);
}

#[test]
fn empty_or_missized_problem_is_invalid_input() {
    let empty = problem(vec![], 0);
    assert_eq!(
        verify_solution(&empty, &solution(vec![]), &budget(10)),
        Err(VerifyError::InvalidInput)
    );
    let mut small = problem(vec![1, 2, 3], 3);
    small.tier = HardwareTier::Cluster;
    assert_eq!(
        verify_solution(&small, &solution(vec![0, 1]), &budget(10)),
        Err(VerifyError::InvalidInput)
    );
}

#[test]
fn empty_solution_matches_zero_target() {
    let p = problem(vec![4, 5], 0);
    let r = verify_solution(&p, &solution(vec![]), &budget(0)).unwrap();
    assert!(r.valid);
    assert_eq!(r.ops_used, 0);
}

#[test]
fn tier_ranges_and_budgets() {
    assert_eq!(HardwareTier::from_u8(1), Some(HardwareTier::Mobile));
    assert_eq!(HardwareTier::from_u8(5), Some(HardwareTier::Cluster));
    assert_eq!(HardwareTier::from_u8(0), None);
    assert_eq!(HardwareTier::from_u8(6), None);
    assert_eq!(HardwareTier::Mobile.element_range(), (1, 12));
    assert_eq!(HardwareTier::Cluster.element_range(), (16, 32));
    let tiers = [
        HardwareTier::Mobile,
        HardwareTier::Desktop,
        HardwareTier::Workstation,
        HardwareTier::Server,
        HardwareTier::Cluster,
    ];
    for pair in tiers.windows(2) {
        let lo = VerifyBudget::from_tier(pair[0]);
        let hi = VerifyBudget::from_tier(pair[1]);
        assert!(lo.max_ops <= hi.max_ops);
        assert!(lo.max_duration_ms <= hi.max_duration_ms);
        assert!(lo.max_memory_bytes <= hi.max_memory_bytes);
    }
    assert_eq!(VerifyBudget::from_tier(HardwareTier::Mobile).max_ops, 10_000);
}

#[test]
fn verify_through_call_surface() {
    let p = problem(vec![3, 7, 11], 18);
    let mut out = -1;
    assert_eq!(
        coinjecture_verify_subset_sum(&p, &solution(vec![1, 2]), &budget(10), &mut out),
        CoinjResult::Success
    );
    assert_eq!(out, 1);
    assert_eq!(
        coinjecture_verify_subset_sum(&p, &solution(vec![0, 1]), &budget(10), &mut out),
        CoinjResult::Success
    );
    assert_eq!(out, 0);
    let mut untouched = 7;
    assert_eq!(
        coinjecture_verify_subset_sum(&p, &solution(vec![0, 1]), &budget(1), &mut untouched),
        CoinjResult::ErrorVerificationFailed
    );
    assert_eq!(untouched, 7);
    assert_eq!(
        coinjecture_verify_subset_sum(&problem(vec![], 0), &solution(vec![]), &budget(1), &mut untouched),
        CoinjResult::ErrorInvalidInput
    );
    assert_eq!(tier_from_code(0), Some(HardwareTier::Mobile));
    assert_eq!(tier_from_code(4), Some(HardwareTier::Cluster));
    assert_eq!(tier_from_code(5), None);
}

#[test]
fn adversarial_inputs_respect_budget() {
    for max_ops in 0..40u64 {
        for n in 0..40u32 {
            let p = problem(vec![i64::MAX, i64::MIN, 5, -5], 0);
            let indices: Vec<u32> = (0..n).map(|i| i.wrapping_mul(2654435761) % 7).collect();
            match verify_solution(&p, &solution(indices), &budget(max_ops)) {
                Ok(r) => assert!(r.ops_used <= max_ops),
                Err(e) => assert_eq!(e, VerifyError::BudgetExceeded),
            }
        }
    }
}
