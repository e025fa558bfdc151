use trans_rights_bot::error::BotError;
use trans_rights_bot::select::cumulative_weights;
use trans_rights_bot::select::is_valid_candidate_set;
use trans_rights_bot::select::select;
use trans_rights_bot::select::select_index_with_draw;
use trans_rights_bot::select::select_with_draw;
use trans_rights_bot::select::total_weight_of;
use trans_rights_bot::select::Candidate;

const A: u64 = 1270973597885050880;
const B: u64 = 1103565026571489281;
const C: u64 = 1162253080110354433;
const D: u64 = 940115273864110080;
const E: u64 = 934112336960544768;
const F: u64 = 1615276641013448704;

fn table() -> Vec<Candidate> {
    vec![
        Candidate { id: A, weight: 3 },
        Candidate { id: B, weight: 1 },
        Candidate { id: C, weight: 1 },
        Candidate { id: D, weight: 1 },
        Candidate { id: E, weight: 1 },
        Candidate { id: F, weight: 3 },
    ]
}

#[test]
fn total_is_the_sum_of_the_weights() {
    assert_eq!(total_weight_of(&table()), 10);
    assert_eq!(total_weight_of(&Vec::new()), 0);
    assert_eq!(total_weight_of(&vec![Candidate { id: 1, weight: 0 }]), 0);
}

#[test]
fn total_does_not_wrap_at_32_bits() {
    let heavy = vec![
        Candidate { id: 1, weight: u32::MAX },
        Candidate { id: 2, weight: u32::MAX },
        Candidate { id: 3, weight: 2 },
    ];
    assert_eq!(total_weight_of(&heavy), 8_589_934_592);
    assert_eq!(select_with_draw(&heavy, 4_294_967_294), Ok(1));
    assert_eq!(select_with_draw(&heavy, 4_294_967_295), Ok(2));
    assert_eq!(select_with_draw(&heavy, 8_589_934_589), Ok(2));
    assert_eq!(select_with_draw(&heavy, 8_589_934_590), Ok(3));
    assert_eq!(select_with_draw(&heavy, 8_589_934_591), Ok(3));
}

#[test]
fn running_sums_keep_list_order() {
    assert_eq!(cumulative_weights(&table()), vec![3, 4, 5, 6, 7, 10]);
    assert_eq!(cumulative_weights(&Vec::new()), Vec::<u128>::new());
}

#[test]
fn running_sums_grow_strictly_and_end_at_the_total() {
    let sums = cumulative_weights(&table());
    for i in 1..sums.len() {
        assert!(sums[i - 1] < sums[i]);
    }
    assert_eq!(sums[sums.len() - 1], total_weight_of(&table()));
}

#[test]
fn every_draw_selects_its_owner() {
    let expected = [A, A, A, B, C, D, E, F, F, F];
    for (draw, id) in expected.iter().enumerate() {
        assert_eq!(select_with_draw(&table(), draw as u128), Ok(*id));
    }
}

#[test]
fn every_draw_selects_its_owner_by_index() {
    let expected = [0, 0, 0, 1, 2, 3, 4, 5, 5, 5];
    for (draw, index) in expected.iter().enumerate() {
        assert_eq!(select_index_with_draw(&table(), draw as u128), Ok(*index));
    }
}

#[test]
fn owner_is_the_only_candidate_whose_interval_holds_the_draw() {
    let candidates = table();
    let sums = cumulative_weights(&candidates);
    for draw in 0..10u128 {
        let index = select_index_with_draw(&candidates, draw).unwrap();
        for i in 0..candidates.len() {
            let low = if i == 0 { 0 } else { sums[i - 1] };
            let inside = low <= draw && draw < sums[i];
            assert_eq!(inside, i == index);
        }
    }
}

#[test]
fn each_candidate_owns_as_many_draws_as_its_weight() {
    let candidates = table();
    let mut owned = vec![0u32; candidates.len()];
    for draw in 0..10u128 {
        owned[select_index_with_draw(&candidates, draw).unwrap()] += 1;
    }
    for i in 0..candidates.len() {
        assert_eq!(owned[i], candidates[i].weight);
    }
}

#[test]
fn single_candidate_is_always_selected() {
    let one = vec![Candidate { id: 42, weight: 7 }];
    for draw in 0..7u128 {
        assert_eq!(select_with_draw(&one, draw), Ok(42));
    }
    for _ in 0..100 {
        assert_eq!(select(&one), Ok(42));
    }
    let huge = vec![Candidate { id: 43, weight: u32::MAX }];
    assert_eq!(select_with_draw(&huge, 0), Ok(43));
    assert_eq!(select_with_draw(&huge, 4_294_967_294), Ok(43));
    assert_eq!(select(&huge), Ok(43));
}

#[test]
fn empty_list_is_refused() {
    let none: Vec<Candidate> = Vec::new();
    assert!(!is_valid_candidate_set(&none));
    assert_eq!(select(&none), Err(BotError::InvalidCandidateSet));
    assert_eq!(select_with_draw(&none, 0), Err(BotError::InvalidCandidateSet));
    assert_eq!(select_index_with_draw(&none, 0), Err(BotError::InvalidCandidateSet));
}

#[test]
fn zero_weight_is_refused() {
    let lists = [
        vec![Candidate { id: 1, weight: 0 }],
        vec![Candidate { id: 1, weight: 0 }, Candidate { id: 2, weight: 5 }],
        vec![Candidate { id: 1, weight: 5 }, Candidate { id: 2, weight: 0 }],
        vec![
            Candidate { id: 1, weight: 5 },
            Candidate { id: 2, weight: 0 },
            Candidate { id: 3, weight: 5 },
        ],
    ];
    for list in lists.iter() {
        assert!(!is_valid_candidate_set(list));
        assert_eq!(select(list), Err(BotError::InvalidCandidateSet));
        assert_eq!(select_with_draw(list, 0), Err(BotError::InvalidCandidateSet));
        assert_eq!(select_index_with_draw(list, 0), Err(BotError::InvalidCandidateSet));
    }
}

#[test]
fn valid_lists_are_recognised() {
    assert!(is_valid_candidate_set(&table()));
    assert!(is_valid_candidate_set(&vec![Candidate { id: 0, weight: 1 }]));
}

#[test]
fn equal_identifiers_are_told_apart_by_position() {
    let twice = vec![
        Candidate { id: 5, weight: 2 },
        Candidate { id: 6, weight: 1 },
        Candidate { id: 5, weight: 2 },
    ];
    assert_eq!(select_index_with_draw(&twice, 1), Ok(0));
    assert_eq!(select_index_with_draw(&twice, 2), Ok(1));
    assert_eq!(select_index_with_draw(&twice, 3), Ok(2));
    assert_eq!(select_with_draw(&twice, 4), Ok(5));
}

#[test]
fn random_selection_returns_a_listed_candidate() {
    let candidates = table();
    for _ in 0..1000 {
        let id = select(&candidates).unwrap();
        assert!(candidates.iter().any(|c| c.id == id));
    }
}

#[test]
fn random_selection_reaches_every_candidate() {
    let candidates = table();
    let mut seen = vec![false; candidates.len()];
    for _ in 0..10_000 {
        let id = select(&candidates).unwrap();
        let index = candidates.iter().position(|c| c.id == id).unwrap();
        seen[index] = true;
    }
    assert!(seen.iter().all(|s| *s));
}

#[test]
fn frequencies_approach_the_weights() {
    let candidates = table();
    let trials = 100_000;
    let mut counts = vec![0u32; candidates.len()];
    for _ in 0..trials {
        let id = select(&candidates).unwrap();
        let index = candidates.iter().position(|c| c.id == id).unwrap();
        counts[index] += 1;
    }
    let total = total_weight_of(&candidates) as f64;
    for i in 0..candidates.len() {
        let expected = candidates[i].weight as f64 / total;
        let observed = counts[i] as f64 / trials as f64;
        assert!((observed - expected).abs() < 0.02);
    }
}
