use image_compressor::search::{fits_budget, SearchState, MAX_QUALITY, MIN_QUALITY};

/// Runs a search against a synthetic encoder and returns the result together
/// with the qualities that were probed.
fn run_search(encoder: &dyn Fn(u8) -> Option<Vec<u8>>, target_kb: usize) -> (Vec<u8>, Vec<u8>) {
    let mut state = SearchState::new();
    let mut probed = Vec::new();
    while let Some(quality) = state.next_quality() {
        probed.push(quality);
        state = state.record(encoder(quality), target_kb);
    }
    (state.into_best(), probed)
}

/// An encoder whose output holds `per_quality * quality` bytes, each equal to
/// the quality.
fn linear(per_quality: usize) -> impl Fn(u8) -> Option<Vec<u8>> {
    move |quality: u8| Some(vec![quality; per_quality * quality as usize])
}

#[test]
fn quality_range_is_five_to_hundred() {
    assert_eq!(MIN_QUALITY, 5);
    assert_eq!(MAX_QUALITY, 100);
}

#[test]
fn fits_budget_rounds_size_down_to_whole_kilobytes() {
    assert!(fits_budget(&Some(vec![0u8; 1023]), 0));
    assert!(!fits_budget(&Some(vec![0u8; 1024]), 0));
    assert!(fits_budget(&Some(vec![0u8; 1024]), 1));
    assert!(fits_budget(&Some(vec![0u8; 51300]), 50));
    assert!(fits_budget(&Some(vec![0u8; 52223]), 50));
    assert!(!fits_budget(&Some(vec![0u8; 52224]), 50));
}

#[test]
fn fits_budget_rejects_missing_and_empty_output() {
    assert!(!fits_budget(&None, 1000));
    assert!(!fits_budget(&Some(Vec::new()), 1000));
    assert!(fits_budget(&Some(vec![7u8]), 0));
}

#[test]
fn first_probe_is_the_middle_of_the_range() {
    let state = SearchState::new();
    assert_eq!(state.next_quality(), Some(52));
}

#[test]
fn a_fit_moves_the_search_up_and_a_miss_moves_it_down() {
    let state = SearchState::new().record(Some(vec![1u8; 10]), 1);
    assert_eq!(state.next_quality(), Some(76));
    let state = state.record(Some(vec![2u8; 5000]), 1);
    assert_eq!(state.next_quality(), Some(64));
    assert_eq!(state.into_best(), vec![1u8; 10]);
}

#[test]
fn a_finished_search_ignores_further_probes() {
    let (_, probed) = run_search(&linear(1), 1000);
    assert_eq!(probed.last(), Some(&100));
    let mut state = SearchState::new();
    for _ in 0..7 {
        state = state.record(Some(vec![9u8; 3]), 10);
    }
    assert_eq!(state.next_quality(), None);
    let state = state.record(Some(vec![1u8; 1]), 10);
    assert_eq!(state.next_quality(), None);
    assert_eq!(state.into_best(), vec![9u8; 3]);
}

#[test]
fn generous_budget_returns_the_top_quality() {
    let (best, probed) = run_search(&linear(100), 1_000_000);
    assert_eq!(best, vec![100u8; 10_000]);
    assert_eq!(probed, vec![52, 76, 88, 94, 97, 99, 100]);
}

#[test]
fn hopeless_budget_returns_nothing() {
    // Quality 5 yields 5 * 1024 bytes: five kilobytes against a budget of four.
    let (best, probed) = run_search(&linear(1024), 4);
    assert!(best.is_empty());
    assert_eq!(probed, vec![52, 28, 16, 10, 7, 5]);
}

#[test]
fn search_finds_the_highest_quality_that_fits() {
    // 1000 bytes per quality step, budget 40 KB: 40 * 1024 + 1023 = 41983 bytes
    // is the most that fits, so quality 41 is the last one in.
    let (best, _) = run_search(&linear(1000), 40);
    assert_eq!(best, vec![41u8; 41_000]);
}

#[test]
fn search_is_optimal_for_every_budget_of_a_monotone_encoder() {
    let encoder = linear(700);
    for target_kb in 0..80usize {
        let (best, probed) = run_search(&encoder, target_kb);
        let expected = (5..=100u8).rev().find(|q| fits_budget(&encoder(*q), target_kb));
        match expected {
            Some(q) => assert_eq!(best, encoder(q).unwrap()),
            None => assert!(best.is_empty()),
        }
        assert!(probed.len() <= 7);
    }
}

#[test]
fn result_never_shrinks_when_the_budget_grows() {
    let encoder = linear(700);
    let mut previous = 0;
    for target_kb in 3..90usize {
        let (best, _) = run_search(&encoder, target_kb);
        assert!(best.len() >= previous);
        previous = best.len();
    }
}

#[test]
fn failed_and_empty_probes_count_as_misses() {
    // The encoder fails above quality 60 and yields nothing between 40 and 60.
    let encoder = |quality: u8| {
        if quality > 60 {
            None
        } else if quality >= 40 {
            Some(Vec::new())
        } else {
            Some(vec![quality; 10])
        }
    };
    let (best, probed) = run_search(&encoder, 100);
    assert_eq!(best, vec![39u8; 10]);
    assert_eq!(probed, vec![52, 28, 40, 34, 37, 38, 39]);
}

#[test]
fn search_never_takes_more_than_seven_probes() {
    // An encoder that is far from monotone.
    let encoder = |quality: u8| {
        if quality % 3 == 0 {
            Some(vec![0u8; 10])
        } else {
            Some(vec![0u8; 10_000])
        }
    };
    for target_kb in 0..12usize {
        let (best, probed) = run_search(&encoder, target_kb);
        assert!(probed.len() <= 7);
        assert!(probed.iter().all(|q| (5..=100).contains(q)));
        assert!(best.is_empty() || fits_budget(&Some(best), target_kb));
    }
}
