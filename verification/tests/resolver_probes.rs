use satellite_wallpaper::resolver::start;
use satellite_wallpaper::resolver::start_now;
use satellite_wallpaper::resolver::step;
use satellite_wallpaper::resolver::seconds_into;
use satellite_wallpaper::resolver::ResolverState;
use satellite_wallpaper::resolver::MAX_PROBES;

/// Runs a resolver against a probe that answers as `answers` tells, and counts the probes.
fn run(now: i64, cadence: u32, lag: u32, answers: &[bool]) -> (ResolverState, Vec<i64>) {
    let mut state = start(now, cadence, lag);
    let mut probed = Vec::new();
    let mut next = 0;
    while let Some(candidate) = state.pending_probe() {
        probed.push(candidate);
        let found = answers[next];
        next += 1;
        state = step(state, cadence, found);
    }
    (state, probed)
}

// 2024-10-29 14:52:30 UTC
const NOW: i64 = 1_730_213_550;
// 2024-10-29 14:45:00 UTC
const QUARTER: i64 = 1_730_213_100;

#[test]
fn first_candidate_is_rounded_down_less_the_lag() {
    assert_eq!(
        start(NOW, 15, 15),
        ResolverState::Probing { candidate: QUARTER - 900, attempt: 0 }
    );
    assert_eq!(
        start(NOW, 10, 20),
        ResolverState::Probing { candidate: 1_730_213_400 - 1200, attempt: 0 }
    );
    assert_eq!(start(QUARTER, 15, 0), ResolverState::Probing { candidate: QUARTER, attempt: 0 });
}

#[test]
fn first_probe_that_succeeds_resolves() {
    let (state, probed) = run(NOW, 15, 15, &[true]);
    assert_eq!(state, ResolverState::Resolved { bucket: QUARTER - 900 });
    assert_eq!(state.resolved(), Some(QUARTER - 900));
    assert_eq!(probed, vec![QUARTER - 900]);
}

#[test]
fn fourth_probe_that_succeeds_resolves_to_fourth_candidate() {
    let (state, probed) = run(NOW, 15, 15, &[false, false, false, true]);
    assert_eq!(state, ResolverState::Resolved { bucket: QUARTER - 900 - 3 * 900 });
    assert_eq!(
        probed,
        vec![QUARTER - 900, QUARTER - 1800, QUARTER - 2700, QUARTER - 3600]
    );
}

#[test]
fn four_failures_fail_the_resolution() {
    let (state, probed) = run(NOW, 15, 15, &[false, false, false, false]);
    assert_eq!(state, ResolverState::Failed);
    assert_eq!(state.resolved(), None);
    assert_eq!(probed.len(), MAX_PROBES as usize);
}

#[test]
fn resolved_bucket_was_probed_and_confirmed() {
    for pattern in 0..16u32 {
        let answers: Vec<bool> = (0..4).map(|i| pattern & (1 << i) != 0).collect();
        let (state, probed) = run(NOW, 10, 20, &answers);
        match state {
            ResolverState::Resolved { bucket } => {
                let at = probed.iter().position(|c| *c == bucket).unwrap();
                assert!(answers[at]);
                assert!(answers[..at].iter().all(|a| !a));
                assert_eq!(at + 1, probed.len());
            }
            ResolverState::Failed => assert!(answers.iter().all(|a| !a)),
            ResolverState::Probing { .. } => panic!("the run ended while probing"),
        }
    }
}

#[test]
fn ended_resolver_ignores_further_reports() {
    let done = ResolverState::Resolved { bucket: 42 };
    assert_eq!(step(done, 15, false), done);
    assert_eq!(step(done, 15, true), done);
    assert_eq!(step(ResolverState::Failed, 15, true), ResolverState::Failed);
}

#[test]
fn resolver_cannot_start_without_cadence_or_calendar() {
    assert_eq!(start(NOW, 0, 15), ResolverState::Failed);
    assert_eq!(start(253_402_300_800, 15, 15), ResolverState::Failed);
    assert_eq!(start(-377_705_116_801, 15, 15), ResolverState::Failed);
    assert_eq!(start_now(0, 15), ResolverState::Failed);
    assert_eq!(start_now(0, 0), ResolverState::Failed);
    assert!(start_now(1, 0).pending_probe().is_some());
    assert!(start_now(u32::MAX, u32::MAX).pending_probe().is_some());
}

#[test]
fn resolver_starts_now_on_a_cadence_boundary() {
    match start_now(15, 15) {
        ResolverState::Probing { candidate, attempt } => {
            assert_eq!(attempt, 0);
            assert_eq!(candidate.rem_euclid(900), 0);
            assert!(candidate > 1_700_000_000);
            assert!(candidate <= 253_402_300_799 - 900);
        }
        other => panic!("unexpected state {:?}", other),
    }
}

#[test]
fn seconds_into_is_euclidean() {
    assert_eq!(seconds_into(1000, 900), 100);
    assert_eq!(seconds_into(-1, 900), 899);
    assert_eq!(seconds_into(-900, 900), 0);
    assert_eq!(seconds_into(-901, 900), 899);
    assert_eq!(seconds_into(0, 7), 0);
}

#[test]
fn early_candidates_step_back_before_the_epoch() {
    let (state, probed) = run(100, 15, 15, &[false, true]);
    assert_eq!(probed, vec![-900, -1800]);
    assert_eq!(state, ResolverState::Resolved { bucket: -1800 });
}
