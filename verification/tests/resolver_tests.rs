use cluster_raft::resolver::{
    resolve_from_outcomes, retry_delay_ms, AddressResolver, ResolveStep, RESOLVE_ATTEMPTS,
    RESOLVE_DELAY_BASE_MS, RESOLVE_DELAY_SPREAD_MS,
};

#[test]
fn delay_window_bounds() {
    assert_eq!(RESOLVE_DELAY_BASE_MS, 500);
    assert_eq!(RESOLVE_DELAY_SPREAD_MS, 300);
    assert_eq!(retry_delay_ms(0), 500);
    assert_eq!(retry_delay_ms(299), 799);
    assert_eq!(retry_delay_ms(300), 500);
    assert_eq!(retry_delay_ms(u64::MAX), u64::MAX % 300 + 500);
}

#[test]
fn resolves_immediately_on_first_attempt() {
    let outcomes: Vec<Option<u32>> = vec![Some(7), None, None];
    let (endpoint, attempts) = resolve_from_outcomes(outcomes);
    assert_eq!(endpoint, Some(7));
    assert_eq!(attempts, 1);
}

#[test]
fn resolves_once_address_becomes_resolvable() {
    // The address becomes resolvable on the fourth attempt of ten.
    let outcomes: Vec<Option<u32>> =
        vec![None, None, None, Some(42), None, None, None, None, None, None];
    let (endpoint, attempts) = resolve_from_outcomes(outcomes);
    assert_eq!(endpoint, Some(42));
    assert_eq!(attempts, 4);
}

#[test]
fn fails_after_exactly_the_attempt_budget() {
    assert_eq!(RESOLVE_ATTEMPTS, 10);
    let outcomes: Vec<Option<u32>> = vec![None; RESOLVE_ATTEMPTS];
    let (endpoint, attempts) = resolve_from_outcomes(outcomes);
    assert_eq!(endpoint, None);
    assert_eq!(attempts, RESOLVE_ATTEMPTS);
}

#[test]
fn empty_budget_fails_without_attempts() {
    let outcomes: Vec<Option<u32>> = vec![];
    let (endpoint, attempts) = resolve_from_outcomes(outcomes);
    assert_eq!(endpoint, None);
    assert_eq!(attempts, 0);
}

#[test]
fn step_machine_retries_then_fails() {
    let mut resolver = AddressResolver::new(3);
    assert_eq!(resolver.on_attempt::<u32>(None), ResolveStep::Retry);
    assert_eq!(resolver.on_attempt::<u32>(None), ResolveStep::Retry);
    assert_eq!(resolver.on_attempt::<u32>(None), ResolveStep::Failed);
    assert_eq!(resolver.attempts_done, 3);
}

#[test]
fn step_machine_accepts_endpoint() {
    let mut resolver = AddressResolver::new(3);
    assert_eq!(resolver.on_attempt::<u32>(None), ResolveStep::Retry);
    assert_eq!(resolver.on_attempt(Some(9u32)), ResolveStep::Resolved(9));
}
