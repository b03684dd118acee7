use std::time::Duration;

use chat_rs::error::ChatError;
use chat_rs::router::circuit_breaker::CircuitBreakerConfig;
use chat_rs::router::routing::{resolve_order, ProviderOutcome, RouteAction, RouterCore, RouterKind};

fn breaker(threshold: u32, secs: u64) -> Option<CircuitBreakerConfig> {
    Some(CircuitBreakerConfig { failure_threshold: threshold, recovery_timeout: Duration::from_secs(secs) })
}

#[test]
fn non_retryable_failure_surfaces_at_once() {
    let mut core = RouterCore::new(RouterKind::Completion, 2, None);
    let (mut plan, action) = core.begin(vec![0, 1], 0);
    assert!(matches!(action, RouteAction::Try(0)));
    let action = core.on_outcome(&mut plan, ProviderOutcome::Failure { retryable: false }, 1);
    assert!(matches!(action, RouteAction::ReturnFailure));
}

#[test]
fn retryable_failure_moves_to_the_next_provider() {
    let mut core = RouterCore::new(RouterKind::Completion, 2, None);
    let (mut plan, _) = core.begin(vec![0, 1], 0);
    let action = core.on_outcome(&mut plan, ProviderOutcome::Failure { retryable: true }, 1);
    assert!(matches!(action, RouteAction::Try(1)));
    let action = core.on_outcome(&mut plan, ProviderOutcome::Success, 2);
    assert!(matches!(action, RouteAction::ReturnSuccess));
}

#[test]
fn streaming_router_moves_on_after_a_retryable_failure() {
    let mut core = RouterCore::new(RouterKind::Streaming, 2, None);
    assert_eq!(core.last_used(), None);
    let (mut plan, _) = core.begin(vec![1, 0], 0);
    let action = core.on_outcome(&mut plan, ProviderOutcome::Failure { retryable: true }, 1);
    assert!(matches!(action, RouteAction::Try(0)));
    assert_eq!(core.last_used(), None);
    let action = core.on_outcome(&mut plan, ProviderOutcome::Success, 2);
    assert!(matches!(action, RouteAction::ReturnSuccess));
    assert_eq!(core.last_used(), Some(0));
}

#[test]
fn streaming_router_surfaces_a_non_retryable_failure() {
    let mut core = RouterCore::new(RouterKind::Streaming, 2, None);
    let (mut plan, action) = core.begin(vec![0, 1], 0);
    assert!(matches!(action, RouteAction::Try(0)));
    let action = core.on_outcome(&mut plan, ProviderOutcome::Failure { retryable: false }, 1);
    assert!(matches!(action, RouteAction::ReturnFailure));
    assert_eq!(core.last_used(), None);
}

#[test]
fn exhausted_order_answers_the_last_failure() {
    let mut core = RouterCore::new(RouterKind::Completion, 2, None);
    let (mut plan, _) = core.begin(vec![0, 1], 0);
    let _ = core.on_outcome(&mut plan, ProviderOutcome::Failure { retryable: true }, 1);
    let action = core.on_outcome(&mut plan, ProviderOutcome::Failure { retryable: true }, 2);
    assert!(matches!(action, RouteAction::ReturnLastFailure));
}

#[test]
fn empty_order_is_exhausted_without_failure() {
    let core = RouterCore::new(RouterKind::Completion, 2, None);
    let (_, action) = core.begin(vec![], 0);
    match action {
        RouteAction::ReturnError(ChatError::Other(m)) => assert_eq!(m, "All providers exhausted"),
        _ => panic!("expected exhaustion"),
    }
}

#[test]
fn out_of_range_index_is_an_error() {
    let core = RouterCore::new(RouterKind::Completion, 2, None);
    let (_, action) = core.begin(vec![5], 0);
    match action {
        RouteAction::ReturnError(ChatError::Other(m)) => {
            assert_eq!(m, "Strategy returned out-of-range index 5 for 2 providers")
        }
        _ => panic!("expected an error"),
    }
}

#[test]
fn no_providers_is_an_error() {
    let core = RouterCore::new(RouterKind::Completion, 0, None);
    match core.no_providers_error() {
        Some(ChatError::Other(m)) => assert_eq!(m, "Router has no providers"),
        _ => panic!("expected an error"),
    }
    let stream = RouterCore::new(RouterKind::Streaming, 0, None);
    match stream.no_providers_error() {
        Some(ChatError::Other(m)) => assert_eq!(m, "StreamRouter has no providers"),
        _ => panic!("expected an error"),
    }
    assert!(RouterCore::new(RouterKind::Completion, 1, None).no_providers_error().is_none());
}

#[test]
fn open_circuits_are_skipped_and_the_oldest_is_the_last_resort() {
    let mut core = RouterCore::new(RouterKind::Completion, 2, breaker(1, 1000));
    let (mut plan, action) = core.begin(vec![0, 1], 10);
    assert!(matches!(action, RouteAction::Try(0)));
    let action = core.on_outcome(&mut plan, ProviderOutcome::Failure { retryable: true }, 20);
    assert!(matches!(action, RouteAction::Try(1)));
    let action = core.on_outcome(&mut plan, ProviderOutcome::Failure { retryable: true }, 30);
    assert!(matches!(action, RouteAction::ReturnLastFailure));
    let (mut plan, action) = core.begin(vec![1, 0], 40);
    assert!(matches!(action, RouteAction::Try(0)));
    let action = core.on_outcome(&mut plan, ProviderOutcome::Success, 50);
    assert!(matches!(action, RouteAction::ReturnSuccess));
    let (_, action) = core.begin(vec![0, 1], 60);
    assert!(matches!(action, RouteAction::Try(0)));
}

#[test]
fn orders() {
    assert_eq!(resolve_order(None, 3).unwrap(), vec![0, 1, 2]);
    assert_eq!(resolve_order(Some(Ok(vec![2, 0])), 3).unwrap(), vec![2, 0]);
    match resolve_order(Some(Err("boom".to_string())), 3) {
        Err(ChatError::Other(m)) => assert_eq!(m, "boom"),
        _ => panic!("expected the strategy's error"),
    }
}

#[test]
fn stream_done_goes_to_the_provider_of_the_last_success() {
    let mut core = RouterCore::new(RouterKind::Streaming, 3, None);
    let (mut plan, _) = core.begin(vec![2, 0, 1], 0);
    let _ = core.on_outcome(&mut plan, ProviderOutcome::Success, 1);
    assert_eq!(core.last_used(), Some(2));
    let (mut plan, _) = core.begin(vec![0, 1], 2);
    let _ = core.on_outcome(&mut plan, ProviderOutcome::Failure { retryable: true }, 3);
    assert_eq!(core.last_used(), Some(2));
    let _ = core.on_outcome(&mut plan, ProviderOutcome::Success, 4);
    assert_eq!(core.last_used(), Some(1));
}
