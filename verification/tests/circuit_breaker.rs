use std::time::Duration;

use chat_rs::router::circuit_breaker::{CircuitBreaker, CircuitBreakerConfig, ProviderCircuit};

#[test]
fn new_circuit_is_available() {
    let cb = CircuitBreaker::new(
        CircuitBreakerConfig {
            failure_threshold: 3,
            recovery_timeout: Duration::from_secs(30),
        },
        2,
    );
    assert!(cb.is_available(0));
    assert!(cb.is_available(1));
}

#[test]
fn opens_after_threshold() {
    let mut cb = CircuitBreaker::new(
        CircuitBreakerConfig {
            failure_threshold: 2,
            recovery_timeout: Duration::from_secs(30),
        },
        1,
    );
    cb.record_failure(0);
    assert!(cb.is_available(0));
    cb.record_failure(0);
    assert!(!cb.is_available(0));
}

#[test]
fn success_resets() {
    let mut cb = CircuitBreaker::new(
        CircuitBreakerConfig {
            failure_threshold: 2,
            recovery_timeout: Duration::from_secs(30),
        },
        1,
    );
    cb.record_failure(0);
    cb.record_failure(0);
    assert!(!cb.is_available(0));
    cb.record_success(0);
    assert!(cb.is_available(0));
}

#[test]
fn half_open_after_recovery_timeout() {
    let mut cb = CircuitBreaker::new(
        CircuitBreakerConfig {
            failure_threshold: 1,
            recovery_timeout: Duration::from_millis(0),
        },
        1,
    );
    cb.record_failure(0);
    assert!(cb.is_available(0));
}

#[test]
fn longest_open_picks_oldest_failure() {
    let mut cb = CircuitBreaker::new(
        CircuitBreakerConfig {
            failure_threshold: 1,
            recovery_timeout: Duration::from_secs(999),
        },
        3,
    );
    cb.record_failure(1);
    cb.record_failure(2);
    cb.record_failure(0);
    assert_eq!(cb.longest_open(), Some(1));
}

#[test]
fn default_config_is_three_failures_and_thirty_seconds() {
    let config = CircuitBreakerConfig::default();
    assert_eq!(config.failure_threshold, 3);
    assert_eq!(config.recovery_timeout, Duration::from_secs(30));
}

#[test]
fn fresh_provider_circuit_is_closed() {
    let c = ProviderCircuit::new();
    assert_eq!(c.consecutive_failures, 0);
    assert!(c.last_failure_at.is_none());
}

#[test]
fn explicit_times_decide_availability() {
    let mut cb = CircuitBreaker::new(
        CircuitBreakerConfig {
            failure_threshold: 1,
            recovery_timeout: Duration::from_nanos(100),
        },
        2,
    );
    cb.record_failure_at(0, 1_000);
    assert!(!cb.is_available_at(0, 1_050));
    assert!(cb.is_available_at(0, 1_100));
    assert!(cb.is_available_at(1, 1_050));
}

#[test]
fn longest_open_is_none_without_open_circuits() {
    let cb = CircuitBreaker::new(CircuitBreakerConfig::default(), 3);
    assert_eq!(cb.longest_open(), None);
}

#[test]
fn longest_open_by_explicit_times() {
    let mut cb = CircuitBreaker::new(
        CircuitBreakerConfig {
            failure_threshold: 1,
            recovery_timeout: Duration::from_secs(999),
        },
        3,
    );
    cb.record_failure_at(0, 500);
    cb.record_failure_at(1, 200);
    cb.record_failure_at(2, 300);
    assert_eq!(cb.longest_open(), Some(1));
}
