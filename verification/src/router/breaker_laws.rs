use vstd::prelude::*;

use crate::router::circuit_breaker::{BreakerView, ProviderCircuit};

verus! {

/// A circuit that has never failed is available at every time.
pub proof fn lemma_fresh_circuit_available(threshold: u32, timeout: u128, now: u128)
    ensures
        ProviderCircuit::new_spec().available(threshold, timeout, now),
{
}

/// A success closes the circuit: the provider is available at any time
/// afterwards, whatever failures came before.
pub proof fn lemma_success_closes(v: BreakerView, idx: int, now: u128)
    requires
        0 <= idx < v.len(),
    ensures
        v.after_success(idx).len() == v.len(),
        v.after_success(idx).available(idx, now),
        !v.after_success(idx).is_open(idx) || v.threshold == 0,
{
}

/// While the consecutive failures stay below the threshold, a failure leaves
/// the provider available.
pub proof fn lemma_below_threshold_stays_available(v: BreakerView, idx: int, t: u128, now: u128)
    requires
        0 <= idx < v.len(),
        v.circuits[idx].consecutive_failures + 1 < v.threshold,
    ensures
        v.after_failure(idx, t).available(idx, now),
{
}

/// The failure that reaches the threshold opens the circuit: the provider is
/// skipped until the recovery timeout has passed since that failure.
pub proof fn lemma_threshold_opens(v: BreakerView, idx: int, t: u128, now: u128)
    requires
        0 <= idx < v.len(),
        v.circuits[idx].consecutive_failures < u32::MAX,
        v.circuits[idx].consecutive_failures + 1 >= v.threshold,
        t <= now,
        now - t < v.timeout,
    ensures
        v.after_failure(idx, t).is_open(idx),
        !v.after_failure(idx, t).available(idx, now),
{
}

/// Once the recovery timeout has passed since the last failure, an open
/// circuit is half-open: the provider may be probed again.
pub proof fn lemma_half_open_after_timeout(v: BreakerView, idx: int, t: u128, now: u128)
    requires
        0 <= idx < v.len(),
        t <= now,
        now - t >= v.timeout,
    ensures
        v.after_failure(idx, t).available(idx, now),
{
}

/// Recording the outcome of one provider leaves every other circuit as it was.
pub proof fn lemma_records_are_local(v: BreakerView, idx: int, j: int, t: u128)
    requires
        0 <= idx < v.len(),
        0 <= j < v.len(),
        idx != j,
    ensures
        v.after_failure(idx, t).circuits[j] == v.circuits[j],
        v.after_success(idx).circuits[j] == v.circuits[j],
        v.after_failure(idx, t).len() == v.len(),
{
}

/// Each failure adds one to the consecutive count and the latest failure
/// time is the one kept.
pub proof fn lemma_failures_count_up(v: BreakerView, idx: int, t1: u128, t2: u128)
    requires
        0 <= idx < v.len(),
        v.circuits[idx].consecutive_failures + 2 <= u32::MAX,
    ensures
        v.after_failure(idx, t1).after_failure(idx, t2).circuits[idx].consecutive_failures
            == v.circuits[idx].consecutive_failures + 2,
        v.after_failure(idx, t1).after_failure(idx, t2).circuits[idx].last_failure_at == Some(t2),
{
}

/// The first open circuit with the smallest key among the first `n`, or -1.
pub open spec fn first_oldest_upto(v: BreakerView, n: int) -> int
    decreases n,
{
    if n <= 0 {
        -1
    } else {
        let b = first_oldest_upto(v, n - 1);
        if v.is_open(n - 1) && (b == -1 || v.age_key(n - 1) < v.age_key(b)) {
            n - 1
        } else {
            b
        }
    }
}

proof fn lemma_first_oldest_upto(v: BreakerView, n: int)
    requires
        0 <= n <= v.len(),
    ensures
        ({
            let b = first_oldest_upto(v, n);
            &&& (b == -1 <==> forall|j: int| 0 <= j < n ==> !#[trigger] v.is_open(j))
            &&& b != -1 ==> {
                &&& 0 <= b < n
                &&& v.is_open(b)
                &&& forall|j: int| 0 <= j < n && v.is_open(j) ==> v.age_key(b) <= #[trigger] v.age_key(j)
                &&& forall|j: int| 0 <= j < b && v.is_open(j) ==> v.age_key(b) < #[trigger] v.age_key(j)
            }
        }),
    decreases n,
{
    if n > 0 {
        lemma_first_oldest_upto(v, n - 1);
        let b = first_oldest_upto(v, n - 1);
        if b != -1 {
            assert(v.is_open(b));
        }
    }
}

/// When some circuit is open there is a circuit open the longest.
pub proof fn lemma_longest_open_exists(v: BreakerView)
    requires
        v.any_open(),
    ensures
        exists|i: int| v.is_longest_open(i),
{
    lemma_first_oldest_upto(v, v.len() as int);
    let b = first_oldest_upto(v, v.len() as int);
    let w = choose|j: int| 0 <= j < v.len() && #[trigger] v.is_open(j);
    assert(v.is_open(w));
    assert(v.is_longest_open(b));
}

} // verus!
