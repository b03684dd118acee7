use vstd::prelude::*;

use crate::clock::{
    duration_as_nanos, duration_from_secs, duration_nanos, instant_now, nanos_since,
};

verus! {

/// Configuration for the circuit breaker.
pub struct CircuitBreakerConfig {
    /// Number of consecutive failures before the circuit opens (skips provider).
    pub failure_threshold: u32,
    /// How long an open circuit waits before allowing a probe request.
    pub recovery_timeout: core::time::Duration,
}

impl Default for CircuitBreakerConfig {
    fn default() -> (r: Self)
        ensures
            r.failure_threshold == 3,
            duration_nanos(r.recovery_timeout) == 30_000_000_000,
    {
        CircuitBreakerConfig { failure_threshold: 3, recovery_timeout: duration_from_secs(30) }
    }
}

/// The failure record of one provider. Times are nanoseconds since the
/// breaker was created.
pub struct ProviderCircuit {
    pub consecutive_failures: u32,
    pub last_failure_at: Option<u128>,
}

impl ProviderCircuit {
    pub fn new() -> (c: Self)
        ensures
            c.consecutive_failures == 0,
            c.last_failure_at is None,
    {
        ProviderCircuit { consecutive_failures: 0, last_failure_at: None }
    }

    /// The circuit has seen at least `threshold` failures in a row.
    pub open spec fn is_open(self, threshold: u32) -> bool {
        self.consecutive_failures >= threshold
    }

    /// Nanoseconds from the last failure to `now`, counting zero when `now`
    /// lies before it.
    pub open spec fn elapsed(self, now: u128) -> int {
        match self.last_failure_at {
            Some(at) => if now >= at { now - at } else { 0 },
            None => 0,
        }
    }

    /// The provider may be tried at `now`: the circuit is closed, it has no
    /// recorded failure time, or the recovery timeout has passed (half-open).
    pub open spec fn available(self, threshold: u32, timeout: u128, now: u128) -> bool {
        ||| self.consecutive_failures < threshold
        ||| self.last_failure_at is None
        ||| self.elapsed(now) >= timeout
    }
}

/// Per-provider failure counting with a recovery timeout.
pub struct CircuitBreaker {
    failure_threshold: u32,
    recovery_timeout_nanos: u128,
    origin: std::time::Instant,
    circuits: Vec<ProviderCircuit>,
}

/// The mathematical state of a breaker: the threshold, the timeout in
/// nanoseconds and one circuit per provider.
pub struct BreakerView {
    pub threshold: u32,
    pub timeout: u128,
    pub circuits: Seq<ProviderCircuit>,
}

impl BreakerView {
    pub open spec fn len(self) -> nat {
        self.circuits.len()
    }

    pub open spec fn available(self, idx: int, now: u128) -> bool {
        self.circuits[idx].available(self.threshold, self.timeout, now)
    }

    pub open spec fn is_open(self, idx: int) -> bool {
        self.circuits[idx].is_open(self.threshold)
    }

    /// The state after a failure of provider `idx` at time `now`.
    pub open spec fn after_failure(self, idx: int, now: u128) -> BreakerView {
        BreakerView {
            circuits: self.circuits.update(
                idx,
                ProviderCircuit {
                    consecutive_failures: (self.circuits[idx].consecutive_failures + 1) as u32,
                    last_failure_at: Some(now),
                },
            ),
            ..self
        }
    }

    /// The state after a success of provider `idx`.
    pub open spec fn after_success(self, idx: int) -> BreakerView {
        BreakerView {
            circuits: self.circuits.update(
                idx,
                ProviderCircuit { consecutive_failures: 0, last_failure_at: None },
            ),
            ..self
        }
    }

    /// The key by which open circuits are compared: no failure time sorts
    /// before any failure time, as `Option`'s order does.
    pub open spec fn age_key(self, idx: int) -> int {
        match self.circuits[idx].last_failure_at {
            None => -1,
            Some(t) => t as int,
        }
    }

    /// `idx` is the first open circuit whose key is minimal among the open ones.
    pub open spec fn is_longest_open(self, idx: int) -> bool {
        &&& 0 <= idx < self.len()
        &&& self.is_open(idx)
        &&& forall|j: int| 0 <= j < self.len() && self.is_open(j) ==> self.age_key(idx) <= #[trigger] self.age_key(j)
        &&& forall|j: int| 0 <= j < idx && self.is_open(j) ==> self.age_key(idx) < #[trigger] self.age_key(j)
    }

    pub open spec fn any_open(self) -> bool {
        exists|j: int| 0 <= j < self.len() && #[trigger] self.is_open(j)
    }
}

impl View for CircuitBreaker {
    type V = BreakerView;

    closed spec fn view(&self) -> BreakerView {
        BreakerView {
            threshold: self.failure_threshold,
            timeout: self.recovery_timeout_nanos,
            circuits: self.circuits@,
        }
    }
}

impl CircuitBreaker {
    pub fn new(config: CircuitBreakerConfig, provider_count: usize) -> (cb: Self)
        ensures
            cb@.threshold == config.failure_threshold,
            cb@.timeout == duration_nanos(config.recovery_timeout),
            cb@.len() == provider_count,
            forall|i: int| 0 <= i < provider_count ==> (#[trigger] cb@.circuits[i]) == ProviderCircuit::new_spec(),
    {
        let mut circuits: Vec<ProviderCircuit> = Vec::new();
        let mut i: usize = 0;
        while i < provider_count
            invariant
                i <= provider_count,
                circuits@.len() == i,
                forall|k: int| 0 <= k < i ==> (#[trigger] circuits@[k]) == ProviderCircuit::new_spec(),
            decreases provider_count - i,
        {
            circuits.push(ProviderCircuit::new());
            i = i + 1;
        }
        let timeout = duration_as_nanos(&config.recovery_timeout);
        CircuitBreaker {
            failure_threshold: config.failure_threshold,
            recovery_timeout_nanos: timeout,
            origin: instant_now(),
            circuits,
        }
    }

    /// Nanoseconds since this breaker was created, read from the clock.
    pub fn now_nanos(&self) -> u128 {
        nanos_since(&self.origin)
    }

    pub fn provider_count(&self) -> (n: usize)
        ensures
            n == self@.len(),
    {
        self.circuits.len()
    }

    /// Returns true if the provider should be tried (closed or half-open).
    pub fn is_available(&self, idx: usize) -> (b: bool)
        requires
            idx < self@.len(),
        ensures
            exists|now: u128| b == self@.available(idx as int, now),
            self@.circuits[idx as int].consecutive_failures < self@.threshold ==> b,
            self@.circuits[idx as int].last_failure_at is None ==> b,
    {
        let now = self.now_nanos();
        self.is_available_at(idx, now)
    }

    /// Whether provider `idx` may be tried at time `now`.
    pub fn is_available_at(&self, idx: usize, now: u128) -> (b: bool)
        requires
            idx < self@.len(),
        ensures
            b == self@.available(idx as int, now),
    {
        let circuit = &self.circuits[idx];
        if circuit.consecutive_failures < self.failure_threshold {
            return true;
        }
        match circuit.last_failure_at {
            Some(at) => {
                let elapsed: u128 = if now >= at { now - at } else { 0 };
                elapsed >= self.recovery_timeout_nanos
            },
            None => true,
        }
    }

    /// Returns the index of the provider whose circuit has been open the longest,
    /// i.e. the one most likely to have recovered. Used as a last resort when all
    /// circuits are open.
    pub fn longest_open(&self) -> (r: Option<usize>)
        ensures
            r is None <==> !self@.any_open(),
            r matches Some(idx) ==> self@.is_longest_open(idx as int),
    {
        let ghost v = self@;
        let mut best: Option<usize> = None;
        let mut i: usize = 0;
        while i < self.circuits.len()
            invariant
                v == self@,
                i <= v.len(),
                best is None <==> (forall|j: int| 0 <= j < i ==> !#[trigger] v.is_open(j)),
                best matches Some(b) ==> {
                    &&& 0 <= b < i
                    &&& v.is_open(b as int)
                    &&& forall|j: int| 0 <= j < i && v.is_open(j) ==> v.age_key(b as int) <= #[trigger] v.age_key(j)
                    &&& forall|j: int| 0 <= j < b && v.is_open(j) ==> v.age_key(b as int) < #[trigger] v.age_key(j)
                },
            decreases v.len() - i,
        {
            let c = &self.circuits[i];
            if c.consecutive_failures >= self.failure_threshold {
                match best {
                    None => {
                        best = Some(i);
                    },
                    Some(b) => {
                        let cb = &self.circuits[b];
                        if Self::earlier(&c.last_failure_at, &cb.last_failure_at) {
                            best = Some(i);
                        }
                    },
                }
            }
            proof {
                if best is Some {
                    assert(v.is_open(best->0 as int));
                }
            }
            i = i + 1;
        }
        proof {
            if best is None {
                assert forall|j: int| 0 <= j < v.len() implies !#[trigger] v.is_open(j) by {}
            } else {
                let b = best->0;
                assert(v.is_open(b as int));
            }
        }
        best
    }

    /// `a` sorts strictly before `b` in `Option`'s order.
    fn earlier(a: &Option<u128>, b: &Option<u128>) -> (r: bool)
        ensures
            r == (match *a {
                None => -1int,
                Some(t) => t as int,
            } < match *b {
                None => -1int,
                Some(t) => t as int,
            }),
    {
        match (a, b) {
            (None, None) => false,
            (None, Some(_)) => true,
            (Some(_), None) => false,
            (Some(x), Some(y)) => *x < *y,
        }
    }

    /// The failures in a row recorded for provider `idx`.
    pub fn consecutive_failures(&self, idx: usize) -> (n: u32)
        requires
            idx < self@.len(),
        ensures
            n == self@.circuits[idx as int].consecutive_failures,
    {
        self.circuits[idx].consecutive_failures
    }

    pub fn record_success(&mut self, idx: usize)
        requires
            idx < old(self)@.len(),
        ensures
            final(self)@ == old(self)@.after_success(idx as int),
    {
        self.circuits.set(idx, ProviderCircuit { consecutive_failures: 0, last_failure_at: None });
    }

    pub fn record_failure(&mut self, idx: usize)
        requires
            idx < old(self)@.len(),
            old(self)@.circuits[idx as int].consecutive_failures < u32::MAX,
        ensures
            exists|now: u128| final(self)@ == old(self)@.after_failure(idx as int, now),
    {
        let now = self.now_nanos();
        self.record_failure_at(idx, now);
    }

    /// Records a failure of provider `idx` observed at time `now`.
    pub fn record_failure_at(&mut self, idx: usize, now: u128)
        requires
            idx < old(self)@.len(),
            old(self)@.circuits[idx as int].consecutive_failures < u32::MAX,
        ensures
            final(self)@ == old(self)@.after_failure(idx as int, now),
    {
        let failures = self.circuits[idx].consecutive_failures;
        self.circuits.set(
            idx,
            ProviderCircuit { consecutive_failures: failures + 1, last_failure_at: Some(now) },
        );
    }
}

impl ProviderCircuit {
    pub open spec fn new_spec() -> ProviderCircuit {
        ProviderCircuit { consecutive_failures: 0, last_failure_at: None }
    }
}

} // verus!
