use vstd::prelude::*;

use crate::decimal::{decimal, usize_to_string};
use crate::error::{ChatError, ChatErrorView};
use crate::router::circuit_breaker::{BreakerView, CircuitBreaker, CircuitBreakerConfig};
use crate::clock::duration_nanos;

verus! {

/// Which router the decisions are for. Both surface a non-retryable failure
/// at once and fall through to the next provider on a retryable one; the
/// streaming router also remembers the provider it used.
pub enum RouterKind {
    Completion,
    Streaming,
}

/// What a provider call came back with.
pub enum ProviderOutcome {
    Success,
    Failure { retryable: bool },
}

/// What the router does next.
pub enum RouteAction {
    /// Call provider `idx`, then report its outcome.
    Try(usize),
    /// Return the response just received.
    ReturnSuccess,
    /// Return the failure just received.
    ReturnFailure,
    /// Return the last failure received.
    ReturnLastFailure,
    /// Return this error.
    ReturnError(ChatError),
    /// The strategy named index `idx`, which the circuit breaker has no
    /// circuit for; looking it up is an out-of-bounds index.
    IndexOutOfBounds(usize),
}

pub enum RouteStep {
    Try(usize),
    ReturnSuccess,
    ReturnFailure,
    ReturnLastFailure,
    ReturnError(ChatErrorView),
    IndexOutOfBounds(usize),
}

impl View for RouteAction {
    type V = RouteStep;

    open spec fn view(&self) -> RouteStep {
        match self {
            RouteAction::Try(i) => RouteStep::Try(*i),
            RouteAction::ReturnSuccess => RouteStep::ReturnSuccess,
            RouteAction::ReturnFailure => RouteStep::ReturnFailure,
            RouteAction::ReturnLastFailure => RouteStep::ReturnLastFailure,
            RouteAction::ReturnError(e) => RouteStep::ReturnError(e@),
            RouteAction::IndexOutOfBounds(i) => RouteStep::IndexOutOfBounds(*i),
        }
    }
}

pub enum RoutePhase {
    /// Walking the strategy's order.
    Scanning,
    /// Every circuit was open and nothing was tried: probing the circuit open
    /// the longest.
    LastResort,
    /// An answer has been given.
    Done,
}

/// Where the scan through the strategy's order stopped.
pub enum ScanStop {
    /// Provider `idx` is to be tried.
    Found(usize),
    /// The order names a provider that does not exist.
    OutOfRange(usize),
    /// The circuit breaker was asked about a provider it has no circuit for.
    BreakerIndex(usize),
    /// The order is used up.
    Exhausted,
}

/// The scan of `order` from position `pos`: providers whose circuit is not
/// available at `now` are skipped. Returns the position after the stop and
/// the reason for stopping.
pub open spec fn scan(cb: Option<BreakerView>, count: nat, order: Seq<usize>, pos: int, now: u128) -> (int, ScanStop)
    decreases order.len() - pos,
{
    if pos < 0 || pos >= order.len() {
        (pos, ScanStop::Exhausted)
    } else {
        let idx = order[pos];
        match cb {
            Some(v) => {
                if idx >= v.len() {
                    (pos, ScanStop::BreakerIndex(idx))
                } else if !v.available(idx as int, now) {
                    scan(cb, count, order, pos + 1, now)
                } else if idx >= count {
                    (pos, ScanStop::OutOfRange(idx))
                } else {
                    (pos + 1, ScanStop::Found(idx))
                }
            },
            None => {
                if idx >= count {
                    (pos, ScanStop::OutOfRange(idx))
                } else {
                    (pos + 1, ScanStop::Found(idx))
                }
            },
        }
    }
}

/// The error for an index that names no provider.
pub open spec fn out_of_range_message(idx: nat, count: nat) -> Seq<char> {
    "Strategy returned out-of-range index "@ + decimal(idx) + " for "@ + decimal(count) + " providers"@
}

pub open spec fn exhausted_message() -> Seq<char> {
    "All providers exhausted"@
}

pub struct RouterView {
    pub kind: RouterKind,
    pub count: nat,
    pub cb: Option<BreakerView>,
    pub last_used: Option<usize>,
}

pub struct PlanView {
    pub order: Seq<usize>,
    pub pos: int,
    pub current: Option<usize>,
    pub tried_any: bool,
    pub has_failure: bool,
    pub phase: RoutePhase,
}

/// The plan before anything has been tried.
pub open spec fn initial_plan(order: Seq<usize>) -> PlanView {
    PlanView {
        order,
        pos: 0,
        current: None,
        tried_any: false,
        has_failure: false,
        phase: RoutePhase::Scanning,
    }
}

/// The index of the circuit open the longest.
pub open spec fn longest_open_index(v: BreakerView) -> int {
    choose|i: int| v.is_longest_open(i)
}

/// The decision taken when the plan is to go on walking the order.
pub open spec fn decide(r: RouterView, plan: PlanView, now: u128) -> (PlanView, RouteStep) {
    let (p, stop) = scan(r.cb, r.count, plan.order, plan.pos, now);
    match stop {
        ScanStop::Found(idx) => (
            PlanView { pos: p, current: Some(idx), tried_any: true, phase: RoutePhase::Scanning, ..plan },
            RouteStep::Try(idx),
        ),
        ScanStop::OutOfRange(idx) => (
            PlanView { pos: p, current: None, phase: RoutePhase::Done, ..plan },
            RouteStep::ReturnError(ChatErrorView::Other(out_of_range_message(idx as nat, r.count))),
        ),
        ScanStop::BreakerIndex(idx) => (
            PlanView { pos: p, current: None, phase: RoutePhase::Done, ..plan },
            RouteStep::IndexOutOfBounds(idx),
        ),
        ScanStop::Exhausted => {
            if !plan.tried_any && r.cb is Some && r.cb->0.any_open() {
                let lo = longest_open_index(r.cb->0);
                (
                    PlanView { pos: p, current: Some(lo as usize), phase: RoutePhase::LastResort, ..plan },
                    RouteStep::Try(lo as usize),
                )
            } else if plan.has_failure {
                (PlanView { pos: p, current: None, phase: RoutePhase::Done, ..plan }, RouteStep::ReturnLastFailure)
            } else {
                (
                    PlanView { pos: p, current: None, phase: RoutePhase::Done, ..plan },
                    RouteStep::ReturnError(ChatErrorView::Other(exhausted_message())),
                )
            }
        },
    }
}

/// The router after provider `idx` answered successfully.
pub open spec fn after_success(r: RouterView, idx: usize) -> RouterView {
    RouterView {
        cb: match r.cb {
            Some(v) => Some(v.after_success(idx as int)),
            None => None,
        },
        last_used: match r.kind {
            RouterKind::Streaming => Some(idx),
            RouterKind::Completion => r.last_used,
        },
        ..r
    }
}

/// The router after provider `idx` failed at `now`.
pub open spec fn after_failure(r: RouterView, idx: usize, now: u128) -> RouterView {
    RouterView {
        cb: match r.cb {
            Some(v) => Some(v.after_failure(idx as int, now)),
            None => None,
        },
        ..r
    }
}

/// The whole step taken when provider `plan.current` reports `outcome` at `now`.
pub open spec fn transition(r: RouterView, plan: PlanView, outcome: ProviderOutcome, now: u128) -> (RouterView, PlanView, RouteStep) {
    let idx = plan.current->0;
    let done = PlanView { current: None, phase: RoutePhase::Done, ..plan };
    match outcome {
        ProviderOutcome::Success => (after_success(r, idx), done, RouteStep::ReturnSuccess),
        ProviderOutcome::Failure { retryable } => {
            if plan.phase is LastResort {
                (after_failure(r, idx, now), done, RouteStep::ReturnFailure)
            } else if !retryable {
                (r, done, RouteStep::ReturnFailure)
            } else {
                let r2 = after_failure(r, idx, now);
                let (plan2, step) = decide(r2, PlanView { current: None, has_failure: true, ..plan }, now);
                (r2, plan2, step)
            }
        },
    }
}

/// The routing decisions shared by the completion and the streaming router:
/// provider count, optional circuit breaker and the provider used last.
pub struct RouterCore {
    kind: RouterKind,
    provider_count: usize,
    circuit_breaker: Option<CircuitBreaker>,
    last_used: Option<usize>,
}

/// The progress of one request through the strategy's order.
pub struct RoutePlan {
    order: Vec<usize>,
    pos: usize,
    current: Option<usize>,
    tried_any: bool,
    has_failure: bool,
    phase: RoutePhase,
}

impl View for RoutePlan {
    type V = PlanView;

    closed spec fn view(&self) -> PlanView {
        PlanView {
            order: self.order@,
            pos: self.pos as int,
            current: self.current,
            tried_any: self.tried_any,
            has_failure: self.has_failure,
            phase: self.phase,
        }
    }
}

impl View for RouterCore {
    type V = RouterView;

    closed spec fn view(&self) -> RouterView {
        RouterView {
            kind: self.kind,
            count: self.provider_count as nat,
            cb: match self.circuit_breaker {
                Some(cb) => Some(cb@),
                None => None,
            },
            last_used: self.last_used,
        }
    }
}

impl RoutePlan {
    /// The plan's current provider lies in range and its position in the order.
    pub closed spec fn well_formed(&self) -> bool {
        &&& self.pos <= self.order@.len()
    }

    pub fn phase_is_done(&self) -> (b: bool)
        ensures
            b == (self@.phase is Done),
    {
        match self.phase {
            RoutePhase::Done => true,
            _ => false,
        }
    }
}

impl RouterCore {
    /// The breaker, when there is one, has a circuit for each provider.
    pub closed spec fn well_formed(&self) -> bool {
        match self.circuit_breaker {
            Some(cb) => cb@.len() == self.provider_count,
            None => true,
        }
    }

    pub fn new(kind: RouterKind, provider_count: usize, config: Option<CircuitBreakerConfig>) -> (r: Self)
        ensures
            r.well_formed(),
            r@.kind == kind,
            r@.count == provider_count,
            r@.last_used is None,
            config is None ==> r@.cb is None,
            config matches Some(c) ==> {
                &&& r@.cb is Some
                &&& r@.cb->0.threshold == c.failure_threshold
                &&& r@.cb->0.timeout == duration_nanos(c.recovery_timeout)
                &&& forall|i: int| 0 <= i < provider_count ==> !(#[trigger] r@.cb->0.circuits[i]).is_open(c.failure_threshold) || c.failure_threshold == 0
                &&& forall|i: int| 0 <= i < provider_count ==> (#[trigger] r@.cb->0.circuits[i]).last_failure_at is None
            },
    {
        let circuit_breaker = match config {
            Some(c) => Some(CircuitBreaker::new(c, provider_count)),
            None => None,
        };
        RouterCore { kind, provider_count, circuit_breaker, last_used: None }
    }

    pub fn provider_count(&self) -> (n: usize)
        ensures
            n == self@.count,
    {
        self.provider_count
    }

    pub fn last_used(&self) -> (u: Option<usize>)
        ensures
            u == self@.last_used,
    {
        self.last_used
    }

    pub fn circuit_breaker(&self) -> (cb: &Option<CircuitBreaker>)
        ensures
            match *cb {
                Some(b) => self@.cb == Some(b@),
                None => self@.cb is None,
            },
    {
        &self.circuit_breaker
    }

    /// The clock reading the breaker compares failure times with; zero when
    /// there is no breaker.
    pub fn now_nanos(&self) -> (n: u128)
        ensures
            self@.cb is None ==> n == 0,
    {
        match &self.circuit_breaker {
            Some(cb) => cb.now_nanos(),
            None => 0,
        }
    }

    /// The error answered when there is no provider at all.
    pub fn no_providers_error(&self) -> (e: Option<ChatError>)
        ensures
            e is None <==> self@.count > 0,
            self@.count == 0 ==> e->0@ == ChatErrorView::Other(match self@.kind {
                RouterKind::Completion => "Router has no providers"@,
                RouterKind::Streaming => "StreamRouter has no providers"@,
            }),
    {
        if self.provider_count == 0 {
            match self.kind {
                RouterKind::Completion => Some(ChatError::Other("Router has no providers".to_owned())),
                RouterKind::Streaming => Some(ChatError::Other("StreamRouter has no providers".to_owned())),
            }
        } else {
            None
        }
    }

    /// Starts a request over the providers in `order`, the strategy's ranking.
    pub fn begin(&self, order: Vec<usize>, now: u128) -> (res: (RoutePlan, RouteAction))
        requires
            self.well_formed(),
        ensures
            res.0.well_formed(),
            (res.0@, res.1@) == decide(self@, initial_plan(order@), now),
    {
        let mut plan = RoutePlan {
            order,
            pos: 0,
            current: None,
            tried_any: false,
            has_failure: false,
            phase: RoutePhase::Scanning,
        };
        let action = self.decide_next(&mut plan, now);
        (plan, action)
    }

    /// Walks the order from the plan's position and decides what comes next.
    fn decide_next(&self, plan: &mut RoutePlan, now: u128) -> (action: RouteAction)
        requires
            self.well_formed(),
            old(plan).well_formed(),
        ensures
            final(plan).well_formed(),
            (final(plan)@, action@) == decide(self@, old(plan)@, now),
    {
        let ghost r = self@;
        let ghost plan0 = plan@;
        let n = plan.order.len();
        let mut pos = plan.pos;
        loop
            invariant
                r == self@,
                self.well_formed(),
                plan0 == old(plan)@,
                plan@ == plan0,
                plan.well_formed(),
                n == plan0.order.len(),
                plan0.pos <= pos <= n,
                scan(r.cb, r.count, plan0.order, plan0.pos, now) == scan(r.cb, r.count, plan0.order, pos as int, now),
            decreases n - pos,
        {
            if pos >= n {
                return self.after_exhausted(plan, pos, now);
            }
            let idx = plan.order[pos];
            match &self.circuit_breaker {
                Some(cb) => {
                    if idx >= cb.provider_count() {
                        plan.pos = pos;
                        plan.current = None;
                        plan.phase = RoutePhase::Done;
                        return RouteAction::IndexOutOfBounds(idx);
                    }
                    if !cb.is_available_at(idx, now) {
                        pos = pos + 1;
                        continue;
                    }
                },
                None => {},
            }
            if idx >= self.provider_count {
                plan.pos = pos;
                plan.current = None;
                plan.phase = RoutePhase::Done;
                return RouteAction::ReturnError(ChatError::Other(self.out_of_range(idx)));
            }
            plan.pos = pos + 1;
            plan.current = Some(idx);
            plan.tried_any = true;
            plan.phase = RoutePhase::Scanning;
            return RouteAction::Try(idx);
        }
    }

    /// "Strategy returned out-of-range index {idx} for {count} providers"
    fn out_of_range(&self, idx: usize) -> (s: String)
        ensures
            s@ == out_of_range_message(idx as nat, self@.count),
    {
        let s = "Strategy returned out-of-range index ".to_owned();
        let s = s.concat(usize_to_string(idx).as_str());
        let s = s.concat(" for ");
        let s = s.concat(usize_to_string(self.provider_count).as_str());
        s.concat(" providers")
    }

    /// The decision once the order is used up.
    fn after_exhausted(&self, plan: &mut RoutePlan, pos: usize, now: u128) -> (action: RouteAction)
        requires
            self.well_formed(),
            old(plan).well_formed(),
            pos == old(plan)@.order.len(),
            old(plan)@.pos <= pos,
        ensures
            final(plan).well_formed(),
            ({
                let p0 = old(plan)@;
                let d = decide(self@, PlanView { pos: pos as int, ..p0 }, now);
                final(plan)@ == d.0 && action@ == d.1
            }),
    {
        plan.pos = pos;
        if !plan.tried_any {
            if let Some(cb) = &self.circuit_breaker {
                if let Some(idx) = cb.longest_open() {
                    proof {
                        let v = cb@;
                        assert(v.is_longest_open(idx as int));
                        lemma_longest_open_unique(v, idx as int, longest_open_index(v));
                    }
                    plan.current = Some(idx);
                    plan.phase = RoutePhase::LastResort;
                    return RouteAction::Try(idx);
                }
            }
        }
        plan.current = None;
        plan.phase = RoutePhase::Done;
        if plan.has_failure {
            RouteAction::ReturnLastFailure
        } else {
            RouteAction::ReturnError(ChatError::Other("All providers exhausted".to_owned()))
        }
    }

    /// Reports the outcome of the provider the plan is waiting on, and
    /// decides what comes next.
    pub fn on_outcome(&mut self, plan: &mut RoutePlan, outcome: ProviderOutcome, now: u128) -> (action: RouteAction)
        requires
            old(self).well_formed(),
            old(plan).well_formed(),
            old(plan)@.current is Some,
            old(plan)@.current->0 < old(self)@.count,
            !(old(plan)@.phase is Done),
            outcome is Failure ==> (old(self)@.cb matches Some(v) ==> v.circuits[old(plan)@.current->0 as int].consecutive_failures < u32::MAX),
        ensures
            final(self).well_formed(),
            final(plan).well_formed(),
            (final(self)@, final(plan)@, action@) == transition(old(self)@, old(plan)@, outcome, now),
    {
        let idx = plan.current.unwrap();
        match outcome {
            ProviderOutcome::Success => {
                if let Some(cb) = &mut self.circuit_breaker {
                    cb.record_success(idx);
                }
                match self.kind {
                    RouterKind::Streaming => {
                        self.last_used = Some(idx);
                    },
                    RouterKind::Completion => {},
                }
                plan.current = None;
                plan.phase = RoutePhase::Done;
                RouteAction::ReturnSuccess
            },
            ProviderOutcome::Failure { retryable } => {
                let last_resort = match plan.phase {
                    RoutePhase::LastResort => true,
                    _ => false,
                };
                if !last_resort && !retryable {
                    plan.current = None;
                    plan.phase = RoutePhase::Done;
                    return RouteAction::ReturnFailure;
                }
                if let Some(cb) = &mut self.circuit_breaker {
                    cb.record_failure_at(idx, now);
                }
                plan.current = None;
                if last_resort {
                    plan.phase = RoutePhase::Done;
                    return RouteAction::ReturnFailure;
                }
                plan.has_failure = true;
                self.decide_next(plan, now)
            },
        }
    }
}

/// Only one index is the first of the longest-open circuits.
pub proof fn lemma_longest_open_unique(v: BreakerView, a: int, b: int)
    requires
        v.is_longest_open(a),
        v.is_longest_open(b),
    ensures
        a == b,
{
    if a < b {
        assert(v.age_key(b) < v.age_key(a));
    } else if b < a {
        assert(v.age_key(a) < v.age_key(b));
    }
}


/// The order in which the providers are tried: the strategy's ranking when
/// the router has a strategy (`ranked` holds what it answered, its failure
/// as text), else every provider in turn.
pub fn resolve_order(ranked: Option<Result<Vec<usize>, String>>, provider_count: usize) -> (r: Result<Vec<usize>, ChatError>)
    ensures
        match ranked {
            None => r matches Ok(v) && v@ == Seq::new(provider_count as nat, |i: int| i as usize),
            Some(Ok(v)) => r matches Ok(w) && w@ == v@,
            Some(Err(m)) => r matches Err(e) && e@ == ChatErrorView::Other(m@),
        },
{
    match ranked {
        Some(Ok(v)) => Ok(v),
        Some(Err(m)) => Err(ChatError::Other(m)),
        None => {
            let mut v: Vec<usize> = Vec::new();
            let mut i: usize = 0;
            while i < provider_count
                invariant
                    i <= provider_count,
                    v@ == Seq::new(i as nat, |k: int| k as usize),
                decreases provider_count - i,
            {
                v.push(i);
                assert(v@ =~= Seq::new((i + 1) as nat, |k: int| k as usize));
                i = i + 1;
            }
            Ok(v)
        },
    }
}

} // verus!
