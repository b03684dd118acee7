use vstd::prelude::*;

use crate::router::breaker_laws::lemma_longest_open_exists;
use crate::router::circuit_breaker::BreakerView;
use crate::router::routing::{
    after_failure, decide, initial_plan, scan, PlanView, ProviderOutcome, RouteStep, RouterView,
    transition,
};

verus! {

/// A provider picked by the scan exists, and its circuit, if there is a
/// breaker, is available at the time of the scan.
pub proof fn lemma_found_provider_available(cb: Option<BreakerView>, count: nat, order: Seq<usize>, pos: int, now: u128)
    requires
        scan(cb, count, order, pos, now).1 is Found,
    ensures
        ({
            let idx = scan(cb, count, order, pos, now).1->Found_0;
            &&& idx < count
            &&& (cb matches Some(v) ==> v.available(idx as int, now))
            &&& order[scan(cb, count, order, pos, now).0 - 1] == idx
        }),
    decreases order.len() - pos,
{
    if 0 <= pos < order.len() {
        let idx = order[pos];
        if let Some(v) = cb {
            if idx < v.len() && !v.available(idx as int, now) {
                lemma_found_provider_available(cb, count, order, pos + 1, now);
            }
        }
    }
}

/// The scan goes through the order in sequence: every position it passes over
/// names a provider whose circuit is unavailable at the time.
pub proof fn lemma_scan_skips_only_unavailable(cb: Option<BreakerView>, count: nat, order: Seq<usize>, pos: int, now: u128, k: int)
    requires
        0 <= pos <= k,
        ({
            let (p, stop) = scan(cb, count, order, pos, now);
            ||| (stop is Found && k < p - 1)
            ||| (!(stop is Found) && k < p)
        }),
    ensures
        cb is Some,
        order[k] < cb->0.len(),
        !cb->0.available(order[k] as int, now),
    decreases order.len() - pos,
{
    let idx = order[pos];
    if pos < k {
        lemma_scan_skips_only_unavailable(cb, count, order, pos + 1, now, k);
    }
}

/// The last-resort probe happens only when nothing was tried and every
/// provider in the order was skipped, and it goes to the circuit open the
/// longest.
pub proof fn lemma_last_resort_only_when_nothing_tried(r: RouterView, plan: PlanView, now: u128)
    requires
        decide(r, plan, now).0.phase is LastResort,
        r.cb matches Some(v) ==> v.len() <= usize::MAX,
    ensures
        !plan.tried_any,
        r.cb is Some,
        scan(r.cb, r.count, plan.order, plan.pos, now).1 is Exhausted,
        decide(r, plan, now).1 == RouteStep::Try(decide(r, plan, now).0.current->0),
        r.cb->0.is_longest_open(decide(r, plan, now).0.current->0 as int),
{
    let v = r.cb->0;
    lemma_longest_open_exists(v);
    let w = choose|i: int| v.is_longest_open(i);
    assert(v.is_longest_open(w));
    assert(0 <= w < v.len());
}

/// Either router answers a non-retryable failure at once, without counting
/// it against the provider's circuit and without trying another provider.
pub proof fn lemma_non_retryable_failure_surfaces(r: RouterView, plan: PlanView, now: u128)
    requires
        plan.phase is Scanning,
    ensures
        transition(r, plan, ProviderOutcome::Failure { retryable: false }, now).0 == r,
        transition(r, plan, ProviderOutcome::Failure { retryable: false }, now).2 == RouteStep::ReturnFailure,
{
}

/// A success is answered at once and closes the provider's circuit.
pub proof fn lemma_success_answers(r: RouterView, plan: PlanView, now: u128)
    requires
        plan.current is Some,
    ensures
        transition(r, plan, ProviderOutcome::Success, now).2 == RouteStep::ReturnSuccess,
        transition(r, plan, ProviderOutcome::Success, now).1.phase is Done,
        r.cb matches Some(v) ==> transition(r, plan, ProviderOutcome::Success, now).0.cb == Some(v.after_success(plan.current->0 as int)),
{
}

/// A retryable failure while scanning is counted against the provider and
/// the scan goes on from the next position in the order.
pub proof fn lemma_failure_moves_on(r: RouterView, plan: PlanView, retryable: bool, now: u128)
    requires
        plan.phase is Scanning,
        plan.current is Some,
        retryable,
    ensures
        transition(r, plan, ProviderOutcome::Failure { retryable }, now).0 == after_failure(r, plan.current->0, now),
        transition(r, plan, ProviderOutcome::Failure { retryable }, now).1.has_failure,
        transition(r, plan, ProviderOutcome::Failure { retryable }, now).2
            == decide(after_failure(r, plan.current->0, now), PlanView { current: None, has_failure: true, ..plan }, now).1,
{
}

/// Without a breaker and with the order `0, 1, ..., n-1`, the first provider
/// is tried first.
pub proof fn lemma_default_order_starts_at_first(r: RouterView, now: u128)
    requires
        r.cb is None,
        r.count > 0,
    ensures
        decide(r, initial_plan(Seq::new(r.count, |i: int| i as usize)), now).1 == RouteStep::Try(0),
{
}

/// When the order is used up after a failure and a probe is not due, the
/// last failure is what the router answers.
pub proof fn lemma_exhausted_answers_last_failure(r: RouterView, plan: PlanView, now: u128)
    requires
        plan.has_failure,
        plan.tried_any,
        scan(r.cb, r.count, plan.order, plan.pos, now).1 is Exhausted,
    ensures
        decide(r, plan, now).1 == RouteStep::ReturnLastFailure,
{
}

/// The streaming router remembers the provider that answered last, so that
/// the end of a stream reaches it: a success records that provider and
/// closes its circuit (its consecutive failures start again from zero); a
/// failure leaves the remembered provider as it was.
pub proof fn lemma_stream_remembers_last_success(r: RouterView, plan: PlanView, outcome: ProviderOutcome, now: u128)
    requires
        r.kind is Streaming,
        plan.current is Some,
    ensures
        outcome is Success ==> transition(r, plan, outcome, now).0.last_used == Some(plan.current->0),
        outcome is Success ==> (r.cb matches Some(v) ==> transition(r, plan, outcome, now).0.cb == Some(
            v.after_success(plan.current->0 as int),
        )),
        outcome is Failure ==> transition(r, plan, outcome, now).0.last_used == r.last_used,
{
}

/// The router after a run of reported outcomes, each given with the plan it
/// was reported on and the time.
pub open spec fn after_steps(r: RouterView, steps: Seq<(PlanView, ProviderOutcome, u128)>) -> RouterView
    decreases steps.len(),
{
    if steps.len() == 0 {
        r
    } else {
        let s = steps.last();
        transition(after_steps(r, steps.drop_last()), s.0, s.1, s.2).0
    }
}

/// The provider of the last success in a run, if any.
pub open spec fn last_served(steps: Seq<(PlanView, ProviderOutcome, u128)>) -> Option<usize>
    decreases steps.len(),
{
    if steps.len() == 0 {
        None
    } else if steps.last().1 is Success {
        steps.last().0.current
    } else {
        last_served(steps.drop_last())
    }
}

/// Across any run of requests, the provider a finished stream is handed to
/// (`last_used`) is the one that served the last successful call; when no
/// call has succeeded yet, it is what the router started with (none, for a
/// new router).
pub proof fn lemma_stream_done_goes_to_last_server(r: RouterView, steps: Seq<(PlanView, ProviderOutcome, u128)>)
    requires
        r.kind is Streaming,
        forall|i: int| 0 <= i < steps.len() ==> (#[trigger] steps[i]).0.current is Some,
    ensures
        after_steps(r, steps).kind is Streaming,
        after_steps(r, steps).last_used == match last_served(steps) {
            Some(i) => Some(i),
            None => r.last_used,
        },
    decreases steps.len(),
{
    if steps.len() > 0 {
        let prefix = steps.drop_last();
        assert forall|i: int| 0 <= i < prefix.len() implies (#[trigger] prefix[i]).0.current is Some by {
            assert(prefix[i] == steps[i]);
        }
        lemma_stream_done_goes_to_last_server(r, prefix);
        assert(steps.last() == steps[steps.len() - 1]);
    }
}

} // verus!
