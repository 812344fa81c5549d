//! The volume transition engine: given the target's current volume and a
//! desired volume, it builds a monotonic step sequence between the two,
//! stepping by exactly one percentage point, together with a per-step delay
//! that spreads a fixed total time budget evenly over the steps. The caller
//! writes the steps to the player one by one, sleeping between writes, so
//! that the change is audibly smooth rather than an abrupt jump.

use vstd::prelude::*;

use crate::config::{LOWER_VOLUME, NORMAL_VOLUME, TRANSITION_BUDGET_NANOS};
use crate::errors::FatalError;

verus! {

/// Number of volume steps a transition from `from` to `to` takes: one step
/// per percentage point of distance, and none at all when the levels agree.
pub open spec fn step_count(from: int, to: int) -> int {
    if to >= from {
        to - from
    } else {
        from - to
    }
}

/// The `i`-th volume level written during a transition from `from` to `to`:
/// one point closer to `to` with every step, so that the final step lands
/// exactly on `to`.
pub open spec fn step_value(from: int, to: int, i: int) -> int {
    if to < from {
        from - 1 - i
    } else {
        from + 1 + i
    }
}

/// The whole sequence of volume levels a transition from `from` to `to`
/// writes, in order: every integer level strictly between the two, followed
/// by `to` itself; descending when lowering, ascending when raising. The
/// starting level `from` is not rewritten — the player already sits there.
pub open spec fn step_seq(from: int, to: int) -> Seq<int> {
    Seq::new(step_count(from, to) as nat, |i: int| step_value(from, to, i))
}

/// An ephemeral plan for one volume transition: the ordered volume levels to
/// write, and the delay to pace each write by. It exists only for the
/// duration of one transition call and is never persisted.
pub struct TransitionPlan {
    /// The volume levels to write, in order.
    pub steps: Vec<u8>,
    /// Nominal delay between consecutive writes, in nanoseconds: the total
    /// budget divided by the number of steps (zero when there are no steps).
    pub step_delay_nanos: u64,
}

impl TransitionPlan {
    /// This plan is the one for a transition from `from` to `to` under the
    /// total budget `budget_nanos`: its steps are exactly `step_seq(from, to)`
    /// and its per-step delay divides the budget evenly over them.
    pub open spec fn is_plan_for(self, from: int, to: int, budget_nanos: int) -> bool {
        &&& self.steps@.len() == step_count(from, to)
        &&& (forall|i: int|
            #![trigger self.steps@[i]]
            0 <= i < step_count(from, to) ==> self.steps@[i] as int == step_seq(from, to)[i])
        &&& self.step_delay_nanos as int == if from == to {
            0
        } else {
            budget_nanos / step_count(from, to)
        }
    }
}

/// Build the plan for a transition from `current` to `desired` under a total
/// time budget of `budget_nanos` nanoseconds.
///
/// Equal levels yield the empty plan with no delay, so the transition is an
/// idempotent no-op: zero writes and zero waiting. Otherwise the steps walk
/// monotonically from `current` to `desired`, one percentage point at a
/// time, end exactly on `desired`, and never leave the valid volume range.
pub fn plan_transition(current: u8, desired: u8, budget_nanos: u64) -> (plan: TransitionPlan)
    requires
        current <= 100,
        desired <= 100,
    ensures
        plan.is_plan_for(current as int, desired as int, budget_nanos as int),
        current == desired ==> plan.steps@.len() == 0 && plan.step_delay_nanos == 0,
        current != desired ==> plan.steps@.len() >= 1 && plan.steps@[plan.steps@.len() - 1]
            == desired,
        forall|i: int|
            #![trigger plan.steps@[i]]
            0 <= i < plan.steps@.len() ==> plan.steps@[i] <= 100,
{
    let mut steps: Vec<u8> = Vec::new();
    if desired < current {
        let mut v: u8 = current;
        while v > desired
            invariant
                desired <= v <= current <= 100,
                steps@.len() == current - v,
                forall|i: int|
                    #![trigger steps@[i]]
                    0 <= i < steps@.len() ==> steps@[i] as int == step_value(
                        current as int,
                        desired as int,
                        i,
                    ),
            decreases v - desired,
        {
            v = v - 1;
            steps.push(v);
        }
    } else if desired > current {
        let mut v: u8 = current;
        while v < desired
            invariant
                current <= v <= desired <= 100,
                steps@.len() == v - current,
                forall|i: int|
                    #![trigger steps@[i]]
                    0 <= i < steps@.len() ==> steps@[i] as int == step_value(
                        current as int,
                        desired as int,
                        i,
                    ),
            decreases desired - v,
        {
            v = v + 1;
            steps.push(v);
        }
    }
    let n = steps.len();
    let step_delay_nanos: u64 = if n == 0 {
        0
    } else {
        budget_nanos / (n as u64)
    };
    TransitionPlan { steps, step_delay_nanos }
}

/// Plan a transition from a baseline volume reading, or classify the failure
/// to read one. A missing baseline is the one unrecoverable outcome of the
/// engine: without knowing where the volume currently stands, no safe step
/// sequence exists, so the caller terminates with a diagnostic.
pub fn plan_from_baseline(baseline: Option<u8>, desired: u8, budget_nanos: u64) -> (r: Result<
    TransitionPlan,
    FatalError,
>)
    requires
        desired <= 100,
        baseline matches Some(b) ==> b <= 100,
    ensures
        r is Err <==> baseline is None,
        baseline is None ==> r == Err::<TransitionPlan, FatalError>(FatalError::BaselineReadFailed),
        baseline matches Some(b) ==> r matches Ok(plan) && plan.is_plan_for(
            b as int,
            desired as int,
            budget_nanos as int,
        ),
{
    match baseline {
        None => Err(FatalError::BaselineReadFailed),
        Some(current) => Ok(plan_transition(current, desired, budget_nanos)),
    }
}

/// Plan the duck transition: from the baseline down (or up) to the
/// configured lower volume, under the configured total budget.
pub fn plan_duck(baseline: Option<u8>) -> (r: Result<TransitionPlan, FatalError>)
    requires
        baseline matches Some(b) ==> b <= 100,
    ensures
        r is Err <==> baseline is None,
        baseline is None ==> r == Err::<TransitionPlan, FatalError>(FatalError::BaselineReadFailed),
        baseline matches Some(b) ==> r matches Ok(plan) && plan.is_plan_for(
            b as int,
            LOWER_VOLUME as int,
            TRANSITION_BUDGET_NANOS as int,
        ),
{
    plan_from_baseline(baseline, LOWER_VOLUME, TRANSITION_BUDGET_NANOS)
}

/// Plan the restore transition: from the baseline back to the configured
/// normal volume, under the configured total budget.
pub fn plan_restore(baseline: Option<u8>) -> (r: Result<TransitionPlan, FatalError>)
    requires
        baseline matches Some(b) ==> b <= 100,
    ensures
        r is Err <==> baseline is None,
        baseline is None ==> r == Err::<TransitionPlan, FatalError>(FatalError::BaselineReadFailed),
        baseline matches Some(b) ==> r matches Ok(plan) && plan.is_plan_for(
            b as int,
            NORMAL_VOLUME as int,
            TRANSITION_BUDGET_NANOS as int,
        ),
{
    plan_from_baseline(baseline, NORMAL_VOLUME, TRANSITION_BUDGET_NANOS)
}

/// How long to sleep after one step's write: the per-step delay less the
/// time the write itself took, saturating at zero so that a slow write never
/// asks for a negative sleep.
pub fn remaining_sleep(step_delay_nanos: u64, elapsed_nanos: u64) -> (r: u64)
    ensures
        r as int == if elapsed_nanos < step_delay_nanos {
            step_delay_nanos - elapsed_nanos
        } else {
            0
        },
{
    if elapsed_nanos < step_delay_nanos {
        step_delay_nanos - elapsed_nanos
    } else {
        0
    }
}

/// The volume levels a transition from `a` to `b` visits: every integer
/// strictly between the two, and `b` itself, but not the starting level `a`.
pub open spec fn in_transition_range(a: int, b: int, v: int) -> bool {
    if b < a {
        b <= v < a
    } else {
        a < v <= b
    }
}

/// Monotonic coverage: for a transition between two distinct levels `a` and
/// `b`, the planned sequence of volume values is exactly the integers
/// strictly between `a` and `b` together with `b` itself, in strictly
/// monotonic order (descending when lowering, ascending when raising), each
/// value appearing exactly once, and the last value is exactly `b`.
pub proof fn lemma_step_seq_monotonic_coverage(a: int, b: int)
    requires
        a != b,
    ensures
        step_seq(a, b).len() == step_count(a, b),
        step_count(a, b) >= 1,
        step_seq(a, b)[step_count(a, b) - 1] == b,
        forall|i: int, j: int|
            #![trigger step_seq(a, b)[i], step_seq(a, b)[j]]
            0 <= i < j < step_count(a, b) ==> if b < a {
                step_seq(a, b)[i] > step_seq(a, b)[j]
            } else {
                step_seq(a, b)[i] < step_seq(a, b)[j]
            },
        forall|v: int| #[trigger]
            in_transition_range(a, b, v) ==> exists|i: int|
                0 <= i < step_count(a, b) && step_seq(a, b)[i] == v,
        forall|i: int|
            0 <= i < step_count(a, b) ==> in_transition_range(a, b, #[trigger] step_seq(a, b)[i]),
{
    assert forall|v: int| #[trigger]
        in_transition_range(a, b, v) implies exists|i: int|
            0 <= i < step_count(a, b) && step_seq(a, b)[i] == v by {
        let i = if b < a {
            a - 1 - v
        } else {
            v - a - 1
        };
        assert(step_seq(a, b)[i] == v);
    }
}

/// Bounded duration: a transition between two distinct levels spends its
/// fixed total budget regardless of the distance. The nominal total delay —
/// the number of steps times the per-step delay — never exceeds the budget,
/// and falls short of it by less than one nanosecond per step, so every
/// transition takes approximately the same wall-clock time.
pub proof fn lemma_plan_duration(plan: TransitionPlan, from: int, to: int, budget_nanos: int)
    requires
        plan.is_plan_for(from, to, budget_nanos),
        from != to,
        budget_nanos >= 0,
    ensures
        plan.steps@.len() * plan.step_delay_nanos <= budget_nanos,
        budget_nanos - plan.steps@.len() < plan.steps@.len() * plan.step_delay_nanos,
{
    let n = step_count(from, to);
    vstd::arithmetic::div_mod::lemma_fundamental_div_mod(budget_nanos, n);
    vstd::arithmetic::div_mod::lemma_mod_bound(budget_nanos, n);
}

} // verus!
