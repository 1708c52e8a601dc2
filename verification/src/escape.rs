//! Control logic of the escape-time membership test.
//!
//! One orbit step of the test updates z, then asks whether the squared
//! magnitude of z exceeds the escape threshold. This module owns what is
//! decided on the answer: whether the point is excluded, accepted as a
//! member, or iterated further. The arithmetic that produces the answer is
//! not part of this module; every function here is a total function of the
//! step counter and the escape flags alone.

use vstd::prelude::*;

verus! {

/// Iteration budget of the escape-time test. The test performs at most
/// `MAX_ITERATIONS + 1` updates of z; a point whose orbit never escapes
/// within that many updates is classified as a member.
pub const MAX_ITERATIONS: u16 = 100;

/// Number of orbit updates the test performs before it accepts a point.
pub open spec fn iteration_budget() -> int {
    MAX_ITERATIONS + 1
}

/// What one step of the escape-time test decides.
#[derive(Clone, Copy, Debug, PartialEq, Eq, Structural)]
pub enum EscapeStep {
    /// The orbit has not escaped and the budget is not exhausted: iterate on.
    Continue,
    /// The orbit escaped: the point is not a member of the set.
    NotMember,
    /// The budget is exhausted without an escape: the point is a member.
    Member,
}

/// The decision taken after one orbit update.
///
/// `counter` is the number of updates performed so far (the first update has
/// `counter == 1`); `escaped` says whether the squared magnitude exceeded the
/// escape threshold right after that update. The escape check comes before
/// the budget check: an orbit that escapes on the very last budgeted update
/// is excluded, not accepted.
pub fn escape_decision(counter: u16, escaped: bool) -> (s: EscapeStep)
    ensures
        escaped ==> s == EscapeStep::NotMember,
        !escaped && counter > MAX_ITERATIONS ==> s == EscapeStep::Member,
        !escaped && counter <= MAX_ITERATIONS ==> s == EscapeStep::Continue,
{
    if escaped {
        EscapeStep::NotMember
    } else if counter > MAX_ITERATIONS {
        EscapeStep::Member
    } else {
        EscapeStep::Continue
    }
}

/// Whether an orbit trace escapes within the first `bound` recorded steps.
///
/// Entry `k` of a trace says whether the squared magnitude exceeded the
/// escape threshold right after the `(k + 1)`-th update of z.
pub open spec fn escapes_within(esc: Seq<bool>, bound: int) -> bool {
    exists|k: int| 0 <= k < bound && k < esc.len() && esc[k]
}

/// An orbit that stays at or below the escape threshold through every
/// update of the full iteration budget — the last budgeted update
/// included — counts as bounded, so the point is classified as a member.
pub proof fn lemma_unescaped_budget_is_member(esc: Seq<bool>)
    requires
        esc.len() >= iteration_budget(),
        forall|k: int| 0 <= k < iteration_budget() ==> !esc[k],
    ensures
        !escapes_within(esc, iteration_budget()),
{
}

/// An orbit that exceeds the escape threshold right after the very first
/// update is excluded within that one step, whatever follows.
pub proof fn lemma_first_step_escape_excludes(esc: Seq<bool>)
    requires
        esc.len() > 0,
        esc[0],
    ensures
        escapes_within(esc, iteration_budget()),
{
    assert(0 <= 0 < iteration_budget() && 0 < esc.len() && esc[0]);
}

/// The classification an orbit trace leads to.
///
/// Walks the trace with `escape_decision`: the first escaped entry within
/// the budget excludes the point, a full budget of unescaped entries accepts
/// it, and a trace that ends earlier without an escape decides nothing.
pub fn classify_orbit(escapes: &Vec<bool>) -> (r: Option<bool>)
    ensures
        r == Some(false) <==> escapes_within(escapes@, iteration_budget()),
        r == Some(true) <==> escapes@.len() >= iteration_budget() && !escapes_within(
            escapes@,
            iteration_budget(),
        ),
        r is None <==> escapes@.len() < iteration_budget() && !escapes_within(
            escapes@,
            iteration_budget(),
        ),
{
    let n: usize = escapes.len();
    let mut k: usize = 0;
    while k < n
        invariant
            n == escapes@.len(),
            k <= n,
            k <= MAX_ITERATIONS,
            forall|j: int| 0 <= j < k ==> !escapes@[j],
        decreases n - k,
    {
        let escaped = escapes[k];
        match escape_decision((k as u16) + 1, escaped) {
            EscapeStep::NotMember => {
                proof {
                    assert(escapes_within(escapes@, iteration_budget())) by {
                        assert(0 <= k < iteration_budget() && k < escapes@.len()
                            && escapes@[k as int]);
                    }
                }
                return Some(false);
            },
            EscapeStep::Member => {
                return Some(true);
            },
            EscapeStep::Continue => {
                k = k + 1;
            },
        }
    }
    None
}

} // verus!
