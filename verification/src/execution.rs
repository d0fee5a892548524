//! Carrying out a plan: the token-program calls are made one after the
//! other, the first that fails ends the instruction with its error, and the
//! records an instruction wrote are kept only when it ends well.
use vstd::prelude::*;

use crate::cpi::{Plan, TokenInstruction};
use crate::error::HandlerError;

verus! {

/// How an instruction ended: it succeeded, it refused, or the call at the
/// given position failed, ending the instruction with that call's error.
#[derive(Clone, Copy, Debug, PartialEq, Eq)]
pub enum Ending {
    Succeeded,
    Refused(HandlerError),
    CallFailed(usize),
}

/// The position of the first failed outcome among the first `n` outcomes.
pub open spec fn first_failure<E>(outcomes: Seq<Result<(), E>>, n: nat) -> Option<nat>
    decreases n,
{
    if n == 0 {
        None
    } else {
        match first_failure(outcomes, (n - 1) as nat) {
            Some(i) => Some(i),
            None => if outcomes[n - 1] is Err { Some((n - 1) as nat) } else { None },
        }
    }
}

pub proof fn lemma_first_failure_bounds<E>(outcomes: Seq<Result<(), E>>, n: nat)
    ensures
        first_failure(outcomes, n) matches Some(i) ==> i < n && outcomes[i as int] is Err
            && forall|j: int| 0 <= j < i ==> outcomes[j] is Ok,
        first_failure(outcomes, n) is None ==> forall|j: int| 0 <= j < n ==> outcomes[j] is Ok,
    decreases n,
{
    if n > 0 {
        lemma_first_failure_bounds(outcomes, (n - 1) as nat);
    }
}

/// Only the outcomes at positions below `n` decide the first failure among them.
pub proof fn lemma_first_failure_prefix<E>(a: Seq<Result<(), E>>, b: Seq<Result<(), E>>, n: nat)
    requires
        n <= a.len(),
        n <= b.len(),
        forall|j: int| 0 <= j < n ==> a[j] == b[j],
    ensures
        first_failure(a, n) == first_failure(b, n),
    decreases n,
{
    if n > 0 {
        lemma_first_failure_prefix(a, b, (n - 1) as nat);
    }
}

impl Plan {
    /// The number of calls made when call `i` would give `outcomes[i]`:
    /// every call up to and including the first that fails.
    pub open spec fn spec_made<E>(self, outcomes: Seq<Result<(), E>>) -> nat {
        match first_failure(outcomes, self.calls@.len()) {
            Some(i) => i + 1,
            None => self.calls@.len(),
        }
    }

    /// How the instruction ends given the outcomes of its calls: with the
    /// error of the first call that failed; if none failed, as the plan says.
    pub open spec fn spec_ending_of<E>(self, outcomes: Seq<Result<(), E>>, n: nat) -> Ending {
        match first_failure(outcomes, n) {
            Some(i) => Ending::CallFailed(i as usize),
            None => match self.result {
                Ok(()) => Ending::Succeeded,
                Err(h) => Ending::Refused(h),
            },
        }
    }

    /// How the instruction ends when call `i` would give `outcomes[i]`.
    pub open spec fn spec_ending<E>(self, outcomes: Seq<Result<(), E>>) -> Ending {
        self.spec_ending_of(outcomes, self.calls@.len())
    }

    /// The call to make next, given the outcomes of the calls made so far:
    /// the next one in order while every call so far succeeded, else none.
    pub fn next_call<E>(&self, outcomes: &Vec<Result<(), E>>) -> (r: Option<TokenInstruction>)
        ensures
            r == (if outcomes@.len() < self.calls@.len() && first_failure(outcomes@, outcomes@.len()) is None {
                Some(self.calls@[outcomes@.len() as int])
            } else {
                None
            }),
    {
        if outcomes.len() >= self.calls.len() {
            return None;
        }
        let mut i: usize = 0;
        while i < outcomes.len()
            invariant
                i <= outcomes@.len(),
                first_failure(outcomes@, i as nat) is None,
            decreases outcomes@.len() - i,
        {
            if outcomes[i].is_err() {
                assert(first_failure(outcomes@, (i + 1) as nat) == Some(i as nat));
                proof { lemma_first_failure_after(outcomes@, (i + 1) as nat, outcomes@.len()); }
                return None;
            }
            i = i + 1;
        }
        Some(self.calls[outcomes.len()])
    }

    /// How the instruction ends, given the outcomes of the calls made.
    pub fn settle<E>(&self, outcomes: &Vec<Result<(), E>>) -> (r: Ending)
        ensures
            r == self.spec_ending_of(outcomes@, outcomes@.len()),
    {
        let n = outcomes.len();
        let mut i: usize = 0;
        while i < n
            invariant
                n == outcomes@.len(),
                i <= n,
                first_failure(outcomes@, i as nat) is None,
            decreases n - i,
        {
            if outcomes[i].is_err() {
                assert(first_failure(outcomes@, (i + 1) as nat) == Some(i as nat));
                proof { lemma_first_failure_after(outcomes@, (i + 1) as nat, n as nat); }
                return Ending::CallFailed(i);
            }
            i = i + 1;
        }
        match self.result {
            Ok(()) => Ending::Succeeded,
            Err(h) => Ending::Refused(h),
        }
    }
}

/// Once a failure is found among the first `m` outcomes, later outcomes do
/// not move it.
pub proof fn lemma_first_failure_after<E>(outcomes: Seq<Result<(), E>>, m: nat, n: nat)
    requires
        m <= n,
        first_failure(outcomes, m) is Some,
    ensures
        first_failure(outcomes, n) == first_failure(outcomes, m),
    decreases n - m,
{
    if m < n {
        lemma_first_failure_after(outcomes, m, (n - 1) as nat);
    }
}

/// A record written by an instruction counts only if the instruction ends
/// well.
pub open spec fn spec_commit<T>(before: T, after: T, ending: Ending) -> T {
    if ending is Succeeded { after } else { before }
}

/// The record to keep: the one written if the instruction ended well, the
/// one from before otherwise.
pub fn commit<T>(before: T, after: T, ending: Ending) -> (r: T)
    ensures
        r == spec_commit(before, after, ending),
{
    match ending {
        Ending::Succeeded => after,
        _ => before,
    }
}

/// Making calls while `next_call` offers one, each giving the outcome
/// `outcomes` holds for it, makes exactly `spec_made` calls, and `settle`
/// then gives `spec_ending`.
pub proof fn lemma_stepping_runs_the_plan<E>(plan: Plan, outcomes: Seq<Result<(), E>>)
    requires
        outcomes.len() == plan.calls@.len(),
    ensures
        forall|k: nat| k < plan.spec_made(outcomes) ==> {
            &&& k < plan.calls@.len()
            &&& #[trigger] first_failure(outcomes.take(k as int), k) is None
        },
        plan.spec_made(outcomes) <= plan.calls@.len(),
        plan.spec_made(outcomes) < plan.calls@.len() ==> first_failure(
            outcomes.take(plan.spec_made(outcomes) as int), plan.spec_made(outcomes)) is Some,
        plan.spec_ending_of(outcomes.take(plan.spec_made(outcomes) as int), plan.spec_made(outcomes))
            == plan.spec_ending(outcomes),
{
    let n = plan.calls@.len();
    let made = plan.spec_made(outcomes);
    lemma_first_failure_bounds(outcomes, n);
    assert forall|k: nat| k < made implies {
        &&& k < n
        &&& #[trigger] first_failure(outcomes.take(k as int), k) is None
    } by {
        lemma_first_failure_prefix(outcomes.take(k as int), outcomes, k);
        lemma_first_failure_bounds(outcomes, k);
        if first_failure(outcomes, k) is Some {
            lemma_first_failure_after(outcomes, k, n);
        }
    }
    lemma_first_failure_prefix(outcomes.take(made as int), outcomes, made);
    match first_failure(outcomes, n) {
        Some(i) => {
            assert(first_failure(outcomes, made) == Some(i)) by {
                lemma_first_failure_bounds(outcomes, i);
                if first_failure(outcomes, i) is Some {
                    lemma_first_failure_after(outcomes, i, n);
                }
            }
        },
        None => {},
    }
}

} // verus!
