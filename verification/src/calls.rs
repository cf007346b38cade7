//! Calls into the host that are made one after another until one fails.
use vstd::prelude::*;

verus! {

/// What comes after some calls: another one, or the end.
#[derive(Debug, PartialEq, Eq)]
pub enum Next<F> {
    /// Make the call at this place.
    Call { place: usize },
    /// No more calls; this is how they ended together.
    Ended { result: Result<(), F> },
}

/// What comes after calls of which `made` are made: the first failure ends them and
/// is handed on.
pub open spec fn after_calls<F>(total: usize, made: usize, last: Result<(), F>) -> Next<F> {
    match last {
        Err(error) => Next::Ended { result: Err(error) },
        Ok(_) => if made < total {
            Next::Call { place: made }
        } else {
            Next::Ended { result: Ok(()) }
        },
    }
}

/// What comes after calls of which `made` are made, where `last` is how the last
/// one ended.
pub fn next_call<F>(total: usize, made: usize, last: Result<(), F>) -> (next: Next<F>)
    ensures
        next == after_calls(total, made, last),
{
    match last {
        Err(error) => Next::Ended { result: Err(error) },
        Ok(()) => if made < total {
            Next::Call { place: made }
        } else {
            Next::Ended { result: Ok(()) }
        },
    }
}

/// How a call ended that is made only where there is something to make it on: where
/// it was not made, all is well.
pub open spec fn outcome_if_made<F>(made: Option<Result<(), F>>) -> Result<(), F> {
    match made {
        Some(outcome) => outcome,
        None => Ok(()),
    }
}

/// How a call ended that is made only where there is something to make it on.
pub fn optional_call<F>(made: Option<Result<(), F>>) -> (outcome: Result<(), F>)
    ensures
        outcome == outcome_if_made(made),
{
    match made {
        Some(outcome) => outcome,
        None => Ok(()),
    }
}

/// How many calls are made in all and how they end, once `made` are made and the
/// last one ended with `last`; `outcomes` holds how each call ends if it is made.
pub open spec fn run_from<F>(
    total: usize,
    made: usize,
    last: Result<(), F>,
    outcomes: Seq<Result<(), F>>,
) -> (nat, Result<(), F>)
    decreases total - made,
{
    match after_calls(total, made, last) {
        Next::Ended { result } => (made as nat, result),
        Next::Call { place } => run_from(
            total,
            (made + 1) as usize,
            outcomes[place as int],
            outcomes,
        ),
    }
}

/// How many calls are made and how they end.
pub open spec fn run_calls<F>(total: usize, outcomes: Seq<Result<(), F>>) -> (nat, Result<(), F>) {
    run_from(total, 0, Ok(()), outcomes)
}

/// Every call succeeds.
pub open spec fn all_succeed<F>(outcomes: Seq<Result<(), F>>) -> bool {
    forall|i: int| 0 <= i < outcomes.len() ==> #[trigger] outcomes[i] is Ok
}

/// The call at `at` fails, and none before it.
pub open spec fn is_first_failure<F>(outcomes: Seq<Result<(), F>>, at: int) -> bool {
    &&& 0 <= at < outcomes.len()
    &&& outcomes[at] is Err
    &&& forall|i: int| 0 <= i < at ==> #[trigger] outcomes[i] is Ok
}

proof fn lemma_run_from<F>(total: usize, made: usize, outcomes: Seq<Result<(), F>>)
    requires
        outcomes.len() == total,
        made <= total,
        forall|i: int| 0 <= i < made ==> #[trigger] outcomes[i] is Ok,
    ensures
        all_succeed(outcomes) ==> run_from(total, made, Ok(()), outcomes) == (
            total as nat,
            Ok::<(), F>(()),
        ),
        forall|at: int|
            is_first_failure(outcomes, at) ==> run_from(total, made, Ok(()), outcomes) == (
                (at + 1) as nat,
                #[trigger] outcomes[at],
            ),
        run_from(total, made, Ok(()), outcomes).1 is Ok <==> all_succeed(outcomes),
    decreases total - made,
{
    if made < total {
        reveal_with_fuel(run_from, 2);
        match outcomes[made as int] {
            Ok(_) => lemma_run_from(total, (made + 1) as usize, outcomes),
            Err(_) => {
                assert(is_first_failure(outcomes, made as int));
            },
        }
    }
}

/// Calls end well exactly when each of them does, and then all of them are made.
/// Otherwise they end as the first one that fails, and none is made after it.
pub proof fn lemma_first_failure_ends<F>(total: usize, outcomes: Seq<Result<(), F>>)
    requires
        outcomes.len() == total,
    ensures
        run_calls(total, outcomes).1 is Ok <==> all_succeed(outcomes),
        all_succeed(outcomes) ==> run_calls(total, outcomes) == (total as nat, Ok::<(), F>(())),
        forall|at: int|
            is_first_failure(outcomes, at) ==> run_calls(total, outcomes) == (
                (at + 1) as nat,
                #[trigger] outcomes[at],
            ),
{
    lemma_run_from(total, 0, outcomes);
}

} // verus!
