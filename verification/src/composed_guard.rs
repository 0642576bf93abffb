//! Composed guards for operations that need several authorization checks.
//!
//! Guards run in a strict, deterministic order, and the run stops at the
//! first guard that fails (fail-fast): its error is the result and no later
//! guard runs. Every guard reports the same [`Error`] type.

use vstd::prelude::*;

use crate::address::Address;
use crate::admin_guard;
use crate::admin_guard::admin_check;
use crate::caller_guard;
use crate::errors::Error;

verus! {

/// Result type for guard operations.
pub type GuardResult = Result<(), Error>;

/// The result of running, in order and stopping at the first failure,
/// guards whose outcomes are `outcomes`: the first error, or `Ok(())`
/// when every guard passes.
pub open spec fn first_failure(outcomes: Seq<GuardResult>) -> GuardResult
    decreases outcomes.len(),
{
    if outcomes.len() == 0 {
        Ok(())
    } else {
        match outcomes[0] {
            Ok(_) => first_failure(outcomes.drop_first()),
            Err(e) => Err(e),
        }
    }
}

/// The guards in `guards` are deterministic, and the `i`-th of them can
/// only answer `outcomes[i]`.
pub open spec fn guards_yield<F: Fn() -> GuardResult>(guards: Seq<F>, outcomes: Seq<GuardResult>) -> bool {
    &&& guards.len() == outcomes.len()
    &&& forall|i: int, r: GuardResult|
        0 <= i < guards.len() && #[trigger] call_ensures(guards[i], (), r) ==> r == outcomes[i]
}

/// Execute a composed guard check for caller identity followed by the
/// administrator check, stopping at the first failure.
///
/// `stored_admin` is the administrator held in the contract's instance
/// storage. Every caller passes the caller check, so the result is that
/// of the administrator guard.
pub fn require_caller_and_admin(stored_admin: &Option<Address>, caller: &Address) -> (r: GuardResult)
    ensures
        r == first_failure(seq![Ok::<(), Error>(()), admin_check(*stored_admin, *caller)]),
        r == admin_check(*stored_admin, *caller),
        stored_admin is None ==> r == Err::<(), Error>(Error::NotInitialized),
        forall|admin: Address| *stored_admin == Some(admin) ==> {
            &&& (r == Ok::<(), Error>(())) <==> (caller@ == admin@)
            &&& caller@ != admin@ ==> r == Err::<(), Error>(Error::UnauthorizedAdmin)
        },
{
    proof {
        reveal_with_fuel(first_failure, 3);
    }
    caller_guard::require_caller(caller)?;
    admin_guard::require_admin(stored_admin, caller)?;
    Ok(())
}

/// When the first `k` outcomes pass, running the outcomes is running what
/// follows them.
proof fn lemma_first_failure_skip_passes(outcomes: Seq<GuardResult>, k: int)
    requires
        0 <= k <= outcomes.len(),
        forall|j: int| 0 <= j < k ==> outcomes[j] == Ok::<(), Error>(()),
    ensures
        first_failure(outcomes) == first_failure(outcomes.subrange(k, outcomes.len() as int)),
    decreases k,
{
    if k > 0 {
        let rest = outcomes.drop_first();
        assert forall|j: int| 0 <= j < k - 1 implies rest[j] == Ok::<(), Error>(()) by {
            assert(rest[j] == outcomes[j + 1]);
        }
        lemma_first_failure_skip_passes(rest, k - 1);
        assert(rest.subrange(k - 1, rest.len() as int) =~= outcomes.subrange(k, outcomes.len() as int));
    } else {
        assert(outcomes.subrange(0, outcomes.len() as int) =~= outcomes);
    }
}

/// Execute a series of guard checks in sequence.
///
/// Guards run in the order in which they appear in the slice; the first
/// guard that fails stops the run and its error is returned, and no later
/// guard runs. With no guards, or when every guard passes, the result is
/// `Ok(())`.
pub fn execute_guards<F: Fn() -> GuardResult>(guards: &[F]) -> (r: GuardResult)
    requires
        forall|i: int| 0 <= i < guards@.len() ==> call_requires(#[trigger] guards@[i], ()),
    ensures
        r is Ok ==> forall|i: int|
            0 <= i < guards@.len() ==> call_ensures(#[trigger] guards@[i], (), Ok::<(), Error>(())),
        r is Err ==> exists|k: int|
            #![trigger guards@[k]]
            0 <= k < guards@.len() && call_ensures(guards@[k], (), r) && forall|j: int|
                0 <= j < k ==> call_ensures(#[trigger] guards@[j], (), Ok::<(), Error>(())),
        forall|outcomes: Seq<GuardResult>| #[trigger] guards_yield(guards@, outcomes) ==> r == first_failure(outcomes),
{
    let n = guards.len();
    let mut i: usize = 0;
    while i < n
        invariant
            n == guards@.len(),
            i <= n,
            forall|j: int| 0 <= j < guards@.len() ==> call_requires(#[trigger] guards@[j], ()),
            forall|j: int| 0 <= j < i ==> call_ensures(#[trigger] guards@[j], (), Ok::<(), Error>(())),
        decreases n - i,
    {
        let guard = &guards[i];
        let outcome = guard();
        match outcome {
            Ok(u) => {
                assert(u == ());
            },
            Err(e) => {
                proof {
                    assert forall|outcomes: Seq<GuardResult>| #[trigger] guards_yield(guards@, outcomes)
                        implies Err::<(), Error>(e) == first_failure(outcomes) by {
                        assert forall|j: int| 0 <= j < i implies outcomes[j] == Ok::<(), Error>(()) by {
                            assert(call_ensures(guards@[j], (), Ok::<(), Error>(())));
                        }
                        assert(call_ensures(guards@[i as int], (), Err::<(), Error>(e)));
                        lemma_first_failure_fails_fast(outcomes, i as int, e);
                    }
                }
                return Err(e);
            },
        }
        i = i + 1;
    }
    proof {
        assert forall|outcomes: Seq<GuardResult>| #[trigger] guards_yield(guards@, outcomes)
            implies Ok::<(), Error>(()) == first_failure(outcomes) by {
            assert forall|j: int| 0 <= j < outcomes.len() implies outcomes[j] == Ok::<(), Error>(()) by {
                assert(call_ensures(guards@[j], (), Ok::<(), Error>(())));
            }
            lemma_first_failure_passes_iff_all_pass(outcomes);
        }
    }
    Ok(())
}

/// Running two lists of guards one after the other is running their
/// concatenation: the second list runs only when every guard of the first
/// has passed, and the first failure decides.
pub proof fn lemma_first_failure_append(a: Seq<GuardResult>, b: Seq<GuardResult>)
    ensures
        first_failure(a + b) == match first_failure(a) {
            Ok(()) => first_failure(b),
            Err(e) => Err::<(), Error>(e),
        },
    decreases a.len(),
{
    if a.len() > 0 {
        assert((a + b).drop_first() =~= a.drop_first() + b);
        lemma_first_failure_append(a.drop_first(), b);
    } else {
        assert(a + b =~= b);
    }
}

/// Fail-fast: the result is the error of the first failing guard, whatever
/// the guards after it would answer.
pub proof fn lemma_first_failure_fails_fast(outcomes: Seq<GuardResult>, k: int, e: Error)
    requires
        0 <= k < outcomes.len(),
        forall|j: int| 0 <= j < k ==> outcomes[j] == Ok::<(), Error>(()),
        outcomes[k] == Err::<(), Error>(e),
    ensures
        first_failure(outcomes) == Err::<(), Error>(e),
{
    lemma_first_failure_skip_passes(outcomes, k);
    assert(outcomes.subrange(k, outcomes.len() as int)[0] == outcomes[k]);
}

/// A run passes exactly when every guard passes.
pub proof fn lemma_first_failure_passes_iff_all_pass(outcomes: Seq<GuardResult>)
    ensures
        (first_failure(outcomes) == Ok::<(), Error>(())) <==> (forall|j: int|
            0 <= j < outcomes.len() ==> outcomes[j] == Ok::<(), Error>(())),
    decreases outcomes.len(),
{
    if outcomes.len() > 0 {
        let rest = outcomes.drop_first();
        lemma_first_failure_passes_iff_all_pass(rest);
        match outcomes[0] {
            Ok(u) => {
                assert(u == ());
                assert(first_failure(outcomes) == first_failure(rest));
                if first_failure(outcomes) == Ok::<(), Error>(()) {
                    assert forall|j: int| 0 <= j < outcomes.len() implies outcomes[j] == Ok::<(), Error>(()) by {
                        if j > 0 {
                            assert(outcomes[j] == rest[j - 1]);
                        }
                    }
                }
                if forall|j: int| 0 <= j < outcomes.len() ==> outcomes[j] == Ok::<(), Error>(()) {
                    assert forall|j: int| 0 <= j < rest.len() implies rest[j] == Ok::<(), Error>(()) by {
                        assert(rest[j] == outcomes[j + 1]);
                    }
                }
            },
            Err(e) => {
                assert(first_failure(outcomes) == Err::<(), Error>(e));
            },
        }
    }
}

} // verus!
