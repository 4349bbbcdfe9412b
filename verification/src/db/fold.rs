//! Folding the results of a batch into one success or failure.

use vstd::prelude::*;

verus! {

/// The position of the first failure in `results`, if there is one.
pub open spec fn first_failure<U, T>(results: Seq<Result<U, T>>) -> Option<int>
    decreases results.len(),
{
    if results.len() == 0 {
        None
    } else if results[0] is Err {
        Some(0)
    } else {
        match first_failure(results.drop_first()) {
            Some(i) => Some(i + 1),
            None => None,
        }
    }
}

/// `first_failure` names a failure that no failure precedes, and is `None`
/// only where every result is a success.
pub proof fn lemma_first_failure<U, T>(results: Seq<Result<U, T>>)
    ensures
        match first_failure(results) {
            Some(i) => 0 <= i < results.len() && results[i] is Err && forall|j: int|
                0 <= j < i ==> #[trigger] results[j] is Ok,
            None => forall|j: int| 0 <= j < results.len() ==> #[trigger] results[j] is Ok,
        },
    decreases results.len(),
{
    if results.len() > 0 && results[0] is Ok {
        let rest = results.drop_first();
        lemma_first_failure(rest);
        match first_failure(rest) {
            Some(i) => {
                assert forall|j: int| 0 <= j < i + 1 implies #[trigger] results[j] is Ok by {
                    if j > 0 {
                        assert(results[j] == rest[j - 1]);
                    }
                }
            },
            None => {
                assert forall|j: int| 0 <= j < results.len() implies #[trigger] results[j] is Ok by {
                    if j > 0 {
                        assert(results[j] == rest[j - 1]);
                    }
                }
            },
        }
    }
}

/// Folds a batch of results into one: success where every item succeeded,
/// otherwise the error of the first item that failed.
pub fn fold_result<U, T>(results: Vec<Result<U, T>>) -> (folded: Result<(), T>)
    ensures
        match first_failure(results@) {
            Some(i) => folded is Err && results@[i] is Err && folded->Err_0 == results@[i]->Err_0,
            None => folded is Ok,
        },
{
    let ghost all = results@;
    let mut results = results;
    let mut folded: Result<(), T> = Ok(());
    while results.len() > 0
        invariant
            results@.len() <= all.len(),
            results@ == all.take(results@.len() as int),
            match first_failure(all.skip(results@.len() as int)) {
                Some(i) => folded is Err && all[results@.len() + i] is Err && folded->Err_0
                    == all[results@.len() + i]->Err_0,
                None => folded is Ok,
            },
        decreases results@.len(),
    {
        let ghost n = results@.len() as int;
        let item = results.pop();
        proof {
            assert(all.skip(n - 1).drop_first() =~= all.skip(n));
            assert(all.skip(n - 1)[0] == all[n - 1]);
        }
        match item {
            Some(Err(error)) => {
                folded = Err(error);
            },
            _ => {},
        }
    }
    proof {
        assert(all.skip(0) =~= all);
    }
    folded
}

} // verus!
