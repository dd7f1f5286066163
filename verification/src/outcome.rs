use crate::error::ScrapeError;
use vstd::prelude::*;

verus! {

/// Whether `results[i]` is a failure and nothing before it is.
pub open spec fn is_first_failure<T>(results: Seq<Result<T, ScrapeError>>, i: int) -> bool {
    &&& 0 <= i < results.len()
    &&& results[i] is Err
    &&& forall|j: int| 0 <= j < i ==> results[j] is Ok
}

/// All the values of `results` in order where none of them failed, else the
/// first failure among them.
pub open spec fn gather<T>(results: Seq<Result<T, ScrapeError>>) -> Result<Seq<T>, ScrapeError> {
    if exists|i: int| is_first_failure(results, i) {
        Err(results[choose|i: int| is_first_failure(results, i)]->Err_0)
    } else {
        Ok(results.map_values(|r: Result<T, ScrapeError>| r->Ok_0))
    }
}

/// There is at most one first failure.
pub proof fn lemma_first_failure_unique<T>(results: Seq<Result<T, ScrapeError>>, i: int, j: int)
    requires
        is_first_failure(results, i),
        is_first_failure(results, j),
    ensures
        i == j,
{
    if i < j {
        assert(results[i] is Ok);
    }
    if j < i {
        assert(results[j] is Ok);
    }
}

/// Where `results[i]` is the first failure, gathering fails with it.
pub proof fn lemma_gather_failure<T>(results: Seq<Result<T, ScrapeError>>, i: int)
    requires
        is_first_failure(results, i),
    ensures
        gather(results) == Err::<Seq<T>, ScrapeError>(results[i]->Err_0),
{
    let chosen = choose|k: int| is_first_failure(results, k);
    lemma_first_failure_unique(results, i, chosen);
}

/// Where nothing failed, gathering gives the values in order.
pub proof fn lemma_gather_values<T>(results: Seq<Result<T, ScrapeError>>, values: Seq<T>)
    requires
        values.len() == results.len(),
        forall|i: int| 0 <= i < results.len() ==> results[i] == Ok::<T, ScrapeError>(values[i]),
    ensures
        gather(results) == Ok::<Seq<T>, ScrapeError>(values),
{
    assert forall|k: int| !is_first_failure(results, k) by {
        if 0 <= k < results.len() {
            assert(results[k] is Ok);
        }
    }
    assert(results.map_values(|r: Result<T, ScrapeError>| r->Ok_0) =~= values);
}

} // verus!
