//! Outcomes that are taken one after another until the first failure.

use vstd::prelude::*;

verus! {

/// Whether outcome `i` is a failure and none before it is.
pub open spec fn is_first_failure<R, E>(outcomes: Seq<Result<R, E>>, i: int) -> bool {
    &&& 0 <= i < outcomes.len()
    &&& outcomes[i] is Err
    &&& forall|k: int| 0 <= k < i ==> (#[trigger] outcomes[k]) is Ok
}

/// The results of all outcomes in their order, or the error of the first
/// outcome that is a failure.
pub open spec fn gathered<R, E>(outcomes: Seq<Result<R, E>>) -> Result<Seq<R>, E> {
    if exists|i: int| is_first_failure(outcomes, i) {
        Err(outcomes[choose|i: int| is_first_failure(outcomes, i)]->Err_0)
    } else {
        Ok(Seq::new(outcomes.len(), |i: int| outcomes[i]->Ok_0))
    }
}

/// A failure with no failure before it decides the whole.
pub proof fn lemma_gathered_err<R, E>(outcomes: Seq<Result<R, E>>, i: int)
    requires
        is_first_failure(outcomes, i),
    ensures
        gathered(outcomes) == Err::<Seq<R>, E>(outcomes[i]->Err_0),
{
    let j = choose|j: int| is_first_failure(outcomes, j);
    if j < i {
        assert(outcomes[j] is Ok);
    }
    if i < j {
        assert(outcomes[i] is Ok);
    }
}

/// Where no outcome is a failure, the whole is the list of the results.
pub proof fn lemma_gathered_ok<R, E>(outcomes: Seq<Result<R, E>>, results: Seq<R>)
    requires
        results.len() == outcomes.len(),
        forall|i: int|
            0 <= i < outcomes.len() ==> (#[trigger] outcomes[i]) == Ok::<R, E>(results[i]),
    ensures
        gathered(outcomes) == Ok::<Seq<R>, E>(results),
{
    if exists|i: int| is_first_failure(outcomes, i) {
        let j = choose|j: int| is_first_failure(outcomes, j);
        assert(outcomes[j] is Ok);
    }
    assert(Seq::new(outcomes.len(), |i: int| outcomes[i]->Ok_0) =~= results);
}

/// The whole is a list of results exactly as long as the list of outcomes.
pub proof fn lemma_gathered_len<R, E>(outcomes: Seq<Result<R, E>>)
    ensures
        gathered(outcomes) matches Ok(results) ==> results.len() == outcomes.len() && forall|
            i: int,
        |
            0 <= i < outcomes.len() ==> (#[trigger] outcomes[i]) == Ok::<R, E>(results[i]),
{
    if !(exists|i: int| is_first_failure(outcomes, i)) {
        assert forall|i: int| 0 <= i < outcomes.len() implies (#[trigger] outcomes[i]) is Ok by {
            lemma_failure_has_first(outcomes, i);
        }
    }
}

/// Before or at any failure there is a first one.
pub proof fn lemma_failure_has_first<R, E>(outcomes: Seq<Result<R, E>>, i: int)
    requires
        0 <= i < outcomes.len(),
    ensures
        outcomes[i] is Err ==> exists|j: int| is_first_failure(outcomes, j),
    decreases i,
{
    if outcomes[i] is Err {
        if exists|k: int| 0 <= k < i && (#[trigger] outcomes[k]) is Err {
            let k = choose|k: int| 0 <= k < i && (#[trigger] outcomes[k]) is Err;
            lemma_failure_has_first(outcomes, k);
        } else {
            assert(is_first_failure(outcomes, i));
        }
    }
}

} // verus!
