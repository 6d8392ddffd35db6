//! Folding a sequence of results into the sequence of their items, failing at
//! the first failure, and the facts about that fold that the proofs use.
use vstd::prelude::*;

verus! {

/// The items of `rs` when all of them succeed; otherwise the first failure.
pub open spec fn collect<A>(rs: Seq<Result<A, Seq<char>>>) -> Result<Seq<A>, Seq<char>>
    decreases rs.len(),
{
    if rs.len() == 0 {
        Ok(Seq::empty())
    } else {
        match collect(rs.drop_last()) {
            Err(m) => Err(m),
            Ok(items) => match rs.last() {
                Err(m) => Err(m),
                Ok(a) => Ok(items.push(a)),
            },
        }
    }
}

/// One more item: how the fold of the first `i + 1` items follows from
/// that of the first `i`.
pub proof fn lemma_collect_step<A>(rs: Seq<Result<A, Seq<char>>>, i: int)
    requires
        0 <= i < rs.len(),
    ensures
        collect(rs.take(i + 1)) == match collect(rs.take(i)) {
            Err(m) => Err(m),
            Ok(items) => match rs[i] {
                Err(m) => Err(m),
                Ok(a) => Ok(items.push(a)),
            },
        },
{
    assert(rs.take(i + 1).drop_last() =~= rs.take(i));
}

/// Once a prefix fails, the whole sequence fails with the same message.
pub proof fn lemma_collect_err_sticks<A>(rs: Seq<Result<A, Seq<char>>>, i: int)
    requires
        0 <= i <= rs.len(),
        collect(rs.take(i)) is Err,
    ensures
        collect(rs) == collect(rs.take(i)),
    decreases rs.len(),
{
    if i == rs.len() {
        assert(rs.take(i) =~= rs);
    } else {
        assert(rs.drop_last().take(i) =~= rs.take(i));
        lemma_collect_err_sticks(rs.drop_last(), i);
    }
}

/// A successful fold has one item per result, each the one it succeeded with.
pub proof fn lemma_collect_ok<A>(rs: Seq<Result<A, Seq<char>>>, items: Seq<A>)
    requires
        collect(rs) == Ok::<Seq<A>, Seq<char>>(items),
    ensures
        items.len() == rs.len(),
        forall|i: int| 0 <= i < rs.len() ==> #[trigger] rs[i] == Ok::<A, Seq<char>>(items[i]),
    decreases rs.len(),
{
    if rs.len() > 0 {
        let prev = collect(rs.drop_last());
        assert(prev is Ok);
        lemma_collect_ok(rs.drop_last(), prev->Ok_0);
        assert forall|i: int| 0 <= i < rs.len() implies #[trigger] rs[i] == Ok::<A, Seq<char>>(items[i]) by {
            if i < rs.len() - 1 {
                assert(rs[i] == rs.drop_last()[i]);
            }
        }
    }
}

/// A single failing result makes the fold fail.
pub proof fn lemma_collect_err_at<A>(rs: Seq<Result<A, Seq<char>>>, i: int)
    requires
        0 <= i < rs.len(),
        rs[i] is Err,
    ensures
        collect(rs) is Err,
    decreases rs.len(),
{
    if i < rs.len() - 1 {
        assert(rs.drop_last()[i] == rs[i]);
        lemma_collect_err_at(rs.drop_last(), i);
    }
}

/// The message of a failed fold is that of one of the results.
pub proof fn lemma_collect_err_from<A>(rs: Seq<Result<A, Seq<char>>>, m: Seq<char>)
    requires
        collect(rs) == Err::<Seq<A>, Seq<char>>(m),
    ensures
        exists|i: int| 0 <= i < rs.len() && #[trigger] rs[i] == Err::<A, Seq<char>>(m),
    decreases rs.len(),
{
    if collect(rs.drop_last()) is Err {
        lemma_collect_err_from(rs.drop_last(), m);
        let i = choose|i: int| 0 <= i < rs.drop_last().len() && #[trigger] rs.drop_last()[i] == Err::<A, Seq<char>>(m);
        assert(rs[i] == rs.drop_last()[i]);
    } else {
        assert(rs[rs.len() - 1] == Err::<A, Seq<char>>(m));
    }
}

/// A prefix of successful results folds successfully.
pub proof fn lemma_collect_prefix_ok<A>(rs: Seq<Result<A, Seq<char>>>, i: int)
    requires
        0 <= i <= rs.len(),
        forall|j: int| 0 <= j < i ==> #[trigger] rs[j] is Ok,
    ensures
        collect(rs.take(i)) is Ok,
    decreases i,
{
    if i > 0 {
        lemma_collect_prefix_ok(rs, i - 1);
        lemma_collect_step(rs, i - 1);
    }
}

/// The fold fails with the message of the first failing result.
pub proof fn lemma_collect_first_err<A>(rs: Seq<Result<A, Seq<char>>>, i: int)
    requires
        0 <= i < rs.len(),
        forall|j: int| 0 <= j < i ==> #[trigger] rs[j] is Ok,
        rs[i] is Err,
    ensures
        collect(rs) == Err::<Seq<A>, Seq<char>>(rs[i]->Err_0),
{
    lemma_collect_prefix_ok(rs, i);
    lemma_collect_step(rs, i);
    lemma_collect_err_sticks(rs, i + 1);
}

} // verus!
