//! A left fold that stops at the first error, and what holds of it on
//! prefixes of the sequence.

use vstd::prelude::*;

verus! {

/// Folds `items` from the left, starting at `start`. The first step that
/// fails ends the fold with its error.
pub open spec fn fold_until_error<S, A, E>(
    items: Seq<A>,
    start: S,
    step: spec_fn(S, A) -> Result<S, E>,
) -> Result<S, E>
    decreases items.len(),
{
    if items.len() == 0 {
        Ok(start)
    } else {
        match fold_until_error(items.drop_last(), start, step) {
            Err(e) => Err(e),
            Ok(state) => step(state, items.last()),
        }
    }
}

/// The fold over the first `k + 1` items is one step after the fold over the
/// first `k`.
pub proof fn lemma_fold_one_more<S, A, E>(
    items: Seq<A>,
    start: S,
    step: spec_fn(S, A) -> Result<S, E>,
    k: int,
)
    requires
        0 <= k < items.len(),
    ensures
        fold_until_error(items.take(k + 1), start, step) == match fold_until_error(
            items.take(k),
            start,
            step,
        ) {
            Err(e) => Err(e),
            Ok(state) => step(state, items[k]),
        },
{
    assert(items.take(k + 1).drop_last() =~= items.take(k));
    assert(items.take(k + 1).last() == items[k]);
}

/// Once the fold has failed on a prefix, it fails in the same way on the
/// whole sequence.
pub proof fn lemma_fold_error_persists<S, A, E>(
    items: Seq<A>,
    start: S,
    step: spec_fn(S, A) -> Result<S, E>,
    k: int,
)
    requires
        0 <= k <= items.len(),
        fold_until_error(items.take(k), start, step) is Err,
    ensures
        fold_until_error(items, start, step) == fold_until_error(items.take(k), start, step),
    decreases items.len() - k,
{
    if k == items.len() {
        assert(items.take(k) =~= items);
    } else {
        lemma_fold_one_more(items, start, step, k);
        lemma_fold_error_persists(items, start, step, k + 1);
    }
}

/// A fold that succeeds has succeeded on every prefix.
pub proof fn lemma_fold_ok_on_prefixes<S, A, E>(
    items: Seq<A>,
    start: S,
    step: spec_fn(S, A) -> Result<S, E>,
    k: int,
)
    requires
        0 <= k <= items.len(),
        fold_until_error(items, start, step) is Ok,
    ensures
        fold_until_error(items.take(k), start, step) is Ok,
{
    if fold_until_error(items.take(k), start, step) is Err {
        lemma_fold_error_persists(items, start, step, k);
    }
}

/// Induction over a fold that succeeds: what holds of the start, and is kept
/// by every step that succeeds, holds of the result. `kept(k, state)` speaks
/// of the state reached after the first `k` items.
pub proof fn lemma_fold_keeps<S, A, E>(
    items: Seq<A>,
    start: S,
    step: spec_fn(S, A) -> Result<S, E>,
    kept: spec_fn(int, S) -> bool,
)
    requires
        kept(0, start),
        forall|k: int, state: S|
            0 <= k < items.len() && #[trigger] kept(k, state) && step(state, items[k]) is Ok
                ==> kept(k + 1, step(state, items[k])->Ok_0),
        fold_until_error(items, start, step) is Ok,
    ensures
        kept(items.len() as int, fold_until_error(items, start, step)->Ok_0),
{
    lemma_fold_keeps_on_prefix(items, start, step, kept, items.len() as int);
    assert(items.take(items.len() as int) =~= items);
}

/// The same induction, stopped after the first `n` items.
pub proof fn lemma_fold_keeps_on_prefix<S, A, E>(
    items: Seq<A>,
    start: S,
    step: spec_fn(S, A) -> Result<S, E>,
    kept: spec_fn(int, S) -> bool,
    n: int,
)
    requires
        0 <= n <= items.len(),
        kept(0, start),
        forall|k: int, state: S|
            0 <= k < items.len() && #[trigger] kept(k, state) && step(state, items[k]) is Ok
                ==> kept(k + 1, step(state, items[k])->Ok_0),
        fold_until_error(items, start, step) is Ok,
    ensures
        fold_until_error(items.take(n), start, step) is Ok,
        kept(n, fold_until_error(items.take(n), start, step)->Ok_0),
    decreases n,
{
    lemma_fold_ok_on_prefixes(items, start, step, n);
    if n == 0 {
        assert(items.take(0).len() == 0);
    } else {
        lemma_fold_keeps_on_prefix(items, start, step, kept, n - 1);
        lemma_fold_one_more(items, start, step, n - 1);
        let before = fold_until_error(items.take(n - 1), start, step)->Ok_0;
        assert(kept(n - 1, before));
    }
}

/// Induction that shows a fold to succeed: when what holds of the start lets
/// every step succeed and is kept by it, the fold succeeds and the same
/// holds of its result.
pub proof fn lemma_fold_succeeds<S, A, E>(
    items: Seq<A>,
    start: S,
    step: spec_fn(S, A) -> Result<S, E>,
    kept: spec_fn(int, S) -> bool,
    n: int,
)
    requires
        0 <= n <= items.len(),
        kept(0, start),
        forall|k: int, state: S|
            0 <= k < items.len() && #[trigger] kept(k, state) ==> step(state, items[k]) is Ok
                && kept(k + 1, step(state, items[k])->Ok_0),
    ensures
        fold_until_error(items.take(n), start, step) is Ok,
        kept(n, fold_until_error(items.take(n), start, step)->Ok_0),
    decreases n,
{
    if n == 0 {
        assert(items.take(0).len() == 0);
    } else {
        lemma_fold_succeeds(items, start, step, kept, n - 1);
        lemma_fold_one_more(items, start, step, n - 1);
        let before = fold_until_error(items.take(n - 1), start, step)->Ok_0;
        assert(kept(n - 1, before));
    }
}

} // verus!
