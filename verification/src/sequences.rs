//! Facts about sequences that more than one module needs.

use vstd::prelude::*;

verus! {

/// Filtering one element more keeps it or not, and changes nothing of
/// what was kept before.
pub proof fn lemma_filter_next<T>(items: Seq<T>, done: int, keep: spec_fn(T) -> bool)
    requires
        0 <= done < items.len(),
    ensures
        items.take(done + 1).filter(keep) == if keep(items[done]) {
            items.take(done).filter(keep).push(items[done])
        } else {
            items.take(done).filter(keep)
        },
{
    reveal(Seq::filter);
    assert(items.take(done + 1).drop_last() =~= items.take(done));
    assert(items.take(done + 1).last() == items[done]);
}

/// Keeps the items that `keep` accepts, in their order, where `kept` says
/// what `keep` computes.
pub(crate) fn retain_by<T, F: Fn(&T) -> bool>(
    items: &mut Vec<T>,
    keep: F,
    Ghost(kept): Ghost<spec_fn(T) -> bool>,
)
    requires
        forall|item: &T| #[trigger] keep.requires((item,)),
        forall|item: &T, answer: bool| #[trigger]
            keep.ensures((item,), answer) ==> answer == kept(*item),
    ensures
        final(items)@ == old(items)@.filter(kept),
{
    let ghost before = items@;
    let ghost mut done: int = 0;
    let mut at: usize = 0;
    assert(before.take(0).filter(kept) =~= items@.take(0)) by {
        reveal(Seq::filter);
    }
    while at < items.len()
        invariant
            0 <= at <= items@.len(),
            0 <= done <= before.len(),
            items@.len() - at == before.len() - done,
            items@.take(at as int) == before.take(done).filter(kept),
            items@.skip(at as int) == before.skip(done),
            forall|item: &T| #[trigger] keep.requires((item,)),
            forall|item: &T, answer: bool| #[trigger]
                keep.ensures((item,), answer) ==> answer == kept(*item),
        decreases items@.len() - at,
    {
        proof {
            lemma_filter_next(before, done, kept);
            assert(items@[at as int] == items@.skip(at as int)[0]);
            assert(before[done] == before.skip(done)[0]);
        }
        let ghost here = items@;
        if keep(&items[at]) {
            proof {
                assert(here.take(at + 1) =~= here.take(at as int).push(here[at as int]));
                assert(here.skip(at + 1) =~= here.skip(at as int).drop_first());
                assert(before.skip(done + 1) =~= before.skip(done).drop_first());
                done = done + 1;
            }
            at += 1;
        } else {
            items.remove(at);
            proof {
                assert(items@.take(at as int) =~= here.take(at as int));
                assert(items@.skip(at as int) =~= here.skip(at as int).drop_first());
                assert(before.skip(done + 1) =~= before.skip(done).drop_first());
                done = done + 1;
            }
        }
    }
    assert(items@.take(at as int) =~= items@);
    assert(before.take(done) =~= before);
}

} // verus!
