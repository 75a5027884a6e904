//! Properties of sequences of bucket operations, proved over the model.

use vstd::prelude::*;

use crate::model::{stamps_ordered, BucketView};

verus! {

/// Adding items one by one while the items stay within their limit appends
/// each of them at the tail and touches nothing else.
pub proof fn lemma_add_each_appends<T>(b: BucketView<T>, xs: Seq<T>)
    requires
        b.items.len() + xs.len() <= b.items_limit,
    ensures
        b.add_each(xs) == (BucketView { items: b.items + xs, ..b }),
    decreases xs.len(),
{
    if xs.len() == 0 {
        assert(b.items + xs =~= b.items);
    } else {
        lemma_add_each_appends(b, xs.drop_last());
        assert((b.items + xs.drop_last()).push(xs.last()) =~= b.items + xs);
    }
}

/// Polling while the items are non-empty and under their limit removes them
/// from the front one per poll; while the history stays under its limit,
/// each poll appends exactly one entry to it.
pub proof fn lemma_poll_each_drains<T>(b: BucketView<T>, copies: Seq<T>, times: Seq<i64>)
    requires
        copies.len() == times.len(),
        copies.len() <= b.items.len(),
        b.items.len() < b.items_limit,
    ensures
        b.poll_each(copies, times).items == b.items.skip(copies.len() as int),
        b.poll_each(copies, times).name == b.name,
        b.poll_each(copies, times).items_limit == b.items_limit,
        b.poll_each(copies, times).history_limit == b.history_limit,
        b.history.len() + copies.len() <= b.history_limit ==> {
            &&& b.poll_each(copies, times).history.len() == b.history.len() + copies.len()
            &&& b.poll_each(copies, times).history.subrange(0, b.history.len() as int)
                == b.history
        },
    decreases copies.len(),
{
    if copies.len() == 0 {
        assert(b.items.skip(0) =~= b.items);
        assert(b.history.subrange(0, b.history.len() as int) =~= b.history);
    } else {
        lemma_poll_each_drains(b, copies.drop_last(), times.drop_last());
        let m = b.poll_each(copies.drop_last(), times.drop_last());
        assert(m.items.len() > 0);
        assert(m.items.drop_first() =~= b.items.skip(copies.len() as int));
        if b.history.len() + copies.len() <= b.history_limit {
            assert(!m.history_reached());
            let a = b.poll_each(copies, times);
            assert(a.history.subrange(0, b.history.len() as int) =~= m.history.subrange(
                0,
                b.history.len() as int,
            ));
        }
    }
}

/// Items added one by one to an empty bucket, while under the items limit,
/// come back from polls in the order they were added; once all of them have
/// been polled, a poll finds nothing.
pub proof fn lemma_fifo<T>(b: BucketView<T>, xs: Seq<T>, copies: Seq<T>, times: Seq<i64>)
    requires
        b.items.len() == 0,
        xs.len() < b.items_limit,
        copies.len() == times.len(),
        copies.len() <= xs.len(),
    ensures
        b.add_each(xs).items == xs,
        forall|k: int|
            0 <= k < copies.len() ==> #[trigger] b.add_each(xs).poll_each(
                copies.take(k),
                times.take(k),
            ).polled() == Some(xs[k]),
        b.add_each(xs).poll_each(copies, times).items == xs.skip(copies.len() as int),
        copies.len() == xs.len() ==> b.add_each(xs).poll_each(copies, times).polled() is None,
{
    lemma_add_each_appends(b, xs);
    let full = b.add_each(xs);
    assert(full.items =~= xs);
    assert forall|k: int| 0 <= k < copies.len() implies #[trigger] full.poll_each(
        copies.take(k),
        times.take(k),
    ).polled() == Some(xs[k]) by {
        lemma_poll_each_drains(full, copies.take(k), times.take(k));
    }
    lemma_poll_each_drains(full, copies, times);
}

/// A poll that hands back an item adds exactly one history entry, holding
/// that item's duplicate and an epoch second no earlier than `now` nor than
/// the entry before it; when the history limit is reached the history is
/// wiped first. A poll that hands back nothing leaves the history alone.
pub proof fn lemma_poll_records_one_entry<T>(b: BucketView<T>, copy: T, now: i64)
    ensures
        b.polled() is None ==> b.poll(copy, now).history == b.history,
        b.polled() is Some && !b.history_reached() ==> {
            &&& b.poll(copy, now).history.len() == b.history.len() + 1
            &&& b.poll(copy, now).history.drop_last() == b.history
        },
        b.polled() is Some && b.history_reached() ==> b.poll(copy, now).history.len() == 1,
        b.polled() is Some ==> {
            &&& b.poll(copy, now).history.last().0 == seq![copy]
            &&& b.poll(copy, now).history.last().1 >= now
        },
        b.polled() is Some && !b.history_reached() && b.history.len() > 0 ==> b.poll(
            copy,
            now,
        ).history.last().1 >= b.history.last().1,
        stamps_ordered(b.history) ==> stamps_ordered(b.poll(copy, now).history),
{
    if b.polled() is Some {
        let a = b.poll(copy, now);
        let g = b.guard_history();
        assert(a.history.drop_last() =~= g.history);
    }
}

/// Undoing removes only the most recent history entry, so the epoch seconds
/// of the history stay in order.
pub proof fn lemma_undo_keeps_stamps_ordered<T>(b: BucketView<T>)
    requires
        stamps_ordered(b.history),
    ensures
        stamps_ordered(b.undo().history),
{
}

/// An undo right after a poll that handed back an item puts that item's
/// duplicate back at the tail of the remaining items and removes the entry
/// the poll recorded; an undo on an empty history changes nothing.
pub proof fn lemma_undo_after_poll<T>(b: BucketView<T>, copy: T, now: i64)
    ensures
        b.polled() is Some ==> {
            &&& b.poll(copy, now).undo().items == b.items.drop_first().push(copy)
            &&& b.poll(copy, now).undo().history.len() == b.poll(copy, now).history.len() - 1
            &&& b.poll(copy, now).undo().history == b.poll(copy, now).history.drop_last()
        },
        b.history.len() == 0 ==> b.undo() == b,
{
}

/// With the items limit set to `n` on a bucket without items, adding `n`
/// items one by one keeps all of them, and adding one more wipes them all.
pub proof fn lemma_items_limit_wipes<T>(b: BucketView<T>, n: i64, xs: Seq<T>, x: T)
    requires
        b.items.len() == 0,
        xs.len() == n,
    ensures
        b.set_items_limit(n).add_each(xs).items == xs,
        b.set_items_limit(n).add_each(xs).add_item(x).items.len() == 0,
{
    lemma_add_each_appends(b.set_items_limit(n), xs);
    assert(b.set_items_limit(n).add_each(xs).items =~= xs);
}

/// With the history limit set to `n` on a bucket without history, and with
/// more than `n` items under the items limit, `n` polls fill the history to
/// `n` entries, and the next poll wipes it before recording, leaving one.
pub proof fn lemma_history_limit_wipes<T>(
    b: BucketView<T>,
    n: i64,
    copies: Seq<T>,
    times: Seq<i64>,
    copy: T,
    now: i64,
)
    requires
        b.history.len() == 0,
        copies.len() == n,
        times.len() == n,
        n < b.items.len() < b.items_limit,
    ensures
        b.set_history_limit(n).poll_each(copies, times).history.len() == n,
        b.set_history_limit(n).poll_each(copies, times).poll(copy, now).history.len() == 1,
{
    let s = b.set_history_limit(n);
    lemma_poll_each_drains(s, copies, times);
}

} // verus!
