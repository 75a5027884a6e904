//! The mathematical model of a bucket and of each operation on it.

use vstd::prelude::*;

verus! {

/// What a bucket holds, as plain mathematical values.
pub struct BucketView<T> {
    pub name: Seq<char>,
    pub items: Seq<T>,
    /// Each entry: the snapshot of what one poll removed, and its epoch second.
    pub history: Seq<(Seq<T>, i64)>,
    pub history_limit: i64,
    pub items_limit: i64,
}

impl<T> BucketView<T> {
    pub open spec fn items_reached(self) -> bool {
        self.items.len() >= self.items_limit
    }

    pub open spec fn history_reached(self) -> bool {
        self.history.len() >= self.history_limit
    }

    /// Clears the items when their limit is reached.
    pub open spec fn guard_items(self) -> Self {
        if self.items_reached() {
            BucketView { items: Seq::empty(), ..self }
        } else {
            self
        }
    }

    /// Clears the history when its limit is reached.
    pub open spec fn guard_history(self) -> Self {
        if self.history_reached() {
            BucketView { history: Seq::empty(), ..self }
        } else {
            self
        }
    }

    pub open spec fn set_items_limit(self, limit: i64) -> Self {
        BucketView { items_limit: limit, ..self }
    }

    pub open spec fn set_history_limit(self, limit: i64) -> Self {
        BucketView { history_limit: limit, ..self }
    }

    /// One item appended at the tail, or the items wiped when their limit is reached.
    pub open spec fn add_item(self, item: T) -> Self {
        if self.items_reached() {
            self.guard_items()
        } else {
            BucketView { items: self.items.push(item), ..self }
        }
    }

    /// A batch appended at the tail in order, or the items wiped (and the batch
    /// dropped) when their limit is reached.
    pub open spec fn add_items(self, batch: Seq<T>) -> Self {
        if self.items_reached() {
            self.guard_items()
        } else {
            BucketView { items: self.items + batch, ..self }
        }
    }

    /// `add_item` called once for each element of `batch`, in order.
    pub open spec fn add_each(self, batch: Seq<T>) -> Self
        decreases batch.len(),
    {
        if batch.len() == 0 {
            self
        } else {
            self.add_each(batch.drop_last()).add_item(batch.last())
        }
    }

    /// What a poll hands back: the front item, unless there is none or the
    /// items guard wipes them first.
    pub open spec fn polled(self) -> Option<T> {
        if self.items.len() == 0 || self.items_reached() {
            None
        } else {
            Some(self.items[0])
        }
    }

    /// The epoch second recorded for a poll at `now`: never earlier than the
    /// entry before it.
    pub open spec fn stamp(self, now: i64) -> i64 {
        if self.history.len() > 0 && self.history.last().1 > now {
            self.history.last().1
        } else {
            now
        }
    }

    /// The state after a poll at epoch second `now`, where `copy` is the
    /// duplicate of the front item that the history records.
    pub open spec fn poll(self, copy: T, now: i64) -> Self {
        if self.items.len() == 0 {
            self
        } else if self.items_reached() {
            self.guard_items()
        } else {
            let g = self.guard_history();
            BucketView {
                items: g.items.drop_first(),
                history: g.history.push((seq![copy], g.stamp(now))),
                ..g
            }
        }
    }

    /// `poll` called once for each pair of `copies` and `times`, in order.
    pub open spec fn poll_each(self, copies: Seq<T>, times: Seq<i64>) -> Self
        decreases copies.len(),
    {
        if copies.len() == 0 || copies.len() != times.len() {
            self
        } else {
            self.poll_each(copies.drop_last(), times.drop_last()).poll(
                copies.last(),
                times.last(),
            )
        }
    }

    /// The most recent history entry moved back to the tail of the items.
    pub open spec fn undo(self) -> Self {
        if self.history.len() == 0 {
            self
        } else {
            BucketView {
                items: self.items + self.history.last().0,
                history: self.history.drop_last(),
                ..self
            }
        }
    }

    /// The single item of the most recent history entry.
    pub open spec fn last_polled(self) -> T {
        self.history.last().0[0]
    }
}

/// The epoch seconds of the entries never decrease from one entry to the next.
pub open spec fn stamps_ordered<T>(history: Seq<(Seq<T>, i64)>) -> bool {
    forall|i: int, j: int| 0 <= i <= j < history.len() ==> history[i].1 <= history[j].1
}

} // verus!
