//! The bucket itself: a FIFO queue of items and a history of polls.

use std::collections::VecDeque;
use vstd::prelude::*;
use vstd::std_specs::iter::IteratorSpec;

use crate::model::BucketView;

verus! {

broadcast use vstd::std_specs::vecdeque::group_vec_dequeue_axioms;

/// The default limit for both the items and the history.
pub const DEFAULT_LIMIT: i64 = 100;

/// A named bucket of items, polled in the order they were added, which keeps
/// a history of polled items with their epoch seconds.
pub struct RBucket<T: Clone + std::fmt::Debug> {
    /// The name of the bucket.
    pub name: String,
    /// The items currently in the bucket, oldest first.
    pub items: VecDeque<T>,
    /// The history of polled items and their epoch seconds, oldest first.
    pub history: Vec<(VecDeque<T>, i64)>,
    /// The number of history entries at which the history guard clears it.
    pub history_limit: i64,
    /// The number of items at which the items guard clears them.
    pub items_limit: i64,
}

pub open spec fn entry_view<T>(e: (VecDeque<T>, i64)) -> (Seq<T>, i64) {
    (e.0@, e.1)
}

impl<T: Clone + std::fmt::Debug> View for RBucket<T> {
    type V = BucketView<T>;

    open spec fn view(&self) -> BucketView<T> {
        BucketView {
            name: self.name@,
            items: self.items@,
            history: self.history@.map_values(|e: (VecDeque<T>, i64)| entry_view(e)),
            history_limit: self.history_limit,
            items_limit: self.items_limit,
        }
    }
}

impl<T: Clone + std::fmt::Debug> RBucket<T> {
    /// A bucket with no items and no history; a limit not given is 100.
    pub fn new(name: String, history_limit: Option<i64>, items_limit: Option<i64>) -> (r: Self)
        ensures
            r@.name == name@,
            r@.items == Seq::<T>::empty(),
            r@.history == Seq::<(Seq<T>, i64)>::empty(),
            r@.history_limit == match history_limit {
                Some(n) => n,
                None => DEFAULT_LIMIT,
            },
            r@.items_limit == match items_limit {
                Some(n) => n,
                None => DEFAULT_LIMIT,
            },
    {
        let history_limit = match history_limit {
            Some(n) => n,
            None => DEFAULT_LIMIT,
        };
        let items_limit = match items_limit {
            Some(n) => n,
            None => DEFAULT_LIMIT,
        };
        let r = RBucket {
            name,
            items: VecDeque::new(),
            history: Vec::new(),
            history_limit,
            items_limit,
        };
        assert(r@.history =~= Seq::<(Seq<T>, i64)>::empty());
        r
    }

    /// Whether the history holds at least `history_limit` entries.
    pub fn history_limit_reached(&self) -> (r: bool)
        ensures
            r == self@.history_reached(),
    {
        self.history_limit <= 0 || self.history.len() as u64 >= self.history_limit as u64
    }

    /// Whether the bucket holds at least `items_limit` items.
    pub fn items_limit_reached(&self) -> (r: bool)
        ensures
            r == self@.items_reached(),
    {
        self.items_limit <= 0 || self.items.len() as u64 >= self.items_limit as u64
    }

    /// Clears the history when its limit is reached; tells whether it did.
    pub fn history_limit_guard(&mut self) -> (r: bool)
        ensures
            r == old(self)@.history_reached(),
            final(self)@ == old(self)@.guard_history(),
    {
        if self.history_limit_reached() {
            self.history.clear();
            assert(self@.history =~= Seq::<(Seq<T>, i64)>::empty());
            return true;
        }
        false
    }

    /// Clears the items when their limit is reached; tells whether it did.
    pub fn items_limit_guard(&mut self) -> (r: bool)
        ensures
            r == old(self)@.items_reached(),
            final(self)@ == old(self)@.guard_items(),
    {
        if self.items_limit_reached() {
            self.items.clear();
            return true;
        }
        false
    }

    /// A traversal of the items, oldest first.
    pub fn iter(&self) -> (r: std::collections::vec_deque::Iter<'_, T>)
        ensures
            r.remaining() == self.items@.as_ref(),
    {
        self.items.iter()
    }

    /// Moves the items of the most recent history entry back to the tail of
    /// the items, without regard to the items limit, and drops that entry.
    /// Does nothing when the history is empty.
    pub fn undo(&mut self)
        ensures
            final(self)@ == old(self)@.undo(),
    {
        let ghost before = self@;
        match self.history.pop() {
            Some((mut last_items, _)) => {
                self.items.append(&mut last_items);
                proof {
                    assert(self@.history =~= before.history.drop_last());
                }
            },
            None => {},
        }
    }

    /// Removes all items.
    pub fn clear_items(&mut self)
        ensures
            final(self)@ == (BucketView { items: Seq::empty(), ..old(self)@ }),
    {
        self.items.clear();
    }

    /// Removes all history entries.
    pub fn clear_history(&mut self)
        ensures
            final(self)@ == (BucketView { history: Seq::empty(), ..old(self)@ }),
    {
        self.history.clear();
        assert(self@.history =~= Seq::<(Seq<T>, i64)>::empty());
    }

    /// Replaces the history limit; the history is left as it is.
    pub fn set_history_limit(&mut self, limit: i64)
        ensures
            final(self)@ == old(self)@.set_history_limit(limit),
    {
        self.history_limit = limit;
    }

    /// Replaces the items limit; the items are left as they are.
    pub fn set_items_limit(&mut self, limit: i64)
        ensures
            final(self)@ == old(self)@.set_items_limit(limit),
    {
        self.items_limit = limit;
    }

    /// Appends one item at the tail; when the items limit is reached, the
    /// items guard wipes the items instead and the item is dropped.
    pub fn add_item(&mut self, item: T)
        ensures
            final(self)@ == old(self)@.add_item(item),
    {
        if !self.items_limit_guard() {
            self.items.push_back(item);
        }
    }

    /// Appends a batch at the tail in order; when the items limit is reached,
    /// the items guard wipes the items instead and the whole batch is dropped.
    pub fn add_items(&mut self, items: Vec<T>)
        ensures
            final(self)@ == old(self)@.add_items(items@),
    {
        if !self.items_limit_guard() {
            let ghost given = items@;
            let mut items = items;
            let mut batch: VecDeque<T> = VecDeque::new();
            while items.len() > 0
                invariant
                    items@ + batch@ == given,
                decreases items.len(),
            {
                match items.pop() {
                    Some(x) => batch.push_front(x),
                    None => {},
                }
            }
            self.items.append(&mut batch);
        }
    }

    /// Removes and returns the front item, recording a duplicate of it in the
    /// history at epoch second `now` (or at the previous entry's epoch second,
    /// if that is later). Returns `None`, and changes nothing, when there are
    /// no items; returns `None` after the items guard wipes them when their
    /// limit is reached. The history guard runs before the entry is recorded.
    pub fn poll_at(&mut self, now: i64) -> (r: Option<T>)
        ensures
            r == old(self)@.polled(),
            final(self)@ == old(self)@.poll(final(self)@.last_polled(), now),
            r matches Some(x) ==> cloned(x, final(self)@.last_polled()),
    {
        if self.items.len() == 0 {
            return None;
        }
        if self.items_limit_reached() {
            self.items_limit_guard();
            return None;
        }
        self.history_limit_guard();
        let ghost mid = self@;
        let stamp = match self.history.last() {
            Some(e) => if e.1 > now { e.1 } else { now },
            None => now,
        };
        let item = self.items.pop_front().unwrap();
        let mut snapshot: VecDeque<T> = VecDeque::new();
        snapshot.push_back(item.clone());
        self.history.push((snapshot, stamp));
        proof {
            assert(self@.history =~= mid.history.push((seq![self@.last_polled()], mid.stamp(now))));
            assert(self@.items =~= mid.items.drop_first());
        }
        Some(item)
    }

    /// Removes and returns the front item, recording a duplicate of it in the
    /// history with the current epoch second; see `poll_at`.
    pub fn poll(&mut self) -> (r: Option<T>)
        ensures
            r == old(self)@.polled(),
            exists|now: i64| final(self)@ == old(self)@.poll(final(self)@.last_polled(), now),
            r matches Some(x) ==> cloned(x, final(self)@.last_polled()),
    {
        let now = epoch_seconds();
        self.poll_at(now)
    }
}

/// A duplicate keeps the name, the items and the limits, and starts with an
/// empty history.
impl<T: Clone + std::fmt::Debug> Clone for RBucket<T> {
    fn clone(&self) -> (r: Self)
        ensures
            r@.name == self@.name,
            r@.items.len() == self@.items.len(),
            forall|i: int| 0 <= i < self@.items.len() ==> cloned(#[trigger] self@.items[i], r@.items[i]),
            r@.history == Seq::<(Seq<T>, i64)>::empty(),
            r@.history_limit == self@.history_limit,
            r@.items_limit == self@.items_limit,
    {
        let r = RBucket {
            name: self.name.clone(),
            items: self.items.clone(),
            history: Vec::new(),
            history_limit: self.history_limit,
            items_limit: self.items_limit,
        };
        assert(r@.history =~= Seq::<(Seq<T>, i64)>::empty());
        r
    }

    fn clone_from(&mut self, source: &Self)
        ensures
            final(self)@.name == source@.name,
            final(self)@.items.len() == source@.items.len(),
            forall|i: int| 0 <= i < source@.items.len() ==> cloned(#[trigger] source@.items[i], final(self)@.items[i]),
            final(self)@.history == Seq::<(Seq<T>, i64)>::empty(),
            final(self)@.history_limit == source@.history_limit,
            final(self)@.items_limit == source@.items_limit,
    {
        *self = source.clone();
    }
}

/// Relies on `SystemTime::now` and `SystemTime::duration_since`: the seconds
/// elapsed since the Unix epoch by the system clock, or 0 for a clock set
/// before it. The clock may step back, so nothing is promised of the value.
#[verifier::external_body]
fn epoch_seconds() -> (r: i64) {
    match std::time::SystemTime::now().duration_since(std::time::UNIX_EPOCH) {
        Ok(d) => d.as_secs() as i64,
        Err(_) => 0,
    }
}

} // verus!
