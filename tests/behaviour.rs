use std::collections::VecDeque;

use rbucket::bucket::{RBucket, DEFAULT_LIMIT};

#[test]
fn new_uses_given_or_default_limits() {
    let b: RBucket<i32> = RBucket::new("jobs".to_string(), Some(7), None);
    assert_eq!(b.name, "jobs");
    assert_eq!(b.history_limit, 7);
    assert_eq!(b.items_limit, DEFAULT_LIMIT);
    assert_eq!(b.items_limit, 100);
    assert!(b.items.is_empty());
    assert!(b.history.is_empty());
}

#[test]
fn fifo_scenario_with_history() {
    let mut b = RBucket::new("test".to_string(), None, None);
    b.add_items(vec![10, 20, 30]);
    b.add_item(40);
    assert_eq!(b.poll_at(5), Some(10));
    assert_eq!(b.poll_at(6), Some(20));
    assert_eq!(b.poll_at(6), Some(30));
    assert_eq!(b.poll_at(9), Some(40));
    assert_eq!(b.poll_at(9), None);
    let stamps: Vec<i64> = b.history.iter().map(|e| e.1).collect();
    assert_eq!(stamps, vec![5, 6, 6, 9]);
    assert_eq!(b.history[3].0, VecDeque::from(vec![40]));
}

#[test]
fn poll_on_empty_changes_nothing() {
    let mut b: RBucket<i32> = RBucket::new("test".to_string(), Some(0), None);
    assert_eq!(b.poll_at(3), None);
    assert!(b.history.is_empty());
    assert!(b.items.is_empty());
}

#[test]
fn stamp_never_goes_back() {
    let mut b = RBucket::new("test".to_string(), None, None);
    b.add_items(vec![1, 2, 3]);
    b.poll_at(50);
    b.poll_at(40);
    b.poll_at(60);
    let stamps: Vec<i64> = b.history.iter().map(|e| e.1).collect();
    assert_eq!(stamps, vec![50, 50, 60]);
}

#[test]
fn poll_at_items_limit_wipes_and_returns_none() {
    let mut b = RBucket::new("test".to_string(), None, Some(2));
    b.add_item(1);
    b.add_item(2);
    assert!(b.items_limit_reached());
    assert_eq!(b.poll_at(1), None);
    assert!(b.items.is_empty());
    assert!(b.history.is_empty());
}

#[test]
fn history_guard_wipes_before_recording() {
    let mut b = RBucket::new("test".to_string(), Some(3), None);
    b.add_items(vec![1, 2, 3, 4]);
    for t in 0..3 {
        b.poll_at(t);
    }
    assert_eq!(b.history.len(), 3);
    assert!(b.history_limit_reached());
    assert_eq!(b.poll_at(10), Some(4));
    assert_eq!(b.history.len(), 1);
    assert_eq!(b.history[0], (VecDeque::from(vec![4]), 10));
}

#[test]
fn items_limit_scenario() {
    let mut b = RBucket::new("test".to_string(), None, None);
    b.set_items_limit(2);
    b.add_item(1);
    b.add_item(2);
    assert_eq!(b.items, VecDeque::from(vec![1, 2]));
    b.add_item(3);
    assert!(b.items.is_empty());
    b.add_item(4);
    assert_eq!(b.items, VecDeque::from(vec![4]));
}

#[test]
fn items_limit_fill_then_one_more() {
    let n = 5;
    let mut b = RBucket::new("test".to_string(), None, None);
    b.set_items_limit(n);
    for i in 0..n {
        b.add_item(i);
    }
    assert_eq!(b.items.len(), 5);
    b.add_item(99);
    assert_eq!(b.items.len(), 0);
}

#[test]
fn add_items_at_limit_drops_batch() {
    let mut b = RBucket::new("test".to_string(), None, Some(2));
    b.add_items(vec![1, 2, 3]);
    assert_eq!(b.items, VecDeque::from(vec![1, 2, 3]));
    b.add_items(vec![4, 5]);
    assert!(b.items.is_empty());
    let mut c = RBucket::new("test".to_string(), None, Some(2));
    c.add_items(vec![1, 2]);
    c.add_items(vec![3]);
    assert!(c.items.is_empty());
}

#[test]
fn zero_limit_never_holds_items() {
    let mut b = RBucket::new("test".to_string(), None, Some(0));
    b.add_item(1);
    b.add_items(vec![2, 3]);
    assert!(b.items.is_empty());
    let mut c = RBucket::new("test".to_string(), None, Some(-4));
    c.add_item(1);
    assert!(c.items.is_empty());
    assert!(c.items_limit_reached());
}

#[test]
fn undo_right_after_poll_restores_item_at_tail() {
    let mut b = RBucket::new("test".to_string(), None, None);
    b.add_items(vec![1, 2, 3]);
    assert_eq!(b.poll_at(1), Some(1));
    assert_eq!(b.history.len(), 1);
    b.undo();
    assert_eq!(b.items, VecDeque::from(vec![2, 3, 1]));
    assert!(b.history.is_empty());
}

#[test]
fn undo_on_empty_history_is_noop() {
    let mut b = RBucket::new("test".to_string(), None, None);
    b.add_items(vec![1, 2]);
    b.undo();
    assert_eq!(b.items, VecDeque::from(vec![1, 2]));
    assert!(b.history.is_empty());
}

#[test]
fn undo_ignores_items_limit() {
    let mut b = RBucket::new("test".to_string(), None, Some(2));
    b.add_item(1);
    b.poll_at(0);
    b.add_item(2);
    b.add_item(3);
    b.undo();
    assert_eq!(b.items, VecDeque::from(vec![2, 3, 1]));
}

#[test]
fn clone_keeps_items_and_limits_but_not_history() {
    let mut b = RBucket::new("src".to_string(), Some(4), Some(9));
    b.add_items(vec![1, 2, 3]);
    b.poll_at(2);
    let c = b.clone();
    assert_eq!(c.name, "src");
    assert_eq!(c.items, VecDeque::from(vec![2, 3]));
    assert_eq!(c.history_limit, 4);
    assert_eq!(c.items_limit, 9);
    assert!(c.history.is_empty());
    assert_eq!(b.history.len(), 1);
    let mut d = RBucket::new("other".to_string(), None, None);
    d.add_item(7);
    d.poll_at(1);
    d.clone_from(&b);
    assert_eq!(d.name, "src");
    assert_eq!(d.items, VecDeque::from(vec![2, 3]));
    assert!(d.history.is_empty());
}

#[test]
fn set_limits_are_not_retroactive() {
    let mut b = RBucket::new("test".to_string(), None, None);
    b.add_items(vec![1, 2, 3]);
    b.set_items_limit(1);
    assert_eq!(b.items.len(), 3);
    assert!(b.items_limit_reached());
    b.set_history_limit(1);
    assert!(!b.history_limit_reached());
    assert!(!b.history_limit_guard());
}

#[test]
fn iter_reflects_current_items() {
    let mut b = RBucket::new("test".to_string(), None, None);
    b.add_items(vec!["a", "b", "c"]);
    b.poll_at(0);
    let seen: Vec<&&str> = b.iter().collect();
    assert_eq!(seen, vec![&"b", &"c"]);
}

#[test]
fn poll_with_clock_records_nondecreasing_stamps() {
    let mut b = RBucket::new("test".to_string(), None, None);
    b.add_items(vec![1, 2, 3]);
    assert_eq!(b.poll(), Some(1));
    assert_eq!(b.poll(), Some(2));
    assert_eq!(b.poll(), Some(3));
    assert_eq!(b.poll(), None);
    assert!(b.history[0].1 > 0);
    assert!(b.history[0].1 <= b.history[1].1);
    assert!(b.history[1].1 <= b.history[2].1);
}
