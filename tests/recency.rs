use topic_comments::recency::{RecencyList, RECENT_TOPICS_CAPACITY};

#[test]
fn promote_scenario_capacity_three() {
    let (a, b, c) = (0xA_u128, 0xB_u128, 0xC_u128);
    let mut list = RecencyList::new(3);
    for id in [a, b, c, a] {
        list.promote(id);
    }
    assert_eq!(list.top(3), vec![a, c, b]);
}

#[test]
fn eleven_distinct_topics_evict_the_first() {
    let mut list = RecencyList::with_default_capacity();
    for t in 1..=11u128 {
        list.promote(t);
    }
    let top = list.top(10);
    assert!(!top.contains(&1));
    assert_eq!(top, (2..=11u128).rev().collect::<Vec<u128>>());
    assert_eq!(list.len(), RECENT_TOPICS_CAPACITY);
}

#[test]
fn length_bounded_and_no_duplicates() {
    let mut list = RecencyList::with_default_capacity();
    for k in 0..200u128 {
        list.promote((k * 7) % 13);
        let all = list.top(usize::MAX);
        assert!(all.len() <= 10);
        let mut sorted = all.clone();
        sorted.sort();
        sorted.dedup();
        assert_eq!(sorted.len(), all.len());
    }
}

#[test]
fn promoting_front_is_idempotent() {
    let mut list = RecencyList::new(5);
    for id in [1u128, 2, 3] {
        list.promote(id);
    }
    let before = list.top(5);
    list.promote(3);
    list.promote(3);
    assert_eq!(list.top(5), before);
    assert_eq!(before, vec![3, 2, 1]);
}

#[test]
fn promoting_middle_keeps_others_in_order() {
    let mut list = RecencyList::new(10);
    for id in [1u128, 2, 3, 4, 5] {
        list.promote(id);
    }
    assert_eq!(list.top(10), vec![5, 4, 3, 2, 1]);
    list.promote(2);
    assert_eq!(list.top(10), vec![2, 5, 4, 3, 1]);
    assert_eq!(list.len(), 5);
}

#[test]
fn top_bounds() {
    let mut list = RecencyList::new(10);
    assert_eq!(list.top(4), Vec::<u128>::new());
    for id in [9u128, 8, 7] {
        list.promote(id);
    }
    assert_eq!(list.top(0), Vec::<u128>::new());
    assert_eq!(list.top(3), vec![7, 8, 9]);
    assert_eq!(list.top(100), vec![7, 8, 9]);
    assert_eq!(list.top(2), vec![7, 8]);
}

#[test]
fn zero_capacity_keeps_nothing() {
    let mut list = RecencyList::new(0);
    list.promote(1);
    assert_eq!(list.len(), 0);
    assert_eq!(list.capacity(), 0);
}
