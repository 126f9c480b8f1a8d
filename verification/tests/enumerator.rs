use winaudio::AudioSessionIter;

#[test]
fn walk_visits_each_index_in_order() {
    let mut iter = AudioSessionIter::new(4);
    assert_eq!(iter.len(), 4);
    assert_eq!(iter.next_index(), Some(0));
    assert_eq!(iter.next_index(), Some(1));
    assert_eq!(iter.len(), 2);
    assert_eq!(iter.next_index(), Some(2));
    assert_eq!(iter.next_index(), Some(3));
    assert_eq!(iter.next_index(), None);
    assert_eq!(iter.next_index(), None);
    assert_eq!(iter.len(), 0);
}

#[test]
fn second_walk_is_independent() {
    let mut first = AudioSessionIter::new(3);
    assert_eq!(first.next_index(), Some(0));
    assert_eq!(first.next_index(), Some(1));
    let mut second = AudioSessionIter::new(3);
    assert_eq!(second.remaining(), vec![0, 1, 2]);
    assert_eq!(second.next_index(), Some(0));
    assert_eq!(first.next_index(), Some(2));
    assert_eq!(first.next_index(), None);
    assert_eq!(second.remaining(), vec![1, 2]);
}

#[test]
fn walk_over_nothing_is_empty() {
    let mut iter = AudioSessionIter::new(0);
    assert_eq!(iter.len(), 0);
    assert_eq!(iter.size_hint(), (0, Some(0)));
    assert_eq!(iter.remaining(), Vec::<i32>::new());
    assert_eq!(iter.next_index(), None);
    let mut again = AudioSessionIter::new(0);
    assert_eq!(again.next_index(), None);
}

#[test]
fn walk_over_a_negative_count_is_empty() {
    let mut iter = AudioSessionIter::new(-5);
    assert_eq!(iter.len(), 0);
    assert_eq!(iter.next_index(), None);
    assert_eq!(AudioSessionIter::new(i32::MIN).remaining(), Vec::<i32>::new());
}

#[test]
fn size_hint_is_exact() {
    let mut iter = AudioSessionIter::new(5);
    assert_eq!(iter.size_hint(), (5, Some(5)));
    iter.next_index();
    iter.next_index();
    assert_eq!(iter.size_hint(), (3, Some(3)));
}

#[test]
fn remaining_lists_what_is_left() {
    let mut iter = AudioSessionIter::new(6);
    assert_eq!(iter.remaining(), vec![0, 1, 2, 3, 4, 5]);
    iter.next_index();
    iter.next_index();
    assert_eq!(iter.remaining(), vec![2, 3, 4, 5]);
    assert_eq!(iter.len(), 4);
}

#[test]
fn walk_yields_exactly_the_count() {
    for count in [0, 1, 2, 17, 1000] {
        let mut iter = AudioSessionIter::new(count);
        let mut seen = Vec::new();
        while let Some(index) = iter.next_index() {
            seen.push(index);
        }
        assert_eq!(seen, (0..count).collect::<Vec<i32>>());
    }
}

#[test]
fn clone_walks_what_is_left() {
    let mut iter = AudioSessionIter::new(3);
    iter.next_index();
    let mut copy = iter.clone();
    assert_eq!(copy.next_index(), Some(1));
    assert_eq!(iter.next_index(), Some(1));
    assert_eq!(copy.remaining(), vec![2]);
}

#[test]
fn walk_up_to_the_largest_count() {
    let iter = AudioSessionIter::new(i32::MAX);
    assert_eq!(iter.len(), i32::MAX as usize);
    assert_eq!(iter.size_hint(), (i32::MAX as usize, Some(i32::MAX as usize)));
}
