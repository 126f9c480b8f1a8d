use winaudio::BorrowedView;

#[test]
fn view_of_four_elements() {
    let raw = [10u32, 20, 30, 40];
    let view = BorrowedView::new(&raw, 4);
    assert_eq!(view.len(), 4);
    assert!(!view.is_empty());
    assert_eq!(view.get(0), Some(&10));
    assert_eq!(view.get(1), Some(&20));
    assert_eq!(view.get(2), Some(&30));
    assert_eq!(view.get(3), Some(&40));
    assert_eq!(view.get(4), None);
    assert_eq!(view.get(usize::MAX), None);
}

#[test]
fn view_of_floats() {
    let raw = [0.25f32, 0.75, 1.0, 0.0];
    let view = BorrowedView::new(&raw, 4);
    assert_eq!(view.len(), 4);
    assert_eq!(view.get(1), Some(&0.75));
    assert_eq!(view.get(4), None);
    assert_eq!(view.as_slice(), &[0.25f32, 0.75, 1.0, 0.0][..]);
}

#[test]
fn view_takes_the_first_elements_of_a_longer_buffer() {
    let raw = [1u8, 2, 3, 4, 5, 6];
    let view = BorrowedView::new(&raw, 2);
    assert_eq!(view.len(), 2);
    assert_eq!(view.as_slice(), &[1u8, 2][..]);
    assert_eq!(view.get(1), Some(&2));
    assert_eq!(view.get(2), None);
}

#[test]
fn view_of_nothing() {
    let raw: [u16; 0] = [];
    let view = BorrowedView::new(&raw, 0);
    assert_eq!(view.len(), 0);
    assert!(view.is_empty());
    assert_eq!(view.get(0), None);
    let some = [7u16, 8];
    let none = BorrowedView::new(&some, 0);
    assert!(none.is_empty());
    assert_eq!(none.get(0), None);
}

#[test]
fn view_iterates_in_order() {
    let raw = [3i64, 1, 2];
    let view = BorrowedView::new(&raw, 3);
    let seen: Vec<i64> = view.as_slice().iter().copied().collect();
    assert_eq!(seen, vec![3, 1, 2]);
}

#[test]
fn checked_view_refuses_a_count_beyond_the_buffer() {
    let raw = [1u32, 2, 3];
    assert!(BorrowedView::checked(&raw, 4).is_none());
    assert!(BorrowedView::checked(&raw, u32::MAX).is_none());
    let view = BorrowedView::checked(&raw, 3).unwrap();
    assert_eq!(view.as_slice(), &[1u32, 2, 3][..]);
    let view = BorrowedView::checked(&raw, 1).unwrap();
    assert_eq!(view.as_slice(), &[1u32][..]);
}
