//! Bounded, read-only views over the buffers that the platform lends for the
//! length of one callback.

use vstd::prelude::*;
use vstd::slice::slice_subrange;

verus! {

/// A view of the first elements of a buffer that the platform lent.
///
/// The view borrows the buffer and owns nothing. The borrow ends with the
/// callback that brought the buffer, so the view cannot be kept past it. Every
/// access is checked against the length of the view.
pub struct BorrowedView<'a, T> {
    items: &'a [T],
}

impl<'a, T> View for BorrowedView<'a, T> {
    type V = Seq<T>;

    closed spec fn view(&self) -> Seq<T> {
        self.items@
    }
}

impl<'a, T> BorrowedView<'a, T> {
    /// The view of the first `raw_count` elements of `buffer`.
    ///
    /// The platform promises that the buffer holds at least that many
    /// elements.
    pub fn new(buffer: &'a [T], raw_count: u32) -> (view: BorrowedView<'a, T>)
        requires
            raw_count <= buffer@.len(),
        ensures
            view@ == buffer@.take(raw_count as int),
    {
        let items = slice_subrange(buffer, 0, raw_count as usize);
        BorrowedView { items }
    }

    /// The view of the first `raw_count` elements of `buffer`, or nothing
    /// where the buffer holds fewer.
    pub fn checked(buffer: &'a [T], raw_count: u32) -> (view: Option<BorrowedView<'a, T>>)
        ensures
            raw_count <= buffer@.len() ==> (view matches Some(v) && v@ == buffer@.take(
                raw_count as int,
            )),
            raw_count > buffer@.len() ==> view is None,
    {
        if raw_count as usize <= buffer.len() {
            Some(BorrowedView::new(buffer, raw_count))
        } else {
            None
        }
    }

    /// The number of elements in view.
    pub fn len(&self) -> (n: usize)
        ensures
            n == self@.len(),
    {
        self.items.len()
    }

    /// Whether nothing is in view.
    pub fn is_empty(&self) -> (b: bool)
        ensures
            b == (self@.len() == 0),
    {
        self.items.len() == 0
    }

    /// The element at `index`, or nothing where the index is out of range.
    pub fn get(&self, index: usize) -> (item: Option<&'a T>)
        ensures
            index < self@.len() ==> item == Some(&self@[index as int]),
            index >= self@.len() ==> item is None,
    {
        if index < self.items.len() {
            Some(&self.items[index])
        } else {
            None
        }
    }

    /// The elements in view as a slice, for iteration in order.
    pub fn as_slice(&self) -> (items: &'a [T])
        ensures
            items@ == self@,
    {
        self.items
    }
}

} // verus!
