//! Snapshot iteration over the sessions of an enumerator.
//!
//! An enumerator of the platform reports a count and hands out the item at an
//! index. The iteration fixes the count once, when it starts, and then asks
//! for the indices below it in order. What is added to or taken from the
//! collection afterwards does not change the walk.

use vstd::prelude::*;

verus! {

/// The indices that a walk over a collection of `count` items visits: those
/// from 0 up to `count`, in order, and none where the count is not positive.
pub open spec fn snapshot(count: int) -> Seq<i32> {
    Seq::new(
        if count > 0 {
            count as nat
        } else {
            0
        },
        |k: int| k as i32,
    )
}

/// A walk over the sessions that an enumerator held when the walk began.
///
/// The view is the indices that are still to be visited, the next one first.
/// The walk goes forward only and cannot be started again: a new walk takes a
/// new count.
#[derive(Debug)]
pub struct AudioSessionIter {
    next: i32,
    end: i32,
}

impl View for AudioSessionIter {
    type V = Seq<i32>;

    closed spec fn view(&self) -> Seq<i32> {
        Seq::new((self.end - self.next) as nat, |k: int| (self.next + k) as i32)
    }
}

impl Clone for AudioSessionIter {
    /// A second walk over what is left of this one.
    fn clone(&self) -> (iter: AudioSessionIter)
        ensures
            iter@ == self@,
    {
        proof {
            use_type_invariant(self);
        }
        AudioSessionIter { next: self.next, end: self.end }
    }
}

impl AudioSessionIter {
    #[verifier::type_invariant]
    spec fn in_order(self) -> bool {
        0 <= self.next <= self.end
    }

    /// Begins a walk over a collection that reported `count` items.
    pub fn new(count: i32) -> (iter: AudioSessionIter)
        ensures
            iter@ == snapshot(count as int),
    {
        let end: i32 = if count > 0 {
            count
        } else {
            0
        };
        let iter = AudioSessionIter { next: 0, end };
        assert(iter@ =~= snapshot(count as int));
        iter
    }

    /// The index to visit next, or nothing once every index was visited.
    pub fn next_index(&mut self) -> (index: Option<i32>)
        ensures
            old(self)@.len() > 0 ==> index == Some(old(self)@[0]) && final(self)@ == old(
                self,
            )@.drop_first(),
            old(self)@.len() == 0 ==> index is None && final(self)@ == old(self)@,
    {
        proof {
            use_type_invariant(&*self);
        }
        if self.next < self.end {
            let index = self.next;
            self.next = self.next + 1;
            assert(self@ =~= old(self)@.drop_first());
            Some(index)
        } else {
            None
        }
    }

    /// The number of indices still to be visited.
    pub fn len(&self) -> (n: usize)
        ensures
            n == self@.len(),
    {
        proof {
            use_type_invariant(self);
        }
        (self.end - self.next) as usize
    }

    /// The bounds on the number of indices still to be visited: both are that
    /// number.
    pub fn size_hint(&self) -> (hint: (usize, Option<usize>))
        ensures
            hint.0 == self@.len(),
            hint.1 == Some(self@.len() as usize),
    {
        let len = self.len();
        (len, Some(len))
    }

    /// The indices still to be visited, in the order of the visit.
    pub fn remaining(&self) -> (indices: Vec<i32>)
        ensures
            indices@ == self@,
    {
        let mut rest = self.clone();
        let mut indices: Vec<i32> = Vec::new();
        loop
            invariant
                indices@ + rest@ == self@,
            decreases rest@.len(),
        {
            match rest.next_index() {
                Some(index) => {
                    let ghost before = indices@;
                    indices.push(index);
                    assert(indices@ + rest@ =~= self@) by {
                        assert(before + seq![index] + rest@ =~= self@);
                    }
                },
                None => {
                    assert(indices@ =~= self@);
                    return indices;
                },
            }
        }
    }
}

/// A walk over a collection that reported `count` items visits exactly that
/// many indices, in the order 0, 1, and so on, and visits none where the count
/// is zero.
pub proof fn law_snapshot_in_index_order(count: int)
    requires
        0 <= count <= i32::MAX,
    ensures
        snapshot(count).len() == count,
        forall|k: int| 0 <= k < count ==> #[trigger] snapshot(count)[k] == k,
{
}

} // verus!
