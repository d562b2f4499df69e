//! Stream that leaves out the last item of a queue.

use std::collections::VecDeque;
use vstd::prelude::*;

verus! {

/// All items of `items` but the last one, in order. Nothing, if there is no
/// item at all.
pub open spec fn all_but_last<T>(items: Seq<T>) -> Seq<T> {
    if items.len() == 0 {
        items
    } else {
        items.drop_last()
    }
}

/// Stream over the items of a queue that skips the last item.
///
/// Whether an item is the last one is found out by looking one item ahead,
/// after the item has been taken off the queue.
#[derive(Clone, Debug)]
pub struct SkipLast<T> {
    /// The items that were not looked at yet.
    iter: VecDeque<T>,
}

impl<T> SkipLast<T> {
    /// The items that [`SkipLast::next`] is still going to hand out, in
    /// order.
    pub closed spec fn remaining(&self) -> Seq<T> {
        all_but_last(self.iter@)
    }

    /// Creates a new [`SkipLast`] stream over the given items.
    pub fn new(iter: VecDeque<T>) -> (stream: Self)
        ensures
            stream.remaining() == all_but_last(iter@),
    {
        SkipLast { iter }
    }

    /// Hands out the next item, or [`None`] once only the last item of the
    /// queue is left, or nothing at all.
    pub fn next(&mut self) -> (next: Option<T>)
        ensures
            old(self).remaining().len() == 0 ==> next is None && final(self).remaining()
                == old(self).remaining(),
            old(self).remaining().len() > 0 ==> next == Some(old(self).remaining()[0])
                && final(self).remaining() == old(self).remaining().drop_first(),
    {
        let next = self.iter.pop_front();
        if self.iter.len() > 0 {
            next
        } else {
            None
        }
    }
}

} // verus!
