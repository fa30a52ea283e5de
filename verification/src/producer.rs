use vstd::prelude::*;

use crate::model::pull_rest;
use crate::model::pull_result;

verus! {

/// A lazy sequence producer: yields its pending elements one at a time, in
/// order, on demand, and signals exhaustion once none are left.
pub trait Producer: Sized {
    type Item;

    /// The elements this producer has yet to yield, in order.
    spec fn remaining(&self) -> Seq<Self::Item>;

    /// Pull the next element: the front of `remaining`, or `None` once the
    /// producer is exhausted. Exhaustion is stable: an exhausted producer
    /// stays exhausted and keeps reporting `None`.
    fn next(&mut self) -> (r: Option<Self::Item>)
        ensures
            r == pull_result(old(self).remaining()),
            final(self).remaining() == pull_rest(old(self).remaining()),
    ;
}

/// A producer that yields the elements of a vector, front to back.
pub struct VecProducer<T> {
    elems: Vec<T>,
}

impl<T> VecProducer<T> {
    /// A producer over exactly the elements of `elems`, in their order.
    pub fn new(elems: Vec<T>) -> (r: VecProducer<T>)
        ensures
            r.remaining() == elems@,
    {
        VecProducer { elems }
    }
}

impl<T> Producer for VecProducer<T> {
    type Item = T;

    closed spec fn remaining(&self) -> Seq<T> {
        self.elems@
    }

    fn next(&mut self) -> (r: Option<T>) {
        if self.elems.len() == 0 {
            None
        } else {
            let t = self.elems.remove(0);
            Some(t)
        }
    }
}

} // verus!
