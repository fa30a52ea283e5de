use vstd::prelude::*;

verus! {

/// An observer: a side-effecting callable invoked once per element flowing
/// through a tap. It sees each element through a shared borrow scoped to the
/// call, so it can inspect but never change, move or retain the element;
/// only its own record of what it has seen grows.
pub trait Observer<T> {
    /// The values this observer has been shown so far, in order.
    spec fn observed(&self) -> Seq<T>;

    /// Observe one element. Exactly this element, unchanged, is appended to
    /// the record of observed values; nothing else about the pipeline moves.
    fn observe(&mut self, t: &T)
        ensures
            final(self).observed() == old(self).observed().push(*t),
    ;
}

/// An observer that keeps a log of every value it is shown, in order.
pub struct LogObserver<T> {
    seen: Vec<T>,
}

impl<T: Copy> LogObserver<T> {
    /// A fresh observer that has seen nothing yet.
    pub fn new() -> (r: LogObserver<T>)
        ensures
            r.observed() == Seq::<T>::empty(),
    {
        LogObserver { seen: Vec::new() }
    }

    /// The log of observed values, oldest first.
    pub fn values(&self) -> (r: &Vec<T>)
        ensures
            r@ == self.observed(),
    {
        &self.seen
    }
}

impl<T: Copy> Observer<T> for LogObserver<T> {
    closed spec fn observed(&self) -> Seq<T> {
        self.seen@
    }

    fn observe(&mut self, t: &T) {
        self.seen.push(*t);
    }
}

} // verus!
