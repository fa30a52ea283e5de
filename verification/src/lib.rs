//! A tap for lazy sequence pipelines: wrap any producer of elements with an
//! observer that sees each element as it flows through, without changing
//! what the pipeline yields.

pub mod model;
pub mod observer;
pub mod producer;

use vstd::prelude::*;

use crate::model::observed_after;
use crate::model::pull_rest;
use crate::model::pull_result;
use crate::observer::Observer;
use crate::producer::Producer;

verus! {

/// Middleware-enabled producer.
///
/// Wraps an upstream producer and an observer; each element pulled through
/// is shown to the observer and then yielded unchanged downstream.
pub struct Iterware<I, F> {
    iter: I,
    f: F,
}

impl<I, F> Iterware<I, F> {
    /// The upstream producer as it currently stands.
    pub closed spec fn upstream(&self) -> I {
        self.iter
    }

    /// The observer as it currently stands.
    pub closed spec fn observer(&self) -> F {
        self.f
    }

    /// The upstream producer, for inspection.
    pub fn upstream_ref(&self) -> (r: &I)
        ensures
            *r == self.upstream(),
    {
        &self.iter
    }

    /// The observer, for inspection.
    pub fn observer_ref(&self) -> (r: &F)
        ensures
            *r == self.observer(),
    {
        &self.f
    }
}

impl<I: Producer, F: Observer<I::Item>> Iterware<I, F> {
    /// Pull the next element through the tap.
    ///
    /// One pull upstream, nothing more: on exhaustion the signal is passed
    /// straight through and the observer is not invoked; on an element the
    /// observer is shown exactly that element, once, before the element is
    /// yielded downstream unchanged.
    pub fn next(&mut self) -> (r: Option<I::Item>)
        ensures
            r == pull_result(old(self).upstream().remaining()),
            final(self).upstream().remaining() == pull_rest(old(self).upstream().remaining()),
            final(self).observer().observed() == observed_after(
                old(self).observer().observed(),
                r,
            ),
    {
        match self.iter.next() {
            Some(t) => {
                self.f.observe(&t);
                Some(t)
            }
            None => None,
        }
    }

    /// Pull every remaining element through the tap into a vector.
    ///
    /// The vector holds exactly the elements upstream still held, unchanged
    /// and in their order; the observer has been shown exactly those
    /// elements, in that same order; and the tap is left exhausted.
    pub fn collect_remaining(&mut self) -> (r: Vec<I::Item>)
        ensures
            r@ == old(self).upstream().remaining(),
            final(self).upstream().remaining().len() == 0,
            final(self).observer().observed() == old(self).observer().observed()
                + old(self).upstream().remaining(),
    {
        let ghost up0 = self.upstream().remaining();
        let ghost log0 = self.observer().observed();
        let mut out: Vec<I::Item> = Vec::new();
        loop
            invariant
                up0 == out@ + self.upstream().remaining(),
                self.observer().observed() == log0 + out@,
            ensures
                self.upstream().remaining().len() == 0,
                up0 == out@,
                self.observer().observed() == log0 + out@,
            decreases self.upstream().remaining().len(),
        {
            match self.next() {
                Some(t) => out.push(t),
                None => {
                    break;
                }
            }
        }
        out
    }
}

impl<I: Producer, A: Observer<I::Item>, B: Observer<I::Item>> Iterware<Iterware<I, A>, B> {
    /// Composability of taps: one pull through a doubly-tapped pipeline is
    /// one pull of the underlying producer, and the inner observer and the
    /// outer observer are each shown exactly the yielded element, once,
    /// before the element reaches the consumer; an exhaustion signal passes
    /// through without invoking either observer.
    pub fn next_through_both(&mut self) -> (r: Option<I::Item>)
        ensures
            r == pull_result(old(self).upstream().upstream().remaining()),
            final(self).upstream().upstream().remaining() == pull_rest(
                old(self).upstream().upstream().remaining(),
            ),
            final(self).upstream().observer().observed() == observed_after(
                old(self).upstream().observer().observed(),
                r,
            ),
            final(self).observer().observed() == observed_after(
                old(self).observer().observed(),
                r,
            ),
    {
        match self.iter.next() {
            Some(t) => {
                self.f.observe(&t);
                Some(t)
            }
            None => None,
        }
    }
}

impl<I: Producer, F: Observer<I::Item>> Producer for Iterware<I, F> {
    type Item = I::Item;

    /// A tap is itself a producer: it has exactly the elements its upstream
    /// still holds, so taps chain like any other pipeline stage.
    open spec fn remaining(&self) -> Seq<I::Item> {
        self.upstream().remaining()
    }

    fn next(&mut self) -> (r: Option<I::Item>) {
        Iterware::next(self)
    }
}

/// Method chaining trait: import it to add the `middleware` method to
/// producers, so a tap composes fluently into an existing pipeline.
pub trait IteratorMiddleware<I, F>: Sized {
    /// `self`, seen as the producer the tap will pull from.
    spec fn as_producer(self) -> I;

    /// Wrap `self` with the observer `f`.
    ///
    /// Pure composition, and lazy: no element is pulled and the observer is
    /// not invoked until the returned producer is itself pulled.
    fn middleware(self, f: F) -> (r: Iterware<I, F>)
        ensures
            r.upstream() == self.as_producer(),
            r.observer() == f,
    ;
}

impl<I: Producer, F: Observer<I::Item>> IteratorMiddleware<I, F> for I {
    open spec fn as_producer(self) -> I {
        self
    }

    fn middleware(self, f: F) -> (r: Iterware<I, F>) {
        Iterware { iter: self, f }
    }
}

} // verus!
