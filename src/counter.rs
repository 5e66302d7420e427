//! A set of in-flight tasks together with the number of them that are still
//! pending: that number reaching zero is the sign that all work is drained.
use vstd::prelude::*;

use futures::stream::FuturesUnordered;

verus! {

#[verifier::external_type_specification]
#[verifier::external_body]
#[verifier::reject_recursive_types(Fut)]
pub struct ExFuturesUnordered<Fut>(FuturesUnordered<Fut>);

/// Relies on futures::stream::FuturesUnordered::new: an empty set.
pub assume_specification<Fut>[ FuturesUnordered::<Fut>::new ]() -> FuturesUnordered<Fut>;

/// Relies on futures::stream::FuturesUnordered::push: adds a future to the set.
pub assume_specification<Fut>[ FuturesUnordered::<Fut>::push ](s: &FuturesUnordered<Fut>, future: Fut);

/// Unordered in-flight tasks and a count of those whose completion has not
/// been observed yet.
#[verifier::reject_recursive_types(T)]
pub struct FuturesCounter<T> {
    inner: FuturesUnordered<T>,
    count: usize,
}

impl<T> FuturesCounter<T> {
    /// The number of tasks pushed and not yet observed to complete.
    pub closed spec fn len(&self) -> nat {
        self.count as nat
    }

    pub fn new() -> (r: Self)
        ensures
            r.len() == 0,
    {
        FuturesCounter { inner: FuturesUnordered::new(), count: 0 }
    }

    /// Adds a task.
    pub fn push(&mut self, future: T)
        requires
            old(self).len() < usize::MAX,
        ensures
            final(self).len() == old(self).len() + 1,
    {
        self.inner.push(future);
        self.count = self.count + 1;
    }

    /// The set of tasks, to wait for the next completion on.
    pub fn pending(&mut self) -> (r: &mut FuturesUnordered<T>)
        ensures
            final(self).len() == old(self).len(),
    {
        &mut self.inner
    }

    /// Records the outcome of waiting for the next completion: a completed
    /// task (`Some`) is one fewer pending, and is handed back; `None` means
    /// there was none to wait for.
    pub fn observe<O>(&mut self, completed: Option<O>) -> (r: Option<O>)
        ensures
            r == completed,
            completed is Some && old(self).len() > 0 ==> final(self).len() == old(self).len() - 1,
            completed is None || old(self).len() == 0 ==> final(self).len() == old(self).len(),
    {
        if completed.is_some() && self.count > 0 {
            self.count = self.count - 1;
        }
        completed
    }

    /// The number of tasks pushed and not yet observed to complete.
    pub fn count(&self) -> (r: usize)
        ensures
            r == self.len(),
    {
        self.count
    }

    /// Whether every task pushed has been observed to complete.
    pub fn is_empty(&self) -> (r: bool)
        ensures
            r == (self.len() == 0),
    {
        self.count == 0
    }
}

} // verus!
