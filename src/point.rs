//! One pairing attempt for a key: an arrival counter and a one-shot wake-up.
use std::sync::atomic::{AtomicUsize, Ordering};
use std::sync::Arc;
use tokio::sync::Notify;
use vstd::prelude::*;

verus! {

#[verifier::external_type_specification]
#[verifier::external_body]
pub struct ExNotify(tokio::sync::Notify);

/// Relies on tokio's `Notify::new`: a notifier with no waiter and no stored permit.
pub assume_specification[ tokio::sync::Notify::new ]() -> tokio::sync::Notify;

/// Relies on tokio's `Notify::notify_one`: wakes the waiting task, or stores a
/// permit that the next wait consumes at once.
pub assume_specification[ tokio::sync::Notify::notify_one ](notify: &tokio::sync::Notify);

/// Relies on `Arc::clone`: a second handle to the same allocation.
#[verifier::external_body]
pub(crate) fn share(point: &Arc<WaitPoint>) -> (r: Arc<WaitPoint>)
    ensures
        r == *point,
{
    point.clone()
}

/// What an arrival is, decided by how many arrivals its point saw before it.
#[derive(Debug, Clone, Copy, PartialEq, Eq, Structural)]
pub enum Role {
    /// Nobody came before: wait for the second party.
    First,
    /// One came before: wake the first party.
    Second,
    /// Two or more came before: rejected. Carries that count.
    Extra(usize),
}

pub open spec fn spec_role_of(previous: usize) -> Role {
    if previous == 0 {
        Role::First
    } else if previous == 1 {
        Role::Second
    } else {
        Role::Extra(previous)
    }
}

/// The role of an arrival whose point had seen `previous` arrivals before it.
#[verifier::when_used_as_spec(spec_role_of)]
pub fn role_of(previous: usize) -> (r: Role)
    ensures
        r == spec_role_of(previous),
{
    if previous == 0 {
        Role::First
    } else if previous == 1 {
        Role::Second
    } else {
        Role::Extra(previous)
    }
}

/// A synchronization point where two parties meet.
pub struct WaitPoint {
    /// Wakes the first party when the second arrives.
    pub notify: Notify,
    /// How many parties have arrived; only ever incremented.
    pub parties_count: AtomicUsize,
}

impl WaitPoint {
    /// A fresh point: no arrival counted, nobody waiting.
    pub fn new() -> Self {
        WaitPoint { notify: Notify::new(), parties_count: AtomicUsize::new(0) }
    }

    /// Counts one more arrival and returns the count seen just before it.
    ///
    /// The increment is atomic, so concurrent arrivals each see a different count.
    pub fn arrive(&self) -> (previous: usize) {
        self.parties_count.fetch_add(1, Ordering::SeqCst)
    }

    /// Wakes the party waiting on this point, or lets its next wait finish at once.
    pub fn signal(&self) {
        self.notify.notify_one();
    }
}

} // verus!
