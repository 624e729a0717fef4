use std::sync::Arc;
use tokio::sync::Notify;
use vstd::prelude::*;

verus! {

/// The tokio notification primitive, carried opaquely.
#[verifier::external_type_specification]
#[verifier::external_body]
pub struct ExNotify(Notify);

/// Calls `tokio::sync::Notify::new`; nothing is claimed of the new value.
#[verifier::external_body]
fn new_notify() -> Notify {
    Notify::new()
}

/// Calls `Arc::clone`: the result shares the same notifier.
#[verifier::external_body]
fn share_notifier(notifier: &Arc<Notify>) -> (res: Arc<Notify>)
    ensures
        res == *notifier,
{
    notifier.clone()
}

/// A shared notifier together with the count of the times its waiters were
/// woken through it. Only `wake` changes the count.
pub struct Waker {
    notifier: Arc<Notify>,
    wakes: Ghost<nat>,
}

impl Waker {
    /// The shared notifier.
    pub closed spec fn notifier(&self) -> Arc<Notify> {
        self.notifier
    }

    /// How many times `wake` was called since the waker was made.
    pub closed spec fn wakes(&self) -> nat {
        self.wakes@
    }

    /// A waker over a new notifier, never woken.
    pub fn new() -> (res: Waker)
        ensures
            res.wakes() == 0,
    {
        Waker { notifier: Arc::new(new_notify()), wakes: Ghost(0) }
    }

    /// Calls `tokio::sync::Notify::notify_waiters` on the notifier, which
    /// wakes the tasks that wait on it then; the count rises by one and the
    /// notifier stays the same.
    #[verifier::external_body]
    pub(crate) fn wake(&mut self)
        ensures
            final(self).notifier() == old(self).notifier(),
            final(self).wakes() == old(self).wakes() + 1,
    {
        self.notifier.notify_waiters()
    }

    /// The notifier, shared.
    pub fn share(&self) -> (res: Arc<Notify>)
        ensures
            res == self.notifier(),
    {
        share_notifier(&self.notifier)
    }
}

} // verus!
