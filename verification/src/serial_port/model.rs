use super::waker::Waker;
use std::sync::Arc;
use tokio::sync::Notify;
use vstd::prelude::*;

verus! {

/// What the user asked of the port.
#[derive(Clone, Copy, PartialEq, Eq, Debug)]
pub enum Request {
    Open,
    Close,
    Restart,
}

/// Value of the `open` attribute when it is mounted.
pub const OPEN_ATTRIBUTE_INITIAL: bool = false;

/// The state shared between the attributes of the port: the pending request
/// and the notifier that wakes the task that serves it.
pub struct Model {
    request: Option<Request>,
    request_notifier: Waker,
}

/// The request that a `true` (open) or `false` (close) command asks for.
pub open spec fn command_request(open: bool) -> Request {
    if open {
        Request::Open
    } else {
        Request::Close
    }
}

impl Model {
    /// The pending request.
    pub closed spec fn pending(&self) -> Option<Request> {
        self.request
    }

    /// The notifier that wakes the request task.
    pub closed spec fn notifier(&self) -> Arc<Notify> {
        self.request_notifier.notifier()
    }

    /// How many times the waiters of the notifier have been woken.
    pub closed spec fn notified(&self) -> nat {
        self.request_notifier.wakes()
    }

    /// A model with no pending request, whose waiters were never woken.
    pub fn new() -> (res: Model)
        ensures
            res.pending() is None,
            res.notified() == 0,
    {
        Model { request: None, request_notifier: Waker::new() }
    }

    /// The notifier that `request_open` and `request_close` wake, shared.
    pub fn clone_request_notifier(&self) -> (res: Arc<Notify>)
        ensures
            res == self.notifier(),
    {
        self.request_notifier.share()
    }

    /// Takes the pending request out, leaving none.
    pub fn take_request(&mut self) -> (res: Option<Request>)
        ensures
            (res, final(self).pending()) == after_take(old(self).pending()),
            final(self).notified() == old(self).notified(),
            final(self).notifier() == old(self).notifier(),
    {
        self.request.take()
    }

    /// Asks for the port to open, replacing any pending request, and wakes the
    /// waiting tasks once.
    pub fn request_open(&mut self)
        ensures
            final(self).pending() == Some(Request::Open),
            final(self).notifier() == old(self).notifier(),
            final(self).notified() == old(self).notified() + 1,
    {
        self.request = Some(Request::Open);
        self.request_notifier.wake();
    }

    /// Asks for the port to close, replacing any pending request, and wakes the
    /// waiting tasks once.
    pub fn request_close(&mut self)
        ensures
            final(self).pending() == Some(Request::Close),
            final(self).notifier() == old(self).notifier(),
            final(self).notified() == old(self).notified() + 1,
    {
        self.request = Some(Request::Close);
        self.request_notifier.wake();
    }

    /// Applies a command received on the `open` attribute: `true` asks for
    /// the port to open, `false` for it to close; either wakes the waiting
    /// tasks once.
    pub fn apply_open_command(&mut self, open: bool)
        ensures
            final(self).pending() == after_command(old(self).pending(), open),
            final(self).notifier() == old(self).notifier(),
            final(self).notified() == old(self).notified() + 1,
    {
        if open {
            self.request_open();
        } else {
            self.request_close();
        }
    }
}

/// The pending request after a command on the `open` attribute.
pub open spec fn after_command(pending: Option<Request>, open: bool) -> Option<Request> {
    Some(command_request(open))
}

/// What a take gives, and the pending request that it leaves.
pub open spec fn after_take(pending: Option<Request>) -> (Option<Request>, Option<Request>) {
    (pending, None)
}

/// The pending request after a series of commands, the last one last.
pub open spec fn after_commands(pending: Option<Request>, commands: Seq<bool>) -> Option<Request>
    decreases commands.len(),
{
    if commands.len() == 0 {
        pending
    } else {
        after_command(after_commands(pending, commands.drop_last()), commands.last())
    }
}

/// Of a series of commands, only the last one is served, and it is served
/// once: the first take after them gives it, the next take gives nothing.
pub proof fn lemma_last_command_served_once(pending: Option<Request>, commands: Seq<bool>)
    requires
        commands.len() > 0,
    ensures
        after_take(after_commands(pending, commands)).0 == Some(command_request(commands.last())),
        after_take(after_take(after_commands(pending, commands)).1).0 is None,
{
}

/// A `true` command leaves an `Open` request pending and a `false` one a
/// `Close` request, whatever was pending before; a take gives what was
/// pending and leaves nothing.
pub proof fn lemma_command_meaning(pending: Option<Request>)
    ensures
        after_command(pending, true) == Some(Request::Open),
        after_command(pending, false) == Some(Request::Close),
        after_take(pending) == (pending, None::<Request>),
{
}

} // verus!
