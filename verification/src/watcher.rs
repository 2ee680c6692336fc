//! The filesystem watcher's decisions.
//!
//! A watcher subscribes to recursive change notifications on one root and
//! then blocks its dedicated execution context for the life of the
//! process, invoking a refresh callback once per batch of debounced
//! notifications. The subscription, the blocking receive and the callback
//! are the surrounding process's work; which transition and which action
//! each outcome demands is decided, and proved, here.

use vstd::prelude::*;

verus! {

/// Where a watcher stands in its life: not yet subscribed, subscribed and
/// blocking on event arrival, or failed to subscribe. A watching watcher
/// never leaves its state; only process exit stops it.
#[derive(Clone, Copy, Debug, PartialEq, Eq, Structural)]
pub enum WatcherState {
    /// Created, not yet subscribed to its root.
    Idle,
    /// Subscribed; the watch loop runs indefinitely.
    Watching,
    /// The subscription could not be established; fatal to this watcher
    /// only, the rest of the process continues.
    Failed,
}

/// One outcome of blocking on the notification channel.
#[derive(Clone, Copy, Debug, PartialEq, Eq, Structural)]
pub enum WatchEvent {
    /// A batch of filesystem changes arrived, already debounced: rapid
    /// changes within the debounce window coalesce into one batch.
    BatchArrived,
    /// Receiving failed transiently.
    ReceiveError,
}

/// What the watch loop must do with one event.
#[derive(Clone, Copy, Debug, PartialEq, Eq, Structural)]
pub enum WatchAction {
    /// Invoke the refresh callback, exactly once for this batch.
    InvokeRefresh,
    /// Log the error and keep waiting; the loop does not exit.
    LogAndContinue,
}

/// The action one event demands: a refresh per arrived batch, nothing but
/// a log entry per transient receive error.
pub open spec fn spec_on_event(event: WatchEvent) -> WatchAction {
    match event {
        WatchEvent::BatchArrived => WatchAction::InvokeRefresh,
        WatchEvent::ReceiveError => WatchAction::LogAndContinue,
    }
}

/// One watcher of one root path, for the lifetime of the process.
pub struct FilesystemWatcher {
    /// Where the watcher stands in its life.
    pub state: WatcherState,
}

impl FilesystemWatcher {
    /// A watcher that has not subscribed yet.
    pub fn new() -> (w: Self)
        ensures
            w.state == WatcherState::Idle,
    {
        FilesystemWatcher { state: WatcherState::Idle }
    }

    /// Records the one Idle-to-Watching transition, or the fatal failure
    /// to subscribe. Returns whether the watcher is dead.
    pub fn on_subscription(&mut self, ok: bool) -> (fatal: bool)
        requires
            old(self).state == WatcherState::Idle,
        ensures
            final(self).state == (if ok {
                WatcherState::Watching
            } else {
                WatcherState::Failed
            }),
            fatal == !ok,
    {
        if ok {
            self.state = WatcherState::Watching;
            false
        } else {
            self.state = WatcherState::Failed;
            true
        }
    }

    /// Decides the response to one received event. A watching watcher
    /// stays watching whatever arrives, and demands exactly one refresh
    /// for a batch and none for a transient error.
    pub fn on_event(&self, event: WatchEvent) -> (a: WatchAction)
        requires
            self.state == WatcherState::Watching,
        ensures
            a == spec_on_event(event),
    {
        match event {
            WatchEvent::BatchArrived => WatchAction::InvokeRefresh,
            WatchEvent::ReceiveError => WatchAction::LogAndContinue,
        }
    }
}

/// Law: over any run of received events, the refresh callback is demanded
/// exactly once per arrived batch — a batch of many coalesced changes
/// yields one invocation, and receive errors yield none.
pub proof fn lemma_one_refresh_per_batch(events: Seq<WatchEvent>)
    ensures
        events.map_values(|e: WatchEvent| spec_on_event(e)).filter(
            |a: WatchAction| a == WatchAction::InvokeRefresh,
        ).len() == events.filter(|e: WatchEvent| e == WatchEvent::BatchArrived).len(),
    decreases events.len(),
{
    reveal(Seq::filter);
    let actions = events.map_values(|e: WatchEvent| spec_on_event(e));
    if events.len() == 0 {
        assert(actions.len() == 0);
    } else {
        lemma_one_refresh_per_batch(events.drop_last());
        assert(actions.drop_last() =~= events.drop_last().map_values(
            |e: WatchEvent| spec_on_event(e),
        ));
        assert(actions.last() == spec_on_event(events.last()));
    }
}

} // verus!
