//! What the host wants of the metrics stream, and whether the bridge has
//! started.
//!
//! A command of the host only records what is wanted and marks the record as
//! changed. The event bridge, which alone talks to the backend about it,
//! takes the change up before it waits for the next frame: it sends the state
//! that is wanted at that moment, so that changes which came in between are
//! sent as one.

use vstd::prelude::*;

verus! {

/// The subscription that is wanted, and whether that has changed since the
/// bridge last sent it.
#[derive(Clone, Copy, Debug, PartialEq, Eq)]
pub struct SubscriptionState {
    /// Whether the metrics stream is wanted.
    pub desired: bool,
    /// Whether `desired` was set since the bridge last took it up.
    pub dirty: bool,
}

impl SubscriptionState {
    /// The state after the host has asked for `enable`.
    pub open spec fn after_set(self, enable: bool) -> SubscriptionState {
        SubscriptionState { desired: enable, dirty: true }
    }

    /// The toggle that is owed to the backend, if one is.
    pub open spec fn pending(self) -> Option<bool> {
        if self.dirty {
            Some(self.desired)
        } else {
            None
        }
    }

    /// The state after the bridge has taken up what was owed.
    pub open spec fn after_take(self) -> SubscriptionState {
        SubscriptionState { desired: self.desired, dirty: false }
    }

    /// The state at process start: the stream is wanted, and nothing is owed.
    pub fn new() -> (state: SubscriptionState)
        ensures
            state.desired,
            !state.dirty,
            state.pending() is None,
    {
        SubscriptionState { desired: true, dirty: false }
    }

    /// Records that the host wants the stream on or off. Nothing is sent:
    /// the bridge takes the change up at its next turn.
    pub fn set_subscribe(&mut self, enable: bool)
        ensures
            *final(self) == old(self).after_set(enable),
    {
        self.desired = enable;
        self.dirty = true;
    }

    /// Takes up the toggle that is owed, if one is: what is wanted now.
    /// Afterwards nothing is owed.
    pub fn take_pending(&mut self) -> (toggle: Option<bool>)
        ensures
            toggle == old(self).pending(),
            *final(self) == old(self).after_take(),
    {
        if self.dirty {
            self.dirty = false;
            Some(self.desired)
        } else {
            None
        }
    }
}

/// Toggles that come in before the bridge takes them up coalesce: the bridge
/// sends the last one only, once, and then owes nothing.
pub proof fn law_toggles_coalesce(state: SubscriptionState, first: bool, last: bool)
    ensures
        state.after_set(first).after_set(last).pending() == Some(last),
        state.after_set(first).after_set(last).after_take().pending() is None,
        state.after_set(first).after_set(last) == state.after_set(last),
{
}

/// Asking for the same state again changes nothing that is sent.
pub proof fn law_set_is_idempotent(state: SubscriptionState, enable: bool)
    ensures
        state.after_set(enable).after_set(enable) == state.after_set(enable),
        state.after_take().after_take() == state.after_take(),
{
}

/// The latch that lets the event bridge start once.
#[derive(Clone, Copy, Debug, PartialEq, Eq)]
pub struct StartLatch {
    /// Whether the bridge was started.
    pub started: bool,
}

impl StartLatch {
    /// A latch that nothing has passed.
    pub fn new() -> (latch: StartLatch)
        ensures
            !latch.started,
    {
        StartLatch { started: false }
    }

    /// Passes the latch: `true` for the first caller, who is to start the
    /// bridge, `false` for every later one, for whom there is nothing to do.
    pub fn try_start(&mut self) -> (first: bool)
        ensures
            first == !old(self).started,
            final(self).started,
    {
        let first = !self.started;
        self.started = true;
        first
    }
}

} // verus!
