//! The idle watchdog of one stream.
//!
//! Activity in either direction restarts the countdown. When the countdown runs out, the stream
//! is cancelled; when the stream is cancelled by its owner, the watchdog ends.

use vstd::prelude::*;

verus! {

/// What the watchdog waited for and got.
#[derive(Clone, Copy, Debug, PartialEq, Eq, Structural)]
pub enum WatchEvent {
    /// The owner cancelled the stream.
    Cancelled,
    /// The idle timeout passed since the countdown was last started.
    Elapsed,
    /// One of the directions reported activity.
    Activity,
}

/// What the watchdog does next.
#[derive(Clone, Copy, Debug, PartialEq, Eq, Structural)]
pub enum WatchAction {
    /// Start the countdown anew, from now, and wait on.
    Rearm,
    /// End, and leave the stream alone.
    Stop,
    /// Cancel the stream, then end.
    CancelAndStop,
}

/// Where the watchdog stands.
#[derive(Clone, Copy, Debug, PartialEq, Eq, Structural)]
pub enum WatchState {
    /// It counts down.
    Watching,
    /// It ended because the owner cancelled the stream.
    Stopped,
    /// It ended after it cancelled the idle stream itself.
    Expired,
}

/// The idle watchdog of one stream.
#[derive(Clone, Copy, Debug, PartialEq, Eq, Structural)]
pub struct IdleWatch {
    state: WatchState,
}

/// The state that follows on `event`.
pub open spec fn next_state(state: WatchState, event: WatchEvent) -> WatchState {
    if state != WatchState::Watching {
        state
    } else {
        match event {
            WatchEvent::Cancelled => WatchState::Stopped,
            WatchEvent::Elapsed => WatchState::Expired,
            WatchEvent::Activity => WatchState::Watching,
        }
    }
}

/// What is done on `event`.
pub open spec fn action_on(state: WatchState, event: WatchEvent) -> WatchAction {
    if state != WatchState::Watching {
        WatchAction::Stop
    } else {
        match event {
            WatchEvent::Cancelled => WatchAction::Stop,
            WatchEvent::Elapsed => WatchAction::CancelAndStop,
            WatchEvent::Activity => WatchAction::Rearm,
        }
    }
}

/// The state of a fresh watchdog after the given events.
pub open spec fn watched(events: Seq<WatchEvent>) -> WatchState
    decreases events.len(),
{
    if events.len() == 0 {
        WatchState::Watching
    } else {
        next_state(watched(events.drop_last()), events.last())
    }
}

impl View for IdleWatch {
    type V = WatchState;

    closed spec fn view(&self) -> WatchState {
        self.state
    }
}

impl IdleWatch {
    /// A watchdog that counts down.
    pub fn new() -> (watch: Self)
        ensures
            watch@ == WatchState::Watching,
            watch@ == watched(Seq::empty()),
    {
        IdleWatch { state: WatchState::Watching }
    }

    /// Takes in an event and tells what to do. A watchdog that has ended does nothing more.
    pub fn on_event(&mut self, event: WatchEvent) -> (action: WatchAction)
        ensures
            action == action_on(old(self)@, event),
            final(self)@ == next_state(old(self)@, event),
    {
        match self.state {
            WatchState::Watching => match event {
                WatchEvent::Cancelled => {
                    self.state = WatchState::Stopped;
                    WatchAction::Stop
                },
                WatchEvent::Elapsed => {
                    self.state = WatchState::Expired;
                    WatchAction::CancelAndStop
                },
                WatchEvent::Activity => WatchAction::Rearm,
            },
            _ => WatchAction::Stop,
        }
    }
}

/// Whether the first `n` events all report activity.
pub open spec fn active_for(events: Seq<WatchEvent>, n: int) -> bool {
    forall|j: int| 0 <= j < n ==> events[j] == WatchEvent::Activity
}

/// Whether `event` occurs, with nothing but activity before it.
pub open spec fn first_interrupted_by(events: Seq<WatchEvent>, event: WatchEvent) -> bool {
    exists|k: int| 0 <= k < events.len() && #[trigger] active_for(events, k) && events[k] == event
}

/// The watchdog cancels the stream exactly where, before the owner cancelled it, the idle timeout
/// passed without activity. It ends on its own exactly where the owner cancelled first, and as
/// long as there is only activity it keeps watching.
pub proof fn law_expires_exactly_on_idleness(events: Seq<WatchEvent>)
    ensures
        watched(events) == WatchState::Expired <==> first_interrupted_by(
            events,
            WatchEvent::Elapsed,
        ),
        watched(events) == WatchState::Stopped <==> first_interrupted_by(
            events,
            WatchEvent::Cancelled,
        ),
        watched(events) == WatchState::Watching <==> active_for(events, events.len() as int),
{
    let k = lemma_watched(events);
    assert(active_for(events, k));
    if first_interrupted_by(events, WatchEvent::Elapsed) {
        let i = choose|i: int|
            0 <= i < events.len() && #[trigger] active_for(events, i) && events[i]
                == WatchEvent::Elapsed;
        assert(i == k);
    }
    if first_interrupted_by(events, WatchEvent::Cancelled) {
        let i = choose|i: int|
            0 <= i < events.len() && #[trigger] active_for(events, i) && events[i]
                == WatchEvent::Cancelled;
        assert(i == k);
    }
}

/// The number of events before the first that is no activity, and what that one leads to.
proof fn lemma_watched(events: Seq<WatchEvent>) -> (k: int)
    ensures
        0 <= k <= events.len(),
        active_for(events, k),
        k < events.len() ==> events[k] != WatchEvent::Activity && watched(events) == next_state(
            WatchState::Watching,
            events[k],
        ),
        k == events.len() ==> watched(events) == WatchState::Watching,
    decreases events.len(),
{
    if events.len() == 0 {
        0
    } else {
        let before = events.drop_last();
        let k = lemma_watched(before);
        assert forall|j: int| 0 <= j < k implies events[j] == WatchEvent::Activity by {
            assert(before[j] == WatchEvent::Activity);
        }
        if k == before.len() && events.last() == WatchEvent::Activity {
            k + 1
        } else {
            k
        }
    }
}

/// Each step of the watchdog: it cancels the stream exactly when it was watching and the timeout
/// passed, starts the countdown anew exactly when it was watching and there was activity, and ends
/// or stays ended in every other case.
pub proof fn law_watchdog_steps(state: WatchState, event: WatchEvent)
    ensures
        action_on(state, event) == WatchAction::CancelAndStop <==> state == WatchState::Watching
            && event == WatchEvent::Elapsed,
        action_on(state, event) == WatchAction::Rearm <==> state == WatchState::Watching && event
            == WatchEvent::Activity,
        action_on(state, event) == WatchAction::Stop <==> state != WatchState::Watching || event
            == WatchEvent::Cancelled,
        next_state(state, event) == WatchState::Watching <==> state == WatchState::Watching && event
            == WatchEvent::Activity,
        next_state(state, event) == WatchState::Expired <==> state == WatchState::Expired || (state
            == WatchState::Watching && event == WatchEvent::Elapsed),
        next_state(state, event) == WatchState::Stopped <==> state == WatchState::Stopped || (state
            == WatchState::Watching && event == WatchEvent::Cancelled),
{
}

} // verus!
