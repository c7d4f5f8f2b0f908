//! Regenerating on change: which change events start a run.

use vstd::prelude::*;

verus! {

/// What the watch loop is doing.
#[derive(Debug, Clone, Copy, PartialEq, Eq, Structural)]
pub enum WatchState {
    /// Waiting for the next event.
    Idle,
    /// A run is in progress.
    Generating,
}

/// What arrives on the change channel.
#[derive(Debug, Clone, Copy, PartialEq, Eq, Structural)]
pub enum WatchEvent {
    /// Something changed below the source root.
    Changed,
    /// The subscription reported an error.
    Failed,
}

/// What the loop does with an event.
#[derive(Debug, Clone, Copy, PartialEq, Eq, Structural)]
pub enum WatchAction {
    /// Run the generation now, to its end.
    Generate,
    /// Forget the event: it starts no run, now or later.
    Drop,
    /// Report the error and wait for the next event.
    Report,
}

/// The watch loop's state. Times are milliseconds on a clock that does not
/// go back.
#[derive(Debug, Clone, Copy, PartialEq, Eq, Structural)]
pub struct Debouncer {
    pub window: u64,
    pub last_completed: u64,
    pub state: WatchState,
}

/// The time from `since` to `now`, zero where `now` is not later.
pub open spec fn elapsed(since: u64, now: u64) -> int {
    if now >= since {
        now - since
    } else {
        0
    }
}

impl Debouncer {
    /// The action for `event` at time `now`: a change starts a run where no
    /// run is in progress and at least the window has passed since the last
    /// run ended.
    pub open spec fn action_for(self, event: WatchEvent, now: u64) -> WatchAction {
        match event {
            WatchEvent::Failed => WatchAction::Report,
            WatchEvent::Changed => if self.state == WatchState::Idle && elapsed(self.last_completed, now)
                >= self.window {
                WatchAction::Generate
            } else {
                WatchAction::Drop
            },
        }
    }

    /// The state after `event` at time `now`.
    pub open spec fn after_event(self, event: WatchEvent, now: u64) -> Debouncer {
        if self.action_for(event, now) == WatchAction::Generate {
            Debouncer { state: WatchState::Generating, ..self }
        } else {
            self
        }
    }

    /// The state after the run in progress ended at time `now`.
    pub open spec fn after_completed(self, now: u64) -> Debouncer {
        Debouncer { window: self.window, last_completed: now, state: WatchState::Idle }
    }

    /// A loop that starts waiting at time `now`, with the given window.
    pub fn new(window: u64, now: u64) -> (d: Debouncer)
        ensures
            d == (Debouncer { window, last_completed: now, state: WatchState::Idle }),
    {
        Debouncer { window, last_completed: now, state: WatchState::Idle }
    }

    /// Takes `event`, which arrived at time `now`, and says what to do.
    pub fn on_event(&mut self, event: WatchEvent, now: u64) -> (action: WatchAction)
        ensures
            action == old(self).action_for(event, now),
            *final(self) == old(self).after_event(event, now),
    {
        match event {
            WatchEvent::Failed => WatchAction::Report,
            WatchEvent::Changed => {
                let waited: u64 = if now >= self.last_completed {
                    now - self.last_completed
                } else {
                    0
                };
                if self.state == WatchState::Idle && waited >= self.window {
                    self.state = WatchState::Generating;
                    WatchAction::Generate
                } else {
                    WatchAction::Drop
                }
            },
        }
    }

    /// Notes that the run in progress ended at time `now`.
    pub fn completed(&mut self, now: u64)
        ensures
            *final(self) == old(self).after_completed(now),
    {
        self.last_completed = now;
        self.state = WatchState::Idle;
    }
}

/// Of two changes less than the window apart, at most one starts a run: if
/// the first does, its run ends no earlier than the first change and no
/// later than the second, and the second is dropped.
pub proof fn lemma_debounce(start: Debouncer, first: u64, ended: u64, second: u64)
    requires
        first <= ended <= second,
        second - first < start.window,
    ensures
        start.action_for(WatchEvent::Changed, first) == WatchAction::Generate ==> start.after_event(
            WatchEvent::Changed,
            first,
        ).after_completed(ended).action_for(WatchEvent::Changed, second) == WatchAction::Drop,
{
}

/// While a run is in progress no event starts another.
pub proof fn lemma_one_run_at_a_time(d: Debouncer, event: WatchEvent, now: u64)
    requires
        d.state == WatchState::Generating,
    ensures
        d.action_for(event, now) != WatchAction::Generate,
        d.after_event(event, now) == d,
{
}

/// An error on the channel starts no run and changes nothing.
pub proof fn lemma_channel_error_is_harmless(d: Debouncer, now: u64)
    ensures
        d.action_for(WatchEvent::Failed, now) == WatchAction::Report,
        d.after_event(WatchEvent::Failed, now) == d,
{
}

} // verus!
