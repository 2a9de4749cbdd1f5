//! The watch-target state machine.
//!
//! At most one file is the declared watch target at a time. Watching a file
//! first declares it as the target and then asks the process around the
//! library to build a debounced filesystem watcher for it; the watcher is
//! kept alive for the rest of the process's lifetime, with no handle
//! retained to stop it later. The state therefore tracks, beside the
//! declared target, how many watcher instances are live: clearing the
//! target never tears a watcher down, and a failed attempt leaves the
//! target declared with no new watcher — both are part of the observable
//! behaviour and are stated here rather than assumed away.

use vstd::prelude::*;

verus! {

/// Length in milliseconds of the debounce window: raw filesystem events for
/// the watched file that fall within it collapse into one flush.
pub const DEBOUNCE_WINDOW_MILLIS: u64 = 500;

/// Name of the notification pushed outward when the watched file changes.
/// The notification carries no payload beside this name.
pub fn changed_event_name() -> (r: String)
    ensures
        r@ == "file-changed"@,
{
    "file-changed".to_owned()
}

/// Why a watch attempt failed, carrying the underlying description.
#[derive(Debug, PartialEq, Eq, Clone)]
pub enum WatchError {
    /// The debounced watcher could not be constructed.
    CreateFailed(String),
    /// The watcher exists but could not be attached to the file.
    AttachFailed(String),
}

/// How far a watch attempt got once the target was declared.
#[derive(Debug, PartialEq, Eq, Clone)]
pub enum WatchAttempt {
    /// Constructing the debounced watcher failed.
    CreateFailed(String),
    /// The watcher was built but attaching it to the file failed; the
    /// half-built watcher was released, so nothing stays live.
    AttachFailed(String),
    /// The watcher is attached and will stay live until process exit.
    Attached,
}

/// The watch state: the declared target and the number of live watcher
/// instances. The count never decreases: no operation tears a watcher down.
pub struct WatchState {
    /// The file currently declared as the watch target, if any.
    pub target: Option<String>,
    /// How many watcher instances have been created and left running.
    pub live_watchers: u64,
}

impl WatchState {
    /// A fresh state: nothing watched, no watcher live.
    pub fn new() -> (s: Self)
        ensures
            s.target is None,
            s.live_watchers == 0,
    {
        WatchState { target: None, live_watchers: 0 }
    }

    /// Declares `path` as the watch target. This happens before any watcher
    /// is built, so a later failure still leaves the target declared.
    pub fn declare_target(&mut self, path: String)
        ensures
            final(self).target == Some(path),
            final(self).live_watchers == old(self).live_watchers,
    {
        self.target = Some(path);
    }

    /// Records how the watch attempt ended and reports it to the caller:
    /// success exactly when the watcher attached, in which case one more
    /// watcher instance is live; any failure leaves the live count — and
    /// the already-declared target — unchanged.
    pub fn finish_watch(&mut self, attempt: WatchAttempt) -> (r: Result<(), WatchError>)
        requires
            old(self).live_watchers < u64::MAX,
        ensures
            final(self).target == old(self).target,
            match attempt {
                WatchAttempt::Attached => r == Ok::<(), WatchError>(())
                    && final(self).live_watchers == old(self).live_watchers + 1,
                WatchAttempt::CreateFailed(e) => r == Err::<(), WatchError>(WatchError::CreateFailed(e))
                    && final(self).live_watchers == old(self).live_watchers,
                WatchAttempt::AttachFailed(e) => r == Err::<(), WatchError>(WatchError::AttachFailed(e))
                    && final(self).live_watchers == old(self).live_watchers,
            },
    {
        match attempt {
            WatchAttempt::Attached => {
                self.live_watchers = self.live_watchers + 1;
                Ok(())
            },
            WatchAttempt::CreateFailed(e) => Err(WatchError::CreateFailed(e)),
            WatchAttempt::AttachFailed(e) => Err(WatchError::AttachFailed(e)),
        }
    }

    /// Clears the declared target. No watcher is stopped: every instance
    /// created by an earlier watch stays live and keeps emitting
    /// notifications for its own path until process exit.
    pub fn unwatch(&mut self)
        ensures
            final(self).target is None,
            final(self).live_watchers == old(self).live_watchers,
    {
        self.target = None;
    }

    /// The currently declared target, if any.
    pub fn current_target(&self) -> (r: Option<String>)
        ensures
            r == self.target,
    {
        match &self.target {
            Some(p) => Some(p.clone()),
            None => None,
        }
    }
}

} // verus!
