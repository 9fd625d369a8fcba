//! What asks for a reload.
//!
//! Three sources ask for a reload: a signal listener, a watcher of the file
//! system and whoever holds the notification channel. A source only ever
//! says "rebuild now"; whether and how the snapshot changes is decided by the
//! container. The decisions of the sources are made here.

use crate::global_state::Notify;
use vstd::prelude::*;

verus! {

/// The seconds within which repeated changes of the watched path count as
/// one.
pub const DEBOUNCE_SECONDS: u64 = 2;

/// The number of requests that may wait in the notification channel. A
/// watcher that finds the channel full waits for room.
pub const CHANNEL_CAPACITY: usize = 1;

/// What a debounced watcher of the file system reports.
#[derive(Clone, Copy, Debug, PartialEq, Eq, Structural)]
pub enum WatchEvent {
    /// A write was noticed; the write itself is reported later.
    NoticeWrite,
    /// A removal was noticed; the removal itself is reported later.
    NoticeRemove,
    Create,
    Write,
    Chmod,
    Remove,
    Rename,
    /// The watcher lost track and looks at the path anew.
    Rescan,
    /// The watcher met an error.
    Error,
}

impl WatchEvent {
    /// Whether the event asks for a reload: every event does, but for the
    /// notices, which only announce an event to come.
    pub open spec fn asks_for_reload_spec(self) -> bool {
        !(self is NoticeWrite || self is NoticeRemove)
    }

    /// Tells whether the event asks for a reload.
    pub fn asks_for_reload(&self) -> (asks: bool)
        ensures
            asks == self.asks_for_reload_spec(),
    {
        match self {
            WatchEvent::NoticeWrite | WatchEvent::NoticeRemove => false,
            _ => true,
        }
    }

    /// The request that the event puts into the notification channel, if it
    /// puts one.
    pub fn request(&self) -> (request: Option<Notify>)
        ensures
            request == (if self.asks_for_reload_spec() {
                Some(Notify::Reload)
            } else {
                None
            }),
    {
        if self.asks_for_reload() {
            Some(Notify::Reload)
        } else {
            None
        }
    }
}

/// Whether a source of requests is still heard.
#[derive(Clone, Copy, Debug, PartialEq, Eq, Structural)]
pub enum Source {
    /// The source is listened to.
    Listening,
    /// The source is given up for the rest of the process.
    Disabled,
}

/// What a source reports to its listener.
#[derive(Clone, Copy, Debug, PartialEq, Eq, Structural)]
pub enum SourceEvent {
    /// The source could not be set up.
    InstallFailed,
    /// The source fired: a signal came, or a message.
    Fired,
    /// The source will not fire again.
    Ended,
}

/// What the listener of a source does after an event.
#[derive(Clone, Copy, Debug, PartialEq, Eq, Structural)]
pub enum SourceAction {
    /// Rebuild the snapshot.
    Reload,
    /// Record, once, that this source is disabled from now on.
    WarnDisabled,
    /// Do nothing.
    Ignore,
}

impl Source {
    /// The state of a source after an event, and what its listener does. A
    /// source that fires is reloaded for and heard further. A source that
    /// cannot be set up or has ended is disabled with one warning. A disabled
    /// source stays disabled and nothing is done for it.
    pub open spec fn step_spec(self, event: SourceEvent) -> (Source, SourceAction) {
        match self {
            Source::Disabled => (Source::Disabled, SourceAction::Ignore),
            Source::Listening => match event {
                SourceEvent::Fired => (Source::Listening, SourceAction::Reload),
                SourceEvent::InstallFailed => (Source::Disabled, SourceAction::WarnDisabled),
                SourceEvent::Ended => (Source::Disabled, SourceAction::WarnDisabled),
            },
        }
    }

    /// Takes one event of the source.
    pub fn step(self, event: SourceEvent) -> (next: (Source, SourceAction))
        ensures
            next == self.step_spec(event),
    {
        match self {
            Source::Disabled => (Source::Disabled, SourceAction::Ignore),
            Source::Listening => match event {
                SourceEvent::Fired => (Source::Listening, SourceAction::Reload),
                SourceEvent::InstallFailed => (Source::Disabled, SourceAction::WarnDisabled),
                SourceEvent::Ended => (Source::Disabled, SourceAction::WarnDisabled),
            },
        }
    }

    /// The state of a source after a run of events.
    pub open spec fn after(self, events: Seq<SourceEvent>) -> Source
        decreases events.len(),
    {
        if events.len() == 0 {
            self
        } else {
            self.after(events.drop_last()).step_spec(events.last()).0
        }
    }

    /// How often the listener warns over a run of events.
    pub open spec fn warnings(self, events: Seq<SourceEvent>) -> nat
        decreases events.len(),
    {
        if events.len() == 0 {
            0
        } else {
            let before = self.warnings(events.drop_last());
            if self.after(events.drop_last()).step_spec(events.last()).1
                == SourceAction::WarnDisabled {
                before + 1
            } else {
                before
            }
        }
    }
}

/// A source that is disabled is never heard again, and over any run of
/// events its listener warns at most once: when it disables the source.
pub proof fn disabled_for_good(start: Source, events: Seq<SourceEvent>)
    ensures
        start == Source::Disabled ==> start.after(events) == Source::Disabled
            && start.warnings(events) == 0,
        start.warnings(events) <= 1,
        start.warnings(events) == 1 ==> start.after(events) == Source::Disabled,
    decreases events.len(),
{
    if events.len() > 0 {
        disabled_for_good(start, events.drop_last());
    }
}

} // verus!
