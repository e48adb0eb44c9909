//! Watching the configuration file: which change, if any, a batch of
//! directory events means for it.

use crate::text::opt_string_is;
use crate::text::opt_view;
use vstd::prelude::*;

verus! {

/// The kind of a directory event, as reported for a single change; any
/// other mask (including combined flags) is `Other`.
#[derive(Clone, Copy, Debug, PartialEq, Eq, Structural)]
pub enum WatchMask {
    Create,
    Modify,
    MovedTo,
    Delete,
    MovedFrom,
    Other,
}

/// One event of the watched directory: the entry it concerns, if named, and
/// its kind.
#[derive(Clone, Debug)]
pub struct WatchEvent {
    pub name: Option<String>,
    pub mask: WatchMask,
}

/// What happened to the configuration file.
#[derive(Clone, Copy, Debug, PartialEq, Eq, Structural)]
pub enum ConfigFileEvent {
    /// Written, created or moved into place: reload it.
    Changed,
    /// Deleted or moved away: fall back to the defaults if it stays gone.
    Removed,
}

/// What one event means for the file called `file_name`.
pub open spec fn event_meaning(event: WatchEvent, file_name: Seq<char>) -> Option<ConfigFileEvent> {
    if opt_view(event.name) == Some(file_name) {
        match event.mask {
            WatchMask::Delete | WatchMask::MovedFrom => Some(ConfigFileEvent::Removed),
            WatchMask::Create | WatchMask::Modify | WatchMask::MovedTo => Some(
                ConfigFileEvent::Changed,
            ),
            WatchMask::Other => None,
        }
    } else {
        None
    }
}

/// What the first `n` events of a batch mean together: the meaning of the
/// last one that concerns the file.
pub open spec fn batch_meaning(events: Seq<WatchEvent>, file_name: Seq<char>, n: nat) -> Option<
    ConfigFileEvent,
>
    decreases n,
{
    if n == 0 {
        None
    } else {
        match event_meaning(events[n - 1], file_name) {
            Some(m) => Some(m),
            None => batch_meaning(events, file_name, (n - 1) as nat),
        }
    }
}

/// What a batch of events means for the file called `file_name`: the last
/// event that concerns it decides, events on other entries and of other
/// kinds are ignored.
pub fn classify_events(events: &Vec<WatchEvent>, file_name: &str) -> (res: Option<ConfigFileEvent>)
    ensures
        res == batch_meaning(events@, file_name@, events@.len()),
{
    let mut res: Option<ConfigFileEvent> = None;
    for i in 0..events.len()
        invariant
            res == batch_meaning(events@, file_name@, i as nat),
    {
        let e = &events[i];
        if opt_string_is(&e.name, file_name) {
            match e.mask {
                WatchMask::Delete | WatchMask::MovedFrom => {
                    res = Some(ConfigFileEvent::Removed);
                },
                WatchMask::Create | WatchMask::Modify | WatchMask::MovedTo => {
                    res = Some(ConfigFileEvent::Changed);
                },
                WatchMask::Other => {},
            }
        }
    }
    res
}

/// Events that do not concern the file can be dropped from a batch, or
/// added to it, without changing what the batch means.
pub proof fn law_unrelated_events_ignored(
    events: Seq<WatchEvent>,
    file_name: Seq<char>,
    extra: WatchEvent,
)
    requires
        event_meaning(extra, file_name) is None,
    ensures
        batch_meaning(events.push(extra), file_name, events.len() + 1) == batch_meaning(
            events,
            file_name,
            events.len(),
        ),
{
    lemma_batch_meaning_prefix(events, extra, file_name, events.len());
}

/// A batch's meaning over its first `n` events does not depend on what
/// follows them.
pub proof fn lemma_batch_meaning_prefix(
    events: Seq<WatchEvent>,
    extra: WatchEvent,
    file_name: Seq<char>,
    n: nat,
)
    requires
        n <= events.len(),
    ensures
        batch_meaning(events.push(extra), file_name, n) == batch_meaning(events, file_name, n),
    decreases n,
{
    if n > 0 {
        lemma_batch_meaning_prefix(events, extra, file_name, (n - 1) as nat);
        assert(events.push(extra)[n - 1] == events[n - 1]);
    }
}

/// A batch ending in an event on the file means what that event means.
pub proof fn law_last_event_decides(events: Seq<WatchEvent>, file_name: Seq<char>, last: WatchEvent)
    requires
        event_meaning(last, file_name) is Some,
    ensures
        batch_meaning(events.push(last), file_name, events.len() + 1) == event_meaning(
            last,
            file_name,
        ),
{
    assert(events.push(last)[events.len() as int] == last);
}

/// What the watcher does once a batch has been read.
#[derive(Clone, Copy, Debug, PartialEq, Eq, Structural)]
pub enum WatchAction {
    /// Read the file again and publish the result (the defaults if it cannot
    /// be read).
    Reload,
    /// Wait a moment and check whether the file is really gone.
    ConfirmRemoval,
    /// Nothing to do.
    Ignore,
}

/// The step that follows a batch's meaning.
pub fn action_for(meaning: Option<ConfigFileEvent>) -> (a: WatchAction)
    ensures
        a == (match meaning {
            Some(ConfigFileEvent::Changed) => WatchAction::Reload,
            Some(ConfigFileEvent::Removed) => WatchAction::ConfirmRemoval,
            None => WatchAction::Ignore,
        }),
{
    match meaning {
        Some(ConfigFileEvent::Changed) => WatchAction::Reload,
        Some(ConfigFileEvent::Removed) => WatchAction::ConfirmRemoval,
        None => WatchAction::Ignore,
    }
}

/// Law: a batch whose last event names the file is decided by that event's
/// kind alone: a creation, a write or a move into place means the file
/// changed, a deletion or a move away means it was removed, and any other
/// kind leaves the meaning of the earlier events.
pub proof fn law_event_kinds_on_the_file(events: Seq<WatchEvent>, file_name: Seq<char>, last: WatchEvent)
    requires
        opt_view(last.name) == Some(file_name),
    ensures
        batch_meaning(events.push(last), file_name, events.len() + 1) == (match last.mask {
            WatchMask::Create => Some(ConfigFileEvent::Changed),
            WatchMask::Modify => Some(ConfigFileEvent::Changed),
            WatchMask::MovedTo => Some(ConfigFileEvent::Changed),
            WatchMask::Delete => Some(ConfigFileEvent::Removed),
            WatchMask::MovedFrom => Some(ConfigFileEvent::Removed),
            WatchMask::Other => batch_meaning(events, file_name, events.len()),
        }),
{
    lemma_batch_meaning_prefix(events, last, file_name, events.len());
    assert(events.push(last)[events.len() as int] == last);
}

/// Law: an event that names another entry, or no entry, leaves the meaning
/// of a batch as it was, whatever its kind.
pub proof fn law_events_on_other_entries_ignored(
    events: Seq<WatchEvent>,
    file_name: Seq<char>,
    last: WatchEvent,
)
    requires
        opt_view(last.name) != Some(file_name),
    ensures
        batch_meaning(events.push(last), file_name, events.len() + 1) == batch_meaning(
            events,
            file_name,
            events.len(),
        ),
{
    lemma_batch_meaning_prefix(events, last, file_name, events.len());
    assert(events.push(last)[events.len() as int] == last);
}

} // verus!
