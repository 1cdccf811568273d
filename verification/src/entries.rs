//! Which entries of the plugins directory are plugins.

use vstd::prelude::*;

verus! {

/// What is known of an entry of the plugins directory.
#[derive(Clone, Copy, Debug, PartialEq, Eq, Structural)]
pub enum EntryEvent {
    /// The entry could not be read.
    Unreadable,
    /// The entry is there; `link` is whether it is a symbolic link.
    Listed { link: bool },
    /// Where the link leads is known.
    Resolved,
    /// The entry, or what the link leads to, was inspected; `directory` is
    /// whether it is a directory.
    Inspected { directory: bool },
}

/// What to do with an entry of the plugins directory.
#[derive(Clone, Copy, Debug, PartialEq, Eq, Structural)]
pub enum EntryStep {
    /// Warn that the entry could not be read.
    Warn,
    /// Find where the link leads.
    Resolve,
    /// See whether it is a directory.
    Inspect,
    /// Initialise the plugin that it is.
    Initialise,
    /// It is no plugin.
    Skip,
}

/// What to do with an entry.
pub open spec fn entry_step(event: EntryEvent) -> EntryStep {
    match event {
        EntryEvent::Unreadable => EntryStep::Warn,
        EntryEvent::Listed { link } => if link {
            EntryStep::Resolve
        } else {
            EntryStep::Inspect
        },
        EntryEvent::Resolved => EntryStep::Inspect,
        EntryEvent::Inspected { directory } => if directory {
            EntryStep::Initialise
        } else {
            EntryStep::Skip
        },
    }
}

/// Finds what to do with an entry.
pub fn next_entry_step(event: EntryEvent) -> (step: EntryStep)
    ensures
        step == entry_step(event),
{
    match event {
        EntryEvent::Unreadable => EntryStep::Warn,
        EntryEvent::Listed { link: true } => EntryStep::Resolve,
        EntryEvent::Listed { link: false } => EntryStep::Inspect,
        EntryEvent::Resolved => EntryStep::Inspect,
        EntryEvent::Inspected { directory: true } => EntryStep::Initialise,
        EntryEvent::Inspected { directory: false } => EntryStep::Skip,
    }
}

/// Only directories are initialised, and links are followed first: an entry is
/// inspected at once if it is no link, and once it is resolved if it is one.
pub proof fn law_plugins_are_directories(event: EntryEvent)
    ensures
        entry_step(event) == EntryStep::Initialise <==> event == (EntryEvent::Inspected {
            directory: true,
        }),
        entry_step(event) == EntryStep::Inspect <==> event == (EntryEvent::Listed { link: false })
            || event == EntryEvent::Resolved,
        entry_step(event) == EntryStep::Resolve <==> event == (EntryEvent::Listed { link: true }),
{
}

/// A warning is for entries that could not be read, and what is no directory is
/// passed over without one.
pub proof fn law_only_unreadable_entries_are_warned_of(event: EntryEvent)
    ensures
        entry_step(event) == EntryStep::Warn <==> event == EntryEvent::Unreadable,
        entry_step(event) == EntryStep::Skip <==> event == (EntryEvent::Inspected {
            directory: false,
        }),
{
}

} // verus!
