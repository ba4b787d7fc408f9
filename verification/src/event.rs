//! Filesystem change events: the kind classification and the relevance rule.

use vstd::prelude::*;

verus! {

/// The classified kind of a raw filesystem change event.
///
/// Only file creation, renames, content changes, and removals are relevant
/// to the matcher; everything else (metadata-only changes, access
/// notifications, unclassified kinds) is noise.
#[derive(Clone, Copy, Debug, PartialEq, Eq, Structural)]
pub enum EventKind {
    /// A file was created.
    CreateFile,
    /// Something other than a file (a directory, or unclassified) was created.
    CreateOther,
    /// An entry's name changed (rename source, destination, or both).
    ModifyName,
    /// An entry's data changed.
    ModifyData,
    /// Only an entry's metadata changed.
    ModifyMetadata,
    /// An otherwise unclassified modification.
    ModifyOther,
    /// An entry was removed.
    Remove,
    /// An entry was accessed.
    Access,
    /// Any other kind of event.
    Other,
}

/// A raw change event: its kind and the absolute paths it concerns, each
/// rendered as the bytes of its text form. One event may carry several paths
/// (a rename carries source and destination).
#[derive(Clone, Debug)]
pub struct FsEvent {
    /// The classified kind of the change.
    pub kind: EventKind,
    /// The paths the change concerns, in the order the watcher reported them.
    pub paths: Vec<Vec<u8>>,
}

/// A kind is relevant when it is a file creation, a name change, a data
/// change, or any removal.
pub open spec fn is_relevant(k: EventKind) -> bool {
    k == EventKind::CreateFile || k == EventKind::ModifyName || k == EventKind::ModifyData
        || k == EventKind::Remove
}

/// Whether the matcher cares about events of kind `k`.
pub fn kind_is_relevant(k: EventKind) -> (r: bool)
    ensures
        r == is_relevant(k),
{
    match k {
        EventKind::CreateFile => true,
        EventKind::ModifyName => true,
        EventKind::ModifyData => true,
        EventKind::Remove => true,
        _ => false,
    }
}

} // verus!
