//! Which file-system events call for a synchronisation.

use vstd::prelude::*;

verus! {

/// The kinds of file-system events that the watcher tells apart.
#[derive(Clone, Copy, PartialEq, Eq, Structural, Debug)]
pub enum FsEventKind {
    /// The data of a file changed.
    DataModified,
    /// A file or directory was created.
    Created,
    /// Any other event (access, metadata change, rename, removal, ...).
    Other,
}

/// Whether an event is a write, which calls for a synchronisation: a data
/// change or a creation.
pub fn is_write(kind: FsEventKind) -> (r: bool)
    ensures
        r == (kind == FsEventKind::DataModified || kind == FsEventKind::Created),
{
    match kind {
        FsEventKind::DataModified | FsEventKind::Created => true,
        FsEventKind::Other => false,
    }
}

} // verus!
