//! What a stat reports of an entry, as far as any decision here reads it.
use vstd::prelude::*;

verus! {

/// The permission bits of an entry.
#[derive(Clone, Copy, Debug, PartialEq, Eq, Structural)]
pub struct Permissions {
    pub mode: u32,
}

/// The permission bits that a published file gets when nothing else decides:
/// read and write for the owner, nothing for anyone else.
pub const OWNER_ONLY: u32 = 0o600;

/// What kind of entry occupies a name.
#[derive(Clone, Copy, Debug, PartialEq, Eq, Structural)]
pub enum EntryKind {
    /// A regular file.
    File,
    /// A directory.
    Dir,
    /// A symbolic link, seen as itself and not as what it points to.
    Symlink,
    /// Anything else: a socket, a pipe, a device.
    Other,
}

/// The kind and the permission bits of an entry.
#[derive(Clone, Copy, Debug, PartialEq, Eq, Structural)]
pub struct Metadata {
    pub kind: EntryKind,
    pub permissions: Permissions,
}

} // verus!
