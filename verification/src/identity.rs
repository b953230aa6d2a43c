use vstd::prelude::*;

verus! {

/// The identity of one filesystem object: the unique per-object identifier
/// that the operating system assigns within a single filesystem (the inode
/// number).  Two hard links to the same object carry the same identity; the
/// identity is stable for the lifetime of the object, and unique only within
/// one filesystem, which is why a scan never crosses a mount boundary.
#[derive(Clone, Copy, Debug, PartialEq, Eq, Structural)]
pub struct FileIdentity(pub u64);

} // verus!
