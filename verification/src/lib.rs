//! Read-only decoder for the metadata structures of an ext2-style volume:
//! the superblock, the block-group descriptor table, inode records and
//! directory entries, together with the block-access layer and the
//! logical-to-physical block-pointer resolution for inode data.

use vstd::prelude::*;

pub mod bytes;
pub mod dir;
pub mod fs;
pub mod group;
pub mod inode;
pub mod resolver;
pub mod superblock;

verus! {

/// Errors surfaced by the decoding and block-access layer.
///
/// `BadMagic`, `InconsistentGroupCounts`, `InvalidInode`, `CorruptDirectory`
/// and `UnsupportedGeometry` reject malformed or unrecognised volume
/// metadata; `Io` wraps a failed device transfer; `OutOfRange` reports a
/// logical file-block index beyond the triple-indirect addressable span.
#[derive(Clone, Copy, Debug, PartialEq, Eq, Structural)]
pub enum Ext2Error {
    BadMagic,
    InconsistentGroupCounts,
    InvalidInode,
    CorruptDirectory,
    UnsupportedGeometry,
    Io,
    OutOfRange,
}

} // verus!
