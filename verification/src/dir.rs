//! Directory entries: packed, variable-length records inside a directory's
//! data blocks, walked by each entry's declared record length rather than a
//! fixed stride.

use vstd::prelude::*;

use crate::bytes::{copy_bytes, le16_at, le32_at, read_le16, read_le32};
use crate::Ext2Error;

verus! {

/// The fixed header bytes that precede every directory entry's name.
pub const DIR_ENTRY_HEADER_SIZE: usize = 8;

/// One decoded directory entry, copied out of the block it came from. An
/// inode number of 0 marks a deleted slot; such entries still consume
/// their record length and are yielded for the caller to filter.
#[derive(Clone, Debug, PartialEq, Eq)]
pub struct DirEntry {
    /// Inode number
    pub inode: u32,
    /// Directory entry length, header and name included
    pub rec_len: u16,
    /// Name length
    pub name_len: u16,
    /// Raw name bytes of declared length: not null-terminated, and not
    /// assumed to be valid text
    pub name: Vec<u8>,
}

/// The declared record length of the entry headered at byte offset `p`.
pub open spec fn rec_len_at(s: Seq<u8>, p: int) -> int {
    le16_at(s, p + 4)
}

/// The declared name length of the entry headered at byte offset `p`.
pub open spec fn name_len_at(s: Seq<u8>, p: int) -> int {
    le16_at(s, p + 6)
}

/// Whether the entry headered at byte offset `p` of `s` is structurally
/// sound: its 8-byte header fits, its record length is at least the header,
/// a multiple of 4 and within the block, and its name fits in the record.
pub open spec fn entry_ok(s: Seq<u8>, p: int) -> bool {
    &&& p + DIR_ENTRY_HEADER_SIZE <= s.len()
    &&& 8 <= rec_len_at(s, p)
    &&& rec_len_at(s, p) % 4 == 0
    &&& p + rec_len_at(s, p) <= s.len()
    &&& name_len_at(s, p) + DIR_ENTRY_HEADER_SIZE <= rec_len_at(s, p)
}

impl DirEntry {
    /// Whether this record holds exactly the entry headered at byte offset
    /// `p` of `s`: the three header fields, and the name bytes that follow
    /// the header, of the declared length.
    pub open spec fn matches_bytes(self, s: Seq<u8>, p: int) -> bool
        recommends
            entry_ok(s, p),
    {
        &&& self.inode == le32_at(s, p)
        &&& self.rec_len == rec_len_at(s, p)
        &&& self.name_len == name_len_at(s, p)
        &&& self.name@ == s.subrange(p + 8, p + 8 + name_len_at(s, p))
    }
}

/// Decodes the single entry headered at byte offset `p` of a directory
/// data block, copying it out; succeeds exactly when the record there is
/// structurally sound.
pub fn parse_entry(b: &Vec<u8>, p: usize) -> (r: Result<DirEntry, Ext2Error>)
    requires
        p < b@.len(),
    ensures
        r is Ok <==> entry_ok(b@, p as int),
        r is Ok ==> r->Ok_0.matches_bytes(b@, p as int),
        r is Err ==> r->Err_0 == Ext2Error::CorruptDirectory,
{
    let len = b.len();
    if len - p < DIR_ENTRY_HEADER_SIZE {
        return Err(Ext2Error::CorruptDirectory);
    }
    let inode = read_le32(b, p);
    let rec_len = read_le16(b, p + 4);
    let name_len = read_le16(b, p + 6);
    if rec_len < 8 || rec_len % 4 != 0 || rec_len as usize > len - p || name_len as usize
        + DIR_ENTRY_HEADER_SIZE > rec_len as usize {
        return Err(Ext2Error::CorruptDirectory);
    }
    let name = copy_bytes(b, p + DIR_ENTRY_HEADER_SIZE, name_len as usize);
    Ok(DirEntry { inode, rec_len, name_len, name })
}

/// A finite, restartable walk over the packed directory entries of one
/// directory data block. Each step consumes the current entry's declared
/// record length; a structurally invalid record length terminates the walk
/// with `CorruptDirectory` rather than guessing a repaired one.
pub struct DirIter {
    block: Vec<u8>,
    offset: usize,
}

impl DirIter {
    /// The bytes of the block being walked.
    pub closed spec fn spec_block(self) -> Seq<u8> {
        self.block@
    }

    /// The byte position of the next entry's header; at or past the block's
    /// end once the walk is done.
    pub closed spec fn spec_offset(self) -> int {
        self.offset as int
    }

    /// Starts a walk at the beginning of the given block image.
    pub fn new(block: Vec<u8>) -> (r: DirIter)
        ensures
            r.spec_block() == block@,
            r.spec_offset() == 0,
    {
        DirIter { block, offset: 0 }
    }

    /// Restarts the walk from the beginning of the block.
    pub fn reset(&mut self)
        ensures
            final(self).spec_block() == old(self).spec_block(),
            final(self).spec_offset() == 0,
    {
        self.offset = 0;
    }

    /// Yields the entry at the current position and advances past it by its
    /// declared record length.
    ///
    /// Returns `Ok(None)` once the position has reached the block's end.
    /// Returns the decoded entry — deleted slots included — when the record
    /// at the position is structurally sound. Otherwise the record length
    /// cannot be trusted to locate any further entry: the walk reports
    /// `CorruptDirectory` and moves to the block's end, so that it yields
    /// nothing more.
    pub fn next(&mut self) -> (r: Result<Option<DirEntry>, Ext2Error>)
        ensures
            final(self).spec_block() == old(self).spec_block(),
            old(self).spec_offset() >= old(self).spec_block().len() ==> r is Ok && r->Ok_0 is None
                && final(self).spec_offset() == old(self).spec_offset(),
            old(self).spec_offset() < old(self).spec_block().len() && entry_ok(
                old(self).spec_block(),
                old(self).spec_offset(),
            ) ==> r is Ok && r->Ok_0 is Some && r->Ok_0->0.matches_bytes(
                old(self).spec_block(),
                old(self).spec_offset(),
            ) && final(self).spec_offset() == old(self).spec_offset() + rec_len_at(
                old(self).spec_block(),
                old(self).spec_offset(),
            ),
            old(self).spec_offset() < old(self).spec_block().len() && !entry_ok(
                old(self).spec_block(),
                old(self).spec_offset(),
            ) ==> r is Err && r->Err_0 == Ext2Error::CorruptDirectory && final(self).spec_offset()
                == final(self).spec_block().len(),
    {
        let len = self.block.len();
        let p = self.offset;
        if p >= len {
            return Ok(None);
        }
        match parse_entry(&self.block, p) {
            Ok(entry) => {
                self.offset = p + entry.rec_len as usize;
                Ok(Some(entry))
            },
            Err(e) => {
                self.offset = len;
                Err(e)
            },
        }
    }
}

/// Whether the walk from byte offset `p` reaches the block's end without
/// meeting a structurally invalid record.
pub open spec fn walk_clean(s: Seq<u8>, p: int) -> bool
    decreases s.len() - p,
{
    if p >= s.len() {
        true
    } else if entry_ok(s, p) {
        walk_clean(s, p + rec_len_at(s, p))
    } else {
        false
    }
}

/// How many entries the walk from byte offset `p` yields before the
/// block's end or the first structurally invalid record.
pub open spec fn walk_count(s: Seq<u8>, p: int) -> nat
    decreases s.len() - p,
{
    if p >= s.len() {
        0
    } else if entry_ok(s, p) {
        1 + walk_count(s, p + rec_len_at(s, p))
    } else {
        0
    }
}

/// The byte offset the walk from `p` reaches after consuming `i` entries'
/// declared record lengths.
pub open spec fn walk_position(s: Seq<u8>, p: int, i: int) -> int
    decreases i,
{
    if i <= 0 {
        p
    } else {
        walk_position(s, p + rec_len_at(s, p), i - 1)
    }
}

/// Consuming one more entry steps the walk's position by the record length
/// declared at the position already reached.
proof fn lemma_walk_position_step(s: Seq<u8>, p: int, i: int)
    requires
        0 <= i,
    ensures
        walk_position(s, p, i + 1) == walk_position(s, p, i) + rec_len_at(
            s,
            walk_position(s, p, i),
        ),
    decreases i,
{
    if i > 0 {
        lemma_walk_position_step(s, p + rec_len_at(s, p), i - 1);
        assert(walk_position(s, p, i + 1) == walk_position(s, p + rec_len_at(s, p), i));
        assert(walk_position(s, p, i) == walk_position(s, p + rec_len_at(s, p), i - 1));
    } else {
        assert(walk_position(s, p, 1) == walk_position(s, p + rec_len_at(s, p), 0));
    }
}

/// Decodes every entry packed in one directory data block, in order.
///
/// Succeeds exactly when the whole walk is structurally sound, yielding
/// the entries at the walked positions — deleted slots included. The first
/// structurally invalid record makes the whole block report
/// `CorruptDirectory`: past it no offset can be trusted.
pub fn decode_entries(b: &Vec<u8>) -> (r: Result<Vec<DirEntry>, Ext2Error>)
    ensures
        r is Ok <==> walk_clean(b@, 0),
        r is Err ==> r->Err_0 == Ext2Error::CorruptDirectory,
        r is Ok ==> r->Ok_0@.len() == walk_count(b@, 0),
        r is Ok ==> forall|i: int|
            0 <= i < r->Ok_0@.len() ==> (#[trigger] r->Ok_0@[i]).matches_bytes(
                b@,
                walk_position(b@, 0, i),
            ),
{
    let len = b.len();
    let mut out: Vec<DirEntry> = Vec::new();
    let mut p: usize = 0;
    while p < len
        invariant
            len == b@.len(),
            p <= len,
            walk_clean(b@, 0) <==> walk_clean(b@, p as int),
            walk_count(b@, 0) == out@.len() + walk_count(b@, p as int),
            p == walk_position(b@, 0, out@.len() as int),
            forall|i: int|
                0 <= i < out@.len() ==> (#[trigger] out@[i]).matches_bytes(
                    b@,
                    walk_position(b@, 0, i),
                ),
        decreases len - p,
    {
        let entry = match parse_entry(b, p) {
            Ok(entry) => entry,
            Err(e) => {
                return Err(e);
            },
        };
        proof {
            lemma_walk_position_step(b@, 0, out@.len() as int);
        }
        let step = entry.rec_len as usize;
        out.push(entry);
        p = p + step;
    }
    Ok(out)
}

} // verus!
