//! Logical-to-physical block resolution for inode data: the 12 direct
//! pointer slots, then the single-, double- and triple-indirect bands,
//! each band fanning out by the number of 4-byte pointers one block holds.

use vstd::prelude::*;

use crate::bytes::{le32_at, read_le32};
use crate::fs::{BlockStorageService, Disk};
use crate::inode::{EXT2_DIND_BLOCK, EXT2_IND_BLOCK, EXT2_TIND_BLOCK};
use crate::Ext2Error;

verus! {

/// The outcome of resolving a logical file-block index: either the
/// non-zero physical block number holding the data, or an explicit hole —
/// an unallocated block that reads as zero-filled. A zero-valued pointer
/// is never handed out as a physical block number.
#[derive(Clone, Copy, Debug, PartialEq, Eq, Structural)]
pub enum BlockRef {
    Hole,
    Physical(u32),
}

/// Where in the inode's pointer scheme a logical file-block index falls:
/// which of the 12 direct slots, or the chain of pointer indices walked
/// through the single-, double- or triple-indirect block.
#[derive(Clone, Copy, Debug, PartialEq, Eq, Structural)]
pub enum BlockPath {
    Direct { slot: usize },
    Single { i0: usize },
    Double { i0: usize, i1: usize },
    Triple { i0: usize, i1: usize, i2: usize },
}

/// The count of logical blocks addressable with `p` pointers per indirect
/// block: 12 direct, then one, two and three levels of fan-out.
pub open spec fn addressable_span(p: int) -> int {
    12 + p + p * p + p * p * p
}

/// Every pointer index of `path` is a sound index for its level: a direct
/// slot is below 12 and an indirect index is below the fan-out `p`.
pub open spec fn path_wf(path: BlockPath, p: int) -> bool {
    match path {
        BlockPath::Direct { slot } => slot < 12,
        BlockPath::Single { i0 } => i0 < p,
        BlockPath::Double { i0, i1 } => i0 < p && i1 < p,
        BlockPath::Triple { i0, i1, i2 } => i0 < p && i1 < p && i2 < p,
    }
}

/// Maps a 0-based logical file-block index to its place in the pointer
/// scheme for fan-out `p`, or reports that the index lies beyond the
/// triple-indirect addressable span.
///
/// The bands, in order: indices below 12 use the direct slots; the next
/// `p` use the single-indirect block; the next `p*p` the double-indirect
/// tree, outer index first; the next `p*p*p` the triple-indirect tree.
/// The bound on `p` is what 64-bit band arithmetic can carry.
pub fn locate_block(index: u64, p: u64) -> (r: Result<BlockPath, Ext2Error>)
    requires
        1 <= p <= 0x20_0000,
    ensures
        r is Ok <==> index < addressable_span(p as int),
        r is Err <==> index >= addressable_span(p as int),
        r is Err ==> r->Err_0 == Ext2Error::OutOfRange,
        r is Ok ==> path_wf(r->Ok_0, p as int),
        index < 12 ==> r->Ok_0 == (BlockPath::Direct { slot: index as usize }),
        12 <= index < 12 + p ==> r->Ok_0 == (BlockPath::Single { i0: (index - 12) as usize }),
        12 + p <= index < 12 + p + p * p ==> r->Ok_0 == (BlockPath::Double {
            i0: ((index - 12 - p) as int / p as int) as usize,
            i1: ((index - 12 - p) as int % p as int) as usize,
        }),
        12 + p + p * p <= index < addressable_span(p as int) ==> r->Ok_0 == (BlockPath::Triple {
            i0: ((index - 12 - p - p * p) as int / (p * p) as int) as usize,
            i1: (((index - 12 - p - p * p) as int / p as int) % p as int) as usize,
            i2: ((index - 12 - p - p * p) as int % p as int) as usize,
        }),
{
    proof {
        assert(p * p <= 0x400_0000_0000 && p * p * p <= 0x8000_0000_0000_0000) by (nonlinear_arith)
            requires
                1 <= p <= 0x20_0000,
        ;
    }
    if index < 12 {
        return Ok(BlockPath::Direct { slot: index as usize });
    }
    if index < 12 + p {
        return Ok(BlockPath::Single { i0: (index - 12) as usize });
    }
    let pp: u64 = p * p;
    if index < 12 + p + pp {
        let off: u64 = index - 12 - p;
        let i0: u64 = off / p;
        let i1: u64 = off % p;
        proof {
            let offi = off as int;
            let pi = p as int;
            assert(offi / pi < pi && offi % pi < pi) by (nonlinear_arith)
                requires
                    0 <= offi < pi * pi,
                    1 <= pi,
            ;
        }
        return Ok(BlockPath::Double { i0: i0 as usize, i1: i1 as usize });
    }
    let ppp: u64 = pp * p;
    if index < 12 + p + pp + ppp {
        let off: u64 = index - 12 - p - pp;
        let i0: u64 = off / pp;
        let i1: u64 = (off / p) % p;
        let i2: u64 = off % p;
        proof {
            let offi = off as int;
            let pi = p as int;
            assert(offi / (pi * pi) < pi && (offi / pi) % pi < pi && offi % pi < pi)
                by (nonlinear_arith)
                requires
                    0 <= offi < pi * pi * pi,
                    1 <= pi,
            ;
        }
        return Ok(BlockPath::Triple { i0: i0 as usize, i1: i1 as usize, i2: i2 as usize });
    }
    Err(Ext2Error::OutOfRange)
}

/// Turns one pointer value into a resolution outcome: pointer 0 denotes a
/// hole, anything else the physical block it names.
pub fn classify_pointer(ptr: u32) -> (r: BlockRef)
    ensures
        ptr == 0 ==> r == BlockRef::Hole,
        ptr != 0 ==> r == BlockRef::Physical(ptr),
{
    if ptr == 0 {
        BlockRef::Hole
    } else {
        BlockRef::Physical(ptr)
    }
}

/// The pointer at index `k` of an indirect block's pointer array.
pub fn indirect_entry(buf: &Vec<u8>, k: usize) -> (r: u32)
    requires
        4 * k + 4 <= buf@.len(),
    ensures
        r == le32_at(buf@, 4 * k),
{
    proof {
        assert(4 * k + 4 <= buf.len());
    }
    read_le32(buf, 4 * k)
}

/// Resolves a 0-based logical file-block index against an inode's 15-slot
/// pointer array, fetching indirect blocks from the store as the band
/// requires.
///
/// The direct band consults no block and its outcome is exact: the slot's
/// pointer, classified. In the indirect bands a zero pointer at the
/// inode's slot — or at any level of the walk — yields a hole; a fetch
/// failure reports `Io`. `OutOfRange` is reported exactly beyond the
/// addressable span. A physical result is never block 0.
pub fn resolve<D: Disk>(bs: &mut BlockStorageService<D>, ptrs: &Vec<u32>, index: u64) -> (r: Result<
    BlockRef,
    Ext2Error,
>)
    requires
        ptrs@.len() == 15,
        old(bs).spec_block_size() % 4 == 0,
        4 <= old(bs).spec_block_size() <= 0x80_0000,
    ensures
        final(bs).spec_block_size() == old(bs).spec_block_size(),
        r is Err ==> r->Err_0 == Ext2Error::OutOfRange || r->Err_0 == Ext2Error::Io,
        (r is Err && r->Err_0 == Ext2Error::OutOfRange) <==> index >= addressable_span(
            old(bs).spec_block_size() as int / 4,
        ),
        index < 12 ==> r is Ok && r->Ok_0 == (if ptrs@[index as int] == 0 {
            BlockRef::Hole
        } else {
            BlockRef::Physical(ptrs@[index as int])
        }),
        12 <= index < addressable_span(old(bs).spec_block_size() as int / 4) && ptrs@[
            band_slot(index, old(bs).spec_block_size() as int / 4) as int] == 0 ==> r is Ok
            && r->Ok_0 == BlockRef::Hole,
        r is Ok && r->Ok_0 is Physical ==> r->Ok_0->0 != 0,
{
    let block_size = bs.block_size();
    let p: u64 = (block_size / 4) as u64;
    let path = match locate_block(index, p) {
        Ok(path) => path,
        Err(e) => {
            return Err(e);
        },
    };
    proof {
        assert(4 * (block_size as int / 4) == block_size as int);
    }
    match path {
        BlockPath::Direct { slot } => Ok(classify_pointer(ptrs[slot])),
        BlockPath::Single { i0 } => {
            let root = ptrs[EXT2_IND_BLOCK];
            if root == 0 {
                return Ok(BlockRef::Hole);
            }
            let blk = match bs.get(root as u64) {
                Ok(blk) => blk,
                Err(_) => {
                    return Err(Ext2Error::Io);
                },
            };
            Ok(classify_pointer(indirect_entry(blk.buffer(), i0)))
        },
        BlockPath::Double { i0, i1 } => {
            let root = ptrs[EXT2_DIND_BLOCK];
            if root == 0 {
                return Ok(BlockRef::Hole);
            }
            let outer = match bs.get(root as u64) {
                Ok(blk) => blk,
                Err(_) => {
                    return Err(Ext2Error::Io);
                },
            };
            let q1 = indirect_entry(outer.buffer(), i0);
            if q1 == 0 {
                return Ok(BlockRef::Hole);
            }
            let inner = match bs.get(q1 as u64) {
                Ok(blk) => blk,
                Err(_) => {
                    return Err(Ext2Error::Io);
                },
            };
            Ok(classify_pointer(indirect_entry(inner.buffer(), i1)))
        },
        BlockPath::Triple { i0, i1, i2 } => {
            let root = ptrs[EXT2_TIND_BLOCK];
            if root == 0 {
                return Ok(BlockRef::Hole);
            }
            let outer = match bs.get(root as u64) {
                Ok(blk) => blk,
                Err(_) => {
                    return Err(Ext2Error::Io);
                },
            };
            let q1 = indirect_entry(outer.buffer(), i0);
            if q1 == 0 {
                return Ok(BlockRef::Hole);
            }
            let middle = match bs.get(q1 as u64) {
                Ok(blk) => blk,
                Err(_) => {
                    return Err(Ext2Error::Io);
                },
            };
            let q2 = indirect_entry(middle.buffer(), i1);
            if q2 == 0 {
                return Ok(BlockRef::Hole);
            }
            let leaf = match bs.get(q2 as u64) {
                Ok(blk) => blk,
                Err(_) => {
                    return Err(Ext2Error::Io);
                },
            };
            Ok(classify_pointer(indirect_entry(leaf.buffer(), i2)))
        },
    }
}

/// The inode pointer slot a logical file-block index is served from: its
/// own direct slot below 12, then slot 12, 13 or 14 for the single-,
/// double- and triple-indirect bands.
pub open spec fn band_slot(index: u64, p: int) -> int {
    if index < 12 {
        index as int
    } else if index < 12 + p {
        12
    } else if index < 12 + p + p * p {
        13
    } else {
        14
    }
}

} // verus!
