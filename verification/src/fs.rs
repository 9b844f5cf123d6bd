//! The block-access layer and the filesystem composition root: the block
//! device capability, owned block buffers fetched from it, and the volume
//! handle that ties a device to its decoded superblock.

use vstd::prelude::*;

use crate::bytes::copy_bytes;
use crate::bytes::zero_buffer;
use crate::dir::DirIter;
use crate::group::{GroupDesc, GROUP_DESC_SIZE};
use crate::inode::INode;
use crate::superblock::{SuperBlock, EXT2_MAGIC};
use crate::Ext2Error;

verus! {

/// The block-device capability this layer consumes, supplied and
/// implemented by the embedding application. A read or write transfers
/// exactly `buffer.len()` bytes at byte offset `block * buffer.len()`; a
/// failed or short transfer reports `Err`. An implementation must leave the
/// buffer's length unchanged; nothing else is assumed of it, so callers
/// validate whatever they read.
pub trait Disk {
    /// A human-readable device name.
    fn name(&self) -> String;

    /// Reads one block into `buffer`.
    fn read(&mut self, block: u64, buffer: &mut Vec<u8>) -> (r: Result<(), usize>)
        ensures
            final(buffer)@.len() == old(buffer)@.len(),
    ;

    /// Writes one block from `buffer`.
    fn write(&mut self, block: u64, buffer: &Vec<u8>) -> (r: Result<(), usize>);
}

/// Failure of a block fetch: the device could not complete the transfer.
#[derive(Clone, Copy, Debug, PartialEq, Eq, Structural)]
pub enum BlockStorageError {
    BAD,
}

/// What a fetched block is expected to hold.
#[derive(Clone, Copy, Debug, PartialEq, Eq, Structural)]
pub enum BlockDataType {
    Raw,
    GroupDesc,
    INodeTable,
    BlockBitmap,
}

/// One block's worth of bytes, fetched from the device into an owned
/// buffer, remembering its block number and whether it has been modified.
pub struct Block {
    block_number: u64,
    dirty: bool,
    buffer: Vec<u8>,
}

impl Block {
    /// The number of the block this buffer was fetched from.
    pub closed spec fn spec_block_number(self) -> u64 {
        self.block_number
    }

    /// Whether the buffer has been marked as modified.
    pub closed spec fn spec_dirty(self) -> bool {
        self.dirty
    }

    /// The buffer's bytes.
    pub closed spec fn spec_buffer(self) -> Seq<u8> {
        self.buffer@
    }

    /// Wraps an owned buffer as a clean block with the given number.
    pub fn new(block: u64, buffer: Vec<u8>) -> (r: Block)
        ensures
            r.spec_block_number() == block,
            !r.spec_dirty(),
            r.spec_buffer() == buffer@,
    {
        Block { dirty: false, block_number: block, buffer }
    }

    /// Fetches block `block` of the device into an owned buffer of exactly
    /// `length` bytes; a failed device transfer is reported as an error
    /// instead.
    pub fn load_from_disk<D: Disk>(disk: &mut D, block: u64, length: usize) -> (r: Result<
        Block,
        BlockStorageError,
    >)
        ensures
            r is Ok ==> r->Ok_0.spec_block_number() == block && !r->Ok_0.spec_dirty()
                && r->Ok_0.spec_buffer().len() == length,
            r is Err ==> r->Err_0 == BlockStorageError::BAD,
    {
        let mut buffer = zero_buffer(length);
        match disk.read(block, &mut buffer) {
            Ok(()) => Ok(Block::new(block, buffer)),
            Err(_) => Err(BlockStorageError::BAD),
        }
    }

    /// The buffer's bytes.
    pub fn buffer(&self) -> (r: &Vec<u8>)
        ensures
            r@ == self.spec_buffer(),
    {
        &self.buffer
    }

    /// The number of the block this buffer was fetched from.
    pub fn block_number(&self) -> (r: u64)
        ensures
            r == self.spec_block_number(),
    {
        self.block_number
    }

    /// Whether the buffer has been marked as modified.
    pub fn is_dirty(&self) -> (r: bool)
        ensures
            r == self.spec_dirty(),
    {
        self.dirty
    }

    /// Flags the buffer as modified. Write-back is the embedding
    /// application's responsibility; this layer only tracks the flag.
    pub fn mark_dirty(&mut self)
        ensures
            final(self).spec_dirty(),
            final(self).spec_block_number() == old(self).spec_block_number(),
            final(self).spec_buffer() == old(self).spec_buffer(),
    {
        self.dirty = true;
    }

    /// Stores `byte` at offset `i` of the buffer and flags it as modified.
    pub fn set_byte(&mut self, i: usize, byte: u8)
        requires
            i < old(self).spec_buffer().len(),
        ensures
            final(self).spec_dirty(),
            final(self).spec_block_number() == old(self).spec_block_number(),
            final(self).spec_buffer() == old(self).spec_buffer().update(i as int, byte),
    {
        self.dirty = true;
        self.buffer.set(i, byte);
    }

    /// Decodes the group descriptor with the given index from this block of
    /// the descriptor table, copying it out into an owned value.
    pub fn as_group_descriptor(&self, index: usize) -> (r: GroupDesc)
        requires
            GROUP_DESC_SIZE * index + GROUP_DESC_SIZE <= self.spec_buffer().len(),
        ensures
            r == GroupDesc::spec_decode(self.spec_buffer(), GROUP_DESC_SIZE * index),
    {
        GroupDesc::decode(&self.buffer, index)
    }

    /// Decodes the first `how_many` inode records of this inode-table
    /// block, each `inode_size` bytes apart, copying them out into owned
    /// values.
    pub fn as_inode_slice(&self, how_many: usize, inode_size: usize) -> (r: Vec<INode>)
        requires
            inode_size >= 128,
            how_many * inode_size <= self.spec_buffer().len(),
        ensures
            r@.len() == how_many,
            forall|i: int|
                0 <= i < how_many ==> (#[trigger] r@[i]).matches_bytes(
                    self.spec_buffer(),
                    i * inode_size,
                ),
    {
        proof {
            assert(how_many * inode_size <= self.buffer.len());
        }
        let mut out: Vec<INode> = Vec::new();
        let mut i: usize = 0;
        while i < how_many
            invariant
                i <= how_many,
                inode_size >= 128,
                how_many * inode_size <= self.buffer@.len() <= usize::MAX,
                out@.len() == i,
                forall|j: int|
                    0 <= j < i ==> (#[trigger] out@[j]).matches_bytes(
                        self.buffer@,
                        j * inode_size,
                    ),
            decreases how_many - i,
        {
            proof {
                assert((i + 1) * inode_size <= how_many * inode_size) by (nonlinear_arith)
                    requires
                        i < how_many,
                        inode_size >= 128,
                ;
                assert(i * inode_size + 128 <= (i + 1) * inode_size) by (nonlinear_arith)
                    requires
                        inode_size >= 128,
                        0 <= i,
                ;
            }
            let rec = INode::decode(&self.buffer, i * inode_size);
            out.push(rec);
            i = i + 1;
        }
        out
    }

    /// Starts a directory-entry walk over a copy of this block's bytes.
    pub fn directory_iter(&self) -> (r: DirIter)
        ensures
            r.spec_block() == self.spec_buffer(),
            r.spec_offset() == 0,
    {
        let n = self.buffer.len();
        DirIter::new(copy_bytes(&self.buffer, 0, n))
    }
}

/// Fetches blocks of a fixed size from a device it owns; the sole place
/// the logical block size is applied to compute byte offsets.
pub struct BlockStorageService<D: Disk> {
    disk: D,
    block_size: usize,
}

impl<D: Disk> BlockStorageService<D> {
    /// The fixed block size every fetch uses.
    pub closed spec fn spec_block_size(self) -> usize {
        self.block_size
    }

    /// Wraps a device together with the volume's block size.
    pub fn new(disk: D, block_size: usize) -> (r: BlockStorageService<D>)
        ensures
            r.spec_block_size() == block_size,
    {
        BlockStorageService { disk, block_size }
    }

    /// The fixed block size every fetch uses.
    pub fn block_size(&self) -> (r: usize)
        ensures
            r == self.spec_block_size(),
    {
        self.block_size
    }

    /// Fetches block `block` into an owned buffer of exactly one block.
    pub fn get(&mut self, block: u64) -> (r: Result<Block, BlockStorageError>)
        ensures
            final(self).spec_block_size() == old(self).spec_block_size(),
            r is Ok ==> r->Ok_0.spec_block_number() == block && !r->Ok_0.spec_dirty()
                && r->Ok_0.spec_buffer().len() == old(self).spec_block_size(),
            r is Err ==> r->Err_0 == BlockStorageError::BAD,
    {
        Block::load_from_disk(&mut self.disk, block, self.block_size)
    }
}

/// An opened volume: the device's block store together with the decoded,
/// validated superblock. The superblock is decoded once at open time and
/// never mutated afterwards.
pub struct ExtFS<D: Disk> {
    pub bs: BlockStorageService<D>,
    pub sb: SuperBlock,
}

impl<D: Disk> ExtFS<D> {
    /// Opens a volume: reads the 1024 superblock bytes at absolute byte
    /// offset 1024 of the device, decodes and validates them, and wraps the
    /// device in a block store using the volume's declared block size.
    ///
    /// A volume is rejected with `BadMagic` when its signature is not the
    /// ext2 magic, and with `UnsupportedGeometry` when its declared block
    /// size exponent cannot be carried by this machine's word sizes. A
    /// failed device read reports `Io`.
    pub fn new(mut disk: D) -> (r: Result<ExtFS<D>, Ext2Error>)
        ensures
            r is Ok ==> r->Ok_0.sb.magic == EXT2_MAGIC && r->Ok_0.sb.log_block_size <= 53
                && r->Ok_0.bs.spec_block_size() == (1024u64 << r->Ok_0.sb.log_block_size),
            r is Err ==> (r->Err_0 == Ext2Error::Io || r->Err_0 == Ext2Error::BadMagic || r->Err_0
                == Ext2Error::UnsupportedGeometry),
    {
        let mut buffer = zero_buffer(1024);
        match disk.read(1, &mut buffer) {
            Ok(()) => {},
            Err(_) => {
                return Err(Ext2Error::Io);
            },
        }
        let sb = match SuperBlock::decode(&buffer) {
            Ok(sb) => sb,
            Err(e) => {
                return Err(e);
            },
        };
        if sb.log_block_size > 53 {
            return Err(Ext2Error::UnsupportedGeometry);
        }
        let block_size = sb.block_size();
        if block_size > usize::MAX as u64 {
            return Err(Ext2Error::UnsupportedGeometry);
        }
        let bs = BlockStorageService::new(disk, block_size as usize);
        Ok(ExtFS { bs, sb })
    }

    /// Fetches the first block of the group descriptor table: the block
    /// immediately following the superblock's block. A table spanning more
    /// than one block is covered by fetching the following blocks in turn.
    pub fn group_descriptor_table(&mut self) -> (r: Result<Block, BlockStorageError>)
        ensures
            final(self).sb == old(self).sb,
            final(self).bs.spec_block_size() == old(self).bs.spec_block_size(),
            r is Ok ==> r->Ok_0.spec_block_number() == old(self).sb.first_data_block + 1
                && r->Ok_0.spec_buffer().len() == old(self).bs.spec_block_size(),
            r is Err ==> r->Err_0 == BlockStorageError::BAD,
    {
        let block_number: u64 = self.sb.first_data_block as u64 + 1;
        self.bs.get(block_number)
    }

    /// Fetches block `k` of the group descriptor table, for a table that
    /// spans more than one block. The bound on `k` is what 64-bit block
    /// arithmetic can carry; every block a descriptor table can span lies
    /// within it.
    pub fn group_descriptor_block(&mut self, k: u64) -> (r: Result<Block, BlockStorageError>)
        requires
            k <= 0xFFFF_FFFF,
        ensures
            final(self).sb == old(self).sb,
            final(self).bs.spec_block_size() == old(self).bs.spec_block_size(),
            r is Ok ==> r->Ok_0.spec_block_number() == old(self).sb.first_data_block + 1 + k
                && r->Ok_0.spec_buffer().len() == old(self).bs.spec_block_size(),
            r is Err ==> r->Err_0 == BlockStorageError::BAD,
    {
        let block_number: u64 = self.sb.first_data_block as u64 + 1 + k;
        self.bs.get(block_number)
    }

    /// Fetches the first block of the given group's inode table.
    pub fn inode_table(&mut self, gd: &GroupDesc) -> (r: Result<Block, BlockStorageError>)
        ensures
            final(self).sb == old(self).sb,
            final(self).bs.spec_block_size() == old(self).bs.spec_block_size(),
            r is Ok ==> r->Ok_0.spec_block_number() == gd.inode_table
                && r->Ok_0.spec_buffer().len() == old(self).bs.spec_block_size(),
            r is Err ==> r->Err_0 == BlockStorageError::BAD,
    {
        self.bs.get(gd.inode_table as u64)
    }
}

} // verus!
