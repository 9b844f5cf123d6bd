//! Block-group descriptors: fixed 32-byte records packed contiguously in
//! the table that starts at the block following the superblock's block,
//! one record per block group.

use vstd::prelude::*;

use crate::bytes::{le16_at, le32_at, read_le16, read_le32, write_le16, write_le32, zero_buffer};
use crate::superblock::ceil_div;
use crate::Ext2Error;

verus! {

/// The byte span of one group descriptor record on disk.
pub const GROUP_DESC_SIZE: usize = 32;

/// One decoded block-group descriptor.
#[derive(Clone, Copy, Debug, PartialEq, Eq, Structural)]
pub struct GroupDesc {
    /// Blocks bitmap block
    pub block_bitmap: u32,
    /// Inodes bitmap block
    pub inode_bitmap: u32,
    /// Inodes table block
    pub inode_table: u32,
    /// Free blocks count
    pub free_blocks_count: u16,
    /// Free inodes count
    pub free_inodes_count: u16,
    /// Directories count
    pub used_dirs_count: u16,
}

impl GroupDesc {
    /// The record whose fields all hold zero.
    pub open spec fn zeroed() -> GroupDesc {
        GroupDesc {
            block_bitmap: 0,
            inode_bitmap: 0,
            inode_table: 0,
            free_blocks_count: 0,
            free_inodes_count: 0,
            used_dirs_count: 0,
        }
    }

    /// The descriptor stored at byte offset `off` of `s`, field by field at
    /// the on-disk offsets, little-endian.
    pub open spec fn spec_decode(s: Seq<u8>, off: int) -> GroupDesc
        recommends
            0 <= off,
            off + GROUP_DESC_SIZE <= s.len(),
    {
        GroupDesc {
            block_bitmap: le32_at(s, off + 0) as u32,
            inode_bitmap: le32_at(s, off + 4) as u32,
            inode_table: le32_at(s, off + 8) as u32,
            free_blocks_count: le16_at(s, off + 12) as u16,
            free_inodes_count: le16_at(s, off + 14) as u16,
            used_dirs_count: le16_at(s, off + 16) as u16,
        }
    }

    /// Decodes the descriptor with the given index from a descriptor-table
    /// buffer: the 32-byte record at byte offset `32 * index`, copied out
    /// into an owned value.
    pub fn decode(b: &Vec<u8>, index: usize) -> (r: GroupDesc)
        requires
            GROUP_DESC_SIZE * index + GROUP_DESC_SIZE <= b@.len(),
        ensures
            r == GroupDesc::spec_decode(b@, GROUP_DESC_SIZE * index),
    {
        proof {
            assert(GROUP_DESC_SIZE * index + GROUP_DESC_SIZE <= b.len());
        }
        let off = GROUP_DESC_SIZE * index;
        GroupDesc {
            block_bitmap: read_le32(b, off),
            inode_bitmap: read_le32(b, off + 4),
            inode_table: read_le32(b, off + 8),
            free_blocks_count: read_le16(b, off + 12),
            free_inodes_count: read_le16(b, off + 14),
            used_dirs_count: read_le16(b, off + 16),
        }
    }

    /// Writes the record into a fresh 32-byte image at the on-disk offsets.
    /// Decoding the image reproduces every field exactly; the bytes no
    /// field covers are zero.
    pub fn encode(&self) -> (r: Vec<u8>)
        ensures
            r@.len() == GROUP_DESC_SIZE,
            GroupDesc::spec_decode(r@, 0) == *self,
            forall|j: int| 18 <= j < 32 ==> r@[j] == 0u8,
    {
        let mut b = zero_buffer(GROUP_DESC_SIZE);
        write_le32(&mut b, 0, self.block_bitmap);
        write_le32(&mut b, 4, self.inode_bitmap);
        write_le32(&mut b, 8, self.inode_table);
        write_le16(&mut b, 12, self.free_blocks_count);
        write_le16(&mut b, 14, self.free_inodes_count);
        write_le16(&mut b, 16, self.used_dirs_count);
        b
    }
}

/// How many blocks the packed descriptor table occupies:
/// `ceil(group_count * 32 / block_size)`. The bounds are what the 64-bit
/// ceiling arithmetic can carry; every count a consistent superblock can
/// declare lies within them.
pub fn descriptor_table_blocks(group_count: usize, block_size: u64) -> (r: u64)
    requires
        1 <= block_size <= 0x0020_0000_0000_0000,
        group_count <= 0xFFFF_FFFF,
    ensures
        r == ceil_div(GROUP_DESC_SIZE * group_count, block_size as int),
{
    let table_bytes: u64 = GROUP_DESC_SIZE as u64 * group_count as u64;
    proof {
        assert(table_bytes <= 0x20_0000_0000) by (nonlinear_arith)
            requires
                table_bytes == 32 * group_count,
                group_count <= 0xFFFF_FFFF,
        ;
    }
    (table_bytes + block_size - 1) / block_size
}

impl Default for GroupDesc {
    /// The all-zero record.
    fn default() -> (r: GroupDesc)
        ensures
            r == GroupDesc::zeroed(),
    {
        GroupDesc {
            block_bitmap: 0,
            inode_bitmap: 0,
            inode_table: 0,
            free_blocks_count: 0,
            free_inodes_count: 0,
            used_dirs_count: 0,
        }
    }
}

} // verus!
