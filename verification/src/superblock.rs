//! The volume superblock: a fixed 1024-byte record at absolute byte offset
//! 1024 of the volume, decoded field by field into an owned value.

use vstd::prelude::*;

use crate::bytes::{le16_at, le32_at, read_le16, read_le32, write_le16, write_le32, zero_buffer};
use crate::Ext2Error;

verus! {

/// The magic signature every recognised volume carries at byte offsets
/// 56..58 of its superblock.
pub const EXT2_MAGIC: u16 = 0xEF53;

/// The decoded superblock record. Scalar fields only; the field order and
/// byte offsets follow the on-disk layout.
#[derive(Clone, Copy, Debug, PartialEq, Eq, Structural)]
pub struct SuperBlock {
    /// Inodes count
    pub inodes_count: u32,
    /// Blocks count
    pub blocks_count: u32,
    /// Reserved blocks count
    pub r_blocks_count: u32,
    /// Free blocks count
    pub free_blocks_count: u32,
    /// Free inodes count
    pub free_inodes_count: u32,
    /// First data block
    pub first_data_block: u32,
    /// log2(block size / 1024)
    pub log_block_size: u32,
    /// log2(fragment size / 1024), negative exponents encoded two's-complement
    pub log_frag_size: u32,
    /// Blocks per group
    pub blocks_per_group: u32,
    /// Fragments per group
    pub frags_per_group: u32,
    /// Inodes per group
    pub inodes_per_group: u32,
    /// Mount time
    pub mtime: u32,
    /// Write time
    pub wtime: u32,
    /// Mount count
    pub mnt_count: u16,
    /// Maximal mount count
    pub max_mnt_count: u16,
    /// Magic signature
    pub magic: u16,
    /// File system state
    pub state: u16,
    /// Behaviour when detecting errors
    pub errors: u16,
    /// Minor revision level
    pub minor_rev_level: u16,
    /// Time of last check
    pub lastcheck: u32,
    /// Maximal time between checks
    pub checkinterval: u32,
    /// Creator OS
    pub creator_os: u32,
    /// Revision level
    pub rev_level: u32,
    /// Default uid for reserved blocks
    pub def_resuid: u16,
    /// Default gid for reserved blocks
    pub def_resgid: u16,
    /// First non-reserved inode number
    pub first_ino: u32,
    /// Size of an inode record in bytes (dynamic revision)
    pub inode_size: u16,
    /// Block group number of this superblock copy
    pub block_group_nr: u16,
}

impl SuperBlock {
    /// The record whose fields all hold zero.
    pub open spec fn zeroed() -> SuperBlock {
        SuperBlock {
            inodes_count: 0,
            blocks_count: 0,
            r_blocks_count: 0,
            free_blocks_count: 0,
            free_inodes_count: 0,
            first_data_block: 0,
            log_block_size: 0,
            log_frag_size: 0,
            blocks_per_group: 0,
            frags_per_group: 0,
            inodes_per_group: 0,
            mtime: 0,
            wtime: 0,
            mnt_count: 0,
            max_mnt_count: 0,
            magic: 0,
            state: 0,
            errors: 0,
            minor_rev_level: 0,
            lastcheck: 0,
            checkinterval: 0,
            creator_os: 0,
            rev_level: 0,
            def_resuid: 0,
            def_resgid: 0,
            first_ino: 0,
            inode_size: 0,
            block_group_nr: 0,
        }
    }

    /// The superblock stored in the first 1024 bytes of `s`, field by field
    /// at the on-disk offsets, little-endian.
    pub open spec fn spec_decode(s: Seq<u8>) -> SuperBlock
        recommends
            s.len() >= 1024,
    {
        SuperBlock {
            inodes_count: le32_at(s, 0) as u32,
            blocks_count: le32_at(s, 4) as u32,
            r_blocks_count: le32_at(s, 8) as u32,
            free_blocks_count: le32_at(s, 12) as u32,
            free_inodes_count: le32_at(s, 16) as u32,
            first_data_block: le32_at(s, 20) as u32,
            log_block_size: le32_at(s, 24) as u32,
            log_frag_size: le32_at(s, 28) as u32,
            blocks_per_group: le32_at(s, 32) as u32,
            frags_per_group: le32_at(s, 36) as u32,
            inodes_per_group: le32_at(s, 40) as u32,
            mtime: le32_at(s, 44) as u32,
            wtime: le32_at(s, 48) as u32,
            mnt_count: le16_at(s, 52) as u16,
            max_mnt_count: le16_at(s, 54) as u16,
            magic: le16_at(s, 56) as u16,
            state: le16_at(s, 58) as u16,
            errors: le16_at(s, 60) as u16,
            minor_rev_level: le16_at(s, 62) as u16,
            lastcheck: le32_at(s, 64) as u32,
            checkinterval: le32_at(s, 68) as u32,
            creator_os: le32_at(s, 72) as u32,
            rev_level: le32_at(s, 76) as u32,
            def_resuid: le16_at(s, 80) as u16,
            def_resgid: le16_at(s, 82) as u16,
            first_ino: le32_at(s, 84) as u32,
            inode_size: le16_at(s, 88) as u16,
            block_group_nr: le16_at(s, 90) as u16,
        }
    }

    /// Decodes the superblock from its 1024-byte on-disk image and validates
    /// the magic signature; any other signature value rejects the volume.
    pub fn decode(b: &Vec<u8>) -> (r: Result<SuperBlock, Ext2Error>)
        requires
            b@.len() == 1024,
        ensures
            r is Ok <==> le16_at(b@, 56) == EXT2_MAGIC,
            r is Ok ==> r->Ok_0 == SuperBlock::spec_decode(b@) && r->Ok_0.magic == EXT2_MAGIC,
            r is Err ==> r->Err_0 == Ext2Error::BadMagic,
    {
        let magic = read_le16(b, 56);
        if magic != EXT2_MAGIC {
            return Err(Ext2Error::BadMagic);
        }
        Ok(SuperBlock {
            inodes_count: read_le32(b, 0),
            blocks_count: read_le32(b, 4),
            r_blocks_count: read_le32(b, 8),
            free_blocks_count: read_le32(b, 12),
            free_inodes_count: read_le32(b, 16),
            first_data_block: read_le32(b, 20),
            log_block_size: read_le32(b, 24),
            log_frag_size: read_le32(b, 28),
            blocks_per_group: read_le32(b, 32),
            frags_per_group: read_le32(b, 36),
            inodes_per_group: read_le32(b, 40),
            mtime: read_le32(b, 44),
            wtime: read_le32(b, 48),
            mnt_count: read_le16(b, 52),
            max_mnt_count: read_le16(b, 54),
            magic,
            state: read_le16(b, 58),
            errors: read_le16(b, 60),
            minor_rev_level: read_le16(b, 62),
            lastcheck: read_le32(b, 64),
            checkinterval: read_le32(b, 68),
            creator_os: read_le32(b, 72),
            rev_level: read_le32(b, 76),
            def_resuid: read_le16(b, 80),
            def_resgid: read_le16(b, 82),
            first_ino: read_le32(b, 84),
            inode_size: read_le16(b, 88),
            block_group_nr: read_le16(b, 90),
        })
    }

    /// Writes the record back into a fresh 1024-byte image at the on-disk
    /// offsets. Decoding the image reproduces every field exactly; the bytes
    /// no field covers are zero.
    pub fn encode(&self) -> (r: Vec<u8>)
        ensures
            r@.len() == 1024,
            SuperBlock::spec_decode(r@) == *self,
            forall|j: int| 92 <= j < 1024 ==> r@[j] == 0u8,
    {
        let mut b = zero_buffer(1024);
        write_le32(&mut b, 0, self.inodes_count);
        write_le32(&mut b, 4, self.blocks_count);
        write_le32(&mut b, 8, self.r_blocks_count);
        write_le32(&mut b, 12, self.free_blocks_count);
        write_le32(&mut b, 16, self.free_inodes_count);
        write_le32(&mut b, 20, self.first_data_block);
        write_le32(&mut b, 24, self.log_block_size);
        write_le32(&mut b, 28, self.log_frag_size);
        write_le32(&mut b, 32, self.blocks_per_group);
        write_le32(&mut b, 36, self.frags_per_group);
        write_le32(&mut b, 40, self.inodes_per_group);
        write_le32(&mut b, 44, self.mtime);
        write_le32(&mut b, 48, self.wtime);
        write_le16(&mut b, 52, self.mnt_count);
        write_le16(&mut b, 54, self.max_mnt_count);
        write_le16(&mut b, 56, self.magic);
        write_le16(&mut b, 58, self.state);
        write_le16(&mut b, 60, self.errors);
        write_le16(&mut b, 62, self.minor_rev_level);
        write_le32(&mut b, 64, self.lastcheck);
        write_le32(&mut b, 68, self.checkinterval);
        write_le32(&mut b, 72, self.creator_os);
        write_le32(&mut b, 76, self.rev_level);
        write_le16(&mut b, 80, self.def_resuid);
        write_le16(&mut b, 82, self.def_resgid);
        write_le32(&mut b, 84, self.first_ino);
        write_le16(&mut b, 88, self.inode_size);
        write_le16(&mut b, 90, self.block_group_nr);
        b
    }

    /// The volume's block size in bytes: `1024 << log_block_size`.
    ///
    /// The bound on the exponent is what a 64-bit result can carry.
    pub fn block_size(&self) -> (r: u64)
        requires
            self.log_block_size <= 53,
        ensures
            r == (1024u64 << self.log_block_size),
    {
        1024u64 << self.log_block_size
    }

    /// The volume's fragment size in bytes. The exponent is signed: a value
    /// below `0x8000_0000` scales 1024 up, any other value is a
    /// two's-complement negative exponent and scales 1024 down.
    ///
    /// The bounds on the exponent are what 64-bit shifts can carry.
    pub fn frag_size(&self) -> (r: u64)
        requires
            self.log_frag_size <= 53 || self.log_frag_size >= 0xFFFF_FFC1,
        ensures
            self.log_frag_size < 0x8000_0000 ==> r == (1024u64 << self.log_frag_size),
            self.log_frag_size >= 0x8000_0000 ==> r == (1024u64 >> (0x1_0000_0000
                - self.log_frag_size) as u64),
    {
        if self.log_frag_size < 0x8000_0000 {
            1024u64 << self.log_frag_size
        } else {
            let down = 0x1_0000_0000u64 - self.log_frag_size as u64;
            1024u64 >> down
        }
    }

    /// The size in bytes of one inode record: fixed at 128 on
    /// static-revision volumes, superblock-declared on later revisions.
    pub fn inode_record_size(&self) -> (r: u16)
        ensures
            r == (if self.rev_level == 0 {
                128u16
            } else {
                self.inode_size
            }),
    {
        if self.rev_level == 0 {
            128
        } else {
            self.inode_size
        }
    }
}

/// `ceil(a / b)` for a positive divisor.
pub open spec fn ceil_div(a: int, b: int) -> int
    recommends
        b > 0,
{
    (a + b - 1) / b
}

impl SuperBlock {
    /// The number of block groups: `ceil(blocks_count / blocks_per_group)`,
    /// cross-checked against `ceil(inodes_count / inodes_per_group)`. The
    /// two must agree, and both divisors must be non-zero; otherwise the
    /// volume's geometry is inconsistent and is rejected.
    pub fn group_count(&self) -> (r: Result<usize, Ext2Error>)
        ensures
            r is Ok <==> self.blocks_per_group > 0 && self.inodes_per_group > 0 && ceil_div(
                self.blocks_count as int,
                self.blocks_per_group as int,
            ) == ceil_div(self.inodes_count as int, self.inodes_per_group as int),
            r is Ok ==> r->Ok_0 == ceil_div(self.blocks_count as int, self.blocks_per_group as int),
            r is Err ==> r->Err_0 == Ext2Error::InconsistentGroupCounts,
    {
        if self.blocks_per_group == 0 || self.inodes_per_group == 0 {
            return Err(Ext2Error::InconsistentGroupCounts);
        }
        let by_blocks: u64 = (self.blocks_count as u64 + self.blocks_per_group as u64 - 1)
            / self.blocks_per_group as u64;
        let by_inodes: u64 = (self.inodes_count as u64 + self.inodes_per_group as u64 - 1)
            / self.inodes_per_group as u64;
        if by_blocks != by_inodes {
            return Err(Ext2Error::InconsistentGroupCounts);
        }
        proof {
            let bc = self.blocks_count as int;
            let d = self.blocks_per_group as int;
            assert((bc + d - 1) / d <= bc) by (nonlinear_arith)
                requires
                    1 <= d,
                    0 <= bc,
            ;
        }
        Ok(by_blocks as usize)
    }

    /// The block number where the group descriptor table starts: the block
    /// immediately following the superblock's block.
    pub fn group_descriptor_table_start(&self) -> (r: u64)
        ensures
            r == self.first_data_block + 1,
    {
        self.first_data_block as u64 + 1
    }
}

impl Default for SuperBlock {
    /// The all-zero record.
    fn default() -> (r: SuperBlock)
        ensures
            r == SuperBlock::zeroed(),
    {
        SuperBlock {
            inodes_count: 0,
            blocks_count: 0,
            r_blocks_count: 0,
            free_blocks_count: 0,
            free_inodes_count: 0,
            first_data_block: 0,
            log_block_size: 0,
            log_frag_size: 0,
            blocks_per_group: 0,
            frags_per_group: 0,
            inodes_per_group: 0,
            mtime: 0,
            wtime: 0,
            mnt_count: 0,
            max_mnt_count: 0,
            magic: 0,
            state: 0,
            errors: 0,
            minor_rev_level: 0,
            lastcheck: 0,
            checkinterval: 0,
            creator_os: 0,
            rev_level: 0,
            def_resuid: 0,
            def_resgid: 0,
            first_ino: 0,
            inode_size: 0,
            block_group_nr: 0,
        }
    }
}

} // verus!
