//! Inode records: fixed-size entries of a group's inode table, addressed by
//! a 1-based inode number, carrying the file's metadata and its 15-slot
//! block-pointer array.

use vstd::prelude::*;

use crate::bytes::{le16_at, le32_at, read_le16, read_le32, read_u8, write_le16, write_le32,
    zero_buffer};
use crate::superblock::ceil_div;
use crate::Ext2Error;

verus! {

// File-format bits of the mode field.
/// socket
pub const EXT2_S_IFSOCK: u16 = 0xC000;
/// symbolic link
pub const EXT2_S_IFLNK: u16 = 0xA000;
/// regular file
pub const EXT2_S_IFREG: u16 = 0x8000;
/// block device
pub const EXT2_S_IFBLK: u16 = 0x6000;
/// directory
pub const EXT2_S_IFDIR: u16 = 0x4000;
/// character device
pub const EXT2_S_IFCHR: u16 = 0x2000;
/// fifo
pub const EXT2_S_IFIFO: u16 = 0x1000;

// Process execution user/group override bits.
/// Set process User ID
pub const EXT2_S_ISUID: u16 = 0x0800;
/// Set process Group ID
pub const EXT2_S_ISGID: u16 = 0x0400;
/// sticky bit
pub const EXT2_S_ISVTX: u16 = 0x0200;

// Access-right bits.
/// user read
pub const EXT2_S_IRUSR: u16 = 0x0100;
/// user write
pub const EXT2_S_IWUSR: u16 = 0x0080;
/// user execute
pub const EXT2_S_IXUSR: u16 = 0x0040;
/// group read
pub const EXT2_S_IRGRP: u16 = 0x0020;
/// group write
pub const EXT2_S_IWGRP: u16 = 0x0010;
/// group execute
pub const EXT2_S_IXGRP: u16 = 0x0008;
/// others read
pub const EXT2_S_IROTH: u16 = 0x0004;
/// others write
pub const EXT2_S_IWOTH: u16 = 0x0002;
/// others execute
pub const EXT2_S_IXOTH: u16 = 0x0001;

// Reserved inode numbers. Inode number 0 does not exist; the root directory
// is always inode 2.
/// bad blocks inode
pub const EXT2_BAD_INO: usize = 1;
/// root directory inode
pub const EXT2_ROOT_INO: usize = 2;
/// ACL index inode
pub const EXT2_ACL_IDX_INO: usize = 3;
/// ACL data inode
pub const EXT2_ACL_DATA_INO: usize = 4;
/// boot loader inode
pub const EXT2_BOOT_LOADER_INO: usize = 5;
/// undelete directory inode
pub const EXT2_UNDEL_DIR_INO: usize = 6;

/// Direct block-pointer slots in an inode.
pub const EXT2_NDIR_BLOCKS: usize = 12;
/// Slot of the single-indirect pointer.
pub const EXT2_IND_BLOCK: usize = 12;
/// Slot of the double-indirect pointer.
pub const EXT2_DIND_BLOCK: usize = 13;
/// Slot of the triple-indirect pointer.
pub const EXT2_TIND_BLOCK: usize = 14;
/// Total block-pointer slots in an inode.
pub const EXT2_N_BLOCKS: usize = 15;

/// One decoded inode record. The block-pointer array always holds exactly
/// 15 entries: 12 direct slots, then the single-, double- and
/// triple-indirect slots.
#[derive(Clone, Debug, PartialEq, Eq)]
pub struct INode {
    /// File mode
    pub mode: u16,
    /// Low 16 bits of Owner Uid
    pub uid: u16,
    /// Size in bytes (low 32 bits)
    pub size: u32,
    /// Access time
    pub atime: u32,
    /// Creation time
    pub ctime: u32,
    /// Modification time
    pub mtime: u32,
    /// Deletion time
    pub dtime: u32,
    /// Low 16 bits of Group Id
    pub gid: u16,
    /// Links count
    pub links_count: u16,
    /// Count of 512-byte sectors in use
    pub blocks: u32,
    /// File flags
    pub flags: u32,
    /// Pointers to blocks
    pub block: Vec<u32>,
    /// File version (for NFS)
    pub generation: u32,
    /// File ACL
    pub file_acl: u32,
    /// Directory ACL, doubling as the high 32 size bits of a regular file
    pub dir_acl: u32,
    /// Fragment address
    pub faddr: u32,
    /// Fragment number
    pub l_frag: u8,
    /// Fragment size
    pub l_fsize: u8,
    /// High 16 bits of Owner Uid
    pub l_uid_high: u16,
    /// High 16 bits of Group Id
    pub l_gid_high: u16,
}

/// The 15 block pointers stored at byte offsets `off + 40 .. off + 100`.
pub open spec fn block_ptrs_at(s: Seq<u8>, off: int) -> Seq<u32> {
    Seq::new(15, |k: int| le32_at(s, off + 40 + 4 * k) as u32)
}

impl INode {
    /// Whether this record holds exactly the fields stored at byte offset
    /// `off` of `s`, field by field at the on-disk offsets, little-endian.
    pub open spec fn matches_bytes(self, s: Seq<u8>, off: int) -> bool
        recommends
            0 <= off,
            off + 128 <= s.len(),
    {
        &&& self.mode == le16_at(s, off + 0)
        &&& self.uid == le16_at(s, off + 2)
        &&& self.size == le32_at(s, off + 4)
        &&& self.atime == le32_at(s, off + 8)
        &&& self.ctime == le32_at(s, off + 12)
        &&& self.mtime == le32_at(s, off + 16)
        &&& self.dtime == le32_at(s, off + 20)
        &&& self.gid == le16_at(s, off + 24)
        &&& self.links_count == le16_at(s, off + 26)
        &&& self.blocks == le32_at(s, off + 28)
        &&& self.flags == le32_at(s, off + 32)
        &&& self.block@ == block_ptrs_at(s, off)
        &&& self.generation == le32_at(s, off + 100)
        &&& self.file_acl == le32_at(s, off + 104)
        &&& self.dir_acl == le32_at(s, off + 108)
        &&& self.faddr == le32_at(s, off + 112)
        &&& self.l_frag == s[off + 116]
        &&& self.l_fsize == s[off + 117]
        &&& self.l_uid_high == le16_at(s, off + 120)
        &&& self.l_gid_high == le16_at(s, off + 122)
    }

    /// Decodes the inode record stored at byte offset `offset` of `b`,
    /// copying every field out into an owned value. The fields this record
    /// models all lie within the first 128 bytes, whatever record size the
    /// superblock declares.
    pub fn decode(b: &Vec<u8>, offset: usize) -> (r: INode)
        requires
            offset + 128 <= b@.len(),
        ensures
            r.matches_bytes(b@, offset as int),
            r.block@.len() == 15,
    {
        proof {
            assert(offset + 128 <= b.len());
        }
        let mut block: Vec<u32> = Vec::new();
        let mut k: usize = 0;
        while k < 15
            invariant
                k <= 15,
                offset + 128 <= b@.len() <= usize::MAX,
                block@.len() == k,
                forall|j: int| 0 <= j < k ==> block@[j] == le32_at(b@, offset + 40 + 4 * j),
            decreases 15 - k,
        {
            block.push(read_le32(b, offset + 40 + 4 * k));
            k = k + 1;
        }
        proof {
            assert(block@ =~= block_ptrs_at(b@, offset as int));
        }
        INode {
            mode: read_le16(b, offset),
            uid: read_le16(b, offset + 2),
            size: read_le32(b, offset + 4),
            atime: read_le32(b, offset + 8),
            ctime: read_le32(b, offset + 12),
            mtime: read_le32(b, offset + 16),
            dtime: read_le32(b, offset + 20),
            gid: read_le16(b, offset + 24),
            links_count: read_le16(b, offset + 26),
            blocks: read_le32(b, offset + 28),
            flags: read_le32(b, offset + 32),
            block,
            generation: read_le32(b, offset + 100),
            file_acl: read_le32(b, offset + 104),
            dir_acl: read_le32(b, offset + 108),
            faddr: read_le32(b, offset + 112),
            l_frag: read_u8(b, offset + 116),
            l_fsize: read_u8(b, offset + 117),
            l_uid_high: read_le16(b, offset + 120),
            l_gid_high: read_le16(b, offset + 122),
        }
    }

    /// Writes the record into a fresh 128-byte image at the on-disk
    /// offsets. Decoding the image reproduces every field exactly; the
    /// bytes no field covers are zero.
    pub fn encode(&self) -> (r: Vec<u8>)
        requires
            self.block@.len() == 15,
        ensures
            r@.len() == 128,
            self.matches_bytes(r@, 0),
            forall|j: int|
                (36 <= j < 40 || 118 <= j < 120 || 124 <= j < 128) ==> r@[j] == 0u8,
    {
        let mut b = zero_buffer(128);
        let mut k: usize = 0;
        while k < 15
            invariant
                k <= 15,
                self.block@.len() == 15,
                b@.len() == 128,
                forall|j: int| 0 <= j < k ==> le32_at(b@, 40 + 4 * j) == self.block@[j],
                forall|j: int| 0 <= j < 128 && !(40 <= j < 40 + 4 * k) ==> b@[j] == 0u8,
            decreases 15 - k,
        {
            write_le32(&mut b, 40 + 4 * k, self.block[k]);
            k = k + 1;
        }
        write_le16(&mut b, 0, self.mode);
        write_le16(&mut b, 2, self.uid);
        write_le32(&mut b, 4, self.size);
        write_le32(&mut b, 8, self.atime);
        write_le32(&mut b, 12, self.ctime);
        write_le32(&mut b, 16, self.mtime);
        write_le32(&mut b, 20, self.dtime);
        write_le16(&mut b, 24, self.gid);
        write_le16(&mut b, 26, self.links_count);
        write_le32(&mut b, 28, self.blocks);
        write_le32(&mut b, 32, self.flags);
        write_le32(&mut b, 100, self.generation);
        write_le32(&mut b, 104, self.file_acl);
        write_le32(&mut b, 108, self.dir_acl);
        write_le32(&mut b, 112, self.faddr);
        let lf = self.l_frag;
        let lz = self.l_fsize;
        b.set(116, lf);
        b.set(117, lz);
        write_le16(&mut b, 120, self.l_uid_high);
        write_le16(&mut b, 122, self.l_gid_high);
        proof {
            assert(self.block@ =~= block_ptrs_at(b@, 0));
        }
        b
    }

    /// The file-format bits of the mode field.
    pub open spec fn spec_format(self) -> u16 {
        self.mode & 0xF000
    }

    /// The inode's 64-bit byte size. Only a regular file folds the
    /// directory-ACL field in as high-order size bits; for every other
    /// format that field is an ACL and the size is the low 32 bits alone.
    pub open spec fn spec_size(self) -> int {
        if self.spec_format() == EXT2_S_IFREG {
            0x1_0000_0000 * self.dir_acl + self.size
        } else {
            self.size as int
        }
    }

    /// The inode's 64-bit byte size; see `spec_size`.
    pub fn size(&self) -> (r: u64)
        ensures
            r == self.spec_size(),
    {
        if self.mode & 0xF000 == EXT2_S_IFREG {
            0x1_0000_0000u64 * self.dir_acl as u64 + self.size as u64
        } else {
            self.size as u64
        }
    }

    /// The name of the file format encoded in the mode field.
    pub open spec fn spec_file_format(self) -> Seq<char> {
        if self.spec_format() == EXT2_S_IFSOCK {
            "socket"@
        } else if self.spec_format() == EXT2_S_IFLNK {
            "symbolic link"@
        } else if self.spec_format() == EXT2_S_IFREG {
            "regular file"@
        } else if self.spec_format() == EXT2_S_IFBLK {
            "block device"@
        } else if self.spec_format() == EXT2_S_IFDIR {
            "directory"@
        } else if self.spec_format() == EXT2_S_IFCHR {
            "character device"@
        } else if self.spec_format() == EXT2_S_IFIFO {
            "fifo"@
        } else {
            "unknown"@
        }
    }

    /// The name of the file format encoded in the mode field.
    pub fn file_format(&self) -> (r: &'static str)
        ensures
            r@ == self.spec_file_format(),
    {
        let format = self.mode & 0xF000;

        if format == EXT2_S_IFSOCK {
            return "socket";
        }

        if format == EXT2_S_IFLNK {
            return "symbolic link";
        }

        if format == EXT2_S_IFREG {
            return "regular file";
        }

        if format == EXT2_S_IFBLK {
            return "block device";
        }

        if format == EXT2_S_IFDIR {
            return "directory";
        }

        if format == EXT2_S_IFCHR {
            return "character device";
        }

        if format == EXT2_S_IFIFO {
            return "fifo";
        }

        "unknown"
    }
}

impl Default for INode {
    /// The record whose scalar fields hold zero and whose block-pointer
    /// array holds 15 zero slots.
    fn default() -> (r: INode)
        ensures
            r.mode == 0,
            r.uid == 0,
            r.size == 0,
            r.atime == 0,
            r.ctime == 0,
            r.mtime == 0,
            r.dtime == 0,
            r.gid == 0,
            r.links_count == 0,
            r.blocks == 0,
            r.flags == 0,
            r.block@.len() == 15,
            forall|j: int| 0 <= j < 15 ==> r.block@[j] == 0u32,
            r.generation == 0,
            r.file_acl == 0,
            r.dir_acl == 0,
            r.faddr == 0,
            r.l_frag == 0,
            r.l_fsize == 0,
            r.l_uid_high == 0,
            r.l_gid_high == 0,
    {
        let mut block: Vec<u32> = Vec::new();
        let mut k: usize = 0;
        while k < 15
            invariant
                k <= 15,
                block@.len() == k,
                forall|j: int| 0 <= j < k ==> block@[j] == 0u32,
            decreases 15 - k,
        {
            block.push(0u32);
            k = k + 1;
        }
        INode {
            mode: 0,
            uid: 0,
            size: 0,
            atime: 0,
            ctime: 0,
            mtime: 0,
            dtime: 0,
            gid: 0,
            links_count: 0,
            blocks: 0,
            flags: 0,
            block,
            generation: 0,
            file_acl: 0,
            dir_acl: 0,
            faddr: 0,
            l_frag: 0,
            l_fsize: 0,
            l_uid_high: 0,
            l_gid_high: 0,
        }
    }
}

/// Encoding then decoding an inode record is exact: the on-disk image
/// determines every field, so any two records holding the fields of the
/// same image — such as a record and the decode of its own encode — agree
/// on every field, the 15 block pointers included.
pub proof fn lemma_inode_bytes_determine_record(a: INode, b: INode, s: Seq<u8>, off: int)
    requires
        a.matches_bytes(s, off),
        b.matches_bytes(s, off),
    ensures
        a.mode == b.mode,
        a.uid == b.uid,
        a.size == b.size,
        a.atime == b.atime,
        a.ctime == b.ctime,
        a.mtime == b.mtime,
        a.dtime == b.dtime,
        a.gid == b.gid,
        a.links_count == b.links_count,
        a.blocks == b.blocks,
        a.flags == b.flags,
        a.block@ == b.block@,
        a.generation == b.generation,
        a.file_acl == b.file_acl,
        a.dir_acl == b.dir_acl,
        a.faddr == b.faddr,
        a.l_frag == b.l_frag,
        a.l_fsize == b.l_fsize,
        a.l_uid_high == b.l_uid_high,
        a.l_gid_high == b.l_gid_high,
{
}

/// Maps a 1-based inode number to its block group and its index within that
/// group's inode table: group `(n-1) / inodes_per_group`, index
/// `(n-1) % inodes_per_group`. Inode number 0 does not exist, and a number
/// beyond the volume's inode count names no inode; both are rejected, as is
/// a volume declaring zero inodes per group.
pub fn inode_location(sb_inodes_count: u32, sb_inodes_per_group: u32, inode_number: u32) -> (r:
    Result<(u32, u32), Ext2Error>)
    ensures
        r is Ok <==> 1 <= inode_number <= sb_inodes_count && sb_inodes_per_group > 0,
        r is Ok ==> r->Ok_0.0 == (inode_number - 1) as int / sb_inodes_per_group as int
            && r->Ok_0.1 == (inode_number - 1) as int % sb_inodes_per_group as int,
        r is Err ==> (r->Err_0 == Ext2Error::InvalidInode || r->Err_0
            == Ext2Error::UnsupportedGeometry),
        r is Err ==> (if inode_number == 0 || inode_number > sb_inodes_count {
            r->Err_0 == Ext2Error::InvalidInode
        } else {
            r->Err_0 == Ext2Error::UnsupportedGeometry
        }),
{
    if inode_number == 0 || inode_number > sb_inodes_count {
        return Err(Ext2Error::InvalidInode);
    }
    if sb_inodes_per_group == 0 {
        return Err(Ext2Error::UnsupportedGeometry);
    }
    let group: u32 = (inode_number - 1) / sb_inodes_per_group;
    let index: u32 = (inode_number - 1) % sb_inodes_per_group;
    Ok((group, index))
}

/// Maps an index within a group's inode table to the block holding that
/// record and the record's byte offset within the block: byte offset
/// `index * inode_size` from the table's start at `inode_table_start`.
pub fn inode_table_block(inode_table_start: u32, index_within_group: u32, inode_size: u16,
    block_size: u64) -> (r: (u64, u64))
    requires
        block_size > 0,
    ensures
        r.0 == inode_table_start + (index_within_group * inode_size) as int / block_size as int,
        r.1 == (index_within_group * inode_size) as int % block_size as int,
        r.1 < block_size,
{
    proof {
        assert(index_within_group * inode_size <= 0xFFFF_FFFF * 0xFFFF) by (nonlinear_arith)
            requires
                index_within_group <= 0xFFFF_FFFF,
                inode_size <= 0xFFFF,
        ;
        assert((index_within_group * inode_size) as int / block_size as int <= (index_within_group
            * inode_size) as int) by (nonlinear_arith)
            requires
                0 <= index_within_group * inode_size,
                block_size > 0,
        ;
    }
    let byte_offset: u64 = index_within_group as u64 * inode_size as u64;
    let block: u64 = inode_table_start as u64 + byte_offset / block_size;
    let offset: u64 = byte_offset % block_size;
    (block, offset)
}

/// Inode addressing stays in range: for every valid inode number the
/// location step yields an index below `inodes_per_group`, and the table
/// step then yields a byte offset within `[0, block_size)` and a block
/// number within the group's inode-table extent of
/// `ceil(inodes_per_group * inode_size / block_size)` blocks.
pub proof fn lemma_inode_addressing_in_range(inodes_count: int, inodes_per_group: int,
    inode_number: int, inode_table_start: int, inode_size: int, block_size: int)
    requires
        1 <= inode_number <= inodes_count,
        inodes_per_group > 0,
        inode_size > 0,
        block_size > 0,
    ensures
        0 <= (inode_number - 1) % inodes_per_group < inodes_per_group,
        0 <= ((inode_number - 1) % inodes_per_group * inode_size) % block_size < block_size,
        inode_table_start <= inode_table_start + ((inode_number - 1) % inodes_per_group
            * inode_size) / block_size < inode_table_start + ceil_div(
            inodes_per_group * inode_size,
            block_size,
        ),
{
    let idx = (inode_number - 1) % inodes_per_group;
    let off = idx * inode_size;
    assert(0 <= idx < inodes_per_group);
    assert(0 <= off <= (inodes_per_group - 1) * inode_size) by (nonlinear_arith)
        requires
            0 <= idx < inodes_per_group,
            off == idx * inode_size,
            inode_size > 0,
    ;
    assert(off <= inodes_per_group * inode_size - 1) by (nonlinear_arith)
        requires
            0 <= off <= (inodes_per_group - 1) * inode_size,
            inodes_per_group > 0,
            inode_size > 0,
    ;
    assert(0 <= off % block_size < block_size) by (nonlinear_arith)
        requires
            0 <= off,
            block_size > 0,
    ;
    assert(0 <= off / block_size) by (nonlinear_arith)
        requires
            0 <= off,
            block_size > 0,
    ;
    assert(off / block_size < ceil_div(inodes_per_group * inode_size, block_size))
        by (nonlinear_arith)
        requires
            0 <= off <= inodes_per_group * inode_size - 1,
            block_size > 0,
            ceil_div(inodes_per_group * inode_size, block_size) == (inodes_per_group * inode_size
                + block_size - 1) / block_size,
    ;
}

} // verus!
