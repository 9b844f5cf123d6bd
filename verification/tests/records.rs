use ext2::dir::{decode_entries, DirEntry, DirIter};
use ext2::group::{descriptor_table_blocks, GroupDesc};
use ext2::inode::{inode_location, inode_table_block, INode, EXT2_ROOT_INO, EXT2_S_IFDIR,
    EXT2_S_IFREG, EXT2_S_IFSOCK};
use ext2::superblock::SuperBlock;
use ext2::Ext2Error;

fn sample_superblock() -> SuperBlock {
    let mut sb = SuperBlock::default();
    sb.inodes_count = 1000;
    sb.blocks_count = 4000;
    sb.r_blocks_count = 200;
    sb.free_blocks_count = 3500;
    sb.free_inodes_count = 900;
    sb.first_data_block = 1;
    sb.log_block_size = 0;
    sb.log_frag_size = 0;
    sb.blocks_per_group = 400;
    sb.frags_per_group = 400;
    sb.inodes_per_group = 100;
    sb.mtime = 111;
    sb.wtime = 222;
    sb.mnt_count = 3;
    sb.max_mnt_count = 20;
    sb.magic = 0xEF53;
    sb.state = 1;
    sb.errors = 1;
    sb.minor_rev_level = 4;
    sb.lastcheck = 333;
    sb.checkinterval = 444;
    sb.creator_os = 0;
    sb.rev_level = 1;
    sb.def_resuid = 5;
    sb.def_resgid = 6;
    sb.first_ino = 11;
    sb.inode_size = 128;
    sb.block_group_nr = 0;
    sb
}

#[test]
fn superblock_decode_rejects_bad_magic() {
    let raw = vec![0u8; 1024];
    assert_eq!(SuperBlock::decode(&raw), Err(Ext2Error::BadMagic));
}

#[test]
fn superblock_decode_accepts_magic() {
    let mut raw = vec![0u8; 1024];
    raw[56] = 0x53;
    raw[57] = 0xEF;
    let sb = SuperBlock::decode(&raw).unwrap();
    assert_eq!(sb.magic, 0xEF53);
}

#[test]
fn superblock_decode_reads_fields_at_their_offsets() {
    let mut raw = vec![0u8; 1024];
    raw[56] = 0x53;
    raw[57] = 0xEF;
    // inodes_count at offset 0, little-endian
    raw[0] = 0x10;
    raw[1] = 0x02;
    // blocks_count at offset 4
    raw[4] = 0xFF;
    raw[5] = 0x00;
    raw[6] = 0x01;
    // first_data_block at offset 20
    raw[20] = 1;
    // inode_size at offset 88
    raw[88] = 0x80;
    let sb = SuperBlock::decode(&raw).unwrap();
    assert_eq!(sb.inodes_count, 0x210);
    assert_eq!(sb.blocks_count, 0x100FF);
    assert_eq!(sb.first_data_block, 1);
    assert_eq!(sb.inode_size, 128);
}

#[test]
fn superblock_round_trip() {
    let sb = sample_superblock();
    let raw = sb.encode();
    assert_eq!(raw.len(), 1024);
    let again = SuperBlock::decode(&raw).unwrap();
    assert_eq!(again, sb);
}

#[test]
fn block_size_follows_log_exponent() {
    let mut sb = sample_superblock();
    sb.log_block_size = 0;
    assert_eq!(sb.block_size(), 1024);
    sb.log_block_size = 1;
    assert_eq!(sb.block_size(), 2048);
    sb.log_block_size = 2;
    assert_eq!(sb.block_size(), 4096);
}

#[test]
fn frag_size_handles_both_exponent_signs() {
    let mut sb = sample_superblock();
    sb.log_frag_size = 0;
    assert_eq!(sb.frag_size(), 1024);
    sb.log_frag_size = 2;
    assert_eq!(sb.frag_size(), 4096);
    // two's-complement -1: half of 1024
    sb.log_frag_size = 0xFFFF_FFFF;
    assert_eq!(sb.frag_size(), 512);
    // two's-complement -10: 1024 >> 10
    sb.log_frag_size = 0xFFFF_FFF6;
    assert_eq!(sb.frag_size(), 1);
}

#[test]
fn inode_record_size_depends_on_revision() {
    let mut sb = sample_superblock();
    sb.rev_level = 0;
    sb.inode_size = 256;
    assert_eq!(sb.inode_record_size(), 128);
    sb.rev_level = 1;
    assert_eq!(sb.inode_record_size(), 256);
}

#[test]
fn group_count_agrees_on_both_derivations() {
    let mut sb = sample_superblock();
    // ceil(4000 / 400) == 10 == ceil(1000 / 100)
    assert_eq!(sb.group_count(), Ok(10));
    sb.blocks_count = 4001;
    // ceil(4001 / 400) == 11 != 10
    assert_eq!(sb.group_count(), Err(Ext2Error::InconsistentGroupCounts));
}

#[test]
fn group_count_rejects_zero_divisors() {
    let mut sb = sample_superblock();
    sb.blocks_per_group = 0;
    assert_eq!(sb.group_count(), Err(Ext2Error::InconsistentGroupCounts));
    let mut sb2 = sample_superblock();
    sb2.inodes_per_group = 0;
    assert_eq!(sb2.group_count(), Err(Ext2Error::InconsistentGroupCounts));
}

#[test]
fn group_descriptor_table_start_follows_first_data_block() {
    let mut sb = sample_superblock();
    sb.first_data_block = 1;
    assert_eq!(sb.group_descriptor_table_start(), 2);
    sb.first_data_block = 0;
    assert_eq!(sb.group_descriptor_table_start(), 1);
}

#[test]
fn group_desc_decode_reads_fields_at_their_offsets() {
    let mut raw = vec![0u8; 64];
    // second descriptor, at byte 32
    raw[32] = 0x21;
    raw[36] = 0x22;
    raw[40] = 0x23;
    raw[44] = 0x07;
    raw[46] = 0x08;
    raw[48] = 0x09;
    let gd = GroupDesc::decode(&raw, 1);
    assert_eq!(gd.block_bitmap, 0x21);
    assert_eq!(gd.inode_bitmap, 0x22);
    assert_eq!(gd.inode_table, 0x23);
    assert_eq!(gd.free_blocks_count, 7);
    assert_eq!(gd.free_inodes_count, 8);
    assert_eq!(gd.used_dirs_count, 9);
}

#[test]
fn descriptor_table_spans_enough_blocks() {
    // 32 descriptors of 32 bytes each fit exactly one 1024-byte block
    assert_eq!(descriptor_table_blocks(32, 1024), 1);
    assert_eq!(descriptor_table_blocks(33, 1024), 2);
    assert_eq!(descriptor_table_blocks(0, 1024), 0);
    assert_eq!(descriptor_table_blocks(1, 4096), 1);
}

#[test]
fn group_desc_round_trip() {
    let mut gd = GroupDesc::default();
    gd.block_bitmap = 0xAABBCCDD;
    gd.inode_bitmap = 0x11223344;
    gd.inode_table = 0x55667788;
    gd.free_blocks_count = 0x1234;
    gd.free_inodes_count = 0x5678;
    gd.used_dirs_count = 0x9ABC;
    let raw = gd.encode();
    assert_eq!(raw.len(), 32);
    assert_eq!(GroupDesc::decode(&raw, 0), gd);
}

fn sample_inode() -> INode {
    let mut ino = INode::default();
    ino.mode = EXT2_S_IFREG | 0o644;
    ino.uid = 1000;
    ino.size = 0x89ABCDEF;
    ino.atime = 1;
    ino.ctime = 2;
    ino.mtime = 3;
    ino.dtime = 4;
    ino.gid = 100;
    ino.links_count = 2;
    ino.blocks = 8;
    ino.flags = 0x80;
    for k in 0..15 {
        ino.block[k] = 1000 + k as u32;
    }
    ino.generation = 7;
    ino.file_acl = 0;
    ino.dir_acl = 0x01234567;
    ino.faddr = 0;
    ino.l_frag = 1;
    ino.l_fsize = 2;
    ino.l_uid_high = 3;
    ino.l_gid_high = 4;
    ino
}

#[test]
fn inode_round_trip() {
    let ino = sample_inode();
    let raw = ino.encode();
    assert_eq!(raw.len(), 128);
    let again = INode::decode(&raw, 0);
    assert_eq!(again, ino);
}

#[test]
fn inode_decode_reads_fields_at_their_offsets() {
    let mut raw = vec![0u8; 256];
    // decode the record at offset 128
    raw[128] = 0x00;
    raw[129] = 0x80;  // mode = 0x8000
    raw[132] = 0x01;  // size = 1
    raw[168] = 0x2A;  // block[0] = 42 at offset 40
    raw[228] = 0x05;  // generation at record offset 100
    let ino = INode::decode(&raw, 128);
    assert_eq!(ino.mode, 0x8000);
    assert_eq!(ino.size, 1);
    assert_eq!(ino.block[0], 42);
    assert_eq!(ino.block[1], 0);
    assert_eq!(ino.generation, 5);
}

#[test]
fn inode_size_folds_high_bits_only_for_regular_files() {
    let mut ino = sample_inode();
    ino.mode = EXT2_S_IFREG;
    ino.size = 0x89ABCDEF;
    ino.dir_acl = 0x01234567;
    assert_eq!(ino.size(), 0x0123_4567_89AB_CDEF);
    // for a directory the same field is an ACL, not size bits
    ino.mode = EXT2_S_IFDIR;
    assert_eq!(ino.size(), 0x89AB_CDEF);
}

#[test]
fn inode_file_format_names_every_format() {
    let mut ino = INode::default();
    let cases: Vec<(u16, &str)> = vec![
        (0xC000, "socket"),
        (0xA000, "symbolic link"),
        (0x8000, "regular file"),
        (0x6000, "block device"),
        (0x4000, "directory"),
        (0x2000, "character device"),
        (0x1000, "fifo"),
        (0x0000, "unknown"),
        (0x3000, "unknown"),
    ];
    for (mode, tag) in cases {
        ino.mode = mode | 0o755;
        assert_eq!(ino.file_format(), tag);
    }
    assert_eq!(EXT2_S_IFSOCK, 0xC000);
}

#[test]
fn inode_location_maps_number_to_group_and_index() {
    // inode 1 is the first record of group 0
    assert_eq!(inode_location(1000, 100, 1), Ok((0, 0)));
    assert_eq!(inode_location(1000, 100, 100), Ok((0, 99)));
    assert_eq!(inode_location(1000, 100, 101), Ok((1, 0)));
    assert_eq!(inode_location(1000, 100, 1000), Ok((9, 99)));
    assert_eq!(inode_location(1000, 100, EXT2_ROOT_INO as u32), Ok((0, 1)));
}

#[test]
fn inode_location_rejects_bad_numbers() {
    assert_eq!(inode_location(1000, 100, 0), Err(Ext2Error::InvalidInode));
    assert_eq!(inode_location(1000, 100, 1001), Err(Ext2Error::InvalidInode));
    assert_eq!(inode_location(1000, 0, 5), Err(Ext2Error::UnsupportedGeometry));
}

#[test]
fn inode_table_block_splits_byte_offset() {
    // index 10 at 128 bytes per record: byte 1280 = block 1, offset 256
    assert_eq!(inode_table_block(50, 10, 128, 1024), (51, 256));
    // first record of the group sits at the table's start
    assert_eq!(inode_table_block(50, 0, 128, 1024), (50, 0));
    // offset always lands inside the block
    let (_, off) = inode_table_block(50, 99, 128, 1024);
    assert!(off < 1024);
}

#[test]
fn dir_iter_yields_packed_entries_and_terminates() {
    let mut raw = vec![0u8; 64];
    // first entry: inode 11, rec_len 32, name "hello"
    raw[0] = 11;
    raw[4] = 32;
    raw[6] = 5;
    raw[8..13].copy_from_slice(b"hello");
    // second entry: inode 0 (deleted slot), rec_len 32, name "abc"
    raw[32 + 4] = 32;
    raw[32 + 6] = 3;
    raw[40..43].copy_from_slice(b"abc");
    let mut it = DirIter::new(raw);
    let e1 = it.next().unwrap().unwrap();
    assert_eq!(e1.inode, 11);
    assert_eq!(e1.rec_len, 32);
    assert_eq!(e1.name_len, 5);
    assert_eq!(e1.name, b"hello".to_vec());
    // the deleted slot is still yielded, for the caller to filter
    let e2 = it.next().unwrap().unwrap();
    assert_eq!(e2.inode, 0);
    assert_eq!(e2.name, b"abc".to_vec());
    assert_eq!(it.next(), Ok(None));
    assert_eq!(it.next(), Ok(None));
}

#[test]
fn dir_iter_rejects_zero_record_length() {
    let raw = vec![0u8; 64];
    // a record length of 0 would loop forever; the walk must stop instead
    let mut it = DirIter::new(raw);
    assert_eq!(it.next(), Err(Ext2Error::CorruptDirectory));
    // the walk is terminated, not resumed past the bad record
    assert_eq!(it.next(), Ok(None));
}

#[test]
fn dir_iter_rejects_record_overrunning_the_block() {
    let mut raw = vec![0u8; 64];
    raw[4] = 72;  // rec_len larger than the block
    let mut it = DirIter::new(raw);
    assert_eq!(it.next(), Err(Ext2Error::CorruptDirectory));
}

#[test]
fn dir_iter_rejects_unaligned_record_length() {
    let mut raw = vec![0u8; 64];
    raw[4] = 30;  // not a multiple of 4
    let mut it = DirIter::new(raw);
    assert_eq!(it.next(), Err(Ext2Error::CorruptDirectory));
}

#[test]
fn dir_iter_rejects_name_longer_than_record() {
    let mut raw = vec![0u8; 64];
    raw[4] = 12;
    raw[6] = 20;  // name would overrun the record
    let mut it = DirIter::new(raw);
    assert_eq!(it.next(), Err(Ext2Error::CorruptDirectory));
}

#[test]
fn dir_iter_restarts_from_block_start() {
    let mut raw = vec![0u8; 16];
    raw[0] = 9;
    raw[4] = 16;
    let mut it = DirIter::new(raw);
    let first = it.next().unwrap().unwrap();
    assert_eq!(it.next(), Ok(None));
    it.reset();
    let again = it.next().unwrap().unwrap();
    assert_eq!(first, again);
}

#[test]
fn decode_entries_reads_the_whole_block() {
    let mut raw = vec![0u8; 64];
    raw[0] = 11;
    raw[4] = 32;
    raw[6] = 5;
    raw[8..13].copy_from_slice(b"hello");
    raw[32 + 4] = 32;
    raw[32 + 6] = 3;
    raw[40..43].copy_from_slice(b"abc");
    let entries = decode_entries(&raw).unwrap();
    assert_eq!(entries.len(), 2);
    assert_eq!(entries[0].inode, 11);
    assert_eq!(entries[0].name, b"hello".to_vec());
    assert_eq!(entries[1].inode, 0);
    assert_eq!(entries[1].name, b"abc".to_vec());
}

#[test]
fn decode_entries_rejects_a_corrupt_record() {
    let mut raw = vec![0u8; 64];
    raw[0] = 11;
    raw[4] = 32;
    // the second record declares length 0
    let r = decode_entries(&raw);
    assert_eq!(r, Err(Ext2Error::CorruptDirectory));
}

#[test]
fn decode_entries_of_empty_block_is_empty() {
    let raw: Vec<u8> = Vec::new();
    assert_eq!(decode_entries(&raw), Ok(Vec::new()));
}

#[test]
fn inode_addressing_round_trip_stays_in_table() {
    // inodes_count 1000, 100 per group, 128-byte records, 1024-byte blocks:
    // the table of one group spans ceil(100 * 128 / 1024) == 13 blocks
    for n in 1..=1000u32 {
        let (group, index) = inode_location(1000, 100, n).unwrap();
        assert!(group < 10);
        assert!(index < 100);
        let (block, offset) = inode_table_block(50, index, 128, 1024);
        assert!(offset < 1024);
        assert!((50..63).contains(&block));
        assert_eq!(offset % 128, 0);
    }
}

#[test]
fn dir_entry_fields_are_copied_out() {
    let mut raw = vec![0u8; 16];
    raw[0] = 0x2A;
    raw[4] = 16;
    raw[6] = 2;
    raw[8] = b'x';
    raw[9] = b'y';
    let mut it = DirIter::new(raw);
    let e = it.next().unwrap().unwrap();
    let expected = DirEntry { inode: 42, rec_len: 16, name_len: 2, name: vec![b'x', b'y'] };
    assert_eq!(e, expected);
}
