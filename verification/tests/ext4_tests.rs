use std::cell::Cell;

use rros_net::ext4::{Ext4GroupDescDisk, GroupDesc, GroupDescInner, GROUP_DESC_SIZE};

fn put16(b: &mut [u8], off: usize, v: u16) {
    b[off..off + 2].copy_from_slice(&v.to_le_bytes());
}

fn put32(b: &mut [u8], off: usize, v: u32) {
    b[off..off + 4].copy_from_slice(&v.to_le_bytes());
}

fn sample() -> [u8; 64] {
    let mut b = [0u8; 64];
    put32(&mut b, 0, 0x0000_1001); // block bitmap lo
    put32(&mut b, 4, 0x0000_1002); // inode bitmap lo
    put32(&mut b, 8, 0x0000_1003); // inode table lo
    put16(&mut b, 12, 0x0100); // free blocks lo
    put16(&mut b, 14, 0x0020); // free inodes lo
    put16(&mut b, 16, 0x0003); // used dirs lo
    put16(&mut b, 18, 0x0005); // flags: INODE_UNINIT | ITABLE_ZEROED
    put32(&mut b, 20, 0x0000_2000); // exclude bitmap lo
    put16(&mut b, 28, 0x0010); // itable unused lo
    put32(&mut b, 32, 0x0000_0001); // block bitmap hi
    put32(&mut b, 36, 0x0000_0002); // inode bitmap hi
    put32(&mut b, 40, 0x0000_0003); // inode table hi
    put16(&mut b, 44, 0x0001); // free blocks hi
    put16(&mut b, 46, 0x0000); // free inodes hi
    put16(&mut b, 48, 0x0002); // used dirs hi
    put16(&mut b, 50, 0x0000); // itable unused hi
    put32(&mut b, 52, 0x0000_0004); // exclude bitmap hi
    b
}

#[test]
fn parse_descriptor() {
    let d = Ext4GroupDescDisk::from_bytes(&sample()).unwrap();
    assert_eq!(d.block_bitmap(), 0x1_0000_1001);
    assert_eq!(d.inode_bitmap(), 0x2_0000_1002);
    assert_eq!(d.inode_table(), 0x3_0000_1003);
    assert_eq!(d.exclude_bitmap(), 0x4_0000_2000);
    assert_eq!(d.free_blocks_count(), 0x1_0100);
    assert_eq!(d.free_inodes_count(), 0x20);
    assert_eq!(d.used_dirs_count(), 0x2_0003);
    assert_eq!(d.itable_unused(), 0x10);
    assert_eq!(d.flags, 5);
    assert!(d.is_inode_uninit());
}

#[test]
fn short_buffer_is_rejected() {
    assert!(Ext4GroupDescDisk::from_bytes(&[0u8; 63]).is_none());
    assert!(Ext4GroupDescDisk::from_bytes(&[]).is_none());
    assert!(Ext4GroupDescDisk::from_bytes(&[0u8; GROUP_DESC_SIZE]).is_some());
    // longer buffers are read from their first 64 bytes
    let mut long = [0xffu8; 80];
    long[..64].copy_from_slice(&sample());
    assert_eq!(Ext4GroupDescDisk::from_bytes(&long).unwrap().inode_table(), 0x3_0000_1003);
}

#[test]
fn inode_uninit_flag() {
    let mut b = sample();
    put16(&mut b, 18, 0x0004);
    assert!(!Ext4GroupDescDisk::from_bytes(&b).unwrap().is_inode_uninit());
    put16(&mut b, 18, 0xffff);
    assert!(Ext4GroupDescDisk::from_bytes(&b).unwrap().is_inode_uninit());
}

#[test]
fn in_memory_group() {
    let d = Ext4GroupDescDisk::from_bytes(&sample()).unwrap();
    let g = GroupDesc::new(&d);
    assert_eq!(g.inode_table(), 0x3_0000_1003);
    assert_eq!(g.inode_table, 0x3_0000_1003);
    assert_eq!(g.block_bitmap, 0x1_0000_1001);
    assert_eq!(g.inode_bitmap, 0x2_0000_1002);
    assert_eq!(g.exclude_bitmap, 0x4_0000_2000);
    let _inner = GroupDescInner::new(1, 2, 3, 4);
}

#[test]
fn alloc_inode_counts() {
    let d = Ext4GroupDescDisk::from_bytes(&sample()).unwrap();
    let mut g = GroupDesc::new(&d);
    assert_eq!(g.alloc_inode(|| Some(17), false), Some(17));
    assert_eq!(g.alloc_inode(|| Some(18), true), Some(18));
    // the bitmap has no free inode: nothing changes
    assert_eq!(g.alloc_inode(|| None, true), None);
}

#[test]
fn alloc_inode_of_full_group_does_not_look_at_the_bitmap() {
    let mut b = sample();
    put16(&mut b, 14, 1); // one free inode
    let d = Ext4GroupDescDisk::from_bytes(&b).unwrap();
    let mut g = GroupDesc::new(&d);
    assert_eq!(g.alloc_inode(|| Some(1), true), Some(1));
    let called = Cell::new(false);
    assert_eq!(
        g.alloc_inode(
            || {
                called.set(true);
                Some(2)
            },
            false
        ),
        None
    );
    assert!(!called.get());
}
