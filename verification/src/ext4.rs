//! The ext4 block-group descriptor: its on-disk form, the 64-bit block
//! numbers and 32-bit counts split in halves across it, and the in-memory
//! descriptor that hands out inodes.
use vstd::prelude::*;

verus! {

/// The on-disk block-group descriptor (64 bytes, little-endian).
#[derive(Debug, Clone, Copy)]
pub struct Ext4GroupDescDisk {
    block_bitmap_lo: u32,
    inode_bitmap_lo: u32,
    inode_table_lo: u32,
    free_blocks_count_lo: u16,
    free_inodes_count_lo: u16,
    used_dirs_count_lo: u16,
    /// block group flags (`INODE_UNINIT`, ...)
    pub flags: u16,
    exclude_bitmap_lo: u32,
    block_bitmap_csum_lo: u16,
    inode_bitmap_csum_lo: u16,
    itable_unused_lo: u16,
    checksum: u16,
    block_bitmap_hi: u32,
    inode_bitmap_hi: u32,
    inode_table_hi: u32,
    free_blocks_count_hi: u16,
    free_inodes_count_hi: u16,
    used_dirs_count_hi: u16,
    itable_unused_hi: u16,
    exclude_bitmap_hi: u32,
    block_bitmap_csum_hi: u16,
    inode_bitmap_csum_hi: u16,
    reserved: u32,
}

/// The size of the on-disk descriptor.
pub const GROUP_DESC_SIZE: usize = 64;

/// The 64-bit number whose high and low halves are `hi` and `lo`.
pub open spec fn join64(hi: u32, lo: u32) -> u64 {
    (hi as int * 0x1_0000_0000 + lo as int) as u64
}

/// The 32-bit number whose high and low halves are `hi` and `lo`.
pub open spec fn join32(hi: u16, lo: u16) -> u32 {
    (hi as int * 0x1_0000 + lo as int) as u32
}

/// The little-endian 16-bit number at `off`.
pub open spec fn le16(b: Seq<u8>, off: int) -> u16 {
    (b[off] as int + b[off + 1] as int * 0x100) as u16
}

/// The little-endian 32-bit number at `off`.
pub open spec fn le32(b: Seq<u8>, off: int) -> u32 {
    (b[off] as int + b[off + 1] as int * 0x100 + b[off + 2] as int * 0x1_0000 + b[off + 3] as int
        * 0x100_0000) as u32
}

/// Shifting the high half up and or-ing the low half in joins them.
pub proof fn lemma_join64(hi: u32, lo: u32)
    ensures
        ((hi as u64) << 32u64) | (lo as u64) == join64(hi, lo),
{
    assert(((hi as u64) << 32u64) | (lo as u64) == (hi as u64) * 0x1_0000_0000u64 + (lo as u64))
        by (bit_vector);
}

/// Shifting the high half up and or-ing the low half in joins them.
pub proof fn lemma_join32(hi: u16, lo: u16)
    ensures
        ((hi as u32) << 16u32) | (lo as u32) == join32(hi, lo),
{
    assert(((hi as u32) << 16u32) | (lo as u32) == (hi as u32) * 0x1_0000u32 + (lo as u32))
        by (bit_vector);
}

fn read_le16(b: &[u8], off: usize) -> (r: u16)
    requires
        off + 2 <= b@.len(),
    ensures
        r == le16(b@, off as int),
{
    (b[off] as u16) + (b[off + 1] as u16) * 0x100
}

fn read_le32(b: &[u8], off: usize) -> (r: u32)
    requires
        off + 4 <= b@.len(),
    ensures
        r == le32(b@, off as int),
{
    (b[off] as u32) + (b[off + 1] as u32) * 0x100 + (b[off + 2] as u32) * 0x1_0000 + (b[off + 3] as u32)
        * 0x100_0000
}

impl Ext4GroupDescDisk {
    /// The descriptor held in the first 64 bytes of `b`, fields in order and
    /// little-endian; `None` where `b` is shorter.
    pub fn from_bytes(b: &[u8]) -> (r: Option<Ext4GroupDescDisk>)
        ensures
            b@.len() < GROUP_DESC_SIZE ==> r is None,
            b@.len() >= GROUP_DESC_SIZE ==> (r matches Some(d) && d.block_bitmap_spec() == join64(
                le32(b@, 32),
                le32(b@, 0),
            ) && d.inode_bitmap_spec() == join64(le32(b@, 36), le32(b@, 4)) && d.inode_table_spec()
                == join64(le32(b@, 40), le32(b@, 8)) && d.free_blocks_count_spec() == join32(
                le16(b@, 44),
                le16(b@, 12),
            ) && d.free_inodes_count_spec() == join32(le16(b@, 46), le16(b@, 14))
                && d.used_dirs_count_spec() == join32(le16(b@, 48), le16(b@, 16)) && d.flags_spec()
                == le16(b@, 18) && d.exclude_bitmap_spec() == join64(le32(b@, 52), le32(b@, 20))
                && d.itable_unused_spec() == join32(le16(b@, 50), le16(b@, 28))),
    {
        if b.len() < GROUP_DESC_SIZE {
            return None;
        }
        Some(Ext4GroupDescDisk {
            block_bitmap_lo: read_le32(b, 0),
            inode_bitmap_lo: read_le32(b, 4),
            inode_table_lo: read_le32(b, 8),
            free_blocks_count_lo: read_le16(b, 12),
            free_inodes_count_lo: read_le16(b, 14),
            used_dirs_count_lo: read_le16(b, 16),
            flags: read_le16(b, 18),
            exclude_bitmap_lo: read_le32(b, 20),
            block_bitmap_csum_lo: read_le16(b, 24),
            inode_bitmap_csum_lo: read_le16(b, 26),
            itable_unused_lo: read_le16(b, 28),
            checksum: read_le16(b, 30),
            block_bitmap_hi: read_le32(b, 32),
            inode_bitmap_hi: read_le32(b, 36),
            inode_table_hi: read_le32(b, 40),
            free_blocks_count_hi: read_le16(b, 44),
            free_inodes_count_hi: read_le16(b, 46),
            used_dirs_count_hi: read_le16(b, 48),
            itable_unused_hi: read_le16(b, 50),
            exclude_bitmap_hi: read_le32(b, 52),
            block_bitmap_csum_hi: read_le16(b, 56),
            inode_bitmap_csum_hi: read_le16(b, 58),
            reserved: read_le32(b, 60),
        })
    }

    /// The block group flags.
    pub closed spec fn flags_spec(&self) -> u16 {
        self.flags
    }

    /// The block number of the block bitmap.
    pub closed spec fn block_bitmap_spec(&self) -> u64 {
        join64(self.block_bitmap_hi, self.block_bitmap_lo)
    }

    /// The block number of the inode bitmap.
    pub closed spec fn inode_bitmap_spec(&self) -> u64 {
        join64(self.inode_bitmap_hi, self.inode_bitmap_lo)
    }

    /// The block number of the inode table.
    pub closed spec fn inode_table_spec(&self) -> u64 {
        join64(self.inode_table_hi, self.inode_table_lo)
    }

    /// The block number of the snapshot exclusion bitmap.
    pub closed spec fn exclude_bitmap_spec(&self) -> u64 {
        join64(self.exclude_bitmap_hi, self.exclude_bitmap_lo)
    }

    /// The number of free blocks.
    pub closed spec fn free_blocks_count_spec(&self) -> u32 {
        join32(self.free_blocks_count_hi, self.free_blocks_count_lo)
    }

    /// The number of free inodes.
    pub closed spec fn free_inodes_count_spec(&self) -> u32 {
        join32(self.free_inodes_count_hi, self.free_inodes_count_lo)
    }

    /// The number of directories.
    pub closed spec fn used_dirs_count_spec(&self) -> u32 {
        join32(self.used_dirs_count_hi, self.used_dirs_count_lo)
    }

    /// The number of unused inodes of the inode table.
    pub closed spec fn itable_unused_spec(&self) -> u32 {
        join32(self.itable_unused_hi, self.itable_unused_lo)
    }

    /// Whether the group's inode table is not initialised (flag bit 0).
    pub fn is_inode_uninit(&self) -> (r: bool)
        ensures
            r == (self.flags_spec() % 2 == 1),
    {
        let f = self.flags;
        assert((f & 0x1u16 == 0x1u16) == (f % 2 == 1)) by (bit_vector);
        self.flags & 0x1 == 0x1
    }

    /// The block number of the inode table.
    pub fn inode_table(&self) -> (r: u64)
        ensures
            r == self.inode_table_spec(),
    {
        proof {
            lemma_join64(self.inode_table_hi, self.inode_table_lo);
        }
        (self.inode_table_hi as u64) << 32 | self.inode_table_lo as u64
    }

    /// The block number of the block bitmap.
    pub fn block_bitmap(&self) -> (r: u64)
        ensures
            r == self.block_bitmap_spec(),
    {
        proof {
            lemma_join64(self.block_bitmap_hi, self.block_bitmap_lo);
        }
        (self.block_bitmap_hi as u64) << 32 | self.block_bitmap_lo as u64
    }

    /// The block number of the inode bitmap.
    pub fn inode_bitmap(&self) -> (r: u64)
        ensures
            r == self.inode_bitmap_spec(),
    {
        proof {
            lemma_join64(self.inode_bitmap_hi, self.inode_bitmap_lo);
        }
        (self.inode_bitmap_hi as u64) << 32 | self.inode_bitmap_lo as u64
    }

    /// The block number of the snapshot exclusion bitmap.
    pub fn exclude_bitmap(&self) -> (r: u64)
        ensures
            r == self.exclude_bitmap_spec(),
    {
        proof {
            lemma_join64(self.exclude_bitmap_hi, self.exclude_bitmap_lo);
        }
        (self.exclude_bitmap_hi as u64) << 32 | self.exclude_bitmap_lo as u64
    }

    /// The number of free blocks.
    pub fn free_blocks_count(&self) -> (r: u32)
        ensures
            r == self.free_blocks_count_spec(),
    {
        proof {
            lemma_join32(self.free_blocks_count_hi, self.free_blocks_count_lo);
        }
        (self.free_blocks_count_hi as u32) << 16 | self.free_blocks_count_lo as u32
    }

    /// The number of free inodes.
    pub fn free_inodes_count(&self) -> (r: u32)
        ensures
            r == self.free_inodes_count_spec(),
    {
        proof {
            lemma_join32(self.free_inodes_count_hi, self.free_inodes_count_lo);
        }
        (self.free_inodes_count_hi as u32) << 16 | self.free_inodes_count_lo as u32
    }

    /// The number of directories.
    pub fn used_dirs_count(&self) -> (r: u32)
        ensures
            r == self.used_dirs_count_spec(),
    {
        proof {
            lemma_join32(self.used_dirs_count_hi, self.used_dirs_count_lo);
        }
        (self.used_dirs_count_hi as u32) << 16 | self.used_dirs_count_lo as u32
    }

    /// The number of unused inodes of the inode table.
    pub fn itable_unused(&self) -> (r: u32)
        ensures
            r == self.itable_unused_spec(),
    {
        proof {
            lemma_join32(self.itable_unused_hi, self.itable_unused_lo);
        }
        (self.itable_unused_hi as u32) << 16 | self.itable_unused_lo as u32
    }
}

/// The counters of a block group that change as inodes are handed out.
pub struct GroupDescInner {
    free_blocks_count: u32,
    free_inodes_count: u32,
    used_dirs_count: u32,
    itable_unused: u32,
}

impl GroupDescInner {
    /// The number of free blocks.
    pub closed spec fn free_blocks(&self) -> u32 {
        self.free_blocks_count
    }

    /// The number of free inodes.
    pub closed spec fn free_inodes(&self) -> u32 {
        self.free_inodes_count
    }

    /// The number of directories.
    pub closed spec fn used_dirs(&self) -> u32 {
        self.used_dirs_count
    }

    /// The number of unused inodes of the inode table.
    pub closed spec fn unused_inodes(&self) -> u32 {
        self.itable_unused
    }

    /// Counters with the given values.
    pub fn new(free_blocks_count: u32, free_inodes_count: u32, used_dirs_count: u32, itable_unused: u32) -> (r: Self)
        ensures
            r.free_blocks() == free_blocks_count,
            r.free_inodes() == free_inodes_count,
            r.used_dirs() == used_dirs_count,
            r.unused_inodes() == itable_unused,
    {
        Self { free_blocks_count, free_inodes_count, used_dirs_count, itable_unused }
    }
}

/// What one inode allocation did to the counters of a group: where it
/// handed out an inode, one free inode fewer (of which there was one) and,
/// for a directory, one directory more; otherwise nothing changed.
pub open spec fn alloc_step(before: GroupDescInner, after: GroupDescInner, r: Option<usize>, is_dir: bool) -> bool {
    &&& after.free_blocks() == before.free_blocks()
    &&& after.unused_inodes() == before.unused_inodes()
    &&& r is None ==> after == before
    &&& r is Some ==> before.free_inodes() > 0 && after.free_inodes() == before.free_inodes() - 1
        && after.used_dirs() == before.used_dirs() + (if is_dir { 1int } else { 0int })
}

/// How many of the allocations `rs` handed out an inode.
pub open spec fn handed_out(rs: Seq<Option<usize>>) -> nat
    decreases rs.len(),
{
    if rs.len() == 0 {
        0
    } else {
        handed_out(rs.drop_last()) + (if rs.last() is Some { 1nat } else { 0nat })
    }
}

/// Over a run of allocations on one group, starting from the counters
/// `states[0]`, each taking `states[i]` to `states[i + 1]`: no more inodes
/// are handed out than were free, and the free count falls by exactly the
/// number handed out.
pub proof fn lemma_alloc_run(states: Seq<GroupDescInner>, rs: Seq<Option<usize>>, dirs: Seq<bool>)
    requires
        states.len() == rs.len() + 1,
        dirs.len() == rs.len(),
        forall|i: int| 0 <= i < rs.len() ==> #[trigger] alloc_step(states[i], states[i + 1], rs[i], dirs[i]),
    ensures
        handed_out(rs) <= states[0].free_inodes(),
        states.last().free_inodes() == states[0].free_inodes() - handed_out(rs),
    decreases rs.len(),
{
    if rs.len() > 0 {
        let k = rs.len() - 1;
        lemma_alloc_run(states.drop_last(), rs.drop_last(), dirs.drop_last());
        assert(alloc_step(states[k], states[k + 1], rs[k], dirs[k]));
        assert(states.drop_last().last() == states[k]);
    }
}

/// A block group in memory: where its tables are, and its counters.
pub struct GroupDesc {
    pub inode_table: u64,
    pub block_bitmap: u64,
    pub inode_bitmap: u64,
    pub exclude_bitmap: u64,
    inner: GroupDescInner,
}

impl GroupDesc {
    /// The counters.
    pub closed spec fn counters(&self) -> GroupDescInner {
        self.inner
    }

    /// The block numbers held in the public fields `inode_table`,
    /// `block_bitmap`, `inode_bitmap` and `exclude_bitmap`, in that order.
    pub closed spec fn locations(&self) -> (u64, u64, u64, u64) {
        (self.inode_table, self.block_bitmap, self.inode_bitmap, self.exclude_bitmap)
    }

    /// The block number of the inode table.
    pub fn inode_table(&self) -> (r: u64)
        ensures
            r == self.locations().0,
    {
        self.inode_table
    }

    /// The in-memory block group of an on-disk descriptor.
    pub fn new(group_desc_disk: &Ext4GroupDescDisk) -> (r: Self)
        ensures
            r.locations() == (
                group_desc_disk.inode_table_spec(),
                group_desc_disk.block_bitmap_spec(),
                group_desc_disk.inode_bitmap_spec(),
                group_desc_disk.exclude_bitmap_spec(),
            ),
            r.counters().free_blocks() == group_desc_disk.free_blocks_count_spec(),
            r.counters().free_inodes() == group_desc_disk.free_inodes_count_spec(),
            r.counters().used_dirs() == group_desc_disk.used_dirs_count_spec(),
            r.counters().unused_inodes() == group_desc_disk.itable_unused_spec(),
    {
        proof {
            lemma_join64(group_desc_disk.exclude_bitmap_hi, group_desc_disk.exclude_bitmap_lo);
        }
        Self {
            inode_table: group_desc_disk.inode_table(),
            block_bitmap: group_desc_disk.block_bitmap(),
            inode_bitmap: group_desc_disk.inode_bitmap(),
            exclude_bitmap: (group_desc_disk.exclude_bitmap_hi as u64) << 32
                | group_desc_disk.exclude_bitmap_lo as u64,
            inner: GroupDescInner::new(
                group_desc_disk.free_blocks_count(),
                group_desc_disk.free_inodes_count(),
                group_desc_disk.used_dirs_count(),
                group_desc_disk.itable_unused(),
            ),
        }
    }

    /// Hands out an inode of the group, where it has a free one: `alloc`
    /// takes one from the group's inode bitmap and returns its number
    /// (relative to the group's inode table), or `None` where the bitmap
    /// has none. A handed-out inode leaves one free inode fewer, and one
    /// directory more where it is for a directory. Where the group has no
    /// free inode, `alloc` is not called.
    pub fn alloc_inode<F: FnOnce() -> Option<usize>>(&mut self, alloc: F, is_dir: bool) -> (r: Option<usize>)
        requires
            alloc.requires(()),
            is_dir && old(self).counters().free_inodes() > 0 && old(self).counters().used_dirs() == u32::MAX
                ==> forall|n: Option<usize>| #[trigger] alloc.ensures((), n) ==> n is None,
        ensures
            final(self).locations() == old(self).locations(),
            final(self).counters().free_blocks() == old(self).counters().free_blocks(),
            final(self).counters().unused_inodes() == old(self).counters().unused_inodes(),
            old(self).counters().free_inodes() == 0 ==> r is None && final(self).counters()
                == old(self).counters(),
            old(self).counters().free_inodes() > 0 ==> alloc.ensures((), r),
            r is None ==> final(self).counters() == old(self).counters(),
            alloc_step(old(self).counters(), final(self).counters(), r, is_dir),
            r is Some ==> final(self).counters().free_inodes() == old(self).counters().free_inodes() - 1
                && final(self).counters().used_dirs() == old(self).counters().used_dirs() + (if is_dir {
                1int
            } else {
                0int
            }),
    {
        if self.inner.free_inodes_count > 0 {
            let inode_num = match alloc() {
                Some(n) => n,
                None => return None,
            };
            self.inner.free_inodes_count = self.inner.free_inodes_count - 1;
            if is_dir {
                self.inner.used_dirs_count = self.inner.used_dirs_count + 1;
            }
            return Some(inode_num);
        }
        return None;
    }
}

} // verus!
