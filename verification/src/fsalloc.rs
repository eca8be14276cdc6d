//! The file allocator: bump allocation of blocks inside one backing file.
//!
//! This module holds the allocator's bookkeeping and its decisions. The file
//! itself — reading the stored header, resizing, persisting bytes — is the
//! caller's part: every decision here is a function from plain values to
//! plain values, so the caller only carries bytes between this module and
//! the file.

use vstd::prelude::*;

use crate::raw::{
    unpack_alloc_header, spec_default_alloc_header, spec_node_capacity, spec_unpack_alloc_header,
    AllocHeader, BlockHeader, BlockSize, BlockType, FormatError, Offset, ALLOC_HEADER_LEN,
    BLOCK_HEADER_LEN, ROOT_KEY_SIZE, ROOT_OFFSET,
};

verus! {

/// Error returned when a write would overflow a block's declared capacity.
#[derive(Clone, Copy, Debug, PartialEq, Eq)]
pub struct CapacityExceeded;

/// An ultra simple "file allocator": the single authority for handing out
/// non-overlapping byte ranges in the backing file.
///
/// It owns the in-memory allocator header; nothing else may mutate the heap
/// or capacity fields.
#[derive(Clone, Debug, PartialEq, Eq)]
pub struct FsAlloc {
    /// The allocator header, as it is to be persisted at offset 0.
    pub header: AllocHeader,
}

/// How one allocation of `c` bytes moves the allocator header from `h0` to
/// `h1`, handing out offset `off`: the old heap is returned, the heap
/// advances by `c`, the tracked capacity doubles past the new heap when the
/// allocation would reach it, and every other field is untouched.
pub open spec fn alloc_post(h0: AllocHeader, c: BlockSize, h1: AllocHeader, off: Offset) -> bool {
    &&& off == h0.heap
    &&& h1.heap == h0.heap + c
    &&& h1.capacity == if h0.heap + c >= h0.capacity {
        2 * (h0.heap + c)
    } else {
        h0.capacity as int
    }
    &&& h1.magic == h0.magic
    &&& h1.version_major == h0.version_major
    &&& h1.version_minor == h0.version_minor
    &&& h1.version_patch == h0.version_patch
    &&& h1.root == h0.root
}

/// Allocator monotonicity: for two successive allocations, the second offset
/// lies at or past the end of the first allocation's range, so the ranges
/// never overlap and offsets never decrease.
pub proof fn lemma_alloc_monotonic(
    h0: AllocHeader,
    c1: BlockSize,
    h1: AllocHeader,
    o1: Offset,
    c2: BlockSize,
    h2: AllocHeader,
    o2: Offset,
)
    requires
        alloc_post(h0, c1, h1, o1),
        alloc_post(h1, c2, h2, o2),
    ensures
        o2 == o1 + c1,
        c1 > 0 ==> o2 > o1,
{
}

/// A run of `caps.len()` allocations in order: `hs` holds the allocator
/// header before and after each one, `offs` the offset each handed out.
pub open spec fn alloc_run(hs: Seq<AllocHeader>, caps: Seq<BlockSize>, offs: Seq<Offset>) -> bool {
    &&& hs.len() == caps.len() + 1
    &&& offs.len() == caps.len()
    &&& forall|i: int| 0 <= i < caps.len() ==> alloc_post(hs[i], caps[i], hs[i + 1], offs[i])
}

/// The heap never moves backwards over a run of allocations.
proof fn lemma_alloc_run_heap_grows(hs: Seq<AllocHeader>, caps: Seq<BlockSize>, offs: Seq<Offset>, i: int, j: int)
    requires
        alloc_run(hs, caps, offs),
        0 <= i <= j < hs.len(),
    ensures
        hs[j].heap >= hs[i].heap,
    decreases j - i,
{
    if i < j {
        lemma_alloc_run_heap_grows(hs, caps, offs, i, j - 1);
        let k = j - 1;
        assert(alloc_post(hs[k], caps[k], hs[k + 1], offs[k]));
    }
}

/// Allocator monotonicity over any sequence of allocations: every offset
/// lies at or past the end of every earlier allocation's range, so the
/// handed-out ranges are pairwise non-overlapping and the offsets never
/// decrease.
pub proof fn lemma_alloc_run_monotonic(hs: Seq<AllocHeader>, caps: Seq<BlockSize>, offs: Seq<Offset>)
    requires
        alloc_run(hs, caps, offs),
    ensures
        forall|i: int, j: int| 0 <= i < j < offs.len() ==> offs[i] + caps[i] <= offs[j],
{
    assert forall|i: int, j: int| 0 <= i < j < offs.len() implies offs[i] + caps[i] <= offs[j] by {
        lemma_alloc_run_heap_grows(hs, caps, offs, i + 1, j);
    }
}

/// Allocator growth: when an allocation's end reaches the tracked capacity,
/// the new capacity is double the new heap, so after the caller resizes the
/// file to it, the file length covers every allocated byte.
pub proof fn lemma_alloc_growth(h0: AllocHeader, c: BlockSize, h1: AllocHeader, off: Offset)
    requires
        alloc_post(h0, c, h1, off),
        h0.heap + c >= h0.capacity,
    ensures
        h1.capacity == 2 * (h0.heap + c),
        h1.capacity >= h1.heap,
{
}

impl FsAlloc {
    /// The allocator's bookkeeping invariant: the heap never runs past the
    /// tracked capacity.
    pub open spec fn wf(self) -> bool {
        self.header.heap <= self.header.capacity
    }

    /// Opens a brand-new allocator: the default header, and the root node's
    /// block header, to be persisted at [`ROOT_OFFSET`] in a file of
    /// [`crate::raw::ALLOC_INITIAL_SIZE`] bytes. The root is finished
    /// immediately — nothing can be "in flight" to a brand-new root — and
    /// the heap already lies past the root block.
    pub fn open_new() -> (r: (FsAlloc, BlockHeader))
        ensures
            r.0.header == (AllocHeader {
                heap: (ROOT_OFFSET + BLOCK_HEADER_LEN + spec_node_capacity(ROOT_KEY_SIZE)) as u64,
                ..spec_default_alloc_header()
            }),
            r.0.wf(),
            r.1.parent == 0,
            r.1.capacity == spec_node_capacity(ROOT_KEY_SIZE),
            r.1.used == 0,
            r.1.ty_keysize == ROOT_KEY_SIZE,
            r.1.ty_valuesize == 0,
            r.1.ty == BlockType::SizedKeyGenValue,
            !r.1.deleted,
            r.1.finished,
            r.1.is_root,
    {
        let mut header = AllocHeader::default();
        let mut root = BlockHeader::new_sized_key_gen_value(0, true, ROOT_KEY_SIZE);
        // Nothing will have the root open yet, so it is finished.
        root.finished = true;
        header.heap = header.heap + BLOCK_HEADER_LEN + root.capacity as u64;
        (FsAlloc { header }, root)
    }

    /// Opens an allocator over an existing file of `file_len` bytes whose
    /// first 44 bytes are `header_bytes`. Fails when the file is shorter
    /// than the reserved header region or the header does not decode. No
    /// validation of the root node is performed.
    pub fn open_existing(file_len: u64, header_bytes: &[u8]) -> (r: Result<FsAlloc, FormatError>)
        ensures
            file_len < ROOT_OFFSET ==> r == Err::<FsAlloc, FormatError>(FormatError::FileTooSmall),
            file_len >= ROOT_OFFSET && header_bytes@.len() != ALLOC_HEADER_LEN ==> r == Err::<
                FsAlloc,
                FormatError,
            >(FormatError::Length),
            file_len >= ROOT_OFFSET && header_bytes@.len() == ALLOC_HEADER_LEN ==> r == Ok::<
                FsAlloc,
                FormatError,
            >(FsAlloc { header: spec_unpack_alloc_header(header_bytes@) }),
    {
        if file_len < ROOT_OFFSET {
            return Err(FormatError::FileTooSmall);
        }
        match unpack_alloc_header(header_bytes) {
            Ok(header) => Ok(FsAlloc { header }),
            Err(e) => Err(e),
        }
    }

    /// Allocate a block in the file equal to `capacity`.
    ///
    /// Returns the new block's offset, and `Some(len)` when the caller must
    /// first resize the backing file to `len` bytes. Either way the caller
    /// must persist the updated header before treating the allocation as
    /// durable. Allocation never shrinks the file and never reuses space.
    pub fn allocate(&mut self, capacity: BlockSize) -> (r: (Offset, Option<u64>))
        requires
            2 * (old(self).header.heap + capacity) <= u64::MAX,
        ensures
            alloc_post(old(self).header, capacity, final(self).header, r.0),
            final(self).wf(),
            r.1 is Some <==> old(self).header.heap + capacity >= old(self).header.capacity,
            r.1 matches Some(len) ==> len == final(self).header.capacity,
    {
        let out: u64 = self.header.heap;
        let new_heap: u64 = self.header.heap + capacity as u64;
        let mut resize_to: Option<u64> = None;
        if new_heap >= self.header.capacity {
            // Make the file larger: double past the new heap.
            let new_capacity: u64 = new_heap * 2;
            self.header.capacity = new_capacity;
            resize_to = Some(new_capacity);
        }
        self.header.heap = new_heap;
        (out, resize_to)
    }
}

/// A writer which only allows writes to happen within its allocated
/// `capacity`.
///
/// It buffers the accepted bytes of one block's body; the caller flushes
/// them to the backing file behind the block's header. This guard is the
/// only write path into a block body, and it knows nothing of tree
/// structure.
#[derive(Clone, Debug, PartialEq, Eq)]
pub struct AllocedWriter {
    /// Bytes accepted so far: the block's body, in order.
    pub body: Vec<u8>,

    /// Declared capacity of the block's body.
    pub capacity: BlockSize,
}

impl AllocedWriter {
    /// Bytes of the body currently occupied.
    pub open spec fn spec_used(self) -> int {
        self.body@.len() as int
    }

    /// The writer never holds more bytes than its declared capacity.
    pub open spec fn wf(self) -> bool {
        self.spec_used() <= self.capacity
    }

    /// A writer for a freshly allocated, still empty block body.
    pub fn new(capacity: BlockSize) -> (r: AllocedWriter)
        ensures
            r.capacity == capacity,
            r.body@ == Seq::<u8>::empty(),
            r.wf(),
    {
        AllocedWriter { body: Vec::new(), capacity }
    }

    /// Bytes of the body currently occupied.
    pub fn used(&self) -> (r: BlockSize)
        requires
            self.wf(),
        ensures
            r == self.spec_used(),
    {
        self.body.len() as u32
    }

    /// Accepts `buf` into the block's body, or fails with
    /// [`CapacityExceeded`] — before any byte is taken — when `buf` is
    /// longer than the remaining `capacity - used` bytes. On success every
    /// byte of `buf` is appended and the used count advances by `buf.len()`.
    pub fn write(&mut self, buf: &[u8]) -> (r: Result<usize, CapacityExceeded>)
        requires
            old(self).wf(),
        ensures
            final(self).wf(),
            final(self).capacity == old(self).capacity,
            buf@.len() > old(self).capacity - old(self).spec_used() ==> r == Err::<
                usize,
                CapacityExceeded,
            >(CapacityExceeded) && final(self).body@ == old(self).body@,
            buf@.len() <= old(self).capacity - old(self).spec_used() ==> r == Ok::<
                usize,
                CapacityExceeded,
            >(buf@.len() as usize) && final(self).body@ == old(self).body@ + buf@,
    {
        let used: u32 = self.used();
        if buf.len() as u64 > (self.capacity - used) as u64 {
            return Err(CapacityExceeded);
        }
        let mut i: usize = 0;
        while i < buf.len()
            invariant
                i <= buf@.len(),
                buf@.len() <= old(self).capacity - old(self).body@.len(),
                self.capacity == old(self).capacity,
                self.body@ == old(self).body@ + buf@.subrange(0, i as int),
            decreases buf@.len() - i,
        {
            self.body.push(buf[i]);
            proof {
                assert(self.body@ =~= old(self).body@ + buf@.subrange(0, i + 1));
            }
            i = i + 1;
        }
        proof {
            assert(self.body@ =~= old(self).body@ + buf@);
        }
        Ok(buf.len())
    }
}

} // verus!
