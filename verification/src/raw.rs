//! Raw on-disk types and their binary codec.
//!
//! All multi-byte integer fields are big-endian (network byte order).

use vstd::prelude::*;

verus! {

/// Signature at the beginning of every file.
pub const MAGIC_NUMBER: u32 = 0x01A1_A1AF;
/// Major version. Differing major versions are never compatible.
pub const VERSION_MAJOR: u32 = 0x0000;
/// Minor version. Newer minor versions can read older minor versions but not
/// vice versa.
pub const VERSION_MINOR: u32 = 0x0001;
/// Patch version, not currently used.
pub const VERSION_PATCH: u64 = 0x0000;

/// Type which defines the size of a block
pub type BlockSize = u32;

/// Offset location within the file. Think of this as a pointer.
pub type Offset = u64;

/// Packed width of [`AllocHeader`] in bytes.
pub const ALLOC_HEADER_LEN: u64 = 44;
/// Packed width of [`BlockHeader`] in bytes.
pub const BLOCK_HEADER_LEN: u64 = 24;
/// Offset of the root node; the allocator header's reserved region ends here.
pub const ROOT_OFFSET: u64 = 512;
/// Bytes of the reserved region that follow the packed allocator header.
pub const ALLOC_HEADER_RESERVED: u64 = ROOT_OFFSET - ALLOC_HEADER_LEN;
/// Initial size of a freshly created file: 1 MiB.
pub const ALLOC_INITIAL_SIZE: u64 = 1_048_576;
/// Declared key size of the root node.
pub const ROOT_KEY_SIZE: u16 = 32;

/// Fanout: number of key slots in a tree node; child slots are one fewer.
pub const NODE_NUM_ITEMS: usize = 64;
/// Width in bytes of an [`Offset`] as stored on disk.
pub const OFFSET_WIDTH: usize = 8;

// ---------------------------------------------------------------------------
// Big-endian integer codec
// ---------------------------------------------------------------------------

/// The two big-endian bytes of `x`.
pub open spec fn u16_be(x: u16) -> Seq<u8> {
    seq![((x >> 8) & 0xff) as u8, (x & 0xff) as u8]
}

/// The four big-endian bytes of `x`.
pub open spec fn u32_be(x: u32) -> Seq<u8> {
    seq![
        ((x >> 24) & 0xff) as u8,
        ((x >> 16) & 0xff) as u8,
        ((x >> 8) & 0xff) as u8,
        (x & 0xff) as u8,
    ]
}

/// The eight big-endian bytes of `x`.
pub open spec fn u64_be(x: u64) -> Seq<u8> {
    seq![
        ((x >> 56) & 0xff) as u8,
        ((x >> 48) & 0xff) as u8,
        ((x >> 40) & 0xff) as u8,
        ((x >> 32) & 0xff) as u8,
        ((x >> 24) & 0xff) as u8,
        ((x >> 16) & 0xff) as u8,
        ((x >> 8) & 0xff) as u8,
        (x & 0xff) as u8,
    ]
}

/// The `u16` whose big-endian bytes are `b0 b1`.
pub open spec fn u16_of_be(b0: u8, b1: u8) -> u16 {
    ((b0 as u16) << 8) | (b1 as u16)
}

/// The `u32` whose big-endian bytes are `b0 .. b3`.
pub open spec fn u32_of_be(b0: u8, b1: u8, b2: u8, b3: u8) -> u32 {
    ((b0 as u32) << 24) | ((b1 as u32) << 16) | ((b2 as u32) << 8) | (b3 as u32)
}

/// The `u64` whose big-endian bytes are `b0 .. b7`.
pub open spec fn u64_of_be(b0: u8, b1: u8, b2: u8, b3: u8, b4: u8, b5: u8, b6: u8, b7: u8) -> u64 {
    ((b0 as u64) << 56) | ((b1 as u64) << 48) | ((b2 as u64) << 40) | ((b3 as u64) << 32)
        | ((b4 as u64) << 24) | ((b5 as u64) << 16) | ((b6 as u64) << 8) | (b7 as u64)
}

/// Reading back the two big-endian bytes of `x` yields `x`.
pub proof fn lemma_u16_be_round_trip(x: u16)
    ensures
        u16_of_be(u16_be(x)[0], u16_be(x)[1]) == x,
{
    assert((((((x >> 8) & 0xff) as u8) as u16) << 8) | (((x & 0xff) as u8) as u16) == x)
        by (bit_vector);
}

/// Reading back the four big-endian bytes of `x` yields `x`.
pub proof fn lemma_u32_be_round_trip(x: u32)
    ensures
        u32_of_be(u32_be(x)[0], u32_be(x)[1], u32_be(x)[2], u32_be(x)[3]) == x,
{
    assert(((((x >> 24) & 0xff) as u8 as u32) << 24) | ((((x >> 16) & 0xff) as u8 as u32) << 16)
        | ((((x >> 8) & 0xff) as u8 as u32) << 8) | ((x & 0xff) as u8 as u32) == x)
        by (bit_vector);
}

/// Reading back the eight big-endian bytes of `x` yields `x`.
pub proof fn lemma_u64_be_round_trip(x: u64)
    ensures
        u64_of_be(
            u64_be(x)[0],
            u64_be(x)[1],
            u64_be(x)[2],
            u64_be(x)[3],
            u64_be(x)[4],
            u64_be(x)[5],
            u64_be(x)[6],
            u64_be(x)[7],
        ) == x,
{
    assert(((((x >> 56) & 0xff) as u8 as u64) << 56) | ((((x >> 48) & 0xff) as u8 as u64) << 48)
        | ((((x >> 40) & 0xff) as u8 as u64) << 40) | ((((x >> 32) & 0xff) as u8 as u64) << 32)
        | ((((x >> 24) & 0xff) as u8 as u64) << 24) | ((((x >> 16) & 0xff) as u8 as u64) << 16)
        | ((((x >> 8) & 0xff) as u8 as u64) << 8) | ((x & 0xff) as u8 as u64) == x)
        by (bit_vector);
}

/// Appends the two big-endian bytes of `x` to `v`.
fn push_u16_be(v: &mut Vec<u8>, x: u16)
    ensures
        final(v)@ == old(v)@ + u16_be(x),
{
    proof {
        assert((x >> 8) & 0xff < 256 && x & 0xff < 256) by (bit_vector);
    }
    v.push(((x >> 8) & 0xff) as u8);
    v.push((x & 0xff) as u8);
    proof {
        assert(v@ =~= old(v)@ + u16_be(x));
    }
}

/// Appends the four big-endian bytes of `x` to `v`.
fn push_u32_be(v: &mut Vec<u8>, x: u32)
    ensures
        final(v)@ == old(v)@ + u32_be(x),
{
    proof {
        assert((x >> 24) & 0xff < 256 && (x >> 16) & 0xff < 256 && (x >> 8) & 0xff < 256 && x & 0xff
            < 256) by (bit_vector);
    }
    v.push(((x >> 24) & 0xff) as u8);
    v.push(((x >> 16) & 0xff) as u8);
    v.push(((x >> 8) & 0xff) as u8);
    v.push((x & 0xff) as u8);
    proof {
        assert(v@ =~= old(v)@ + u32_be(x));
    }
}

/// Appends the eight big-endian bytes of `x` to `v`.
fn push_u64_be(v: &mut Vec<u8>, x: u64)
    ensures
        final(v)@ == old(v)@ + u64_be(x),
{
    proof {
        assert((x >> 56) & 0xff < 256 && (x >> 48) & 0xff < 256 && (x >> 40) & 0xff < 256 && (x
            >> 32) & 0xff < 256 && (x >> 24) & 0xff < 256 && (x >> 16) & 0xff < 256 && (x >> 8)
            & 0xff < 256 && x & 0xff < 256) by (bit_vector);
    }
    v.push(((x >> 56) & 0xff) as u8);
    v.push(((x >> 48) & 0xff) as u8);
    v.push(((x >> 40) & 0xff) as u8);
    v.push(((x >> 32) & 0xff) as u8);
    v.push(((x >> 24) & 0xff) as u8);
    v.push(((x >> 16) & 0xff) as u8);
    v.push(((x >> 8) & 0xff) as u8);
    v.push((x & 0xff) as u8);
    proof {
        assert(v@ =~= old(v)@ + u64_be(x));
    }
}

/// Reads the big-endian `u16` at `off`.
fn read_u16_be(b: &[u8], off: usize) -> (r: u16)
    requires
        off + 2 <= b@.len(),
    ensures
        r == u16_of_be(b@[off as int], b@[off as int + 1]),
{
    let b0: u16 = b[off] as u16;
    let b1: u16 = b[off + 1] as u16;
    (b0 << 8u16) | b1
}

/// Reads the big-endian `u32` at `off`.
fn read_u32_be(b: &[u8], off: usize) -> (r: u32)
    requires
        off + 4 <= b@.len(),
    ensures
        r == u32_of_be(b@[off as int], b@[off as int + 1], b@[off as int + 2], b@[off as int + 3]),
{
    let b0: u32 = b[off] as u32;
    let b1: u32 = b[off + 1] as u32;
    let b2: u32 = b[off + 2] as u32;
    let b3: u32 = b[off + 3] as u32;
    (b0 << 24u32) | (b1 << 16u32) | (b2 << 8u32) | b3
}

/// Reads the big-endian `u64` at `off`.
fn read_u64_be(b: &[u8], off: usize) -> (r: u64)
    requires
        off + 8 <= b@.len(),
    ensures
        r == u64_of_be(
            b@[off as int],
            b@[off as int + 1],
            b@[off as int + 2],
            b@[off as int + 3],
            b@[off as int + 4],
            b@[off as int + 5],
            b@[off as int + 6],
            b@[off as int + 7],
        ),
{
    let b0: u64 = b[off] as u64;
    let b1: u64 = b[off + 1] as u64;
    let b2: u64 = b[off + 2] as u64;
    let b3: u64 = b[off + 3] as u64;
    let b4: u64 = b[off + 4] as u64;
    let b5: u64 = b[off + 5] as u64;
    let b6: u64 = b[off + 6] as u64;
    let b7: u64 = b[off + 7] as u64;
    (b0 << 56u64) | (b1 << 48u64) | (b2 << 40u64) | (b3 << 32u64) | (b4 << 24u64) | (b5 << 16u64)
        | (b6 << 8u64) | b7
}

// ---------------------------------------------------------------------------
// Status byte and block-kind discriminant
// ---------------------------------------------------------------------------

/// The status byte: `deleted` in the highest bit, then `finished`, then
/// `is_root`; the low five bits are reserved and zero.
pub open spec fn status_byte(deleted: bool, finished: bool, is_root: bool) -> u8 {
    ((if deleted {
        0x80int
    } else {
        0int
    }) + (if finished {
        0x40int
    } else {
        0int
    }) + (if is_root {
        0x20int
    } else {
        0int
    })) as u8
}

/// The `deleted` flag of a status byte.
pub open spec fn status_deleted(b: u8) -> bool {
    (b / 0x80) % 2 == 1
}

/// The `finished` flag of a status byte.
pub open spec fn status_finished(b: u8) -> bool {
    (b / 0x40) % 2 == 1
}

/// The `is_root` flag of a status byte.
pub open spec fn status_is_root(b: u8) -> bool {
    (b / 0x20) % 2 == 1
}

/// The three flags survive a trip through the status byte.
pub proof fn lemma_status_byte_round_trip(deleted: bool, finished: bool, is_root: bool)
    ensures
        status_deleted(status_byte(deleted, finished, is_root)) == deleted,
        status_finished(status_byte(deleted, finished, is_root)) == finished,
        status_is_root(status_byte(deleted, finished, is_root)) == is_root,
{
}

/// Type of a block, as stored in the 8-bit discriminant.
///
/// Two bits say whether the key is sized, two bits whether the value is.
#[derive(Clone, Copy, Debug, PartialEq, Eq)]
pub enum BlockType {
    /// Raw value bytes, no further structure
    DataBlock,
    /// Tree node: variable-length keys, variable-length values
    GenKeyGenValue,
    /// Tree node: variable-length keys, fixed-length values
    GenKeySizedValue,
    /// Tree node: fixed-length keys, variable-length values
    SizedKeyGenValue,
    /// Tree node: fixed-length keys, fixed-length values
    SizedKeySizedValue,
}

/// The on-disk discriminant of a block type.
pub open spec fn block_type_code(t: BlockType) -> u8 {
    match t {
        BlockType::DataBlock => 0x00,
        BlockType::GenKeyGenValue => 0x11,
        BlockType::GenKeySizedValue => 0x13,
        BlockType::SizedKeyGenValue => 0x31,
        BlockType::SizedKeySizedValue => 0x33,
    }
}

/// The block type a discriminant stands for, `None` if it is not one of the
/// defined values.
pub open spec fn block_type_of_code(c: u8) -> Option<BlockType> {
    if c == 0x00 {
        Some(BlockType::DataBlock)
    } else if c == 0x11 {
        Some(BlockType::GenKeyGenValue)
    } else if c == 0x13 {
        Some(BlockType::GenKeySizedValue)
    } else if c == 0x31 {
        Some(BlockType::SizedKeyGenValue)
    } else if c == 0x33 {
        Some(BlockType::SizedKeySizedValue)
    } else {
        None
    }
}

/// Every block type survives a trip through its discriminant.
pub proof fn lemma_block_type_round_trip(t: BlockType)
    ensures
        block_type_of_code(block_type_code(t)) == Some(t),
{
}

/// Writes the on-disk discriminant of `t`.
fn block_type_code_exec(t: BlockType) -> (r: u8)
    ensures
        r == block_type_code(t),
{
    match t {
        BlockType::DataBlock => 0x00,
        BlockType::GenKeyGenValue => 0x11,
        BlockType::GenKeySizedValue => 0x13,
        BlockType::SizedKeyGenValue => 0x31,
        BlockType::SizedKeySizedValue => 0x33,
    }
}

/// Reads a block-type discriminant back, `None` if unrecognized.
fn block_type_of_code_exec(c: u8) -> (r: Option<BlockType>)
    ensures
        r == block_type_of_code(c),
{
    if c == 0x00 {
        Some(BlockType::DataBlock)
    } else if c == 0x11 {
        Some(BlockType::GenKeyGenValue)
    } else if c == 0x13 {
        Some(BlockType::GenKeySizedValue)
    } else if c == 0x31 {
        Some(BlockType::SizedKeyGenValue)
    } else if c == 0x33 {
        Some(BlockType::SizedKeySizedValue)
    } else {
        None
    }
}

// ---------------------------------------------------------------------------
// Errors
// ---------------------------------------------------------------------------

/// Why a byte sequence is not a valid instance of this format.
#[derive(Clone, Copy, Debug, PartialEq, Eq)]
pub enum FormatError {
    /// The byte slice length does not match the declared fixed width
    Length,
    /// The block-kind discriminant is not one of the defined values
    UnknownBlockType,
    /// The file is shorter than the reserved header region
    FileTooSmall,
}

// ---------------------------------------------------------------------------
// Allocator header
// ---------------------------------------------------------------------------

/// The header for the "allocator" — i.e. the header for the whole file.
///
/// Packed form: 44 bytes at offset 0, all fields big-endian.
#[derive(Clone, Copy, Debug, PartialEq, Eq)]
pub struct AllocHeader {
    /// Magic number at the beginning of every file
    pub magic: u32,

    /// Major version. Differing major versions are never compatible.
    pub version_major: u32,

    /// Minor version. Newer minor versions can read older minor versions but
    /// not vice versa.
    pub version_minor: u32,

    /// Patch version, not currently used.
    pub version_patch: u64,

    /// Location of the root node
    pub root: u64,

    /// Location of unused data: the first unallocated byte
    pub heap: u64,

    /// Tracked capacity of the file
    pub capacity: u64,
}

/// The allocator header a fresh file starts with.
pub open spec fn spec_default_alloc_header() -> AllocHeader {
    AllocHeader {
        magic: MAGIC_NUMBER,
        version_major: VERSION_MAJOR,
        version_minor: VERSION_MINOR,
        version_patch: VERSION_PATCH,
        root: ROOT_OFFSET,
        heap: ROOT_OFFSET,
        capacity: (ALLOC_INITIAL_SIZE - ROOT_OFFSET) as u64,
    }
}

/// The 44 packed big-endian bytes of an allocator header.
pub open spec fn spec_pack_alloc_header(h: AllocHeader) -> Seq<u8> {
    u32_be(h.magic) + u32_be(h.version_major) + u32_be(h.version_minor) + u64_be(h.version_patch)
        + u64_be(h.root) + u64_be(h.heap) + u64_be(h.capacity)
}

/// The allocator header whose packed bytes are `b`.
pub open spec fn spec_unpack_alloc_header(b: Seq<u8>) -> AllocHeader
    recommends
        b.len() == ALLOC_HEADER_LEN,
{
    AllocHeader {
        magic: u32_of_be(b[0], b[1], b[2], b[3]),
        version_major: u32_of_be(b[4], b[5], b[6], b[7]),
        version_minor: u32_of_be(b[8], b[9], b[10], b[11]),
        version_patch: u64_of_be(b[12], b[13], b[14], b[15], b[16], b[17], b[18], b[19]),
        root: u64_of_be(b[20], b[21], b[22], b[23], b[24], b[25], b[26], b[27]),
        heap: u64_of_be(b[28], b[29], b[30], b[31], b[32], b[33], b[34], b[35]),
        capacity: u64_of_be(b[36], b[37], b[38], b[39], b[40], b[41], b[42], b[43]),
    }
}

/// Every allocator header value survives a pack/unpack round trip.
pub proof fn lemma_alloc_header_round_trip(h: AllocHeader)
    ensures
        spec_unpack_alloc_header(spec_pack_alloc_header(h)) == h,
{
    lemma_u32_be_round_trip(h.magic);
    lemma_u32_be_round_trip(h.version_major);
    lemma_u32_be_round_trip(h.version_minor);
    lemma_u64_be_round_trip(h.version_patch);
    lemma_u64_be_round_trip(h.root);
    lemma_u64_be_round_trip(h.heap);
    lemma_u64_be_round_trip(h.capacity);
}

impl Default for AllocHeader {
    /// The header of a brand-new file: versions set, root and heap at the
    /// reserved-region boundary, capacity the initial size less the region.
    fn default() -> (r: AllocHeader)
        ensures
            r == spec_default_alloc_header(),
    {
        AllocHeader {
            magic: MAGIC_NUMBER,
            version_major: VERSION_MAJOR,
            version_minor: VERSION_MINOR,
            version_patch: VERSION_PATCH,
            root: ROOT_OFFSET,
            heap: ROOT_OFFSET,
            capacity: ALLOC_INITIAL_SIZE - ROOT_OFFSET,
        }
    }
}

/// Packs an allocator header into its 44 big-endian bytes.
pub fn pack_alloc_header(h: &AllocHeader) -> (r: Vec<u8>)
    ensures
        r@ == spec_pack_alloc_header(*h),
        r@.len() == ALLOC_HEADER_LEN,
{
    let mut v: Vec<u8> = Vec::new();
    push_u32_be(&mut v, h.magic);
    push_u32_be(&mut v, h.version_major);
    push_u32_be(&mut v, h.version_minor);
    push_u64_be(&mut v, h.version_patch);
    push_u64_be(&mut v, h.root);
    push_u64_be(&mut v, h.heap);
    push_u64_be(&mut v, h.capacity);
    proof {
        assert(v@ =~= spec_pack_alloc_header(*h));
    }
    v
}

/// Unpacks an allocator header from its 44 big-endian bytes; fails if the
/// slice is not exactly the packed width.
pub fn unpack_alloc_header(b: &[u8]) -> (r: Result<AllocHeader, FormatError>)
    ensures
        b@.len() != ALLOC_HEADER_LEN ==> r == Err::<AllocHeader, FormatError>(FormatError::Length),
        b@.len() == ALLOC_HEADER_LEN ==> r == Ok::<AllocHeader, FormatError>(
            spec_unpack_alloc_header(b@),
        ),
{
    if b.len() != 44 {
        return Err(FormatError::Length);
    }
    Ok(
        AllocHeader {
            magic: read_u32_be(b, 0),
            version_major: read_u32_be(b, 4),
            version_minor: read_u32_be(b, 8),
            version_patch: read_u64_be(b, 12),
            root: read_u64_be(b, 20),
            heap: read_u64_be(b, 28),
            capacity: read_u64_be(b, 36),
        },
    )
}

// ---------------------------------------------------------------------------
// Block header
// ---------------------------------------------------------------------------

/// Packed raw header object at the beginning of every block.
///
/// Packed form: 24 bytes, all multi-byte fields big-endian, then one byte of
/// block-type discriminant and one status byte. The status byte must always
/// be updated last: a reader must never observe `finished` on a block whose
/// body is only partially written.
#[derive(Clone, Copy, Debug, PartialEq, Eq)]
pub struct BlockHeader {
    /// Parent offset of this block.
    pub parent: u64,

    /// Capacity (in bytes) of the block's body
    ///
    /// > Next block is at `self.offset + self.capacity`
    pub capacity: u32,

    /// Used bytes of the block
    pub used: u32,

    /// Declared fixed key size, 0 if keys are variable-length
    pub ty_keysize: u16,

    /// Declared fixed value size, 0 if values are variable-length
    pub ty_valuesize: u16,

    /// Type of the block
    pub ty: BlockType,

    /// Whether this block has been deleted
    pub deleted: bool,

    /// If true, no data can be "in route" to this block.
    pub finished: bool,

    /// Whether this block is the "root" of a tree
    ///
    /// Data blocks are always root (they have no children either).
    pub is_root: bool,
}

/// The 24 packed big-endian bytes of a block header. Reserved bit ranges are
/// packed as zero.
pub open spec fn spec_pack_block_header(h: BlockHeader) -> Seq<u8> {
    u64_be(h.parent) + u32_be(h.capacity) + u32_be(h.used) + u16_be(h.ty_keysize) + u16_be(
        h.ty_valuesize,
    ) + u16_be(0u16) + seq![
        block_type_code(h.ty),
        status_byte(h.deleted, h.finished, h.is_root),
    ]
}

/// The block header whose packed bytes are `b`, `None` if the block-type
/// discriminant is not one of the defined values. Reserved bit ranges are
/// ignored.
pub open spec fn spec_unpack_block_header(b: Seq<u8>) -> Option<BlockHeader>
    recommends
        b.len() == BLOCK_HEADER_LEN,
{
    match block_type_of_code(b[22]) {
        Some(ty) => Some(
            BlockHeader {
                parent: u64_of_be(b[0], b[1], b[2], b[3], b[4], b[5], b[6], b[7]),
                capacity: u32_of_be(b[8], b[9], b[10], b[11]),
                used: u32_of_be(b[12], b[13], b[14], b[15]),
                ty_keysize: u16_of_be(b[16], b[17]),
                ty_valuesize: u16_of_be(b[18], b[19]),
                ty,
                deleted: status_deleted(b[23]),
                finished: status_finished(b[23]),
                is_root: status_is_root(b[23]),
            },
        ),
        None => None,
    }
}

/// Every block header value survives a pack/unpack round trip.
pub proof fn lemma_block_header_round_trip(h: BlockHeader)
    ensures
        spec_unpack_block_header(spec_pack_block_header(h)) == Some(h),
{
    lemma_u64_be_round_trip(h.parent);
    lemma_u32_be_round_trip(h.capacity);
    lemma_u32_be_round_trip(h.used);
    lemma_u16_be_round_trip(h.ty_keysize);
    lemma_u16_be_round_trip(h.ty_valuesize);
    lemma_block_type_round_trip(h.ty);
    lemma_status_byte_round_trip(h.deleted, h.finished, h.is_root);
}

/// Packs a block header into its 24 big-endian bytes.
pub fn pack_block_header(h: &BlockHeader) -> (r: Vec<u8>)
    ensures
        r@ == spec_pack_block_header(*h),
        r@.len() == BLOCK_HEADER_LEN,
{
    let mut v: Vec<u8> = Vec::new();
    push_u64_be(&mut v, h.parent);
    push_u32_be(&mut v, h.capacity);
    push_u32_be(&mut v, h.used);
    push_u16_be(&mut v, h.ty_keysize);
    push_u16_be(&mut v, h.ty_valuesize);
    push_u16_be(&mut v, 0);
    v.push(block_type_code_exec(h.ty));
    let status: u8 = (if h.deleted {
        0x80u8
    } else {
        0u8
    }) + (if h.finished {
        0x40u8
    } else {
        0u8
    }) + (if h.is_root {
        0x20u8
    } else {
        0u8
    });
    v.push(status);
    proof {
        assert(v@ =~= spec_pack_block_header(*h));
    }
    v
}

/// Unpacks a block header from its 24 big-endian bytes; fails if the slice is
/// not exactly the packed width or the block-type discriminant is
/// unrecognized.
pub fn unpack_block_header(b: &[u8]) -> (r: Result<BlockHeader, FormatError>)
    ensures
        b@.len() != BLOCK_HEADER_LEN ==> r == Err::<BlockHeader, FormatError>(FormatError::Length),
        b@.len() == BLOCK_HEADER_LEN && spec_unpack_block_header(b@) is None ==> r == Err::<
            BlockHeader,
            FormatError,
        >(FormatError::UnknownBlockType),
        b@.len() == BLOCK_HEADER_LEN ==> (spec_unpack_block_header(b@) matches Some(h) ==> r
            == Ok::<BlockHeader, FormatError>(h)),
{
    if b.len() != 24 {
        return Err(FormatError::Length);
    }
    let ty = match block_type_of_code_exec(b[22]) {
        Some(t) => t,
        None => {
            return Err(FormatError::UnknownBlockType);
        },
    };
    let status: u8 = b[23];
    Ok(
        BlockHeader {
            parent: read_u64_be(b, 0),
            capacity: read_u32_be(b, 8),
            used: read_u32_be(b, 12),
            ty_keysize: read_u16_be(b, 16),
            ty_valuesize: read_u16_be(b, 18),
            ty,
            deleted: (status / 0x80) % 2 == 1,
            finished: (status / 0x40) % 2 == 1,
            is_root: (status / 0x20) % 2 == 1,
        },
    )
}

// ---------------------------------------------------------------------------
// Node capacity
// ---------------------------------------------------------------------------

/// Capacity in bytes of a fixed-size-key node block: 64 child value slots and
/// 63 leaf slots of one offset each, then 64 key slots of `key_size` bytes.
pub open spec fn spec_node_capacity(key_size: u16) -> int {
    NODE_NUM_ITEMS * OFFSET_WIDTH + (NODE_NUM_ITEMS - 1) * OFFSET_WIDTH + NODE_NUM_ITEMS * key_size
}

/// Given the key size calculate how much capacity a node needs
pub fn calc_capacity_node_sizekey_genvalue(key_size: u16) -> (r: usize)
    ensures
        r == spec_node_capacity(key_size),
        r == 64 * 8 + 63 * 8 + 64 * (key_size as int),
{
    // It stores an array of _values_, which are just pointers
    let values: usize = NODE_NUM_ITEMS * OFFSET_WIDTH;
    // It stores an array of _leaves_, which are just pointers
    let leaves: usize = (NODE_NUM_ITEMS - 1) * OFFSET_WIDTH;
    // It stores an array of keys
    let keys: usize = NODE_NUM_ITEMS * (key_size as usize);
    values + leaves + keys
}

impl BlockHeader {
    /// New SizedKeyGenValue node header, i.e. the default root: empty, not
    /// yet finished, sized by the node-capacity formula.
    pub fn new_sized_key_gen_value(parent: Offset, is_root: bool, key_size: u16) -> (r: BlockHeader)
        ensures
            r.parent == parent,
            r.capacity == spec_node_capacity(key_size),
            r.used == 0,
            r.ty_keysize == key_size,
            r.ty_valuesize == 0,
            r.ty == BlockType::SizedKeyGenValue,
            !r.deleted,
            !r.finished,
            r.is_root == is_root,
    {
        let capacity = calc_capacity_node_sizekey_genvalue(key_size);
        BlockHeader {
            parent,
            deleted: false,
            finished: false,
            is_root,
            ty: BlockType::SizedKeyGenValue,
            ty_keysize: key_size,
            ty_valuesize: 0,
            capacity: capacity as u32,
            used: 0,
        }
    }
}

} // verus!
