//! A single-file ordered key/value block store.
//!
//! The file holds one allocator header in a reserved region, followed by a
//! sequence of blocks, each prefixed by a block header. All multi-byte fields
//! are big-endian so the format is architecture independent.

use vstd::prelude::*;

pub mod fsalloc;
pub mod raw;

verus! {

/// Location and size of a piece of data within the file.
#[derive(Clone, Copy, Debug, PartialEq, Eq)]
pub struct Block {
    /// Offset from the file start
    pub offset: u64,

    /// Size of the data
    pub size: u32,
}

/// Coarse taxonomy of the records a block can hold.
#[derive(Clone, Copy, Debug, PartialEq, Eq)]
pub enum DataTypeRaw {
    /// Raw data, no additional mappings
    Bytes,
    /// A tree node holding keys and child pointers
    GenBTree,
    /// A key record belonging to a tree node
    GenKey,
}

/// Minimal in-memory description of a block: where its parent lives, how
/// large it is, and which record taxonomy it belongs to.
#[derive(Clone, Copy, Debug, PartialEq, Eq)]
pub struct BlockHeader {
    /// The parent of this block
    pub parent: u64,

    /// Size of this block
    pub size: u32,

    /// Taxonomy of this block
    pub ty: DataTypeRaw,
}

/// Layout of a tree node block: a fixed array of key references and a fixed
/// array of child offsets. The key and value types live only at the type
/// level; no bytes are stored for them.
pub struct GenBTreeRaw<K, V> {
    pub header: BlockHeader,

    /// Lookup keys for the map: references to key records
    pub keys: [Block; 64],

    /// Child node offsets, 0 if they are not set
    pub leaves: [u64; 63],

    pub key_marker: core::marker::PhantomData<K>,
    pub value_marker: core::marker::PhantomData<V>,
}

/// Layout of a key record: the raw key bytes plus a reference to the data
/// record that holds the associated value.
pub struct GenKeyRaw<K, V> {
    pub header: BlockHeader,

    /// Value of the generic key
    pub key: Vec<u8>,

    /// Location of the actual data
    pub data: Block,

    pub key_marker: core::marker::PhantomData<K>,
    pub value_marker: core::marker::PhantomData<V>,
}

/// Layout of a data record: raw value bytes, owned by exactly one key record.
pub struct DataBlockRaw<V> {
    pub header: BlockHeader,

    pub data: Vec<u8>,

    pub value_marker: core::marker::PhantomData<V>,
}

} // verus!
