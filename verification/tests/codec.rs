use blockstore::raw::{
    calc_capacity_node_sizekey_genvalue, pack_alloc_header, pack_block_header,
    unpack_alloc_header, unpack_block_header, AllocHeader, BlockHeader, BlockType, FormatError,
};

fn block_header(ty: BlockType) -> BlockHeader {
    BlockHeader {
        parent: 0x1122_3344_5566_7788,
        capacity: 0xAABB_CCDD,
        used: 0x0102_0304,
        ty_keysize: 0xBEEF,
        ty_valuesize: 0xF00D,
        ty,
        deleted: false,
        finished: false,
        is_root: false,
    }
}

#[test]
fn sanity_header() {
    let expected = BlockHeader {
        parent: 0x10,
        deleted: false,
        finished: true,
        is_root: true,
        ty: BlockType::GenKeyGenValue,
        ty_keysize: 0x00,
        ty_valuesize: 0x00,
        capacity: 64,
        used: 64,
    };

    let packed = pack_block_header(&expected);
    let result = unpack_block_header(packed.as_slice()).unwrap();
    assert_eq!(expected, result);
}

#[test]
fn alloc_header_round_trip_boundaries() {
    let headers = [
        AllocHeader {
            magic: 0,
            version_major: 0,
            version_minor: 0,
            version_patch: 0,
            root: 0,
            heap: 0,
            capacity: 0,
        },
        AllocHeader {
            magic: u32::MAX,
            version_major: u32::MAX,
            version_minor: u32::MAX,
            version_patch: u64::MAX,
            root: u64::MAX,
            heap: u64::MAX,
            capacity: u64::MAX,
        },
        AllocHeader {
            magic: 0x01A1_A1AF,
            version_major: 0,
            version_minor: 1,
            version_patch: 2,
            root: 512,
            heap: 3600,
            capacity: 1_048_064,
        },
    ];
    for h in headers {
        let packed = pack_alloc_header(&h);
        assert_eq!(packed.len(), 44);
        assert_eq!(unpack_alloc_header(packed.as_slice()), Ok(h));
    }
}

#[test]
fn block_header_round_trip_boundaries() {
    let kinds = [
        BlockType::DataBlock,
        BlockType::GenKeyGenValue,
        BlockType::GenKeySizedValue,
        BlockType::SizedKeyGenValue,
        BlockType::SizedKeySizedValue,
    ];
    for ty in kinds {
        for flags in 0u8..8 {
            let h = BlockHeader {
                parent: u64::MAX,
                capacity: u32::MAX,
                used: 0,
                ty_keysize: u16::MAX,
                ty_valuesize: 0,
                ty,
                deleted: flags & 1 != 0,
                finished: flags & 2 != 0,
                is_root: flags & 4 != 0,
            };
            let packed = pack_block_header(&h);
            assert_eq!(packed.len(), 24);
            assert_eq!(unpack_block_header(packed.as_slice()), Ok(h));
        }
    }
}

#[test]
fn alloc_header_exact_bytes() {
    let h = AllocHeader {
        magic: 0x01A1_A1AF,
        version_major: 0x0000_0000,
        version_minor: 0x0000_0001,
        version_patch: 0,
        root: 512,
        heap: 515,
        capacity: 0x0102_0304_0506_0708,
    };
    let packed = pack_alloc_header(&h);
    let expected: Vec<u8> = vec![
        0x01, 0xA1, 0xA1, 0xAF, // magic
        0x00, 0x00, 0x00, 0x00, // version_major
        0x00, 0x00, 0x00, 0x01, // version_minor
        0x00, 0x00, 0x00, 0x00, 0x00, 0x00, 0x00, 0x00, // version_patch
        0x00, 0x00, 0x00, 0x00, 0x00, 0x00, 0x02, 0x00, // root = 512
        0x00, 0x00, 0x00, 0x00, 0x00, 0x00, 0x02, 0x03, // heap = 515
        0x01, 0x02, 0x03, 0x04, 0x05, 0x06, 0x07, 0x08, // capacity
    ];
    assert_eq!(packed, expected);
}

#[test]
fn block_header_exact_bytes() {
    let h = BlockHeader {
        parent: 0x0102_0304_0506_0708,
        capacity: 0x0A0B_0C0D,
        used: 0x0E0F_1011,
        ty_keysize: 0x1213,
        ty_valuesize: 0x1415,
        ty: BlockType::SizedKeyGenValue,
        deleted: true,
        finished: false,
        is_root: true,
    };
    let packed = pack_block_header(&h);
    let expected: Vec<u8> = vec![
        0x01, 0x02, 0x03, 0x04, 0x05, 0x06, 0x07, 0x08, // parent
        0x0A, 0x0B, 0x0C, 0x0D, // capacity
        0x0E, 0x0F, 0x10, 0x11, // used
        0x12, 0x13, // ty_keysize
        0x14, 0x15, // ty_valuesize
        0x00, 0x00, // reserved
        0x31, // SizedKeyGenValue
        0xA0, // deleted | is_root
    ];
    assert_eq!(packed, expected);
}

#[test]
fn status_byte_per_flag() {
    let mut h = block_header(BlockType::DataBlock);
    assert_eq!(pack_block_header(&h)[23], 0x00);
    h.deleted = true;
    assert_eq!(pack_block_header(&h)[23], 0x80);
    h.deleted = false;
    h.finished = true;
    assert_eq!(pack_block_header(&h)[23], 0x40);
    h.finished = false;
    h.is_root = true;
    assert_eq!(pack_block_header(&h)[23], 0x20);
    h.deleted = true;
    h.finished = true;
    assert_eq!(pack_block_header(&h)[23], 0xE0);
}

#[test]
fn block_type_codes() {
    let codes = [
        (BlockType::DataBlock, 0x00u8),
        (BlockType::GenKeyGenValue, 0x11),
        (BlockType::GenKeySizedValue, 0x13),
        (BlockType::SizedKeyGenValue, 0x31),
        (BlockType::SizedKeySizedValue, 0x33),
    ];
    for (ty, code) in codes {
        let packed = pack_block_header(&block_header(ty));
        assert_eq!(packed[22], code);
    }
}

#[test]
fn alloc_header_too_short_is_error() {
    assert_eq!(unpack_alloc_header(&[0u8; 10]), Err(FormatError::Length));
    assert_eq!(unpack_alloc_header(&[0u8; 43]), Err(FormatError::Length));
    assert_eq!(unpack_alloc_header(&[]), Err(FormatError::Length));
    assert_eq!(unpack_alloc_header(&[0u8; 45]), Err(FormatError::Length));
}

#[test]
fn block_header_too_short_is_error() {
    assert_eq!(unpack_block_header(&[0u8; 23]), Err(FormatError::Length));
    assert_eq!(unpack_block_header(&[]), Err(FormatError::Length));
    assert_eq!(unpack_block_header(&[0u8; 25]), Err(FormatError::Length));
}

#[test]
fn unknown_block_type_is_error() {
    let mut bytes = pack_block_header(&block_header(BlockType::DataBlock));
    bytes[22] = 0x05;
    assert_eq!(
        unpack_block_header(bytes.as_slice()),
        Err(FormatError::UnknownBlockType)
    );
    bytes[22] = 0xFF;
    assert_eq!(
        unpack_block_header(bytes.as_slice()),
        Err(FormatError::UnknownBlockType)
    );
}

#[test]
fn reserved_bits_are_ignored_on_decode() {
    let h = block_header(BlockType::GenKeySizedValue);
    let mut bytes = pack_block_header(&h);
    bytes[20] = 0xFF;
    bytes[21] = 0xFF;
    bytes[23] = 0x1F; // only reserved status bits set
    assert_eq!(unpack_block_header(bytes.as_slice()), Ok(h));
}

#[test]
fn node_capacity_formula() {
    assert_eq!(calc_capacity_node_sizekey_genvalue(32), 3064);
    assert_eq!(calc_capacity_node_sizekey_genvalue(0), 64 * 8 + 63 * 8);
    assert_eq!(calc_capacity_node_sizekey_genvalue(1), 64 * 8 + 63 * 8 + 64);
    assert_eq!(
        calc_capacity_node_sizekey_genvalue(u16::MAX),
        64 * 8 + 63 * 8 + 64 * 65535
    );
}
