use blockstore::fsalloc::{AllocedWriter, CapacityExceeded};

#[test]
fn writer_rejects_one_byte_too_many() {
    let mut w = AllocedWriter::new(10);
    assert_eq!(w.write(&[1, 2, 3, 4, 5]), Ok(5));
    assert_eq!(w.used(), 5);

    // capacity - used + 1 bytes: rejected, used unchanged
    let too_many = vec![0u8; 6];
    assert_eq!(w.write(too_many.as_slice()), Err(CapacityExceeded));
    assert_eq!(w.used(), 5);

    // exactly capacity - used bytes: accepted, used reaches capacity
    assert_eq!(w.write(&[6, 7, 8, 9, 10]), Ok(5));
    assert_eq!(w.used(), 10);
    assert_eq!(w.used(), w.capacity);
    assert_eq!(w.body, vec![1, 2, 3, 4, 5, 6, 7, 8, 9, 10]);

    // the full writer still rejects a single byte but takes an empty write
    assert_eq!(w.write(&[11]), Err(CapacityExceeded));
    assert_eq!(w.used(), 10);
    assert_eq!(w.write(&[]), Ok(0));
}

#[test]
fn writer_body_keeps_order() {
    let mut w = AllocedWriter::new(6);
    assert_eq!(w.write(&[0xAA, 0xBB]), Ok(2));
    assert_eq!(w.write(&[0xCC]), Ok(1));
    assert_eq!(w.write(&[0xDD, 0xEE, 0xFF]), Ok(3));
    assert_eq!(w.body, vec![0xAA, 0xBB, 0xCC, 0xDD, 0xEE, 0xFF]);
}

#[test]
fn zero_capacity_writer_accepts_nothing() {
    let mut w = AllocedWriter::new(0);
    assert_eq!(w.write(&[1]), Err(CapacityExceeded));
    assert_eq!(w.used(), 0);
    assert_eq!(w.write(&[]), Ok(0));
    assert!(w.body.is_empty());
}
