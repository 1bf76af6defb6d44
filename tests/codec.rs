use kv_store::buffer::SubSliceMut;
use kv_store::header::{KeyHeader, HEADER_LENGTH, HEADER_VERSION};
use kv_store::permissions::StoragePermissions;

#[test]
fn header_encodes_little_endian_fields() {
    let mut buf = SubSliceMut::new(vec![0xAA; 12]);
    let h = KeyHeader { version: 0, length: 3, write_id: 0x0102_0304 };
    h.copy_to_buf(&mut buf);
    assert_eq!(buf.as_slice(), &[0, 3, 0, 0, 0, 4, 3, 2, 1, 0xAA, 0xAA, 0xAA]);
}

#[test]
fn header_decodes_what_it_encoded() {
    let mut buf = SubSliceMut::new(vec![0; HEADER_LENGTH]);
    let h = KeyHeader { version: HEADER_VERSION, length: 0xDEAD_BEEF, write_id: 77 };
    h.copy_to_buf(&mut buf);
    assert_eq!(KeyHeader::new_from_buf(buf.as_slice()), h);
}

#[test]
fn header_decodes_from_raw_bytes() {
    let bytes = [7u8, 0x10, 0, 0, 0x01, 0xFF, 0xFF, 0xFF, 0xFF, 9];
    let h = KeyHeader::new_from_buf(&bytes);
    assert_eq!(h.version, 7);
    assert_eq!(h.length, 0x0100_0010);
    assert_eq!(h.write_id, u32::MAX);
}

#[test]
fn header_is_written_at_window_start() {
    let mut buf = SubSliceMut::new(vec![5u8; 12]);
    buf.slice_from(2);
    let h = KeyHeader { version: 0, length: 1, write_id: 2 };
    h.copy_to_buf(&mut buf);
    buf.reset();
    assert_eq!(buf.as_slice(), &[5, 5, 0, 1, 0, 0, 0, 2, 0, 0, 0, 5]);
}

#[test]
fn sub_slice_windows() {
    let mut buf = SubSliceMut::new(vec![1, 2, 3, 4, 5]);
    assert_eq!(buf.len(), 5);
    buf.slice_from(1);
    assert_eq!(buf.as_slice(), &[2, 3, 4, 5]);
    buf.slice_to(2);
    assert_eq!(buf.as_slice(), &[2, 3]);
    assert_eq!(buf.get(1), 3);
    buf.set(0, 9);
    buf.slice_from(10);
    assert!(buf.is_empty());
    buf.reset();
    assert_eq!(buf.as_slice(), &[1, 9, 3, 4, 5]);
    buf.zero_all();
    assert_eq!(buf.take(), vec![0, 0, 0, 0, 0]);
}

#[test]
fn permissions_answer_from_their_lists() {
    let p = StoragePermissions::new(vec![1, 2], vec![2], Some(2));
    assert!(p.check_read_permission(1));
    assert!(p.check_read_permission(2));
    assert!(!p.check_read_permission(3));
    assert!(!p.check_write_permission(1));
    assert!(p.check_write_permission(2));
    assert_eq!(p.get_write_id(), Some(2));
    let none = StoragePermissions::none();
    assert!(!none.check_read_permission(0));
    assert!(!none.check_write_permission(0));
    assert_eq!(none.get_write_id(), None);
}

