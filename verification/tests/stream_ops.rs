use binarystream::{BinaryError, BinaryStream};

#[test]
fn new_without_arguments_is_empty() {
    let s = BinaryStream::new(None, None);
    assert_eq!(s.binary, Vec::<u8>::new());
    assert_eq!(s.offset, 0);
    assert!(s.cursor_at_start());
    assert!(s.cursor_at_end());
}

#[test]
fn new_with_buffer_and_offset() {
    let s = BinaryStream::new(Some(vec![1, 2, 3]), Some(2));
    assert_eq!(s.binary, vec![1, 2, 3]);
    assert_eq!(s.offset, 2);
    assert!(!s.cursor_at_start());
    assert!(!s.cursor_at_end());
}

#[test]
fn from_vector() {
    let s = BinaryStream::from(vec![9, 8], None);
    assert_eq!(s.binary, vec![9, 8]);
    assert_eq!(s.offset, 0);
}

#[test]
fn from_buffer_vector() {
    let s = BinaryStream::from_buffer(vec![7], Some(1));
    assert_eq!(s.binary, vec![7]);
    assert_eq!(s.offset, 1);
}

#[test]
fn read_advances_cursor() {
    let mut s = BinaryStream::from(vec![10, 20, 30, 40], None);
    assert_eq!(s.read(2).unwrap(), vec![10, 20]);
    assert_eq!(s.offset, 2);
    assert_eq!(s.read(2).unwrap(), vec![30, 40]);
    assert!(s.cursor_at_end());
}

#[test]
fn read_past_end_fails_and_leaves_cursor() {
    let mut s = BinaryStream::from(vec![1, 2, 3], None);
    assert_eq!(s.read(5), Err(BinaryError::BoundsError));
    assert_eq!(s.offset, 0);
    assert_eq!(s.read(3).unwrap(), vec![1, 2, 3]);
}

#[test]
fn read_buffer_matches_read() {
    let mut s = BinaryStream::from(vec![5, 6], None);
    assert_eq!(s.read_buffer(2).unwrap(), vec![5, 6]);
}

#[test]
fn write_appends_without_moving_cursor() {
    let mut s = BinaryStream::from(vec![1], Some(1));
    s.write(vec![2, 3]);
    assert_eq!(s.binary, vec![1, 2, 3]);
    assert_eq!(s.offset, 1);
    s.write_buffer(vec![4]);
    assert_eq!(s.binary, vec![1, 2, 3, 4]);
}

#[test]
fn read_remaining_takes_the_tail() {
    let mut s = BinaryStream::from(vec![1, 2, 3, 4], Some(1));
    assert_eq!(s.read_remaining(), vec![2, 3, 4]);
    assert_eq!(s.offset, 4);
    assert_eq!(s.read_remaining(), Vec::<u8>::new());
}

#[test]
fn read_remaining_past_end_is_empty() {
    let mut s = BinaryStream::from(vec![1, 2], Some(5));
    assert_eq!(s.read_remaining_buffer(), Vec::<u8>::new());
    assert_eq!(s.offset, 2);
}

#[test]
fn skip_then_read_behaves_like_a_cursor_move() {
    let mut s = BinaryStream::from(vec![1, 2, 3, 4], None);
    s.skip(2);
    assert_eq!(s.read(1).unwrap(), vec![3]);
}

#[test]
fn skip_past_end_makes_reads_fail() {
    let mut s = BinaryStream::from(vec![1, 2], None);
    s.skip(10);
    assert_eq!(s.offset, 10);
    assert_eq!(s.read(1), Err(BinaryError::BoundsError));
    assert_eq!(s.offset, 10);
    s.write(vec![0; 10]);
    assert_eq!(s.read(1).unwrap(), vec![0]);
}

#[test]
fn get_buffer_copies_the_bytes() {
    let s = BinaryStream::from(vec![1, 2, 3], Some(1));
    assert_eq!(s.get_buffer(), vec![1, 2, 3]);
}

#[test]
fn error_messages_describe_the_failure() {
    assert_eq!(
        BinaryError::BoundsError.message(),
        "length is greater than the remaining bytes"
    );
    assert_eq!(
        BinaryError::MalformedVarint.message(),
        "variable-length integer is too big"
    );
    assert_eq!(BinaryError::InvalidHex.message(), "invalid hexadecimal text");
}

#[test]
fn foo_names_the_stub_package() {
    assert_eq!(binarystream::foo(), "@serenityjs/netbeans");
}
