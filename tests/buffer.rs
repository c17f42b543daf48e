use lol_html::{Buffer, Error};

#[test]
fn new_buffer_is_empty_and_not_last() {
    let b = Buffer::new(8);
    assert_eq!(b.get_data(), &[] as &[u8]);
    assert!(!b.is_last());
}

#[test]
fn mark_as_last_input_keeps_bytes() {
    let mut b = Buffer::new(8);
    b.append(b"abc").unwrap();
    b.mark_as_last_input();
    assert!(b.is_last());
    b.mark_as_last_input();
    assert!(b.is_last());
    assert_eq!(b.get_data(), b"abc");
}

#[test]
fn appends_within_capacity_concatenate() {
    let mut b = Buffer::new(10);
    let chunks: [&[u8]; 4] = [b"<di", b"v cl", b"", b"ass"];
    let mut expected: Vec<u8> = Vec::new();
    for chunk in chunks.iter() {
        assert_eq!(b.append(chunk), Ok(()));
        expected.extend_from_slice(chunk);
        assert_eq!(b.get_data(), expected.as_slice());
    }
    assert_eq!(b.get_data(), b"<div class");
}

#[test]
fn append_filling_capacity_exactly() {
    let mut b = Buffer::new(4);
    assert_eq!(b.append(b"ab"), Ok(()));
    assert_eq!(b.append(b"cd"), Ok(()));
    assert_eq!(b.get_data(), b"abcd");
    assert_eq!(b.append(b""), Ok(()));
    assert_eq!(b.get_data(), b"abcd");
}

#[test]
fn append_over_capacity_changes_nothing() {
    let mut b = Buffer::new(5);
    b.append(b"abc").unwrap();
    assert_eq!(b.append(b"def"), Err(Error::BufferCapacityExceeded));
    assert_eq!(b.get_data(), b"abc");
    assert_eq!(b.append(b"de"), Ok(()));
    assert_eq!(b.get_data(), b"abcde");
}

#[test]
fn append_to_zero_capacity() {
    let mut b = Buffer::new(0);
    assert_eq!(b.append(b""), Ok(()));
    assert_eq!(b.append(b"a"), Err(Error::BufferCapacityExceeded));
    assert_eq!(b.get_data(), &[] as &[u8]);
}

#[test]
fn shrink_to_last_moves_tail_to_front() {
    let mut b = Buffer::new(8);
    b.append(b"abcdef").unwrap();
    b.shrink_to_last(2);
    assert_eq!(b.get_data(), b"ef");
    b.append(b"gh").unwrap();
    assert_eq!(b.get_data(), b"efgh");
}

#[test]
fn shrink_to_last_overlapping_ranges() {
    let mut b = Buffer::new(8);
    b.append(b"abcdefg").unwrap();
    b.shrink_to_last(5);
    assert_eq!(b.get_data(), b"cdefg");
    assert_eq!(b.append(b"xyz"), Ok(()));
    assert_eq!(b.get_data(), b"cdefgxyz");
    assert_eq!(b.append(b"!"), Err(Error::BufferCapacityExceeded));
}

#[test]
fn shrink_to_last_edges() {
    let mut b = Buffer::new(4);
    b.append(b"abcd").unwrap();
    b.shrink_to_last(4);
    assert_eq!(b.get_data(), b"abcd");
    b.shrink_to_last(0);
    assert_eq!(b.get_data(), &[] as &[u8]);
    b.append(b"wxyz").unwrap();
    assert_eq!(b.get_data(), b"wxyz");
}

#[test]
fn init_with_replaces_contents() {
    let mut b = Buffer::new(6);
    b.append(b"abcdef").unwrap();
    assert_eq!(b.init_with(b"xyz"), Ok(()));
    assert_eq!(b.get_data(), b"xyz");
    assert_eq!(b.init_with(b"123456"), Ok(()));
    assert_eq!(b.get_data(), b"123456");
}

#[test]
fn init_with_too_long_leaves_empty() {
    let mut b = Buffer::new(3);
    b.append(b"ab").unwrap();
    assert_eq!(b.init_with(b"wxyz"), Err(Error::BufferCapacityExceeded));
    assert_eq!(b.get_data(), &[] as &[u8]);
}
