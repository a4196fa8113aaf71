use xplane::ffi::{c_buffer_bytes, check_c_string, NulByteError, StringBuffer};

#[test]
fn new_buffer_is_all_null() {
    let b = StringBuffer::new(4);
    assert_eq!(b.as_bytes(), &[0u8, 0, 0, 0]);
    assert_eq!(b.as_str().unwrap(), "");
    assert_eq!(StringBuffer::new(0).as_bytes().len(), 0);
}

#[test]
fn buffer_text_stops_at_first_null() {
    let mut b = StringBuffer::new(8);
    b.as_bytes_mut()[..5].copy_from_slice(b"ab\0cd");
    assert_eq!(b.as_str().unwrap(), "ab");
    assert_eq!(b.into_string().unwrap(), "ab");
}

#[test]
fn full_buffer_without_null_is_all_text() {
    let mut b = StringBuffer::new(3);
    b.as_bytes_mut().copy_from_slice(b"xyz");
    assert_eq!(b.as_str().unwrap(), "xyz");
    assert_eq!(b.into_c_bytes(), b"xyz\0".to_vec());
}

#[test]
fn invalid_utf8_is_an_error() {
    let mut b = StringBuffer::new(4);
    b.as_bytes_mut()[0] = 0xff;
    assert!(b.as_str().is_err());
    assert!(b.into_string().is_err());
}

#[test]
fn c_bytes_keep_first_null() {
    let mut b = StringBuffer::new(6);
    b.as_bytes_mut()[..4].copy_from_slice(b"hi\0x");
    assert_eq!(b.into_c_bytes(), b"hi\0".to_vec());
}

#[test]
fn long_text_is_truncated_to_capacity() {
    let r = c_buffer_bytes(b"abcdefgh", 4).unwrap();
    assert_eq!(r, b"abc\0".to_vec());
    let r = c_buffer_bytes(b"abcd", 4).unwrap();
    assert_eq!(r, b"abc\0".to_vec());
    let r = c_buffer_bytes(b"ab", 4).unwrap();
    assert_eq!(r, b"ab\0".to_vec());
    let r = c_buffer_bytes(b"", 1).unwrap();
    assert_eq!(r, b"\0".to_vec());
}

#[test]
fn embedded_null_within_capacity_is_refused() {
    assert_eq!(c_buffer_bytes(b"ab\0cd", 8), Err(NulByteError { position: 2 }));
    assert_eq!(c_buffer_bytes(b"abc\0", 4), Err(NulByteError { position: 3 }));
    // A null past the buffer's reach is cut off with the rest.
    assert_eq!(c_buffer_bytes(b"abcd\0", 4).unwrap(), b"abc\0".to_vec());
}

#[test]
fn c_string_check() {
    assert_eq!(check_c_string("fine"), Ok(()));
    let e = check_c_string("a\0b").unwrap_err();
    assert_eq!(e.nul_position(), 1);
}
