//! The bounded buffer's ceiling, enforced append by append.

use blob_storage::error::Error;
use blob_storage::sized_buffer::SizedBuffer;

#[test]
fn test_append_within_ceiling() {
    let mut buf = SizedBuffer::new(10);
    assert_eq!(buf.write_all(b"hello"), Ok(()));
    assert_eq!(buf.write_all(b" you"), Ok(()));
    assert_eq!(buf.len(), 9);
    assert_eq!(buf.into_inner(), b"hello you".to_vec());
}

#[test]
fn test_exact_fit_succeeds() {
    let mut buf = SizedBuffer::new(5);
    assert_eq!(buf.write_all(b"12345"), Ok(()));
    assert_eq!(buf.len(), 5);
    assert_eq!(buf.into_inner(), b"12345".to_vec());
}

#[test]
fn test_overflowing_chunk_writes_nothing() {
    let mut buf = SizedBuffer::new(5);
    assert_eq!(buf.write_all(b"1234"), Ok(()));
    // The chunk that would cross the ceiling fails whole: no partial write.
    assert_eq!(buf.write_all(b"56"), Err(Error::SizeLimitExceeded));
    assert_eq!(buf.len(), 4);
    // A chunk that still fits is accepted afterwards.
    assert_eq!(buf.write_all(b"5"), Ok(()));
    assert_eq!(buf.into_inner(), b"12345".to_vec());
}

#[test]
fn test_zero_capacity() {
    let mut buf = SizedBuffer::new(0);
    assert_eq!(buf.write_all(b""), Ok(()));
    assert_eq!(buf.write_all(b"x"), Err(Error::SizeLimitExceeded));
    assert_eq!(buf.into_inner(), Vec::<u8>::new());
}

#[test]
fn test_reserve_keeps_contents_and_ceiling() {
    let mut buf = SizedBuffer::new(8);
    assert_eq!(buf.write_all(b"abc"), Ok(()));
    buf.reserve(1024);
    assert_eq!(buf.len(), 3);
    assert_eq!(buf.write_all(b"defgh"), Ok(()));
    assert_eq!(buf.write_all(b"i"), Err(Error::SizeLimitExceeded));
    assert_eq!(buf.into_inner(), b"abcdefgh".to_vec());
}
