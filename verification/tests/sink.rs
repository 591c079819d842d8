use evcxr_content::ContentError;
use evcxr_content::EvcxrContent;
use evcxr_content::SeekFrom;

#[test]
fn new_buffer_is_empty() {
    let b = EvcxrContent::new("image/png");
    assert_eq!(b.mime_type(), "image/png");
    assert_eq!(b.bytes(), &[] as &[u8]);
    assert_eq!(b.position(), 0);
}

#[test]
fn from_parts_keeps_bytes() {
    let b = EvcxrContent::from_parts("text/plain", vec![10, 20, 30]);
    assert_eq!(b.mime_type(), "text/plain");
    assert_eq!(b.bytes(), &[10, 20, 30]);
    assert_eq!(b.position(), 0);
}

#[test]
fn write_appends_and_advances() {
    let mut b = EvcxrContent::new("text/plain");
    assert_eq!(b.write(b"abc"), Ok(3));
    assert_eq!(b.bytes(), b"abc");
    assert_eq!(b.position(), 3);
    assert_eq!(b.write(b"de"), Ok(2));
    assert_eq!(b.bytes(), b"abcde");
    assert_eq!(b.position(), 5);
}

#[test]
fn write_overwrites_after_seek() {
    let mut b = EvcxrContent::new("text/plain");
    assert_eq!(b.write(b"hello"), Ok(5));
    assert_eq!(b.seek(SeekFrom::Start(1)), Ok(1));
    assert_eq!(b.write(b"XY"), Ok(2));
    assert_eq!(b.bytes(), b"hXYlo");
    assert_eq!(b.position(), 3);
}

#[test]
fn write_past_end_pads_with_zeros() {
    let mut b = EvcxrContent::new("text/plain");
    assert_eq!(b.seek(SeekFrom::Start(3)), Ok(3));
    assert_eq!(b.write(b"a"), Ok(1));
    assert_eq!(b.bytes(), &[0, 0, 0, b'a']);
}

#[test]
fn seek_from_end_and_current() {
    let mut b = EvcxrContent::new("text/plain");
    assert_eq!(b.write(b"abcd"), Ok(4));
    assert_eq!(b.seek(SeekFrom::End(-1)), Ok(3));
    assert_eq!(b.seek(SeekFrom::Current(-2)), Ok(1));
    assert_eq!(b.seek(SeekFrom::Current(2)), Ok(3));
    assert_eq!(b.seek(SeekFrom::End(4)), Ok(8));
}

#[test]
fn seek_before_start_is_refused() {
    let mut b = EvcxrContent::new("text/plain");
    assert_eq!(b.seek(SeekFrom::End(-1)), Err(ContentError::SinkFailure));
    assert_eq!(b.position(), 0);
    assert_eq!(b.write(b"ab"), Ok(2));
    assert_eq!(b.seek(SeekFrom::Current(-3)), Err(ContentError::SinkFailure));
    assert_eq!(b.position(), 2);
    assert_eq!(b.bytes(), b"ab");
}

#[test]
fn flush_changes_nothing() {
    let mut b = EvcxrContent::new("text/plain");
    assert_eq!(b.write(b"xyz"), Ok(3));
    assert_eq!(b.flush(), Ok(()));
    assert_eq!(b.bytes(), b"xyz");
    assert_eq!(b.position(), 3);
}
