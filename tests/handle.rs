use zipbundle::{resolve_entry, EntryFailure, Error, InputHandle, InputOrigin, OpenResult, SeekFrom};

fn handle(data: &[u8]) -> InputHandle {
    InputHandle::new(b"name.tex", data.to_vec(), InputOrigin::Filesystem)
}

#[test]
fn new_handle_starts_at_zero() {
    let h = handle(b"hello");
    assert_eq!(h.name(), b"name.tex");
    assert_eq!(h.content(), b"hello");
    assert_eq!(h.len(), 5);
    assert_eq!(h.position(), 0);
    assert_eq!(h.origin(), InputOrigin::Filesystem);
}

#[test]
fn read_fills_what_fits() {
    let mut h = handle(b"hello world");
    let mut buf = [b'.'; 4];
    assert_eq!(h.read(&mut buf), 4);
    assert_eq!(&buf, b"hell");
    assert_eq!(h.position(), 4);
    let mut big = [b'.'; 10];
    assert_eq!(h.read(&mut big), 7);
    assert_eq!(&big, b"o world...");
    assert_eq!(h.read(&mut big), 0);
    assert_eq!(h.position(), 11);
}

#[test]
fn read_into_empty_buffer_reads_nothing() {
    let mut h = handle(b"abc");
    let mut buf: [u8; 0] = [];
    assert_eq!(h.read(&mut buf), 0);
    assert_eq!(h.position(), 0);
}

#[test]
fn read_to_end_appends_the_rest() {
    let mut h = handle(b"abcdef");
    let mut buf = [0u8; 2];
    h.read(&mut buf);
    let mut out = b"xy".to_vec();
    assert_eq!(h.read_to_end(&mut out), 4);
    assert_eq!(out, b"xycdef");
    assert_eq!(h.position(), 6);
    assert_eq!(h.read_to_end(&mut out), 0);
    assert_eq!(out, b"xycdef");
}

#[test]
fn seek_from_each_anchor() {
    let mut h = handle(b"0123456789");
    assert_eq!(h.seek(SeekFrom::Start(3)), Some(3));
    assert_eq!(h.seek(SeekFrom::Current(2)), Some(5));
    assert_eq!(h.seek(SeekFrom::Current(-5)), Some(0));
    assert_eq!(h.seek(SeekFrom::End(-1)), Some(9));
    let mut buf = [0u8; 3];
    assert_eq!(h.read(&mut buf), 1);
    assert_eq!(buf[0], b'9');
    assert_eq!(h.seek(SeekFrom::End(0)), Some(10));
}

#[test]
fn seek_before_start_fails_and_keeps_position() {
    let mut h = handle(b"0123456789");
    h.seek(SeekFrom::Start(4));
    assert_eq!(h.seek(SeekFrom::Current(-5)), None);
    assert_eq!(h.seek(SeekFrom::End(-11)), None);
    assert_eq!(h.seek(SeekFrom::End(i64::MIN)), None);
    assert_eq!(h.position(), 4);
}

#[test]
fn seek_past_u64_max_fails() {
    let mut h = handle(b"abc");
    assert_eq!(h.seek(SeekFrom::Start(u64::MAX)), Some(u64::MAX));
    assert_eq!(h.seek(SeekFrom::Current(1)), None);
    assert_eq!(h.position(), u64::MAX);
    assert_eq!(h.seek(SeekFrom::Current(i64::MIN)), Some(u64::MAX - (1u64 << 63)));
}

#[test]
fn position_past_end_reads_nothing() {
    let mut h = handle(b"abc");
    assert_eq!(h.seek(SeekFrom::End(5)), Some(8));
    let mut buf = [7u8; 2];
    assert_eq!(h.read(&mut buf), 0);
    assert_eq!(buf, [7, 7]);
    let mut out = Vec::new();
    assert_eq!(h.read_to_end(&mut out), 0);
    assert_eq!(h.position(), 8);
}

#[test]
fn resolved_bytes_become_a_handle() {
    match resolve_entry(b"doc.tex", Ok(b"content".to_vec())) {
        OpenResult::Opened(h) => {
            assert_eq!(h.name(), b"doc.tex");
            assert_eq!(h.content(), b"content");
            assert_eq!(h.position(), 0);
            assert_eq!(h.origin(), InputOrigin::Other);
        }
        other => panic!("expected a handle, got {:?}", other),
    }
}

#[test]
fn resolved_failures_keep_their_cause() {
    assert!(matches!(resolve_entry(b"a", Err(EntryFailure::NotFound)), OpenResult::NotAvailable));
    match resolve_entry(b"a", Err(EntryFailure::Io(std::io::Error::other("disk")))) {
        OpenResult::Failed(Error::Io(e)) => assert_eq!(e.to_string(), "disk"),
        other => panic!("expected an i/o error, got {:?}", other),
    }
    match resolve_entry(b"a", Err(EntryFailure::Decode(std::io::Error::other("crc")))) {
        OpenResult::Failed(Error::Io(e)) => assert_eq!(e.to_string(), "crc"),
        other => panic!("expected an i/o error, got {:?}", other),
    }
    let z = zip::result::ZipError::UnsupportedArchive("no");
    assert!(matches!(
        resolve_entry(b"a", Err(EntryFailure::Other(z))),
        OpenResult::Failed(Error::Zip(zip::result::ZipError::UnsupportedArchive("no")))
    ));
}
