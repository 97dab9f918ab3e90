use heos_lib::session::{FrameReader, ReadEvent, ReadStep};

#[test]
fn reader_delivers_only_once_buffer_ends_with_crlf() {
    let mut reader = FrameReader::new();
    assert_eq!(reader.on_event(ReadEvent::WouldBlock), ReadStep::Continue);
    assert_eq!(reader.on_event(ReadEvent::Data(b"{\"heos\": ".to_vec())), ReadStep::Continue);
    assert_eq!(reader.on_event(ReadEvent::WouldBlock), ReadStep::Continue);
    assert_eq!(reader.on_event(ReadEvent::Data(b"{}}\r".to_vec())), ReadStep::Continue);
    assert_eq!(reader.on_event(ReadEvent::WouldBlock), ReadStep::Continue);
    assert!(!reader.is_complete());
    assert_eq!(reader.on_event(ReadEvent::Data(b"\n".to_vec())), ReadStep::Continue);
    assert!(reader.is_complete());
    assert_eq!(reader.on_event(ReadEvent::WouldBlock), ReadStep::Deliver);
    assert_eq!(reader.into_bytes(), b"{\"heos\": {}}\r\n".to_vec());
}

#[test]
fn reader_keeps_waiting_on_other_endings() {
    let mut reader = FrameReader::new();
    reader.on_event(ReadEvent::Data(b"abc\n\r".to_vec()));
    assert_eq!(reader.on_event(ReadEvent::WouldBlock), ReadStep::Continue);
    reader.on_event(ReadEvent::Data(b"x".to_vec()));
    assert_eq!(reader.on_event(ReadEvent::WouldBlock), ReadStep::Continue);
    let mut short = FrameReader::new();
    short.on_event(ReadEvent::Data(b"\n".to_vec()));
    assert_eq!(short.on_event(ReadEvent::WouldBlock), ReadStep::Continue);
}

#[test]
fn reader_delivers_on_close() {
    let mut reader = FrameReader::new();
    reader.on_event(ReadEvent::Data(b"partial".to_vec()));
    assert_eq!(reader.on_event(ReadEvent::Closed), ReadStep::Deliver);
    assert_eq!(reader.into_bytes(), b"partial".to_vec());
}
