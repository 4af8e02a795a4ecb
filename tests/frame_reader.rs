use ws_framer::frame_reader::{FrameReader, FrameReaderError};

#[test]
fn splitter_yields_one_payload_then_stops() {
    let buf = [0x02u8, 0x00, 0xAA, 0xBB];
    let mut reader = FrameReader::new(&buf);
    assert_eq!(reader.next(), Some(Ok(&[0xAAu8, 0xBB][..])));
    assert_eq!(reader.next(), None);
    assert_eq!(reader.next(), None);
}

#[test]
fn splitter_reports_overlong_record_once() {
    let buf = [0x05u8, 0x00, 0xAA];
    let mut reader = FrameReader::new(&buf);
    assert_eq!(reader.next(), Some(Err(FrameReaderError::InvalidFrameLength(5))));
    assert_eq!(reader.next(), None);
}

#[test]
fn splitter_walks_several_records() {
    let buf = [0x01u8, 0x00, 0x11, 0x03, 0x00, 0x21, 0x22, 0x23, 0x02, 0x00, 0x31, 0x32];
    let mut reader = FrameReader::new(&buf);
    assert_eq!(reader.next(), Some(Ok(&[0x11u8][..])));
    assert_eq!(reader.next(), Some(Ok(&[0x21u8, 0x22, 0x23][..])));
    assert_eq!(reader.next(), Some(Ok(&[0x31u8, 0x32][..])));
    assert_eq!(reader.next(), None);
}

#[test]
fn splitter_reads_length_little_endian() {
    let mut buf = vec![0x00u8, 0x01];
    buf.extend(std::iter::repeat(7u8).take(256));
    let mut reader = FrameReader::new(&buf);
    let payload = reader.next().unwrap().unwrap();
    assert_eq!(payload.len(), 256);
    assert!(payload.iter().all(|b| *b == 7));
    assert_eq!(reader.next(), None);
}

#[test]
fn splitter_on_empty_buffer_yields_nothing() {
    let buf: [u8; 0] = [];
    let mut reader = FrameReader::new(&buf);
    assert_eq!(reader.next(), None);
}

#[test]
fn splitter_keeps_trailing_empty_record() {
    let buf = [0x01u8, 0x00, 0x44, 0x00, 0x00];
    let mut reader = FrameReader::new(&buf);
    assert_eq!(reader.next(), Some(Ok(&[0x44u8][..])));
    assert_eq!(reader.next(), Some(Ok(&[][..])));
    assert_eq!(reader.next(), None);
}

#[test]
fn splitter_yields_empty_payload_from_bare_header() {
    let buf = [0x00u8, 0x00];
    let mut reader = FrameReader::new(&buf);
    assert_eq!(reader.next(), Some(Ok(&[][..])));
    assert_eq!(reader.next(), None);
}

#[test]
fn splitter_stops_on_single_leftover_byte() {
    let buf = [0x01u8, 0x00, 0x44, 0x07];
    let mut reader = FrameReader::new(&buf);
    assert_eq!(reader.next(), Some(Ok(&[0x44u8][..])));
    assert_eq!(reader.next(), None);
}

#[test]
fn splitter_error_after_good_record() {
    let buf = [0x01u8, 0x00, 0x44, 0xFF, 0xFF, 0x01];
    let mut reader = FrameReader::new(&buf);
    assert_eq!(reader.next(), Some(Ok(&[0x44u8][..])));
    assert_eq!(reader.next(), Some(Err(FrameReaderError::InvalidFrameLength(0xFFFF))));
    assert_eq!(reader.next(), None);
}
