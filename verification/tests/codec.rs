use native_host::protocol::{
    encode_message, read_header, read_native_message, FrameError, HEADER_LEN,
};
use native_host::stream::ByteStream;

#[test]
fn encode_puts_the_length_first_in_little_endian() {
    assert_eq!(encode_message(b"abc"), vec![3, 0, 0, 0, b'a', b'b', b'c']);
    assert_eq!(encode_message(b""), vec![0, 0, 0, 0]);
    let long = vec![7u8; 0x0102];
    let framed = encode_message(&long);
    assert_eq!(&framed[..4], &[0x02, 0x01, 0x00, 0x00]);
    assert_eq!(&framed[4..], &long[..]);
}

#[test]
fn encode_uses_all_four_header_bytes() {
    let message = vec![0u8; 0x0001_0203];
    let framed = encode_message(&message);
    assert_eq!(framed.len(), HEADER_LEN + message.len());
    assert_eq!(&framed[..4], &[0x03, 0x02, 0x01, 0x00]);
    assert_eq!(&framed[..4], &(message.len() as u32).to_le_bytes());
}

#[test]
fn read_header_reads_little_endian() {
    assert_eq!(read_header(&[0x78, 0x56, 0x34, 0x12]), Ok(Some(0x1234_5678)));
    assert_eq!(read_header(&[0xff, 0xff, 0xff, 0xff]), Ok(Some(u32::MAX)));
    assert_eq!(read_header(&[0, 0, 0, 0]), Ok(Some(0)));
    assert_eq!(read_header(&[1, 0, 0, 0, 9]), Ok(Some(1)));
    assert_eq!(read_header(&[0, 0, 0, 1]), Ok(Some(u32::from_le_bytes([0, 0, 0, 1]))));
}

#[test]
fn read_header_tells_end_from_truncation() {
    assert_eq!(read_header(&[]), Ok(None));
    assert_eq!(read_header(&[1]), Err(FrameError::TruncatedHeader));
    assert_eq!(read_header(&[1, 2]), Err(FrameError::TruncatedHeader));
    assert_eq!(read_header(&[1, 2, 3]), Err(FrameError::TruncatedHeader));
    assert_eq!(read_header(&[5, 0, 0, 0]), Ok(Some(5)));
}

#[test]
fn round_trip_returns_the_message() {
    let message = br#"{"type":"TAB_EVENT","url":"https://example.com"}"#.to_vec();
    let framed = encode_message(&message);
    assert_eq!(read_header(&framed[..HEADER_LEN]), Ok(Some(message.len() as u32)));
    let mut stream = ByteStream::new(framed);
    assert_eq!(read_native_message(&mut stream), Ok(Some(message)));
    assert_eq!(stream.remaining(), 0);
    assert_eq!(read_native_message(&mut stream), Ok(None));
}

#[test]
fn round_trip_of_the_empty_message() {
    let mut stream = ByteStream::new(encode_message(b""));
    assert_eq!(read_native_message(&mut stream), Ok(Some(Vec::new())));
    assert_eq!(read_native_message(&mut stream), Ok(None));
}

#[test]
fn round_trip_of_every_byte_value() {
    let message: Vec<u8> = (0..=255u8).collect();
    let mut stream = ByteStream::new(encode_message(&message));
    assert_eq!(read_native_message(&mut stream), Ok(Some(message)));
    assert_eq!(stream.remaining(), 0);
}

#[test]
fn empty_stream_is_no_message() {
    let mut stream = ByteStream::new(Vec::new());
    assert_eq!(read_native_message(&mut stream), Ok(None));
    assert_eq!(read_native_message(&mut stream), Ok(None));
}

#[test]
fn one_to_three_bytes_are_a_truncated_header() {
    for bytes in [vec![9u8], vec![9, 0], vec![9, 0, 0]] {
        let mut stream = ByteStream::new(bytes);
        assert_eq!(read_native_message(&mut stream), Err(FrameError::TruncatedHeader));
        assert_eq!(stream.remaining(), 0);
    }
}

#[test]
fn fewer_bytes_than_announced_are_a_short_body() {
    let mut stream = ByteStream::new(vec![5, 0, 0, 0, b'a', b'b', b'c', b'd']);
    assert_eq!(read_native_message(&mut stream), Err(FrameError::ShortBody));
    assert_eq!(stream.remaining(), 0);

    let mut header_only = ByteStream::new(vec![1, 0, 0, 0]);
    assert_eq!(read_native_message(&mut header_only), Err(FrameError::ShortBody));
}

#[test]
fn frames_are_read_one_after_the_other() {
    let mut bytes = encode_message(b"first");
    bytes.extend_from_slice(&encode_message(b""));
    bytes.extend_from_slice(&encode_message(b"third"));
    bytes.extend_from_slice(&[2, 0]);
    let mut stream = ByteStream::new(bytes);
    assert_eq!(read_native_message(&mut stream), Ok(Some(b"first".to_vec())));
    assert_eq!(stream.remaining(), 4 + 9 + 2);
    assert_eq!(read_native_message(&mut stream), Ok(Some(Vec::new())));
    assert_eq!(read_native_message(&mut stream), Ok(Some(b"third".to_vec())));
    assert_eq!(stream.remaining(), 2);
    assert_eq!(read_native_message(&mut stream), Err(FrameError::TruncatedHeader));
}

#[test]
fn stream_hands_out_bytes_from_the_front() {
    let mut stream = ByteStream::new(vec![1, 2, 3, 4, 5]);
    assert_eq!(stream.remaining(), 5);
    assert_eq!(stream.read(2), vec![1, 2]);
    assert_eq!(stream.read(0), Vec::<u8>::new());
    assert_eq!(stream.remaining(), 3);
    assert_eq!(stream.read(10), vec![3, 4, 5]);
    assert_eq!(stream.remaining(), 0);
    assert_eq!(stream.read(4), Vec::<u8>::new());
}
