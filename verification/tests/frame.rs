use glycoprotein::frame::{frame_message, message_length, read_message, read_step, ReadStep};
use glycoprotein::{GlycoError, IoErrorKind};

#[test]
fn frame_is_dotnet_little_endian_length_prefixed() {
    let framed = frame_message(b"hello", 100).unwrap();
    assert_eq!(&framed[..4], &[5, 0, 0, 0]);
    assert_eq!(&framed[4..], b"hello");
}

#[test]
fn long_payload_has_its_length_in_several_bytes() {
    let payload = vec![7u8; 70_000];
    let framed = frame_message(&payload, 100_000_000).unwrap();
    assert_eq!(&framed[..4], &[0x70, 0x11, 0x01, 0x00]);
    assert_eq!(framed.len(), 70_004);
    assert_eq!(read_message(&framed, 70_000).unwrap(), (payload, 70_004));
}

#[test]
fn payload_above_the_limit_is_refused() {
    assert!(frame_message(b"12345", 5).is_ok());
    assert_eq!(
        frame_message(b"123456", 5),
        Err(GlycoError::FrameTooLarge { size: 6, limit: 5 })
    );
    assert_eq!(frame_message(b"", 0).unwrap(), vec![0, 0, 0, 0]);
}

#[test]
fn the_limit_that_is_told_is_that_of_the_prefix() {
    let text = GlycoError::FrameTooLarge { size: 9, limit: 2_147_483_647 }.message();
    assert_eq!(text, "message is too large: 9 bytes (limit: 2147483647)");
}

#[test]
fn frames_are_read_back_one_by_one() {
    let payloads: Vec<Vec<u8>> = vec![b"one".to_vec(), vec![], b"three".to_vec()];
    let mut stream: Vec<u8> = Vec::new();
    for payload in &payloads {
        stream.extend(frame_message(payload, 10).unwrap());
    }
    let mut rest: &[u8] = &stream;
    for payload in &payloads {
        let (read, taken) = read_message(rest, 10).unwrap();
        assert_eq!(&read, payload);
        rest = &rest[taken..];
    }
    assert!(rest.is_empty());
}

#[test]
fn length_is_read_in_twos_complement() {
    assert_eq!(message_length(&[5, 0, 0, 0], 5).unwrap(), 5);
    assert_eq!(message_length(&[0, 1, 0, 0], 1000).unwrap(), 256);
    let above = message_length(&[6, 0, 0, 0], 5).unwrap_err();
    assert_eq!(above.kind, IoErrorKind::InvalidData);
    assert_eq!(above.message, "invalid message length: 6");
    let negative = message_length(&[255, 255, 255, 255], 5).unwrap_err();
    assert_eq!(negative.message, "invalid message length: -1");
    let lowest = message_length(&[0, 0, 0, 128], usize::MAX).unwrap_err();
    assert_eq!(lowest.message, "invalid message length: -2147483648");
}

#[test]
fn a_stream_that_ends_inside_a_frame_is_truncated() {
    for stream in [&[][..], &[1, 0, 0][..], &[3, 0, 0, 0, 1, 2][..]] {
        let failure = read_message(stream, 100).unwrap_err();
        assert_eq!(failure.kind, IoErrorKind::UnexpectedEof);
        assert_eq!(failure.message, "failed to fill whole buffer");
    }
    let failure = read_message(&[9, 0, 0, 0, 1], 4).unwrap_err();
    assert_eq!(failure.kind, IoErrorKind::InvalidData);
    assert_eq!(failure.message, "invalid message length: 9");
}

#[test]
fn a_reader_asks_for_the_prefix_and_then_for_the_payload() {
    assert!(matches!(read_step(&[], 5), ReadStep::Need(4)));
    assert!(matches!(read_step(&[3, 0], 5), ReadStep::Need(2)));
    assert!(matches!(read_step(&[3, 0, 0, 0], 5), ReadStep::Need(3)));
    assert!(matches!(read_step(&[3, 0, 0, 0, 9, 9], 5), ReadStep::Need(1)));
    match read_step(&[3, 0, 0, 0, 9, 8, 7], 5) {
        ReadStep::Message(payload) => assert_eq!(payload, vec![9, 8, 7]),
        other => panic!("{other:?}"),
    }
    match read_step(&[0, 0, 0, 0], 5) {
        ReadStep::Message(payload) => assert!(payload.is_empty()),
        other => panic!("{other:?}"),
    }
    match read_step(&[6, 0, 0, 0], 5) {
        ReadStep::Failed(failure) => {
            assert_eq!(failure.kind, IoErrorKind::InvalidData);
            assert_eq!(failure.message, "invalid message length: 6");
        }
        other => panic!("{other:?}"),
    }
}

#[test]
fn a_reader_takes_one_frame_off_a_stream_and_no_more() {
    let mut stream = frame_message(b"first", 100).unwrap();
    stream.extend(frame_message(b"second", 100).unwrap());
    let mut start = 0;
    for expected in [&b"first"[..], &b"second"[..]] {
        let mut end = start;
        let payload = loop {
            match read_step(&stream[start..end], 100) {
                ReadStep::Need(missing) => end += missing,
                ReadStep::Message(payload) => break payload,
                ReadStep::Failed(failure) => panic!("{failure:?}"),
            }
        };
        assert_eq!(payload, expected);
        assert_eq!(end, start + 4 + expected.len());
        start = end;
    }
    assert_eq!(start, stream.len());
}
