use nfc_rootcanal::error::{IoFailure, RootcanalError};
use nfc_rootcanal::frame::{
    message_type, missing, read_frame, write_frame, COMMAND, DATA, LENGTH_PREFIX_LEN,
    MAX_FRAME_LEN, NOTIFICATION, RESPONSE, TERMINATION,
};

#[test]
fn constants_have_their_wire_values() {
    assert_eq!(LENGTH_PREFIX_LEN, 2);
    assert_eq!(MAX_FRAME_LEN, 65535);
    assert_eq!(DATA, 0);
    assert_eq!(COMMAND, 1);
    assert_eq!(RESPONSE, 2);
    assert_eq!(NOTIFICATION, 3);
    assert_eq!(TERMINATION, 4);
}

#[test]
fn write_frame_puts_the_length_before_the_body() {
    let mut sink = Vec::new();
    write_frame(&mut sink, &[0x40, 0x00, 0x01]);
    assert_eq!(sink, vec![0x00, 0x03, 0x40, 0x00, 0x01]);
}

#[test]
fn write_frame_length_is_big_endian() {
    let body = vec![0xabu8; 258];
    let mut sink = Vec::new();
    write_frame(&mut sink, &body);
    assert_eq!(sink.len(), 260);
    assert_eq!(sink[0], 0x01);
    assert_eq!(sink[1], 0x02);
    assert_eq!(&sink[2..], &body[..]);
}

#[test]
fn write_frame_of_an_empty_body_is_the_length_alone() {
    let mut sink = Vec::new();
    write_frame(&mut sink, &[]);
    assert_eq!(sink, vec![0x00, 0x00]);
}

#[test]
fn write_frame_takes_the_longest_body() {
    let body = vec![0x5au8; MAX_FRAME_LEN];
    let mut sink = Vec::new();
    write_frame(&mut sink, &body);
    assert_eq!(sink.len(), MAX_FRAME_LEN + 2);
    assert_eq!(sink[0], 0xff);
    assert_eq!(sink[1], 0xff);
    assert_eq!(&sink[2..], &body[..]);
}

#[test]
fn write_frame_appends_to_what_the_sink_holds() {
    let mut sink = vec![0xde, 0xad];
    write_frame(&mut sink, &[0x01]);
    write_frame(&mut sink, &[0x02, 0x03]);
    assert_eq!(sink, vec![0xde, 0xad, 0x00, 0x01, 0x01, 0x00, 0x02, 0x02, 0x03]);
}

#[test]
fn read_frame_cuts_the_body_that_the_length_announces() {
    let source = [0x00, 0x03, 0x20, 0x00, 0x01, 0x99];
    assert_eq!(read_frame(&source), Ok((vec![0x20, 0x00, 0x01], 5)));
}

#[test]
fn read_frame_decodes_a_big_endian_length() {
    let mut source = vec![0x01, 0x00];
    source.extend(vec![0x07u8; 256]);
    assert_eq!(read_frame(&source), Ok((vec![0x07u8; 256], 258)));
}

#[test]
fn read_frame_of_a_zero_length_frame() {
    assert_eq!(read_frame(&[0x00, 0x00]), Ok((vec![], 2)));
}

#[test]
fn read_frame_at_a_clean_end_of_stream() {
    assert_eq!(
        read_frame(&[]),
        Err(RootcanalError::IoError(IoFailure::EndOfStream))
    );
}

#[test]
fn read_frame_inside_the_length_field() {
    assert_eq!(
        read_frame(&[0x00]),
        Err(RootcanalError::IoError(IoFailure::Truncated))
    );
}

#[test]
fn read_frame_inside_the_body() {
    assert_eq!(
        read_frame(&[0x00, 0x03, 0x20, 0x00]),
        Err(RootcanalError::IoError(IoFailure::Truncated))
    );
    assert_eq!(
        read_frame(&[0x00, 0x01]),
        Err(RootcanalError::IoError(IoFailure::Truncated))
    );
}

#[test]
fn frames_written_back_to_back_read_back_in_order() {
    let first = vec![0x20, 0x00, 0x01, 0x00];
    let second = vec![0x20, 0x01, 0x00];
    let mut stream = Vec::new();
    write_frame(&mut stream, &first);
    write_frame(&mut stream, &second);

    let (body, consumed) = read_frame(&stream).unwrap();
    assert_eq!(body, first);
    assert_eq!(consumed, 6);
    let (body, consumed_next) = read_frame(&stream[consumed..]).unwrap();
    assert_eq!(body, second);
    assert_eq!(consumed_next, 5);
    assert_eq!(
        read_frame(&stream[consumed + consumed_next..]),
        Err(RootcanalError::IoError(IoFailure::EndOfStream))
    );
}

#[test]
fn round_trip_at_the_edges_of_the_length_range() {
    for len in [0usize, 1, 255, 256, 257, 65534, 65535] {
        let body: Vec<u8> = (0..len).map(|i| (i % 251) as u8).collect();
        let mut stream = Vec::new();
        write_frame(&mut stream, &body);
        assert_eq!(stream.len(), len + 2);
        assert_eq!(stream[0] as usize * 256 + stream[1] as usize, len);
        assert_eq!(read_frame(&stream), Ok((body, len + 2)));
    }
}

#[test]
fn missing_counts_the_bytes_still_to_come() {
    assert_eq!(missing(&[]), 2);
    assert_eq!(missing(&[0x00]), 1);
    assert_eq!(missing(&[0x00, 0x03]), 3);
    assert_eq!(missing(&[0x00, 0x03, 0x20]), 2);
    assert_eq!(missing(&[0x00, 0x03, 0x20, 0x00, 0x01]), 0);
    assert_eq!(missing(&[0x00, 0x03, 0x20, 0x00, 0x01, 0x00, 0x09]), 0);
    assert_eq!(missing(&[0x00, 0x00]), 0);
    assert_eq!(missing(&[0xff, 0xff]), 65535);
    assert_eq!(missing(&[0x01, 0x00, 0x00]), 255);
}

#[test]
fn message_type_is_the_top_three_bits() {
    assert_eq!(message_type(&[0x00]), Ok(0));
    assert_eq!(message_type(&[0x1f]), Ok(0));
    assert_eq!(message_type(&[0x20, 0x00, 0x01, 0x01]), Ok(1));
    assert_eq!(message_type(&[0x3f]), Ok(1));
    assert_eq!(message_type(&[0x40]), Ok(2));
    assert_eq!(message_type(&[0x60]), Ok(3));
    assert_eq!(message_type(&[0x80]), Ok(4));
    assert_eq!(message_type(&[0xa0]), Ok(5));
    assert_eq!(message_type(&[0xc0]), Ok(6));
    assert_eq!(message_type(&[0xe0]), Ok(7));
    assert_eq!(message_type(&[0xff, 0x20]), Ok(7));
}

#[test]
fn message_type_of_an_empty_body() {
    assert_eq!(message_type(&[]), Err(RootcanalError::InvalidPacket));
}
