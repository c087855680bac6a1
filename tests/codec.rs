use quic_file_transfer::codec::{
    ack_payload, header_size, read_ack, read_header, write_header, FIXED_HEADER_LEN, MAX_NAME_LEN,
};
use quic_file_transfer::error::TransferError;

#[test]
fn header_layout_is_big_endian() {
    let bytes = write_header("a", 5).unwrap();
    assert_eq!(bytes, vec![0, 1, b'a', 0, 0, 0, 0, 0, 0, 0, 5]);
    let bytes = write_header("xy", 0x0102030405060708).unwrap();
    assert_eq!(bytes, vec![0, 2, b'x', b'y', 1, 2, 3, 4, 5, 6, 7, 8]);
}

#[test]
fn header_round_trip_ascii() {
    let bytes = write_header("empty.txt", 0).unwrap();
    assert_eq!(bytes.len(), 2 + 9 + 8);
    assert_eq!(read_header(&bytes), Ok(("empty.txt".to_string(), 0)));
}

#[test]
fn header_round_trip_unicode_and_max_size() {
    let name = "h\u{e9}llo-\u{1f600}.txt";
    let bytes = write_header(name, u64::MAX).unwrap();
    assert_eq!(bytes.len(), 2 + name.len() + 8);
    assert_eq!(read_header(&bytes), Ok((name.to_string(), u64::MAX)));
}

#[test]
fn header_round_trip_with_body_after_it() {
    let mut bytes = write_header("data.bin", 3).unwrap();
    bytes.extend_from_slice(&[9, 9, 9]);
    assert_eq!(read_header(&bytes), Ok(("data.bin".to_string(), 3)));
}

#[test]
fn header_round_trip_empty_name() {
    let bytes = write_header("", 42).unwrap();
    assert_eq!(bytes, vec![0, 0, 0, 0, 0, 0, 0, 0, 0, 42]);
    assert_eq!(read_header(&bytes), Ok((String::new(), 42)));
}

#[test]
fn longest_name_is_accepted() {
    let name = "n".repeat(MAX_NAME_LEN);
    let bytes = write_header(&name, 7).unwrap();
    assert_eq!(&bytes[..2], &[0xff, 0xff]);
    assert_eq!(read_header(&bytes), Ok((name, 7)));
}

#[test]
fn name_over_sixteen_bits_is_refused() {
    let name = "n".repeat(MAX_NAME_LEN + 1);
    assert_eq!(write_header(&name, 7), Err(TransferError::NameTooLong));
}

#[test]
fn short_inputs_are_truncated() {
    assert_eq!(read_header(&[]), Err(TransferError::TruncatedHeader));
    assert_eq!(read_header(&[0]), Err(TransferError::TruncatedHeader));
    assert_eq!(read_header(&[0, 3, b'a', b'b']), Err(TransferError::TruncatedHeader));
    let full = write_header("abc", 1).unwrap();
    for cut in 0..full.len() {
        assert_eq!(read_header(&full[..cut]), Err(TransferError::TruncatedHeader));
    }
}

#[test]
fn truncated_wins_over_bad_name() {
    assert_eq!(read_header(&[0, 1, 0xff, 0, 0]), Err(TransferError::TruncatedHeader));
}

#[test]
fn invalid_utf8_name_is_rejected() {
    let bytes = [0, 2, 0xc3, 0x28, 0, 0, 0, 0, 0, 0, 0, 1];
    assert_eq!(read_header(&bytes), Err(TransferError::InvalidNameEncoding));
    let bytes = [0, 1, 0xff, 0, 0, 0, 0, 0, 0, 0, 1];
    assert_eq!(read_header(&bytes), Err(TransferError::InvalidNameEncoding));
}

#[test]
fn header_size_from_prefix() {
    assert_eq!(header_size(&[]), None);
    assert_eq!(header_size(&[1]), None);
    assert_eq!(header_size(&[0, 0]), Some(FIXED_HEADER_LEN));
    assert_eq!(header_size(&[1, 2, 99]), Some(258 + FIXED_HEADER_LEN));
    let bytes = write_header("report.pdf", 10).unwrap();
    assert_eq!(header_size(&bytes), Some(bytes.len()));
}

#[test]
fn ack_is_ok() {
    assert_eq!(ack_payload(), b"OK".to_vec());
    assert_eq!(read_ack(&ack_payload()), Ok("OK".to_string()));
}

#[test]
fn ack_errors() {
    assert_eq!(read_ack(&[]), Err(TransferError::ConnectionClosed));
    assert_eq!(read_ack(&[0xff, 0xfe]), Err(TransferError::InvalidAckEncoding));
}
