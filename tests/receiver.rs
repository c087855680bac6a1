use quic_file_transfer::codec::{ack_payload, header_size, read_ack, read_header, write_header};
use quic_file_transfer::error::TransferError;
use quic_file_transfer::receiver::{received_file_name, BodyReceiver, EarlyClose, CHUNK_SIZE};

/// What a sender puts on a stream for one file.
fn stream_for(name: &str, body: &[u8]) -> Vec<u8> {
    let mut s = write_header(name, body.len() as u64).unwrap();
    s.extend_from_slice(body);
    s
}

/// Plays the server's side of one stream, the transport handing out at most
/// `delivery` bytes per read. Returns the stored name and the stored content.
fn serve(stream: &[u8], delivery: usize) -> (String, Vec<u8>) {
    let total = header_size(&stream[..2]).unwrap();
    let (name, size) = read_header(&stream[..total]).unwrap();
    let mut rest = &stream[total..];
    let mut rx = BodyReceiver::new(size, EarlyClose::Truncate);
    let mut file = Vec::new();
    let mut buf = vec![0u8; CHUNK_SIZE];
    while rx.wants_more() {
        let want = rx.next_read_len(buf.len()).min(delivery);
        let n = want.min(rest.len());
        buf[..n].copy_from_slice(&rest[..n]);
        rest = &rest[n..];
        rx.record_read(&buf[..n]).unwrap();
        file.extend_from_slice(&buf[..n]);
    }
    assert_eq!(rx.received(), file.len() as u64);
    (received_file_name(&name), file)
}

fn pattern(len: usize, seed: u8) -> Vec<u8> {
    (0..len).map(|i| (i as u8).wrapping_mul(31).wrapping_add(seed)).collect()
}

#[test]
fn stored_name_has_prefix() {
    assert_eq!(received_file_name("empty.txt"), "received-empty.txt");
    assert_eq!(received_file_name(""), "received-");
    assert_eq!(received_file_name("../x"), "received-../x");
}

#[test]
fn empty_file_end_to_end() {
    let stream = stream_for("empty.txt", &[]);
    let (stored, content) = serve(&stream, CHUNK_SIZE);
    assert_eq!(stored, "received-empty.txt");
    assert!(content.is_empty());
    assert_eq!(read_ack(&ack_payload()), Ok("OK".to_string()));
}

#[test]
fn buffer_boundary_sizes_are_copied_exactly() {
    for len in [CHUNK_SIZE, CHUNK_SIZE + 1] {
        let body = pattern(len, 7);
        let stream = stream_for("big.bin", &body);
        let (stored, content) = serve(&stream, CHUNK_SIZE);
        assert_eq!(stored, "received-big.bin");
        assert_eq!(content, body);
        let (_, content) = serve(&stream, 1000);
        assert_eq!(content, body);
    }
}

#[test]
fn concurrent_transfers_stay_apart() {
    let bodies: Vec<Vec<u8>> = (0..4u8).map(|k| pattern(3000 + 1234 * k as usize, k)).collect();
    let names: Vec<String> = (0..4).map(|k| format!("file{k}.dat")).collect();
    let streams: Vec<Vec<u8>> = (0..4).map(|k| stream_for(&names[k], &bodies[k])).collect();
    let mut rxs = Vec::new();
    let mut offsets = Vec::new();
    let mut files = vec![Vec::new(); 4];
    for s in &streams {
        let total = header_size(&s[..2]).unwrap();
        let (_, size) = read_header(&s[..total]).unwrap();
        rxs.push(BodyReceiver::new(size, EarlyClose::Truncate));
        offsets.push(total);
    }
    let mut active = true;
    while active {
        active = false;
        for k in 0..4 {
            if rxs[k].wants_more() {
                active = true;
                let n = rxs[k].next_read_len(777).min(streams[k].len() - offsets[k]);
                let chunk = &streams[k][offsets[k]..offsets[k] + n];
                rxs[k].record_read(chunk).unwrap();
                files[k].extend_from_slice(chunk);
                offsets[k] += n;
            }
        }
    }
    for k in 0..4 {
        assert!(rxs[k].is_complete());
        assert_eq!(files[k], bodies[k]);
        assert_eq!(received_file_name(&names[k]), format!("received-file{k}.dat"));
    }
}

#[test]
fn read_length_is_capped_by_buffer_and_remainder() {
    let rx = BodyReceiver::new(100_000, EarlyClose::Truncate);
    assert_eq!(rx.next_read_len(CHUNK_SIZE), CHUNK_SIZE);
    let mut rx = BodyReceiver::new(10, EarlyClose::Truncate);
    assert_eq!(rx.next_read_len(CHUNK_SIZE), 10);
    rx.record_read(&[1, 2, 3]).unwrap();
    assert_eq!(rx.next_read_len(CHUNK_SIZE), 7);
    assert_eq!(rx.next_read_len(4), 4);
    assert_eq!(rx.received(), 3);
    assert_eq!(rx.size(), 10);
}

#[test]
fn zero_size_needs_no_read() {
    let rx = BodyReceiver::new(0, EarlyClose::Fail);
    assert!(!rx.wants_more());
    assert!(rx.is_complete());
}

#[test]
fn early_close_truncates_without_error() {
    let mut rx = BodyReceiver::new(10, EarlyClose::Truncate);
    assert_eq!(rx.record_read(&[1, 2, 3, 4]), Ok(()));
    assert!(rx.wants_more());
    assert_eq!(rx.record_read(&[]), Ok(()));
    assert!(!rx.wants_more());
    assert!(!rx.is_complete());
    assert_eq!(rx.received(), 4);
}

#[test]
fn early_close_can_be_an_error() {
    let mut rx = BodyReceiver::new(10, EarlyClose::Fail);
    assert_eq!(rx.record_read(&[1, 2]), Ok(()));
    assert_eq!(rx.record_read(&[]), Err(TransferError::TruncatedBody));
    assert!(!rx.wants_more());
    assert_eq!(rx.received(), 2);
}

#[test]
fn full_body_completes() {
    let mut rx = BodyReceiver::new(5, EarlyClose::Fail);
    rx.record_read(&[1, 2, 3, 4, 5]).unwrap();
    assert!(!rx.wants_more());
    assert!(rx.is_complete());
}
