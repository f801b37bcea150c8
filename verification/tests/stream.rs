use async_datachannel_wasm::{inbound_message, write_result, InboundBuffer, Polled, ReadOutcome};

#[test]
fn empty_buffer_defers_to_the_channel() {
    let mut b = InboundBuffer::new();
    let mut dst = [7u8; 4];
    assert_eq!(b.read_buffered(&mut dst), None);
    assert_eq!(dst, [7u8; 4]);
    assert!(b.is_empty());
}

#[test]
fn chunk_that_fits_is_read_whole() {
    let mut b = InboundBuffer::new();
    let mut dst = [0u8; 10];
    let r = b.read_polled(&mut dst, Polled::Chunk(b"Ping".to_vec()));
    assert_eq!(r, ReadOutcome::Ready(4));
    assert_eq!(&dst[..4], b"Ping");
    assert_eq!(&dst[4..], &[0u8; 6]);
    assert!(b.is_empty());
}

#[test]
fn oversized_chunk_is_read_in_pieces_in_order() {
    let mut b = InboundBuffer::new();
    let mut dst = [0u8; 3];
    let r = b.read_polled(&mut dst, Polled::Chunk(b"abcdefgh".to_vec()));
    assert_eq!(r, ReadOutcome::Ready(3));
    assert_eq!(&dst, b"abc");
    assert_eq!(b.len(), 5);
    let mut out = dst.to_vec();
    let mut second = [0u8; 3];
    assert_eq!(b.read_buffered(&mut second), Some(3));
    out.extend_from_slice(&second);
    let mut third = [9u8; 3];
    assert_eq!(b.read_buffered(&mut third), Some(2));
    assert_eq!(third, [b'g', b'h', 9]);
    out.extend_from_slice(&third[..2]);
    assert_eq!(out, b"abcdefgh".to_vec());
    assert_eq!(b.read_buffered(&mut third), None);
}

#[test]
fn closed_channel_reads_zero() {
    let mut b = InboundBuffer::new();
    let mut dst = [1u8; 2];
    assert_eq!(b.read_polled(&mut dst, Polled::Closed), ReadOutcome::Ready(0));
    assert_eq!(dst, [1u8; 2]);
}

#[test]
fn failed_message_is_reported() {
    let mut b = InboundBuffer::new();
    let mut dst = [1u8; 2];
    assert_eq!(
        b.read_polled(&mut dst, Polled::Failed("bad".to_string())),
        ReadOutcome::Failed("bad".to_string())
    );
    assert!(b.is_empty());
}

#[test]
fn pending_channel_reads_nothing() {
    let mut b = InboundBuffer::new();
    let mut dst = [1u8; 2];
    assert_eq!(b.read_polled(&mut dst, Polled::Pending), ReadOutcome::Pending);
    assert_eq!(dst, [1u8; 2]);
}

#[test]
fn empty_destination_keeps_buffer() {
    let mut b = InboundBuffer::new();
    let mut dst: [u8; 0] = [];
    assert_eq!(b.read_polled(&mut dst, Polled::Chunk(vec![1, 2])), ReadOutcome::Ready(0));
    assert_eq!(b.len(), 2);
    assert_eq!(b.read_buffered(&mut dst), Some(0));
    assert_eq!(b.len(), 2);
}

#[test]
fn empty_chunk_is_not_end_of_stream() {
    let mut b = InboundBuffer::new();
    let mut dst = [5u8; 4];
    assert_eq!(b.read_polled(&mut dst, Polled::Chunk(Vec::new())), ReadOutcome::Retry);
    assert_eq!(dst, [5u8; 4]);
    assert!(b.is_empty());
    // the next message is read as usual
    assert_eq!(b.read_polled(&mut dst, Polled::Chunk(b"ab".to_vec())), ReadOutcome::Ready(2));
    assert_eq!(&dst[..2], b"ab");
    // into a destination without room an empty message reads as zero bytes
    let mut none: [u8; 0] = [];
    assert_eq!(b.read_polled(&mut none, Polled::Chunk(Vec::new())), ReadOutcome::Ready(0));
}

#[test]
fn chunks_arriving_between_reads_come_out_in_order() {
    let mut b = InboundBuffer::new();
    let mut out = Vec::new();
    let mut dst = [0u8; 3];
    // "hello" arrives; three bytes are read
    if let ReadOutcome::Ready(n) = b.read_polled(&mut dst, Polled::Chunk(b"hello".to_vec())) {
        out.extend_from_slice(&dst[..n]);
    }
    // " world" arrives while "lo" is still buffered
    if let ReadOutcome::Ready(n) = b.read_polled(&mut dst, Polled::Chunk(b" world".to_vec())) {
        out.extend_from_slice(&dst[..n]);
    }
    while let Some(n) = b.read_buffered(&mut dst) {
        out.extend_from_slice(&dst[..n]);
    }
    assert_eq!(out, b"hello world".to_vec());
}

#[test]
fn write_reports_whole_length_or_error() {
    assert_eq!(write_result(5, Ok(())), Ok(5));
    assert_eq!(
        write_result(5, Err("JsValue(closed)".to_string())),
        Err("JsValue(closed)".to_string())
    );
}

#[test]
fn inbound_message_keeps_bytes_or_names_the_value() {
    assert_eq!(inbound_message(Some(vec![1, 2, 3]), ""), Ok(vec![1, 2, 3]));
    assert_eq!(
        inbound_message(None, "JsValue(\"text\")"),
        Err("Expected ArrayBuffer, received: \"JsValue(\"text\")\"".to_string())
    );
}
