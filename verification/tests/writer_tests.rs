use std::io::Read;

use zstd_writer::ZstdWriter;

fn compress(level: i32, payloads: &[&[u8]]) -> Vec<u8> {
    let mut w = ZstdWriter::open(level).expect("open failed");
    for p in payloads {
        assert_eq!(w.write(p), 0);
    }
    w.close().expect("close failed")
}

fn decode(frame: &[u8]) -> Vec<u8> {
    zstd::decode_all(frame).expect("frame does not decode")
}

#[test]
fn test_wrapper_basic() {
    let mut w = ZstdWriter::open(3).expect("open failed");
    assert_eq!(w.write("AB\n".as_bytes()), 0);
    assert_eq!(w.write("\n".as_bytes()), 0);
    assert_eq!(w.write("".as_bytes()), 0);
    assert_eq!(w.write("กาก้า\n".as_bytes()), 0);
    let frame = w.close().expect("close failed");

    let decoded = decode(&frame);
    let text = String::from_utf8(decoded).expect("decoded bytes are not UTF-8");
    let mut lines = text.lines();
    assert_eq!(lines.next().unwrap(), String::from("AB"));
    assert_eq!(lines.next().unwrap(), String::from(""));
    assert_eq!(lines.next().unwrap(), String::from("กาก้า"));
    assert!(lines.next().is_none());
}

#[test]
fn round_trip_across_levels() {
    let payloads: [&[u8]; 3] = [b"first chunk, ", b"second chunk, ", b"third chunk"];
    let whole: Vec<u8> = b"first chunk, second chunk, third chunk".to_vec();
    for level in [1, 3, 9, 19] {
        let frame = compress(level, &payloads);
        assert_eq!(decode(&frame), whole);
    }
}

#[test]
fn default_and_negative_levels_are_accepted() {
    let payloads: [&[u8]; 2] = [b"some ", b"payload"];
    for level in [0, -5] {
        let frame = compress(level, &payloads);
        assert_eq!(decode(&frame), b"some payload".to_vec());
    }
}

#[test]
fn zero_length_writes_change_nothing() {
    let plain = compress(3, &[b"alpha", b"beta"]);
    let padded = compress(3, &[b"", b"alpha", b"", b"", b"beta", b""]);
    assert_eq!(decode(&plain), decode(&padded));
    assert_eq!(plain, padded);
}

#[test]
fn split_writes_match_whole_write() {
    let whole = compress(3, &[b"hello, streaming world"]);
    let split = compress(3, &[b"hello, ", b"streaming", b" world"]);
    assert_eq!(whole, split);
    assert_eq!(decode(&whole), b"hello, streaming world".to_vec());
}

#[test]
fn non_ascii_payload_round_trips() {
    let mut payload: Vec<u8> = "κόσμε — 世界 — 🦀\n".as_bytes().to_vec();
    payload.push(0x00);
    payload.push(0xFF);
    payload.push(0x80);
    let frame = compress(3, &[&payload]);
    assert_eq!(decode(&frame), payload);
}

#[test]
fn empty_stream_round_trips() {
    let frame = compress(3, &[]);
    assert_eq!(decode(&frame), Vec::<u8>::new());
}

#[test]
fn write_many_concatenates_in_order() {
    let bufs: Vec<Vec<u8>> = vec![
        b"one,".to_vec(),
        Vec::new(),
        b"two,".to_vec(),
        b"three".to_vec(),
    ];
    let mut w = ZstdWriter::open(3).expect("open failed");
    assert_eq!(w.write_many(&bufs), 0);
    let frame = w.close().expect("close failed");
    assert_eq!(decode(&frame), b"one,two,three".to_vec());

    let one_call = compress(3, &[b"one,two,three"]);
    assert_eq!(frame, one_call);
}

#[test]
fn fresh_reader_decodes_after_close() {
    let frame = compress(3, &[b"independently ", b"decodable"]);
    let mut reader = zstd::stream::read::Decoder::new(&frame[..]).expect("decoder refused frame");
    let mut decoded: Vec<u8> = Vec::new();
    reader
        .read_to_end(&mut decoded)
        .expect("fresh reader could not decode the frame");
    assert_eq!(decoded, b"independently decodable".to_vec());
}
