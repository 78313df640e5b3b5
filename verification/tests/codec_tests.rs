use remdes::codec::{encode_chunk, encode_frame, encode_header, decode_header, HEADER_SIZE};
use remdes::reassembly::{DatagramEvent, Reassembler};
use remdes::region::RegionHeader;
use remdes::UDP_CHUNK_SIZE;

fn patterned(len: usize, seed: u8) -> Vec<u8> {
    let mut v = Vec::with_capacity(len);
    let mut x: u8 = seed;
    for i in 0..len {
        x = x.wrapping_mul(31).wrapping_add((i as u8).wrapping_add(7));
        v.push(x);
    }
    v
}

fn header_for(len: usize) -> RegionHeader {
    RegionHeader { x: 1, y: 2, w: 3, h: 4, l: len as u32 }
}

fn encode_then_decode(len: usize) {
    let data = patterned(len, 5);
    let h = header_for(len);
    let dgrams = encode_frame(&h, data.as_slice());

    let expected_chunks = len.div_ceil(UDP_CHUNK_SIZE);
    assert_eq!(dgrams.len(), 1 + expected_chunks);
    assert_eq!(dgrams[0].len(), HEADER_SIZE);

    let mut rs = Reassembler::new();
    for d in &dgrams {
        let ev = rs.handle_datagram(d.as_slice());
        assert_ne!(ev, DatagramEvent::ChunkDropped);
        assert_ne!(ev, DatagramEvent::RangeViolation);
    }
    assert_eq!(rs.region.header(), h);
    assert_eq!(rs.region.data(), data.as_slice());
}

#[test]
fn round_trip_empty_payload() {
    encode_then_decode(0);
}

#[test]
fn round_trip_one_byte() {
    encode_then_decode(1);
}

#[test]
fn round_trip_one_below_chunk_size() {
    encode_then_decode(UDP_CHUNK_SIZE - 1);
}

#[test]
fn round_trip_exactly_chunk_size() {
    encode_then_decode(UDP_CHUNK_SIZE);
}

#[test]
fn round_trip_one_above_chunk_size() {
    encode_then_decode(UDP_CHUNK_SIZE + 1);
}

#[test]
fn round_trip_ten_chunks_and_change() {
    encode_then_decode(10 * UDP_CHUNK_SIZE + 7);
}

#[test]
fn header_round_trip_arbitrary_values() {
    let cases = [
        (0u16, 0u16, 0u16, 0u16, 0u32),
        (1, 2, 3, 4, 5),
        (u16::MAX, u16::MAX, u16::MAX, u16::MAX, u32::MAX),
        (54287, 1, 1920, 1080, 1920 * 1080 * 4),
        (0x00ff, 0xff00, 0x1234, 0x4321, 0xdead_beef),
    ];
    for (x, y, w, h, l) in cases {
        let hdr = RegionHeader { x, y, w, h, l };
        let bytes = encode_header(&hdr);
        assert_eq!(bytes.len(), HEADER_SIZE);
        assert_eq!(decode_header(bytes.as_slice()), hdr);
    }
}

#[test]
fn header_bytes_are_little_endian() {
    let hdr = RegionHeader { x: 0x0201, y: 0x0403, w: 0x0605, h: 0x0807, l: 0x0c0b0a09 };
    let bytes = encode_header(&hdr);
    assert_eq!(bytes, vec![1, 2, 3, 4, 5, 6, 7, 8, 9, 10, 11, 12]);
}

#[test]
fn chunk_datagram_has_index_prefix() {
    let frag = patterned(100, 9);
    let d = encode_chunk(0x0302, frag.as_slice());
    assert_eq!(&d[..2], &[0x02, 0x03]);
    assert!(d.len() >= 2);
}

#[test]
fn compression_actually_compresses() {
    // a fragment of zeros must come out much smaller than it went in; this
    // fails if the compressor were to hand its input back unchanged
    let zeros = vec![0u8; UDP_CHUNK_SIZE];
    let d = encode_chunk(0, zeros.as_slice());
    assert!(d.len() < UDP_CHUNK_SIZE / 4);
}

#[test]
fn end_to_end_small_frame() {
    // producer side: one header and one chunk of eight raw bytes
    let h = RegionHeader { x: 0, y: 0, w: 2, h: 1, l: 8 };
    let data = [1u8, 2, 3, 4, 5, 6, 7, 8];
    let dgrams = encode_frame(&h, &data);
    assert_eq!(dgrams.len(), 2);

    // consumer side: feed both datagrams and read the frame back
    let mut rs = Reassembler::new();
    assert_eq!(rs.handle_datagram(dgrams[0].as_slice()), DatagramEvent::NewFrame);
    assert_eq!(rs.handle_datagram(dgrams[1].as_slice()), DatagramEvent::ChunkApplied);
    assert_eq!(rs.region.header(), h);
    assert_eq!(rs.region.data(), &[1, 2, 3, 4, 5, 6, 7, 8]);
}
