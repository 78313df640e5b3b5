use remdes::codec::encode_frame;
use remdes::reassembly::{DatagramEvent, Reassembler};
use remdes::region::RegionHeader;
use remdes::signal::FrameCell;
use remdes::UDP_CHUNK_SIZE;

fn header_len(l: u32) -> RegionHeader {
    RegionHeader { x: 0, y: 0, w: 0, h: 0, l }
}

#[test]
fn reassembly_under_loss_keeps_stale_bytes() {
    // first frame: three full chunks, all bytes 0xAA
    let l = 3 * UDP_CHUNK_SIZE;
    let first = vec![0xAAu8; l];
    let mut rs = Reassembler::new();
    for d in encode_frame(&header_len(l as u32), first.as_slice()) {
        assert_ne!(rs.handle_datagram(d.as_slice()), DatagramEvent::RangeViolation);
    }
    assert_eq!(rs.region.data(), first.as_slice());

    // second frame: all bytes 0xBB, but chunk 1 is lost on the wire
    let second = vec![0xBBu8; l];
    let dgrams = encode_frame(&header_len(l as u32), second.as_slice());
    assert_eq!(dgrams.len(), 4);
    assert_eq!(rs.handle_datagram(dgrams[0].as_slice()), DatagramEvent::NewFrame);
    assert_eq!(rs.handle_datagram(dgrams[1].as_slice()), DatagramEvent::ChunkApplied);
    // dgrams[2] — chunk index 1 — is dropped
    assert_eq!(rs.handle_datagram(dgrams[3].as_slice()), DatagramEvent::ChunkApplied);

    // chunks 0 and 2 hold current data; chunk 1's range still holds the
    // previous frame's bytes
    let data = rs.region.data();
    assert_eq!(data.len(), l);
    assert!(data[..UDP_CHUNK_SIZE].iter().all(|b| *b == 0xBB));
    assert!(data[UDP_CHUNK_SIZE..2 * UDP_CHUNK_SIZE].iter().all(|b| *b == 0xAA));
    assert!(data[2 * UDP_CHUNK_SIZE..].iter().all(|b| *b == 0xBB));
}

#[test]
fn chunk_outside_declared_payload_is_a_range_violation() {
    let mut rs = Reassembler::new();
    rs.start_frame(header_len(8));
    let r = rs.apply_chunk(1, &[1, 2, 3]);
    assert!(r.is_err());
    // nothing was written
    assert_eq!(rs.region.data(), &[0u8; 8]);
}

#[test]
fn chunk_datagram_against_empty_frame_is_a_range_violation() {
    // an empty frame accepts no chunk at a non-zero index, whatever arrives
    let mut rs = Reassembler::new();
    rs.start_frame(header_len(0));
    let dgrams = encode_frame(&header_len(3), &[1u8, 2, 3]);
    let ev = rs.handle_datagram(dgrams[1].as_slice());
    assert_eq!(ev, DatagramEvent::RangeViolation);
    assert_eq!(rs.region.data().len(), 0);
}

#[test]
fn undersized_datagram_is_dropped() {
    let mut rs = Reassembler::new();
    rs.start_frame(header_len(4));
    let ev = rs.handle_datagram(&[7]);
    assert_eq!(ev, DatagramEvent::ChunkDropped);
    assert_eq!(rs.region.data(), &[0u8; 4]);
}

#[test]
fn apply_chunk_at_boundary_succeeds_exactly() {
    let mut rs = Reassembler::new();
    rs.start_frame(header_len((UDP_CHUNK_SIZE + 4) as u32));
    assert!(rs.apply_chunk(1, &[1, 2, 3, 4]).is_ok());
    assert!(rs.apply_chunk(1, &[1, 2, 3, 4, 5]).is_err());
    let data = rs.region.data();
    assert_eq!(&data[UDP_CHUNK_SIZE..], &[1, 2, 3, 4]);
}

#[test]
fn frame_cell_swap_trades_regions() {
    let mut cell = FrameCell::new();
    let mut mine = Reassembler::new();
    mine.start_frame(header_len(2));
    mine.apply_chunk(0, &[3, 4]).unwrap();

    cell.swap(&mut mine.region);
    assert_eq!(mine.region.data().len(), 0);
    assert_eq!(cell.region.data(), &[3, 4]);

    cell.swap(&mut mine.region);
    assert_eq!(mine.region.data(), &[3, 4]);
}
