//! The wire codec. Two datagram kinds share one channel and are told apart by
//! length alone: a header datagram is exactly `HEADER_SIZE` bytes of raw
//! little-endian header fields; anything else is a chunk datagram, a two-byte
//! little-endian fragment index followed by one independently compressed
//! payload fragment. A compressed fragment whose datagram happens to be
//! `HEADER_SIZE` bytes long is therefore misread as a header; the format
//! accepts this rare, payload-dependent corruption rather than spending a tag
//! byte, and this codec keeps that wire behaviour.

use vstd::prelude::*;

use crate::UDP_CHUNK_SIZE;
use crate::region::RegionHeader;
use vstd::bytes::lemma_auto_spec_u16_to_from_le_bytes;
use vstd::bytes::lemma_auto_spec_u32_to_from_le_bytes;
use vstd::bytes::spec_u16_to_le_bytes;
use vstd::bytes::spec_u16_from_le_bytes;
use vstd::bytes::spec_u32_to_le_bytes;
use vstd::bytes::spec_u32_from_le_bytes;
use vstd::bytes::u16_to_le_bytes;
use vstd::bytes::u16_from_le_bytes;
use vstd::bytes::u32_to_le_bytes;
use vstd::bytes::u32_from_le_bytes;

verus! {

/// Size in bytes of an encoded header: four 16-bit fields and one 32-bit
/// field, no padding.
pub const HEADER_SIZE: usize = 12;

/// The byte image of a header: every field little-endian, in declaration
/// order, no padding.
pub open spec fn header_bytes(h: RegionHeader) -> Seq<u8> {
    spec_u16_to_le_bytes(h.x) + spec_u16_to_le_bytes(h.y) + spec_u16_to_le_bytes(h.w)
        + spec_u16_to_le_bytes(h.h) + spec_u32_to_le_bytes(h.l)
}

/// The header a well-sized byte image describes.
pub open spec fn header_of_bytes(s: Seq<u8>) -> RegionHeader
    recommends
        s.len() == HEADER_SIZE,
{
    RegionHeader {
        x: spec_u16_from_le_bytes(s.subrange(0, 2)),
        y: spec_u16_from_le_bytes(s.subrange(2, 4)),
        w: spec_u16_from_le_bytes(s.subrange(4, 6)),
        h: spec_u16_from_le_bytes(s.subrange(6, 8)),
        l: spec_u32_from_le_bytes(s.subrange(8, 12)),
    }
}

/// The LZ4 block a payload fragment compresses to. The block is a function of
/// the input bytes alone; nothing more is assumed about its shape.
pub uninterp spec fn compressed(b: Seq<u8>) -> Seq<u8>;

/// The byte image of one chunk datagram: the fragment index, little-endian,
/// then the compressed fragment.
pub open spec fn chunk_datagram(idx: u16, frag: Seq<u8>) -> Seq<u8> {
    spec_u16_to_le_bytes(idx) + compressed(frag)
}

/// How many fragments a payload of `l` bytes splits into: `l / UDP_CHUNK_SIZE`
/// rounded up, so zero for an empty payload.
pub open spec fn num_chunks(l: int) -> int
    decreases l,
{
    if l <= 0 {
        0
    } else {
        1 + num_chunks(vstd::math::max(l - UDP_CHUNK_SIZE, 0))
    }
}

pub proof fn lemma_num_chunks_nonneg(l: int)
    ensures
        num_chunks(l) >= 0,
    decreases l,
{
    if l > 0 {
        lemma_num_chunks_nonneg(vstd::math::max(l - UDP_CHUNK_SIZE, 0));
    }
}

/// A non-empty payload has one fragment, then whatever the rest splits into.
pub proof fn lemma_num_chunks_step(l: int)
    requires
        l > 0,
    ensures
        num_chunks(l) == 1 + num_chunks(l - UDP_CHUNK_SIZE),
        num_chunks(l) >= 1,
{
    lemma_num_chunks_nonneg(l - UDP_CHUNK_SIZE);
    lemma_num_chunks_nonneg(vstd::math::max(l - UDP_CHUNK_SIZE, 0));
}

/// Fragment `i` of a payload: the `i`-th run of `UDP_CHUNK_SIZE` bytes, the
/// last one possibly shorter.
pub open spec fn fragment(d: Seq<u8>, i: int) -> Seq<u8>
    recommends
        0 <= i < num_chunks(d.len() as int),
{
    d.subrange(
        i * UDP_CHUNK_SIZE,
        vstd::math::min((i + 1) * UDP_CHUNK_SIZE, d.len() as int),
    )
}

/// Relies on lz4::block::compress in default mode without a length prefix: it
/// deterministically compresses the whole input, and accepts any input of at
/// most its documented maximum input size (0x7E000000 bytes).
#[verifier::external_body]
pub(crate) fn compress_block(src: &[u8]) -> (r: Vec<u8>)
    requires
        src@.len() <= 0x7E00_0000,
    ensures
        r@ == compressed(src@),
{
    lz4::block::compress(src, None, false).unwrap()
}

/// Relies on lz4::block::decompress with an explicit size bound of `max`
/// bytes: a block that lz4::block::compress produced from at most `max` bytes
/// decompresses back to exactly those bytes, a successful result never exceeds
/// `max` bytes, and a malformed block is an error, never a crash.
#[verifier::external_body]
pub(crate) fn decompress_block(src: &[u8], max: usize) -> (r: Option<Vec<u8>>)
    requires
        max <= 0x7E00_0000,
    ensures
        r is Some ==> r.unwrap()@.len() <= max,
        forall|b: Seq<u8>|
            b.len() <= max && src@ == compressed(b) ==> r is Some && r.unwrap()@ == b,
{
    lz4::block::decompress(src, Some(max as i32)).ok()
}

/// Encode a header into its raw byte image.
pub fn encode_header(h: &RegionHeader) -> (r: Vec<u8>)
    ensures
        r@ == header_bytes(*h),
        r@.len() == HEADER_SIZE,
{
    let mut r = u16_to_le_bytes(h.x);
    let mut t = u16_to_le_bytes(h.y);
    r.append(&mut t);
    let mut t = u16_to_le_bytes(h.w);
    r.append(&mut t);
    let mut t = u16_to_le_bytes(h.h);
    r.append(&mut t);
    let mut t = u32_to_le_bytes(h.l);
    r.append(&mut t);
    r
}

/// Decode a header datagram back into its fields.
pub fn decode_header(s: &[u8]) -> (h: RegionHeader)
    requires
        s@.len() == HEADER_SIZE,
    ensures
        h == header_of_bytes(s@),
{
    RegionHeader {
        x: u16_from_le_bytes(vstd::slice::slice_subrange(s, 0, 2)),
        y: u16_from_le_bytes(vstd::slice::slice_subrange(s, 2, 4)),
        w: u16_from_le_bytes(vstd::slice::slice_subrange(s, 4, 6)),
        h: u16_from_le_bytes(vstd::slice::slice_subrange(s, 6, 8)),
        l: u32_from_le_bytes(vstd::slice::slice_subrange(s, 8, 12)),
    }
}

/// Decoding inverts encoding: a header survives the trip through its byte
/// image unchanged, for every field value.
pub proof fn lemma_header_round_trip(h: RegionHeader)
    ensures
        header_of_bytes(header_bytes(h)) == h,
{
    lemma_auto_spec_u16_to_from_le_bytes();
    lemma_auto_spec_u32_to_from_le_bytes();
    let s = header_bytes(h);
    assert(s.subrange(0, 2) =~= spec_u16_to_le_bytes(h.x));
    assert(s.subrange(2, 4) =~= spec_u16_to_le_bytes(h.y));
    assert(s.subrange(4, 6) =~= spec_u16_to_le_bytes(h.w));
    assert(s.subrange(6, 8) =~= spec_u16_to_le_bytes(h.h));
    assert(s.subrange(8, 12) =~= spec_u32_to_le_bytes(h.l));
}

/// Encode one chunk datagram: the fragment index, then the compressed
/// fragment.
pub fn encode_chunk(idx: u16, frag: &[u8]) -> (r: Vec<u8>)
    requires
        frag@.len() <= UDP_CHUNK_SIZE,
    ensures
        r@ == chunk_datagram(idx, frag@),
        r@.len() >= 2,
{
    let mut r = u16_to_le_bytes(idx);
    let mut c = compress_block(frag);
    r.append(&mut c);
    r
}

/// Encode a whole frame as the datagram sequence the producer sends: first
/// the header datagram, then one chunk datagram per fragment, in index order.
pub fn encode_frame(h: &RegionHeader, data: &[u8]) -> (dgrams: Vec<Vec<u8>>)
    requires
        data@.len() == h.l,
        num_chunks(data@.len() as int) <= 0x1_0000,
    ensures
        dgrams@.len() == 1 + num_chunks(data@.len() as int),
        dgrams@[0]@ == header_bytes(*h),
        forall|i: int|
            0 <= i < num_chunks(data@.len() as int) ==> #[trigger] dgrams@[i + 1]@
                == chunk_datagram(i as u16, fragment(data@, i)),
{
    let mut dgrams: Vec<Vec<u8>> = Vec::new();
    dgrams.push(encode_header(h));
    let n = data.len();
    let mut off: usize = 0;
    let mut idx: usize = 0;
    while off < n
        invariant
            n == data@.len(),
            n == h.l,
            num_chunks(n as int) <= 0x1_0000,
            off <= n,
            off == idx * UDP_CHUNK_SIZE || off == n,
            idx + num_chunks(n - off) == num_chunks(n as int),
            off < n ==> off == idx * UDP_CHUNK_SIZE,
            dgrams@.len() == 1 + idx,
            dgrams@[0]@ == header_bytes(*h),
            forall|i: int|
                0 <= i < idx ==> #[trigger] dgrams@[i + 1]@
                    == chunk_datagram(i as u16, fragment(data@, i)),
        decreases n - off,
    {
        proof {
            // one more fragment remains, so the index stays within u16 range
            lemma_num_chunks_step(n - off);
            lemma_num_chunks_nonneg(n - off - UDP_CHUNK_SIZE);
            assert(idx < num_chunks(n as int));
        }
        let end = if n - off > UDP_CHUNK_SIZE {
            off + UDP_CHUNK_SIZE
        } else {
            n
        };
        let frag = vstd::slice::slice_subrange(data, off, end);
        proof {
            assert(end as int == vstd::math::min(
                (idx + 1) * UDP_CHUNK_SIZE,
                n as int,
            ));
            assert(frag@ =~= fragment(data@, idx as int));
        }
        dgrams.push(encode_chunk(idx as u16, frag));
        proof {
            // the remaining length shrinks by exactly one fragment
            lemma_num_chunks_step(n - off);
            assert(num_chunks(n - off) == 1 + num_chunks(n - end));
        }
        off = end;
        idx = idx + 1;
    }
    dgrams
}

} // verus!
