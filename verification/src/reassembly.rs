//! The consumer side of the wire: a reassembler owns one region and rebuilds
//! frames from datagrams as they arrive. A header datagram begins a new frame
//! in place — the buffer keeps whatever the previous frame left in it, so a
//! chunk lost on the wire shows as a stale patch, never as a stall. A chunk
//! datagram is decompressed and written at the offset its index dictates; one
//! that would land outside the declared payload is a range violation, reported
//! and not written. There is no sequencing and no retransmission: reassembly
//! always targets the current frame, and loss self-heals on the next complete
//! one.

use vstd::prelude::*;

use crate::UDP_CHUNK_SIZE;
use crate::codec::HEADER_SIZE;
use crate::codec::compressed;
use crate::codec::decode_header;
use crate::codec::decompress_block;
use crate::codec::fragment;
use crate::codec::header_of_bytes;
use crate::codec::lemma_num_chunks_nonneg;
use crate::codec::lemma_num_chunks_step;
use crate::codec::num_chunks;
use crate::region::Region;
use crate::region::RegionHeader;
use crate::region::region_updated;
use vstd::bytes::spec_u16_from_le_bytes;
use vstd::bytes::u16_from_le_bytes;

verus! {

/// `s` with `p` written over the range that starts at `off`; everything
/// outside that range keeps its byte, and the length never changes.
pub open spec fn write_at(s: Seq<u8>, off: int, p: Seq<u8>) -> Seq<u8> {
    Seq::new(s.len(), |i: int| if off <= i < off + p.len() { p[i - off] } else { s[i] })
}

/// What applying one chunk does: payload `p` lands at the offset index `idx`
/// dictates, inside the logical payload; header, length and storage size stay.
pub open spec fn chunk_written(post: Region, pre: Region, idx: u16, p: Seq<u8>) -> bool {
    &&& post.header == pre.header
    &&& post.len == pre.len
    &&& post.buf@ == write_at(pre.buf@, idx * UDP_CHUNK_SIZE, p)
    &&& post.data_spec() == write_at(pre.data_spec(), idx * UDP_CHUNK_SIZE, p)
}

/// A chunk whose index and length point outside the payload the current
/// header declared: the peers disagree about the frame, and the write is
/// refused rather than performed out of range.
#[derive(Clone, Copy, Debug, PartialEq, Eq, Structural)]
pub struct RangeViolation;

/// What one received datagram did to the reassembler.
#[derive(Clone, Copy, Debug, PartialEq, Eq, Structural)]
pub enum DatagramEvent {
    /// A header datagram: the previous frame is complete and a new one began.
    NewFrame,
    /// A chunk datagram, decompressed and written in place.
    ChunkApplied,
    /// A malformed or truncated chunk datagram, absorbed without effect.
    ChunkDropped,
    /// A chunk that would land outside the declared payload; nothing written.
    RangeViolation,
}

pub struct Reassembler {
    pub region: Region,
}

impl Reassembler {
    pub fn new() -> (r: Self)
        ensures
            r.region.wf(),
            r.region.header == (RegionHeader { x: 0, y: 0, w: 0, h: 0, l: 0 }),
            r.region.data_spec() == Seq::<u8>::empty(),
            r.region.cap_spec() == 0,
    {
        Reassembler { region: Region::default() }
    }

    /// Begin a new frame in place: install the header and bring the buffer to
    /// the declared payload length. Bytes the previous frame left in the
    /// buffer stay where they are.
    pub fn start_frame(&mut self, h: RegionHeader)
        ensures
            region_updated(final(self).region, old(self).region, h),
    {
        self.region.update(h);
    }

    /// Write one decompressed fragment at the offset its index dictates.
    /// Succeeds exactly when the write lies inside the declared payload;
    /// otherwise nothing changes and the range violation is reported.
    #[verifier::loop_isolation(false)]
    pub fn apply_chunk(&mut self, idx: u16, payload: &[u8]) -> (r: Result<(), RangeViolation>)
        requires
            old(self).region.wf(),
        ensures
            final(self).region.wf(),
            r is Ok <==> idx * UDP_CHUNK_SIZE + payload@.len() <= old(self).region.len,
            r is Ok ==> chunk_written(final(self).region, old(self).region, idx, payload@),
            r is Err ==> *final(self) == *old(self),
    {
        let start = (idx as usize) * UDP_CHUNK_SIZE;
        if start > self.region.len || payload.len() > self.region.len - start {
            return Err(RangeViolation);
        }
        let n = payload.len();
        let mut j: usize = 0;
        while j < n
            invariant
                j <= n,
                start + n <= self.region.len,
                self.region.len == old(self).region.len,
                self.region.header == old(self).region.header,
                self.region.buf@.len() == old(self).region.buf@.len(),
                forall|k: int|
                    0 <= k < self.region.buf@.len() ==> self.region.buf@[k] == (if start <= k
                        < start + j {
                        payload@[k - start]
                    } else {
                        old(self).region.buf@[k]
                    }),
            decreases n - j,
        {
            let b = *vstd::slice::slice_index_get(payload, j);
            *vstd::std_specs::vec::vec_index_mut(&mut self.region.buf, start + j) = b;
            j += 1;
        }
        proof {
            assert(self.region.buf@ =~= write_at(
                old(self).region.buf@,
                idx * UDP_CHUNK_SIZE,
                payload@,
            ));
            assert(self.region.data_spec() =~= write_at(
                old(self).region.data_spec(),
                idx * UDP_CHUNK_SIZE,
                payload@,
            ));
        }
        Ok(())
    }

    /// Consume one received datagram, telling header from chunk by length
    /// alone, as the wire format dictates. A header begins a new frame; a
    /// chunk is decompressed (bounded by the fragment size) and written at
    /// its offset; anything malformed is absorbed.
    pub fn handle_datagram(&mut self, buf: &[u8]) -> (e: DatagramEvent)
        requires
            old(self).region.wf(),
        ensures
            final(self).region.wf(),
            buf@.len() == HEADER_SIZE ==> e == DatagramEvent::NewFrame && region_updated(
                final(self).region,
                old(self).region,
                header_of_bytes(buf@),
            ),
            buf@.len() != HEADER_SIZE ==> {
                &&& e != DatagramEvent::NewFrame
                &&& final(self).region.header == old(self).region.header
                &&& final(self).region.len == old(self).region.len
                &&& final(self).region.cap_spec() == old(self).region.cap_spec()
            },
            buf@.len() != HEADER_SIZE && buf@.len() >= 2 ==> forall|b: Seq<u8>|
                (b.len() <= UDP_CHUNK_SIZE && buf@.skip(2) == #[trigger] compressed(b)
                    && spec_u16_from_le_bytes(buf@.subrange(0, 2)) * UDP_CHUNK_SIZE + b.len()
                    <= old(self).region.len) ==> (e == DatagramEvent::ChunkApplied
                    && chunk_written(
                    final(self).region,
                    old(self).region,
                    spec_u16_from_le_bytes(buf@.subrange(0, 2)),
                    b,
                )),
            buf@.len() != HEADER_SIZE && buf@.len() >= 2 ==> forall|b: Seq<u8>|
                (b.len() <= UDP_CHUNK_SIZE && buf@.skip(2) == #[trigger] compressed(b)
                    && spec_u16_from_le_bytes(buf@.subrange(0, 2)) * UDP_CHUNK_SIZE + b.len()
                    > old(self).region.len) ==> e == DatagramEvent::RangeViolation,
            buf@.len() != HEADER_SIZE && buf@.len() < 2 ==> e == DatagramEvent::ChunkDropped,
            e == DatagramEvent::ChunkDropped || e == DatagramEvent::RangeViolation ==> *final(self)
                == *old(self),
    {
        if buf.len() == HEADER_SIZE {
            let h = decode_header(buf);
            self.region.update(h);
            DatagramEvent::NewFrame
        } else if buf.len() < 2 {
            DatagramEvent::ChunkDropped
        } else {
            let idx = u16_from_le_bytes(vstd::slice::slice_subrange(buf, 0, 2));
            let comp = vstd::slice::slice_subrange(buf, 2, buf.len());
            proof {
                assert(comp@ =~= buf@.skip(2));
            }
            match decompress_block(comp, UDP_CHUNK_SIZE) {
                None => DatagramEvent::ChunkDropped,
                Some(p) => match self.apply_chunk(idx, p.as_slice()) {
                    Ok(()) => DatagramEvent::ChunkApplied,
                    Err(RangeViolation) => DatagramEvent::RangeViolation,
                },
            }
        }
    }
}

/// The payload after the first `k` fragments of `d` have been written over
/// `buf`, each at the offset its index dictates.
pub open spec fn assemble(buf: Seq<u8>, d: Seq<u8>, k: int) -> Seq<u8>
    decreases k,
{
    if k <= 0 {
        buf
    } else {
        write_at(assemble(buf, d, k - 1), (k - 1) * UDP_CHUNK_SIZE, fragment(d, k - 1))
    }
}

/// Any index below the fragment count points into the payload.
proof fn lemma_num_chunks_lower(l: int, k: int)
    requires
        1 <= k <= num_chunks(l),
    ensures
        (k - 1) * UDP_CHUNK_SIZE < l,
    decreases k,
{
    lemma_num_chunks_nonneg(l - UDP_CHUNK_SIZE);
    if l <= 0 {
        assert(num_chunks(l) == 0);
    } else {
        lemma_num_chunks_step(l);
        if k > 1 {
            lemma_num_chunks_lower(l - UDP_CHUNK_SIZE, k - 1);
        }
    }
}

/// All fragments together cover the payload.
proof fn lemma_num_chunks_upper(l: int)
    requires
        l >= 0,
    ensures
        num_chunks(l) * UDP_CHUNK_SIZE >= l,
    decreases l,
{
    if l > 0 {
        lemma_num_chunks_step(l);
        lemma_num_chunks_upper(if l - UDP_CHUNK_SIZE >= 0 {
            l - UDP_CHUNK_SIZE
        } else {
            0
        });
        if l - UDP_CHUNK_SIZE >= 0 {
            assert(num_chunks(l) * UDP_CHUNK_SIZE == num_chunks(l - UDP_CHUNK_SIZE)
                * UDP_CHUNK_SIZE + UDP_CHUNK_SIZE);
        } else {
            assert(num_chunks(l - UDP_CHUNK_SIZE) == 0);
        }
    }
}

/// After the first `k` fragments, the payload is right up to `k` fragment
/// widths in, and untouched beyond them.
proof fn lemma_assemble_prefix(buf: Seq<u8>, d: Seq<u8>, k: int)
    requires
        buf.len() == d.len(),
        0 <= k <= num_chunks(d.len() as int),
    ensures
        assemble(buf, d, k).len() == d.len(),
        forall|i: int|
            0 <= i < vstd::math::min(k * UDP_CHUNK_SIZE, d.len() as int) ==> assemble(buf, d, k)[i]
                == d[i],
        forall|i: int| k * UDP_CHUNK_SIZE <= i < d.len() ==> assemble(buf, d, k)[i] == buf[i],
    decreases k,
{
    if k > 0 {
        lemma_assemble_prefix(buf, d, k - 1);
        lemma_num_chunks_lower(d.len() as int, k);
        let prev = assemble(buf, d, k - 1);
        let off = (k - 1) * UDP_CHUNK_SIZE;
        let hi = vstd::math::min(k * UDP_CHUNK_SIZE, d.len() as int);
        let frag = fragment(d, k - 1);
        assert(frag.len() == hi - off);
        assert forall|i: int|
            0 <= i < vstd::math::min(k * UDP_CHUNK_SIZE, d.len() as int) implies assemble(
            buf,
            d,
            k,
        )[i] == d[i] by {
            if off <= i < hi {
                assert(assemble(buf, d, k)[i] == frag[i - off]);
                assert(frag[i - off] == d[i]);
            }
        }
    }
}

/// Splitting a payload into fragments and writing every fragment back at the
/// offset its index dictates rebuilds exactly the original payload, whatever
/// the buffer held before, for every payload length.
pub proof fn lemma_fragments_assemble(buf: Seq<u8>, d: Seq<u8>)
    requires
        buf.len() == d.len(),
    ensures
        assemble(buf, d, num_chunks(d.len() as int)) == d,
{
    let k = num_chunks(d.len() as int);
    lemma_num_chunks_nonneg(d.len() as int);
    lemma_num_chunks_upper(d.len() as int);
    lemma_assemble_prefix(buf, d, k);
    assert(assemble(buf, d, k) =~= d);
}

} // verus!
