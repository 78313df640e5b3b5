//! The frame buffer exchanged between every pipeline stage: a dirty-rectangle
//! header plus a growable byte buffer whose logical length always equals the
//! payload length the header declares. Buffers grow but never shrink, so a
//! shorter frame leaves the spare bytes of an earlier one in place — the
//! datagram channel is lossy, and a dropped chunk is shown stale rather than
//! blanked.

use vstd::prelude::*;

verus! {

/// Fixed-size record describing one frame: dirty-rectangle origin `x, y` and
/// extent `w, h` in pixels, and `l`, the payload length in bytes. Transmitted
/// verbatim as little-endian field bytes, no padding.
#[derive(Clone, Copy, Debug, PartialEq, Eq, Structural)]
pub struct RegionHeader {
    pub x: u16,
    pub y: u16,
    pub w: u16,
    pub h: u16,
    pub l: u32,
}

/// What `Region::update` does: `post` is `pre` carrying header `h`, its
/// logical length brought to the declared payload length, its storage grown
/// with zeroed bytes exactly when the payload is longer than the storage seen
/// so far and left untouched otherwise.
pub open spec fn region_updated(post: Region, pre: Region, h: RegionHeader) -> bool {
    &&& post.header == h
    &&& post.len == h.l as usize
    &&& post.wf()
    &&& post.cap_spec() == vstd::math::max(pre.cap_spec(), h.l as int)
    &&& (pre.cap_spec() >= h.l ==> post.buf@ == pre.buf@)
    &&& (pre.cap_spec() < h.l ==> post.buf@ == pre.buf@ + Seq::new(
        (h.l - pre.cap_spec()) as nat,
        |i: int| 0u8,
    ))
}

/// Buffer growth is idempotent under shrinking payloads: after an update to
/// payload length `l1`, a second update to any `l2 <= l1` leaves the storage
/// exactly as it was — nothing is reallocated — while the visible payload
/// length tracks `l2`.
pub proof fn lemma_update_shrink_keeps_storage(
    r0: Region,
    r1: Region,
    r2: Region,
    h1: RegionHeader,
    h2: RegionHeader,
)
    requires
        region_updated(r1, r0, h1),
        region_updated(r2, r1, h2),
        h2.l <= h1.l,
    ensures
        r2.buf@ == r1.buf@,
        r2.cap_spec() == r1.cap_spec(),
        r2.data_spec().len() == h2.l,
{
}

impl Default for RegionHeader {
    fn default() -> (r: Self)
        ensures
            r.x == 0 && r.y == 0 && r.w == 0 && r.h == 0 && r.l == 0,
    {
        RegionHeader { x: 0, y: 0, w: 0, h: 0, l: 0 }
    }
}

impl RegionHeader {
    pub fn x(&self) -> (r: i32)
        ensures
            r == self.x as i32,
    {
        self.x as i32
    }

    pub fn y(&self) -> (r: i32)
        ensures
            r == self.y as i32,
    {
        self.y as i32
    }

    pub fn w(&self) -> (r: i32)
        ensures
            r == self.w as i32,
    {
        self.w as i32
    }

    pub fn h(&self) -> (r: i32)
        ensures
            r == self.h as i32,
    {
        self.h as i32
    }

    pub fn l(&self) -> (r: usize)
        ensures
            r == self.l as usize,
    {
        self.l as usize
    }

    pub fn set_x(&mut self, x: u16)
        ensures
            *final(self) == (RegionHeader { x, ..*old(self) }),
    {
        self.x = x
    }

    pub fn set_y(&mut self, y: u16)
        ensures
            *final(self) == (RegionHeader { y, ..*old(self) }),
    {
        self.y = y
    }

    pub fn set_w(&mut self, w: i32)
        requires
            0 <= w <= u16::MAX,
        ensures
            *final(self) == (RegionHeader { w: w as u16, ..*old(self) }),
    {
        self.w = w as u16
    }

    pub fn set_h(&mut self, h: i32)
        requires
            0 <= h <= u16::MAX,
        ensures
            *final(self) == (RegionHeader { h: h as u16, ..*old(self) }),
    {
        self.h = h as u16
    }

    pub fn set_l(&mut self, l: usize)
        requires
            l <= u32::MAX,
        ensures
            *final(self) == (RegionHeader { l: l as u32, ..*old(self) }),
    {
        self.l = l as u32
    }
}

/// A header-tagged, resizable pixel buffer. `buf` is the physical storage and
/// only ever grows; `len` is the logical payload length, so the visible data
/// is always the first `len` bytes of `buf`. Reused across frames: shrinking
/// the logical length leaves the bytes beyond it untouched.
#[derive(Clone, Debug)]
pub struct Region {
    pub header: RegionHeader,
    pub buf: Vec<u8>,
    pub len: usize,
}

impl Default for Region {
    fn default() -> (r: Self)
        ensures
            r.wf(),
            r.header == (RegionHeader { x: 0, y: 0, w: 0, h: 0, l: 0 }),
            r.data_spec() == Seq::<u8>::empty(),
            r.cap_spec() == 0,
    {
        let r = Region { header: RegionHeader::default(), buf: Vec::new(), len: 0 };
        proof {
            assert(r.data_spec() =~= Seq::<u8>::empty());
        }
        r
    }
}

impl Region {
    /// Well-formed: the logical length is what the header declares and fits
    /// in the physical buffer.
    pub open spec fn wf(&self) -> bool {
        self.len == self.header.l && self.len <= self.buf@.len()
    }

    /// The visible payload: the first `len` bytes of the physical buffer.
    pub open spec fn data_spec(&self) -> Seq<u8> {
        self.buf@.take(self.len as int)
    }

    /// The physical storage size; grows on demand, never shrinks.
    pub open spec fn cap_spec(&self) -> int {
        self.buf@.len() as int
    }

    pub fn header(&self) -> (r: RegionHeader)
        ensures
            r == self.header,
    {
        self.header
    }

    pub fn header_mut(&mut self) -> (r: &mut RegionHeader)
        ensures
            *r == old(self).header,
            *final(self) == (Region { header: *final(r), ..*old(self) }),
    {
        &mut self.header
    }

    pub fn data(&self) -> (r: &[u8])
        requires
            self.wf(),
        ensures
            r@ == self.data_spec(),
    {
        vstd::slice::slice_subrange(self.buf.as_slice(), 0, self.len)
    }

    pub fn data_mut(&mut self) -> (r: &mut Vec<u8>)
        ensures
            *r == old(self).buf,
            *final(self) == (Region { buf: *final(r), ..*old(self) }),
    {
        &mut self.buf
    }

    /// Install a new header and bring the buffer to the declared payload
    /// length: storage grows (with zeroed bytes) when the payload is longer
    /// than anything seen before, and is left untouched otherwise.
    pub fn update(&mut self, header: RegionHeader)
        ensures
            region_updated(*final(self), *old(self), header),
    {
        self.header = header;
        let new_len = self.header.l();
        if self.buf.len() < new_len {
            self.buf.resize(new_len, 0u8);
            proof {
                assert(self.buf@ =~= old(self).buf@ + Seq::new(
                    (header.l - old(self).cap_spec()) as nat,
                    |i: int| 0u8,
                ));
            }
        }
        self.len = new_len;
    }

    /// Overwrite the region with one captured frame: geometry from the
    /// capture adapter, payload copied in whole. The declared length is the
    /// payload length, as the producer contract demands.
    #[verifier::loop_isolation(false)]
    pub fn fill(&mut self, x: u16, y: u16, w: u16, h: u16, src: &[u8])
        requires
            src@.len() <= u32::MAX,
        ensures
            final(self).wf(),
            final(self).header == (RegionHeader { x, y, w, h, l: src@.len() as u32 }),
            final(self).data_spec() == src@,
            final(self).cap_spec() == vstd::math::max(old(self).cap_spec(), src@.len() as int),
    {
        let header = RegionHeader { x, y, w, h, l: src.len() as u32 };
        self.update(header);
        let ghost cap = self.buf@.len();
        let n = src.len();
        let mut i: usize = 0;
        while i < n
            invariant
                i <= n,
                n <= self.buf@.len(),
                self.buf@.len() == cap,
                forall|j: int| 0 <= j < i ==> self.buf@[j] == src@[j],
                self.header == (RegionHeader { x, y, w, h, l: n as u32 }),
                self.len == n,
            decreases n - i,
        {
            let b = *vstd::slice::slice_index_get(src, i);
            *vstd::std_specs::vec::vec_index_mut(&mut self.buf, i) = b;
            i += 1;
        }
        proof {
            assert(self.data_spec() =~= src@);
        }
    }
}

} // verus!
