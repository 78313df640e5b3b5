use remdes::region::{Region, RegionHeader};

fn header_len(l: u32) -> RegionHeader {
    RegionHeader { x: 0, y: 0, w: 0, h: 0, l }
}

#[test]
fn fresh_region_is_empty() {
    let r = Region::default();
    assert_eq!(r.header(), header_len(0));
    assert_eq!(r.data(), &[] as &[u8]);
}

#[test]
fn update_grows_to_declared_length() {
    let mut r = Region::default();
    r.update(header_len(100));
    assert_eq!(r.data().len(), 100);
    assert!(r.data().iter().all(|b| *b == 0));
}

#[test]
fn shrinking_update_does_not_reallocate() {
    // growth is idempotent: bringing the region to length l1 and then to any
    // l2 <= l1 must reuse the same allocation and track l2 exactly
    let mut r = Region::default();
    r.update(header_len(100));
    let ptr = r.buf.as_ptr();
    let cap = r.buf.capacity();
    r.update(header_len(40));
    assert_eq!(r.data().len(), 40);
    assert_eq!(r.buf.as_ptr(), ptr);
    assert_eq!(r.buf.capacity(), cap);
    r.update(header_len(100));
    assert_eq!(r.data().len(), 100);
    assert_eq!(r.buf.as_ptr(), ptr);
    assert_eq!(r.buf.capacity(), cap);
}

#[test]
fn update_keeps_earlier_bytes() {
    let mut r = Region::default();
    let src = [9u8; 64];
    r.fill(0, 0, 4, 4, &src);
    r.update(header_len(16));
    assert_eq!(r.data(), &[9u8; 16]);
}

#[test]
fn fill_overwrites_header_and_payload() {
    let mut r = Region::default();
    let src = [7u8, 8, 9];
    r.fill(10, 20, 30, 40, &src);
    assert_eq!(r.header(), RegionHeader { x: 10, y: 20, w: 30, h: 40, l: 3 });
    assert_eq!(r.data(), &[7, 8, 9]);
}

#[test]
fn header_accessors_round_trip() {
    let mut h = RegionHeader::default();
    h.set_x(11);
    h.set_y(22);
    h.set_w(33);
    h.set_h(44);
    h.set_l(55);
    assert_eq!(h.x(), 11);
    assert_eq!(h.y(), 22);
    assert_eq!(h.w(), 33);
    assert_eq!(h.h(), 44);
    assert_eq!(h.l(), 55);
}

#[test]
fn header_mut_and_data_mut_expose_the_parts() {
    let mut r = Region::default();
    r.update(header_len(4));
    r.header_mut().set_x(5);
    assert_eq!(r.header().x, 5);
    r.data_mut()[0] = 42;
    assert_eq!(r.data()[0], 42);
}
