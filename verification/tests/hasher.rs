use ttmap::UniqueHasher;
use ttmap::UniqueHasherBuilder;

#[test]
fn hasher_identity_single_write() {
    let mut h = UniqueHasher::new();
    h.write_u64(0xDEAD_BEEF_CAFE_F00D);
    assert_eq!(h.finish(), 0xDEAD_BEEF_CAFE_F00D);
}

#[test]
fn hasher_builder_hands_out_fresh_state() {
    let builder = UniqueHasherBuilder;
    let h = builder.build_hasher();
    assert_eq!(h.finish(), 0);
}

#[test]
fn hasher_accumulates_every_write_path() {
    let mut h = UniqueHasher::new();
    h.write_u8(1);
    h.write_u16(2);
    h.write_u32(3);
    h.write_usize(4);
    assert_eq!(h.finish(), 10);
    h.add(u64::MAX);
    assert_eq!(h.finish(), 9);
}

#[test]
fn hasher_folds_byte_streams() {
    let mut h = UniqueHasher::new();
    h.write(&[1u8, 2, 3]);
    assert_eq!(h.finish(), 6);
    h.write(&[]);
    assert_eq!(h.finish(), 6);
}
