use nearby_transfer::wire::be_to_u16;
use nearby_transfer::wire::be_to_u64;
use nearby_transfer::wire::u16_to_be;
use nearby_transfer::wire::u64_to_be;

#[test]
fn u16_known_values() {
    assert_eq!(u16_to_be(0), vec![0, 0]);
    assert_eq!(u16_to_be(1), vec![0, 1]);
    assert_eq!(u16_to_be(0x1234), vec![0x12, 0x34]);
    assert_eq!(u16_to_be(65535), vec![0xff, 0xff]);
}

#[test]
fn u16_round_trip() {
    for v in [0u16, 1, 255, 256, 4096, 65534, 65535] {
        let b = u16_to_be(v);
        assert_eq!(be_to_u16(&b), v);
    }
}

#[test]
fn u64_known_values() {
    assert_eq!(u64_to_be(0), vec![0; 8]);
    assert_eq!(u64_to_be(1), vec![0, 0, 0, 0, 0, 0, 0, 1]);
    assert_eq!(
        u64_to_be(10485760),
        vec![0x00, 0x00, 0x00, 0x00, 0x00, 0xa0, 0x00, 0x00]
    );
    assert_eq!(u64_to_be(u64::MAX), vec![0xff; 8]);
}

#[test]
fn u64_round_trip() {
    for v in [0u64, 1, 255, 256, 65536, 10485760, u64::MAX - 1, u64::MAX] {
        let b = u64_to_be(v);
        assert_eq!(be_to_u64(&b), v);
    }
}
