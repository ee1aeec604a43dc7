use locker::remutex::counter::{Scalar, SubWord};

#[test]
fn sub_word_round_trip() {
    for word in [0usize, 1, 255, 256, 0x1234_5678_9abc, (1 << 56) - 1] {
        assert!(SubWord::is_in_bounds(word));
        assert_eq!(SubWord::from_usize_unchecked(word).to_usize(), word);
    }
    assert!(!SubWord::is_in_bounds(1 << 56));
    assert_eq!(SubWord::from_usize_unchecked(0x0102).0, [2, 1, 0, 0, 0, 0, 0]);
    assert_eq!(SubWord::zero().to_usize(), 0);
}

#[test]
fn small_counters_round_trip() {
    assert!(u8::is_in_bounds(255));
    assert!(!u8::is_in_bounds(256));
    assert_eq!(u8::from_usize_unchecked(200).to_usize(), 200);
    assert!(!u16::is_in_bounds(1 << 16));
    assert_eq!(u16::from_usize_unchecked(65535).to_usize(), 65535);
    assert_eq!(u32::from_usize_unchecked(70000).to_usize(), 70000);
}
