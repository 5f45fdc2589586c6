use i2s_audio::clock::{clock_divisor, DFLL48M_HZ};
use i2s_audio::regs::{clock_unit_word, control_word, serializer_word};

#[test]
fn reference_divisor_is_seventeen() {
    assert_eq!(clock_divisor(48_000_000, 44_100, 32, 2), Some(17));
    assert_eq!(clock_divisor(DFLL48M_HZ, 44_100, 32, 2), Some(17));
    // 48 MHz / 17 lies within half a step of the 2,822,400 Hz bit clock.
    let bclk: i64 = 44_100 * 32 * 2;
    let err: i64 = 48_000_000 - 17 * bclk;
    assert!(2 * err.abs() <= bclk);
}

#[test]
fn divisor_is_exact_where_it_can_be() {
    assert_eq!(clock_divisor(48_000_000, 46_875, 32, 2), Some(16));
    assert_eq!(clock_divisor(1_000, 10, 10, 1), Some(10));
}

#[test]
fn divisor_rounds_to_nearest() {
    assert_eq!(clock_divisor(100, 1, 1, 30), Some(3));
    assert_eq!(clock_divisor(110, 1, 1, 30), Some(4));
    assert_eq!(clock_divisor(45, 1, 1, 10), Some(5));
    assert_eq!(clock_divisor(44, 1, 1, 10), Some(4));
}

#[test]
fn divisor_out_of_range_is_none() {
    assert_eq!(clock_divisor(48_000_000, 0, 32, 2), None);
    assert_eq!(clock_divisor(48_000_000, 44_100, 0, 2), None);
    assert_eq!(clock_divisor(48_000_000, 44_100, 32, 0), None);
    assert_eq!(clock_divisor(10, 1_000, 32, 2), None);
    assert_eq!(clock_divisor(u32::MAX, 1, 1, 1), None);
    assert_eq!(clock_divisor(65_535, 1, 1, 1), Some(65_535));
    assert_eq!(clock_divisor(u32::MAX, u32::MAX, u32::MAX, u32::MAX), None);
}

#[test]
fn register_words() {
    assert_eq!(control_word(true), 0b1_0110);
    assert_eq!(control_word(false), 0);
    // 32-bit slots, two slots, I2S bit delay, everything else zero.
    assert_eq!(clock_unit_word(2), 3 | (1 << 2) | (1 << 7));
    assert_eq!(clock_unit_word(1), 3 | (1 << 7));
    assert_eq!(clock_unit_word(8), 3 | (7 << 2) | (1 << 7));
    assert_eq!(serializer_word(), 1);
}
