//! Register words of the serial audio peripheral, built field by field.

use vstd::prelude::*;

verus! {

/// CTRLA: top-level enable.
pub const CTRLA_ENABLE: u32 = 1 << 1;

/// CTRLA: clock unit 0 enable.
pub const CTRLA_CKEN0: u32 = 1 << 2;

/// CTRLA: serializer 0 enable.
pub const CTRLA_SEREN0: u32 = 1 << 4;

/// CLKCTRL: 32-bit slots (bits 0..=1).
pub const CLKCTRL_SLOTSIZE_32: u32 = 3;

/// CLKCTRL: offset of the slot count minus one (bits 2..=4).
pub const CLKCTRL_NBSLOTS_SHIFT: u32 = 2;

/// CLKCTRL: data starts one bit after frame sync, standard I2S framing (bit 7).
pub const CLKCTRL_BITDELAY_I2S: u32 = 1 << 7;

/// CLKCTRL: frame sync derived from the serial clock divider (bit 8 clear).
pub const CLKCTRL_FSSEL_SCKDIV: u32 = 0;

/// CLKCTRL: serial clock taken from the master clock divider (bit 12 clear).
pub const CLKCTRL_SCKSEL_MCKDIV: u32 = 0;

/// CLKCTRL: master clock taken from the generic clock (bit 16 clear).
pub const CLKCTRL_MCKSEL_GCLK: u32 = 0;

/// SERCTRL: transmit mode (bits 0..=1).
pub const SERCTRL_SERMODE_TX: u32 = 1;

/// SERCTRL: clock unit 0 (bit 5 clear).
pub const SERCTRL_CLKSEL_CLK0: u32 = 0;

/// SERCTRL: data right-justified in its slot (bit 7 clear).
pub const SERCTRL_SLOTADJ_RIGHT: u32 = 0;

/// SERCTRL: 32-bit data words (bits 8..=10 clear).
pub const SERCTRL_DATASIZE_32: u32 = 0;

/// SERCTRL: data right-justified in its word (bit 12 clear).
pub const SERCTRL_WORDADJ_RIGHT: u32 = 0;

/// SERCTRL: unused bits filled with zeros (bits 13..=14 clear).
pub const SERCTRL_EXTEND_ZERO: u32 = 0;

/// SERCTRL: most significant bit first (bit 15 clear).
pub const SERCTRL_BITREV_MSBIT: u32 = 0;

/// SERCTRL: stereo (bit 24 clear).
pub const SERCTRL_MONO_STEREO: u32 = 0;

/// SERCTRL: one DMA channel for all slots (bit 25 clear).
pub const SERCTRL_DMA_SINGLE: u32 = 0;

/// The bits of `word` from `offset` on, under `mask`.
pub open spec fn field(word: u32, offset: u32, mask: u32) -> u32 {
    (word >> offset) & mask
}

/// CTRLA with the top-level, clock unit 0 and serializer 0 enables all set to
/// `on`, and every other bit clear.
pub open spec fn control_value(on: bool) -> u32 {
    if on {
        CTRLA_ENABLE | CTRLA_CKEN0 | CTRLA_SEREN0
    } else {
        0
    }
}

/// CLKCTRL for `slots` slots of 32 bits per frame, I2S bit delay, clocks
/// taken from the generic clock through the dividers.
pub open spec fn clock_unit_value(slots: u8) -> u32 {
    CLKCTRL_MCKSEL_GCLK | CLKCTRL_SCKSEL_MCKDIV | CLKCTRL_FSSEL_SCKDIV | CLKCTRL_BITDELAY_I2S | (((
    slots - 1) as u32) << CLKCTRL_NBSLOTS_SHIFT) | CLKCTRL_SLOTSIZE_32
}

/// SERCTRL for stereo 32-bit transmit on clock unit 0: single DMA channel,
/// MSB first, zero fill, right justified.
pub open spec fn serializer_value() -> u32 {
    SERCTRL_DMA_SINGLE | SERCTRL_MONO_STEREO | SERCTRL_BITREV_MSBIT | SERCTRL_EXTEND_ZERO
        | SERCTRL_WORDADJ_RIGHT | SERCTRL_DATASIZE_32 | SERCTRL_SLOTADJ_RIGHT | SERCTRL_CLKSEL_CLK0
        | SERCTRL_SERMODE_TX
}

/// The CTRLA word that sets the three enables to `on` together.
pub fn control_word(on: bool) -> (r: u32)
    ensures
        r == control_value(on),
        field(r, 1, 1) == on as u32,
        field(r, 2, 1) == on as u32,
        field(r, 4, 1) == on as u32,
        r & !(CTRLA_ENABLE | CTRLA_CKEN0 | CTRLA_SEREN0) == 0,
{
    let r: u32 = if on {
        CTRLA_ENABLE | CTRLA_CKEN0 | CTRLA_SEREN0
    } else {
        0
    };
    assert(r == 22 || r == 0) by (bit_vector)
        requires
            r == (if on { (1u32 << 1u32) | (1u32 << 2u32) | (1u32 << 4u32) } else { 0u32 }),
    ;
    assert((22u32 >> 1u32) & 1u32 == 1u32 && (22u32 >> 2u32) & 1u32 == 1u32 && (22u32 >> 4u32)
        & 1u32 == 1u32 && 22u32 & !22u32 == 0u32 && (0u32 >> 1u32) & 1u32 == 0u32 && (0u32 >> 2u32)
        & 1u32 == 0u32 && (0u32 >> 4u32) & 1u32 == 0u32 && 0u32 & !22u32 == 0u32) by (bit_vector);
    assert((1u32 << 1u32) | (1u32 << 2u32) | (1u32 << 4u32) == 22u32) by (bit_vector);
    r
}

/// The CLKCTRL word for frames of `slots` 32-bit slots.
pub fn clock_unit_word(slots: u8) -> (r: u32)
    requires
        1 <= slots <= 8,
    ensures
        r == clock_unit_value(slots),
        field(r, 0, 3) == 3,
        field(r, 2, 7) == slots - 1,
        field(r, 5, 3) == 0,
        field(r, 7, 1) == 1,
        field(r, 8, 1) == 0,
        field(r, 12, 1) == 0,
        field(r, 16, 1) == 0,
        r >> 8 == 0,
{
    let n: u32 = (slots - 1) as u32;
    let r: u32 = CLKCTRL_MCKSEL_GCLK | CLKCTRL_SCKSEL_MCKDIV | CLKCTRL_FSSEL_SCKDIV
        | CLKCTRL_BITDELAY_I2S | (n << CLKCTRL_NBSLOTS_SHIFT) | CLKCTRL_SLOTSIZE_32;
    assert(field(r, 0, 3) == 3 && field(r, 2, 7) == n && field(r, 5, 3) == 0 && field(r, 7, 1) == 1
        && field(r, 8, 1) == 0 && field(r, 12, 1) == 0 && field(r, 16, 1) == 0 && r >> 8 == 0)
        by (bit_vector)
        requires
            n < 8,
            r == 0u32 | 0u32 | 0u32 | (1u32 << 7u32) | (n << 2u32) | 3u32,
    ;
    r
}

/// The SERCTRL word: transmit mode, every other field zero.
pub fn serializer_word() -> (r: u32)
    ensures
        r == serializer_value(),
        field(r, 0, 3) == 1,
        r >> 2 == 0,
{
    let r: u32 = SERCTRL_DMA_SINGLE | SERCTRL_MONO_STEREO | SERCTRL_BITREV_MSBIT
        | SERCTRL_EXTEND_ZERO | SERCTRL_WORDADJ_RIGHT | SERCTRL_DATASIZE_32
        | SERCTRL_SLOTADJ_RIGHT | SERCTRL_CLKSEL_CLK0 | SERCTRL_SERMODE_TX;
    assert(field(r, 0, 3) == 1 && r >> 2 == 0) by (bit_vector)
        requires
            r == 0u32 | 0u32 | 0u32 | 0u32 | 0u32 | 0u32 | 0u32 | 0u32 | 1u32,
    ;
    r
}

} // verus!
