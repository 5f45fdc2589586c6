//! Generic clock generator settings for the serial audio peripheral.

use vstd::prelude::*;

verus! {

/// Oscillator that a generic clock generator divides down.
#[derive(Debug, Clone, Copy, PartialEq, Eq, Structural)]
pub enum Oscillator {
    /// The 48 MHz digital frequency-locked loop.
    Dfll48m,
}

/// Settings of one generic clock generator: which one, its integer divisor,
/// the oscillator it divides, and whether duty-cycle correction is on.
#[derive(Debug, Clone, Copy, PartialEq, Eq, Structural)]
pub struct ClockConfig {
    pub generator: u8,
    pub divisor: u16,
    pub source: Oscillator,
    pub improve_duty_cycle: bool,
}

/// Frequency of the 48 MHz oscillator, in Hz.
pub const DFLL48M_HZ: u32 = 48_000_000;

/// Serial bit clock that a frame format needs: one bit per slot bit, every
/// slot of every frame.
pub open spec fn bit_clock(sample_rate: int, slot_bits: int, slots: int) -> int {
    sample_rate * slot_bits * slots
}

/// The whole divisor nearest to `source / bclk`, halves rounded up.
pub open spec fn nearest_divisor(source: int, bclk: int) -> int {
    (2 * source + bclk) / (2 * bclk)
}

/// Divisor of a `source_hz` clock nearest to the bit clock of frames of
/// `slots` slots of `slot_bits` bits at `sample_rate` frames per second.
/// `None` where that bit clock is zero or the divisor falls outside 1..=65535.
/// The divided clock then lies within half a step of the bit clock.
pub fn clock_divisor(source_hz: u32, sample_rate: u32, slot_bits: u32, slots: u32) -> (r: Option<
    u16,
>)
    ensures
        ({
            let b = bit_clock(sample_rate as int, slot_bits as int, slots as int);
            let d = nearest_divisor(source_hz as int, b);
            &&& (b == 0 || d < 1 || d > 65535) <==> r is None
            &&& r is Some ==> r->Some_0 == d
            &&& r is Some ==> 2 * (source_hz - d * b) <= b && 2 * (d * b - source_hz) <= b
        }),
{
    let a: u128 = sample_rate as u128;
    let b1: u128 = slot_bits as u128;
    let c: u128 = slots as u128;
    assert(a * b1 < 0x1_0000_0000_0000_0000) by (nonlinear_arith)
        requires
            a < 0x1_0000_0000,
            b1 < 0x1_0000_0000,
    ;
    let ab: u128 = a * b1;
    assert(ab * c < 0x1_0000_0000_0000_0000_0000_0000) by (nonlinear_arith)
        requires
            ab < 0x1_0000_0000_0000_0000,
            c < 0x1_0000_0000,
    ;
    let b: u128 = ab * c;
    assert(b == bit_clock(sample_rate as int, slot_bits as int, slots as int)) by (nonlinear_arith)
        requires
            b == ab * c,
            ab == a * b1,
            a == sample_rate,
            b1 == slot_bits,
            c == slots,
    ;
    if b == 0 {
        return None;
    }
    let s: u128 = source_hz as u128;
    let d: u128 = (2 * s + b) / (2 * b);
    if d < 1 || d > 65535 {
        None
    } else {
        proof {
            let q = d as int;
            let bb = b as int;
            let ss = s as int;
            assert(2 * bb * q <= 2 * ss + bb < 2 * bb * q + 2 * bb) by (nonlinear_arith)
                requires
                    bb > 0,
                    q == (2 * ss + bb) / (2 * bb),
                    ss >= 0,
            ;
            assert(2 * (ss - q * bb) <= bb && 2 * (q * bb - ss) <= bb) by (nonlinear_arith)
                requires
                    2 * bb * q <= 2 * ss + bb < 2 * bb * q + 2 * bb,
            ;
        }
        Some(d as u16)
    }
}

} // verus!
