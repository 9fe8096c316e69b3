//! Timing of the Ws2812 LED driver that runs on a PIO state machine.
//!
//! Each bit is sent in [CYCLES_PER_BIT] PIO cycles (a start part, a data part and a stop
//! part), so the state machine's clock is divided down from the system clock to
//! `WS2812_FREQ * CYCLES_PER_BIT`.

use vstd::prelude::*;

verus! {

/// PIO cycles of the start part of a bit.
pub const T1: u8 = 2;

/// PIO cycles of the data part of a bit.
pub const T2: u8 = 5;

/// PIO cycles of the stop part of a bit.
pub const T3: u8 = 3;

/// PIO cycles per bit.
pub const CYCLES_PER_BIT: u32 = 10;

/// The system clock frequency.
pub const CLOCK_FREQ: u32 = 125_000_000;

/// The bit rate of the Ws2812 protocol.
pub const WS2812_FREQ: u32 = 800_000;

/// The integer part of the divider: `clock_freq / bit_freq`, where 65536 is written as 0.
pub open spec fn divider_int(clock_freq: u32, bit_freq: u32) -> int {
    let q = clock_freq / bit_freq;
    if q == 65536 {
        0
    } else {
        q as int
    }
}

/// The fractional part of the divider, in 256ths, rounded down.
pub open spec fn divider_frac(clock_freq: u32, bit_freq: u32) -> int {
    ((clock_freq % bit_freq) * 256) / (bit_freq as int)
}

/// The bits of the PIO clock divider (16.8 fixed point) that makes the state machine run at
/// `ws2812_freq * cycles_per_bit` from a `clock_freq` system clock. As the hardware does,
/// a divider of 65536 is written as 0; the integer part is truncated to the register's width.
pub fn clock_divider_bits(clock_freq: u32, ws2812_freq: u32, cycles_per_bit: u32) -> (bits: u32)
    requires
        0 < ws2812_freq * cycles_per_bit <= 0x1000000,
    ensures
        bits == ((divider_int(clock_freq, (ws2812_freq * cycles_per_bit) as u32) * 256) % 0x100000000)
            + divider_frac(clock_freq, (ws2812_freq * cycles_per_bit) as u32),
{
    let bit_freq = ws2812_freq * cycles_per_bit;
    let mut whole = clock_freq / bit_freq;
    assert(whole * bit_freq <= clock_freq) by (nonlinear_arith)
        requires
            bit_freq > 0,
            whole == clock_freq / bit_freq,
    ;
    let rem = clock_freq - (whole * bit_freq);
    assert(rem == clock_freq % bit_freq) by (nonlinear_arith)
        requires
            bit_freq > 0,
            whole == clock_freq / bit_freq,
            rem == clock_freq - whole * bit_freq,
    ;
    assert(rem * 256 < 0x100000000) by (nonlinear_arith)
        requires
            rem < bit_freq,
            bit_freq <= 0x1000000,
    ;
    let frac = (rem * 256) / bit_freq;
    assert(frac < 256) by (nonlinear_arith)
        requires
            rem < bit_freq,
            frac == (rem * 256) / (bit_freq as int),
            bit_freq > 0,
    ;
    // 65536.0 is represented as 0 in the pio's clock divider
    if whole == 65536 {
        whole = 0;
    }
    let bits = (whole << 8) | frac;
    assert((whole << 8) | frac == ((whole as int * 256) % 0x100000000) + frac) by (bit_vector)
        requires
            frac < 256,
    ;
    bits
}

} // verus!
