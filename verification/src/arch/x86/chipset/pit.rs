//! Control over the Programmable Interval Timer (PIT).

use vstd::prelude::*;

verus! {

/// Data port of timer channel 0.
pub const DATA: u16 = 0x40;
/// Mode/command port.
pub const CMD: u16 = 0x43;

/// The oscillator frequency of the timer in Hz.
pub const OSC_HZ: usize = 1_193_182;

/// The divider for rate `hz`: the oscillator frequency divided by the rate, at most 65535.
pub open spec fn divider(hz: usize) -> usize {
    if OSC_HZ / hz > 65535 {
        65535
    } else {
        OSC_HZ / hz
    }
}

/// The writes that set rate `hz`: square wave mode with a 16-bit count, then the divider's low
/// and high bytes.
pub open spec fn rate_writes(hz: usize) -> Seq<(u16, u8)> {
    seq![(0x43u16, 0x36u8), (0x40u16, divider(hz) as u8), (0x40u16, (divider(hz) >> 8usize) as u8)]
}

/// Sets the timer rate in Hz. The rate must be at least 1 and at most the oscillator frequency
/// of 1,193,182 Hz.
pub fn set_rate(hz: usize) -> (r: Vec<(u16, u8)>)
    requires
        1 <= hz <= OSC_HZ,
    ensures
        r@ == rate_writes(hz),
{
    let mut divider = OSC_HZ / hz;
    if divider > 65535 {
        divider = 65535;
    }
    let mut w: Vec<(u16, u8)> = Vec::new();
    // Set mode 3 (square wave) with 16-bit count.
    w.push((CMD, 0x36));
    // Write divider low and high bytes.
    w.push((DATA, divider as u8));
    w.push((DATA, (divider >> 8usize) as u8));
    assert(w@ =~= rate_writes(hz));
    w
}

/// The two data bytes written put the divider back together, the divider is never zero, and
/// unless it was capped it is the largest count whose period does not exceed the oscillator.
pub proof fn lemma_divider(hz: usize)
    requires
        1 <= hz <= OSC_HZ,
    ensures
        1 <= divider(hz) <= 65535,
        (divider(hz) as u8 as u16) | (((divider(hz) >> 8usize) as u8 as u16) << 8u16) == divider(
            hz,
        ),
        divider(hz) < 65535 ==> divider(hz) * hz <= OSC_HZ < (divider(hz) + 1) * hz,
{
    let d = divider(hz);
    assert(1 <= d) by {
        vstd::arithmetic::div_mod::lemma_div_is_ordered(hz as int, OSC_HZ as int, hz as int);
        vstd::arithmetic::div_mod::lemma_div_basics(hz as int);
    }
    assert(d <= 65535 ==> (d as u8 as u16) | (((d >> 8usize) as u8 as u16) << 8u16) == d)
        by (bit_vector);
    if d < 65535 {
        vstd::arithmetic::div_mod::lemma_fundamental_div_mod(OSC_HZ as int, hz as int);
        assert(d * hz <= OSC_HZ < (d + 1) * hz) by (nonlinear_arith)
            requires
                d == OSC_HZ / hz,
                hz >= 1,
                OSC_HZ == hz * (OSC_HZ / hz) + OSC_HZ % hz,
                0 <= OSC_HZ % hz < hz,
        ;
    }
}

} // verus!
