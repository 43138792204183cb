//! Control over the Programmable Interrupt Controllers (PICs).

use vstd::prelude::*;

verus! {

/// Command port of the primary PIC.
pub const PRIMARY_CMD: u16 = 0x20;
/// Data port of the primary PIC.
pub const PRIMARY_DATA: u16 = 0x21;
/// Command port of the secondary PIC.
pub const SECONDARY_CMD: u16 = 0xA0;
/// Data port of the secondary PIC.
pub const SECONDARY_DATA: u16 = 0xA1;

/// The End of Interrupt command.
pub const EOI: u8 = 0x20;

/// The writes that initialize the PICs: start initialization with ICW4 present, vector offsets
/// 32 and 40, secondary cascaded on IRQ line 2, 8086 mode, and no interrupt masked.
pub open spec fn init_writes() -> Seq<(u16, u8)> {
    seq![
        (0x20u16, 0x11u8),
        (0xA0u16, 0x11u8),
        (0x21u16, 0x20u8),
        (0xA1u16, 0x28u8),
        (0x21u16, 0x04u8),
        (0xA1u16, 0x02u8),
        (0x21u16, 0x01u8),
        (0xA1u16, 0x01u8),
        (0x21u16, 0x00u8),
        (0xA1u16, 0x00u8),
    ]
}

/// Initializes the PICs and configures their IRQs to trigger interrupt vectors 32-47.
pub fn init() -> (r: Vec<(u16, u8)>)
    ensures
        r@ == init_writes(),
{
    let mut w: Vec<(u16, u8)> = Vec::new();
    // Start initialization sequence, indicating ICW4 will be present.
    w.push((PRIMARY_CMD, 0x11));
    w.push((SECONDARY_CMD, 0x11));
    // Vector offset for each PIC.
    w.push((PRIMARY_DATA, 0x20));
    w.push((SECONDARY_DATA, 0x28));
    // Configure secondary PIC cascade on IRQ pin 2.
    w.push((PRIMARY_DATA, 0x04));
    w.push((SECONDARY_DATA, 0x02));
    // Configure 8086 mode.
    w.push((PRIMARY_DATA, 0x01));
    w.push((SECONDARY_DATA, 0x01));
    // Clear interrupt masks.
    w.push((PRIMARY_DATA, 0x00));
    w.push((SECONDARY_DATA, 0x00));
    assert(w@ =~= init_writes());
    w
}

/// Disables both PICs by masking all interrupts.
pub fn disable() -> (r: Vec<(u16, u8)>)
    ensures
        r@ == seq![(0x21u16, 0xffu8), (0xA1u16, 0xffu8)],
{
    let mut w: Vec<(u16, u8)> = Vec::new();
    w.push((PRIMARY_DATA, 0xff));
    w.push((SECONDARY_DATA, 0xff));
    assert(w@ =~= seq![(0x21u16, 0xffu8), (0xA1u16, 0xffu8)]);
    w
}

/// The End of Interrupt writes for `irq`: to the secondary PIC first when the line belongs to
/// it (lines 8 and up), and always to the primary PIC.
pub open spec fn eoi_writes(irq: u8) -> Seq<(u16, u8)> {
    if irq > 7 {
        seq![(0xA0u16, 0x20u8), (0x20u16, 0x20u8)]
    } else {
        seq![(0x20u16, 0x20u8)]
    }
}

/// Sends an End of Interrupt command either to just the primary PIC, or to both PICs, depending
/// on the IRQ number provided. This must be done at the end of all interrupt handler functions
/// in order to re-enable interrupts.
pub fn end_of_interrupt(irq: u8) -> (r: Vec<(u16, u8)>)
    ensures
        r@ == eoi_writes(irq),
{
    let mut w: Vec<(u16, u8)> = Vec::new();
    if irq > 7 {
        w.push((SECONDARY_CMD, EOI));
    }
    w.push((PRIMARY_CMD, EOI));
    assert(w@ =~= eoi_writes(irq));
    w
}

/// The primary PIC always receives the End of Interrupt, as the last write, and the secondary
/// receives it exactly for the lines it serves.
pub proof fn lemma_eoi_reaches_primary(irq: u8)
    ensures
        eoi_writes(irq).last() == (0x20u16, 0x20u8),
        eoi_writes(irq).contains((0xA0u16, 0x20u8)) == (irq >= 8),
{
    if irq <= 7 {
        assert(!eoi_writes(irq).contains((0xA0u16, 0x20u8))) by {
            if eoi_writes(irq).contains((0xA0u16, 0x20u8)) {
                let i = choose|i: int| 0 <= i < eoi_writes(irq).len() && eoi_writes(irq)[i] == (
                0xA0u16, 0x20u8);
                assert(i == 0);
            }
        }
    } else {
        assert(eoi_writes(irq)[0] == (0xA0u16, 0x20u8));
    }
}

} // verus!
