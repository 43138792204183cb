use x86_kernel::arch::x86::chipset::{pic, pit};
use x86_kernel::arch::x86::start::timer_handler;
use x86_kernel::x86::port::{PortU16, PortU32, PortU8};

#[test]
fn pic_init_sequence() {
    assert_eq!(
        pic::init(),
        vec![
            (0x20, 0x11),
            (0xA0, 0x11),
            (0x21, 0x20),
            (0xA1, 0x28),
            (0x21, 0x04),
            (0xA1, 0x02),
            (0x21, 0x01),
            (0xA1, 0x01),
            (0x21, 0x00),
            (0xA1, 0x00),
        ]
    );
}

#[test]
fn pic_disable_masks_everything() {
    assert_eq!(pic::disable(), vec![(0x21, 0xff), (0xA1, 0xff)]);
}

#[test]
fn end_of_interrupt_targets() {
    assert_eq!(pic::end_of_interrupt(0), vec![(0x20, 0x20)]);
    assert_eq!(pic::end_of_interrupt(7), vec![(0x20, 0x20)]);
    assert_eq!(pic::end_of_interrupt(8), vec![(0xA0, 0x20), (0x20, 0x20)]);
    assert_eq!(pic::end_of_interrupt(15), vec![(0xA0, 0x20), (0x20, 0x20)]);
}

#[test]
fn pit_rates() {
    // 1000 Hz: 1193182 / 1000 = 1193 = 0x04a9.
    assert_eq!(pit::set_rate(1000), vec![(0x43, 0x36), (0x40, 0xa9), (0x40, 0x04)]);
    // The slowest rates are capped at the largest 16-bit divider.
    assert_eq!(pit::set_rate(1), vec![(0x43, 0x36), (0x40, 0xff), (0x40, 0xff)]);
    assert_eq!(pit::set_rate(18), vec![(0x43, 0x36), (0x40, 0xff), (0x40, 0xff)]);
    // 19 Hz: 62799 = 0xf54f.
    assert_eq!(pit::set_rate(19), vec![(0x43, 0x36), (0x40, 0x4f), (0x40, 0xf5)]);
    // The fastest rate divides by one.
    assert_eq!(pit::set_rate(pit::OSC_HZ), vec![(0x43, 0x36), (0x40, 0x01), (0x40, 0x00)]);
}

#[test]
fn timer_logs_once_per_thousand_ticks() {
    let mut counter = 0usize;
    let mut logs = 0;
    for i in 1..=3000 {
        if timer_handler(&mut counter) {
            logs += 1;
            assert_eq!(i % 1000, 0);
        }
        assert_eq!(counter, i % 1000);
    }
    assert_eq!(logs, 3);
}

#[test]
fn ports_keep_their_numbers() {
    assert_eq!(PortU8::new(0x3d4).port(), 0x3d4);
    assert_eq!(PortU16::new(0x1f0).port(), 0x1f0);
    assert_eq!(PortU32::new(0xcf8).port(), 0xcf8);
}
