use lib::emulator::interrupts::{InterruptHandler, InterruptTypes};
use lib::emulator::timer::Timer;

#[test]
fn timer_div_counts_every_256_cycles() {
    let mut t = Timer::new();
    t.increment_by_cycles(255);
    assert_eq!(t.div, 0);
    t.increment_by_cycles(1);
    assert_eq!(t.div, 1);
    t.increment_by_cycles(512);
    assert_eq!(t.div, 3);
    t.write_byte(0xFF04, 0x55);
    assert_eq!(t.read_byte(0xFF04), 0);
    // Disabled timer: TIMA stays
    assert_eq!(t.tima, 0);
}

#[test]
fn timer_tima_periods_and_overflow() {
    let mut t = Timer::new();
    t.write_byte(0xFF07, 0b101); // enabled, 16 cycles
    assert!(t.enabled);
    assert_eq!(t.tima_step, 16);
    t.increment_by_cycles(40);
    assert_eq!(t.tima, 2);
    assert_eq!(t.tima_increment_counter, 8);
    t.write_byte(0xFF06, 0xF0);
    t.write_byte(0xFF05, 0xFF);
    t.increment_by_cycles(8);
    assert_eq!(t.tima, 0xF0);
    assert!(t.request_interrupt);
    t.write_byte(0xFF07, 0b100);
    assert_eq!(t.tima_step, 1024);
    t.write_byte(0xFF07, 0b110);
    assert_eq!(t.tima_step, 64);
    t.write_byte(0xFF07, 0b111);
    assert_eq!(t.tima_step, 256);
    assert_eq!(t.read_byte(0xFF07), 0b111);
    assert_eq!(t.read_byte(0xFF06), 0xF0);
}

#[test]
fn interrupt_priority_and_clearing() {
    let mut h = InterruptHandler::new();
    assert!(!h.is_interrupt_pending());
    h.trigger_interrupt(InterruptTypes::Timer);
    h.trigger_interrupt(InterruptTypes::Joypad);
    assert_eq!(h.interrupt_flag, 0b1_0100);
    h.interrupt_enable = 0x1F;
    assert_eq!(h.get_combined_interrupt_flag(), 0b1_0100);
    assert_eq!(h.get_highest_priority_interrupt(), InterruptTypes::Timer);
    h.clear_interrupt(InterruptTypes::Timer);
    assert_eq!(h.get_highest_priority_interrupt(), InterruptTypes::Joypad);
    // Trigger then clear restores IF
    let before = h.interrupt_flag;
    h.trigger_interrupt(InterruptTypes::Stat);
    h.clear_interrupt(InterruptTypes::Stat);
    assert_eq!(h.interrupt_flag, before);
    // Pending needs IME
    assert!(!h.is_interrupt_pending());
    h.request_ei();
    h.update_ime();
    assert!(h.interrupt_master_enable);
    assert!(h.is_interrupt_pending());
    h.request_di();
    h.update_ime();
    assert!(!h.interrupt_master_enable);
}

#[test]
fn timer_steps_add_up() {
    let mut a = Timer::new();
    let mut b = Timer::new();
    a.write_byte(0xFF07, 0b101);
    b.write_byte(0xFF07, 0b101);
    a.write_byte(0xFF06, 0xF0);
    b.write_byte(0xFF06, 0xF0);
    a.increment_by_cycles(3000);
    a.increment_by_cycles(5000);
    b.increment_by_cycles(8000);
    assert_eq!((a.div, a.tima, a.request_interrupt), (b.div, b.tima, b.request_interrupt));
    assert_eq!(a.div, (8000 / 256) as u8);
}
