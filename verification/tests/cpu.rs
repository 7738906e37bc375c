use lib::minimal::emulator::Emulator;
use lib::minimal::memory::Memory;

fn load_program(em: &mut Emulator, program: &[u8]) {
    for (i, b) in program.iter().enumerate() {
        em.memory.write_byte(0xC000 + i as u16, *b);
    }
    em.cpu.regs.pc = 0xC000;
}

#[test]
fn add_then_daa() {
    let mut em = Emulator::new();
    // LD A, 0x15; ADD A, 0x27; DAA
    load_program(&mut em, &[0x3E, 0x15, 0xC6, 0x27, 0x27]);
    em.step();
    assert_eq!(em.cpu.regs.a, 0x15);
    em.step();
    assert_eq!(em.cpu.regs.a, 0x3C);
    assert_eq!(em.cpu.regs.f, 0x00); // 5 + 7 has no half carry
    em.step();
    assert_eq!(em.cpu.regs.a, 0x42); // 15 + 27 = 42 in BCD
    assert_eq!(em.cpu.regs.f, 0x00);
    assert_eq!(em.cpu.regs.pc, 0xC005);
}

#[test]
fn dec_sets_zero_and_subtract() {
    let mut em = Emulator::new();
    // LD B, 1; DEC B
    load_program(&mut em, &[0x06, 0x01, 0x05]);
    em.step();
    em.step();
    assert_eq!(em.cpu.regs.b, 0);
    assert_eq!(em.cpu.regs.f, 0xC0);
}

#[test]
fn relative_jump_and_xor() {
    let mut em = Emulator::new();
    // LD A, 5; JR +1; INC A (skipped); XOR A
    load_program(&mut em, &[0x3E, 0x05, 0x18, 0x01, 0x3C, 0xAF]);
    em.step();
    em.step();
    assert_eq!(em.cpu.regs.pc, 0xC005);
    em.step();
    assert_eq!(em.cpu.regs.a, 0);
    assert_eq!(em.cpu.regs.f, 0x80);
}

#[test]
fn push_pop_moves_register_pairs() {
    let mut em = Emulator::new();
    // LD BC, 0x1234; PUSH BC; POP DE
    load_program(&mut em, &[0x01, 0x34, 0x12, 0xC5, 0xD1]);
    em.step();
    assert_eq!(em.cpu.regs.get_bc(), 0x1234);
    em.step();
    assert_eq!(em.cpu.regs.sp, 0xFFFC);
    assert_eq!(em.memory.read_word(0xFFFC), 0x1234);
    em.step();
    assert_eq!(em.cpu.regs.get_de(), 0x1234);
    assert_eq!(em.cpu.regs.sp, 0xFFFE);
}

#[test]
fn call_and_return() {
    let mut em = Emulator::new();
    // CALL 0xC010 ... at 0xC010: LD A, 7; RET
    load_program(&mut em, &[0xCD, 0x10, 0xC0]);
    em.memory.write_byte(0xC010, 0x3E);
    em.memory.write_byte(0xC011, 0x07);
    em.memory.write_byte(0xC012, 0xC9);
    em.step();
    assert_eq!(em.cpu.regs.pc, 0xC010);
    em.step();
    em.step();
    assert_eq!(em.cpu.regs.a, 7);
    assert_eq!(em.cpu.regs.pc, 0xC003);
}

#[test]
fn cb_prefixed_swap_and_bit() {
    let mut em = Emulator::new();
    // LD A, 0xF1; SWAP A; BIT 7, A
    load_program(&mut em, &[0x3E, 0xF1, 0xCB, 0x37, 0xCB, 0x7F]);
    em.step();
    em.step();
    assert_eq!(em.cpu.regs.a, 0x1F);
    em.step();
    // bit 7 of 0x1F is clear: Z set, H set
    assert_eq!(em.cpu.regs.f & 0xE0, 0xA0);
}

#[test]
fn minimal_memory_map() {
    let mut mem = Memory::new();
    mem.write_byte(0xC123, 0x5A);
    assert_eq!(mem.read_byte(0xE123), 0x5A);
    mem.write_byte(0xFF80, 3);
    assert_eq!(mem.read_byte(0xFF80), 3);
    mem.write_word(0xD000, 0xBEEF);
    assert_eq!(mem.read_word(0xD000), 0xBEEF);
    mem.write_byte(0xFF01, b'Z');
    mem.write_byte(0xFF02, 0x81);
    assert_eq!(mem.serial_buffer, vec![b'Z']);
}

#[test]
fn ei_and_di_set_the_master_enable() {
    let mut em = Emulator::new();
    em.memory.interrupt_flag = 5;
    // EI; DI
    load_program(&mut em, &[0xFB, 0xF3]);
    em.step();
    assert!(em.memory.interrupt_master_enable);
    assert_eq!(em.memory.interrupt_flag, 5);
    em.step();
    assert!(!em.memory.interrupt_master_enable);
    assert_eq!(em.memory.interrupt_flag, 5);
}
