//! The 8-bit CPU of the Gameboy, a Sharp LR35902 (an 8080/Z80 derivative).
pub mod registers;

use vstd::prelude::*;
use crate::bytes::{word, high_byte, low_byte, lemma_byte_ops, lemma_low_nibble, lemma_end_bits, lemma_rotate_left_ops, lemma_shift_fill_ops, lemma_high_page, lemma_sign_extend, lemma_word_masks, lemma_relative_jump};
use crate::flags::{flag_z, flag_n, flag_h, flag_c, with_flags, lemma_flags_determine_byte, lemma_with_flags_reads, lemma_clear_zero};
use crate::minimal::memory::{Memory, MemoryView};
use crate::minimal::instructions::{machine, signed, rot_result, cycle_spec, execute_spec, execute_cb_spec, spec_add, spec_sub, spec_and, spec_xor, spec_or, spec_cp, spec_inc, spec_dec, spec_rot, spec_bit, spec_add_hl, spec_add_signed, spec_daa};
use crate::minimal::cpu::registers::Registers;

verus! {

/// The CPU: its register file.
pub struct CPU {
    pub regs: Registers,
}

impl CPU {
    /// All registers zero, the stack pointer at 0xFFFE.
    pub open spec fn initial_registers() -> Registers {
        Registers { a: 0, b: 0, c: 0, d: 0, e: 0, h: 0, l: 0, f: 0, pc: 0, sp: 0xFFFE }
    }

    pub fn new() -> (c: CPU)
        ensures
            c.regs == CPU::initial_registers(),
    {
        CPU { regs: Registers::new() }
    }

    /// Fetch the opcode at the program counter and execute it.
    pub fn cycle(&mut self, memory: &mut Memory)
        requires
            cycle_spec(machine(old(self).regs, old(memory)@)).ok,
        ensures
            machine(final(self).regs, final(memory)@) == cycle_spec(machine(old(self).regs, old(memory)@)),
    {
        let opcode = self.fetchbyte(memory);
        self.execute(opcode, memory);
    }

    /// Execute one instruction. The program counter points past the opcode.
    ///
    /// (X) is the byte at address X, d8/d16 the next immediate byte/word at the
    /// program counter, s8 the next immediate signed byte. HALT (0x76) and the
    /// unused opcodes are not implemented: the precondition leaves them out.
    pub fn execute(&mut self, opcode: u8, memory: &mut Memory)
        requires
            execute_spec(machine(old(self).regs, old(memory)@), opcode).ok,
        ensures
            machine(final(self).regs, final(memory)@) == execute_spec(machine(old(self).regs, old(memory)@), opcode),
    {
        if opcode < 0x20 {
            self.execute_opcodes_0(opcode, memory)
        } else if opcode < 0x40 {
            self.execute_opcodes_1(opcode, memory)
        } else if opcode < 0x60 {
            self.execute_opcodes_2(opcode, memory)
        } else if opcode < 0x80 {
            self.execute_opcodes_3(opcode, memory)
        } else if opcode < 0xA0 {
            self.execute_opcodes_4(opcode, memory)
        } else if opcode < 0xC0 {
            self.execute_opcodes_5(opcode, memory)
        } else if opcode < 0xE0 {
            self.execute_opcodes_6(opcode, memory)
        } else {
            self.execute_opcodes_7(opcode, memory)
        }
    }

    /// Opcodes 0x00 - 0x1F.
    #[verifier::rlimit(100)]
    #[verifier::spinoff_prover]
    fn execute_opcodes_0(&mut self, opcode: u8, memory: &mut Memory)
        requires
            0x00 <= opcode <= 0x1F,
            execute_spec(machine(old(self).regs, old(memory)@), opcode).ok,
        ensures
            machine(final(self).regs, final(memory)@) == execute_spec(machine(old(self).regs, old(memory)@), opcode),
    {
        match opcode {
            0x10 => {  } // HALT
            0x01 => { let v = self.fetchword(memory); self.regs.set_bc(v)} // LD BC d16
            0x11 => { let v = self.fetchword(memory); self.regs.set_de(v)} // LD DE d16
            0x02 => { memory.write_byte(self.regs.get_bc(), self.regs.a)} // LD (BC) A
            0x12 => { memory.write_byte(self.regs.get_de(), self.regs.a);} // LD (DE) A
            0x0A => { self.regs.a = memory.read_byte(self.regs.get_bc())} // LD A (BC)
            0x1A => { self.regs.a = memory.read_byte(self.regs.get_de())} // LD A (DE)
            0x06 => { self.regs.b = self.fetchbyte(memory)} // LD B d8
            0x16 => { self.regs.d = self.fetchbyte(memory)} // LD D d8
            0x0E => { self.regs.c = self.fetchbyte(memory)} // LD C d8
            0x1E => { self.regs.e = self.fetchbyte(memory)} // LD E d8
            0x03 => { let v = self.regs.get_bc().wrapping_add(1); self.regs.set_bc(v)} // INC BC
            0x13 => { let v = self.regs.get_de().wrapping_add(1); self.regs.set_de(v)} // INC DE
            0x0B => { let v = self.regs.get_bc().wrapping_sub(1); self.regs.set_bc(v)} // DEC BC
            0x1B => { let v = self.regs.get_de().wrapping_sub(1); self.regs.set_de(v)} // DEC DE
            0x09 => { let v = self.regs.get_bc(); self.op_addword(v);} // ADD HL BC
            0x19 => { let v = self.regs.get_de(); self.op_addword(v);} // ADD HL DE
            0x04 => {self.regs.b = self.op_inc(self.regs.b)} // INC B
            0x14 => {self.regs.d = self.op_inc(self.regs.d)} // INC D
            0x05 => { self.regs.b = self.op_dec(self.regs.b)} // DEC B
            0x15 => { self.regs.d = self.op_dec(self.regs.d)} // DEC D
            0x07 => { // RLCA
                self.regs.a = self.op_rlc(self.regs.a);
                proof { lemma_clear_zero(self.regs.f); }
                self.regs.set_zero_flag(false);
            }
            0x0F => { // RRCA
                self.regs.a = self.op_rrc(self.regs.a);
                proof { lemma_clear_zero(self.regs.f); }
                self.regs.set_zero_flag(false);
            }
            0x17 => { // RLA
                self.regs.a = self.op_rl(self.regs.a);
                proof { lemma_clear_zero(self.regs.f); }
                self.regs.set_zero_flag(false);
            }
            0x1F => { // RRA
                self.regs.a = self.op_rr(self.regs.a);
                proof { lemma_clear_zero(self.regs.f); }
                self.regs.set_zero_flag(false);
            }

            // Store stack pointer at address
            0x08 => { let a = self.fetchword(memory); memory.write_word(a, self.regs.sp)} // LD (a16), SP

            // Increment C, E, L, A
            0x0C => { self.regs.c = self.op_inc(self.regs.c)} // INC C
            0x1C => { self.regs.e = self.op_inc(self.regs.e)} // INC E
            0x0D => { self.regs.c = self.op_dec(self.regs.c)} // DEC C
            0x1D => { self.regs.e = self.op_dec(self.regs.e)} // DEC E
            0x18 => { self.op_jump_relative(memory)} // JR s8
            _ => {}
        }
    }

    /// Opcodes 0x20 - 0x3F.
    #[verifier::rlimit(100)]
    #[verifier::spinoff_prover]
    fn execute_opcodes_1(&mut self, opcode: u8, memory: &mut Memory)
        requires
            0x20 <= opcode <= 0x3F,
            execute_spec(machine(old(self).regs, old(memory)@), opcode).ok,
        ensures
            machine(final(self).regs, final(memory)@) == execute_spec(machine(old(self).regs, old(memory)@), opcode),
    {
        match opcode {
            0x21 => { let v = self.fetchword(memory); self.regs.set_hl(v)} // LD HL d16
            0x31 => { self.regs.sp = self.fetchword(memory)} // LD SP d16

            // LD (Wide) A
            0x22 => { memory.write_byte(self.regs.get_hl(), self.regs.a); 
                let v = self.regs.get_hl(); memory.write_byte(v, self.regs.a); self.regs.set_hl(v.wrapping_add(1));} // LD (HL+) A
            0x32 => { memory.write_byte(self.regs.get_hl(), self.regs.a);
                let v = self.regs.get_hl(); memory.write_byte(v, self.regs.a); self.regs.set_hl(v.wrapping_sub(1));} // LD (HL-) A

            // LD A (Wide)
            0x2A => { self.regs.a = memory.read_byte(self.regs.get_hl());
                let v = self.regs.get_hl(); self.regs.a = memory.read_byte(v); self.regs.set_hl(v.wrapping_add(1))} // LD A (HL+)
            0x3A => { self.regs.a = memory.read_byte(self.regs.get_hl());
                let v = self.regs.get_hl(); self.regs.a = memory.read_byte(v); self.regs.set_hl(v.wrapping_sub(1))} // LD A (HL-)

            // LD (HL) B,C,D,E,H,L
            0x26 => { self.regs.h = self.fetchbyte(memory)} // LD H d8
            0x36 => { let addr = self.regs.get_hl(); let v = self.fetchbyte(memory); memory.write_byte(addr, v)} // LD (HL) d8

            // LD C, E, L, A  d8
            0x2E => { self.regs.l = self.fetchbyte(memory)} // LD L d8
            0x3E => { self.regs.a = self.fetchbyte(memory)} // LD A d8 

            // Increment (Wide)
            0x23 => { let v = self.regs.get_hl().wrapping_add(1); self.regs.set_hl(v)} // INC HL
            0x33 => { self.regs.sp = self.regs.sp.wrapping_add(1);} // INC SP

            // Decrement (Wide)
            0x2B => { let v = self.regs.get_hl().wrapping_sub(1); self.regs.set_hl(v)} // DEC HL
            0x3B => { self.regs.sp = self.regs.sp.wrapping_sub(1);} // DEC SP

            // Add (Wide)
            0x29 => { let v = self.regs.get_hl(); self.op_addword(v);} // ADD HL HL
            0x39 => { let v = self.regs.sp; self.op_addword(v);} // ADD HL SP

            // Increment B, D, H
            0x24 => {self.regs.h = self.op_inc(self.regs.h)} // INC H
            0x34 => { let addr = self.regs.get_hl();
                let v = memory.read_byte(addr); let r = self.op_inc(v); memory.write_byte(addr, r)} // INC (HL)

            // Decrement B, D, H
            0x25 => { self.regs.h = self.op_dec(self.regs.h)} // DEC H
            0x35 => { let addr = self.regs.get_hl(); 
                let v = memory.read_byte(addr); let r = self.op_dec(v); memory.write_byte(addr, r)} // DEC (HL)

            // Set carry flag CF
            0x37 => { // SCF
                let ghost r0 = self.regs;
                self.regs.set_carry_flag(true); self.regs.set_halfcarry_flag(false); self.regs.set_subtract_flag(false);
                proof { lemma_flags_determine_byte(self.regs.f, r0.f, flag_z(r0.f), false, false, true); }
            }

            // Rotate
            0x2C => { self.regs.l = self.op_inc(self.regs.l)} // INC L
            0x3C => { self.regs.a = self.op_inc(self.regs.a)} // INC A

            // Decrement C, E, L, A
            0x2D => { self.regs.l = self.op_dec(self.regs.l)} // DEC L
            0x3D => { self.regs.a = self.op_dec(self.regs.a)} // DEC A

            // Complement A
            0x2F => { // CPL
                let ghost r0 = self.regs;
                proof { lemma_byte_ops(r0.a); }
                self.regs.a = !self.regs.a; self.regs.set_subtract_flag(true); self.regs.set_halfcarry_flag(true);
                proof { lemma_flags_determine_byte(self.regs.f, r0.f, flag_z(r0.f), true, true, flag_c(r0.f)); }
            }

            // Complement carry flag
            0x3F => {  // CCF
                let ghost r0 = self.regs;
                let c = self.regs.get_carry_flag(); self.regs.set_carry_flag(!c);
                self.regs.set_halfcarry_flag(false); self.regs.set_subtract_flag(false);
                proof { lemma_flags_determine_byte(self.regs.f, r0.f, flag_z(r0.f), false, false, !flag_c(r0.f)); }
            }

            // Load into B
            0x27 => { self.op_daa()} // DAA

            // Stack
            // Push
            0x20 => { if !self.regs.get_zero_flag() { self.op_jump_relative(memory); } else { self.regs.pc += 1; }}  // JR NZ s8
            0x30 => { if !self.regs.get_carry_flag() { self.op_jump_relative(memory); } else { self.regs.pc += 1; }}  // JR NC s8
            0x28 => { if self.regs.get_zero_flag() { self.op_jump_relative(memory); } else { self.regs.pc += 1; }}  // JR Z s8
            0x38 => { if self.regs.get_carry_flag() { self.op_jump_relative(memory); } else { self.regs.pc += 1; }}  // JR C s8

            // Absolute jumps
            _ => {}
        }
    }

    /// Opcodes 0x40 - 0x5F.
    #[verifier::rlimit(100)]
    #[verifier::spinoff_prover]
    fn execute_opcodes_2(&mut self, opcode: u8, memory: &mut Memory)
        requires
            0x40 <= opcode <= 0x5F,
            execute_spec(machine(old(self).regs, old(memory)@), opcode).ok,
        ensures
            machine(final(self).regs, final(memory)@) == execute_spec(machine(old(self).regs, old(memory)@), opcode),
    {
        match opcode {
            0x40 => { } // LD B B (NOP)
            0x41 => { self.regs.b = self.regs.c} // LD B C
            0x42 => { self.regs.b = self.regs.d} // LD B D
            0x43 => { self.regs.b = self.regs.e} // LD B E
            0x44 => { self.regs.b = self.regs.h} // LD B H
            0x45 => { self.regs.b = self.regs.l} // LD B L
            0x46 => {self.regs.b = memory.read_byte(self.regs.get_hl())} // LD B (HL)
            0x47 => { self.regs.b = self.regs.a} // LD B A

            // Load into C
            0x48 => { self.regs.c = self.regs.b} // LD C B
            0x49 => { } // LD C C (NOP)
            0x4A => { self.regs.c = self.regs.d} // LD C D
            0x4B => { self.regs.c = self.regs.e} // LD C E
            0x4C => { self.regs.c = self.regs.h} // LD C H
            0x4D => { self.regs.c = self.regs.l} // LD C L
            0x4E => {self.regs.c = memory.read_byte(self.regs.get_hl())} // LD C (HL)
            0x4F => { self.regs.c = self.regs.a} // LD C A

            // Load into D
            0x50 => { self.regs.d = self.regs.b} // LD D B
            0x51 => { self.regs.d = self.regs.c} // LD D C
            0x52 => { } // LD D D (NOOP)
            0x53 => { self.regs.d = self.regs.e} // LD D E
            0x54 => { self.regs.d = self.regs.h} // LD D H
            0x55 => { self.regs.d = self.regs.l} // LD D L
            0x56 => {self.regs.d = memory.read_byte(self.regs.get_hl())} // LD D (HL)
            0x57 => { self.regs.d = self.regs.a} // LD D A

            // Load into E
            0x58 => { self.regs.e = self.regs.b} // LD E B
            0x59 => { self.regs.e = self.regs.c} // LD E C
            0x5A => { self.regs.e = self.regs.d} // LD E D
            0x5B => { } // LD E E (NOP)
            0x5C => { self.regs.e = self.regs.h} // LD E H
            0x5D => { self.regs.e = self.regs.l} // LD E L
            0x5E => {self.regs.e = memory.read_byte(self.regs.get_hl())} // LD E (HL)
            0x5F => { self.regs.e = self.regs.a} // LD E A

            // Load into H
            _ => {}
        }
    }

    /// Opcodes 0x60 - 0x7F.
    #[verifier::rlimit(100)]
    #[verifier::spinoff_prover]
    fn execute_opcodes_3(&mut self, opcode: u8, memory: &mut Memory)
        requires
            0x60 <= opcode <= 0x7F,
            execute_spec(machine(old(self).regs, old(memory)@), opcode).ok,
        ensures
            machine(final(self).regs, final(memory)@) == execute_spec(machine(old(self).regs, old(memory)@), opcode),
    {
        match opcode {
            0x70 => {let addr = self.regs.get_hl(); memory.write_byte(addr, self.regs.b)} // LD (HL) B
            0x71 => {let addr = self.regs.get_hl(); memory.write_byte(addr, self.regs.c)} // LD (HL) C
            0x72 => {let addr = self.regs.get_hl(); memory.write_byte(addr, self.regs.d)} // LD (HL) D
            0x73 => {let addr = self.regs.get_hl(); memory.write_byte(addr, self.regs.e)} // LD (HL) E
            0x74 => {let addr = self.regs.get_hl(); memory.write_byte(addr, self.regs.h)} // LD (HL) H
            0x75 => {let addr = self.regs.get_hl(); memory.write_byte(addr, self.regs.l)} // LD (HL) L
            0x77 => {let addr = self.regs.get_hl(); memory.write_byte(addr, self.regs.a)} // LD (HL) A

            // LD B,D,H,(HL) d8
            0x60 => { self.regs.h = self.regs.b} // LD H B
            0x61 => { self.regs.h = self.regs.c} // LD H C
            0x62 => { self.regs.h = self.regs.d} // LD H D
            0x63 => { self.regs.h = self.regs.e} // LD H E
            0x64 => { } // LD H H (NOP)
            0x65 => { self.regs.h = self.regs.l} // LD H L
            0x66 => {self.regs.h = memory.read_byte(self.regs.get_hl())} // LD H (HL)
            0x67 => { self.regs.h = self.regs.a} // LD H A

            // Load into L
            0x68 => { self.regs.l = self.regs.b} // LD L B
            0x69 => { self.regs.l = self.regs.c} // LD L C
            0x6A => { self.regs.l = self.regs.d} // LD L D
            0x6B => { self.regs.l = self.regs.e} // LD L E
            0x6C => { self.regs.l = self.regs.h} // LD L H
            0x6D => { } // LD L L (NOP)
            0x6E => {self.regs.l = memory.read_byte(self.regs.get_hl())} // LD L (HL)
            0x6F => { self.regs.l = self.regs.a} // LD L A

            // Load into A
            0x78 => { self.regs.a = self.regs.b} // LD A B
            0x79 => { self.regs.a = self.regs.c} // LD A C
            0x7A => { self.regs.a = self.regs.d} // LD A D
            0x7B => { self.regs.a = self.regs.e} // LD A E
            0x7C => { self.regs.a = self.regs.h} // LD A H
            0x7D => { self.regs.a = self.regs.l} // LD A L
            0x7E => {self.regs.a = memory.read_byte(self.regs.get_hl())} // LD A (HL)
            0x7F => { } // LD A A (NOOP)

            // Add instruction
            _ => {}
        }
    }

    /// Opcodes 0x80 - 0x9F.
    #[verifier::rlimit(100)]
    #[verifier::spinoff_prover]
    fn execute_opcodes_4(&mut self, opcode: u8, memory: &mut Memory)
        requires
            0x80 <= opcode <= 0x9F,
            execute_spec(machine(old(self).regs, old(memory)@), opcode).ok,
        ensures
            machine(final(self).regs, final(memory)@) == execute_spec(machine(old(self).regs, old(memory)@), opcode),
    {
        match opcode {
            0x80 => { self.op_add(self.regs.b, false); } // ADD B
            0x81 => { self.op_add(self.regs.c, false); } // ADD C
            0x82 => { self.op_add(self.regs.d, false); } // ADD D
            0x83 => { self.op_add(self.regs.e, false); } // ADD E
            0x84 => { self.op_add(self.regs.h, false); } // ADD H
            0x85 => { self.op_add(self.regs.l, false); } // ADD L
            0x86 => { let v = memory.read_byte(self.regs.get_hl()); self.op_add(v, false); } // ADD (HL)
            0x87 => { self.op_add(self.regs.a, false); } // ADD A
            0x88 => { self.op_add(self.regs.b, true); } // ADC B
            0x89 => { self.op_add(self.regs.c, true); } // ADC C
            0x8A => { self.op_add(self.regs.d, true); } // ADC D
            0x8B => { self.op_add(self.regs.e, true); } // ADC E
            0x8C => { self.op_add(self.regs.h, true); } // ADC H
            0x8D => { self.op_add(self.regs.l, true); } // ADC L
            0x8E => { let v = memory.read_byte(self.regs.get_hl()); self.op_add(v, true); } // ADC (HL)
            0x8F => { self.op_add(self.regs.a, true); } // ADC A
            0x90 => { self.op_sub(self.regs.b, false); } // SUB B
            0x91 => { self.op_sub(self.regs.c, false); } // SUB C
            0x92 => { self.op_sub(self.regs.d, false); } // SUB D
            0x93 => { self.op_sub(self.regs.e, false); } // SUB E
            0x94 => { self.op_sub(self.regs.h, false); } // SUB H
            0x95 => { self.op_sub(self.regs.l, false); } // SUB L
            0x96 => { let v = memory.read_byte(self.regs.get_hl()); self.op_sub(v, false); } // SUB (HL)
            0x97 => { self.op_sub(self.regs.a, false); } // SUB A
            0x98 => { self.op_sub(self.regs.b, true); } // SBC B
            0x99 => { self.op_sub(self.regs.c, true); } // SBC C
            0x9A => { self.op_sub(self.regs.d, true); } // SBC D
            0x9B => { self.op_sub(self.regs.e, true); } // SBC E
            0x9C => { self.op_sub(self.regs.h, true); } // SBC H
            0x9D => { self.op_sub(self.regs.l, true); } // SBC L
            0x9E => { let v = memory.read_byte(self.regs.get_hl()); self.op_sub(v, true); } // SUB (HL)
            0x9F => { self.op_sub(self.regs.a, true); } // SBC A
            _ => {}
        }
    }

    /// Opcodes 0xA0 - 0xBF.
    #[verifier::rlimit(100)]
    #[verifier::spinoff_prover]
    fn execute_opcodes_5(&mut self, opcode: u8, memory: &mut Memory)
        requires
            0xA0 <= opcode <= 0xBF,
            execute_spec(machine(old(self).regs, old(memory)@), opcode).ok,
        ensures
            machine(final(self).regs, final(memory)@) == execute_spec(machine(old(self).regs, old(memory)@), opcode),
    {
        match opcode {
            0xA0 => { self.op_and(self.regs.b); } // AND B
            0xA1 => { self.op_and(self.regs.c); } // AND C
            0xA2 => { self.op_and(self.regs.d); } // AND D
            0xA3 => { self.op_and(self.regs.e); } // AND E
            0xA4 => { self.op_and(self.regs.h); } // AND H
            0xA5 => { self.op_and(self.regs.l); } // AND L
            0xA6 => { let v = memory.read_byte(self.regs.get_hl()); self.op_and(v); } // AND (HL)
            0xA7 => { self.op_and(self.regs.a);} // AND A
            0xA8 => { self.op_xor(self.regs.b); } // XOR B
            0xA9 => { self.op_xor(self.regs.c); } // XOR C
            0xAA => { self.op_xor(self.regs.d); } // XOR D
            0xAB => { self.op_xor(self.regs.e); } // XOR E
            0xAC => { self.op_xor(self.regs.h); } // XOR H
            0xAD => { self.op_xor(self.regs.l); } // XOR L
            0xAE => { let v = memory.read_byte(self.regs.get_hl()); self.op_xor(v); } // XOR (HL)
            0xAF => { self.op_xor(self.regs.a) } // XOR A
            0xB0 => { self.op_or(self.regs.b); } // OR B
            0xB1 => { self.op_or(self.regs.c); } // OR C
            0xB2 => { self.op_or(self.regs.d); } // OR D
            0xB3 => { self.op_or(self.regs.e); } // OR E
            0xB4 => { self.op_or(self.regs.h); } // OR H
            0xB5 => { self.op_or(self.regs.l); } // OR L
            0xB6 => { let v = memory.read_byte(self.regs.get_hl()); self.op_or(v); } // OR (HL)
            0xB7 => { self.op_or(self.regs.a) } // OR A
            0xB8 => { self.op_cp(self.regs.b); } // CP B
            0xB9 => { self.op_cp(self.regs.c); } // CP C
            0xBA => { self.op_cp(self.regs.d); } // CP D
            0xBB => { self.op_cp(self.regs.e); } // CP E
            0xBC => { self.op_cp(self.regs.h); } // CP H
            0xBD => { self.op_cp(self.regs.l); } // CP L
            0xBE => { let v = memory.read_byte(self.regs.get_hl()); self.op_cp(v); } // CP (HL)
            0xBF => { self.op_cp(self.regs.a); } // CP A, (A == A)
            _ => {}
        }
    }

    /// Opcodes 0xC0 - 0xDF.
    #[verifier::rlimit(100)]
    #[verifier::spinoff_prover]
    fn execute_opcodes_6(&mut self, opcode: u8, memory: &mut Memory)
        requires
            0xC0 <= opcode <= 0xDF,
            execute_spec(machine(old(self).regs, old(memory)@), opcode).ok,
        ensures
            machine(final(self).regs, final(memory)@) == execute_spec(machine(old(self).regs, old(memory)@), opcode),
    {
        match opcode {
            0xCB => { let wide_op = self.fetchbyte(memory); self.execute_cb(wide_op, memory);} // Wide instructions prefix

            // Interrupt
            0xC6 => { let v = self.fetchbyte(memory);  self.op_add(v, false)} // ADD A d8

            // Add with carry instruction
            0xCE => { let v = self.fetchbyte(memory); self.op_add(v, true)} // ADC A d8

            // Sub instruction
            0xD6 => { let v = self.fetchbyte(memory); self.op_sub(v, false) } // SUB d8

            // Sub with carry instruction
            0xDE => { let v = self.fetchbyte(memory); self.op_sub(v, true) } // SBC d8

            // AND instruction
            0xC5 => { let v = self.regs.get_bc(); self.push_stack(memory, v)} // PUSH BC
            0xD5 => { let v = self.regs.get_de(); self.push_stack(memory, v)} // PUSH DE
            0xC1 => { let v = self.pop_stack(memory); self.regs.set_bc(v)} // POP BC
            0xD1 => { let v = self.pop_stack(memory); self.regs.set_de(v)} // POP DE
            0xC4 => { if !self.regs.get_zero_flag() { self.op_call(memory); } else { self.regs.pc += 2 }} // CALL NZ a16
            0xD4 => { if !self.regs.get_carry_flag() { self.op_call(memory); } else { self.regs.pc += 2 }} // CALL NC a16
            0xCC => { if self.regs.get_zero_flag() { self.op_call(memory); } else { self.regs.pc += 2 }}  // CALL Z a16
            0xDC => { if self.regs.get_carry_flag() { self.op_call(memory); } else { self.regs.pc += 2 }} // CALL C a16
            0xCD => { self.op_call(memory); } // CALL a16

            // Ret
            0xC0 => { if !self.regs.get_zero_flag() { self.op_ret(memory); }} // RET NZ
            0xD0 => { if !self.regs.get_carry_flag() { self.op_ret(memory); }} // RET NC
            0xC8 => { if self.regs.get_zero_flag() { self.op_ret(memory); }} // RET Z
            0xD8 => { if self.regs.get_carry_flag() { self.op_ret(memory); }} // RET C
            0xC9 => { self.op_ret(memory);} // RET
            0xD9 => { self.op_ret(memory);} // RETI

            // Restore (call preset locations at start)
            0xC7 => { self.op_restore(memory, 0x00) } // RST 0
            0xD7 => { self.op_restore(memory, 0x10) } // RST 2
            0xCF => { self.op_restore(memory, 0x08) } // RST 1
            0xDF => { self.op_restore(memory, 0x18) } // RST 3
            0xC2 => { if !self.regs.get_zero_flag() { self.op_jump(memory); } else { self.regs.pc += 2; }} // JP NZ a16
            0xD2 => { if !self.regs.get_carry_flag() { self.op_jump(memory); } else { self.regs.pc += 2; }} // JP NC a16
            0xC3 => { self.op_jump(memory); } // JP a16
            0xCA => { if self.regs.get_zero_flag() { self.op_jump(memory); } else { self.regs.pc += 2; }} // JP Z a16
            0xDA => { if self.regs.get_carry_flag() { self.op_jump(memory); } else { self.regs.pc += 2; }}  // JP C a16
            _ => {}
        }
    }

    /// Opcodes 0xE0 - 0xFF.
    #[verifier::rlimit(100)]
    #[verifier::spinoff_prover]
    fn execute_opcodes_7(&mut self, opcode: u8, memory: &mut Memory)
        requires
            0xE0 <= opcode <= 0xFF,
            execute_spec(machine(old(self).regs, old(memory)@), opcode).ok,
        ensures
            machine(final(self).regs, final(memory)@) == execute_spec(machine(old(self).regs, old(memory)@), opcode),
    {
        match opcode {
            0xFB => { memory.interrupt_master_enable = true } // EI, enable interrupts
            0xF3 => { memory.interrupt_master_enable = false; } // DI, prohibit interrupts

            // LD d16 BC,DE,HL
            0xE6 => { let v = self.fetchbyte(memory); self.op_and(v)} // AND d8

            // XOR  instruction
            0xEE => { let v = self.fetchbyte(memory); self.op_xor(v)} // XOR d8

            // OR instruction
            0xF6 => { let v = self.fetchbyte(memory); self.op_or(v)} // OR d8

            // CP instruction (set zero flag if the registers are equal)
            0xFE => { let v = self.fetchbyte(memory); self.op_cp(v); } // CP A d8

            // LD (8 bit, high ram)
            0xE0 => { let n = self.fetchbyte(memory); proof { lemma_high_page(n); } memory.write_byte(0xFF00 | n as u16, self.regs.a) } // LD (a8) A
            0xF0 => { 
                let n = self.fetchbyte(memory);
                proof { lemma_high_page(n); }
                let addr = 0xFF00 | n as u16;
                self.regs.a = memory.read_byte(addr) } // LD A (a8)

            // LD (C, high ram)
            0xE2 => { proof { lemma_high_page(self.regs.c); } memory.write_byte(0xFF00 | self.regs.c as u16, self.regs.a) } // LD (C) A
            0xF2 => { proof { lemma_high_page(self.regs.c); } self.regs.a = memory.read_byte(0xFF00 | self.regs.c as u16) } // LD A (C)            

            // LD A
            0xEA => { 
                let addr = self.fetchword(memory); 
                memory.write_byte(addr, self.regs.a)} // LD (a16) A
            0xFA => { let a = self.fetchword(memory); self.regs.a = memory.read_byte(a)} // LD A (a16)

            // Other instructions
            0xF9 => { self.regs.sp = self.regs.get_hl()} // LD HL SP
            0xE8 => { let sp = self.regs.sp; self.regs.sp = self.op_addwordimm(memory, sp)} // ADD SP s8
            0xF8 => {
                let sp = self.regs.sp; let r = self.op_addwordimm(memory, sp); 
                self.regs.set_hl(r);
            } //LD HL SP+s8
            0xE5 => { let v = self.regs.get_hl(); self.push_stack(memory, v)} // PUSH HL
            0xF5 => { let v = self.regs.get_af(); self.push_stack(memory, v)} // PUSH AF

            // Pop
            0xE1 => { let v = self.pop_stack(memory); self.regs.set_hl(v)} // POP HL
            0xF1 => { let v = self.pop_stack(memory); self.regs.set_af(v)} // POP AF
        
            // Call
            0xE7 => { self.op_restore(memory, 0x20) } // RST 4
            0xF7 => { self.op_restore(memory, 0x30) } // RST 6
            0xEF => { self.op_restore(memory, 0x28) } // RST 5
            0xFF => { self.op_restore(memory, 0x38) } // RST 7

            // Relative jumps
            0xE9 => { self.regs.pc = self.regs.get_hl()}
            _ => {}
        }
    }

    /// Execute one of the 256 instructions behind the 0xCB prefix.
    fn execute_cb(&mut self, opcode: u8, memory: &mut Memory)
        requires
            execute_cb_spec(machine(old(self).regs, old(memory)@), opcode).ok,
        ensures
            machine(final(self).regs, final(memory)@) == execute_cb_spec(machine(old(self).regs, old(memory)@), opcode),
    {
        if opcode < 0x20 {
            self.execute_cb_opcodes_0(opcode, memory)
        } else if opcode < 0x40 {
            self.execute_cb_opcodes_1(opcode, memory)
        } else if opcode < 0x60 {
            self.execute_cb_opcodes_2(opcode, memory)
        } else if opcode < 0x80 {
            self.execute_cb_opcodes_3(opcode, memory)
        } else if opcode < 0xA0 {
            self.execute_cb_opcodes_4(opcode, memory)
        } else if opcode < 0xC0 {
            self.execute_cb_opcodes_5(opcode, memory)
        } else if opcode < 0xE0 {
            self.execute_cb_opcodes_6(opcode, memory)
        } else {
            self.execute_cb_opcodes_7(opcode, memory)
        }
    }

    /// Opcodes 0x00 - 0x1F of the 0xCB table.
    #[verifier::rlimit(100)]
    #[verifier::spinoff_prover]
    fn execute_cb_opcodes_0(&mut self, opcode: u8, memory: &mut Memory)
        requires
            0x00 <= opcode <= 0x1F,
            execute_cb_spec(machine(old(self).regs, old(memory)@), opcode).ok,
        ensures
            machine(final(self).regs, final(memory)@) == execute_cb_spec(machine(old(self).regs, old(memory)@), opcode),
    {
        match opcode {
            0x00 => { self.regs.b = self.op_rlc(self.regs.b)} // RLC B
            0x01 => { self.regs.c = self.op_rlc(self.regs.c)} // RLC C
            0x02 => { self.regs.d = self.op_rlc(self.regs.d)} // RLC D
            0x03 => { self.regs.e = self.op_rlc(self.regs.e)} // RLC E
            0x04 => { self.regs.h = self.op_rlc(self.regs.h)} // RLC H
            0x05 => { self.regs.l = self.op_rlc(self.regs.l)} // RLC L
            0x06 => { // RLC (HL)
                let val = self.op_rlc(memory.read_byte(self.regs.get_hl())); 
                memory.write_byte(self.regs.get_hl(), val)}
            0x07 => { self.regs.a = self.op_rlc(self.regs.a)} // RLC A

            // RRC
            0x08 => { self.regs.b = self.op_rrc(self.regs.b)} // RRC B
            0x09 => { self.regs.c = self.op_rrc(self.regs.c)} // RRC C
            0x0A => { self.regs.d = self.op_rrc(self.regs.d)} // RRC D
            0x0B => { self.regs.e = self.op_rrc(self.regs.e)} // RRC E
            0x0C => { self.regs.h = self.op_rrc(self.regs.h)} // RRC H
            0x0D => { self.regs.l = self.op_rrc(self.regs.l)} // RRC L
            0x0E => { // RRC (HL)
                let val = self.op_rrc(memory.read_byte(self.regs.get_hl())); 
                memory.write_byte(self.regs.get_hl(), val)}
            0x0F => { self.regs.a = self.op_rrc(self.regs.a)} // RRC A

            // RL
            0x10 => { self.regs.b = self.op_rl(self.regs.b)} // RL B
            0x11 => { self.regs.c = self.op_rl(self.regs.c)} // RL C
            0x12 => { self.regs.d = self.op_rl(self.regs.d)} // RL D
            0x13 => { self.regs.e = self.op_rl(self.regs.e)} // RL E
            0x14 => { self.regs.h = self.op_rl(self.regs.h)} // RL H
            0x15 => { self.regs.l = self.op_rl(self.regs.l)} // RL L
            0x16 => { // RL (HL)
                let val = self.op_rl(memory.read_byte(self.regs.get_hl())); 
                memory.write_byte(self.regs.get_hl(), val)}
            0x17 => { self.regs.a = self.op_rl(self.regs.a)} // RL A

            // RR
            0x18 => { self.regs.b = self.op_rr(self.regs.b)} // RR B
            0x19 => { self.regs.c = self.op_rr(self.regs.c)} // RR C
            0x1A => { self.regs.d = self.op_rr(self.regs.d)} // RR D
            0x1B => { self.regs.e = self.op_rr(self.regs.e)} // RR E
            0x1C => { self.regs.h = self.op_rr(self.regs.h)} // RR H
            0x1D => { self.regs.l = self.op_rr(self.regs.l)} // RR L
            0x1E => { // RR (HL)
                let val = self.op_rr(memory.read_byte(self.regs.get_hl())); 
                memory.write_byte(self.regs.get_hl(), val)}
            0x1F => { self.regs.a = self.op_rr(self.regs.a)} // RR A

            // SLA
            _ => {}
        }
    }

    /// Opcodes 0x20 - 0x3F of the 0xCB table.
    #[verifier::rlimit(100)]
    #[verifier::spinoff_prover]
    fn execute_cb_opcodes_1(&mut self, opcode: u8, memory: &mut Memory)
        requires
            0x20 <= opcode <= 0x3F,
            execute_cb_spec(machine(old(self).regs, old(memory)@), opcode).ok,
        ensures
            machine(final(self).regs, final(memory)@) == execute_cb_spec(machine(old(self).regs, old(memory)@), opcode),
    {
        match opcode {
            0x20 => { self.regs.b = self.op_sla(self.regs.b)} // SLA B
            0x21 => { self.regs.c = self.op_sla(self.regs.c)} // SLA C
            0x22 => { self.regs.d = self.op_sla(self.regs.d)} // SLA D
            0x23 => { self.regs.e = self.op_sla(self.regs.e)} // SLA E
            0x24 => { self.regs.h = self.op_sla(self.regs.h)} // SLA H
            0x25 => { self.regs.l = self.op_sla(self.regs.l)} // SLA L
            0x26 => { // SLA (HL)
                let val = self.op_sla(memory.read_byte(self.regs.get_hl())); 
                memory.write_byte(self.regs.get_hl(), val)}
            0x27 => { self.regs.a = self.op_sla(self.regs.a)} // SLA A

            // SRA
            0x28 => { self.regs.b = self.op_sra(self.regs.b)} // SRA B
            0x29 => { self.regs.c = self.op_sra(self.regs.c)} // SRA C
            0x2A => { self.regs.d = self.op_sra(self.regs.d)} // SRA D
            0x2B => { self.regs.e = self.op_sra(self.regs.e)} // SRA E
            0x2C => { self.regs.h = self.op_sra(self.regs.h)} // SRA H
            0x2D => { self.regs.l = self.op_sra(self.regs.l)} // SRA L
            0x2E => { // SRA (HL)
                let val = self.op_sra(memory.read_byte(self.regs.get_hl())); 
                memory.write_byte(self.regs.get_hl(), val)}
            0x2F => { self.regs.a = self.op_sra(self.regs.a)} // SRA A
            

            // SWAP
            0x30 => { self.regs.b = self.op_swap(self.regs.b); } // SWAP B
            0x31 => { self.regs.c = self.op_swap(self.regs.c); } // SWAP C
            0x32 => { self.regs.d = self.op_swap(self.regs.d); } // SWAP D
            0x33 => { self.regs.e = self.op_swap(self.regs.e); } // SWAP E
            0x34 => { self.regs.h = self.op_swap(self.regs.h); } // SWAP H
            0x35 => { self.regs.l = self.op_swap(self.regs.l); } // SWAP L
            0x36 => { // SWAP (HL)
                let val = memory.read_byte(self.regs.get_hl()); 
                memory.write_byte(self.regs.get_hl(), self.op_swap(val));
            }
            0x37 => { self.regs.a = self.op_swap(self.regs.a);} // SWAP A

            // SRL
            0x38 => { self.regs.b = self.op_srl(self.regs.b)} // SRL B
            0x39 => { self.regs.c = self.op_srl(self.regs.c)} // SRL C
            0x3A => { self.regs.d = self.op_srl(self.regs.d)} // SRL D
            0x3B => { self.regs.e = self.op_srl(self.regs.e)} // SRL E
            0x3C => { self.regs.h = self.op_srl(self.regs.h)} // SRL H
            0x3D => { self.regs.l = self.op_srl(self.regs.l)} // SRL L
            0x3E => { // SRL (HL)
                let val = self.op_srl(memory.read_byte(self.regs.get_hl())); 
                memory.write_byte(self.regs.get_hl(), val)}
            0x3F => { self.regs.a = self.op_srl(self.regs.a)} // SRL A

            // BIT 0
            _ => {}
        }
    }

    /// Opcodes 0x40 - 0x5F of the 0xCB table.
    #[verifier::rlimit(100)]
    #[verifier::spinoff_prover]
    fn execute_cb_opcodes_2(&mut self, opcode: u8, memory: &mut Memory)
        requires
            0x40 <= opcode <= 0x5F,
            execute_cb_spec(machine(old(self).regs, old(memory)@), opcode).ok,
        ensures
            machine(final(self).regs, final(memory)@) == execute_cb_spec(machine(old(self).regs, old(memory)@), opcode),
    {
        match opcode {
            0x40 => { self.op_read_bit(self.regs.b, 0b0000_0001); } // BIT 0 B
            0x41 => { self.op_read_bit(self.regs.c, 0b0000_0001); } // BIT 0 C
            0x42 => { self.op_read_bit(self.regs.d, 0b0000_0001); } // BIT 0 D
            0x43 => { self.op_read_bit(self.regs.e, 0b0000_0001); } // BIT 0 E
            0x44 => { self.op_read_bit(self.regs.h, 0b0000_0001); } // BIT 0 H
            0x45 => { self.op_read_bit(self.regs.l, 0b0000_0001); } // BIT 0 L
            0x46 => { // BIT 0 (HL)
                let val = memory.read_byte(self.regs.get_hl());
                self.op_read_bit(val, 0b0000_0001); }
            0x47 => { self.op_read_bit(self.regs.a, 0b0000_0001); } // BIT 0 A

            // BIT 1
            0x48 => { self.op_read_bit(self.regs.b, 0b0000_0010); } // BIT 1 B
            0x49 => { self.op_read_bit(self.regs.c, 0b0000_0010); } // BIT 1 C
            0x4A => { self.op_read_bit(self.regs.d, 0b0000_0010); } // BIT 1 D
            0x4B => { self.op_read_bit(self.regs.e, 0b0000_0010); } // BIT 1 E
            0x4C => { self.op_read_bit(self.regs.h, 0b0000_0010); } // BIT 1 H
            0x4D => { self.op_read_bit(self.regs.l, 0b0000_0010); } // BIT 1 L
            0x4E => { // BIT 1 (HL)
                let val = memory.read_byte(self.regs.get_hl());
                self.op_read_bit(val, 0b0000_0010); }
            0x4F => { self.op_read_bit(self.regs.a, 0b0000_0010); } // BIT 1 A

            // BIT 2
            0x50 => { self.op_read_bit(self.regs.b, 0b0000_0100); } // BIT 2 B
            0x51 => { self.op_read_bit(self.regs.c, 0b0000_0100); } // BIT 2 C
            0x52 => { self.op_read_bit(self.regs.d, 0b0000_0100); } // BIT 2 D
            0x53 => { self.op_read_bit(self.regs.e, 0b0000_0100); } // BIT 2 E
            0x54 => { self.op_read_bit(self.regs.h, 0b0000_0100); } // BIT 2 H
            0x55 => { self.op_read_bit(self.regs.l, 0b0000_0100); } // BIT 2 L
            0x56 => { // BIT 2 (HL)
                let val = memory.read_byte(self.regs.get_hl());
                self.op_read_bit(val, 0b0000_0100); }
            0x57 => { self.op_read_bit(self.regs.a, 0b0000_0100); } // BIT 2 A

            // BIT 3
            0x58 => { self.op_read_bit(self.regs.b, 0b0000_1000); } // BIT 3 B
            0x59 => { self.op_read_bit(self.regs.c, 0b0000_1000); } // BIT 3 C
            0x5A => { self.op_read_bit(self.regs.d, 0b0000_1000); } // BIT 3 D
            0x5B => { self.op_read_bit(self.regs.e, 0b0000_1000); } // BIT 3 E
            0x5C => { self.op_read_bit(self.regs.h, 0b0000_1000); } // BIT 3 H
            0x5D => { self.op_read_bit(self.regs.l, 0b0000_1000); } // BIT 3 L
            0x5E => { // BIT 3 (HL)
                let val = memory.read_byte(self.regs.get_hl());
                self.op_read_bit(val, 0b0000_1000); }
            0x5F => { self.op_read_bit(self.regs.a, 0b0000_1000); } // BIT 3 A

            // BIT 4
            _ => {}
        }
    }

    /// Opcodes 0x60 - 0x7F of the 0xCB table.
    #[verifier::rlimit(100)]
    #[verifier::spinoff_prover]
    fn execute_cb_opcodes_3(&mut self, opcode: u8, memory: &mut Memory)
        requires
            0x60 <= opcode <= 0x7F,
            execute_cb_spec(machine(old(self).regs, old(memory)@), opcode).ok,
        ensures
            machine(final(self).regs, final(memory)@) == execute_cb_spec(machine(old(self).regs, old(memory)@), opcode),
    {
        match opcode {
            0x60 => { self.op_read_bit(self.regs.b, 0b0001_0000); } // BIT 4 B
            0x61 => { self.op_read_bit(self.regs.c, 0b0001_0000); } // BIT 4 C
            0x62 => { self.op_read_bit(self.regs.d, 0b0001_0000); } // BIT 4 D
            0x63 => { self.op_read_bit(self.regs.e, 0b0001_0000); } // BIT 4 E
            0x64 => { self.op_read_bit(self.regs.h, 0b0001_0000); } // BIT 4 H
            0x65 => { self.op_read_bit(self.regs.l, 0b0001_0000); } // BIT 4 L
            0x66 => { // BIT 4 (HL)
                let val = memory.read_byte(self.regs.get_hl());
                self.op_read_bit(val, 0b0001_0000); }
            0x67 => { self.op_read_bit(self.regs.a, 0b0001_0000); } // BIT 4 A

            // BIT 5
            0x68 => { self.op_read_bit(self.regs.b, 0b0010_0000); } // BIT 5 B
            0x69 => { self.op_read_bit(self.regs.c, 0b0010_0000); } // BIT 5 C
            0x6A => { self.op_read_bit(self.regs.d, 0b0010_0000); } // BIT 5 D
            0x6B => { self.op_read_bit(self.regs.e, 0b0010_0000); } // BIT 5 E
            0x6C => { self.op_read_bit(self.regs.h, 0b0010_0000); } // BIT 5 H
            0x6D => { self.op_read_bit(self.regs.l, 0b0010_0000); } // BIT 5 L
            0x6E => { // BIT 5 (HL)
                let val = memory.read_byte(self.regs.get_hl());
                self.op_read_bit(val, 0b0010_0000); }
            0x6F => { self.op_read_bit(self.regs.a, 0b0010_0000); } // BIT 5 A


            // BIT 6
            0x70 => { self.op_read_bit(self.regs.b, 0b0100_0000); } // BIT 6 B
            0x71 => { self.op_read_bit(self.regs.c, 0b0100_0000); } // BIT 6 C
            0x72 => { self.op_read_bit(self.regs.d, 0b0100_0000); } // BIT 6 D
            0x73 => { self.op_read_bit(self.regs.e, 0b0100_0000); } // BIT 6 E
            0x74 => { self.op_read_bit(self.regs.h, 0b0100_0000); } // BIT 6 H
            0x75 => { self.op_read_bit(self.regs.l, 0b0100_0000); } // BIT 6 L
            0x76 => { // BIT 6 (HL)
                let val = memory.read_byte(self.regs.get_hl());
                self.op_read_bit(val, 0b0100_0000); }
            0x77 => { self.op_read_bit(self.regs.a, 0b0100_0000); } // BIT 6 A

            // BIT 7
            0x78 => { self.op_read_bit(self.regs.b, 0b1000_0000); } // BIT 7 B
            0x79 => { self.op_read_bit(self.regs.c, 0b1000_0000); } // BIT 7 C
            0x7A => { self.op_read_bit(self.regs.d, 0b1000_0000); } // BIT 7 D
            0x7B => { self.op_read_bit(self.regs.e, 0b1000_0000); } // BIT 7 E
            0x7C => { self.op_read_bit(self.regs.h, 0b1000_0000); } // BIT 7 H
            0x7D => { self.op_read_bit(self.regs.l, 0b1000_0000); } // BIT 7 L
            0x7E => { // BIT 7 (HL)
                let val = memory.read_byte(self.regs.get_hl());
                self.op_read_bit(val, 0b1000_0000); }
            0x7F => { self.op_read_bit(self.regs.a, 0b1000_0000); } // BIT 7 A

            // Reset Bit (Set to 0) Instructions
            // RES 0
            _ => {}
        }
    }

    /// Opcodes 0x80 - 0x9F of the 0xCB table.
    #[verifier::rlimit(100)]
    #[verifier::spinoff_prover]
    fn execute_cb_opcodes_4(&mut self, opcode: u8, memory: &mut Memory)
        requires
            0x80 <= opcode <= 0x9F,
            execute_cb_spec(machine(old(self).regs, old(memory)@), opcode).ok,
        ensures
            machine(final(self).regs, final(memory)@) == execute_cb_spec(machine(old(self).regs, old(memory)@), opcode),
    {
        match opcode {
            0x80 => { self.regs.b = self.op_reset_bit(self.regs.b, 0b0000_0001); } // RES 0 B
            0x81 => { self.regs.c = self.op_reset_bit(self.regs.c, 0b0000_0001); } // RES 0 C
            0x82 => { self.regs.d = self.op_reset_bit(self.regs.d, 0b0000_0001); } // RES 0 D
            0x83 => { self.regs.e = self.op_reset_bit(self.regs.e, 0b0000_0001); } // RES 0 E
            0x84 => { self.regs.h = self.op_reset_bit(self.regs.h, 0b0000_0001); } // RES 0 H
            0x85 => { self.regs.l = self.op_reset_bit(self.regs.l, 0b0000_0001); } // RES 0 L
            0x86 => { // RES 0 (HL)
                let val = memory.read_byte(self.regs.get_hl());
                memory.write_byte(self.regs.get_hl(), self.op_reset_bit(val, 0b0000_0001)); }
            0x87 => { self.regs.a = self.op_reset_bit(self.regs.a, 0b0000_0001); } // RES 0 A

            // RES 1
            0x88 => { self.regs.b = self.op_reset_bit(self.regs.b, 0b0000_0010); } // RES 1 B
            0x89 => { self.regs.c = self.op_reset_bit(self.regs.c, 0b0000_0010); } // RES 1 C
            0x8A => { self.regs.d = self.op_reset_bit(self.regs.d, 0b0000_0010); } // RES 1 D
            0x8B => { self.regs.e = self.op_reset_bit(self.regs.e, 0b0000_0010); } // RES 1 E
            0x8C => { self.regs.h = self.op_reset_bit(self.regs.h, 0b0000_0010); } // RES 1 H
            0x8D => { self.regs.l = self.op_reset_bit(self.regs.l, 0b0000_0010); } // RES 1 L
            0x8E => { // RES 1 (HL)
                let val = memory.read_byte(self.regs.get_hl());
                memory.write_byte(self.regs.get_hl(), self.op_reset_bit(val, 0b0000_0010)); }
            0x8F => { self.regs.a = self.op_reset_bit(self.regs.a, 0b0000_0010); } // RES 1 A

            // ERS 2
            0x90 => { self.regs.b = self.op_reset_bit(self.regs.b, 0b0000_0100); } // RES 2 B
            0x91 => { self.regs.c = self.op_reset_bit(self.regs.c, 0b0000_0100); } // RES 2 C
            0x92 => { self.regs.d = self.op_reset_bit(self.regs.d, 0b0000_0100); } // RES 2 D
            0x93 => { self.regs.e = self.op_reset_bit(self.regs.e, 0b0000_0100); } // RES 2 E
            0x94 => { self.regs.h = self.op_reset_bit(self.regs.h, 0b0000_0100); } // RES 2 H
            0x95 => { self.regs.l = self.op_reset_bit(self.regs.l, 0b0000_0100); } // RES 2 L
            0x96 => { // RES 2 (HL)
                let val = memory.read_byte(self.regs.get_hl());
                memory.write_byte(self.regs.get_hl(), self.op_reset_bit(val, 0b0000_0100)); }
            0x97 => { self.regs.a = self.op_reset_bit(self.regs.a, 0b0000_0100); } // RES 2 A

            // RES 3
            0x98 => { self.regs.b = self.op_reset_bit(self.regs.b, 0b0000_1000); } // RES 3 B
            0x99 => { self.regs.c = self.op_reset_bit(self.regs.c, 0b0000_1000); } // RES 3 C
            0x9A => { self.regs.d = self.op_reset_bit(self.regs.d, 0b0000_1000); } // RES 3 D
            0x9B => { self.regs.e = self.op_reset_bit(self.regs.e, 0b0000_1000); } // RES 3 E
            0x9C => { self.regs.h = self.op_reset_bit(self.regs.h, 0b0000_1000); } // RES 3 H
            0x9D => { self.regs.l = self.op_reset_bit(self.regs.l, 0b0000_1000); } // RES 3 L
            0x9E => { // RES 3 (HL)
                let val = memory.read_byte(self.regs.get_hl());
                memory.write_byte(self.regs.get_hl(), self.op_reset_bit(val, 0b0000_1000)); }
            0x9F => { self.regs.a = self.op_reset_bit(self.regs.a, 0b0000_1000); } // RES 3 A

            // RES 4
            _ => {}
        }
    }

    /// Opcodes 0xA0 - 0xBF of the 0xCB table.
    #[verifier::rlimit(100)]
    #[verifier::spinoff_prover]
    fn execute_cb_opcodes_5(&mut self, opcode: u8, memory: &mut Memory)
        requires
            0xA0 <= opcode <= 0xBF,
            execute_cb_spec(machine(old(self).regs, old(memory)@), opcode).ok,
        ensures
            machine(final(self).regs, final(memory)@) == execute_cb_spec(machine(old(self).regs, old(memory)@), opcode),
    {
        match opcode {
            0xA0 => { self.regs.b = self.op_reset_bit(self.regs.b, 0b0001_0000); } // RES 4 B
            0xA1 => { self.regs.c = self.op_reset_bit(self.regs.c, 0b0001_0000); } // RES 4 C
            0xA2 => { self.regs.d = self.op_reset_bit(self.regs.d, 0b0001_0000); } // RES 4 D
            0xA3 => { self.regs.e = self.op_reset_bit(self.regs.e, 0b0001_0000); } // RES 4 E
            0xA4 => { self.regs.h = self.op_reset_bit(self.regs.h, 0b0001_0000); } // RES 4 H
            0xA5 => { self.regs.l = self.op_reset_bit(self.regs.l, 0b0001_0000); } // RES 4 L
            0xA6 => { // RES 4 (HL)
                let val = memory.read_byte(self.regs.get_hl());
                memory.write_byte(self.regs.get_hl(), self.op_reset_bit(val, 0b0001_0000)); }
            0xA7 => { self.regs.a = self.op_reset_bit(self.regs.a, 0b0001_0000); } // RES 4 A

            // RES 5
            0xA8 => { self.regs.b = self.op_reset_bit(self.regs.b, 0b0010_0000); } // RES 5 B
            0xA9 => { self.regs.c = self.op_reset_bit(self.regs.c, 0b0010_0000); } // RES 5 C
            0xAA => { self.regs.d = self.op_reset_bit(self.regs.d, 0b0010_0000); } // RES 5 D
            0xAB => { self.regs.e = self.op_reset_bit(self.regs.e, 0b0010_0000); } // RES 5 E
            0xAC => { self.regs.h = self.op_reset_bit(self.regs.h, 0b0010_0000); } // RES 5 H
            0xAD => { self.regs.l = self.op_reset_bit(self.regs.l, 0b0010_0000); } // RES 5 L
            0xAE => { // RES 5 (HL)
                let val = memory.read_byte(self.regs.get_hl());
                memory.write_byte(self.regs.get_hl(), self.op_reset_bit(val, 0b0010_0000)); }
            0xAF => { self.regs.a = self.op_reset_bit(self.regs.a, 0b0010_0000); } // RES 5 A

            // RES 6
            0xB0 => { self.regs.b = self.op_reset_bit(self.regs.b, 0b0100_0000); } // RES 6 B
            0xB1 => { self.regs.c = self.op_reset_bit(self.regs.c, 0b0100_0000); } // RES 6 C
            0xB2 => { self.regs.d = self.op_reset_bit(self.regs.d, 0b0100_0000); } // RES 6 D
            0xB3 => { self.regs.e = self.op_reset_bit(self.regs.e, 0b0100_0000); } // RES 6 E
            0xB4 => { self.regs.h = self.op_reset_bit(self.regs.h, 0b0100_0000); } // RES 6 H
            0xB5 => { self.regs.l = self.op_reset_bit(self.regs.l, 0b0100_0000); } // RES 6 L
            0xB6 => { // RES 6 (HL)
                let val = memory.read_byte(self.regs.get_hl());
                memory.write_byte(self.regs.get_hl(), self.op_reset_bit(val, 0b0100_0000)); }
            0xB7 => { self.regs.a = self.op_reset_bit(self.regs.a, 0b0100_0000); } // RES 6 A

            // RES 7
            0xB8 => { self.regs.b = self.op_reset_bit(self.regs.b, 0b1000_0000); } // RES 7 B
            0xB9 => { self.regs.c = self.op_reset_bit(self.regs.c, 0b1000_0000); } // RES 7 C
            0xBA => { self.regs.d = self.op_reset_bit(self.regs.d, 0b1000_0000); } // RES 7 D
            0xBB => { self.regs.e = self.op_reset_bit(self.regs.e, 0b1000_0000); } // RES 7 E
            0xBC => { self.regs.h = self.op_reset_bit(self.regs.h, 0b1000_0000); } // RES 7 H
            0xBD => { self.regs.l = self.op_reset_bit(self.regs.l, 0b1000_0000); } // RES 7 L
            0xBE => { // RES 7 (HL)
                let val = memory.read_byte(self.regs.get_hl());
                memory.write_byte(self.regs.get_hl(), self.op_reset_bit(val, 0b1000_0000)); }
            0xBF => { self.regs.a = self.op_reset_bit(self.regs.a, 0b1000_0000); } // RES 7 A

            // Set bit N to 1
            // SET 0
            _ => {}
        }
    }

    /// Opcodes 0xC0 - 0xDF of the 0xCB table.
    #[verifier::rlimit(100)]
    #[verifier::spinoff_prover]
    fn execute_cb_opcodes_6(&mut self, opcode: u8, memory: &mut Memory)
        requires
            0xC0 <= opcode <= 0xDF,
            execute_cb_spec(machine(old(self).regs, old(memory)@), opcode).ok,
        ensures
            machine(final(self).regs, final(memory)@) == execute_cb_spec(machine(old(self).regs, old(memory)@), opcode),
    {
        match opcode {
            0xC0 => { self.regs.b = self.op_set_bit(self.regs.b, 0b0000_0001); } // SET 0 B
            0xC1 => { self.regs.c = self.op_set_bit(self.regs.c, 0b0000_0001); } // SET 0 C
            0xC2 => { self.regs.d = self.op_set_bit(self.regs.d, 0b0000_0001); } // SET 0 D
            0xC3 => { self.regs.e = self.op_set_bit(self.regs.e, 0b0000_0001); } // SET 0 E
            0xC4 => { self.regs.h = self.op_set_bit(self.regs.h, 0b0000_0001); } // SET 0 H
            0xC5 => { self.regs.l = self.op_set_bit(self.regs.l, 0b0000_0001); } // SET 0 L
            0xC6 => { // SET 0 (HL)
                let val = memory.read_byte(self.regs.get_hl());
                memory.write_byte(self.regs.get_hl(), self.op_set_bit(val, 0b0000_0001)); }
            0xC7 => { self.regs.a = self.op_set_bit(self.regs.a, 0b0000_0001); } // SET 0 A

            // SET 1
            0xC8 => { self.regs.b = self.op_set_bit(self.regs.b, 0b0000_0010); } // SET 1 B
            0xC9 => { self.regs.c = self.op_set_bit(self.regs.c, 0b0000_0010); } // SET 1 C
            0xCA => { self.regs.d = self.op_set_bit(self.regs.d, 0b0000_0010); } // SET 1 D
            0xCB => { self.regs.e = self.op_set_bit(self.regs.e, 0b0000_0010); } // SET 1 E
            0xCC => { self.regs.h = self.op_set_bit(self.regs.h, 0b0000_0010); } // SET 1 H
            0xCD => { self.regs.l = self.op_set_bit(self.regs.l, 0b0000_0010); } // SET 1 L
            0xCE => { // SET 1 (HL)
                let val = memory.read_byte(self.regs.get_hl());
                memory.write_byte(self.regs.get_hl(), self.op_set_bit(val, 0b0000_0010)); }
            0xCF => { self.regs.a = self.op_set_bit(self.regs.a, 0b0000_0010); } // SET 1 A

            // SET 2
            0xD0 => { self.regs.b = self.op_set_bit(self.regs.b, 0b0000_0100); } // SET 2 B
            0xD1 => { self.regs.c = self.op_set_bit(self.regs.c, 0b0000_0100); } // SET 2 C
            0xD2 => { self.regs.d = self.op_set_bit(self.regs.d, 0b0000_0100); } // SET 2 D
            0xD3 => { self.regs.e = self.op_set_bit(self.regs.e, 0b0000_0100); } // SET 2 E
            0xD4 => { self.regs.h = self.op_set_bit(self.regs.h, 0b0000_0100); } // SET 2 H
            0xD5 => { self.regs.l = self.op_set_bit(self.regs.l, 0b0000_0100); } // SET 2 L
            0xD6 => { // SET 2 (HL)
                let val = memory.read_byte(self.regs.get_hl());
                memory.write_byte(self.regs.get_hl(), self.op_set_bit(val, 0b0000_0100)); }
            0xD7 => { self.regs.a = self.op_set_bit(self.regs.a, 0b0000_0100); } // SET 2 A

            // SET 3
            0xD8 => { self.regs.b = self.op_set_bit(self.regs.b, 0b0000_1000); } // SET 3 B
            0xD9 => { self.regs.c = self.op_set_bit(self.regs.c, 0b0000_1000); } // SET 3 C
            0xDA => { self.regs.d = self.op_set_bit(self.regs.d, 0b0000_1000); } // SET 3 D
            0xDB => { self.regs.e = self.op_set_bit(self.regs.e, 0b0000_1000); } // SET 3 E
            0xDC => { self.regs.h = self.op_set_bit(self.regs.h, 0b0000_1000); } // SET 3 H
            0xDD => { self.regs.l = self.op_set_bit(self.regs.l, 0b0000_1000); } // SET 3 L
            0xDE => { // SET 3 (HL)
                let val = memory.read_byte(self.regs.get_hl());
                memory.write_byte(self.regs.get_hl(), self.op_set_bit(val, 0b0000_1000)); }
            0xDF => { self.regs.a = self.op_set_bit(self.regs.a, 0b0000_1000); } // SET 3 A

            // SET 4
            _ => {}
        }
    }

    /// Opcodes 0xE0 - 0xFF of the 0xCB table.
    #[verifier::rlimit(100)]
    #[verifier::spinoff_prover]
    fn execute_cb_opcodes_7(&mut self, opcode: u8, memory: &mut Memory)
        requires
            0xE0 <= opcode <= 0xFF,
            execute_cb_spec(machine(old(self).regs, old(memory)@), opcode).ok,
        ensures
            machine(final(self).regs, final(memory)@) == execute_cb_spec(machine(old(self).regs, old(memory)@), opcode),
    {
        match opcode {
            0xE0 => { self.regs.b = self.op_set_bit(self.regs.b, 0b0001_0000); } // SET 4 B
            0xE1 => { self.regs.c = self.op_set_bit(self.regs.c, 0b0001_0000); } // SET 4 C
            0xE2 => { self.regs.d = self.op_set_bit(self.regs.d, 0b0001_0000); } // SET 4 D
            0xE3 => { self.regs.e = self.op_set_bit(self.regs.e, 0b0001_0000); } // SET 4 E
            0xE4 => { self.regs.h = self.op_set_bit(self.regs.h, 0b0001_0000); } // SET 4 H
            0xE5 => { self.regs.l = self.op_set_bit(self.regs.l, 0b0001_0000); } // SET 4 L
            0xE6 => { // SET 4 (HL)
                let val = memory.read_byte(self.regs.get_hl());
                memory.write_byte(self.regs.get_hl(), self.op_set_bit(val, 0b0001_0000)); }
            0xE7 => { self.regs.a = self.op_set_bit(self.regs.a, 0b0001_0000); } // SET 4 A

            // SET 5
            0xE8 => { self.regs.b = self.op_set_bit(self.regs.b, 0b0010_0000); } // SET 5 B
            0xE9 => { self.regs.c = self.op_set_bit(self.regs.c, 0b0010_0000); } // SET 5 C
            0xEA => { self.regs.d = self.op_set_bit(self.regs.d, 0b0010_0000); } // SET 5 D
            0xEB => { self.regs.e = self.op_set_bit(self.regs.e, 0b0010_0000); } // SET 5 E
            0xEC => { self.regs.h = self.op_set_bit(self.regs.h, 0b0010_0000); } // SET 5 H
            0xED => { self.regs.l = self.op_set_bit(self.regs.l, 0b0010_0000); } // SET 5 L
            0xEE => { // SET 5 (HL)
                let val = memory.read_byte(self.regs.get_hl());
                memory.write_byte(self.regs.get_hl(), self.op_set_bit(val, 0b0010_0000)); }
            0xEF => { self.regs.a = self.op_set_bit(self.regs.a, 0b0010_0000); } // SET 5 A

            // SET 6
            0xF0 => { self.regs.b = self.op_set_bit(self.regs.b, 0b0100_0000); } // SET 6 B
            0xF1 => { self.regs.c = self.op_set_bit(self.regs.c, 0b0100_0000); } // SET 6 C
            0xF2 => { self.regs.d = self.op_set_bit(self.regs.d, 0b0100_0000); } // SET 6 D
            0xF3 => { self.regs.e = self.op_set_bit(self.regs.e, 0b0100_0000); } // SET 6 E
            0xF4 => { self.regs.h = self.op_set_bit(self.regs.h, 0b0100_0000); } // SET 6 H
            0xF5 => { self.regs.l = self.op_set_bit(self.regs.l, 0b0100_0000); } // SET 6 L
            0xF6 => { // SET 6 (HL)
                let val = memory.read_byte(self.regs.get_hl());
                memory.write_byte(self.regs.get_hl(), self.op_set_bit(val, 0b0100_0000)); }
            0xF7 => { self.regs.a = self.op_set_bit(self.regs.a, 0b0100_0000); } // SET 6 A

            // SET 7
            0xF8 => { self.regs.b = self.op_set_bit(self.regs.b, 0b1000_0000); } // SET 7 B
            0xF9 => { self.regs.c = self.op_set_bit(self.regs.c, 0b1000_0000); } // SET 7 C
            0xFA => { self.regs.d = self.op_set_bit(self.regs.d, 0b1000_0000); } // SET 7 D
            0xFB => { self.regs.e = self.op_set_bit(self.regs.e, 0b1000_0000); } // SET 7 E
            0xFC => { self.regs.h = self.op_set_bit(self.regs.h, 0b1000_0000); } // SET 7 H
            0xFD => { self.regs.l = self.op_set_bit(self.regs.l, 0b1000_0000); } // SET 7 L
            0xFE => { // SET 7 (HL)
                let val = memory.read_byte(self.regs.get_hl());
                memory.write_byte(self.regs.get_hl(), self.op_set_bit(val, 0b1000_0000)); }
            0xFF => { self.regs.a = self.op_set_bit(self.regs.a, 0b1000_0000); } // SET 7 A
            _ => {}
        }
    }

    /// Fetch the byte at the program counter and advance the counter.
    pub fn fetchbyte(&mut self, memory: &Memory) -> (byte: u8)
        requires
            machine(old(self).regs, memory@).fetch8().1.ok,
        ensures
            (byte, machine(final(self).regs, memory@)) == machine(old(self).regs, memory@).fetch8(),
    {
        let byte = memory.read_byte(self.regs.pc);
        self.regs.pc += 1;
        return byte;
    }

    /// Fetch the word at the program counter and advance the counter by 2.
    fn fetchword(&mut self, memory: &Memory) -> (w: u16)
        requires
            machine(old(self).regs, memory@).fetch16().1.ok,
        ensures
            (w, machine(final(self).regs, memory@)) == machine(old(self).regs, memory@).fetch16(),
    {
        let word = memory.read_word(self.regs.pc);
        self.regs.pc += 2;
        return word;
    }

    /// JR: a relative jump by the signed immediate byte.
    fn op_jump_relative(&mut self, memory: &Memory)
        requires
            machine(old(self).regs, memory@).jump_relative().ok,
        ensures
            machine(final(self).regs, memory@) == machine(old(self).regs, memory@).jump_relative(),
    {
        proof {
            reveal(word);
        }
        let b = self.fetchbyte(memory);
        let offset = (b as i8) as i32;
        proof {
            lemma_relative_jump(self.regs.pc, b);
        }
        self.regs.pc = ((self.regs.pc as u32) as i32 + offset) as u16;
    }

    /// JP: an absolute jump to the immediate word.
    fn op_jump(&mut self, memory: &Memory)
        requires
            machine(old(self).regs, memory@).jump().ok,
        ensures
            machine(final(self).regs, memory@) == machine(old(self).regs, memory@).jump(),
    {
        self.regs.pc = self.fetchword(memory);
    }

    /// Push a word onto the stack.
    fn push_stack(&mut self, memory: &mut Memory, reg: u16)
        requires
            machine(old(self).regs, old(memory)@).push16(reg).ok,
        ensures
            machine(final(self).regs, final(memory)@) == machine(old(self).regs, old(memory)@).push16(reg),
    {
        self.regs.sp -= 2;
        memory.write_word(self.regs.sp, reg);
    }

    /// Pop a word from the stack.
    fn pop_stack(&mut self, memory: &Memory) -> (v: u16)
        requires
            machine(old(self).regs, memory@).pop16().1.ok,
        ensures
            (v, machine(final(self).regs, memory@)) == machine(old(self).regs, memory@).pop16(),
    {
        let v = memory.read_word(self.regs.sp);
        self.regs.sp += 2;
        return v;
    }

    /// CALL: push the address after the operand and jump to the operand.
    fn op_call(&mut self, memory: &mut Memory)
        requires
            machine(old(self).regs, old(memory)@).call().ok,
        ensures
            machine(final(self).regs, final(memory)@) == machine(old(self).regs, old(memory)@).call(),
    {
        let ret = self.regs.pc + 2;
        self.push_stack(memory, ret);
        self.regs.pc = self.fetchword(memory);
    }

    /// RET: return to the popped address.
    fn op_ret(&mut self, memory: &Memory)
        requires
            machine(old(self).regs, memory@).ret().ok,
        ensures
            machine(final(self).regs, memory@) == machine(old(self).regs, memory@).ret(),
    {
        self.regs.pc = self.pop_stack(memory);
    }

    /// RST: push the program counter and go to `addr`.
    fn op_restore(&mut self, memory: &mut Memory, addr: u16)
        requires
            machine(old(self).regs, old(memory)@).restart(addr).ok,
        ensures
            machine(final(self).regs, final(memory)@) == machine(old(self).regs, old(memory)@).restart(addr),
    {
        let pc = self.regs.pc;
        self.push_stack(memory, pc);
        self.regs.pc = addr;
    }

    /// ADD and ADC. Flags: Z 0 H C.
    #[verifier::rlimit(40)]
    fn op_add(&mut self, value: u8, use_carry: bool)
        ensures
            final(self).regs == spec_add(old(self).regs, value, use_carry),
    {
        proof {
            reveal(spec_add);
        }
        let ghost r0 = self.regs;
        let carry: u8 = if use_carry && self.regs.get_carry_flag() { 1 } else { 0 };
        let new_value = self.regs.a.wrapping_add(value).wrapping_add(carry);
        let ghost sum: int = r0.a + value + carry;
        proof {
            lemma_low_nibble(r0.a);
            lemma_low_nibble(value);
            assert(new_value == sum % 256);
        }
        self.regs.set_zero_flag(new_value == 0);
        self.regs.set_subtract_flag(false);
        self.regs.set_carry_flag((self.regs.a as u16) + (value as u16) + (carry as u16) > 0xFF);
        self.regs.set_halfcarry_flag((self.regs.a & 0xF) + (value & 0xF) + carry > 0xF);
        self.regs.a = new_value;
        proof {
            lemma_flags_determine_byte(self.regs.f, r0.f, sum % 256 == 0, false,
                r0.a % 16 + value % 16 + carry > 15, sum > 255);
        }
    }

    /// ADD HL, value. Flags: - 0 H C.
    fn op_addword(&mut self, value: u16)
        ensures
            final(self).regs == spec_add_hl(old(self).regs, value),
    {
        proof {
            reveal(spec_add_hl);
            reveal(word);
            reveal(high_byte);
            reveal(low_byte);
        }
        let ghost r0 = self.regs;
        let hl = self.regs.get_hl();
        let new_value = hl.wrapping_add(value);
        proof {
            lemma_word_masks(hl);
            lemma_word_masks(value);
        }
        self.regs.set_subtract_flag(false);
        self.regs.set_carry_flag(hl > 0xFFFF - value);
        self.regs.set_halfcarry_flag((hl & 0x07FF) + (value & 0x07FF) > 0x07FF);
        self.regs.set_hl(new_value);
        proof {
            lemma_flags_determine_byte(self.regs.f, r0.f, flag_z(r0.f), false,
                hl % 2048 + value % 2048 > 2047, hl + value > 65535);
        }
    }

    /// A word plus the signed immediate byte (ADD SP, s8 and LD HL, SP+s8).
    /// Flags: 0 0 H C.
    #[verifier::rlimit(40)]
    fn op_addwordimm(&mut self, memory: &Memory, value: u16) -> (r: u16)
        requires
            machine(old(self).regs, memory@).fetch8().1.ok,
        ensures
            ({
                let (b, m1) = machine(old(self).regs, memory@).fetch8();
                let (res, r2) = spec_add_signed(m1.regs, value, b);
                r == res && final(self).regs == r2
            }),
    {
        proof {
            reveal(spec_add_signed);
        }
        let b = self.fetchbyte(memory);
        let ghost r1 = self.regs;
        proof {
            lemma_sign_extend(b);
            lemma_word_masks(value);
        }
        let imm = b as i8 as i16 as u16;
        proof {
            lemma_word_masks(imm);
            assert(imm & 0x00FF == b);
            assert(imm & 0x000F == b % 16);
        }
        let new_value = value.wrapping_add(imm);
        proof {
            assert(new_value == (value + signed(b) + 65536) % 65536);
        }
        self.regs.set_subtract_flag(false);
        self.regs.set_zero_flag(false);
        self.regs.set_carry_flag((value & 0x00FF) + (imm & 0x00FF) > 0x00FF);
        self.regs.set_halfcarry_flag((value & 0x000F) + (imm & 0x000F) > 0x000F);
        proof {
            lemma_flags_determine_byte(self.regs.f, r1.f, false, false,
                value % 16 + b % 16 > 15, value % 256 + b > 255);
        }
        return new_value;
    }

    /// SUB and SBC. Flags: Z 1 H C.
    #[verifier::rlimit(40)]
    fn op_sub(&mut self, value: u8, use_carry: bool)
        ensures
            final(self).regs == spec_sub(old(self).regs, value, use_carry),
    {
        proof {
            reveal(spec_sub);
        }
        let ghost r0 = self.regs;
        let carry: u8 = if use_carry && self.regs.get_carry_flag() { 1 } else { 0 };
        let new_value = self.regs.a.wrapping_sub(value).wrapping_sub(carry);
        let ghost diff: int = r0.a - value - carry;
        proof {
            lemma_low_nibble(r0.a);
            lemma_low_nibble(value);
            assert(new_value == diff % 256);
        }
        self.regs.set_zero_flag(new_value == 0);
        self.regs.set_subtract_flag(true);
        self.regs.set_carry_flag((self.regs.a as u16) < (value as u16) + (carry as u16));
        self.regs.set_halfcarry_flag((self.regs.a & 0x0F) < (value & 0x0F) + carry);
        self.regs.a = new_value;
        proof {
            lemma_flags_determine_byte(self.regs.f, r0.f, diff % 256 == 0, true,
                r0.a % 16 < value % 16 + carry, r0.a < value + carry);
        }
    }

    /// AND. Flags: Z 0 1 0.
    fn op_and(&mut self, value: u8)
        ensures
            final(self).regs == spec_and(old(self).regs, value),
    {
        let ghost r0 = self.regs;
        let new_value = self.regs.a & value;
        self.regs.set_zero_flag(new_value == 0);
        self.regs.set_subtract_flag(false);
        self.regs.set_carry_flag(false);
        self.regs.set_halfcarry_flag(true);
        self.regs.a = new_value;
        proof {
            lemma_flags_determine_byte(self.regs.f, r0.f, new_value == 0, false, true, false);
        }
    }

    /// XOR. Flags: Z 0 0 0.
    fn op_xor(&mut self, value: u8)
        ensures
            final(self).regs == spec_xor(old(self).regs, value),
    {
        let ghost r0 = self.regs;
        let new_value = self.regs.a ^ value;
        self.regs.set_zero_flag(new_value == 0);
        self.regs.set_subtract_flag(false);
        self.regs.set_carry_flag(false);
        self.regs.set_halfcarry_flag(false);
        self.regs.a = new_value;
        proof {
            lemma_flags_determine_byte(self.regs.f, r0.f, new_value == 0, false, false, false);
        }
    }

    /// OR. Flags: Z 0 0 0.
    fn op_or(&mut self, value: u8)
        ensures
            final(self).regs == spec_or(old(self).regs, value),
    {
        let ghost r0 = self.regs;
        let new_value = self.regs.a | value;
        self.regs.set_zero_flag(new_value == 0);
        self.regs.set_subtract_flag(false);
        self.regs.set_carry_flag(false);
        self.regs.set_halfcarry_flag(false);
        self.regs.a = new_value;
        proof {
            lemma_flags_determine_byte(self.regs.f, r0.f, new_value == 0, false, false, false);
        }
    }

    /// INC. Flags: Z 0 H -.
    fn op_inc(&mut self, value: u8) -> (r: u8)
        ensures
            (r, final(self).regs) == spec_inc(old(self).regs, value),
    {
        let ghost r0 = self.regs;
        let new_value = value.wrapping_add(1);
        proof {
            lemma_byte_ops(value);
        }
        self.regs.set_zero_flag(new_value == 0);
        self.regs.set_halfcarry_flag((value & 0x0F) + 1 > 0x0F);
        self.regs.set_subtract_flag(false);
        proof {
            lemma_flags_determine_byte(self.regs.f, r0.f, new_value == 0, false, value % 16 == 15,
                flag_c(r0.f));
        }
        return new_value;
    }

    /// DEC. Flags: Z 1 H -.
    fn op_dec(&mut self, value: u8) -> (r: u8)
        ensures
            (r, final(self).regs) == spec_dec(old(self).regs, value),
    {
        let ghost r0 = self.regs;
        let new_value = value.wrapping_sub(1);
        proof {
            lemma_byte_ops(value);
        }
        self.regs.set_zero_flag(new_value == 0);
        self.regs.set_halfcarry_flag((value & 0x0F) == 0);
        self.regs.set_subtract_flag(true);
        proof {
            lemma_flags_determine_byte(self.regs.f, r0.f, new_value == 0, true, value % 16 == 0,
                flag_c(r0.f));
        }
        return new_value;
    }

    /// CP: compare A with a value; the flags of SUB, A unchanged.
    fn op_cp(&mut self, b: u8)
        ensures
            final(self).regs == spec_cp(old(self).regs, b),
    {
        proof {
            reveal(spec_sub);
        }
        let r = self.regs.a;
        self.op_sub(b, false);
        self.regs.a = r;
    }

    /// DAA: turn A into binary coded decimal after an ADD or SUB of two BCD
    /// numbers. Flags: Z - 0 C.
    #[verifier::rlimit(40)]
    fn op_daa(&mut self)
        ensures
            final(self).regs == spec_daa(old(self).regs),
    {
        proof {
            reveal(spec_daa);
        }
        let ghost r0 = self.regs;
        let ghost adding = !flag_n(r0.f);
        let ghost low_fix = flag_h(r0.f) || (adding && r0.a % 16 > 9);
        let ghost high_fix = flag_c(r0.f) || (adding && r0.a > 0x99);
        let ghost want: int = (if high_fix { 0x60int } else { 0 }) + (if low_fix { 0x06int } else { 0 });
        let mut a = self.regs.a;
        let mut adjust: u8 = if self.regs.get_carry_flag() { 0x60 } else { 0x00 };
        proof {
            lemma_low_nibble(a);
            assert(0x60u8 | 0x06u8 == 0x66u8 && 0x00u8 | 0x06u8 == 0x06u8 && 0x06u8 | 0x06u8 == 0x06u8
                && 0x66u8 | 0x06u8 == 0x66u8 && 0x60u8 | 0x60u8 == 0x60u8 && 0x06u8 | 0x60u8 == 0x66u8
                && 0x66u8 | 0x60u8 == 0x66u8 && 0x00u8 | 0x60u8 == 0x60u8) by (bit_vector);
        }
        if self.regs.get_halfcarry_flag() {
            adjust |= 0x06;
        }
        assert(adjust == (if flag_c(r0.f) { 0x60int } else { 0 }) + (if flag_h(r0.f) { 0x06int } else { 0 }));
        if !self.regs.get_subtract_flag() {
            if a & 0x0F > 0x09 {
                adjust |= 0x06;
            }
            if a > 0x99 {
                adjust |= 0x60;
            }
            assert(adjust == want);
            a = a.wrapping_add(adjust);
        } else {
            assert(adjust == want);
            a = a.wrapping_sub(adjust);
        }
        assert((adjust >= 0x60) == high_fix);
        self.regs.set_carry_flag(adjust >= 0x60);
        self.regs.set_halfcarry_flag(false);
        self.regs.set_zero_flag(a == 0);
        self.regs.a = a;
        proof {
            lemma_flags_determine_byte(self.regs.f, r0.f, a == 0, flag_n(r0.f), false, high_fix);
        }
    }

    /// RLC: rotate left; the old bit 7 goes to bit 0 and to the carry. Flags: Z 0 0 C.
    fn op_rlc(&mut self, value: u8) -> (r: u8)
        ensures
            (r, final(self).regs) == spec_rot(old(self).regs, 0, value),
    {
        proof {
            reveal(rot_result);
        }
        let ghost r0 = self.regs;
        proof {
            lemma_byte_ops(value);
            lemma_rotate_left_ops(value);
        }
        let last_bit = (value & 0x80) == 0x80;
        let new_value = (value << 1) | (value >> 7);
        self.regs.reset_flags_and_set_zero(new_value);
        proof {
            lemma_with_flags_reads(r0.f, new_value == 0, false, false, false);
        }
        self.regs.set_carry_flag(last_bit);
        proof {
            lemma_flags_determine_byte(self.regs.f, r0.f, new_value == 0, false, false, last_bit);
        }
        return new_value;
    }

    /// RRC: rotate right; the old bit 0 goes to bit 7 and to the carry. Flags: Z 0 0 C.
    fn op_rrc(&mut self, value: u8) -> (r: u8)
        ensures
            (r, final(self).regs) == spec_rot(old(self).regs, 1, value),
    {
        proof {
            reveal(rot_result);
        }
        let ghost r0 = self.regs;
        proof {
            lemma_byte_ops(value);
        }
        let last_bit = (value & 0x1) == 0x1;
        let new_value = (value >> 1) | (value << 7);
        self.regs.reset_flags_and_set_zero(new_value);
        proof {
            lemma_with_flags_reads(r0.f, new_value == 0, false, false, false);
        }
        self.regs.set_carry_flag(last_bit);
        proof {
            lemma_flags_determine_byte(self.regs.f, r0.f, new_value == 0, false, false, last_bit);
        }
        return new_value;
    }

    /// RL: rotate left through the carry, as a 9-bit number. Flags: Z 0 0 C.
    fn op_rl(&mut self, value: u8) -> (r: u8)
        ensures
            (r, final(self).regs) == spec_rot(old(self).regs, 2, value),
    {
        proof {
            reveal(rot_result);
        }
        let ghost r0 = self.regs;
        proof {
            lemma_byte_ops(value);
            lemma_rotate_left_ops(value);
            lemma_shift_fill_ops(value);
        }
        let carry_bit: u8 = if self.regs.get_carry_flag() { 1 } else { 0 };
        let new_value = value << 1 | carry_bit;
        self.regs.reset_flags_and_set_zero(new_value);
        proof {
            lemma_with_flags_reads(r0.f, new_value == 0, false, false, false);
        }
        self.regs.set_carry_flag((value & 0x80) == 0x80);
        proof {
            lemma_flags_determine_byte(self.regs.f, r0.f, new_value == 0, false, false, value >= 128);
        }
        return new_value;
    }

    /// RR: rotate right through the carry, as a 9-bit number. Flags: Z 0 0 C.
    fn op_rr(&mut self, value: u8) -> (r: u8)
        ensures
            (r, final(self).regs) == spec_rot(old(self).regs, 3, value),
    {
        proof {
            reveal(rot_result);
        }
        let ghost r0 = self.regs;
        proof {
            lemma_byte_ops(value);
            lemma_shift_fill_ops(value);
        }
        let carry_bit: u8 = if self.regs.get_carry_flag() { 0x80 } else { 0 };
        let new_value = value >> 1 | carry_bit;
        self.regs.reset_flags_and_set_zero(new_value);
        proof {
            lemma_with_flags_reads(r0.f, new_value == 0, false, false, false);
        }
        self.regs.set_carry_flag((value & 0x1) == 0x1);
        proof {
            lemma_flags_determine_byte(self.regs.f, r0.f, new_value == 0, false, false, value % 2 == 1);
        }
        return new_value;
    }

    /// SLA: shift left, bit 0 becomes zero. Flags: Z 0 0 C.
    fn op_sla(&mut self, value: u8) -> (r: u8)
        ensures
            (r, final(self).regs) == spec_rot(old(self).regs, 4, value),
    {
        proof {
            reveal(rot_result);
        }
        let ghost r0 = self.regs;
        proof {
            lemma_byte_ops(value);
        }
        let new_value = value << 1;
        self.regs.reset_flags_and_set_zero(new_value);
        proof {
            lemma_with_flags_reads(r0.f, new_value == 0, false, false, false);
        }
        self.regs.set_carry_flag((value & 0x80) == 0x80);
        proof {
            lemma_flags_determine_byte(self.regs.f, r0.f, new_value == 0, false, false, value >= 128);
        }
        return new_value;
    }

    /// SRL: shift right, bit 7 becomes zero. Flags: Z 0 0 C.
    fn op_srl(&mut self, value: u8) -> (r: u8)
        ensures
            (r, final(self).regs) == spec_rot(old(self).regs, 7, value),
    {
        proof {
            reveal(rot_result);
        }
        let ghost r0 = self.regs;
        proof {
            lemma_byte_ops(value);
        }
        let new_value = value >> 1;
        self.regs.reset_flags_and_set_zero(new_value);
        proof {
            lemma_with_flags_reads(r0.f, new_value == 0, false, false, false);
        }
        self.regs.set_carry_flag((value & 0x1) == 0x1);
        proof {
            lemma_flags_determine_byte(self.regs.f, r0.f, new_value == 0, false, false, value % 2 == 1);
        }
        return new_value;
    }

    /// SRA: shift right, bit 7 keeps its value. Flags: Z 0 0 C.
    fn op_sra(&mut self, value: u8) -> (r: u8)
        ensures
            (r, final(self).regs) == spec_rot(old(self).regs, 5, value),
    {
        proof {
            reveal(rot_result);
        }
        let ghost r0 = self.regs;
        proof {
            lemma_byte_ops(value);
        }
        let new_value = (value >> 1) | (value & 0x80);
        self.regs.reset_flags_and_set_zero(new_value);
        proof {
            lemma_with_flags_reads(r0.f, new_value == 0, false, false, false);
        }
        self.regs.set_carry_flag((value & 0x1) == 0x1);
        proof {
            lemma_flags_determine_byte(self.regs.f, r0.f, new_value == 0, false, false, value % 2 == 1);
        }
        return new_value;
    }

    /// SWAP: swap the upper and lower nibble. Flags: Z 0 0 0.
    fn op_swap(&mut self, value: u8) -> (r: u8)
        ensures
            (r, final(self).regs) == spec_rot(old(self).regs, 6, value),
    {
        proof {
            reveal(rot_result);
        }
        let ghost r0 = self.regs;
        proof {
            lemma_byte_ops(value);
        }
        let upper = value & 0xF0;
        let lower = value & 0x0F;
        let swapped_value = (upper >> 4) | (lower << 4);
        self.regs.reset_flags_and_set_zero(swapped_value);
        return swapped_value;
    }

    /// BIT: set the zero flag to the complement of the selected bit. Flags: Z 0 1 -.
    fn op_read_bit(&mut self, value: u8, bitmask: u8)
        ensures
            final(self).regs == spec_bit(old(self).regs, value, bitmask),
    {
        let ghost r0 = self.regs;
        let val = value & bitmask;
        self.regs.set_zero_flag(val == 0);
        self.regs.set_halfcarry_flag(true);
        self.regs.set_subtract_flag(false);
        proof {
            lemma_flags_determine_byte(self.regs.f, r0.f, val == 0, false, true, flag_c(r0.f));
        }
    }

    /// RES: clear the selected bit.
    fn op_reset_bit(&mut self, value: u8, bitmask: u8) -> (r: u8)
        ensures
            r == value & !bitmask,
            final(self).regs == old(self).regs,
    {
        return value & (!bitmask);
    }

    /// SET: set the selected bit.
    fn op_set_bit(&mut self, value: u8, bitmask: u8) -> (r: u8)
        ensures
            r == value | bitmask,
            final(self).regs == old(self).regs,
    {
        return value | bitmask;
    }
}

} // verus!
