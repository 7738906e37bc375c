//! The meaning of the Gameboy CPU instructions, as functions on the machine state.
//!
//! An opcode is read as three fields, `x` (bits 7..6), `y` (bits 5..3) and `z`
//! (bits 2..0); `y` is further split into `p` (bits 5..4) and `q` (bit 3).
//! Register operands are numbered B, C, D, E, H, L, (HL), A; register pairs BC,
//! DE, HL, SP (or AF for stack operations); conditions NZ, Z, NC, C; and the
//! arithmetic operations ADD, ADC, SUB, SBC, AND, XOR, OR, CP.
//!
//! A machine state carries an `ok` flag that turns false, and stays false, when
//! the CPU would stop on the instruction: an opcode it does not implement, a
//! program counter or stack pointer that leaves the 16-bit range, or a
//! cartridge read from a bank that is not there.
use vstd::prelude::*;
use crate::bytes::{word, high_byte, low_byte, lemma_word_roundtrip};
use crate::flags::{flag_z, flag_n, flag_h, flag_c, with_flags};
use crate::minimal::cpu::registers::Registers;
use crate::minimal::memory::MemoryView;

verus! {

/// Registers, memory and whether the CPU is still running normally.
pub struct Machine {
    pub regs: Registers,
    pub mem: MemoryView,
    pub ok: bool,
}

/// A running machine with the given registers and memory.
pub open spec fn machine(regs: Registers, mem: MemoryView) -> Machine {
    Machine { regs, mem, ok: true }
}

// ---------------------------------------------------------------------------
// Register access

/// The 8-bit register with number `i` (0 = B .. 5 = L, 7 = A).
pub open spec fn reg8(r: Registers, i: int) -> u8 {
    if i == 0 {
        r.b
    } else if i == 1 {
        r.c
    } else if i == 2 {
        r.d
    } else if i == 3 {
        r.e
    } else if i == 4 {
        r.h
    } else if i == 5 {
        r.l
    } else {
        r.a
    }
}

/// The registers with 8-bit register `i` set to `v`.
pub open spec fn set_reg8(r: Registers, i: int, v: u8) -> Registers {
    if i == 0 {
        Registers { b: v, ..r }
    } else if i == 1 {
        Registers { c: v, ..r }
    } else if i == 2 {
        Registers { d: v, ..r }
    } else if i == 3 {
        Registers { e: v, ..r }
    } else if i == 4 {
        Registers { h: v, ..r }
    } else if i == 5 {
        Registers { l: v, ..r }
    } else {
        Registers { a: v, ..r }
    }
}

pub open spec fn bc(r: Registers) -> u16 {
    word(r.b, r.c)
}

pub open spec fn de(r: Registers) -> u16 {
    word(r.d, r.e)
}

pub open spec fn hl(r: Registers) -> u16 {
    word(r.h, r.l)
}

pub open spec fn af(r: Registers) -> u16 {
    word(r.a, r.f)
}

/// The register pair `p` (BC, DE, HL, SP).
pub open spec fn rp(r: Registers, p: int) -> u16 {
    if p == 0 {
        bc(r)
    } else if p == 1 {
        de(r)
    } else if p == 2 {
        hl(r)
    } else {
        r.sp
    }
}

/// The registers with pair `p` (BC, DE, HL, SP) set to `v`.
pub open spec fn set_rp(r: Registers, p: int, v: u16) -> Registers {
    if p == 0 {
        Registers { b: high_byte(v), c: low_byte(v), ..r }
    } else if p == 1 {
        Registers { d: high_byte(v), e: low_byte(v), ..r }
    } else if p == 2 {
        Registers { h: high_byte(v), l: low_byte(v), ..r }
    } else {
        Registers { sp: v, ..r }
    }
}

/// The register pair `p` for stack operations (BC, DE, HL, AF).
pub open spec fn rp2(r: Registers, p: int) -> u16 {
    if p == 3 {
        af(r)
    } else {
        rp(r, p)
    }
}

/// The registers with stack pair `p` (BC, DE, HL, AF) set to `v`.
pub open spec fn set_rp2(r: Registers, p: int, v: u16) -> Registers {
    if p == 3 {
        Registers { a: high_byte(v), f: low_byte(v), ..r }
    } else {
        set_rp(r, p, v)
    }
}

/// Whether condition `cc` (NZ, Z, NC, C) holds.
pub open spec fn condition(r: Registers, cc: int) -> bool {
    if cc == 0 {
        !flag_z(r.f)
    } else if cc == 1 {
        flag_z(r.f)
    } else if cc == 2 {
        !flag_c(r.f)
    } else {
        flag_c(r.f)
    }
}

/// The single-bit mask of bit `i`.
pub open spec fn bit_mask(i: int) -> u8 {
    if i == 0 {
        0b0000_0001
    } else if i == 1 {
        0b0000_0010
    } else if i == 2 {
        0b0000_0100
    } else if i == 3 {
        0b0000_1000
    } else if i == 4 {
        0b0001_0000
    } else if i == 5 {
        0b0010_0000
    } else if i == 6 {
        0b0100_0000
    } else {
        0b1000_0000
    }
}

/// A byte read as a signed offset.
pub open spec fn signed(b: u8) -> int {
    if b < 128 {
        b as int
    } else {
        b as int - 256
    }
}

// ---------------------------------------------------------------------------
// Arithmetic and logic on the registers

/// ADD and ADC: A + v (+ carry). Flags Z 0 H C.
#[verifier::opaque]
pub open spec fn spec_add(r: Registers, v: u8, use_carry: bool) -> Registers {
    let c: int = if use_carry && flag_c(r.f) { 1 } else { 0 };
    let sum: int = r.a + v + c;
    Registers {
        a: (sum % 256) as u8,
        f: with_flags(r.f, sum % 256 == 0, false, r.a % 16 + v % 16 + c > 15, sum > 255),
        ..r
    }
}

/// SUB and SBC: A - v (- carry). Flags Z 1 H C.
#[verifier::opaque]
pub open spec fn spec_sub(r: Registers, v: u8, use_carry: bool) -> Registers {
    let c: int = if use_carry && flag_c(r.f) { 1 } else { 0 };
    let diff: int = r.a - v - c;
    Registers {
        a: (diff % 256) as u8,
        f: with_flags(r.f, diff % 256 == 0, true, r.a % 16 < v % 16 + c, r.a < v + c),
        ..r
    }
}

/// AND: flags Z 0 1 0.
pub open spec fn spec_and(r: Registers, v: u8) -> Registers {
    Registers { a: r.a & v, f: with_flags(r.f, r.a & v == 0, false, true, false), ..r }
}

/// XOR: flags Z 0 0 0.
pub open spec fn spec_xor(r: Registers, v: u8) -> Registers {
    Registers { a: r.a ^ v, f: with_flags(r.f, r.a ^ v == 0, false, false, false), ..r }
}

/// OR: flags Z 0 0 0.
pub open spec fn spec_or(r: Registers, v: u8) -> Registers {
    Registers { a: r.a | v, f: with_flags(r.f, r.a | v == 0, false, false, false), ..r }
}

/// CP: the flags of SUB, with A left as it was.
pub open spec fn spec_cp(r: Registers, v: u8) -> Registers {
    Registers { a: r.a, ..spec_sub(r, v, false) }
}

/// Arithmetic operation `y` on A and `v`.
pub open spec fn alu(r: Registers, y: int, v: u8) -> Registers {
    if y == 0 {
        spec_add(r, v, false)
    } else if y == 1 {
        spec_add(r, v, true)
    } else if y == 2 {
        spec_sub(r, v, false)
    } else if y == 3 {
        spec_sub(r, v, true)
    } else if y == 4 {
        spec_and(r, v)
    } else if y == 5 {
        spec_xor(r, v)
    } else if y == 6 {
        spec_or(r, v)
    } else {
        spec_cp(r, v)
    }
}

/// INC of a byte: the result and the registers with flags Z 0 H -.
pub open spec fn spec_inc(r: Registers, v: u8) -> (u8, Registers) {
    let res = ((v + 1) % 256) as u8;
    (res, Registers { f: with_flags(r.f, res == 0, false, v % 16 == 15, flag_c(r.f)), ..r })
}

/// DEC of a byte: the result and the registers with flags Z 1 H -.
pub open spec fn spec_dec(r: Registers, v: u8) -> (u8, Registers) {
    let res = ((v - 1 + 256) % 256) as u8;
    (res, Registers { f: with_flags(r.f, res == 0, true, v % 16 == 0, flag_c(r.f)), ..r })
}

/// The result of shift or rotation `y` (RLC, RRC, RL, RR, SLA, SRA, SWAP, SRL)
/// of `v`, given the carry flag before it.
#[verifier::opaque]
pub open spec fn rot_result(y: int, v: u8, carry: bool) -> u8 {
    let cin: int = if carry { 1 } else { 0 };
    let v: int = v as int;
    (if y == 0 {
        (v * 2) % 256 + v / 128
    } else if y == 1 {
        v / 2 + (v % 2) * 128
    } else if y == 2 {
        (v * 2) % 256 + cin
    } else if y == 3 {
        v / 2 + cin * 128
    } else if y == 4 {
        (v * 2) % 256
    } else if y == 5 {
        v / 2 + (v / 128) * 128
    } else if y == 6 {
        v / 16 + (v % 16) * 16
    } else {
        v / 2
    }) as u8
}

/// The carry that shift or rotation `y` of `v` leaves: the bit shifted out.
pub open spec fn rot_carry(y: int, v: u8) -> bool {
    if y == 0 || y == 2 || y == 4 {
        v >= 128
    } else if y == 6 {
        false
    } else {
        v % 2 == 1
    }
}

/// Shift or rotation `y` of `v`: the result and the registers with flags Z 0 0 C.
pub open spec fn spec_rot(r: Registers, y: int, v: u8) -> (u8, Registers) {
    let res = rot_result(y, v, flag_c(r.f));
    (res, Registers { f: with_flags(r.f, res == 0, false, false, rot_carry(y, v)), ..r })
}

/// BIT: Z set to the complement of the bit, flags Z 0 1 -.
pub open spec fn spec_bit(r: Registers, v: u8, mask: u8) -> Registers {
    Registers { f: with_flags(r.f, v & mask == 0, false, true, flag_c(r.f)), ..r }
}

/// ADD HL, v: flags - 0 H C, with the half carry taken from bit 10.
#[verifier::opaque]
pub open spec fn spec_add_hl(r: Registers, v: u16) -> Registers {
    let sum: int = hl(r) + v;
    let res = (sum % 65536) as u16;
    Registers {
        h: high_byte(res),
        l: low_byte(res),
        f: with_flags(r.f, flag_z(r.f), false, hl(r) % 2048 + v % 2048 > 2047, sum > 65535),
        ..r
    }
}

/// A 16-bit value plus a signed byte: the result and the flags 0 0 H C, with the
/// carries taken from the low byte.
#[verifier::opaque]
pub open spec fn spec_add_signed(r: Registers, value: u16, b: u8) -> (u16, Registers) {
    let res = ((value + signed(b) + 65536) % 65536) as u16;
    (
        res,
        Registers {
            f: with_flags(r.f, false, false, value % 16 + b % 16 > 15, value % 256 + b > 255),
            ..r
        },
    )
}

/// DAA: adjust A to binary coded decimal after an addition or subtraction.
/// Flags Z - 0 C.
#[verifier::opaque]
pub open spec fn spec_daa(r: Registers) -> Registers {
    let adding = !flag_n(r.f);
    let low_fix = flag_h(r.f) || (adding && r.a % 16 > 9);
    let high_fix = flag_c(r.f) || (adding && r.a > 0x99);
    let adjust: int = (if high_fix { 0x60int } else { 0 }) + (if low_fix { 0x06int } else { 0 });
    let res = (if adding {
        (r.a + adjust) % 256
    } else {
        (r.a - adjust + 256) % 256
    }) as u8;
    Registers { a: res, f: with_flags(r.f, res == 0, flag_n(r.f), false, high_fix), ..r }
}

// ---------------------------------------------------------------------------
// Steps of an instruction

impl Machine {
    pub open spec fn with_regs(self, regs: Registers) -> Machine {
        Machine { regs, ..self }
    }

    /// The machine, stopped unless `cond` holds.
    pub open spec fn require(self, cond: bool) -> Machine {
        Machine { ok: self.ok && cond, ..self }
    }

    pub open spec fn set_pc(self, pc: u16) -> Machine {
        self.with_regs(Registers { pc, ..self.regs })
    }

    pub open spec fn set_sp(self, sp: u16) -> Machine {
        self.with_regs(Registers { sp, ..self.regs })
    }

    /// The machine after a byte read of `addr`, which stops it if the byte is missing.
    pub open spec fn check_read(self, addr: u16) -> Machine {
        self.require(self.mem.read_ok(addr))
    }

    pub open spec fn write(self, addr: u16, v: u8) -> Machine {
        Machine { mem: self.mem.write(addr, v), ..self }
    }

    /// A word read of `addr`, which needs `addr + 1` in range.
    pub open spec fn check_read_word(self, addr: u16) -> Machine {
        self.require(addr < 0xFFFF && self.mem.read_ok(addr) && self.mem.read_ok(
            (addr + 1) as u16,
        ))
    }

    pub open spec fn write_word(self, addr: u16, v: u16) -> Machine {
        Machine { mem: self.mem.write_word(addr, v), ..self }.require(addr < 0xFFFF)
    }

    /// The byte at the program counter, and the machine with the counter advanced.
    pub open spec fn fetch8(self) -> (u8, Machine) {
        let pc = self.regs.pc;
        (self.mem.read(pc), self.require(pc < 0xFFFF && self.mem.read_ok(pc)).set_pc(
            (pc + 1) as u16,
        ))
    }

    /// The word at the program counter, and the machine with the counter advanced by 2.
    pub open spec fn fetch16(self) -> (u16, Machine) {
        let pc = self.regs.pc;
        (self.mem.read_word(pc), self.check_read_word(pc).require(pc <= 0xFFFD).set_pc(
            (pc + 2) as u16,
        ))
    }

    /// Push a word: the stack pointer drops by 2 and the word is stored there.
    pub open spec fn push16(self, v: u16) -> Machine {
        let m = self.require(self.regs.sp >= 2).set_sp((self.regs.sp - 2) as u16);
        m.write_word(m.regs.sp, v)
    }

    /// Pop a word: the word at the stack pointer, and the pointer raised by 2.
    pub open spec fn pop16(self) -> (u16, Machine) {
        let sp = self.regs.sp;
        (self.mem.read_word(sp), self.check_read_word(sp).require(sp <= 0xFFFD).set_sp(
            (sp + 2) as u16,
        ))
    }

    /// Advance the program counter past `n` operand bytes of an untaken branch.
    pub open spec fn skip(self, n: int) -> Machine {
        self.require(self.regs.pc + n <= 0xFFFF).set_pc((self.regs.pc + n) as u16)
    }

    /// Register operand `z`: a register, or the byte at HL for `z == 6`.
    pub open spec fn operand(self, z: int) -> (u8, Machine) {
        if z == 6 {
            (self.mem.read(hl(self.regs)), self.check_read(hl(self.regs)))
        } else {
            (reg8(self.regs, z), self)
        }
    }

    /// Store into register operand `y`: a register, or the byte at HL for `y == 6`.
    pub open spec fn store(self, y: int, v: u8) -> Machine {
        if y == 6 {
            self.write(hl(self.regs), v)
        } else {
            self.with_regs(set_reg8(self.regs, y, v))
        }
    }

    /// JR: jump by the signed byte that follows.
    pub open spec fn jump_relative(self) -> Machine {
        let (b, m) = self.fetch8();
        m.set_pc(((m.regs.pc + signed(b) + 65536) % 65536) as u16)
    }

    /// JP: jump to the word that follows.
    pub open spec fn jump(self) -> Machine {
        let (w, m) = self.fetch16();
        m.set_pc(w)
    }

    /// CALL: push the address after the operand, then jump to the operand.
    pub open spec fn call(self) -> Machine {
        let m = self.require(self.regs.pc <= 0xFFFD);
        let m1 = m.push16((m.regs.pc + 2) as u16);
        let (w, m2) = m1.fetch16();
        m2.set_pc(w)
    }

    /// RET: pop the program counter.
    pub open spec fn ret(self) -> Machine {
        let (w, m) = self.pop16();
        m.set_pc(w)
    }

    /// RST: push the program counter and jump to `addr`.
    pub open spec fn restart(self, addr: u16) -> Machine {
        self.push16(self.regs.pc).set_pc(addr)
    }

    /// Apply a function of the registers.
    pub open spec fn map_regs(self, r: Registers) -> Machine {
        self.with_regs(r)
    }
}

// ---------------------------------------------------------------------------
// Instructions

/// Opcodes 0x00 - 0x3F.
pub open spec fn execute_block0(m: Machine, y: int, z: int) -> Machine {
    let p = y / 2;
    let q = y % 2;
    let r = m.regs;
    if z == 0 {
        if y == 0 || y == 2 {
            // NOP, STOP
            m
        } else if y == 1 {
            // LD (a16), SP
            let (a, m1) = m.fetch16();
            m1.write_word(a, m1.regs.sp)
        } else if y == 3 {
            m.jump_relative()
        } else if condition(r, y - 4) {
            m.jump_relative()
        } else {
            m.skip(1)
        }
    } else if z == 1 {
        if q == 0 {
            // LD rp, d16
            let (w, m1) = m.fetch16();
            m1.with_regs(set_rp(m1.regs, p, w))
        } else {
            // ADD HL, rp
            m.with_regs(spec_add_hl(r, rp(r, p)))
        }
    } else if z == 2 {
        let addr = if p == 0 {
            bc(r)
        } else if p == 1 {
            de(r)
        } else {
            hl(r)
        };
        let next_hl: u16 = if p == 2 {
            ((hl(r) + 1) % 65536) as u16
        } else {
            ((hl(r) + 65535) % 65536) as u16
        };
        if q == 0 {
            if p <= 1 {
                // LD (BC), A / LD (DE), A
                m.write(addr, r.a)
            } else {
                // LD (HL+), A / LD (HL-), A store A twice, then step HL
                let m1 = m.write(addr, r.a).write(addr, r.a);
                m1.with_regs(set_rp(m1.regs, 2, next_hl))
            }
        } else {
            if p <= 1 {
                // LD A, (BC) / LD A, (DE)
                m.check_read(addr).with_regs(Registers { a: m.mem.read(addr), ..r })
            } else {
                // LD A, (HL+) / LD A, (HL-)
                let m1 = m.check_read(addr).with_regs(Registers { a: m.mem.read(addr), ..r });
                m1.with_regs(set_rp(m1.regs, 2, next_hl))
            }
        }
    } else if z == 3 {
        if q == 0 {
            // INC rp
            m.with_regs(set_rp(r, p, ((rp(r, p) + 1) % 65536) as u16))
        } else {
            // DEC rp
            m.with_regs(set_rp(r, p, ((rp(r, p) + 65535) % 65536) as u16))
        }
    } else if z == 4 {
        // INC r
        let (v, m1) = m.operand(y);
        let (res, r2) = spec_inc(m1.regs, v);
        m1.with_regs(r2).store(y, res)
    } else if z == 5 {
        // DEC r
        let (v, m1) = m.operand(y);
        let (res, r2) = spec_dec(m1.regs, v);
        m1.with_regs(r2).store(y, res)
    } else if z == 6 {
        // LD r, d8
        let (v, m1) = m.fetch8();
        m1.store(y, v)
    } else {
        if y <= 3 {
            // RLCA, RRCA, RLA, RRA: the rotation with Z cleared
            let (res, r2) = spec_rot(r, y, r.a);
            m.with_regs(
                Registers {
                    a: res,
                    f: with_flags(r2.f, false, flag_n(r2.f), flag_h(r2.f), flag_c(r2.f)),
                    ..r2
                },
            )
        } else if y == 4 {
            m.with_regs(spec_daa(r))
        } else if y == 5 {
            // CPL
            m.with_regs(
                Registers {
                    a: (255 - r.a) as u8,
                    f: with_flags(r.f, flag_z(r.f), true, true, flag_c(r.f)),
                    ..r
                },
            )
        } else if y == 6 {
            // SCF
            m.with_regs(Registers { f: with_flags(r.f, flag_z(r.f), false, false, true), ..r })
        } else {
            // CCF
            m.with_regs(
                Registers { f: with_flags(r.f, flag_z(r.f), false, false, !flag_c(r.f)), ..r },
            )
        }
    }
}

/// Opcodes 0xC0 - 0xFF, except the 0xCB prefix.
pub open spec fn execute_block3(m: Machine, y: int, z: int) -> Machine {
    let p = y / 2;
    let q = y % 2;
    let r = m.regs;
    if z == 0 {
        if y <= 3 {
            // RET cc
            if condition(r, y) {
                m.ret()
            } else {
                m
            }
        } else if y == 4 {
            // LD (0xFF00 + a8), A
            let (n, m1) = m.fetch8();
            m1.write((0xFF00 + n) as u16, m1.regs.a)
        } else if y == 5 {
            // ADD SP, s8
            let (b, m1) = m.fetch8();
            let (res, r2) = spec_add_signed(m1.regs, m1.regs.sp, b);
            m1.with_regs(Registers { sp: res, ..r2 })
        } else if y == 6 {
            // LD A, (0xFF00 + a8)
            let (n, m1) = m.fetch8();
            let addr = (0xFF00 + n) as u16;
            m1.check_read(addr).with_regs(Registers { a: m1.mem.read(addr), ..m1.regs })
        } else {
            // LD HL, SP + s8
            let (b, m1) = m.fetch8();
            let (res, r2) = spec_add_signed(m1.regs, m1.regs.sp, b);
            m1.with_regs(set_rp(r2, 2, res))
        }
    } else if z == 1 {
        if q == 0 {
            // POP rp2
            let (w, m1) = m.pop16();
            m1.with_regs(set_rp2(m1.regs, p, w))
        } else if p <= 1 {
            // RET, RETI
            m.ret()
        } else if p == 2 {
            // JP HL
            m.set_pc(hl(r))
        } else {
            // LD SP, HL
            m.set_sp(hl(r))
        }
    } else if z == 2 {
        if y <= 3 {
            // JP cc, a16
            if condition(r, y) {
                m.jump()
            } else {
                m.skip(2)
            }
        } else if y == 4 {
            // LD (0xFF00 + C), A
            m.write((0xFF00 + r.c) as u16, r.a)
        } else if y == 5 {
            // LD (a16), A
            let (a, m1) = m.fetch16();
            m1.write(a, m1.regs.a)
        } else if y == 6 {
            // LD A, (0xFF00 + C)
            let addr = (0xFF00 + r.c) as u16;
            m.check_read(addr).with_regs(Registers { a: m.mem.read(addr), ..r })
        } else {
            // LD A, (a16)
            let (a, m1) = m.fetch16();
            m1.check_read(a).with_regs(Registers { a: m1.mem.read(a), ..m1.regs })
        }
    } else if z == 3 {
        if y == 0 {
            m.jump()
        } else if y == 6 || y == 7 {
            // DI clears the interrupt master enable, EI sets it
            Machine { mem: MemoryView { interrupt_master_enable: y == 7, ..m.mem }, ..m }
        } else {
            // not implemented
            m.require(false)
        }
    } else if z == 4 {
        if y <= 3 {
            // CALL cc, a16
            if condition(r, y) {
                m.call()
            } else {
                m.skip(2)
            }
        } else {
            m.require(false)
        }
    } else if z == 5 {
        if q == 0 {
            // PUSH rp2
            m.push16(rp2(r, p))
        } else if p == 0 {
            m.call()
        } else {
            m.require(false)
        }
    } else if z == 6 {
        // arithmetic with an immediate byte
        let (v, m1) = m.fetch8();
        m1.with_regs(alu(m1.regs, y, v))
    } else {
        // RST
        m.restart((y * 8) as u16)
    }
}

/// One instruction of the 0xCB table.
pub open spec fn execute_cb_spec(m: Machine, op: u8) -> Machine {
    let x = op / 64;
    let y = (op / 8) % 8;
    let z = op % 8;
    let (v, m1) = m.operand(z as int);
    if x == 0 {
        let (res, r2) = spec_rot(m1.regs, y as int, v);
        m1.with_regs(r2).store(z as int, res)
    } else if x == 1 {
        m1.with_regs(spec_bit(m1.regs, v, bit_mask(y as int)))
    } else if x == 2 {
        m1.store(z as int, v & !bit_mask(y as int))
    } else {
        m1.store(z as int, v | bit_mask(y as int))
    }
}

/// One instruction, with the program counter already past its opcode.
pub open spec fn execute_spec(m: Machine, opcode: u8) -> Machine {
    let x = opcode / 64;
    let y = (opcode / 8) % 8;
    let z = opcode % 8;
    if x == 0 {
        execute_block0(m, y as int, z as int)
    } else if x == 1 {
        if opcode == 0x76 {
            // HALT is not implemented
            m.require(false)
        } else {
            // LD r, r'
            let (v, m1) = m.operand(z as int);
            m1.store(y as int, v)
        }
    } else if x == 2 {
        let (v, m1) = m.operand(z as int);
        m1.with_regs(alu(m1.regs, y as int, v))
    } else if opcode == 0xCB {
        let (op, m1) = m.fetch8();
        execute_cb_spec(m1, op)
    } else {
        execute_block3(m, y as int, z as int)
    }
}

/// One CPU cycle: fetch the opcode at the program counter and execute it.
pub open spec fn cycle_spec(m: Machine) -> Machine {
    let (opcode, m1) = m.fetch8();
    execute_spec(m1, opcode)
}

/// `n` CPU cycles in a row.
pub open spec fn run_spec(m: Machine, n: nat) -> Machine
    decreases n,
{
    if n == 0 {
        m
    } else {
        run_spec(cycle_spec(m), (n - 1) as nat)
    }
}

// ---------------------------------------------------------------------------
// Laws of running the CPU

/// A stopped machine stays stopped through any instruction.
pub proof fn lemma_execute_keeps_stop(m: Machine, opcode: u8)
    requires
        !m.ok,
    ensures
        !execute_spec(m, opcode).ok,
{
    let (op, m1) = m.fetch8();
    assert(!m1.ok);
    assert(!execute_cb_spec(m1, op).ok);
}

/// A stopped machine stays stopped through any cycle.
pub proof fn lemma_cycle_keeps_stop(m: Machine)
    requires
        !m.ok,
    ensures
        !cycle_spec(m).ok,
{
    let (opcode, m1) = m.fetch8();
    lemma_execute_keeps_stop(m1, opcode);
}

/// A stopped machine stays stopped through any number of cycles.
pub proof fn lemma_run_keeps_stop(m: Machine, n: nat)
    requires
        !m.ok,
    ensures
        !run_spec(m, n).ok,
    decreases n,
{
    if n > 0 {
        lemma_cycle_keeps_stop(m);
        lemma_run_keeps_stop(cycle_spec(m), (n - 1) as nat);
    }
}

/// Running `a` cycles and then `b` cycles is running `a + b` cycles.
pub proof fn lemma_run_adds(m: Machine, a: nat, b: nat)
    ensures
        run_spec(run_spec(m, a), b) == run_spec(m, a + b),
    decreases a,
{
    if a > 0 {
        lemma_run_adds(cycle_spec(m), (a - 1) as nat, b);
        assert((a - 1) as nat + b == (a + b - 1) as nat);
    }
}

/// One more cycle after `n` cycles.
pub proof fn lemma_run_step(m: Machine, n: nat)
    ensures
        run_spec(m, n + 1) == cycle_spec(run_spec(m, n)),
{
    lemma_run_adds(m, n, 1);
    assert(run_spec(run_spec(m, n), 1) == run_spec(cycle_spec(run_spec(m, n)), 0));
}

/// A run that ends normally ran normally at every cycle before.
pub proof fn lemma_run_prefix_ok(m: Machine, k: nat, n: nat)
    requires
        k <= n,
        run_spec(m, n).ok,
    ensures
        run_spec(m, k).ok,
{
    lemma_run_adds(m, k, (n - k) as nat);
    if !run_spec(m, k).ok {
        lemma_run_keeps_stop(run_spec(m, k), (n - k) as nat);
    }
}

/// Whether `a` is a byte of work RAM or high RAM.
pub open spec fn stack_ram(a: int) -> bool {
    0xC000 <= a <= 0xDFFF || 0xFF80 <= a <= 0xFFFE
}

/// Opcode 0xCD is CALL a16.
proof fn lemma_decode_call(m: Machine)
    ensures
        execute_spec(m, 0xCD) == m.call(),
{
    assert(execute_spec(m, 0xCD) == execute_block3(m, 1, 5));
}

/// Opcode 0xC9 is RET.
proof fn lemma_decode_ret(m: Machine)
    ensures
        execute_spec(m, 0xC9) == m.ret(),
{
    assert(execute_spec(m, 0xC9) == execute_block3(m, 1, 1));
}

/// The address of the byte that address `a` reaches: an address of the work
/// RAM mirror (0xE000-0xFDFF) reaches the work RAM byte 0x2000 below it.
pub open spec fn ram_byte_of(a: int) -> int {
    if 0xE000 <= a <= 0xFDFF {
        a - 0x2000
    } else {
        a
    }
}

/// The stack and operand conditions under which CALL then RET come back.
pub open spec fn call_ret_ok(m: Machine) -> bool {
    &&& m.ok
    &&& m.mem.wf()
    &&& m.regs.pc <= 0xFFFD
    &&& m.mem.read_ok(m.regs.pc)
    &&& m.mem.read_ok((m.regs.pc + 1) as u16)
    &&& stack_ram(m.regs.sp - 2)
    &&& stack_ram(m.regs.sp - 1)
    &&& ram_byte_of(m.regs.pc as int) != m.regs.sp - 2 && ram_byte_of(m.regs.pc as int) != m.regs.sp - 1
    &&& ram_byte_of(m.regs.pc + 1) != m.regs.sp - 2 && ram_byte_of(m.regs.pc + 1) != m.regs.sp - 1
}

/// The machine steps of CALL and RET under `call_ret_ok`.
proof fn lemma_call_ret_steps(m: Machine)
    requires
        call_ret_ok(m),
    ensures
        m.call().ok,
        m.call().regs == (Registers { pc: m.mem.read_word(m.regs.pc), sp: (m.regs.sp - 2) as u16, ..m.regs }),
        m.call().mem.read_word((m.regs.sp - 2) as u16) == m.regs.pc + 2,
        m.call().ret().ok,
        m.call().ret().regs == (Registers { pc: (m.regs.pc + 2) as u16, ..m.regs }),
{
    reveal(MemoryView::read);
    reveal(MemoryView::write);
    reveal(MemoryView::read_ok);
    let v = (m.regs.pc + 2) as u16;
    lemma_word_roundtrip(v);
}

/// CALL followed by RET comes back to the instruction after the CALL with the
/// stack and the other registers as they were: CALL jumps to its operand and
/// leaves the return address on the stack, RET takes it off again. The
/// stack's two bytes lie in RAM, and the CALL's operand bytes are not the
/// stack's bytes, directly or through the work RAM mirror.
pub proof fn lemma_call_then_ret(m: Machine)
    requires
        call_ret_ok(m),
    ensures
        execute_spec(m, 0xCD).ok,
        execute_spec(m, 0xCD).regs.pc == m.mem.read_word(m.regs.pc),
        execute_spec(m, 0xCD).regs.sp == m.regs.sp - 2,
        execute_spec(m, 0xCD).mem.read_word((m.regs.sp - 2) as u16) == m.regs.pc + 2,
        execute_spec(execute_spec(m, 0xCD), 0xC9).ok,
        execute_spec(execute_spec(m, 0xCD), 0xC9).regs == (Registers { pc: (m.regs.pc + 2) as u16, ..m.regs }),
{
    lemma_decode_call(m);
    lemma_decode_ret(m.call());
    lemma_call_ret_steps(m);
}

} // verus!
