//! Whether the next instruction of the minimal machine runs normally: the
//! checks the instruction semantics make, computed on the machine as it is.
use vstd::prelude::*;
use crate::bytes::{high_byte, low_byte};
use crate::minimal::cpu::registers::Registers;
use crate::minimal::emulator::Emulator;
use crate::minimal::instructions::{
    Machine,
    machine,
    condition,
    execute_block0,
    execute_block3,
    execute_cb_spec,
    execute_spec,
    cycle_spec,
    lemma_execute_keeps_stop,
};
use crate::minimal::memory::{Memory, MemoryView};
use crate::minimal::rom::{Rom, RomView, MBCType};

verus! {

impl Rom {
    /// Whether a read of `addr` finds its bank.
    pub fn can_read(&self, addr: u16) -> (r: bool)
        ensures
            r == self@.read_ok(addr as int),
    {
        self.can_read_with_bank(addr, self.current_rom_bank)
    }

    /// Whether a read of `addr` (in 0x0000-0x7FFF) would find its bank with
    /// `rom_bank` selected.
    fn can_read_with_bank(&self, addr: u16, rom_bank: u8) -> (r: bool)
        ensures
            addr <= 0x7FFF ==> r == (RomView { current_rom_bank: rom_bank, ..self@ }).read_ok(addr as int),
            addr > 0x7FFF && rom_bank == self.current_rom_bank ==> r == self@.read_ok(addr as int),
    {
        let n = self.rom_banks.len();
        if addr <= 0x3FFF {
            n > 0
        } else if addr <= 0x7FFF {
            match self.mbc_type {
                MBCType::RomOnly => n > 1,
                _ => (rom_bank as usize) < n,
            }
        } else if 0xA000 <= addr && addr <= 0xBFFF {
            match self.mbc_type {
                MBCType::RomOnly => self.ram_banks.len() > 0,
                _ => (self.current_ram_bank as usize) < self.ram_banks.len(),
            }
        } else {
            true
        }
    }

    /// The ROM bank and banking mode after a write of `val` to `addr` in
    /// 0x0000-0x7FFF, on a cartridge state `w` of this cartridge with the ROM
    /// bank `rom_bank` and the banking mode `mode`.
    fn bank_after(&self, Ghost(w): Ghost<RomView>, rom_bank: u8, mode: bool, addr: u16, val: u8) -> (res: (u8, bool))
        requires
            addr <= 0x7FFF,
            w.mbc_type == self@.mbc_type,
            w.current_rom_bank == rom_bank,
            w.ram_banking_mode == mode,
        ensures
            res.0 == w.write(addr as int, val).current_rom_bank,
            res.1 == w.write(addr as int, val).ram_banking_mode,
            w.write(addr as int, val).rom_banks == w.rom_banks,
            w.write(addr as int, val).mbc_type == w.mbc_type,
    {
        match self.mbc_type {
            MBCType::Mbc1 => {
                if 0x2000 <= addr && addr <= 0x3FFF {
                    (rom_bank & 0b1100_0000 | (if val == 0 {
                        1
                    } else {
                        val
                    }), mode)
                } else if 0x4000 <= addr && addr <= 0x5FFF && !mode {
                    (rom_bank & 0b0001_1111 | ((val & 0x03) << 5), mode)
                } else if 0x6000 <= addr {
                    (rom_bank, val != 0)
                } else {
                    (rom_bank, mode)
                }
            },
            _ => (rom_bank, mode),
        }
    }
}

impl Memory {
    /// Whether a read of `address` can be served.
    pub fn can_read(&self, address: u16) -> (r: bool)
        ensures
            r == self@.read_ok(address),
    {
        proof {
            reveal(MemoryView::read_ok);
        }
        address > 0x7FFF || self.rom.can_read(address)
    }

    /// Whether a read of `a` can be served after the word `v` was pushed at
    /// `sp - 2`.
    fn can_read_after_push(&self, sp: u16, v: u16, a: u16) -> (r: bool)
        requires
            sp >= 2,
        ensures
            r == self@.write_word((sp - 2) as u16, v).read_ok(a),
    {
        proof {
            reveal(MemoryView::read_ok);
            reveal(MemoryView::write);
            reveal(low_byte);
            reveal(high_byte);
        }
        if a > 0x7FFF {
            return true;
        }
        let lo_addr: u16 = sp - 2;
        let hi_addr: u16 = sp - 1;
        let lo: u8 = (v % 256) as u8;
        let hi: u8 = (v / 256) as u8;
        let mut bank = self.rom.current_rom_bank;
        let mut mode = self.rom.ram_banking_mode;
        let ghost v0 = self.rom@;
        let ghost v1 = if lo_addr <= 0x7FFF {
            v0.write(lo_addr as int, lo)
        } else {
            v0
        };
        if lo_addr <= 0x7FFF {
            let (b, md) = self.rom.bank_after(Ghost(v0), bank, mode, lo_addr, lo);
            bank = b;
            mode = md;
        }
        assert(v1.rom_banks == v0.rom_banks && v1.mbc_type == v0.mbc_type && v1.current_rom_bank == bank
            && v1.ram_banking_mode == mode);
        let ghost v2 = if hi_addr <= 0x7FFF {
            v1.write(hi_addr as int, hi)
        } else {
            v1
        };
        if hi_addr <= 0x7FFF {
            let (b, md) = self.rom.bank_after(Ghost(v1), bank, mode, hi_addr, hi);
            bank = b;
            mode = md;
        }
        assert(v2.rom_banks == v0.rom_banks && v2.mbc_type == v0.mbc_type && v2.current_rom_bank == bank);
        assert(self@.write_word((sp - 2) as u16, v).rom == v2);
        self.rom.can_read_with_bank(a, bank)
    }
}

/// Whether the byte at the program counter can be fetched.
fn fetch8_ok(r: &Registers, mem: &Memory) -> (ok: bool)
    ensures
        ok == machine(*r, mem@).fetch8().1.ok,
{
    r.pc < 0xFFFF && mem.can_read(r.pc)
}

/// Whether the word at the program counter can be fetched.
fn fetch16_ok(r: &Registers, mem: &Memory) -> (ok: bool)
    ensures
        ok == machine(*r, mem@).fetch16().1.ok,
{
    r.pc < 0xFFFF && mem.can_read(r.pc) && mem.can_read(r.pc + 1) && r.pc <= 0xFFFD
}

/// Whether a word can be popped.
fn pop_ok(r: &Registers, mem: &Memory) -> (ok: bool)
    ensures
        ok == machine(*r, mem@).pop16().1.ok,
{
    r.sp < 0xFFFF && mem.can_read(r.sp) && mem.can_read(r.sp + 1) && r.sp <= 0xFFFD
}

/// Whether a CALL to the word at the program counter runs normally.
fn call_ok(r: &Registers, mem: &Memory) -> (ok: bool)
    ensures
        ok == machine(*r, mem@).call().ok,
{
    r.pc <= 0xFFFD && r.sp >= 2 && mem.can_read_after_push(r.sp, r.pc + 2, r.pc) && mem.can_read_after_push(
        r.sp,
        r.pc + 2,
        r.pc + 1,
    )
}

/// Condition `cc` on the flags.
fn condition_holds(r: &Registers, cc: u8) -> (b: bool)
    requires
        cc < 4,
    ensures
        b == condition(*r, cc as int),
{
    if cc == 0 {
        r.f & 0x80 == 0
    } else if cc == 1 {
        r.f & 0x80 != 0
    } else if cc == 2 {
        r.f & 0x10 == 0
    } else {
        r.f & 0x10 != 0
    }
}

/// Whether an instruction of opcodes 0x00-0x3F runs normally.
fn block0_ok(r: &Registers, mem: &Memory, y: u8, z: u8) -> (ok: bool)
    requires
        y < 8,
        z < 8,
    ensures
        ok == execute_block0(machine(*r, mem@), y as int, z as int).ok,
{
    let p = y / 2;
    let q = y % 2;
    if z == 0 {
        if y == 0 || y == 2 {
            true
        } else if y == 1 {
            fetch16_ok(r, mem) && mem.read_word(r.pc) < 0xFFFF
        } else if y == 3 {
            fetch8_ok(r, mem)
        } else if condition_holds(r, y - 4) {
            fetch8_ok(r, mem)
        } else {
            r.pc < 0xFFFF
        }
    } else if z == 1 {
        q == 1 || fetch16_ok(r, mem)
    } else if z == 2 {
        if q == 0 {
            true
        } else if p == 0 {
            mem.can_read(r.get_bc())
        } else if p == 1 {
            mem.can_read(r.get_de())
        } else {
            mem.can_read(r.get_hl())
        }
    } else if z == 4 || z == 5 {
        y != 6 || mem.can_read(r.get_hl())
    } else if z == 6 {
        fetch8_ok(r, mem)
    } else {
        true
    }
}

/// Whether an instruction of opcodes 0xC0-0xFF other than 0xCB runs normally.
fn block3_ok(r: &Registers, mem: &Memory, y: u8, z: u8) -> (ok: bool)
    requires
        y < 8,
        z < 8,
    ensures
        ok == execute_block3(machine(*r, mem@), y as int, z as int).ok,
{
    proof {
        reveal(MemoryView::read_ok);
    }
    let p = y / 2;
    let q = y % 2;
    if z == 0 {
        if y <= 3 {
            !condition_holds(r, y) || pop_ok(r, mem)
        } else {
            fetch8_ok(r, mem)
        }
    } else if z == 1 {
        if q == 0 || p <= 1 {
            pop_ok(r, mem)
        } else {
            true
        }
    } else if z == 2 {
        if y <= 3 {
            if condition_holds(r, y) {
                fetch16_ok(r, mem)
            } else {
                r.pc <= 0xFFFD
            }
        } else if y == 4 || y == 6 {
            true
        } else if y == 5 {
            fetch16_ok(r, mem)
        } else {
            fetch16_ok(r, mem) && mem.can_read(mem.read_word(r.pc))
        }
    } else if z == 3 {
        if y == 0 {
            fetch16_ok(r, mem)
        } else {
            y == 6 || y == 7
        }
    } else if z == 4 {
        if y <= 3 {
            if condition_holds(r, y) {
                call_ok(r, mem)
            } else {
                r.pc <= 0xFFFD
            }
        } else {
            false
        }
    } else if z == 5 {
        if q == 0 {
            r.sp >= 2
        } else if p == 0 {
            call_ok(r, mem)
        } else {
            false
        }
    } else if z == 6 {
        fetch8_ok(r, mem)
    } else {
        r.sp >= 2
    }
}

/// Whether the instruction `opcode`, already fetched, runs normally.
fn execute_ok(r: &Registers, mem: &Memory, opcode: u8) -> (ok: bool)
    ensures
        ok == execute_spec(machine(*r, mem@), opcode).ok,
{
    let x = opcode / 64;
    let y = (opcode / 8) % 8;
    let z = opcode % 8;
    if x == 0 {
        block0_ok(r, mem, y, z)
    } else if x == 1 {
        opcode != 0x76 && (z != 6 || mem.can_read(r.get_hl()))
    } else if x == 2 {
        z != 6 || mem.can_read(r.get_hl())
    } else if opcode == 0xCB {
        if !fetch8_ok(r, mem) {
            proof {
                lemma_execute_keeps_stop_cb(machine(*r, mem@));
            }
            false
        } else {
            let op = mem.read_byte(r.pc);
            let r1 = Registers { pc: r.pc + 1, ..*r };
            assert(machine(*r, mem@).fetch8() == (op, machine(r1, mem@)));
            op % 8 != 6 || mem.can_read(r1.get_hl())
        }
    } else {
        block3_ok(r, mem, y, z)
    }
}

/// A CB instruction on a stopped machine stays stopped.
proof fn lemma_execute_keeps_stop_cb(m: Machine)
    ensures
        !m.fetch8().1.ok ==> !execute_spec(m, 0xCB).ok,
{
    if !m.fetch8().1.ok {
        let (op, m1) = m.fetch8();
        assert(!execute_cb_spec(m1, op).ok);
    }
}

impl Emulator {
    /// Whether the next instruction runs normally, so that `step` may be
    /// called: its opcode and operands can be read, it is implemented, and the
    /// stack and program counter stay in range.
    pub fn step_ok(&self) -> (ok: bool)
        ensures
            ok == cycle_spec(machine(self.cpu.regs, self.memory@)).ok,
    {
        let r = Registers { ..self.cpu.regs };
        if !fetch8_ok(&r, &self.memory) {
            proof {
                let (op, m1) = machine(r, self.memory@).fetch8();
                lemma_execute_keeps_stop(m1, op);
            }
            return false;
        }
        let opcode = self.memory.read_byte(r.pc);
        let r1 = Registers { pc: r.pc + 1, ..r };
        assert(machine(r, self.memory@).fetch8() == (opcode, machine(r1, self.memory@)));
        execute_ok(&r1, &self.memory, opcode)
    }
}

} // verus!
