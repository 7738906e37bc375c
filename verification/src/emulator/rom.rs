//! The cartridge of the full machine: ROM banks, external RAM banks, the memory
//! bank controller (MBC) that switches between them, and the boot ROM that can
//! shadow the first 256 bytes.
pub mod rtc;

use vstd::prelude::*;
use vstd::slice::{slice_subrange, slice_to_vec};

verus! {

/// Size of one ROM bank.
pub const ROM_BANK_SIZE: usize = 16384;

/// Size of one external RAM bank.
pub const RAM_BANK_SIZE: usize = 8192;

/// The memory bank controller of a cartridge.
#[derive(Copy, Clone, PartialEq, Eq, Debug, Structural)]
pub enum MBCType {
    RomOnly,
    Mbc1,
    Mbc2,
    Mbc3,
    Mbc5,
}

/// The cartridge.
pub struct Rom {
    pub rom_banks: Vec<Vec<u8>>,
    pub ram_banks: Vec<Vec<u8>>,
    pub current_rom_bank: u8,
    pub current_ram_bank: u8,
    pub external_ram_enabled: bool,
    pub ram_banking_mode: bool,
    pub filename: String,
    pub romname: String,
    pub mbc_type: MBCType,
    pub using_boot_rom: bool,
    pub boot_rom: [u8; 256],
}

/// The state of a cartridge, with its banks as sequences of bytes.
pub struct RomView {
    pub rom_banks: Seq<Seq<u8>>,
    pub ram_banks: Seq<Seq<u8>>,
    pub current_rom_bank: u8,
    pub current_ram_bank: u8,
    pub external_ram_enabled: bool,
    pub ram_banking_mode: bool,
    pub filename: Seq<char>,
    pub romname: Seq<char>,
    pub mbc_type: MBCType,
    pub using_boot_rom: bool,
    pub boot_rom: Seq<u8>,
}

/// The controller that the cartridge header byte 0x0147 selects, if it is supported.
pub open spec fn spec_mbc_type(header: u8) -> Option<MBCType> {
    if header == 0x00 || header == 0x08 || header == 0x09 {
        Some(MBCType::RomOnly)
    } else if 0x01 <= header <= 0x03 {
        Some(MBCType::Mbc1)
    } else if 0x0F <= header <= 0x13 {
        Some(MBCType::Mbc3)
    } else {
        None
    }
}

/// The number of external RAM banks that header byte 0x0148 asks for. Small
/// sizes get one whole bank.
pub open spec fn spec_ram_bank_count(header: u8) -> nat {
    if header <= 0x02 {
        1
    } else if header == 0x03 {
        4
    } else if header == 0x04 {
        16
    } else if header == 0x05 {
        8
    } else {
        1
    }
}

/// The header checksum over bytes 0x0134..=0x014C: starting from 0, subtract
/// each byte and one more, wrapping.
pub open spec fn spec_header_checksum(bank: Seq<u8>, end: int) -> u8
    decreases end - 0x0134,
{
    if end <= 0x0134 {
        0
    } else {
        let x = spec_header_checksum(bank, end - 1);
        ((x - bank[end - 1] - 1 + 512) % 256) as u8
    }
}

/// The 16 KiB banks that `data` splits into; the last one may be shorter.
pub open spec fn spec_chunks(data: Seq<u8>) -> Seq<Seq<u8>> {
    let len = data.len() as int;
    let n: int = len / 16384 + (if len % 16384 == 0 {
        0int
    } else {
        1int
    });
    Seq::new(
        n as nat,
        |i: int|
            data.subrange(
                i * 16384,
                if (i + 1) * 16384 <= len {
                    (i + 1) * 16384
                } else {
                    len
                },
            ),
    )
}

/// The header checksum only reads the header bytes.
pub proof fn lemma_checksum_prefix(a: Seq<u8>, b: Seq<u8>, end: int)
    requires
        0x0134 <= end,
        end <= a.len(),
        end <= b.len(),
        forall|j: int| 0 <= j < end ==> a[j] == b[j],
    ensures
        spec_header_checksum(a, end) == spec_header_checksum(b, end),
    decreases end - 0x0134,
{
    if end > 0x0134 {
        lemma_checksum_prefix(a, b, end - 1);
    }
}

impl RomView {
    /// An empty cartridge: no banks, ROM bank 1 selected, no controller, boot ROM
    /// off and zeroed.
    pub open spec fn initial() -> RomView {
        RomView {
            rom_banks: Seq::empty(),
            ram_banks: Seq::empty(),
            current_rom_bank: 1,
            current_ram_bank: 0,
            external_ram_enabled: false,
            ram_banking_mode: false,
            filename: Seq::empty(),
            romname: Seq::empty(),
            mbc_type: MBCType::RomOnly,
            using_boot_rom: false,
            boot_rom: Seq::new(256, |i: int| 0u8),
        }
    }

    /// Every external RAM bank holds 8 KiB and the boot ROM 256 bytes.
    pub open spec fn wf(self) -> bool {
        &&& forall|i: int| 0 <= i < self.ram_banks.len() ==> #[trigger] self.ram_banks[i].len() == RAM_BANK_SIZE
        &&& self.boot_rom.len() == 256
    }

    /// Whether ROM bank `bank` exists and holds offset `offset`.
    pub open spec fn has_rom(self, bank: int, offset: int) -> bool {
        0 <= bank < self.rom_banks.len() && 0 <= offset < self.rom_banks[bank].len()
    }

    /// Whether a read of `addr` can be served; it fails on a missing bank or byte,
    /// or on a controller that is not implemented (MBC2, MBC5).
    pub open spec fn read_ok(self, addr: int) -> bool {
        if self.using_boot_rom && 0 <= addr < 256 {
            true
        } else {
            match self.mbc_type {
                MBCType::RomOnly => {
                    &&& 0 <= addr <= 0x3FFF ==> self.has_rom(0, addr)
                    &&& 0x4000 <= addr <= 0x7FFF ==> self.has_rom(1, addr - 0x4000)
                    &&& 0xA000 <= addr <= 0xBFFF ==> self.ram_banks.len() > 0
                },
                MBCType::Mbc1 => {
                    &&& 0 <= addr <= 0x3FFF ==> self.has_rom(0, addr)
                    &&& 0x4000 <= addr <= 0x7FFF ==> self.has_rom(
                        self.current_rom_bank as int,
                        addr - 0x4000,
                    )
                    &&& 0xA000 <= addr <= 0xBFFF ==> self.current_ram_bank < self.ram_banks.len()
                },
                MBCType::Mbc3 => {
                    &&& 0 <= addr <= 0x3FFF ==> self.has_rom(0, addr)
                    &&& 0x4000 <= addr <= 0x7FFF ==> self.has_rom(
                        self.current_rom_bank as int,
                        addr - 0x4000,
                    )
                    &&& 0xA000 <= addr <= 0xBFFF && self.current_ram_bank < 8 ==> self.current_ram_bank
                        < self.ram_banks.len()
                },
                _ => false,
            }
        }
    }

    /// The byte a read of `addr` gives.
    pub open spec fn read(self, addr: int) -> u8 {
        if self.using_boot_rom && 0 <= addr < 256 {
            self.boot_rom[addr]
        } else if 0 <= addr <= 0x3FFF {
            self.rom_banks[0][addr]
        } else if 0x4000 <= addr <= 0x7FFF {
            if self.mbc_type == MBCType::RomOnly {
                self.rom_banks[1][addr - 0x4000]
            } else {
                self.rom_banks[self.current_rom_bank as int][addr - 0x4000]
            }
        } else if 0xA000 <= addr <= 0xBFFF {
            if self.mbc_type == MBCType::RomOnly {
                self.ram_banks[0][addr - 0xA000]
            } else if self.mbc_type == MBCType::Mbc3 && self.current_ram_bank >= 8 {
                0
            } else {
                self.ram_banks[self.current_ram_bank as int][addr - 0xA000]
            }
        } else {
            0
        }
    }

    /// Whether a write of `addr` can be served.
    pub open spec fn write_ok(self, addr: int) -> bool {
        match self.mbc_type {
            MBCType::RomOnly => true,
            MBCType::Mbc1 => 0xA000 <= addr <= 0xBFFF ==> self.current_ram_bank < self.ram_banks.len(),
            MBCType::Mbc3 => 0xA000 <= addr <= 0xBFFF && self.current_ram_bank < 8
                ==> self.current_ram_bank < self.ram_banks.len(),
            _ => false,
        }
    }

    /// The RAM banks with byte `offset` of the current bank set to `val`.
    pub open spec fn ram_write(self, offset: int, val: u8) -> Seq<Seq<u8>> {
        self.ram_banks.update(
            self.current_ram_bank as int,
            self.ram_banks[self.current_ram_bank as int].update(offset, val),
        )
    }

    /// The lower five bits of the ROM bank number, as a write to 0x2000-0x3FFF
    /// sets them (0 selects bank 1).
    pub open spec fn low_bank_select(self, val: u8) -> u8 {
        self.current_rom_bank & 0b1100_0000 | (if val == 0 {
            1u8
        } else {
            val
        })
    }

    /// The cartridge after a write of `val` to `addr`.
    pub open spec fn write(self, addr: int, val: u8) -> RomView {
        match self.mbc_type {
            MBCType::Mbc1 => {
                if 0 <= addr <= 0x1FFF {
                    RomView { external_ram_enabled: val & 0x0A == 0x0A, ..self }
                } else if 0x2000 <= addr <= 0x3FFF {
                    RomView { current_rom_bank: self.low_bank_select(val), ..self }
                } else if 0x4000 <= addr <= 0x5FFF {
                    if !self.ram_banking_mode {
                        RomView {
                            current_rom_bank: self.current_rom_bank & 0b0001_1111 | ((val & 0x03)
                                << 5u8),
                            current_ram_bank: 0,
                            ..self
                        }
                    } else {
                        RomView { current_ram_bank: val & 0x03, ..self }
                    }
                } else if 0x6000 <= addr <= 0x7FFF {
                    RomView { ram_banking_mode: val != 0, ..self }
                } else if 0xA000 <= addr <= 0xBFFF {
                    RomView { ram_banks: self.ram_write(addr - 0xA000, val), ..self }
                } else {
                    self
                }
            },
            MBCType::Mbc3 => {
                if 0 <= addr <= 0x1FFF {
                    RomView { external_ram_enabled: val & 0x0A == 0x0A, ..self }
                } else if 0x2000 <= addr <= 0x3FFF {
                    RomView { current_rom_bank: self.low_bank_select(val), ..self }
                } else if 0x4000 <= addr <= 0x5FFF {
                    RomView {
                        current_ram_bank: self.current_ram_bank & 0b0011_1111 | ((val & 0x03)
                            << 5u8),
                        ..self
                    }
                } else if 0xA000 <= addr <= 0xBFFF && self.current_ram_bank < 8 {
                    RomView { ram_banks: self.ram_write(addr - 0xA000, val), ..self }
                } else {
                    self
                }
            },
            _ => self,
        }
    }
}

impl View for Rom {
    type V = RomView;

    open spec fn view(&self) -> RomView {
        RomView {
            rom_banks: Seq::new(self.rom_banks@.len(), |i: int| self.rom_banks@[i]@),
            ram_banks: Seq::new(self.ram_banks@.len(), |i: int| self.ram_banks@[i]@),
            current_rom_bank: self.current_rom_bank,
            current_ram_bank: self.current_ram_bank,
            external_ram_enabled: self.external_ram_enabled,
            ram_banking_mode: self.ram_banking_mode,
            filename: self.filename@,
            romname: self.romname@,
            mbc_type: self.mbc_type,
            using_boot_rom: self.using_boot_rom,
            boot_rom: self.boot_rom@,
        }
    }
}

impl Rom {
    /// The banks of the view are the views of the banks.
    proof fn lemma_view_banks(&self)
        ensures
            self@.rom_banks.len() == self.rom_banks@.len(),
            self@.ram_banks.len() == self.ram_banks@.len(),
            forall|i: int| 0 <= i < self.rom_banks@.len() ==> #[trigger] self.rom_banks@[i]@ == self@.rom_banks[i],
            forall|i: int| 0 <= i < self.ram_banks@.len() ==> #[trigger] self.ram_banks@[i]@ == self@.ram_banks[i],
    {
    }

    pub fn new() -> (r: Rom)
        ensures
            r@ == RomView::initial(),
            r@.wf(),
    {
        let r = Rom {
            rom_banks: Vec::new(),
            ram_banks: Vec::new(),
            current_rom_bank: 1,
            current_ram_bank: 0,
            external_ram_enabled: false,
            ram_banking_mode: false,
            filename: String::new(),
            romname: String::new(),
            mbc_type: MBCType::RomOnly,
            using_boot_rom: false,
            boot_rom: [0; 256],
        };
        assert(r@.rom_banks =~= Seq::empty());
        assert(r@.ram_banks =~= Seq::empty());
        assert(r@.boot_rom =~= Seq::new(256, |i: int| 0u8));
        r
    }

    /// Fill the cartridge from the bytes of a ROM file: split them into 16 KiB
    /// ROM banks, pick the controller from header byte 0x0147, add the RAM banks
    /// that header byte 0x0148 asks for, and check the header checksum at 0x014D.
    pub fn load_from_data(&mut self, data: &Vec<u8>)
        requires
            old(self)@.wf(),
            old(self)@.rom_banks.len() > 0 ==> old(self)@.rom_banks[0].len() > 0x014D,
            old(self)@.rom_banks.len() == 0 ==> data@.len() > 0x014D,
            ({
                let first = if old(self)@.rom_banks.len() > 0 {
                    old(self)@.rom_banks[0]
                } else {
                    data@
                };
                &&& spec_mbc_type(first[0x0147]) is Some
                &&& first[0x014D] == spec_header_checksum(first, 0x014D)
            }),
        ensures
            final(self)@.wf(),
            final(self)@.rom_banks == old(self)@.rom_banks + spec_chunks(data@),
            final(self)@.mbc_type == spec_mbc_type(final(self)@.rom_banks[0][0x0147])->0,
            final(self)@.ram_banks == old(self)@.ram_banks + Seq::new(
                spec_ram_bank_count(final(self)@.rom_banks[0][0x0148]),
                |i: int| Seq::new(RAM_BANK_SIZE as nat, |j: int| 0u8),
            ),
            final(self)@.current_rom_bank == old(self)@.current_rom_bank,
            final(self)@.current_ram_bank == old(self)@.current_ram_bank,
            final(self)@.external_ram_enabled == old(self)@.external_ram_enabled,
            final(self)@.ram_banking_mode == old(self)@.ram_banking_mode,
            final(self)@.filename == old(self)@.filename,
            final(self)@.romname == old(self)@.romname,
            final(self)@.using_boot_rom == old(self)@.using_boot_rom,
            final(self)@.boot_rom == old(self)@.boot_rom,
    {
        let ghost v0 = self@;
        let dlen = data.len();
        let nbanks: usize = dlen / ROM_BANK_SIZE + if dlen % ROM_BANK_SIZE == 0 {
            0
        } else {
            1
        };
        assert(nbanks == spec_chunks(data@).len());
        let mut k: usize = 0;
        while k < nbanks
            invariant
                dlen == data@.len(),
                nbanks == spec_chunks(data@).len(),
                nbanks == dlen / ROM_BANK_SIZE + if dlen % ROM_BANK_SIZE == 0 { 0int } else { 1int },
                k <= nbanks,
                self@ == (RomView { rom_banks: v0.rom_banks + spec_chunks(data@).take(k as int), ..v0 }),
                forall|i: int| 0 <= i < self.rom_banks@.len() ==> #[trigger] self.rom_banks@[i]@ == self@.rom_banks[i],
            decreases nbanks - k,
        {
            proof {
                assert(k * 16384 < dlen) by (nonlinear_arith)
                    requires
                        k < nbanks,
                        nbanks == dlen / 16384 + if dlen % 16384 == 0 { 0int } else { 1int },
                ;
            }
            let start = k * 16384;
            let end = if dlen - start >= ROM_BANK_SIZE {
                start + ROM_BANK_SIZE
            } else {
                dlen
            };
            let chunk = slice_subrange(data.as_slice(), start, end);
            let bank = slice_to_vec(chunk);
            let ghost prev = self@.rom_banks;
            self.rom_banks.push(bank);
            proof {
                assert(bank@ =~= spec_chunks(data@)[k as int]);
                assert(self@.rom_banks =~= prev.push(bank@));
                assert(spec_chunks(data@).take(k + 1) =~= spec_chunks(data@).take(k as int).push(
                    spec_chunks(data@)[k as int],
                ));
            }
            k = k + 1;
        }
        proof {
            assert(spec_chunks(data@).take(nbanks as int) =~= spec_chunks(data@));
            if v0.rom_banks.len() == 0 {
                assert(data@.len() > 0x014D);
                assert(self@.rom_banks[0] =~= spec_chunks(data@)[0]);
                assert(forall|j: int| 0 <= j < self@.rom_banks[0].len() ==> self@.rom_banks[0][j] == data@[j]);
                assert(spec_chunks(data@)[0].len() > 0x014D);
                lemma_checksum_prefix(self@.rom_banks[0], data@, 0x014D);
            }
        }
        proof {
            self.lemma_view_banks();
            assert(self@.rom_banks[0].len() > 0x014D);
        }
        let mbc_type = self.rom_banks[0][0x0147];
        self.mbc_type = if mbc_type == 0x00 || mbc_type == 0x08 || mbc_type == 0x09 {
            MBCType::RomOnly
        } else if 0x01 <= mbc_type && mbc_type <= 0x03 {
            MBCType::Mbc1
        } else {
            MBCType::Mbc3
        };
        let ram_size_byte = self.rom_banks[0][0x0148];
        let ram_bank_count: usize = if ram_size_byte <= 0x02 {
            1
        } else if ram_size_byte == 0x03 {
            4
        } else if ram_size_byte == 0x04 {
            16
        } else if ram_size_byte == 0x05 {
            8
        } else {
            1
        };
        let ghost before = self@;
        let mut i: usize = 0;
        while i < ram_bank_count
            invariant
                i <= ram_bank_count,
                ram_bank_count == spec_ram_bank_count(before.rom_banks[0][0x0148]),
                self@ == (RomView {
                    ram_banks: before.ram_banks + Seq::new(
                        i as nat,
                        |m: int| Seq::new(RAM_BANK_SIZE as nat, |j: int| 0u8),
                    ),
                    ..before
                }),
            decreases ram_bank_count - i,
        {
            let bank: Vec<u8> = vec![0; 8192];
            let ghost prev = self@.ram_banks;
            self.ram_banks.push(bank);
            proof {
                assert(bank@ =~= Seq::new(RAM_BANK_SIZE as nat, |j: int| 0u8));
                assert(self@.ram_banks =~= prev.push(bank@));
                assert(self@.ram_banks =~= before.ram_banks + Seq::new(
                    (i + 1) as nat,
                    |m: int| Seq::new(RAM_BANK_SIZE as nat, |j: int| 0u8),
                ));
            }
            i = i + 1;
        }
        let valid = self.is_header_checksum_valid();
        assert(valid);
    }

    /// Load the 256-byte boot ROM.
    pub fn load_bootrom_from_data(&mut self, data: &Vec<u8>)
        requires
            data@.len() == 256,
        ensures
            final(self)@ == (RomView { boot_rom: data@, ..old(self)@ }),
    {
        let mut i: usize = 0;
        while i < 256
            invariant
                data@.len() == 256,
                i <= 256,
                self@.boot_rom.len() == 256,
                forall|j: int| 0 <= j < i ==> self@.boot_rom[j] == data@[j],
                self@ == (RomView { boot_rom: self@.boot_rom, ..old(self)@ }),
            decreases 256 - i,
        {
            self.boot_rom[i] = data[i];
            i = i + 1;
        }
        assert(self@.boot_rom =~= data@);
    }

    pub fn read_byte(&self, addr: usize) -> (r: u8)
        requires
            self@.wf(),
            self@.read_ok(addr as int),
        ensures
            r == self@.read(addr as int),
    {
        if self.using_boot_rom && addr < 256 {
            return self.boot_rom[addr];
        }
        match self.mbc_type {
            MBCType::RomOnly => { self.read_byte_rom_only(addr) },
            MBCType::Mbc1 => { self.read_byte_mbc1(addr) },
            MBCType::Mbc3 => { self.read_byte_mbc3(addr) },
            _ => { 0 },
        }
    }

    pub fn write_byte(&mut self, addr: usize, val: u8)
        requires
            old(self)@.wf(),
            old(self)@.write_ok(addr as int),
        ensures
            final(self)@ == old(self)@.write(addr as int, val),
            final(self)@.wf(),
    {
        match self.mbc_type {
            MBCType::RomOnly => {},
            MBCType::Mbc1 => { self.write_byte_mbc1(addr, val) },
            MBCType::Mbc3 => { self.write_byte_mbc3(addr, val) },
            _ => {},
        }
    }

    /// Whether the header checksum at 0x014D matches the header bytes.
    pub fn is_header_checksum_valid(&mut self) -> (r: bool)
        requires
            old(self)@.rom_banks.len() > 0,
            old(self)@.rom_banks[0].len() > 0x014D,
        ensures
            *final(self) == *old(self),
            r == (old(self)@.rom_banks[0][0x014D] == spec_header_checksum(
                old(self)@.rom_banks[0],
                0x014D,
            )),
    {
        let mut x: u8 = 0;
        let mut i: usize = 0x0134;
        while i < 0x014D
            invariant
                0x0134 <= i <= 0x014D,
                self@.rom_banks.len() > 0,
                self@.rom_banks[0].len() > 0x014D,
                x == spec_header_checksum(self@.rom_banks[0], i as int),
            decreases 0x014D - i,
        {
            x = x.wrapping_sub(self.rom_banks[0][i]).wrapping_sub(1);
            i = i + 1;
        }
        return self.rom_banks[0][0x14D] == x;
    }

    pub fn read_byte_rom_only(&self, addr: usize) -> (r: u8)
        requires
            self@.wf(),
            self@.mbc_type == MBCType::RomOnly,
            !(self@.using_boot_rom && addr < 256),
            self@.read_ok(addr as int),
        ensures
            r == self@.read(addr as int),
    {
        proof {
            self.lemma_view_banks();
        }
        if addr <= 0x3FFF {
            return self.rom_banks[0][addr];
        } else if 0x4000 <= addr && addr <= 0x7FFF {
            return self.rom_banks[1][addr - 0x4000];
        } else if 0xA000 <= addr && addr <= 0xBFFF {
            return self.ram_banks[0][addr - 0xA000];
        } else {
            return 0;
        }
    }

    /// MBC1 read: bank 0 at 0x0000-0x3FFF, the selected ROM bank at
    /// 0x4000-0x7FFF and the selected RAM bank at 0xA000-0xBFFF.
    pub fn read_byte_mbc1(&self, addr: usize) -> (r: u8)
        requires
            self@.wf(),
            self@.mbc_type == MBCType::Mbc1,
            !(self@.using_boot_rom && addr < 256),
            self@.read_ok(addr as int),
        ensures
            r == self@.read(addr as int),
    {
        proof {
            self.lemma_view_banks();
        }
        if addr <= 0x3FFF {
            return self.rom_banks[0][addr];
        } else if 0x4000 <= addr && addr <= 0x7FFF {
            return self.rom_banks[self.current_rom_bank as usize][addr - 0x4000];
        } else if 0xA000 <= addr && addr <= 0xBFFF {
            return self.ram_banks[self.current_ram_bank as usize][addr - 0xA000];
        } else {
            return 0;
        }
    }

    /// MBC1 write: RAM enable, ROM bank select (low and high bits), banking mode,
    /// and external RAM.
    pub fn write_byte_mbc1(&mut self, addr: usize, val: u8)
        requires
            old(self)@.wf(),
            old(self)@.mbc_type == MBCType::Mbc1,
            old(self)@.write_ok(addr as int),
        ensures
            final(self)@ == old(self)@.write(addr as int, val),
            final(self)@.wf(),
    {
        if addr <= 0x1FFF {
            self.external_ram_enabled = val & 0x0A == 0x0A;
        } else if 0x2000 <= addr && addr <= 0x3FFF {
            self.current_rom_bank = self.current_rom_bank & 0b1100_0000 | (if val == 0 {
                1
            } else {
                val
            });
        } else if 0x4000 <= addr && addr <= 0x5FFF {
            if !self.ram_banking_mode {
                self.current_rom_bank = self.current_rom_bank & 0b0001_1111 | ((val & 0x03) << 5);
                self.current_ram_bank = 0;
            } else {
                self.current_ram_bank = val & 0x03;
            }
        } else if 0x6000 <= addr && addr <= 0x7FFF {
            self.ram_banking_mode = val != 0;
        } else if 0xA000 <= addr && addr <= 0xBFFF {
            self.write_ram(addr - 0xA000, val);
        }
    }

    /// MBC3 read: like MBC1, but RAM bank numbers of 8 and above (the real-time
    /// clock registers) read as 0.
    pub fn read_byte_mbc3(&self, addr: usize) -> (r: u8)
        requires
            self@.wf(),
            self@.mbc_type == MBCType::Mbc3,
            !(self@.using_boot_rom && addr < 256),
            self@.read_ok(addr as int),
        ensures
            r == self@.read(addr as int),
    {
        proof {
            self.lemma_view_banks();
        }
        if addr <= 0x3FFF {
            return self.rom_banks[0][addr];
        } else if 0x4000 <= addr && addr <= 0x7FFF {
            return self.rom_banks[self.current_rom_bank as usize][addr - 0x4000];
        } else if 0xA000 <= addr && addr <= 0xBFFF {
            if self.current_ram_bank < 8 {
                return self.ram_banks[self.current_ram_bank as usize][addr - 0xA000];
            } else {
                return 0;
            }
        } else {
            return 0;
        }
    }

    /// MBC3 write: RAM enable, ROM bank select, RAM bank select, and external RAM
    /// for RAM banks below 8. Real-time clock latching is ignored.
    pub fn write_byte_mbc3(&mut self, addr: usize, val: u8)
        requires
            old(self)@.wf(),
            old(self)@.mbc_type == MBCType::Mbc3,
            old(self)@.write_ok(addr as int),
        ensures
            final(self)@ == old(self)@.write(addr as int, val),
            final(self)@.wf(),
    {
        if addr <= 0x1FFF {
            self.external_ram_enabled = val & 0x0A == 0x0A;
        } else if 0x2000 <= addr && addr <= 0x3FFF {
            self.current_rom_bank = self.current_rom_bank & 0b1100_0000 | (if val == 0 {
                1
            } else {
                val
            });
        } else if 0x4000 <= addr && addr <= 0x5FFF {
            self.current_ram_bank = self.current_ram_bank & 0b0011_1111 | ((val & 0x03) << 5);
        } else if 0x6000 <= addr && addr <= 0x7FFF {
        } else if 0xA000 <= addr && addr <= 0xBFFF {
            if self.current_ram_bank < 8 {
                self.write_ram(addr - 0xA000, val);
            }
        }
    }

    /// Store a byte in the selected external RAM bank.
    fn write_ram(&mut self, offset: usize, val: u8)
        requires
            old(self)@.wf(),
            offset < RAM_BANK_SIZE,
            old(self)@.current_ram_bank < old(self)@.ram_banks.len(),
        ensures
            final(self)@ == (RomView { ram_banks: old(self)@.ram_write(offset as int, val), ..old(self)@ }),
            final(self)@.wf(),
    {
        let b = self.current_ram_bank as usize;
        self.ram_banks[b][offset] = val;
        proof {
            assert(self@.ram_banks =~= old(self)@.ram_write(offset as int, val));
        }
    }

    /// The bytes from `start_addr` up to `end_addr` of the fixed ROM bank, the
    /// selected ROM bank or RAM bank 0, used for DMA transfers.
    pub fn read_mem_slice(&self, start_addr: usize, end_addr: usize) -> (r: &[u8])
        requires
            self@.wf(),
            start_addr <= end_addr,
            start_addr <= 0x3FFF || 0x4000 <= start_addr <= 0x7FFF || 0xA000 <= start_addr <= 0xBFFF,
            start_addr <= 0x3FFF ==> self@.rom_banks.len() > 0 && end_addr <= self@.rom_banks[0].len(),
            0x4000 <= start_addr <= 0x7FFF ==> self@.current_rom_bank < self@.rom_banks.len() && end_addr
                - 0x4000 <= self@.rom_banks[self@.current_rom_bank as int].len(),
            0xA000 <= start_addr <= 0xBFFF ==> self@.ram_banks.len() > 0 && end_addr - 0xA000
                <= RAM_BANK_SIZE,
        ensures
            start_addr <= 0x3FFF ==> r@ == self@.rom_banks[0].subrange(start_addr as int, end_addr as int),
            0x4000 <= start_addr <= 0x7FFF ==> r@ == self@.rom_banks[self@.current_rom_bank as int].subrange(
                start_addr - 0x4000,
                end_addr - 0x4000,
            ),
            0xA000 <= start_addr <= 0xBFFF ==> r@ == self@.ram_banks[0].subrange(
                start_addr - 0xA000,
                end_addr - 0xA000,
            ),
    {
        proof {
            self.lemma_view_banks();
        }
        if start_addr <= 0x3FFF {
            slice_subrange(self.rom_banks[0].as_slice(), start_addr, end_addr)
        } else if start_addr <= 0x7FFF {
            slice_subrange(
                self.rom_banks[self.current_rom_bank as usize].as_slice(),
                start_addr - 0x4000,
                end_addr - 0x4000,
            )
        } else {
            slice_subrange(self.ram_banks[0].as_slice(), start_addr - 0xA000, end_addr - 0xA000)
        }
    }
}

/// With an MBC1 controller, writing a bank number from 1 to 0x1F to
/// 0x2000-0x3FFF (with the upper bank bits clear) makes 0x4000-0x7FFF read
/// that ROM bank; bank 0 stays at 0x0000-0x3FFF.
pub proof fn lemma_mbc1_bank_switch(r: RomView, n: u8, k: int)
    requires
        r.mbc_type == MBCType::Mbc1,
        1 <= n <= 0x1F,
        r.current_rom_bank & 0xC0 == 0,
        0 <= k < 0x4000,
    ensures
        r.write(0x2000, n).current_rom_bank == n,
        r.write(0x2000, n).read(0x4000 + k) == r.rom_banks[n as int][k],
        !r.using_boot_rom ==> r.write(0x2000, n).read(k) == r.rom_banks[0][k],
{
    let c = r.current_rom_bank;
    assert(c & 0b1100_0000 | n == n) by (bit_vector)
        requires
            c & 0xC0 == 0,
            n <= 0x1F,
    ;
}

/// With an MBC1 or MBC3 controller, a byte written to external RAM (in a RAM
/// bank below 8 for MBC3) reads back.
pub proof fn lemma_external_ram_write_read(r: RomView, k: int, v: u8)
    requires
        r.wf(),
        r.mbc_type == MBCType::Mbc1 || r.mbc_type == MBCType::Mbc3,
        r.current_ram_bank < r.ram_banks.len(),
        r.mbc_type == MBCType::Mbc3 ==> r.current_ram_bank < 8,
        0 <= k < 0x2000,
    ensures
        r.write(0xA000 + k, v).read(0xA000 + k) == v,
        r.write(0xA000 + k, v).wf(),
{
}

/// Which controller the cartridge type byte selects, by ranges: 0x00, 0x08
/// and 0x09 are ROM only; 0x01-0x03 (MBC1, MBC1+RAM, MBC1+RAM+BATTERY) are
/// MBC1; 0x0F-0x13 are MBC3; the other bytes are not supported.
pub proof fn lemma_mbc_type_by_header(header: u8)
    ensures
        1 <= header <= 3 ==> spec_mbc_type(header) == Some(MBCType::Mbc1),
        0x0F <= header <= 0x13 ==> spec_mbc_type(header) == Some(MBCType::Mbc3),
        header == 0 || header == 8 || header == 9 ==> spec_mbc_type(header) == Some(MBCType::RomOnly),
        spec_mbc_type(header) is Some <==> (header <= 3 || header == 8 || header == 9 || 0x0F <= header <= 0x13),
{
}

} // verus!
