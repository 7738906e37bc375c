//! The cartridge: ROM banks, external RAM banks and the memory bank controller
//! (MBC) that switches between them.
use vstd::prelude::*;

verus! {

/// Size of one ROM bank.
pub const ROM_BANK_SIZE: usize = 16384;

/// Size of one external RAM bank.
pub const RAM_BANK_SIZE: usize = 8192;

/// The memory bank controller of a cartridge.
#[derive(Copy, Clone, PartialEq, Eq, Debug, Structural)]
pub enum MBCType {
    RomOnly,
    Mbc1,
    Mbc2,
    Mbc3,
    Mbc5,
}

/// The cartridge, as the CPU sees it.
pub struct Rom {
    pub rom_banks: Vec<[u8; 16384]>,
    pub ram_banks: Vec<[u8; 8192]>,
    pub current_rom_bank: u8,
    pub current_ram_bank: u8,
    pub external_ram_enabled: bool,
    pub ram_banking_mode: bool,
    pub filename: String,
    pub mbc_type: MBCType,
}

/// The state of a cartridge, with its banks as sequences of bytes.
pub struct RomView {
    pub rom_banks: Seq<Seq<u8>>,
    pub ram_banks: Seq<Seq<u8>>,
    pub current_rom_bank: u8,
    pub current_ram_bank: u8,
    pub external_ram_enabled: bool,
    pub ram_banking_mode: bool,
    pub mbc_type: MBCType,
    pub filename: Seq<char>,
}

/// The MBC type that the cartridge header byte 0x0147 selects, if it is supported.
pub open spec fn spec_mbc_type(header: u8) -> Option<MBCType> {
    if header == 0x00 || header == 0x08 || header == 0x09 {
        Some(MBCType::RomOnly)
    } else if 0x01 <= header <= 0x03 {
        Some(MBCType::Mbc1)
    } else if 0x05 <= header <= 0x06 {
        Some(MBCType::Mbc2)
    } else if 0x0F <= header <= 0x13 {
        Some(MBCType::Mbc3)
    } else if 0x19 <= header <= 0x1E {
        Some(MBCType::Mbc5)
    } else {
        None
    }
}

/// The number of external RAM banks that the header byte 0x0148 asks for.
/// Small sizes get one whole bank.
pub open spec fn spec_ram_bank_count(header: u8) -> nat {
    if header <= 0x02 {
        1
    } else if header == 0x03 {
        4
    } else if header == 0x04 {
        16
    } else if header == 0x05 {
        8
    } else {
        1
    }
}

/// The ROM banks that `data` splits into, 16 KiB each.
pub open spec fn spec_split_banks(data: Seq<u8>) -> Seq<Seq<u8>> {
    Seq::new(
        data.len() / (ROM_BANK_SIZE as nat),
        |i: int| data.subrange(i * ROM_BANK_SIZE as int, (i + 1) * ROM_BANK_SIZE as int),
    )
}

impl RomView {
    /// An empty cartridge: no banks, ROM bank 1 selected, no controller.
    pub open spec fn initial() -> RomView {
        RomView {
            rom_banks: Seq::empty(),
            ram_banks: Seq::empty(),
            current_rom_bank: 1,
            current_ram_bank: 0,
            external_ram_enabled: false,
            ram_banking_mode: false,
            mbc_type: MBCType::RomOnly,
            filename: Seq::empty(),
        }
    }

    /// Every ROM bank holds 16 KiB and every RAM bank 8 KiB.
    pub open spec fn wf(self) -> bool {
        &&& forall|i: int| 0 <= i < self.rom_banks.len() ==> #[trigger] self.rom_banks[i].len() == ROM_BANK_SIZE
        &&& forall|i: int| 0 <= i < self.ram_banks.len() ==> #[trigger] self.ram_banks[i].len() == RAM_BANK_SIZE
    }

    /// Whether a read of `addr` finds the bank it needs.
    pub open spec fn read_ok(self, addr: int) -> bool {
        match self.mbc_type {
            MBCType::RomOnly => {
                &&& 0 <= addr <= 0x3FFF ==> self.rom_banks.len() > 0
                &&& 0x4000 <= addr <= 0x7FFF ==> self.rom_banks.len() > 1
                &&& 0xA000 <= addr <= 0xBFFF ==> self.ram_banks.len() > 0
            },
            _ => {
                &&& 0 <= addr <= 0x3FFF ==> self.rom_banks.len() > 0
                &&& 0x4000 <= addr <= 0x7FFF ==> self.current_rom_bank < self.rom_banks.len()
                &&& 0xA000 <= addr <= 0xBFFF ==> self.current_ram_bank < self.ram_banks.len()
            },
        }
    }

    /// The byte that a read of `addr` gives. Every controller but "ROM only" reads
    /// through the switchable banks.
    pub open spec fn read(self, addr: int) -> u8 {
        let rom_bank = match self.mbc_type {
            MBCType::RomOnly => 1int,
            _ => self.current_rom_bank as int,
        };
        let ram_bank = match self.mbc_type {
            MBCType::RomOnly => 0int,
            _ => self.current_ram_bank as int,
        };
        if 0 <= addr <= 0x3FFF {
            self.rom_banks[0][addr]
        } else if 0x4000 <= addr <= 0x7FFF {
            self.rom_banks[rom_bank][addr - 0x4000]
        } else if 0xA000 <= addr <= 0xBFFF {
            self.ram_banks[ram_bank][addr - 0xA000]
        } else {
            0
        }
    }

    /// Whether a write of `addr` finds the bank it needs.
    pub open spec fn write_ok(self, addr: int) -> bool {
        self.mbc_type == MBCType::Mbc1 && 0xA000 <= addr <= 0xBFFF ==> self.current_ram_bank
            < self.ram_banks.len()
    }

    /// The cartridge after a write of `val` to `addr`. Only MBC1 reacts to writes.
    pub open spec fn write(self, addr: int, val: u8) -> RomView {
        if self.mbc_type != MBCType::Mbc1 {
            self
        } else if 0 <= addr <= 0x1FFF {
            RomView { external_ram_enabled: val & 0x0A == 0x0A, ..self }
        } else if 0x2000 <= addr <= 0x3FFF {
            RomView {
                current_rom_bank: self.current_rom_bank & 0b1100_0000 | (if val == 0 {
                    1u8
                } else {
                    val
                }),
                ..self
            }
        } else if 0x4000 <= addr <= 0x5FFF {
            if !self.ram_banking_mode {
                RomView {
                    current_rom_bank: self.current_rom_bank & 0b0001_1111 | ((val & 0x03) << 5u8),
                    ..self
                }
            } else {
                RomView { current_ram_bank: val & 0x03, ..self }
            }
        } else if 0x6000 <= addr <= 0x7FFF {
            RomView { ram_banking_mode: val != 0, ..self }
        } else if 0xA000 <= addr <= 0xBFFF {
            RomView {
                ram_banks: self.ram_banks.update(
                    self.current_ram_bank as int,
                    self.ram_banks[self.current_ram_bank as int].update(addr - 0xA000, val),
                ),
                ..self
            }
        } else {
            self
        }
    }
}

impl View for Rom {
    type V = RomView;

    open spec fn view(&self) -> RomView {
        RomView {
            rom_banks: Seq::new(self.rom_banks@.len(), |i: int| self.rom_banks@[i]@),
            ram_banks: Seq::new(self.ram_banks@.len(), |i: int| self.ram_banks@[i]@),
            current_rom_bank: self.current_rom_bank,
            current_ram_bank: self.current_ram_bank,
            external_ram_enabled: self.external_ram_enabled,
            ram_banking_mode: self.ram_banking_mode,
            mbc_type: self.mbc_type,
            filename: self.filename@,
        }
    }
}

impl Rom {
    /// Every bank of a cartridge has its full size.
    pub proof fn lemma_view_wf(&self)
        ensures
            self@.wf(),
    {
    }

    /// An empty cartridge: no banks, ROM bank 1 selected, no controller.
    pub fn new() -> (r: Rom)
        ensures
            r@ == RomView::initial(),
    {
        let r = Rom {
            rom_banks: Vec::new(),
            ram_banks: Vec::new(),
            current_rom_bank: 1,
            current_ram_bank: 0,
            external_ram_enabled: false,
            ram_banking_mode: false,
            filename: String::new(),
            mbc_type: MBCType::RomOnly,
        };
        assert(r@.rom_banks =~= Seq::empty());
        assert(r@.ram_banks =~= Seq::empty());
        r
    }

    pub fn read_byte(&self, addr: usize) -> (r: u8)
        requires
            self@.read_ok(addr as int),
        ensures
            r == self@.read(addr as int),
    {
        match self.mbc_type {
            MBCType::RomOnly => { self.read_byte_rom_only(addr) },
            MBCType::Mbc1 => { self.read_byte_mbc1(addr) },
            MBCType::Mbc2 => { self.read_byte_mbc1(addr) },
            MBCType::Mbc3 => { self.read_byte_mbc1(addr) },
            MBCType::Mbc5 => { self.read_byte_mbc1(addr) },
        }
    }

    pub fn write_byte(&mut self, addr: usize, val: u8)
        requires
            old(self)@.write_ok(addr as int),
        ensures
            final(self)@ == old(self)@.write(addr as int, val),
            final(self)@.filename == old(self)@.filename,
    {
        match self.mbc_type {
            MBCType::RomOnly => {},
            MBCType::Mbc1 => { self.write_byte_mbc1(addr, val) },
            MBCType::Mbc2 => {},
            MBCType::Mbc3 => {},
            MBCType::Mbc5 => {},
        }
    }

    /// Fill the cartridge from the bytes of a ROM file: split them into 16 KiB ROM
    /// banks, pick the controller from header byte 0x0147 and add the RAM banks that
    /// header byte 0x0148 asks for.
    pub fn load_from_data(&mut self, data: &Vec<u8>)
        requires
            data@.len() % ROM_BANK_SIZE as nat == 0,
            old(self)@.rom_banks.len() > 0 || data@.len() > 0,
            spec_mbc_type(
                (if old(self)@.rom_banks.len() > 0 {
                    old(self)@.rom_banks[0]
                } else {
                    data@
                })[0x0147],
            ) is Some,
            old(self)@.wf(),
        ensures
            final(self)@.wf(),
            final(self)@.rom_banks == old(self)@.rom_banks + spec_split_banks(data@),
            final(self)@.mbc_type == spec_mbc_type(final(self)@.rom_banks[0][0x0147])->0,
            final(self)@.ram_banks.len() == old(self)@.ram_banks.len() + spec_ram_bank_count(
                final(self)@.rom_banks[0][0x0148],
            ),
            forall|i: int|
                0 <= i < old(self)@.ram_banks.len() ==> #[trigger] final(self)@.ram_banks[i]
                    == old(self)@.ram_banks[i],
            forall|i: int|
                old(self)@.ram_banks.len() <= i < final(self)@.ram_banks.len()
                    ==> #[trigger] final(self)@.ram_banks[i] == Seq::new(RAM_BANK_SIZE as nat, |j: int| 0u8),
            final(self)@.current_rom_bank == old(self)@.current_rom_bank,
            final(self)@.current_ram_bank == old(self)@.current_ram_bank,
            final(self)@.external_ram_enabled == old(self)@.external_ram_enabled,
            final(self)@.ram_banking_mode == old(self)@.ram_banking_mode,
            final(self)@.filename == old(self)@.filename,
    {
        let ghost old_view = self@;
        let dlen = data.len();
        let nbanks = dlen / ROM_BANK_SIZE;
        let mut k: usize = 0;
        while k < nbanks
            invariant
                nbanks == data@.len() / ROM_BANK_SIZE as nat,
                dlen == data@.len(),
                k <= nbanks,
                data@.len() % ROM_BANK_SIZE as nat == 0,
                self@.rom_banks == old_view.rom_banks + spec_split_banks(data@).take(k as int),
                self@.ram_banks == old_view.ram_banks,
                self@.mbc_type == old_view.mbc_type,
                self@.current_rom_bank == old_view.current_rom_bank,
                self@.current_ram_bank == old_view.current_ram_bank,
                self@.external_ram_enabled == old_view.external_ram_enabled,
                self@.ram_banking_mode == old_view.ram_banking_mode,
                self@.filename == old_view.filename,
            decreases nbanks - k,
        {
            let mut bank: [u8; 16384] = [0u8; 16384];
            proof {
                assert(k * 16384 + 16384 <= data@.len()) by (nonlinear_arith)
                    requires
                        k < nbanks,
                        nbanks == data@.len() / 16384,
                        data@.len() % 16384 == 0,
                ;
            }
            let start = k * 16384;
            let mut j: usize = 0;
            while j < ROM_BANK_SIZE
                invariant
                    j <= ROM_BANK_SIZE,
                    k < nbanks,
                    nbanks == data@.len() / ROM_BANK_SIZE as nat,
                    start == k * ROM_BANK_SIZE,
                    start + ROM_BANK_SIZE <= data@.len(),
                    bank@.len() == ROM_BANK_SIZE,
                    forall|m: int| 0 <= m < j ==> bank@[m] == data@[start + m],
                decreases ROM_BANK_SIZE - j,
            {
                bank[j] = data[start + j];
                j = j + 1;
            }
            let ghost prev = self@.rom_banks;
            self.rom_banks.push(bank);
            proof {
                assert(bank@ =~= data@.subrange(start as int, start + ROM_BANK_SIZE));
                assert(self@.rom_banks =~= prev.push(bank@));
                assert(self@.rom_banks =~= old_view.rom_banks + spec_split_banks(data@).take(
                    k + 1,
                ));
            }
            k = k + 1;
        }
        proof {
            assert(spec_split_banks(data@).take(nbanks as int) =~= spec_split_banks(data@));
        }
        let header_bank: &[u8; 16384] = &self.rom_banks[0];
        let mbc_type = header_bank[0x0147];
        self.mbc_type = if mbc_type == 0x00 || mbc_type == 0x08 || mbc_type == 0x09 {
            MBCType::RomOnly
        } else if 0x01 <= mbc_type && mbc_type <= 0x03 {
            MBCType::Mbc1
        } else if 0x05 <= mbc_type && mbc_type <= 0x06 {
            MBCType::Mbc2
        } else if 0x0F <= mbc_type && mbc_type <= 0x13 {
            MBCType::Mbc3
        } else {
            MBCType::Mbc5
        };
        let ram_size_byte = self.rom_banks[0][0x0148];
        let ram_bank_count: usize = if ram_size_byte <= 0x02 {
            1
        } else if ram_size_byte == 0x03 {
            4
        } else if ram_size_byte == 0x04 {
            16
        } else if ram_size_byte == 0x05 {
            8
        } else {
            1
        };
        let ghost ram_before = self@.ram_banks;
        let mut i: usize = 0;
        while i < ram_bank_count
            invariant
                i <= ram_bank_count,
                ram_bank_count == spec_ram_bank_count(self@.rom_banks[0][0x0148]),
                self@.ram_banks.len() == ram_before.len() + i,
                forall|m: int| 0 <= m < ram_before.len() ==> #[trigger] self@.ram_banks[m] == ram_before[m],
                forall|m: int|
                    ram_before.len() <= m < self@.ram_banks.len() ==> #[trigger] self@.ram_banks[m]
                        == Seq::new(RAM_BANK_SIZE as nat, |j: int| 0u8),
                self@.rom_banks == old_view.rom_banks + spec_split_banks(data@),
                self@.rom_banks.len() > 0,
                self@.mbc_type == spec_mbc_type(self@.rom_banks[0][0x0147])->0,
                self@.current_rom_bank == old_view.current_rom_bank,
                self@.current_ram_bank == old_view.current_ram_bank,
                self@.external_ram_enabled == old_view.external_ram_enabled,
                self@.ram_banking_mode == old_view.ram_banking_mode,
                self@.filename == old_view.filename,
            decreases ram_bank_count - i,
        {
            let bank: [u8; 8192] = [0u8; 8192];
            proof {
                assert(bank@ =~= Seq::new(RAM_BANK_SIZE as nat, |j: int| 0u8));
            }
            let ghost prev = self@.ram_banks;
            self.ram_banks.push(bank);
            proof {
                assert(self@.ram_banks =~= prev.push(bank@));
            }
            i = i + 1;
        }
    }

    /// Header checksum validation is not done by this cartridge model.
    pub fn validate_checksum(&mut self)
        ensures
            *final(self) == *old(self),
    {
    }

    pub fn read_byte_rom_only(&self, addr: usize) -> (r: u8)
        requires
            self@.mbc_type == MBCType::RomOnly,
            self@.read_ok(addr as int),
        ensures
            r == self@.read(addr as int),
    {
        if addr <= 0x3FFF {
            return self.rom_banks[0][addr];
        } else if 0x4000 <= addr && addr <= 0x7FFF {
            return self.rom_banks[1][addr - 0x4000];
        } else if 0xA000 <= addr && addr <= 0xBFFF {
            return self.ram_banks[0][addr - 0xA000];
        } else {
            return 0;
        }
    }

    pub fn read_byte_mbc1(&self, addr: usize) -> (r: u8)
        requires
            self@.mbc_type != MBCType::RomOnly,
            self@.read_ok(addr as int),
        ensures
            r == self@.read(addr as int),
    {
        if addr <= 0x3FFF {
            return self.rom_banks[0][addr];
        } else if 0x4000 <= addr && addr <= 0x7FFF {
            return self.rom_banks[self.current_rom_bank as usize][addr - 0x4000];
        } else if 0xA000 <= addr && addr <= 0xBFFF {
            return self.ram_banks[self.current_ram_bank as usize][addr - 0xA000];
        } else {
            return 0;
        }
    }

    pub fn write_byte_mbc1(&mut self, addr: usize, val: u8)
        requires
            old(self)@.mbc_type == MBCType::Mbc1,
            old(self)@.write_ok(addr as int),
        ensures
            final(self)@ == old(self)@.write(addr as int, val),
            final(self)@.filename == old(self)@.filename,
    {
        if addr <= 0x1FFF {
            self.external_ram_enabled = val & 0x0A == 0x0A;
        } else if 0x2000 <= addr && addr <= 0x3FFF {
            self.current_rom_bank = self.current_rom_bank & 0b1100_0000 | (if val == 0 {
                1
            } else {
                val
            });
        } else if 0x4000 <= addr && addr <= 0x5FFF {
            if !self.ram_banking_mode {
                self.current_rom_bank = self.current_rom_bank & 0b0001_1111 | ((val & 0x03) << 5);
            } else {
                self.current_ram_bank = val & 0x03;
            }
        } else if 0x6000 <= addr && addr <= 0x7FFF {
            self.ram_banking_mode = val != 0;
        } else if 0xA000 <= addr && addr <= 0xBFFF {
            let b = self.current_ram_bank as usize;
            let ghost before = self@;
            let mut bank = self.ram_banks[b];
            bank[addr - 0xA000] = val;
            self.ram_banks.set(b, bank);
            proof {
                assert(self@.ram_banks =~= before.ram_banks.update(
                    b as int,
                    before.ram_banks[b as int].update(addr - 0xA000, val),
                ));
            }
        }
    }
}

/// Which controller the cartridge type byte selects, by ranges: 0x00, 0x08
/// and 0x09 are ROM only; 0x01-0x03 are MBC1; 0x05-0x06 MBC2; 0x0F-0x13
/// MBC3; 0x19-0x1E MBC5; the other bytes are not supported.
pub proof fn lemma_mbc_type_by_header(header: u8)
    ensures
        1 <= header <= 3 ==> spec_mbc_type(header) == Some(MBCType::Mbc1),
        5 <= header <= 6 ==> spec_mbc_type(header) == Some(MBCType::Mbc2),
        0x0F <= header <= 0x13 ==> spec_mbc_type(header) == Some(MBCType::Mbc3),
        0x19 <= header <= 0x1E ==> spec_mbc_type(header) == Some(MBCType::Mbc5),
        header == 0 || header == 8 || header == 9 ==> spec_mbc_type(header) == Some(MBCType::RomOnly),
        spec_mbc_type(header) is Some <==> (header <= 3 || 5 <= header <= 6 || header == 8 || header == 9 || 0x0F
            <= header <= 0x13 || 0x19 <= header <= 0x1E),
{
}

} // verus!
