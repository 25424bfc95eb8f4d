use vstd::prelude::*;
use crate::bits::{lemma_byte, lemma_shift_in};

verus! {

/// How the four logical nametables map onto the console's two physical
/// 1 KiB nametable pages.
#[derive(Clone, Copy, Debug, PartialEq, Eq)]
pub enum Mirroring {
    Horizontal,
    Vertical,
    FourScreen,
    SingleScreenLower,
    SingleScreenUpper,
}

/// A zero-filled byte sequence of length `n`.
pub open spec fn zeros(n: nat) -> Seq<u8> {
    Seq::new(n, |i: int| 0u8)
}

/// The work RAM size that MMC1 boards carry.
pub const MMC1_PRG_RAM_SIZE: usize = 8192;

/// The CPU/PPU-visible interface of a cartridge board. The `*_ok`
/// predicates say on which addresses an access is defined; the exact
/// effect of each access is stated by each board on its own view.
pub trait Mapper {
    spec fn inv(&self) -> bool;

    spec fn cpu_read_ok(&self, address: u16) -> bool;

    spec fn ppu_read_ok(&self, address: u16) -> bool;

    spec fn ppu_write_ok(&self, address: u16) -> bool;

    fn cpu_read(&self, address: u16) -> u8
        requires
            self.inv(),
            self.cpu_read_ok(address),
    ;

    fn cpu_write(&mut self, address: u16, data: u8)
        requires
            old(self).inv(),
        ensures
            final(self).inv(),
    ;

    fn ppu_read(&self, address: u16) -> u8
        requires
            self.inv(),
            self.ppu_read_ok(address),
    ;

    fn ppu_write(&mut self, address: u16, data: u8)
        requires
            old(self).inv(),
            old(self).ppu_write_ok(address),
        ensures
            final(self).inv(),
    ;

    /// The mirroring that the board selects at run time, if it controls it.
    fn mirroring(&self) -> Option<Mirroring>;
}

// ---------------------------------------------------------------------
// NROM (mapper 0)
// ---------------------------------------------------------------------
/// The abstract state of an NROM board.
pub ghost struct NromState {
    pub prg: Seq<u8>,
    pub chr: Seq<u8>,
    pub prg_banks: u8,
    pub chr_is_ram: bool,
}

impl NromState {
    pub open spec fn cpu_read_ok(self, address: u16) -> bool {
        address < 0x8000 || self.prg.len() > 0
    }

    pub open spec fn ppu_read_ok(self, address: u16) -> bool {
        self.chr.len() > 0
    }

    pub open spec fn ppu_write_ok(self, address: u16) -> bool {
        !self.chr_is_ram || self.chr.len() > 0
    }

    /// A CPU read: 0x8000..=0xFFFF reads PRG ROM, which a single 16 KiB
    /// bank mirrors into both halves; other addresses read 0.
    pub open spec fn cpu_read(self, address: u16) -> u8 {
        if address >= 0x8000 {
            let wrapped = (address - 0x8000) % (self.prg.len() as int);
            let index = if self.prg_banks == 1 {
                wrapped % 0x4000
            } else {
                wrapped
            };
            self.prg[index]
        } else {
            0
        }
    }

    /// A PPU read of pattern memory, wrapped to its size.
    pub open spec fn ppu_read(self, address: u16) -> u8 {
        self.chr[address as int % (self.chr.len() as int)]
    }

    /// A PPU write: CHR RAM takes it, CHR ROM ignores it.
    pub open spec fn ppu_write(self, address: u16, data: u8) -> Self {
        if self.chr_is_ram {
            NromState {
                chr: self.chr.update(address as int % (self.chr.len() as int), data),
                ..self
            }
        } else {
            self
        }
    }
}

/// The NROM board: fixed PRG ROM and CHR ROM (or CHR RAM).
pub struct Mapper0 {
    prg_rom: Vec<u8>,
    chr_rom: Vec<u8>,
    prg_banks: u8,
    chr_is_ram: bool,
}

impl View for Mapper0 {
    type V = NromState;

    closed spec fn view(&self) -> NromState {
        NromState {
            prg: self.prg_rom@,
            chr: self.chr_rom@,
            prg_banks: self.prg_banks,
            chr_is_ram: self.chr_is_ram,
        }
    }
}

impl Mapper0 {
    pub fn new(prg_rom: Vec<u8>, chr_rom: Vec<u8>, chr_is_ram: bool) -> (m: Self)
        ensures
            m@ == (NromState {
                prg: prg_rom@,
                chr: chr_rom@,
                prg_banks: (prg_rom@.len() / 0x4000) as u8,
                chr_is_ram,
            }),
            m.inv(),
    {
        let prg_banks = (prg_rom.len() / 0x4000) as u8;
        Self { prg_rom, chr_rom, prg_banks, chr_is_ram }
    }
}

impl Mapper for Mapper0 {
    open spec fn inv(&self) -> bool {
        true
    }

    open spec fn cpu_read_ok(&self, address: u16) -> bool {
        self@.cpu_read_ok(address)
    }

    open spec fn ppu_read_ok(&self, address: u16) -> bool {
        self@.ppu_read_ok(address)
    }

    open spec fn ppu_write_ok(&self, address: u16) -> bool {
        self@.ppu_write_ok(address)
    }

    fn cpu_read(&self, addr: u16) -> (r: u8)
        ensures
            r == self@.cpu_read(addr),
    {
        if addr >= 0x8000 {
            let mut mapped_addr = (addr - 0x8000) as usize;
            mapped_addr %= self.prg_rom.len();
            if self.prg_banks == 1 {
                mapped_addr %= 0x4000;
            }
            self.prg_rom[mapped_addr]
        } else {
            0
        }
    }

    fn cpu_write(&mut self, _address: u16, _data: u8)
        ensures
            final(self)@ == old(self)@,
    {
    }

    fn ppu_read(&self, addr: u16) -> (r: u8)
        ensures
            r == self@.ppu_read(addr),
    {
        let addr = addr as usize % self.chr_rom.len();
        self.chr_rom[addr]
    }

    fn ppu_write(&mut self, address: u16, data: u8)
        ensures
            final(self)@ == old(self)@.ppu_write(address, data),
    {
        if self.chr_is_ram {
            let len = self.chr_rom.len();
            self.chr_rom[address as usize % len] = data;
        }
    }

    fn mirroring(&self) -> (m: Option<Mirroring>)
        ensures
            m.is_none(),
    {
        None
    }
}

// ---------------------------------------------------------------------
// MMC1 (mapper 1)
// ---------------------------------------------------------------------
/// The abstract state of an MMC1 board.
pub ghost struct Mmc1State {
    pub prg: Seq<u8>,
    pub chr: Seq<u8>,
    pub prg_ram: Seq<u8>,
    pub shift_register: u8,
    pub shift_count: u8,
    pub control: u8,
    pub chr_bank_0: u8,
    pub chr_bank_1: u8,
    pub prg_bank: u8,
    pub chr_is_ram: bool,
}

impl Mmc1State {
    /// Work RAM is 8 KiB, and the serial port holds fewer than five bits,
    /// nothing above the ones it has taken.
    pub open spec fn inv(self) -> bool {
        &&& self.prg_ram.len() == MMC1_PRG_RAM_SIZE
        &&& self.shift_count < 5
        &&& self.shift_register >> self.shift_count == 0
    }

    pub open spec fn cpu_read_ok(self, address: u16) -> bool {
        address < 0x8000 || self.prg.len() >= 0x4000
    }

    /// The 16 KiB PRG bank that a CPU address in 0x8000..=0xFFFF selects,
    /// by the PRG mode in control bits 2-3.
    pub open spec fn prg_bank_for(self, address: u16) -> int {
        let mode = (self.control >> 2u8) & 3;
        let last_bank = self.prg.len() / 0x4000 - 1;
        if mode == 0 || mode == 1 {
            // 32 KiB switching: bit 0 of the bank number is ignored
            let base = (self.prg_bank & 0x1E) as int;
            if address < 0xC000 {
                base
            } else {
                base + 1
            }
        } else if mode == 2 {
            // first bank fixed at 0x8000, switchable bank at 0xC000
            if address < 0xC000 {
                0
            } else {
                (self.prg_bank & 0x0F) as int
            }
        } else {
            // switchable bank at 0x8000, last bank fixed at 0xC000
            if address < 0xC000 {
                (self.prg_bank & 0x0F) as int
            } else {
                last_bank
            }
        }
    }

    pub open spec fn cpu_read(self, address: u16) -> u8 {
        if 0x6000 <= address <= 0x7FFF {
            self.prg_ram[address - 0x6000]
        } else if address >= 0x8000 {
            self.prg[(self.prg_bank_for(address) * 0x4000 + address % 0x4000) % (
            self.prg.len() as int)]
        } else {
            0
        }
    }

    /// The state after a CPU write: work RAM at 0x6000..=0x7FFF; at
    /// 0x8000..=0xFFFF the serial port, which takes one bit per write and
    /// on the fifth loads the register that address bits 13-14 select; a
    /// write with bit 7 set resets the port and forces PRG mode 3.
    pub open spec fn cpu_write(self, address: u16, data: u8) -> Self {
        if 0x6000 <= address <= 0x7FFF {
            Mmc1State { prg_ram: self.prg_ram.update(address - 0x6000, data), ..self }
        } else if address >= 0x8000 {
            if data & 0x80 != 0 {
                Mmc1State { shift_register: 0, shift_count: 0, control: self.control | 0x0C, ..self }
            } else {
                let sr = (self.shift_register | ((data & 1) << self.shift_count)) as u8;
                let count = self.shift_count + 1;
                if count == 5 {
                    let value = sr & 0x1F;
                    let target = (address >> 13u16) & 3;
                    let cleared = Mmc1State { shift_register: 0, shift_count: 0, ..self };
                    if target == 0 {
                        Mmc1State { control: value, ..cleared }
                    } else if target == 1 {
                        Mmc1State { chr_bank_0: value, ..cleared }
                    } else if target == 2 {
                        Mmc1State { chr_bank_1: value, ..cleared }
                    } else {
                        Mmc1State { prg_bank: value, ..cleared }
                    }
                } else {
                    Mmc1State { shift_register: sr, shift_count: count as u8, ..self }
                }
            }
        } else {
            self
        }
    }

    /// The 4 KiB CHR bank that a pattern address selects, by the CHR mode
    /// in control bit 4.
    pub open spec fn chr_bank_for(self, address: u16) -> int {
        if (self.control >> 4u8) & 1 == 0 {
            let base = (self.chr_bank_0 & 0x1E) as int;
            if address < 0x1000 {
                base
            } else {
                base + 1
            }
        } else {
            if address < 0x1000 {
                self.chr_bank_0 as int
            } else {
                self.chr_bank_1 as int
            }
        }
    }

    pub open spec fn chr_index(self, address: u16) -> int {
        (self.chr_bank_for(address) * 0x1000 + address % 0x1000) % (self.chr.len() as int)
    }

    pub open spec fn ppu_read(self, address: u16) -> u8 {
        if address >= 0x2000 || self.chr.len() == 0 {
            0
        } else {
            self.chr[self.chr_index(address)]
        }
    }

    pub open spec fn ppu_write(self, address: u16, data: u8) -> Self {
        if address >= 0x2000 || !self.chr_is_ram || self.chr.len() == 0 {
            self
        } else {
            Mmc1State { chr: self.chr.update(self.chr_index(address), data), ..self }
        }
    }

    /// The mirroring that control bits 0-1 select.
    pub open spec fn mirroring(self) -> Mirroring {
        let m = self.control & 3;
        if m == 0 {
            Mirroring::SingleScreenLower
        } else if m == 1 {
            Mirroring::SingleScreenUpper
        } else if m == 2 {
            Mirroring::Vertical
        } else {
            Mirroring::Horizontal
        }
    }
}

/// The MMC1 board: serially loaded bank registers for PRG and CHR, 8 KiB
/// of work RAM and run-time mirroring control.
pub struct Mapper1 {
    prg_rom: Vec<u8>,
    chr_rom: Vec<u8>,
    prg_ram: Vec<u8>,
    shift_register: u8,
    shift_count: u8,
    control_reg: u8,
    chr_bank_0: u8,
    chr_bank_1: u8,
    prg_bank: u8,
    chr_is_ram: bool,
}

impl View for Mapper1 {
    type V = Mmc1State;

    closed spec fn view(&self) -> Mmc1State {
        Mmc1State {
            prg: self.prg_rom@,
            chr: self.chr_rom@,
            prg_ram: self.prg_ram@,
            shift_register: self.shift_register,
            shift_count: self.shift_count,
            control: self.control_reg,
            chr_bank_0: self.chr_bank_0,
            chr_bank_1: self.chr_bank_1,
            prg_bank: self.prg_bank,
            chr_is_ram: self.chr_is_ram,
        }
    }
}

/// A zero-filled byte vector of length `n`.
pub fn zeroed(n: usize) -> (v: Vec<u8>)
    ensures
        v@ == zeros(n as nat),
{
    let mut v: Vec<u8> = Vec::new();
    let mut i: usize = 0;
    while i < n
        invariant
            i <= n,
            v@ == zeros(i as nat),
        decreases n - i,
    {
        v.push(0);
        i += 1;
    }
    v
}

impl Mapper1 {
    pub fn new(prg_rom: Vec<u8>, chr_rom: Vec<u8>, chr_is_ram: bool) -> (m: Self)
        ensures
            m@ == (Mmc1State {
                prg: prg_rom@,
                chr: chr_rom@,
                prg_ram: zeros(8192),
                shift_register: 0,
                shift_count: 0,
                control: 0x0C,
                chr_bank_0: 0,
                chr_bank_1: 0,
                prg_bank: 0,
                chr_is_ram,
            }),
            m.inv(),
    {
        proof {
            lemma_byte(0);
        }
        Self {
            prg_rom,
            chr_rom,
            prg_ram: zeroed(MMC1_PRG_RAM_SIZE),
            shift_register: 0,
            shift_count: 0,
            // PRG mode 3: last bank fixed at 0xC000
            control_reg: 0x0C,
            chr_bank_0: 0,
            chr_bank_1: 0,
            prg_bank: 0,
            chr_is_ram,
        }
    }

    fn chr_bank(&self, addr: u16) -> (r: usize)
        requires
            addr < 0x2000,
        ensures
            r == self@.chr_bank_for(addr),
            r <= 256,
    {
        let b0 = self.chr_bank_0;
        assert(b0 & 0x1E <= 0x1E) by (bit_vector);
        let chr_mode = (self.control_reg >> 4) & 0x01;
        if chr_mode == 0 {
            let base_bank = (self.chr_bank_0 & 0x1E) as usize;
            if addr < 0x1000 {
                base_bank
            } else {
                base_bank + 1
            }
        } else {
            if addr < 0x1000 {
                self.chr_bank_0 as usize
            } else {
                self.chr_bank_1 as usize
            }
        }
    }
}

impl Mapper for Mapper1 {
    open spec fn inv(&self) -> bool {
        self@.inv()
    }

    open spec fn cpu_read_ok(&self, address: u16) -> bool {
        self@.cpu_read_ok(address)
    }

    open spec fn ppu_read_ok(&self, address: u16) -> bool {
        true
    }

    open spec fn ppu_write_ok(&self, address: u16) -> bool {
        true
    }

    fn cpu_read(&self, addr: u16) -> (r: u8)
        ensures
            r == self@.cpu_read(addr),
    {
        if 0x6000 <= addr && addr <= 0x7FFF {
            self.prg_ram[(addr - 0x6000) as usize]
        } else if addr >= 0x8000 {
            let pb = self.prg_bank;
            assert(pb & 0x1E <= 0x1E && pb & 0x0F <= 0x0F) by (bit_vector);
            let prg_mode = (self.control_reg >> 2) & 0x03;
            let last_bank = (self.prg_rom.len() / 0x4000) - 1;
            let bank: usize = if prg_mode == 0 || prg_mode == 1 {
                let base_bank = (self.prg_bank & 0x1E) as usize;
                if addr < 0xC000 {
                    base_bank
                } else {
                    base_bank + 1
                }
            } else if prg_mode == 2 {
                if addr < 0xC000 {
                    0
                } else {
                    (self.prg_bank & 0x0F) as usize
                }
            } else {
                if addr < 0xC000 {
                    (self.prg_bank & 0x0F) as usize
                } else {
                    last_bank
                }
            };
            let offset = (addr & 0x3FFF) as usize;
            assert(addr & 0x3FFF == addr % 0x4000) by (bit_vector);
            assert(bank * 0x4000 <= self.prg_rom.len() + 0x80000) by (nonlinear_arith)
                requires
                    bank <= last_bank || bank <= 31,
                    last_bank == self.prg_rom.len() / 0x4000 - 1,
            ;
            let mapped_addr = bank * 0x4000 + offset;
            self.prg_rom[mapped_addr % self.prg_rom.len()]
        } else {
            0
        }
    }

    fn cpu_write(&mut self, addr: u16, data: u8)
        ensures
            final(self)@ == old(self)@.cpu_write(addr, data),
    {
        proof {
            lemma_byte(0);
        }
        if 0x6000 <= addr && addr <= 0x7FFF {
            self.prg_ram[(addr - 0x6000) as usize] = data;
        } else if addr >= 0x8000 {
            if (data & 0x80) != 0 {
                self.shift_register = 0;
                self.shift_count = 0;
                self.control_reg |= 0x0C;
            } else {
                proof {
                    lemma_shift_in(self.shift_register, self.shift_count, data);
                }
                self.shift_register |= (data & 0x01) << self.shift_count;
                self.shift_count += 1;
                if self.shift_count == 5 {
                    let register_index = (addr >> 13) & 0x03;
                    let value = self.shift_register & 0x1F;
                    if register_index == 0 {
                        self.control_reg = value;
                    } else if register_index == 1 {
                        self.chr_bank_0 = value;
                    } else if register_index == 2 {
                        self.chr_bank_1 = value;
                    } else {
                        self.prg_bank = value;
                    }
                    self.shift_register = 0;
                    self.shift_count = 0;
                }
            }
        }
    }

    fn ppu_read(&self, addr: u16) -> (r: u8)
        ensures
            r == self@.ppu_read(addr),
    {
        if addr >= 0x2000 || self.chr_rom.len() == 0 {
            return 0;
        }
        let bank = self.chr_bank(addr);
        let offset = (addr & 0x0FFF) as usize;
        assert(addr & 0x0FFF == addr % 0x1000) by (bit_vector);
        let mapped_addr = bank * 0x1000 + offset;
        self.chr_rom[mapped_addr % self.chr_rom.len()]
    }

    fn ppu_write(&mut self, addr: u16, data: u8)
        ensures
            final(self)@ == old(self)@.ppu_write(addr, data),
    {
        if addr >= 0x2000 || !self.chr_is_ram {
            return;
        }
        let bank = self.chr_bank(addr);
        let offset = (addr & 0x0FFF) as usize;
        assert(addr & 0x0FFF == addr % 0x1000) by (bit_vector);
        let mapped_addr = bank * 0x1000 + offset;
        let len = self.chr_rom.len();
        if len > 0 {
            self.chr_rom[mapped_addr % len] = data;
        }
    }

    fn mirroring(&self) -> (m: Option<Mirroring>)
        ensures
            m == Some(self@.mirroring()),
    {
        let mode = self.control_reg & 0x03;
        Some(
            if mode == 0 {
                Mirroring::SingleScreenLower
            } else if mode == 1 {
                Mirroring::SingleScreenUpper
            } else if mode == 2 {
                Mirroring::Vertical
            } else {
                Mirroring::Horizontal
            },
        )
    }
}

// ---------------------------------------------------------------------
// Boards and the cartridge
// ---------------------------------------------------------------------
/// The abstract state of the board on a cartridge.
pub ghost enum BoardState {
    Nrom(NromState),
    Mmc1(Mmc1State),
}

impl BoardState {
    pub open spec fn inv(self) -> bool {
        match self {
            BoardState::Nrom(_) => true,
            BoardState::Mmc1(m) => m.inv(),
        }
    }

    pub open spec fn cpu_read_ok(self, address: u16) -> bool {
        match self {
            BoardState::Nrom(m) => m.cpu_read_ok(address),
            BoardState::Mmc1(m) => m.cpu_read_ok(address),
        }
    }

    /// Every CPU read of 0x8000..=0xFFFF is defined.
    pub open spec fn prg_ready(self) -> bool {
        match self {
            BoardState::Nrom(m) => m.prg.len() > 0,
            BoardState::Mmc1(m) => m.prg.len() >= 0x4000,
        }
    }

    /// Every PPU access of pattern memory is defined.
    pub open spec fn chr_ready(self) -> bool {
        match self {
            BoardState::Nrom(m) => m.chr.len() > 0,
            BoardState::Mmc1(_) => true,
        }
    }

    pub open spec fn cpu_read(self, address: u16) -> u8 {
        match self {
            BoardState::Nrom(m) => m.cpu_read(address),
            BoardState::Mmc1(m) => m.cpu_read(address),
        }
    }

    pub open spec fn cpu_write(self, address: u16, data: u8) -> Self {
        match self {
            BoardState::Nrom(m) => BoardState::Nrom(m),
            BoardState::Mmc1(m) => BoardState::Mmc1(m.cpu_write(address, data)),
        }
    }

    pub open spec fn ppu_read(self, address: u16) -> u8 {
        match self {
            BoardState::Nrom(m) => m.ppu_read(address),
            BoardState::Mmc1(m) => m.ppu_read(address),
        }
    }

    pub open spec fn ppu_write(self, address: u16, data: u8) -> Self {
        match self {
            BoardState::Nrom(m) => BoardState::Nrom(m.ppu_write(address, data)),
            BoardState::Mmc1(m) => BoardState::Mmc1(m.ppu_write(address, data)),
        }
    }

    pub open spec fn mirroring(self) -> Option<Mirroring> {
        match self {
            BoardState::Nrom(_) => None,
            BoardState::Mmc1(m) => Some(m.mirroring()),
        }
    }
}

/// The board on a cartridge: one of the supported mappers.
pub enum MapperBoard {
    Nrom(Mapper0),
    Mmc1(Mapper1),
}

impl View for MapperBoard {
    type V = BoardState;

    open spec fn view(&self) -> BoardState {
        match self {
            MapperBoard::Nrom(m) => BoardState::Nrom(m@),
            MapperBoard::Mmc1(m) => BoardState::Mmc1(m@),
        }
    }
}

impl Mapper for MapperBoard {
    open spec fn inv(&self) -> bool {
        self@.inv()
    }

    open spec fn cpu_read_ok(&self, address: u16) -> bool {
        self@.cpu_read_ok(address)
    }

    open spec fn ppu_read_ok(&self, address: u16) -> bool {
        self@.chr_ready()
    }

    open spec fn ppu_write_ok(&self, address: u16) -> bool {
        self@.chr_ready()
    }

    fn cpu_read(&self, address: u16) -> (r: u8)
        ensures
            r == self@.cpu_read(address),
    {
        match self {
            MapperBoard::Nrom(m) => m.cpu_read(address),
            MapperBoard::Mmc1(m) => m.cpu_read(address),
        }
    }

    fn cpu_write(&mut self, address: u16, data: u8)
        ensures
            final(self)@ == old(self)@.cpu_write(address, data),
    {
        match self {
            MapperBoard::Nrom(m) => m.cpu_write(address, data),
            MapperBoard::Mmc1(m) => m.cpu_write(address, data),
        }
    }

    fn ppu_read(&self, address: u16) -> (r: u8)
        ensures
            r == self@.ppu_read(address),
    {
        match self {
            MapperBoard::Nrom(m) => m.ppu_read(address),
            MapperBoard::Mmc1(m) => m.ppu_read(address),
        }
    }

    fn ppu_write(&mut self, address: u16, data: u8)
        ensures
            final(self)@ == old(self)@.ppu_write(address, data),
    {
        match self {
            MapperBoard::Nrom(m) => m.ppu_write(address, data),
            MapperBoard::Mmc1(m) => m.ppu_write(address, data),
        }
    }

    fn mirroring(&self) -> (r: Option<Mirroring>)
        ensures
            r == self@.mirroring(),
    {
        match self {
            MapperBoard::Nrom(m) => m.mirroring(),
            MapperBoard::Mmc1(m) => m.mirroring(),
        }
    }
}

/// The abstract state of a cartridge slot.
pub ghost struct CartState {
    pub board: Option<BoardState>,
    pub mirroring: Mirroring,
}

/// Which physical nametable page a logical nametable (0..) lands on.
pub open spec fn physical_table(m: Mirroring, table: int) -> int {
    match m {
        Mirroring::Horizontal => if table == 0 || table == 1 {
            0
        } else {
            1
        },
        Mirroring::Vertical => if table == 0 || table == 2 {
            0
        } else {
            1
        },
        Mirroring::FourScreen => table % 2,
        Mirroring::SingleScreenLower => 0,
        Mirroring::SingleScreenUpper => 1,
    }
}

/// The index into the 2 KiB of nametable RAM that a PPU address (at or
/// above 0x2000) reaches under mirroring `m`.
pub open spec fn nametable_index(m: Mirroring, address: u16) -> int {
    let addr = address - 0x2000;
    physical_table(m, addr / 0x400) * 0x400 + addr % 0x400
}

impl CartState {
    pub open spec fn inv(self) -> bool {
        self.board matches Some(b) ==> b.inv()
    }

    /// The mirroring in effect: the board's own choice where it makes one,
    /// else the one the iNES header gave.
    pub open spec fn current_mirroring(self) -> Mirroring {
        match self.board {
            Some(b) => match b.mirroring() {
                Some(m) => m,
                None => self.mirroring,
            },
            None => self.mirroring,
        }
    }

    /// A board is present and every CPU read of 0x8000..=0xFFFF is defined.
    pub open spec fn prg_ready(self) -> bool {
        self.board matches Some(b) && b.prg_ready()
    }

    /// Every PPU access of pattern memory is defined.
    pub open spec fn chr_ready(self) -> bool {
        self.board matches Some(b) ==> b.chr_ready()
    }

    pub open spec fn cpu_read(self, address: u16) -> u8 {
        match self.board {
            Some(b) => b.cpu_read(address),
            None => 0,
        }
    }

    pub open spec fn cpu_write(self, address: u16, data: u8) -> Self {
        match self.board {
            Some(b) => CartState { board: Some(b.cpu_write(address, data)), ..self },
            None => self,
        }
    }

    /// A PPU read of pattern memory (0 with no board present).
    pub open spec fn ppu_read(self, address: u16) -> u8 {
        match self.board {
            Some(b) => b.ppu_read(address),
            None => 0,
        }
    }

    pub open spec fn ppu_write(self, address: u16, data: u8) -> Self {
        match self.board {
            Some(b) => CartState { board: Some(b.ppu_write(address, data)), ..self },
            None => self,
        }
    }
}

// ---------------------------------------------------------------------
// iNES parsing
// ---------------------------------------------------------------------
/// The file starts with a full 16-byte header whose magic is "NES" 0x1A.
pub open spec fn header_ok(b: Seq<u8>) -> bool {
    &&& b.len() >= 16
    &&& b[0] == 0x4E && b[1] == 0x45 && b[2] == 0x53 && b[3] == 0x1A
}

/// PRG ROM size: header byte 4 counts 16 KiB units.
pub open spec fn prg_size(b: Seq<u8>) -> int {
    b[4] as int * 16384
}

/// CHR ROM size: header byte 5 counts 8 KiB units.
pub open spec fn chr_size(b: Seq<u8>) -> int {
    b[5] as int * 8192
}

/// The mapper number: high nibble from flags 7, low nibble from flags 6.
pub open spec fn mapper_id(b: Seq<u8>) -> u8 {
    (b[7] & 0xF0) | (b[6] >> 4u8)
}

/// Where PRG ROM starts: after the header and the 512-byte trainer that
/// flags 6 bit 2 announces.
pub open spec fn data_offset(b: Seq<u8>) -> int {
    16 + if b[6] & 0x04 != 0 {
        512int
    } else {
        0int
    }
}

/// The file is shorter than the header says.
pub open spec fn truncated(b: Seq<u8>) -> bool {
    b.len() < data_offset(b) + prg_size(b) + chr_size(b)
}

/// Flags 6: bit 3 four-screen, else bit 0 vertical, else horizontal.
pub open spec fn header_mirroring(b: Seq<u8>) -> Mirroring {
    if b[6] & 0x08 != 0 {
        Mirroring::FourScreen
    } else if b[6] & 0x01 != 0 {
        Mirroring::Vertical
    } else {
        Mirroring::Horizontal
    }
}

pub open spec fn prg_data(b: Seq<u8>) -> Seq<u8> {
    b.subrange(data_offset(b), data_offset(b) + prg_size(b))
}

/// CHR ROM from the file, or 8 KiB of zeroed CHR RAM when the header
/// declares no CHR banks.
pub open spec fn chr_data(b: Seq<u8>) -> Seq<u8> {
    if b[5] == 0 {
        zeros(8192)
    } else {
        b.subrange(data_offset(b) + prg_size(b), data_offset(b) + prg_size(b) + chr_size(b))
    }
}

/// Whether an iNES image loads.
pub open spec fn ines_loads(b: Seq<u8>) -> bool {
    header_ok(b) && !truncated(b) && (mapper_id(b) == 0 || mapper_id(b) == 1)
}

/// The board that an iNES image that loads carries, freshly powered on.
pub open spec fn loaded_board(b: Seq<u8>) -> BoardState {
    if mapper_id(b) == 0 {
        BoardState::Nrom(
            NromState {
                prg: prg_data(b),
                chr: chr_data(b),
                prg_banks: (prg_data(b).len() / 0x4000) as u8,
                chr_is_ram: b[5] == 0,
            },
        )
    } else {
        BoardState::Mmc1(
            Mmc1State {
                prg: prg_data(b),
                chr: chr_data(b),
                prg_ram: zeros(8192),
                shift_register: 0,
                shift_count: 0,
                control: 0x0C,
                chr_bank_0: 0,
                chr_bank_1: 0,
                prg_bank: 0,
                chr_is_ram: b[5] == 0,
            },
        )
    }
}

/// The decimal digits of a byte.
pub open spec fn decimal(n: u8) -> Seq<char> {
    if n < 10 {
        seq![digit(n as int)]
    } else if n < 100 {
        seq![digit(n as int / 10), digit(n as int % 10)]
    } else {
        seq![digit(n as int / 100), digit((n as int / 10) % 10), digit(n as int % 10)]
    }
}

pub open spec fn digit(d: int) -> char {
    (48 + d) as char
}

/// The message for an image that does not load.
pub open spec fn load_error(b: Seq<u8>) -> Seq<char> {
    if !header_ok(b) {
        "Invalid iNES header"@
    } else if truncated(b) {
        "File truncated: actual length is smaller than header specification"@
    } else {
        "Unsupported Mapper ID: "@ + decimal(mapper_id(b))
    }
}

/// One decimal digit as a one-character string.
fn digit_str(d: u8) -> (s: &'static str)
    requires
        d < 10,
    ensures
        s@ == seq![digit(d as int)],
{
    proof {
        reveal_strlit("0");
        reveal_strlit("1");
        reveal_strlit("2");
        reveal_strlit("3");
        reveal_strlit("4");
        reveal_strlit("5");
        reveal_strlit("6");
        reveal_strlit("7");
        reveal_strlit("8");
        reveal_strlit("9");
    }
    if d == 0 {
        "0"
    } else if d == 1 {
        "1"
    } else if d == 2 {
        "2"
    } else if d == 3 {
        "3"
    } else if d == 4 {
        "4"
    } else if d == 5 {
        "5"
    } else if d == 6 {
        "6"
    } else if d == 7 {
        "7"
    } else if d == 8 {
        "8"
    } else {
        "9"
    }
}

/// Appends the decimal digits of `n` (no sign, no padding) to `s`.
fn append_decimal(s: &mut String, n: u8)
    ensures
        final(s)@ == old(s)@ + decimal(n),
{
    if n >= 100 {
        s.append(digit_str(n / 100));
    }
    if n >= 10 {
        s.append(digit_str((n / 10) % 10));
    }
    s.append(digit_str(n % 10));
}

/// A cartridge slot: the board, if a cartridge is loaded, and the
/// mirroring that its iNES header declares.
pub struct Cartridge {
    pub mapper: Option<MapperBoard>,
    pub mirroring: Mirroring,
}

impl View for Cartridge {
    type V = CartState;

    open spec fn view(&self) -> CartState {
        CartState {
            board: match self.mapper {
                Some(m) => Some(m@),
                None => None,
            },
            mirroring: self.mirroring,
        }
    }
}

impl Cartridge {
    /// An empty slot.
    pub fn new() -> (c: Self)
        ensures
            c@.board.is_none(),
            c@.mirroring == Mirroring::Horizontal,
    {
        Self { mapper: None, mirroring: Mirroring::Horizontal }
    }

    /// Parses an iNES image. It loads exactly when the header is present,
    /// the file holds all the PRG and CHR data the header declares, and
    /// the mapper is NROM (0) or MMC1 (1); the error says which check
    /// failed first.
    pub fn load(bytes: &[u8]) -> (r: Result<Self, String>)
        ensures
            match r {
                Ok(c) => ines_loads(bytes@) && c@ == (CartState {
                    board: Some(loaded_board(bytes@)),
                    mirroring: header_mirroring(bytes@),
                }),
                Err(e) => !ines_loads(bytes@) && e@ == load_error(bytes@),
            },
    {
        let ghost b = bytes@;
        if bytes.len() < 16 || bytes[0] != 0x4E || bytes[1] != 0x45 || bytes[2] != 0x53 || bytes[3]
            != 0x1A {
            return Err("Invalid iNES header".to_string());
        }
        let prg_size = bytes[4] as usize * 16384;
        let chr_banks = bytes[5] as usize;
        let chr_size = chr_banks * 8192;

        let flags6 = bytes[6];
        let flags7 = bytes[7];

        let mapper_low = flags6 >> 4;
        let mapper_high = flags7 & 0xF0;
        let mapper_id = mapper_high | mapper_low;

        let has_trainer = (flags6 & 0x04) != 0;

        let mirroring = if (flags6 & 0x08) != 0 {
            Mirroring::FourScreen
        } else if (flags6 & 0x01) != 0 {
            Mirroring::Vertical
        } else {
            Mirroring::Horizontal
        };

        let mut offset: usize = 16;
        if has_trainer {
            offset += 512;
        }
        let expected_chr_size = if chr_banks > 0 {
            chr_size
        } else {
            0
        };
        if bytes.len() < offset + prg_size + expected_chr_size {
            return Err(
                "File truncated: actual length is smaller than header specification".to_string(),
            );
        }
        let prg_rom = vstd::slice::slice_to_vec(
            vstd::slice::slice_subrange(bytes, offset, offset + prg_size),
        );
        offset += prg_size;

        let chr_is_ram = chr_banks == 0;
        let chr_rom = if chr_is_ram {
            zeroed(8192)
        } else {
            vstd::slice::slice_to_vec(vstd::slice::slice_subrange(bytes, offset, offset + chr_size))
        };

        let mapper = if mapper_id == 0 {
            MapperBoard::Nrom(Mapper0::new(prg_rom, chr_rom, chr_is_ram))
        } else if mapper_id == 1 {
            MapperBoard::Mmc1(Mapper1::new(prg_rom, chr_rom, chr_is_ram))
        } else {
            let mut message = "Unsupported Mapper ID: ".to_string();
            append_decimal(&mut message, mapper_id);
            return Err(message);
        };
        Ok(Self { mapper: Some(mapper), mirroring })
    }

    /// The index into nametable RAM that a PPU nametable address reaches,
    /// under the mirroring currently in effect.
    pub fn map_nametable_address(&self, address: u16) -> (r: usize)
        requires
            address >= 0x2000,
        ensures
            r == nametable_index(self@.current_mirroring(), address),
            r < 0x800,
    {
        let mirroring = match &self.mapper {
            Some(m) => match m.mirroring() {
                Some(mm) => mm,
                None => self.mirroring,
            },
            None => self.mirroring,
        };
        let addr = (address - 0x2000) as usize;
        let table = addr / 0x400;
        let offset = addr % 0x400;
        let physical_table: usize = match mirroring {
            Mirroring::Horizontal => if table == 0 || table == 1 {
                0
            } else {
                1
            },
            Mirroring::Vertical => if table == 0 || table == 2 {
                0
            } else {
                1
            },
            Mirroring::FourScreen => table % 2,
            Mirroring::SingleScreenLower => 0,
            Mirroring::SingleScreenUpper => 1,
        };
        physical_table * 0x400 + offset
    }

    /// A CPU read of cartridge space.
    pub fn cpu_read(&self, address: u16) -> (r: u8)
        requires
            self@.inv(),
            self@.board matches Some(b) && b.cpu_read_ok(address),
        ensures
            r == self@.cpu_read(address),
    {
        match &self.mapper {
            Some(m) => m.cpu_read(address),
            None => 0,
        }
    }

    /// A CPU write to cartridge space (ignored with no board present).
    pub fn cpu_write(&mut self, address: u16, data: u8)
        requires
            old(self)@.inv(),
        ensures
            final(self)@ == old(self)@.cpu_write(address, data),
            final(self)@.inv(),
            final(self)@.prg_ready() == old(self)@.prg_ready(),
            final(self)@.chr_ready() == old(self)@.chr_ready(),
    {
        match &mut self.mapper {
            Some(m) => m.cpu_write(address, data),
            None => {},
        }
    }

    /// A PPU read of pattern memory (0 with no board present).
    pub fn ppu_read(&self, address: u16) -> (r: u8)
        requires
            self@.inv(),
            self@.chr_ready(),
        ensures
            r == self@.ppu_read(address),
    {
        match &self.mapper {
            Some(m) => m.ppu_read(address),
            None => 0,
        }
    }

    /// A PPU write to pattern memory (ignored with no board present).
    pub fn ppu_write(&mut self, address: u16, data: u8)
        requires
            old(self)@.inv(),
            old(self)@.chr_ready(),
        ensures
            final(self)@ == old(self)@.ppu_write(address, data),
            final(self)@.inv(),
            final(self)@.prg_ready() == old(self)@.prg_ready(),
            final(self)@.chr_ready() == old(self)@.chr_ready(),
    {
        match &mut self.mapper {
            Some(m) => m.ppu_write(address, data),
            None => {},
        }
    }
}

/// Nametable mirroring: horizontal mirroring pairs 0x2000/0x2400 and
/// 0x2800/0x2C00; vertical pairs 0x2000/0x2800 and 0x2400/0x2C00; the two
/// pages are distinct; single-screen modes use one page for all four.
pub proof fn lemma_nametable_mirroring(i: u16)
    requires
        i < 0x400,
    ensures
        nametable_index(Mirroring::Horizontal, (0x2000 + i) as u16) == nametable_index(
            Mirroring::Horizontal,
            (0x2400 + i) as u16,
        ),
        nametable_index(Mirroring::Horizontal, (0x2800 + i) as u16) == nametable_index(
            Mirroring::Horizontal,
            (0x2C00 + i) as u16,
        ),
        nametable_index(Mirroring::Horizontal, (0x2000 + i) as u16) != nametable_index(
            Mirroring::Horizontal,
            (0x2800 + i) as u16,
        ),
        nametable_index(Mirroring::Vertical, (0x2000 + i) as u16) == nametable_index(
            Mirroring::Vertical,
            (0x2800 + i) as u16,
        ),
        nametable_index(Mirroring::Vertical, (0x2400 + i) as u16) == nametable_index(
            Mirroring::Vertical,
            (0x2C00 + i) as u16,
        ),
        nametable_index(Mirroring::Vertical, (0x2000 + i) as u16) != nametable_index(
            Mirroring::Vertical,
            (0x2400 + i) as u16,
        ),
        nametable_index(Mirroring::SingleScreenLower, (0x2C00 + i) as u16) == i as int,
        nametable_index(Mirroring::SingleScreenUpper, (0x2000 + i) as u16) == 0x400 + i as int,
{
}

/// NROM with one 16 KiB PRG bank mirrors it: 0xC000..=0xFFFF reads what
/// 0x8000..=0xBFFF reads.
pub proof fn lemma_nrom_128_mirror(m: NromState, i: u16)
    requires
        m.prg.len() == 0x4000,
        m.prg_banks == 1,
        i < 0x4000,
    ensures
        m.cpu_read((0x8000 + i) as u16) == m.cpu_read((0xC000 + i) as u16),
        m.cpu_read((0x8000 + i) as u16) == m.prg[i as int],
{
}

/// The five bits that a serial load assembles: bit 0 of each of five
/// writes, the first write giving the least significant bit.
pub open spec fn serial_value(d0: u8, d1: u8, d2: u8, d3: u8, d4: u8) -> u8 {
    ((d0 & 1) | ((d1 & 1) << 1u8) | ((d2 & 1) << 2u8) | ((d3 & 1) << 3u8) | ((d4 & 1) << 4u8)) as u8
}

/// The MMC1 serial port: from an empty port, five writes to
/// 0x8000..=0xFFFF without bit 7 load bit 0 of each (the first write's
/// bit least significant) into the register that bits 13-14 of the last
/// write's address select (control, CHR bank 0, CHR bank 1, PRG bank),
/// and leave the port empty.
pub proof fn lemma_mmc1_serial_load(
    m: Mmc1State,
    a0: u16,
    a1: u16,
    a2: u16,
    a3: u16,
    a4: u16,
    d0: u8,
    d1: u8,
    d2: u8,
    d3: u8,
    d4: u8,
)
    requires
        m.inv(),
        m.shift_count == 0,
        a0 >= 0x8000 && a1 >= 0x8000 && a2 >= 0x8000 && a3 >= 0x8000 && a4 >= 0x8000,
        d0 < 0x80 && d1 < 0x80 && d2 < 0x80 && d3 < 0x80 && d4 < 0x80,
    ensures
        ({
            let m5 = m.cpu_write(a0, d0).cpu_write(a1, d1).cpu_write(a2, d2).cpu_write(
                a3,
                d3,
            ).cpu_write(a4, d4);
            let value = serial_value(d0, d1, d2, d3, d4);
            let target = (a4 >> 13u16) & 3;
            &&& m5.shift_count == 0 && m5.shift_register == 0
            &&& target == 0 ==> m5.control == value
            &&& target == 1 ==> m5.chr_bank_0 == value
            &&& target == 2 ==> m5.chr_bank_1 == value
            &&& target == 3 ==> m5.prg_bank == value
            &&& m5.prg == m.prg && m5.chr == m.chr && m5.prg_ram == m.prg_ram
        }),
{
    let sr = m.shift_register;
    assert(sr >> 0u8 == sr) by (bit_vector);
    assert(d0 & 0x80 == 0 && d1 & 0x80 == 0 && d2 & 0x80 == 0 && d3 & 0x80 == 0 && d4 & 0x80 == 0)
        by (bit_vector)
        requires
            d0 < 0x80 && d1 < 0x80 && d2 < 0x80 && d3 < 0x80 && d4 < 0x80,
    ;
    let s1 = (0u8 | ((d0 & 1) << 0u8)) as u8;
    let s2 = (s1 | ((d1 & 1) << 1u8)) as u8;
    let s3 = (s2 | ((d2 & 1) << 2u8)) as u8;
    let s4 = (s3 | ((d3 & 1) << 3u8)) as u8;
    let s5 = (s4 | ((d4 & 1) << 4u8)) as u8;
    assert(s5 & 0x1F == serial_value(d0, d1, d2, d3, d4)) by (bit_vector)
        requires
            s1 == (0u8 | ((d0 & 1) << 0u8)),
            s2 == (s1 | ((d1 & 1) << 1u8)),
            s3 == (s2 | ((d2 & 1) << 2u8)),
            s4 == (s3 | ((d3 & 1) << 3u8)),
            s5 == (s4 | ((d4 & 1) << 4u8)),
    ;
}

/// MMC1 CHR banking. With control bit 4 clear (8 KiB mode), pattern
/// addresses 0x0000..=0x0FFF read 4 KiB bank `chr_bank_0 & 0x1E` and
/// 0x1000..=0x1FFF the bank after it; CHR bank 1 plays no part. With bit 4
/// set (4 KiB mode), the lower half reads bank `chr_bank_0` and the upper
/// half bank `chr_bank_1`. Offsets within a bank are the low 12 address
/// bits, and the CHR index wraps at its size.
pub proof fn lemma_mmc1_chr_banks(m: Mmc1State, a: u16)
    requires
        a < 0x2000,
        m.chr.len() > 0,
    ensures
        ({
            let n = m.chr.len() as int;
            let bank: int = if m.control & 0x10 == 0 {
                if a < 0x1000 {
                    (m.chr_bank_0 & 0x1E) as int
                } else {
                    (m.chr_bank_0 & 0x1E) as int + 1
                }
            } else {
                if a < 0x1000 {
                    m.chr_bank_0 as int
                } else {
                    m.chr_bank_1 as int
                }
            };
            m.ppu_read(a) == m.chr[(bank * 0x1000 + a as int % 0x1000) % n]
        }),
{
    let ctl = m.control;
    assert(((ctl >> 4u8) & 1 == 0) == (ctl & 0x10 == 0)) by (bit_vector);
}

/// The iNES layout: after the 16-byte header (and a 512-byte trainer when
/// flags 6 bit 2 is set) come byte 4 times 16 KiB of PRG ROM and then
/// byte 5 times 8 KiB of CHR ROM; the mapper number is flags 7's high
/// nibble over flags 6's high nibble; flags 6 bit 3 asks for four-screen
/// mirroring, else bit 0 for vertical, else horizontal. An image loads
/// exactly when it has the magic, is long enough for its header, and
/// names mapper 0 or 1; the board then has that PRG, that CHR or (with no
/// CHR banks) 8 KiB of zeroed CHR RAM, and NROM for mapper 0, MMC1 for 1.
pub proof fn lemma_ines_layout(b: Seq<u8>)
    requires
        b.len() >= 16,
    ensures
        ({
            let off: int = 16 + if b[6] % 8 >= 4 {
                512int
            } else {
                0
            };
            let prg = b[4] as int * 0x4000;
            let chr = b[5] as int * 0x2000;
            let id = (b[7] / 16) as int * 16 + (b[6] / 16) as int;
            &&& mapper_id(b) == id
            &&& header_mirroring(b) == if b[6] % 16 >= 8 {
                Mirroring::FourScreen
            } else if b[6] % 2 == 1 {
                Mirroring::Vertical
            } else {
                Mirroring::Horizontal
            }
            &&& ines_loads(b) == (b[0] == 0x4E && b[1] == 0x45 && b[2] == 0x53 && b[3] == 0x1A
                && b.len() >= off + prg + chr && (id == 0 || id == 1))
            &&& ines_loads(b) ==> match loaded_board(b) {
                BoardState::Nrom(m) => id == 0 && m.prg == b.subrange(off, off + prg) && m.chr == (
                if b[5] == 0 {
                    Seq::new(0x2000, |i: int| 0u8)
                } else {
                    b.subrange(off + prg, off + prg + chr)
                }),
                BoardState::Mmc1(m) => id == 1 && m.prg == b.subrange(off, off + prg) && m.chr == (
                if b[5] == 0 {
                    Seq::new(0x2000, |i: int| 0u8)
                } else {
                    b.subrange(off + prg, off + prg + chr)
                }),
            }
        }),
{
    let f6 = b[6];
    let f7 = b[7];
    assert((f7 & 0xF0) | (f6 >> 4u8) == (f7 / 16) * 16 + f6 / 16 && (f6 & 0x04 != 0) == (f6 % 8 >= 4)
        && (f6 & 0x08 != 0) == (f6 % 16 >= 8) && (f6 & 0x01 != 0) == (f6 % 2 == 1)) by (bit_vector);
}

/// MMC1 PRG banking of 0x8000..=0xFFFF in 16 KiB banks, by control bits
/// 2-3: with bit 3 clear (32 KiB mode) the pair of banks starting at
/// `prg_bank & 0x1E`; with bits 3-2 = 10 bank 0 fixed at 0x8000 and bank
/// `prg_bank & 0x0F` at 0xC000; with 11 bank `prg_bank & 0x0F` at 0x8000
/// and the last bank fixed at 0xC000. Offsets are the low 14 address bits
/// and the PRG index wraps at its size. Work RAM is at 0x6000..=0x7FFF.
pub proof fn lemma_mmc1_prg_banks(m: Mmc1State, a: u16)
    requires
        m.prg.len() > 0,
    ensures
        ({
            let n = m.prg.len() as int;
            let last = n / 0x4000 - 1;
            let bank: int = if m.control & 0x08 == 0 {
                (m.prg_bank & 0x1E) as int + if a >= 0xC000 {
                    1int
                } else {
                    0
                }
            } else if m.control & 0x04 == 0 {
                if a >= 0xC000 {
                    (m.prg_bank & 0x0F) as int
                } else {
                    0
                }
            } else {
                if a >= 0xC000 {
                    last
                } else {
                    (m.prg_bank & 0x0F) as int
                }
            };
            &&& a >= 0x8000 ==> m.cpu_read(a) == m.prg[(bank * 0x4000 + a as int % 0x4000) % n]
            &&& 0x6000 <= a <= 0x7FFF ==> m.cpu_read(a) == m.prg_ram[a - 0x6000]
        }),
{
    let ctl = m.control;
    assert((((ctl >> 2u8) & 3 == 0 || (ctl >> 2u8) & 3 == 1) == (ctl & 0x08 == 0)) && ((ctl >> 2u8)
        & 3 == 2) == (ctl & 0x08 != 0 && ctl & 0x04 == 0)) by (bit_vector);
}

/// A loaded cartridge's pattern memory is writable exactly when the
/// header declares no CHR banks, whatever the mapper: then a PPU write to
/// 0x0000..=0x1FFF is read back; with CHR banks in the image such a write
/// changes nothing.
pub proof fn lemma_loaded_chr_ram(b: Seq<u8>, a: u16, d: u8)
    requires
        ines_loads(b),
        a < 0x2000,
    ensures
        ({
            let c = CartState { board: Some(loaded_board(b)), mirroring: header_mirroring(b) };
            &&& b[5] == 0 ==> c.ppu_write(a, d).ppu_read(a) == d
            &&& b[5] != 0 ==> c.ppu_write(a, d) == c
        }),
{
}

/// At power-on an MMC1 board is in PRG mode 3: the last 16 KiB bank is
/// fixed at 0xC000..=0xFFFF and bank 0 is at 0x8000..=0xBFFF.
pub proof fn lemma_mmc1_power_on_banks(m: Mmc1State, i: u16)
    requires
        m.control == 0x0C,
        m.prg_bank == 0,
        m.prg.len() >= 0x4000,
        m.prg.len() % 0x4000 == 0,
        i < 0x4000,
    ensures
        m.cpu_read((0xC000 + i) as u16) == m.prg[m.prg.len() - 0x4000 + i],
        m.cpu_read((0x8000 + i) as u16) == m.prg[i as int],
{
    assert((0x0Cu8 >> 2u8) & 3 == 3 && 0u8 & 0x0F == 0) by (bit_vector);
    let last = m.prg.len() / 0x4000 - 1;
    assert(last * 0x4000 == m.prg.len() - 0x4000) by (nonlinear_arith)
        requires
            last == m.prg.len() / 0x4000 - 1,
            m.prg.len() % 0x4000 == 0,
            m.prg.len() >= 0x4000,
    ;
    let hiaddr = (0xC000 + i) as u16;
    let loaddr = (0x8000 + i) as u16;
    assert(hiaddr as int % 0x4000 == i as int && loaddr as int % 0x4000 == i as int);
    assert(m.prg_bank_for(hiaddr) == last);
    assert(m.prg_bank_for(loaddr) == 0);
    let len = m.prg.len() as int;
    assert((last * 0x4000 + i as int) % len == last * 0x4000 + i as int) by (nonlinear_arith)
        requires
            last * 0x4000 == len - 0x4000,
            0 <= i < 0x4000,
            len >= 0x4000,
    ;
    assert((0 * 0x4000 + i as int) % len == i as int) by (nonlinear_arith)
        requires
            0 <= i < 0x4000,
            len >= 0x4000,
    ;
}

} // verus!
