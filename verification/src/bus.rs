use vstd::prelude::*;
use crate::bits::lemma_byte;
use crate::cartridge::{CartState, Cartridge, Mirroring, ines_loads, loaded_board, header_mirroring};
use crate::input::Controller;
use crate::memory::{Memory, ram_read, ram_write};
use crate::ppu::{PpuState, PPU};

verus! {

/// Size of the cartridge-space work RAM window at 0x6000..=0x7FFF.
pub const WRAM_SIZE: usize = 0x2000;

/// The abstract state of everything on the CPU bus.
pub ghost struct BusState {
    pub ram: Seq<u8>,
    pub cart: CartState,
    pub input: Controller,
    pub wram: Seq<u8>,
    pub ppu: PpuState,
    pub nmi: bool,
    /// The bytes written to 0x6004, the text port of test programs, not
    /// yet taken by the front end.
    pub test_output: Seq<u8>,
    /// Whether the CPU has made an access that the bus does not define
    /// (see [`BusState::read_ok`] and [`BusState::write_ok`]).
    pub faulted: bool,
}

impl BusState {
    pub open spec fn inv(self) -> bool {
        &&& self.ram.len() == 2048
        &&& self.wram.len() == WRAM_SIZE
        &&& self.cart.inv()
        &&& self.ppu.inv()
    }

    /// The invariant, the cartridge's pattern memory (if a cartridge is in
    /// the slot) can be read, and no undefined access has happened: the
    /// state of a bus that is running.
    pub open spec fn wf(self) -> bool {
        self.inv() && self.cart.chr_ready() && !self.faulted
    }

    /// A CPU read of `address` is defined.
    pub open spec fn read_ok(self, address: u16) -> bool {
        &&& (0x2000 <= address <= 0x3FFF ==> self.cart.chr_ready())
        &&& (address >= 0x8000 ==> (self.cart.board matches Some(b) && b.cpu_read_ok(address)))
    }

    /// Every read of the 256-byte page `page` is defined.
    pub open spec fn page_read_ok(self, page: u8) -> bool {
        forall|i: int| 0 <= i < 256 ==> #[trigger] self.read_ok((page as int * 256 + i) as u16)
    }

    /// A CPU write of `address` (with `data`) is defined.
    pub open spec fn write_ok(self, address: u16, data: u8) -> bool {
        &&& (0x2000 <= address <= 0x3FFF ==> self.cart.chr_ready())
        &&& (address == 0x4014 ==> self.page_read_ok(data))
        &&& (address >= 0x8000 ==> self.cart.board is Some)
    }

    /// What a CPU read returns and what it leaves behind: RAM (mirrored),
    /// the PPU registers (mirrored every 8 bytes), the controller port at
    /// 0x4016, work RAM at 0x6000..=0x7FFF and cartridge space from 0x8000;
    /// everything else reads 0.
    #[verifier::opaque]
    pub open spec fn read(self, address: u16) -> (u8, Self) {
        if address <= 0x1FFF {
            (ram_read(self.ram, address), self)
        } else if address <= 0x3FFF {
            let (v, p) = self.ppu.cpu_read(self.cart, address);
            (v, BusState { ppu: p, ..self })
        } else if address == 0x4016 {
            let (v, c) = self.input.read_result();
            (v, BusState { input: c, ..self })
        } else if 0x6000 <= address <= 0x7FFF {
            (self.wram[address - 0x6000], self)
        } else if address >= 0x8000 {
            (self.cart.cpu_read(address), self)
        } else {
            (0, self)
        }
    }

    /// The bus after the `i`-th and later bytes of an OAM DMA from page
    /// `page`: each byte is read over the bus and stored through OAM.
    pub open spec fn dma(self, page: u8, i: nat) -> Self
        decreases 256 - i,
    {
        if i >= 256 {
            self
        } else {
            let (b, s1) = self.read((page as int * 256 + i) as u16);
            BusState { ppu: s1.ppu.oam_write(b), ..s1 }.dma(page, i + 1)
        }
    }

    /// The bus after a CPU write: RAM, the PPU registers, OAM DMA at
    /// 0x4014, the controller strobe at 0x4016, work RAM and cartridge
    /// space; writes elsewhere are ignored.
    #[verifier::opaque]
    pub open spec fn write(self, address: u16, data: u8) -> Self {
        if address <= 0x1FFF {
            BusState { ram: ram_write(self.ram, address, data), ..self }
        } else if address <= 0x3FFF {
            let (p, c) = self.ppu.cpu_write(self.cart, address, data);
            BusState { ppu: p, cart: c, ..self }
        } else if address == 0x4014 {
            self.dma(data, 0)
        } else if address == 0x4016 {
            BusState { input: self.input.strobe_result(data), ..self }
        } else if 0x6000 <= address <= 0x7FFF {
            let s1 = BusState { wram: self.wram.update(address - 0x6000, data), ..self };
            if address == 0x6004 {
                BusState { test_output: s1.test_output.push(data), ..s1 }
            } else {
                s1
            }
        } else if address >= 0x8000 {
            BusState { cart: self.cart.cpu_write(address, data), ..self }
        } else {
            self
        }
    }

    /// One PPU dot, with a raised NMI request latched onto the bus.
    pub open spec fn ppu_dot(self) -> Self {
        let p = self.ppu.stepped(self.cart);
        if p.request_nmi {
            BusState { ppu: PpuState { request_nmi: false, ..p }, nmi: true, ..self }
        } else {
            BusState { ppu: p, ..self }
        }
    }

    /// The bus after `n` PPU dots.
    pub open spec fn ppu_dots(self, n: nat) -> Self
        decreases n,
    {
        if n == 0 {
            self
        } else {
            self.ppu_dots((n - 1) as nat).ppu_dot()
        }
    }
}

/// The CPU bus: internal RAM, the cartridge, the controller port, work
/// RAM, the PPU and the NMI line.
pub struct Bus {
    ram: Memory,
    cartridge: Cartridge,
    pub input: Controller,
    wram: [u8; 0x2000],
    pub ppu: PPU,
    pub nmi: bool,
    pub test_output: Vec<u8>,
}

impl View for Bus {
    type V = BusState;

    closed spec fn view(&self) -> BusState {
        BusState {
            ram: self.ram@,
            cart: self.cartridge@,
            input: self.input,
            wram: self.wram@,
            ppu: self.ppu@,
            nmi: self.nmi,
            test_output: self.test_output@,
            faulted: false,
        }
    }
}

/// Running the PPU for `n` dots changes nothing on the bus but the PPU
/// and the NMI line: a pending NMI stays pending, and every request the
/// PPU raises is moved onto the line, so none is left in the PPU.
pub proof fn lemma_ppu_dots(s: BusState, n: nat)
    ensures
        s.ppu_dots(n) == (BusState { ppu: s.ppu_dots(n).ppu, nmi: s.ppu_dots(n).nmi, ..s }),
        s.nmi ==> s.ppu_dots(n).nmi,
        n > 0 ==> !s.ppu_dots(n).ppu.request_nmi,
    decreases n,
{
    if n > 0 {
        lemma_ppu_dots(s, (n - 1) as nat);
    }
}

/// A read of the RAM window reads RAM and changes nothing.
pub proof fn lemma_ram_read(s: BusState, a: u16)
    requires
        a <= 0x1FFF,
    ensures
        s.read(a) == (ram_read(s.ram, a), s),
{
    reveal(BusState::read);
}

/// A write to the RAM window writes RAM and nothing else.
pub proof fn lemma_ram_write(s: BusState, a: u16, data: u8)
    requires
        a <= 0x1FFF,
    ensures
        s.write(a, data) == (BusState { ram: ram_write(s.ram, a, data), ..s }),
{
    reveal(BusState::write);
}

/// Reads never change RAM or work RAM.
pub proof fn lemma_read_keeps_memory(s: BusState, address: u16)
    ensures
        s.read(address).1.ram == s.ram,
        s.read(address).1.wram == s.wram,
        s.read(address).1.cart == s.cart,
{
    reveal(BusState::read);
}

/// RAM through the bus: a read gives back what the last write to the same
/// cell (through any mirror) stored, and a write leaves every other cell
/// of RAM, and work RAM, as it was.
pub proof fn lemma_ram_write_read(s: BusState, a: u16, b: u16, data: u8)
    requires
        s.ram.len() == 2048,
        a <= 0x1FFF,
        b <= 0x1FFF,
    ensures
        s.write(a, data).read(b).0 == if a as int % 2048 == b as int % 2048 {
            data
        } else {
            s.read(b).0
        },
        s.write(a, data).wram == s.wram,
        s.write(a, data).ram.len() == 2048,
        s.inv() ==> s.write(a, data).inv(),
{
    reveal(BusState::read);
    reveal(BusState::write);
}

/// Work RAM at 0x6000..=0x7FFF through the bus: a read gives back what
/// the last write to the same address stored.
pub proof fn lemma_wram_write_read(s: BusState, a: u16, b: u16, data: u8)
    requires
        s.inv(),
        0x6000 <= a <= 0x7FFF,
        0x6000 <= b <= 0x7FFF,
    ensures
        s.write(a, data).read(b).0 == if a == b {
            data
        } else {
            s.read(b).0
        },
{
    reveal(BusState::read);
    reveal(BusState::write);
}


impl Bus {
    /// The power-on state: zeroed memories, a power-on PPU, an idle
    /// controller, no NMI and an empty cartridge slot.
    pub open spec fn new_state() -> BusState {
        BusState {
            ram: Seq::new(2048, |i: int| 0u8),
            cart: CartState { board: None, mirroring: Mirroring::Horizontal },
            input: Controller {
                a: false,
                b: false,
                select: false,
                start: false,
                up: false,
                down: false,
                left: false,
                right: false,
                strobe: false,
                shift: 0,
            },
            wram: Seq::new(0x2000, |i: int| 0u8),
            ppu: PPU::new_state(),
            nmi: false,
            test_output: Seq::empty(),
            faulted: false,
        }
    }

    /// An idle bus (see [`Bus::new_state`]).
    pub fn new() -> (b: Self)
        ensures
            b@ == Self::new_state(),
            b@.inv(),
    {
        let b = Self {
            ram: Memory::new(),
            cartridge: Cartridge::new(),
            input: Controller::new(),
            wram: [0u8; 0x2000],
            ppu: PPU::new(),
            nmi: false,
            test_output: Vec::new(),
        };
        assert(b.wram@ =~= Seq::new(0x2000, |i: int| 0u8));
        assert(b@.input == Self::new_state().input);
        b
    }

    /// Runs the PPU for three dots per CPU cycle, latching its NMI
    /// requests onto the bus.
    pub fn step_ppu(&mut self, cycles: u32)
        requires
            old(self)@.inv(),
            old(self)@.cart.chr_ready(),
            cycles as int * 3 <= u32::MAX,
        ensures
            final(self)@ == old(self)@.ppu_dots((cycles * 3) as nat),
            final(self)@.inv(),
            !final(self)@.faulted,
            final(self)@.cart == old(self)@.cart,
    {
        let n = cycles * 3;
        let mut i: u32 = 0;
        while i < n
            invariant
                i <= n,
                old(self)@.inv(),
                old(self)@.cart.chr_ready(),
                self@ == old(self)@.ppu_dots(i as nat),
                self@.inv(),
                self@.cart == old(self)@.cart,
            decreases n - i,
        {
            self.ppu.step(&self.cartridge);
            if self.ppu.nmi_requested() {
                self.nmi = true;
                self.ppu.clear_nmi_request();
            }
            i += 1;
        }
    }

    /// Takes the pending NMI, if any: reports it and clears it.
    pub fn poll_nmi(&mut self) -> (r: bool)
        ensures
            r == old(self)@.nmi,
            final(self)@ == (BusState { nmi: false, ..old(self)@ }),
    {
        if self.nmi {
            self.nmi = false;
            true
        } else {
            false
        }
    }

    /// A CPU read (see [`BusState::read`]).
    pub fn read(&mut self, address: u16) -> (r: u8)
        requires
            old(self)@.inv(),
            old(self)@.read_ok(address),
        ensures
            (r, final(self)@) == old(self)@.read(address),
            final(self)@.inv(),
            !final(self)@.faulted,
            final(self)@.cart == old(self)@.cart,
    {
        reveal(BusState::read);
        if address <= 0x1FFF {
            self.ram.read(address)
        } else if address <= 0x3FFF {
            self.ppu.cpu_read(&self.cartridge, address)
        } else if address == 0x4016 {
            self.input.get_input()
        } else if 0x6000 <= address && address <= 0x7FFF {
            self.wram[(address - 0x6000) as usize]
        } else if address >= 0x8000 {
            self.cartridge.cpu_read(address)
        } else {
            0
        }
    }

    /// A CPU write (see [`BusState::write`]).
    pub fn write(&mut self, address: u16, data: u8)
        requires
            old(self)@.inv(),
            old(self)@.write_ok(address, data),
        ensures
            final(self)@ == old(self)@.write(address, data),
            final(self)@.inv(),
            !final(self)@.faulted,
            final(self)@.cart.prg_ready() == old(self)@.cart.prg_ready(),
            final(self)@.cart.chr_ready() == old(self)@.cart.chr_ready(),
    {
        reveal(BusState::write);
        if address <= 0x1FFF {
            self.ram.write(address, data);
        } else if address <= 0x3FFF {
            self.ppu.cpu_write(&mut self.cartridge, address, data);
        } else if address == 0x4014 {
            self.oam_dma(data);
        } else if address == 0x4016 {
            self.input.write_strobe(data);
        } else if 0x6000 <= address && address <= 0x7FFF {
            let offset = (address - 0x6000) as usize;
            self.wram[offset] = data;
            if address == 0x6004 {
                self.test_output.push(data);
            }
        } else if address >= 0x8000 {
            self.cartridge.cpu_write(address, data);
        }
    }

    /// OAM DMA: copies the 256 bytes of page `page` into OAM, starting at
    /// the current OAM address.
    fn oam_dma(&mut self, page: u8)
        requires
            old(self)@.inv(),
            old(self)@.page_read_ok(page),
        ensures
            final(self)@ == old(self)@.dma(page, 0),
            final(self)@.inv(),
            final(self)@.cart == old(self)@.cart,
    {
        let start = (page as u16) << 8;
        assert(start == page as u16 * 256) by (bit_vector)
            requires
                start == (page as u16) << 8u16,
        ;
        let mut i: u16 = 0;
        while i < 256
            invariant
                i <= 256,
                start == page as int * 256,
                old(self)@.inv(),
                old(self)@.page_read_ok(page),
                self@.inv(),
                self@.cart == old(self)@.cart,
                old(self)@.dma(page, 0) == self@.dma(page, i as nat),
            decreases 256 - i,
        {
            assert(old(self)@.read_ok((page as int * 256 + i as int) as u16));
            let byte = self.read(start + i);
            self.ppu.oam_dma_write(byte);
            i += 1;
        }
    }

    /// Puts the cartridge in an iNES image into the slot.
    pub fn load_rom(&mut self, rom_data: &[u8])
        requires
            old(self)@.inv(),
            ines_loads(rom_data@),
        ensures
            final(self)@ == (BusState {
                cart: CartState {
                    board: Some(loaded_board(rom_data@)),
                    mirroring: header_mirroring(rom_data@),
                },
                ..old(self)@
            }),
            final(self)@.inv(),
    {
        proof {
            lemma_byte(0);
        }
        match Cartridge::load(rom_data) {
            Ok(c) => {
                self.cartridge = c;
            },
            Err(_) => {},
        }
    }
}

} // verus!
