use vstd::prelude::*;
use crate::bits::lemma_word16;

verus! {

/// Size of the console's internal work RAM; the CPU sees it mirrored four
/// times across 0x0000..=0x1FFF.
pub const RAM_SIZE: usize = 2048;

/// Whether `address` falls in the CPU's internal RAM window.
pub open spec fn in_ram_window(address: u16) -> bool {
    address <= 0x1FFF
}

/// The physical RAM cell that a CPU address in the RAM window selects.
pub open spec fn ram_cell(address: u16) -> int {
    address as int % 2048
}

/// What a read of `address` returns from RAM contents `mem`.
pub open spec fn ram_read(mem: Seq<u8>, address: u16) -> u8 {
    if in_ram_window(address) {
        mem[ram_cell(address)]
    } else {
        0
    }
}

/// RAM contents `mem` after a write of `data` to `address`.
pub open spec fn ram_write(mem: Seq<u8>, address: u16, data: u8) -> Seq<u8> {
    if in_ram_window(address) {
        mem.update(ram_cell(address), data)
    } else {
        mem
    }
}

/// The 2 KiB of internal CPU RAM.
pub struct Memory {
    ram: [u8; 2048],
}

impl View for Memory {
    type V = Seq<u8>;

    closed spec fn view(&self) -> Seq<u8> {
        self.ram@
    }
}

impl Memory {
    /// RAM always has its 2048 cells.
    pub proof fn lemma_len(&self)
        ensures
            self@.len() == RAM_SIZE,
    {
    }

    pub fn new() -> (m: Self)
        ensures
            m@ == Seq::new(2048, |i: int| 0u8),
    {
        let m = Self { ram: [0u8; 2048] };
        assert(m@ =~= Seq::new(2048, |i: int| 0u8));
        m
    }

    /// Reads RAM through its mirrors; addresses past 0x1FFF read 0.
    pub fn read(&self, address: u16) -> (r: u8)
        ensures
            r == ram_read(self@, address),
    {
        if address <= 0x1FFF {
            let physical_index = address & 0x07FF;
            proof {
                lemma_word16(address);
            }
            self.ram[physical_index as usize]
        } else {
            0
        }
    }

    /// Writes RAM through its mirrors; addresses past 0x1FFF are ignored.
    pub fn write(&mut self, address: u16, data: u8)
        ensures
            final(self)@ == ram_write(old(self)@, address, data),
    {
        if address <= 0x1FFF {
            let physical_index = address & 0x07FF;
            proof {
                lemma_word16(address);
            }
            self.ram[physical_index as usize] = data;
        }
    }
}

/// RAM is mirrored: addresses that differ by a multiple of 0x800 inside
/// 0x0000..=0x1FFF read the same cell.
pub proof fn lemma_ram_mirrors(mem: Seq<u8>, a: u16, k: u16)
    requires
        a as int + 0x800 * k as int <= 0x1FFF,
    ensures
        ram_read(mem, a) == ram_read(mem, (a + 0x800 * k) as u16),
{
    assert((a as int + 0x800 * k as int) % 2048 == a as int % 2048) by (nonlinear_arith);
}

/// A RAM write is read back at the same address and at every mirror of it,
/// and leaves every other cell as it was.
pub proof fn lemma_ram_write_read(mem: Seq<u8>, a: u16, b: u16, data: u8)
    requires
        mem.len() == RAM_SIZE,
        in_ram_window(a),
    ensures
        ram_read(ram_write(mem, a, data), b) == if in_ram_window(b) && ram_cell(b) == ram_cell(a) {
            data
        } else {
            ram_read(mem, b)
        },
{
}

} // verus!
