use vstd::prelude::*;

verus! {

/// The 6502 register file: accumulator, index registers, program counter,
/// stack pointer and the processor status flags.
pub struct Registers {
    pub a: u8,
    pub x: u8,
    pub y: u8,
    pub pc: u16,
    pub sp: u8,
    pub negative: bool,
    pub overflow: bool,
    pub breakins: bool,
    pub decimal: bool,
    pub interrupt_disable: bool,
    pub zero: bool,
    pub carry: bool,
}

/// 1 for a set flag, 0 for a clear one.
pub open spec fn bit(f: bool) -> u8 {
    if f {
        1
    } else {
        0
    }
}

impl Registers {
    /// The processor status byte: N V 1 B D I Z C from bit 7 down to bit 0
    /// (bit 5 always reads 1).
    pub open spec fn status(self) -> u8 {
        (bit(self.negative) * 128 + bit(self.overflow) * 64 + 32 + bit(self.breakins) * 16 + bit(
            self.decimal,
        ) * 8 + bit(self.interrupt_disable) * 4 + bit(self.zero) * 2 + bit(self.carry)) as u8
    }

    /// The flags as a status byte pulled from the stack sets them: every
    /// flag but B (and the unused bit 5) is taken from `value`.
    pub open spec fn with_status(self, value: u8) -> Self {
        Registers {
            negative: value & 0x80 != 0,
            overflow: value & 0x40 != 0,
            decimal: value & 0x08 != 0,
            interrupt_disable: value & 0x04 != 0,
            zero: value & 0x02 != 0,
            carry: value & 0x01 != 0,
            ..self
        }
    }

    /// Z and N as a result `v` sets them.
    pub open spec fn with_zn(self, v: u8) -> Self {
        Registers { zero: v == 0, negative: v >= 128, ..self }
    }

    pub open spec fn power_on() -> Self {
        Registers {
            a: 0,
            x: 0,
            y: 0,
            pc: 0,
            sp: 0,
            negative: false,
            overflow: false,
            breakins: false,
            decimal: false,
            interrupt_disable: false,
            zero: false,
            carry: false,
        }
    }

    pub fn new() -> (r: Registers)
        ensures
            r == Self::power_on(),
    {
        Registers {
            a: 0,
            x: 0,
            y: 0,
            pc: 0,
            sp: 0,
            negative: false,
            overflow: false,
            breakins: false,
            decimal: false,
            interrupt_disable: false,
            zero: false,
            carry: false,
        }
    }

    pub fn get_a(&self) -> (r: u8)
        ensures
            r == self.a,
    {
        self.a
    }

    pub fn set_a(&mut self, val: u8)
        ensures
            *final(self) == (Registers { a: val, ..*old(self) }),
    {
        self.a = val;
    }

    pub fn get_x(&self) -> (r: u8)
        ensures
            r == self.x,
    {
        self.x
    }

    pub fn set_x(&mut self, val: u8)
        ensures
            *final(self) == (Registers { x: val, ..*old(self) }),
    {
        self.x = val;
    }

    pub fn get_y(&self) -> (r: u8)
        ensures
            r == self.y,
    {
        self.y
    }

    pub fn set_y(&mut self, val: u8)
        ensures
            *final(self) == (Registers { y: val, ..*old(self) }),
    {
        self.y = val;
    }

    pub fn get_pc(&self) -> (r: u16)
        ensures
            r == self.pc,
    {
        self.pc
    }

    pub fn set_pc(&mut self, val: u16)
        ensures
            *final(self) == (Registers { pc: val, ..*old(self) }),
    {
        self.pc = val;
    }

    pub fn get_sp(&self) -> (r: u8)
        ensures
            r == self.sp,
    {
        self.sp
    }

    pub fn set_sp(&mut self, val: u8)
        ensures
            *final(self) == (Registers { sp: val, ..*old(self) }),
    {
        self.sp = val;
    }

    /// The processor status byte (see [`Registers::status`]).
    pub fn get_status(&self) -> (r: u8)
        ensures
            r == self.status(),
    {
        let n = self.negative;
        let v = self.overflow;
        let b = self.breakins;
        let d = self.decimal;
        let i = self.interrupt_disable;
        let z = self.zero;
        let c = self.carry;
        let mut ret: u8 = 0;
        ret = ret | if n { 0x80 } else { 0 };
        ret = ret | if v { 0x40 } else { 0 };
        ret = ret | 0x20;
        ret = ret | if b { 0x10 } else { 0 };
        ret = ret | if d { 0x08 } else { 0 };
        ret = ret | if i { 0x04 } else { 0 };
        ret = ret | if z { 0x02 } else { 0 };
        ret = ret | if c { 0x01 } else { 0 };
        assert(ret == bit(n) * 128 + bit(v) * 64 + 32 + bit(b) * 16 + bit(d) * 8 + bit(i) * 4 + bit(
            z,
        ) * 2 + bit(c)) by (bit_vector)
            requires
                ret == ((((((((0u8 | (if n { 0x80u8 } else { 0u8 })) | (if v { 0x40u8 } else { 0u8 }))
                    | 0x20u8) | (if b { 0x10u8 } else { 0u8 })) | (if d { 0x08u8 } else { 0u8 })) | (
                if i {
                    0x04u8
                } else {
                    0u8
                })) | (if z { 0x02u8 } else { 0u8 })) | (if c { 0x01u8 } else { 0u8 })),
                bit(n) == (if n { 1u8 } else { 0u8 }),
                bit(v) == (if v { 1u8 } else { 0u8 }),
                bit(b) == (if b { 1u8 } else { 0u8 }),
                bit(d) == (if d { 1u8 } else { 0u8 }),
                bit(i) == (if i { 1u8 } else { 0u8 }),
                bit(z) == (if z { 1u8 } else { 0u8 }),
                bit(c) == (if c { 1u8 } else { 0u8 }),
        ;
        ret
    }
}

} // verus!
