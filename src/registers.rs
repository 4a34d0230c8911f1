use vstd::prelude::*;

verus! {

/// Zero flag: bit 7 of F.
pub const ZERO: u8 = 0x80;
/// Subtract flag: bit 6 of F.
pub const SUBTRACT: u8 = 0x40;
/// Half-carry flag: bit 5 of F.
pub const HALF_CARRY: u8 = 0x20;
/// Carry flag: bit 4 of F.
pub const CARRY: u8 = 0x10;

/// Register names, 8-bit and 16-bit.
#[derive(Debug, Clone, Copy, PartialEq, Eq, Structural)]
pub enum Register {
    A,
    B,
    C,
    D,
    E,
    H,
    L,
    F,
    AF,
    BC,
    DE,
    HL,
    SP,
    PC,
}

impl Register {
    pub open spec fn is_8bit(self) -> bool {
        match self {
            Register::A | Register::B | Register::C | Register::D | Register::E | Register::H
            | Register::L | Register::F => true,
            _ => false,
        }
    }

    pub open spec fn is_16bit(self) -> bool {
        !self.is_8bit()
    }
}

/// The SM83 register file. The low nibble of F is always zero.
#[derive(Debug, Clone, Copy, PartialEq, Eq, Structural)]
pub struct Registers {
    pub a: u8,
    pub f: u8,
    pub b: u8,
    pub c: u8,
    pub d: u8,
    pub e: u8,
    pub h: u8,
    pub l: u8,
    pub sp: u16,
    pub pc: u16,
}

pub open spec fn pair(hi: u8, lo: u8) -> u16 {
    (hi as int * 256 + lo as int) as u16
}

impl Registers {
    pub open spec fn wf(self) -> bool {
        self.f & 0x0f == 0
    }

    pub open spec fn get8(self, r: Register) -> u8 {
        match r {
            Register::A => self.a,
            Register::F => self.f,
            Register::B => self.b,
            Register::C => self.c,
            Register::D => self.d,
            Register::E => self.e,
            Register::H => self.h,
            _ => self.l,
        }
    }

    pub open spec fn set8(self, r: Register, v: u8) -> Registers {
        match r {
            Register::A => Registers { a: v, ..self },
            Register::F => Registers { f: v & 0xf0, ..self },
            Register::B => Registers { b: v, ..self },
            Register::C => Registers { c: v, ..self },
            Register::D => Registers { d: v, ..self },
            Register::E => Registers { e: v, ..self },
            Register::H => Registers { h: v, ..self },
            _ => Registers { l: v, ..self },
        }
    }

    pub open spec fn get16(self, r: Register) -> u16 {
        match r {
            Register::AF => pair(self.a, self.f),
            Register::BC => pair(self.b, self.c),
            Register::DE => pair(self.d, self.e),
            Register::HL => pair(self.h, self.l),
            Register::SP => self.sp,
            _ => self.pc,
        }
    }

    pub open spec fn set16(self, r: Register, v: u16) -> Registers {
        let hi = (v / 256) as u8;
        let lo = (v % 256) as u8;
        match r {
            Register::AF => Registers { a: hi, f: lo & 0xf0, ..self },
            Register::BC => Registers { b: hi, c: lo, ..self },
            Register::DE => Registers { d: hi, e: lo, ..self },
            Register::HL => Registers { h: hi, l: lo, ..self },
            Register::SP => Registers { sp: v, ..self },
            _ => Registers { pc: v, ..self },
        }
    }

    pub open spec fn flag(self, mask: u8) -> bool {
        self.f & mask != 0
    }

    pub open spec fn new_spec() -> Registers {
        Registers { a: 0, f: 0, b: 0, c: 0, d: 0, e: 0, h: 0, l: 0, sp: 0, pc: 0 }
    }

    pub fn new() -> (r: Registers)
        ensures
            r.wf(),
            r == Registers::new_spec(),
    {
        let r = Registers { a: 0, f: 0, b: 0, c: 0, d: 0, e: 0, h: 0, l: 0, sp: 0, pc: 0 };
        assert(0u8 & 0x0f == 0) by (bit_vector);
        r
    }

    pub fn read(&self, r: Register) -> (v: u8)
        requires
            r.is_8bit(),
        ensures
            v == self.get8(r),
    {
        match r {
            Register::A => self.a,
            Register::F => self.f,
            Register::B => self.b,
            Register::C => self.c,
            Register::D => self.d,
            Register::E => self.e,
            Register::H => self.h,
            _ => self.l,
        }
    }

    pub fn write(&mut self, r: Register, v: u8)
        requires
            r.is_8bit(),
            old(self).wf(),
        ensures
            *final(self) == old(self).set8(r, v),
            final(self).wf(),
    {
        match r {
            Register::A => self.a = v,
            Register::F => {
                self.f = v & 0xf0;
                assert((v & 0xf0) & 0x0f == 0) by (bit_vector);
            },
            Register::B => self.b = v,
            Register::C => self.c = v,
            Register::D => self.d = v,
            Register::E => self.e = v,
            Register::H => self.h = v,
            _ => self.l = v,
        }
    }

    pub fn read16(&self, r: Register) -> (v: u16)
        requires
            r.is_16bit(),
        ensures
            v == self.get16(r),
    {
        match r {
            Register::AF => self.a as u16 * 256 + self.f as u16,
            Register::BC => self.b as u16 * 256 + self.c as u16,
            Register::DE => self.d as u16 * 256 + self.e as u16,
            Register::HL => self.h as u16 * 256 + self.l as u16,
            Register::SP => self.sp,
            _ => self.pc,
        }
    }

    pub fn write16(&mut self, r: Register, v: u16)
        requires
            r.is_16bit(),
            old(self).wf(),
        ensures
            *final(self) == old(self).set16(r, v),
            final(self).wf(),
    {
        let hi = (v / 256) as u8;
        let lo = (v % 256) as u8;
        match r {
            Register::AF => {
                self.a = hi;
                self.f = lo & 0xf0;
                assert((lo & 0xf0) & 0x0f == 0) by (bit_vector);
            },
            Register::BC => {
                self.b = hi;
                self.c = lo;
            },
            Register::DE => {
                self.d = hi;
                self.e = lo;
            },
            Register::HL => {
                self.h = hi;
                self.l = lo;
            },
            Register::SP => self.sp = v,
            _ => self.pc = v,
        }
    }

    /// Sets or clears the flag bits in `mask`.
    pub fn update_flag(&mut self, mask: u8, value: bool)
        requires
            old(self).wf(),
            mask == ZERO || mask == SUBTRACT || mask == HALF_CARRY || mask == CARRY,
        ensures
            final(self).wf(),
            *final(self) == (Registers { f: final(self).f, ..*old(self) }),
            final(self).flag(mask) == value,
            forall|m: u8| (m == ZERO || m == SUBTRACT || m == HALF_CARRY || m == CARRY) && m != mask
                ==> final(self).flag(m) == old(self).flag(m),
    {
        let f = self.f;
        if value {
            self.f = f | mask;
        } else {
            self.f = f & !mask;
        }
        let nf = self.f;
        assert(nf & 0x0f == 0) by (bit_vector)
            requires
                f & 0x0f == 0,
                mask == 0x80u8 || mask == 0x40u8 || mask == 0x20u8 || mask == 0x10u8,
                nf == (if value { f | mask } else { f & !mask }),
        ;
        assert((nf & mask != 0) == value) by (bit_vector)
            requires
                mask == 0x80u8 || mask == 0x40u8 || mask == 0x20u8 || mask == 0x10u8,
                nf == (if value { f | mask } else { f & !mask }),
        ;
        assert forall|m: u8| (m == ZERO || m == SUBTRACT || m == HALF_CARRY || m == CARRY) && m != mask
            implies (nf & m != 0) == (f & m != 0) by {
            assert((nf & m != 0) == (f & m != 0)) by (bit_vector)
                requires
                    mask == 0x80u8 || mask == 0x40u8 || mask == 0x20u8 || mask == 0x10u8,
                    m == 0x80u8 || m == 0x40u8 || m == 0x20u8 || m == 0x10u8,
                    m != mask,
                    nf == (if value { f | mask } else { f & !mask }),
            ;
        }
    }
}

/// Writing any byte to F and reading it back yields that byte with its low nibble cleared.
pub proof fn lemma_flags_truncate(regs: Registers, v: u8)
    requires
        regs.wf(),
    ensures
        regs.set8(Register::F, v).get8(Register::F) == v & 0xf0,
        regs.set8(Register::F, v).wf(),
        regs.set16(Register::AF, pair(regs.a, v)).get8(Register::F) == v & 0xf0,
{
    assert((v & 0xf0) & 0x0f == 0) by (bit_vector);
    let w = pair(regs.a, v);
    assert(w % 256 == v as int);
}

} // verus!
