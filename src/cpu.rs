//! The LR35902 interpreter state and its step function.
use vstd::prelude::*;
use crate::isa::{
    advance, af_of, after_pop, bc_of, de_of, hl_of, imm16, imm8, pop_value, push_spec, r8_spec,
    set_r8_spec, step_spec, with_af, with_bc, with_de, with_flags, with_hl,
};
use crate::mmu::Mmu;
use crate::registers::{c_of, h_of, lemma_flag_byte, n_of, pair, z_of};

verus! {

/// CPU registers, IME and HALT. `illegal` records the address and byte of
/// the last undefined opcode met; such an opcode is otherwise a NOP.
pub struct Cpu {
    pub a: u8,
    pub f: u8,
    pub b: u8,
    pub c: u8,
    pub d: u8,
    pub e: u8,
    pub h: u8,
    pub l: u8,
    pub sp: u16,
    pub pc: u16,
    pub ime: bool,
    pub halted: bool,
    pub illegal: Option<(u16, u8)>,
}

impl Cpu {
    /// The low nibble of F is clear.
    pub open spec fn wf(&self) -> bool {
        self.f & 0x0F == 0
    }

    /// The CPU as the boot ROM leaves it.
    pub fn new() -> (r: Self)
        ensures
            r.wf(),
            r.a == 0x01 && r.f == 0xB0,
            r.b == 0x00 && r.c == 0x13,
            r.d == 0x00 && r.e == 0xD8,
            r.h == 0x01 && r.l == 0x4D,
            r.sp == 0xFFFE && r.pc == 0x0100,
            !r.ime && !r.halted,
            r.illegal.is_none(),
    {
        let r = Cpu {
            a: 0x01,
            f: 0xB0,
            b: 0x00,
            c: 0x13,
            d: 0x00,
            e: 0xD8,
            h: 0x01,
            l: 0x4D,
            sp: 0xFFFE,
            pc: 0x0100,
            ime: false,
            halted: false,
            illegal: None,
        };
        assert(0xB0u8 & 0x0F == 0) by (bit_vector);
        r
    }

    pub fn bc(&self) -> (r: u16)
        ensures
            r == bc_of(*self),
    {
        (self.b as u16) * 256 + self.c as u16
    }

    pub fn de(&self) -> (r: u16)
        ensures
            r == de_of(*self),
    {
        (self.d as u16) * 256 + self.e as u16
    }

    pub fn hl(&self) -> (r: u16)
        ensures
            r == hl_of(*self),
    {
        (self.h as u16) * 256 + self.l as u16
    }

    pub fn af(&self) -> (r: u16)
        ensures
            r == af_of(*self),
    {
        (self.a as u16) * 256 + self.f as u16
    }

    pub fn set_bc(&mut self, v: u16)
        ensures
            *final(self) == with_bc(*old(self), v),
            bc_of(*final(self)) == v,
    {
        self.b = (v / 256) as u8;
        self.c = (v % 256) as u8;
    }

    pub fn set_de(&mut self, v: u16)
        ensures
            *final(self) == with_de(*old(self), v),
            de_of(*final(self)) == v,
    {
        self.d = (v / 256) as u8;
        self.e = (v % 256) as u8;
    }

    pub fn set_hl(&mut self, v: u16)
        ensures
            *final(self) == with_hl(*old(self), v),
            hl_of(*final(self)) == v,
    {
        self.h = (v / 256) as u8;
        self.l = (v % 256) as u8;
    }

    /// Writes AF; F keeps only its high nibble, so the low nibble is zero.
    pub fn set_af(&mut self, v: u16)
        ensures
            *final(self) == with_af(*old(self), v),
            final(self).wf(),
            af_of(*final(self)) == v & 0xFFF0,
    {
        let lo = (v % 256) as u8;
        self.a = (v / 256) as u8;
        self.f = lo & 0xF0;
        proof {
            lemma_af_mask(v);
        }
    }

    pub fn flag_z(&self) -> (r: bool)
        ensures
            r == z_of(self.f),
    {
        self.f & 0x80 != 0
    }

    pub fn flag_n(&self) -> (r: bool)
        ensures
            r == n_of(self.f),
    {
        self.f & 0x40 != 0
    }

    pub fn flag_h(&self) -> (r: bool)
        ensures
            r == h_of(self.f),
    {
        self.f & 0x20 != 0
    }

    pub fn flag_c(&self) -> (r: bool)
        ensures
            r == c_of(self.f),
    {
        self.f & 0x10 != 0
    }

    /// Replaces F by the four flags given, low nibble clear.
    pub fn set_flags(&mut self, z: bool, n: bool, h: bool, c: bool)
        ensures
            *final(self) == with_flags(*old(self), z, n, h, c),
            final(self).wf(),
            z_of(final(self).f) == z,
            n_of(final(self).f) == n,
            h_of(final(self).f) == h,
            c_of(final(self).f) == c,
    {
        self.f = (if z { 0x80u8 } else { 0u8 }) | (if n { 0x40u8 } else { 0u8 }) | (if h {
            0x20u8
        } else {
            0u8
        }) | (if c { 0x10u8 } else { 0u8 });
        proof {
            lemma_flag_byte(z, n, h, c);
        }
    }

    pub(crate) fn fetch8(&mut self, mmu: &Mmu) -> (v: u8)
        requires
            mmu.wf(),
        ensures
            v == imm8(*old(self), mmu@),
            *final(self) == advance(*old(self), 1),
    {
        let v = mmu.read(self.pc);
        self.pc = self.pc.wrapping_add(1);
        v
    }

    pub(crate) fn fetch16(&mut self, mmu: &Mmu) -> (v: u16)
        requires
            mmu.wf(),
        ensures
            v == imm16(*old(self), mmu@),
            *final(self) == advance(*old(self), 2),
    {
        let lo = self.fetch8(mmu) as u16;
        let hi = self.fetch8(mmu) as u16;
        hi * 256 + lo
    }

    pub(crate) fn push16(&mut self, mmu: &mut Mmu, val: u16)
        requires
            old(mmu).wf(),
        ensures
            final(mmu).wf(),
            (*final(self), final(mmu)@) == push_spec(*old(self), old(mmu)@, val),
    {
        self.sp = self.sp.wrapping_sub(1);
        mmu.write(self.sp, (val / 256) as u8);
        self.sp = self.sp.wrapping_sub(1);
        mmu.write(self.sp, (val % 256) as u8);
    }

    pub(crate) fn pop16(&mut self, mmu: &Mmu) -> (v: u16)
        requires
            mmu.wf(),
        ensures
            v == pop_value(*old(self), mmu@),
            *final(self) == after_pop(*old(self)),
    {
        let lo = mmu.read(self.sp) as u16;
        self.sp = self.sp.wrapping_add(1);
        let hi = mmu.read(self.sp) as u16;
        self.sp = self.sp.wrapping_add(1);
        hi * 256 + lo
    }

    pub(crate) fn read_r8(&self, idx: u8, mmu: &Mmu) -> (v: u8)
        requires
            mmu.wf(),
        ensures
            v == r8_spec(*self, mmu@, idx),
    {
        if idx == 0 {
            self.b
        } else if idx == 1 {
            self.c
        } else if idx == 2 {
            self.d
        } else if idx == 3 {
            self.e
        } else if idx == 4 {
            self.h
        } else if idx == 5 {
            self.l
        } else if idx == 6 {
            mmu.read(self.hl())
        } else {
            self.a
        }
    }

    pub(crate) fn write_r8(&mut self, idx: u8, val: u8, mmu: &mut Mmu)
        requires
            old(mmu).wf(),
        ensures
            final(mmu).wf(),
            (*final(self), final(mmu)@) == set_r8_spec(*old(self), old(mmu)@, idx, val),
    {
        if idx == 0 {
            self.b = val;
        } else if idx == 1 {
            self.c = val;
        } else if idx == 2 {
            self.d = val;
        } else if idx == 3 {
            self.e = val;
        } else if idx == 4 {
            self.h = val;
        } else if idx == 5 {
            self.l = val;
        } else if idx == 6 {
            mmu.write(self.hl(), val);
        } else {
            self.a = val;
        }
    }

    /// Runs one step and returns the cycles it took.
    pub fn step(&mut self, mmu: &mut Mmu) -> (cycles: u32)
        requires
            old(self).wf(),
            old(mmu).wf(),
        ensures
            final(self).wf(),
            final(mmu).wf(),
            (*final(self), final(mmu)@, cycles) == step_spec(*old(self), old(mmu)@),
    {
        let triggered = mmu.io[0x0F] & mmu.ie & 0x1F;
        if triggered != 0 {
            self.halted = false;
            if self.ime {
                self.ime = false;
                let bit: u8 = if triggered & 0x01 != 0 {
                    0
                } else if triggered & 0x02 != 0 {
                    1
                } else if triggered & 0x04 != 0 {
                    2
                } else if triggered & 0x08 != 0 {
                    3
                } else {
                    4
                };
                let flags = mmu.io[0x0F] & !(1u8 << bit);
                mmu.io.set(0x0F, flags);
                let pc = self.pc;
                self.push16(mmu, pc);
                self.pc = 0x0040 + (bit as u16) * 8;
                return 20;
            }
        }
        if self.halted {
            return 4;
        }
        let op = self.fetch8(mmu);
        self.execute(op, mmu)
    }
}

/// AF read back after a write of `v` is `v` with the low nibble cleared.
proof fn lemma_af_mask(v: u16)
    ensures
        ((v % 256) as u8 & 0xF0) & 0x0F == 0,
        pair((v / 256) as u8, (v % 256) as u8 & 0xF0) == v & 0xFFF0,
{
    assert(((v % 256) as u8 & 0xF0) & 0x0F == 0) by (bit_vector);
    assert(((v / 256) as u8) as int * 256 + ((v % 256) as u8 & 0xF0) as int == (v & 0xFFF0) as int)
        by (bit_vector);
}

} // verus!
