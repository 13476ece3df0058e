//! Instruction dispatch: one function per group of opcodes, each proved to
//! do what the matching function of `isa` describes.
use vstd::prelude::*;
use crate::cpu::Cpu;
use crate::isa::{
    acc_ops_spec, alu_ops_spec, alu_spec, cb_spec, cond_spec, control_spec, daa_spec,
    execute_spec, high_ops_spec, inc_dec_spec, ld_imm8_spec, ld_r8_spec, misc_jr_spec,
    r16_ops_spec, r16_spec, set_r16_spec, shift_spec, stack_spec,
};
use crate::mmu::Mmu;

verus! {

impl Cpu {
    fn r16(&self, p: u8) -> (v: u16)
        ensures
            v == r16_spec(*self, p),
    {
        if p == 0 {
            self.bc()
        } else if p == 1 {
            self.de()
        } else if p == 2 {
            self.hl()
        } else {
            self.sp
        }
    }

    fn set_r16(&mut self, p: u8, v: u16)
        ensures
            *final(self) == set_r16_spec(*old(self), p, v),
    {
        if p == 0 {
            self.set_bc(v);
        } else if p == 1 {
            self.set_de(v);
        } else if p == 2 {
            self.set_hl(v);
        } else {
            self.sp = v;
        }
    }

    fn cond(&self, k: u8) -> (r: bool)
        ensures
            r == cond_spec(*self, k),
    {
        if k == 0 {
            !self.flag_z()
        } else if k == 1 {
            self.flag_z()
        } else if k == 2 {
            !self.flag_c()
        } else {
            self.flag_c()
        }
    }

    /// Executes opcode `op`; PC already points past it.
    pub(crate) fn execute(&mut self, op: u8, mmu: &mut Mmu) -> (cycles: u32)
        requires
            old(self).wf(),
            old(mmu).wf(),
        ensures
            final(self).wf(),
            final(mmu).wf(),
            (*final(self), final(mmu)@, cycles) == execute_spec(*old(self), old(mmu)@, op),
    {
        proof {
            reveal(execute_spec);
        }
        if op < 0x40 {
            let low = op % 8;
            if low == 0 {
                self.exec_misc_jr(op, mmu)
            } else if low == 4 || low == 5 {
                self.exec_inc_dec(op, mmu)
            } else if low == 6 {
                self.exec_ld_imm8(op, mmu)
            } else if low == 7 {
                self.exec_acc_ops(op);
                4
            } else {
                self.exec_r16_ops(op, mmu)
            }
        } else if op == 0x76 {
            self.halted = true;
            4
        } else if op < 0x80 {
            self.exec_ld_r8(op, mmu)
        } else if op < 0xC0 {
            self.exec_alu_ops(op, mmu)
        } else if op == 0xD3 || op == 0xDB || op == 0xDD || op == 0xE3 || op == 0xE4 || op == 0xEB
            || op == 0xEC || op == 0xED || op == 0xF4 || op == 0xFC || op == 0xFD {
            self.illegal = Some((self.pc.wrapping_sub(1), op));
            4
        } else if op == 0xCB {
            let cb = self.fetch8(mmu);
            self.execute_cb(cb, mmu)
        } else if op % 8 == 6 {
            self.exec_alu_ops(op, mmu)
        } else if op % 16 == 1 || op % 16 == 5 {
            self.exec_stack(op, mmu)
        } else if op >= 0xE0 && op != 0xE9 && op != 0xE7 && op != 0xEF && op != 0xF7 && op != 0xFF {
            self.exec_high_ops(op, mmu)
        } else {
            self.exec_control(op, mmu)
        }
    }

    fn exec_misc_jr(&mut self, op: u8, mmu: &mut Mmu) -> (cycles: u32)
        requires
            old(self).wf(),
            old(mmu).wf(),
            op < 0x40,
            op % 8 == 0,
        ensures
            final(self).wf(),
            final(mmu).wf(),
            (*final(self), final(mmu)@, cycles) == misc_jr_spec(*old(self), old(mmu)@, op),
    {
        proof {
            reveal(misc_jr_spec);
        }
        if op == 0x00 {
            4
        } else if op == 0x08 {
            let nn = self.fetch16(mmu);
            mmu.write(nn, (self.sp % 256) as u8);
            mmu.write(nn.wrapping_add(1), (self.sp / 256) as u8);
            20
        } else if op == 0x10 {
            self.fetch8(mmu);
            4
        } else {
            let taken = op == 0x18 || self.cond((op / 8) % 4);
            let offset = self.fetch8(mmu);
            if taken {
                self.pc = self.pc.wrapping_add((offset as i8) as u16);
                12
            } else {
                8
            }
        }
    }

    fn exec_inc_dec(&mut self, op: u8, mmu: &mut Mmu) -> (cycles: u32)
        requires
            old(self).wf(),
            old(mmu).wf(),
            op < 0x40,
            op % 8 == 4 || op % 8 == 5,
        ensures
            final(self).wf(),
            final(mmu).wf(),
            (*final(self), final(mmu)@, cycles) == inc_dec_spec(*old(self), old(mmu)@, op),
    {
        proof {
            reveal(inc_dec_spec);
        }
        let r = op / 8;
        let v = self.read_r8(r, mmu);
        let carry = self.flag_c();
        if op % 8 == 4 {
            let res = v.wrapping_add(1);
            self.write_r8(r, res, mmu);
            self.set_flags(res == 0, false, (v & 0x0F) == 0x0F, carry);
        } else {
            let res = v.wrapping_sub(1);
            self.write_r8(r, res, mmu);
            self.set_flags(res == 0, true, (v & 0x0F) == 0, carry);
        }
        if r == 6 {
            12
        } else {
            4
        }
    }

    fn exec_ld_imm8(&mut self, op: u8, mmu: &mut Mmu) -> (cycles: u32)
        requires
            old(self).wf(),
            old(mmu).wf(),
            op < 0x40,
            op % 8 == 6,
        ensures
            final(self).wf(),
            final(mmu).wf(),
            (*final(self), final(mmu)@, cycles) == ld_imm8_spec(*old(self), old(mmu)@, op),
    {
        proof {
            reveal(ld_imm8_spec);
        }
        let r = op / 8;
        let v = self.fetch8(mmu);
        self.write_r8(r, v, mmu);
        if r == 6 {
            12
        } else {
            8
        }
    }

    fn exec_r16_ops(&mut self, op: u8, mmu: &mut Mmu) -> (cycles: u32)
        requires
            old(self).wf(),
            old(mmu).wf(),
            op < 0x40,
        ensures
            final(self).wf(),
            final(mmu).wf(),
            (*final(self), final(mmu)@, cycles) == r16_ops_spec(*old(self), old(mmu)@, op),
    {
        proof {
            reveal(r16_ops_spec);
        }
        let p = op / 16;
        let low = op % 16;
        let hl = self.hl();
        if low == 1 {
            let v = self.fetch16(mmu);
            self.set_r16(p, v);
            12
        } else if low == 3 {
            let v = self.r16(p).wrapping_add(1);
            self.set_r16(p, v);
            8
        } else if low == 11 {
            let v = self.r16(p).wrapping_sub(1);
            self.set_r16(p, v);
            8
        } else if low == 9 {
            let v = self.r16(p);
            let z = self.flag_z();
            let h = (hl & 0x0FFF) as u32 + (v & 0x0FFF) as u32 > 0x0FFF;
            let c = hl as u32 + v as u32 > 0xFFFF;
            self.set_hl(hl.wrapping_add(v));
            self.set_flags(z, false, h, c);
            8
        } else if low == 2 {
            if p == 0 {
                mmu.write(self.bc(), self.a);
            } else if p == 1 {
                mmu.write(self.de(), self.a);
            } else if p == 2 {
                mmu.write(hl, self.a);
                self.set_hl(hl.wrapping_add(1));
            } else {
                mmu.write(hl, self.a);
                self.set_hl(hl.wrapping_sub(1));
            }
            8
        } else {
            if p == 0 {
                self.a = mmu.read(self.bc());
            } else if p == 1 {
                self.a = mmu.read(self.de());
            } else if p == 2 {
                self.a = mmu.read(hl);
                self.set_hl(hl.wrapping_add(1));
            } else {
                self.a = mmu.read(hl);
                self.set_hl(hl.wrapping_sub(1));
            }
            8
        }
    }

    /// The shift or rotate with index `kind` of `v` with carry-in `cy`.
    fn shift(kind: u8, v: u8, cy: bool) -> (r: (u8, bool))
        ensures
            r == shift_spec(kind, v, cy),
    {
        let cin: u8 = if cy { 1 } else { 0 };
        if kind == 0 {
            ((v << 1u8) | (v >> 7u8), v & 0x80 != 0)
        } else if kind == 1 {
            ((v >> 1u8) | (v << 7u8), v & 0x01 != 0)
        } else if kind == 2 {
            ((v << 1u8) | cin, v & 0x80 != 0)
        } else if kind == 3 {
            ((v >> 1u8) | (cin << 7u8), v & 0x01 != 0)
        } else if kind == 4 {
            (v << 1u8, v & 0x80 != 0)
        } else if kind == 5 {
            ((v >> 1u8) | (v & 0x80), v & 0x01 != 0)
        } else if kind == 6 {
            ((v >> 4u8) | (v << 4u8), false)
        } else {
            (v >> 1u8, v & 0x01 != 0)
        }
    }

    fn exec_acc_ops(&mut self, op: u8)
        requires
            old(self).wf(),
            op < 0x40,
        ensures
            final(self).wf(),
            *final(self) == acc_ops_spec(*old(self), op),
    {
        proof {
            reveal(acc_ops_spec);
        }
        let k = op / 8;
        let z = self.flag_z();
        let c = self.flag_c();
        if k < 4 {
            let (r, cy) = Self::shift(k, self.a, c);
            self.set_flags(false, false, false, cy);
            self.a = r;
        } else if k == 4 {
            self.daa();
        } else if k == 5 {
            self.set_flags(z, true, true, c);
            self.a = !self.a;
        } else if k == 6 {
            self.set_flags(z, false, false, true);
        } else {
            self.set_flags(z, false, false, !c);
        }
    }

    fn daa(&mut self)
        requires
            old(self).wf(),
        ensures
            final(self).wf(),
            *final(self) == daa_spec(*old(self)),
    {
        let a = self.a;
        let h = self.flag_h();
        let c = self.flag_c();
        if !self.flag_n() {
            let a1 = if h || (a & 0x0F) > 9 { a.wrapping_add(0x06) } else { a };
            let carry = c || a1 > 0x9F;
            let a2 = if carry { a1.wrapping_add(0x60) } else { a1 };
            self.set_flags(a2 == 0, false, false, carry);
            self.a = a2;
        } else {
            let a1 = if h { a.wrapping_sub(0x06) } else { a };
            let a2 = if c { a1.wrapping_sub(0x60) } else { a1 };
            self.set_flags(a2 == 0, true, false, c);
            self.a = a2;
        }
    }

    fn exec_ld_r8(&mut self, op: u8, mmu: &mut Mmu) -> (cycles: u32)
        requires
            old(self).wf(),
            old(mmu).wf(),
        ensures
            final(self).wf(),
            final(mmu).wf(),
            (*final(self), final(mmu)@, cycles) == ld_r8_spec(*old(self), old(mmu)@, op),
    {
        proof {
            reveal(ld_r8_spec);
        }
        let dst = (op / 8) % 8;
        let src = op % 8;
        let v = self.read_r8(src, mmu);
        self.write_r8(dst, v, mmu);
        if src == 6 || dst == 6 {
            8
        } else {
            4
        }
    }

    /// Applies the ALU operation with index `kind` to A and `v`.
    fn alu(&mut self, kind: u8, v: u8)
        requires
            old(self).wf(),
        ensures
            final(self).wf(),
            *final(self) == alu_spec(*old(self), kind, v),
    {
        let a = self.a;
        let cy: u8 = if self.flag_c() { 1 } else { 0 };
        if kind == 0 {
            let r = a.wrapping_add(v);
            self.set_flags(
                r == 0,
                false,
                (a & 0x0F) as u16 + (v & 0x0F) as u16 > 0x0F,
                a as u16 + v as u16 > 0xFF,
            );
            self.a = r;
        } else if kind == 1 {
            let r = a.wrapping_add(v).wrapping_add(cy);
            self.set_flags(
                r == 0,
                false,
                (a & 0x0F) as u16 + (v & 0x0F) as u16 + cy as u16 > 0x0F,
                a as u16 + v as u16 + cy as u16 > 0xFF,
            );
            self.a = r;
        } else if kind == 2 {
            let r = a.wrapping_sub(v);
            self.set_flags(r == 0, true, (a & 0x0F) < (v & 0x0F), a < v);
            self.a = r;
        } else if kind == 3 {
            let r = a.wrapping_sub(v).wrapping_sub(cy);
            self.set_flags(
                r == 0,
                true,
                ((a & 0x0F) as u16) < (v & 0x0F) as u16 + cy as u16,
                (a as u16) < v as u16 + cy as u16,
            );
            self.a = r;
        } else if kind == 4 {
            let r = a & v;
            self.set_flags(r == 0, false, true, false);
            self.a = r;
        } else if kind == 5 {
            let r = a ^ v;
            self.set_flags(r == 0, false, false, false);
            self.a = r;
        } else if kind == 6 {
            let r = a | v;
            self.set_flags(r == 0, false, false, false);
            self.a = r;
        } else {
            self.set_flags(a.wrapping_sub(v) == 0, true, (a & 0x0F) < (v & 0x0F), a < v);
        }
    }

    fn exec_alu_ops(&mut self, op: u8, mmu: &mut Mmu) -> (cycles: u32)
        requires
            old(self).wf(),
            old(mmu).wf(),
        ensures
            final(self).wf(),
            final(mmu).wf(),
            (*final(self), final(mmu)@, cycles) == alu_ops_spec(*old(self), old(mmu)@, op),
    {
        proof {
            reveal(alu_ops_spec);
        }
        let kind = (op / 8) % 8;
        if op < 0xC0 {
            let src = op % 8;
            let v = self.read_r8(src, mmu);
            self.alu(kind, v);
            if src == 6 {
                8
            } else {
                4
            }
        } else {
            let v = self.fetch8(mmu);
            self.alu(kind, v);
            8
        }
    }

    fn exec_control(&mut self, op: u8, mmu: &mut Mmu) -> (cycles: u32)
        requires
            old(self).wf(),
            old(mmu).wf(),
            op >= 0xC0,
        ensures
            final(self).wf(),
            final(mmu).wf(),
            (*final(self), final(mmu)@, cycles) == control_spec(*old(self), old(mmu)@, op),
    {
        proof {
            reveal(control_spec);
        }
        let k = (op / 8) % 4;
        let low = op % 8;
        if op == 0xE9 {
            self.pc = self.hl();
            4
        } else if op == 0xC9 || op == 0xD9 {
            self.pc = self.pop16(mmu);
            if op == 0xD9 {
                self.ime = true;
            }
            16
        } else if low == 0 {
            if self.cond(k) {
                self.pc = self.pop16(mmu);
                20
            } else {
                8
            }
        } else if low == 7 {
            let pc = self.pc;
            self.push16(mmu, pc);
            self.pc = (op - 0xC7) as u16;
            16
        } else if op == 0xC3 || low == 2 {
            let taken = op == 0xC3 || self.cond(k);
            let target = self.fetch16(mmu);
            if taken {
                self.pc = target;
                16
            } else {
                12
            }
        } else {
            let taken = op == 0xCD || self.cond(k);
            let target = self.fetch16(mmu);
            if taken {
                let pc = self.pc;
                self.push16(mmu, pc);
                self.pc = target;
                24
            } else {
                12
            }
        }
    }

    fn exec_stack(&mut self, op: u8, mmu: &mut Mmu) -> (cycles: u32)
        requires
            old(self).wf(),
            old(mmu).wf(),
        ensures
            final(self).wf(),
            final(mmu).wf(),
            (*final(self), final(mmu)@, cycles) == stack_spec(*old(self), old(mmu)@, op),
    {
        proof {
            reveal(stack_spec);
        }
        let p = (op / 16) % 4;
        if op % 16 == 5 {
            let v = if p == 3 { self.af() } else { self.r16(p) };
            self.push16(mmu, v);
            16
        } else {
            let v = self.pop16(mmu);
            if p == 3 {
                self.set_af(v);
            } else {
                self.set_r16(p, v);
            }
            12
        }
    }

    fn exec_high_ops(&mut self, op: u8, mmu: &mut Mmu) -> (cycles: u32)
        requires
            old(self).wf(),
            old(mmu).wf(),
        ensures
            final(self).wf(),
            final(mmu).wf(),
            (*final(self), final(mmu)@, cycles) == high_ops_spec(*old(self), old(mmu)@, op),
    {
        proof {
            reveal(high_ops_spec);
        }
        if op == 0xE0 {
            let n = self.fetch8(mmu);
            mmu.write(0xFF00 + n as u16, self.a);
            12
        } else if op == 0xF0 {
            let n = self.fetch8(mmu);
            self.a = mmu.read(0xFF00 + n as u16);
            12
        } else if op == 0xE2 {
            mmu.write(0xFF00 + self.c as u16, self.a);
            8
        } else if op == 0xF2 {
            self.a = mmu.read(0xFF00 + self.c as u16);
            8
        } else if op == 0xEA {
            let nn = self.fetch16(mmu);
            mmu.write(nn, self.a);
            16
        } else if op == 0xFA {
            let nn = self.fetch16(mmu);
            self.a = mmu.read(nn);
            16
        } else if op == 0xE8 || op == 0xF8 {
            let n = self.fetch8(mmu);
            let e = (n as i8) as u16;
            let r = self.sp.wrapping_add(e);
            let h = (self.sp ^ e ^ r) & 0x10 != 0;
            let c = (self.sp ^ e ^ r) & 0x100 != 0;
            self.set_flags(false, false, h, c);
            if op == 0xE8 {
                self.sp = r;
                16
            } else {
                self.set_hl(r);
                12
            }
        } else if op == 0xF9 {
            self.sp = self.hl();
            8
        } else if op == 0xF3 {
            self.ime = false;
            4
        } else {
            self.ime = true;
            4
        }
    }

    /// Executes the CB-prefixed instruction `op`.
    fn execute_cb(&mut self, op: u8, mmu: &mut Mmu) -> (cycles: u32)
        requires
            old(self).wf(),
            old(mmu).wf(),
        ensures
            final(self).wf(),
            final(mmu).wf(),
            (*final(self), final(mmu)@, cycles) == cb_spec(*old(self), old(mmu)@, op),
    {
        proof {
            reveal(cb_spec);
        }
        let r = op % 8;
        let bit = (op / 8) % 8;
        let v = self.read_r8(r, mmu);
        let c = self.flag_c();
        let cycles: u32 = if r == 6 { 16 } else { 8 };
        if op < 0x40 {
            let (res, cy) = Self::shift(bit, v, c);
            self.write_r8(r, res, mmu);
            self.set_flags(res == 0, false, false, cy);
            cycles
        } else if op < 0x80 {
            self.set_flags(v & (1u8 << bit) == 0, false, true, c);
            if r == 6 {
                12
            } else {
                8
            }
        } else if op < 0xC0 {
            self.write_r8(r, v & !(1u8 << bit), mmu);
            cycles
        } else {
            self.write_r8(r, v | (1u8 << bit), mmu);
            cycles
        }
    }
}

} // verus!
