//! What each LR35902 instruction does, as functions from the machine state
//! (registers and bus) to the next state and the cycles taken.
use vstd::prelude::*;
use crate::cpu::Cpu;
use crate::mmu::MemView;
use crate::registers::{c_of, flag_byte, h_of, n_of, pair, z_of};

verus! {

/// Registers, bus and the cycles an instruction took.
pub type Outcome = (Cpu, MemView, u32);

pub open spec fn bc_of(c: Cpu) -> u16 {
    pair(c.b, c.c)
}

pub open spec fn de_of(c: Cpu) -> u16 {
    pair(c.d, c.e)
}

pub open spec fn hl_of(c: Cpu) -> u16 {
    pair(c.h, c.l)
}

pub open spec fn af_of(c: Cpu) -> u16 {
    pair(c.a, c.f)
}

pub open spec fn with_bc(c: Cpu, v: u16) -> Cpu {
    Cpu { b: (v / 256) as u8, c: (v % 256) as u8, ..c }
}

pub open spec fn with_de(c: Cpu, v: u16) -> Cpu {
    Cpu { d: (v / 256) as u8, e: (v % 256) as u8, ..c }
}

pub open spec fn with_hl(c: Cpu, v: u16) -> Cpu {
    Cpu { h: (v / 256) as u8, l: (v % 256) as u8, ..c }
}

/// AF takes the high byte into A and only the high nibble of the low byte into F.
pub open spec fn with_af(c: Cpu, v: u16) -> Cpu {
    Cpu { a: (v / 256) as u8, f: (v % 256) as u8 & 0xF0, ..c }
}

pub open spec fn with_flags(c: Cpu, z: bool, n: bool, h: bool, cy: bool) -> Cpu {
    Cpu { f: flag_byte(z, n, h, cy), ..c }
}

/// PC moved on by `k` bytes, wrapping.
pub open spec fn advance(c: Cpu, k: u16) -> Cpu {
    Cpu { pc: c.pc.wrapping_add(k), ..c }
}

/// The byte after the opcode.
pub open spec fn imm8(c: Cpu, m: MemView) -> u8 {
    m.read(c.pc)
}

/// The little-endian word after the opcode.
pub open spec fn imm16(c: Cpu, m: MemView) -> u16 {
    pair(m.read(c.pc.wrapping_add(1)), m.read(c.pc))
}

/// SP lowered by two, the high byte stored above the low byte.
pub open spec fn push_spec(c: Cpu, m: MemView, v: u16) -> (Cpu, MemView) {
    let hi_at = c.sp.wrapping_sub(1);
    let lo_at = hi_at.wrapping_sub(1);
    (Cpu { sp: lo_at, ..c }, m.write(hi_at, (v / 256) as u8).write(lo_at, (v % 256) as u8))
}

/// The word at SP, and SP raised by two.
pub open spec fn pop_value(c: Cpu, m: MemView) -> u16 {
    pair(m.read(c.sp.wrapping_add(1)), m.read(c.sp))
}

pub open spec fn after_pop(c: Cpu) -> Cpu {
    Cpu { sp: c.sp.wrapping_add(2), ..c }
}

/// The 8-bit operand with index `idx`: B, C, D, E, H, L, (HL), A.
pub open spec fn r8_spec(c: Cpu, m: MemView, idx: u8) -> u8 {
    if idx == 0 {
        c.b
    } else if idx == 1 {
        c.c
    } else if idx == 2 {
        c.d
    } else if idx == 3 {
        c.e
    } else if idx == 4 {
        c.h
    } else if idx == 5 {
        c.l
    } else if idx == 6 {
        m.read(hl_of(c))
    } else {
        c.a
    }
}

/// The state after storing `v` into the 8-bit operand with index `idx`.
pub open spec fn set_r8_spec(c: Cpu, m: MemView, idx: u8, v: u8) -> (Cpu, MemView) {
    if idx == 0 {
        (Cpu { b: v, ..c }, m)
    } else if idx == 1 {
        (Cpu { c: v, ..c }, m)
    } else if idx == 2 {
        (Cpu { d: v, ..c }, m)
    } else if idx == 3 {
        (Cpu { e: v, ..c }, m)
    } else if idx == 4 {
        (Cpu { h: v, ..c }, m)
    } else if idx == 5 {
        (Cpu { l: v, ..c }, m)
    } else if idx == 6 {
        (c, m.write(hl_of(c), v))
    } else {
        (Cpu { a: v, ..c }, m)
    }
}

/// BC, DE, HL or SP, by index.
pub open spec fn r16_spec(c: Cpu, p: u8) -> u16 {
    if p == 0 {
        bc_of(c)
    } else if p == 1 {
        de_of(c)
    } else if p == 2 {
        hl_of(c)
    } else {
        c.sp
    }
}

pub open spec fn set_r16_spec(c: Cpu, p: u8, v: u16) -> Cpu {
    if p == 0 {
        with_bc(c, v)
    } else if p == 1 {
        with_de(c, v)
    } else if p == 2 {
        with_hl(c, v)
    } else {
        Cpu { sp: v, ..c }
    }
}

/// The jump condition with index `k`: NZ, Z, NC, C.
pub open spec fn cond_spec(c: Cpu, k: u8) -> bool {
    if k == 0 {
        !z_of(c.f)
    } else if k == 1 {
        z_of(c.f)
    } else if k == 2 {
        !c_of(c.f)
    } else {
        c_of(c.f)
    }
}

/// The shift or rotate with index `kind` (RLC, RRC, RL, RR, SLA, SRA, SWAP,
/// SRL) of `v` with carry-in `cy`: the result and the carry out.
pub open spec fn shift_spec(kind: u8, v: u8, cy: bool) -> (u8, bool) {
    let cin: u8 = if cy { 1 } else { 0 };
    if kind == 0 {
        ((v << 1u8) | (v >> 7u8), v & 0x80 != 0)
    } else if kind == 1 {
        ((v >> 1u8) | (v << 7u8), v & 0x01 != 0)
    } else if kind == 2 {
        ((v << 1u8) | cin, v & 0x80 != 0)
    } else if kind == 3 {
        ((v >> 1u8) | (cin << 7u8), v & 0x01 != 0)
    } else if kind == 4 {
        (v << 1u8, v & 0x80 != 0)
    } else if kind == 5 {
        ((v >> 1u8) | (v & 0x80), v & 0x01 != 0)
    } else if kind == 6 {
        ((v >> 4u8) | (v << 4u8), false)
    } else {
        (v >> 1u8, v & 0x01 != 0)
    }
}

/// The ALU operation with index `kind` (ADD, ADC, SUB, SBC, AND, XOR, OR, CP)
/// applied to A and `v`.
pub open spec fn alu_spec(c: Cpu, kind: u8, v: u8) -> Cpu {
    let a = c.a;
    let cy: u8 = if c_of(c.f) { 1 } else { 0 };
    if kind == 0 {
        let r = a.wrapping_add(v);
        Cpu { a: r, ..with_flags(c, r == 0, false, (a & 0x0F) + (v & 0x0F) > 0x0F, a + v > 0xFF) }
    } else if kind == 1 {
        let r = a.wrapping_add(v).wrapping_add(cy);
        Cpu {
            a: r,
            ..with_flags(c, r == 0, false, (a & 0x0F) + (v & 0x0F) + cy > 0x0F, a + v + cy > 0xFF)
        }
    } else if kind == 2 {
        let r = a.wrapping_sub(v);
        Cpu { a: r, ..with_flags(c, r == 0, true, (a & 0x0F) < (v & 0x0F), a < v) }
    } else if kind == 3 {
        let r = a.wrapping_sub(v).wrapping_sub(cy);
        Cpu { a: r, ..with_flags(c, r == 0, true, (a & 0x0F) < (v & 0x0F) + cy, a < v + cy) }
    } else if kind == 4 {
        let r = a & v;
        Cpu { a: r, ..with_flags(c, r == 0, false, true, false) }
    } else if kind == 5 {
        let r = a ^ v;
        Cpu { a: r, ..with_flags(c, r == 0, false, false, false) }
    } else if kind == 6 {
        let r = a | v;
        Cpu { a: r, ..with_flags(c, r == 0, false, false, false) }
    } else {
        with_flags(c, a.wrapping_sub(v) == 0, true, (a & 0x0F) < (v & 0x0F), a < v)
    }
}

/// Decimal adjust of A after a BCD addition or subtraction.
pub open spec fn daa_spec(c: Cpu) -> Cpu {
    let a = c.a;
    if !n_of(c.f) {
        let a1 = if h_of(c.f) || (a & 0x0F) > 9 { a.wrapping_add(0x06) } else { a };
        let carry = c_of(c.f) || a1 > 0x9F;
        let a2 = if carry { a1.wrapping_add(0x60) } else { a1 };
        Cpu { a: a2, ..with_flags(c, a2 == 0, false, false, carry) }
    } else {
        let a1 = if h_of(c.f) { a.wrapping_sub(0x06) } else { a };
        let a2 = if c_of(c.f) { a1.wrapping_sub(0x60) } else { a1 };
        Cpu { a: a2, ..with_flags(c, a2 == 0, true, false, c_of(c.f)) }
    }
}

/// SP plus the signed byte `v`, with H and C from the carries out of bits 3 and 7.
pub open spec fn sp_offset_spec(c: Cpu, v: u8) -> (u16, bool, bool) {
    let e = (v as i8) as u16;
    let r = c.sp.wrapping_add(e);
    (r, (c.sp ^ e ^ r) & 0x10 != 0, (c.sp ^ e ^ r) & 0x100 != 0)
}

/// INC r8 (`op % 8 == 4`) and DEC r8 (`op % 8 == 5`) in the first quarter.
#[verifier::opaque]
pub open spec fn inc_dec_spec(c: Cpu, m: MemView, op: u8) -> Outcome {
    let r = op / 8;
    let v = r8_spec(c, m, r);
    let cycles: u32 = if r == 6 { 12 } else { 4 };
    if op % 8 == 4 {
        let res = v.wrapping_add(1);
        let (c1, m1) = set_r8_spec(c, m, r, res);
        (with_flags(c1, res == 0, false, (v & 0x0F) == 0x0F, c_of(c.f)), m1, cycles)
    } else {
        let res = v.wrapping_sub(1);
        let (c1, m1) = set_r8_spec(c, m, r, res);
        (with_flags(c1, res == 0, true, (v & 0x0F) == 0, c_of(c.f)), m1, cycles)
    }
}

/// LD r8,u8 (`op % 8 == 6` in the first quarter).
#[verifier::opaque]
pub open spec fn ld_imm8_spec(c: Cpu, m: MemView, op: u8) -> Outcome {
    let r = op / 8;
    let (c1, m1) = set_r8_spec(advance(c, 1), m, r, imm8(c, m));
    (c1, m1, if r == 6 { 12 } else { 8 })
}

/// The 16-bit loads and arithmetic and the indirect loads of A in the first
/// quarter (`op % 16` one of 1, 2, 3, 9, 10, 11).
#[verifier::opaque]
pub open spec fn r16_ops_spec(c: Cpu, m: MemView, op: u8) -> Outcome {
    let p = op / 16;
    let low = op % 16;
    let hl = hl_of(c);
    if low == 1 {
        (set_r16_spec(advance(c, 2), p, imm16(c, m)), m, 12)
    } else if low == 3 {
        (set_r16_spec(c, p, r16_spec(c, p).wrapping_add(1)), m, 8)
    } else if low == 11 {
        (set_r16_spec(c, p, r16_spec(c, p).wrapping_sub(1)), m, 8)
    } else if low == 9 {
        let v = r16_spec(c, p);
        let c1 = with_hl(c, hl.wrapping_add(v));
        (
            with_flags(c1, z_of(c.f), false, (hl & 0x0FFF) + (v & 0x0FFF) > 0x0FFF, hl + v > 0xFFFF),
            m,
            8,
        )
    } else if low == 2 {
        if p == 0 {
            (c, m.write(bc_of(c), c.a), 8)
        } else if p == 1 {
            (c, m.write(de_of(c), c.a), 8)
        } else if p == 2 {
            (with_hl(c, hl.wrapping_add(1)), m.write(hl, c.a), 8)
        } else {
            (with_hl(c, hl.wrapping_sub(1)), m.write(hl, c.a), 8)
        }
    } else {
        if p == 0 {
            (Cpu { a: m.read(bc_of(c)), ..c }, m, 8)
        } else if p == 1 {
            (Cpu { a: m.read(de_of(c)), ..c }, m, 8)
        } else if p == 2 {
            (Cpu { a: m.read(hl), ..with_hl(c, hl.wrapping_add(1)) }, m, 8)
        } else {
            (Cpu { a: m.read(hl), ..with_hl(c, hl.wrapping_sub(1)) }, m, 8)
        }
    }
}

/// RLCA, RRCA, RLA, RRA, DAA, CPL, SCF, CCF (`op % 8 == 7` in the first quarter).
#[verifier::opaque]
pub open spec fn acc_ops_spec(c: Cpu, op: u8) -> Cpu {
    let k = op / 8;
    if k < 4 {
        let (r, cy) = shift_spec(k, c.a, c_of(c.f));
        Cpu { a: r, ..with_flags(c, false, false, false, cy) }
    } else if k == 4 {
        daa_spec(c)
    } else if k == 5 {
        Cpu { a: !c.a, ..with_flags(c, z_of(c.f), true, true, c_of(c.f)) }
    } else if k == 6 {
        with_flags(c, z_of(c.f), false, false, true)
    } else {
        with_flags(c, z_of(c.f), false, false, !c_of(c.f))
    }
}

/// NOP, LD (nn),SP, STOP, JR and JR cc (`op % 8 == 0` in the first quarter).
#[verifier::opaque]
pub open spec fn misc_jr_spec(c: Cpu, m: MemView, op: u8) -> Outcome {
    if op == 0x00 {
        (c, m, 4)
    } else if op == 0x08 {
        let nn = imm16(c, m);
        (advance(c, 2), m.write(nn, (c.sp % 256) as u8).write(nn.wrapping_add(1), (c.sp / 256) as u8), 20)
    } else if op == 0x10 {
        (advance(c, 1), m, 4)
    } else {
        let c1 = advance(c, 1);
        let target = c1.pc.wrapping_add((imm8(c, m) as i8) as u16);
        if op == 0x18 || cond_spec(c, (op / 8) % 4) {
            (Cpu { pc: target, ..c1 }, m, 12)
        } else {
            (c1, m, 8)
        }
    }
}

/// LD r8,r8 (0x40..=0x7F but HALT, 0x76).
#[verifier::opaque]
pub open spec fn ld_r8_spec(c: Cpu, m: MemView, op: u8) -> Outcome {
    let dst = (op / 8) % 8;
    let src = op % 8;
    let (c1, m1) = set_r8_spec(c, m, dst, r8_spec(c, m, src));
    (c1, m1, if src == 6 || dst == 6 { 8 } else { 4 })
}

/// ALU A,r8 (0x80..=0xBF) and ALU A,u8 (`op % 8 == 6` from 0xC0 on).
#[verifier::opaque]
pub open spec fn alu_ops_spec(c: Cpu, m: MemView, op: u8) -> Outcome {
    let kind = (op / 8) % 8;
    if op < 0xC0 {
        let src = op % 8;
        (alu_spec(c, kind, r8_spec(c, m, src)), m, if src == 6 { 8 } else { 4 })
    } else {
        (alu_spec(advance(c, 1), kind, imm8(c, m)), m, 8)
    }
}

/// JP, CALL, RET, RETI, RST and JP HL.
#[verifier::opaque]
pub open spec fn control_spec(c: Cpu, m: MemView, op: u8) -> Outcome {
    let k = (op / 8) % 4;
    let low = op % 8;
    if op == 0xE9 {
        (Cpu { pc: hl_of(c), ..c }, m, 4)
    } else if op == 0xC9 || op == 0xD9 {
        let c1 = Cpu { pc: pop_value(c, m), ..after_pop(c) };
        (if op == 0xD9 { Cpu { ime: true, ..c1 } } else { c1 }, m, 16)
    } else if low == 0 {
        if cond_spec(c, k) {
            (Cpu { pc: pop_value(c, m), ..after_pop(c) }, m, 20)
        } else {
            (c, m, 8)
        }
    } else if low == 7 {
        let (c1, m1) = push_spec(c, m, c.pc);
        (Cpu { pc: (op - 0xC7) as u16, ..c1 }, m1, 16)
    } else if op == 0xC3 || low == 2 {
        let c1 = advance(c, 2);
        if op == 0xC3 || cond_spec(c, k) {
            (Cpu { pc: imm16(c, m), ..c1 }, m, 16)
        } else {
            (c1, m, 12)
        }
    } else {
        let c1 = advance(c, 2);
        if op == 0xCD || cond_spec(c, k) {
            let (c2, m2) = push_spec(c1, m, c1.pc);
            (Cpu { pc: imm16(c, m), ..c2 }, m2, 24)
        } else {
            (c1, m, 12)
        }
    }
}

/// PUSH (`op % 16 == 5`) and POP (`op % 16 == 1`) of BC, DE, HL and AF.
#[verifier::opaque]
pub open spec fn stack_spec(c: Cpu, m: MemView, op: u8) -> Outcome {
    let p = (op / 16) % 4;
    if op % 16 == 5 {
        let v = if p == 3 { af_of(c) } else { r16_spec(c, p) };
        let (c1, m1) = push_spec(c, m, v);
        (c1, m1, 16)
    } else {
        let v = pop_value(c, m);
        let c1 = after_pop(c);
        (if p == 3 { with_af(c1, v) } else { set_r16_spec(c1, p, v) }, m, 12)
    }
}

/// High-page and absolute loads of A, the SP arithmetic, DI and EI.
#[verifier::opaque]
pub open spec fn high_ops_spec(c: Cpu, m: MemView, op: u8) -> Outcome {
    let n = imm8(c, m);
    if op == 0xE0 {
        (advance(c, 1), m.write((0xFF00 + n) as u16, c.a), 12)
    } else if op == 0xF0 {
        (Cpu { a: m.read((0xFF00 + n) as u16), ..advance(c, 1) }, m, 12)
    } else if op == 0xE2 {
        (c, m.write((0xFF00 + c.c) as u16, c.a), 8)
    } else if op == 0xF2 {
        (Cpu { a: m.read((0xFF00 + c.c) as u16), ..c }, m, 8)
    } else if op == 0xEA {
        (advance(c, 2), m.write(imm16(c, m), c.a), 16)
    } else if op == 0xFA {
        (Cpu { a: m.read(imm16(c, m)), ..advance(c, 2) }, m, 16)
    } else if op == 0xE8 {
        let (r, h, cy) = sp_offset_spec(c, n);
        (Cpu { sp: r, ..with_flags(advance(c, 1), false, false, h, cy) }, m, 16)
    } else if op == 0xF8 {
        let (r, h, cy) = sp_offset_spec(c, n);
        (with_hl(with_flags(advance(c, 1), false, false, h, cy), r), m, 12)
    } else if op == 0xF9 {
        (Cpu { sp: hl_of(c), ..c }, m, 8)
    } else if op == 0xF3 {
        (Cpu { ime: false, ..c }, m, 4)
    } else {
        (Cpu { ime: true, ..c }, m, 4)
    }
}

/// A CB-prefixed instruction `op`: shifts, BIT, RES and SET on operand `op % 8`.
#[verifier::opaque]
pub open spec fn cb_spec(c: Cpu, m: MemView, op: u8) -> Outcome {
    let r = op % 8;
    let bit = (op / 8) % 8;
    let v = r8_spec(c, m, r);
    let cycles: u32 = if r == 6 { 16 } else { 8 };
    if op < 0x40 {
        let (res, cy) = shift_spec(bit, v, c_of(c.f));
        let (c1, m1) = set_r8_spec(c, m, r, res);
        (with_flags(c1, res == 0, false, false, cy), m1, cycles)
    } else if op < 0x80 {
        (
            with_flags(c, v & (1u8 << bit) == 0, false, true, c_of(c.f)),
            m,
            if r == 6 { 12 } else { 8 },
        )
    } else if op < 0xC0 {
        let (c1, m1) = set_r8_spec(c, m, r, v & !(1u8 << bit));
        (c1, m1, cycles)
    } else {
        let (c1, m1) = set_r8_spec(c, m, r, v | (1u8 << bit));
        (c1, m1, cycles)
    }
}

/// The opcodes that the LR35902 does not define.
pub open spec fn is_illegal(op: u8) -> bool {
    op == 0xD3 || op == 0xDB || op == 0xDD || op == 0xE3 || op == 0xE4 || op == 0xEB || op == 0xEC
        || op == 0xED || op == 0xF4 || op == 0xFC || op == 0xFD
}

/// Executes opcode `op`, fetched from PC - 1 (PC already points past it).
#[verifier::opaque]
pub open spec fn execute_spec(c: Cpu, m: MemView, op: u8) -> Outcome {
    if op < 0x40 {
        let low = op % 8;
        if low == 0 {
            misc_jr_spec(c, m, op)
        } else if low == 4 || low == 5 {
            inc_dec_spec(c, m, op)
        } else if low == 6 {
            ld_imm8_spec(c, m, op)
        } else if low == 7 {
            (acc_ops_spec(c, op), m, 4)
        } else {
            r16_ops_spec(c, m, op)
        }
    } else if op == 0x76 {
        (Cpu { halted: true, ..c }, m, 4)
    } else if op < 0x80 {
        ld_r8_spec(c, m, op)
    } else if op < 0xC0 {
        alu_ops_spec(c, m, op)
    } else if is_illegal(op) {
        (Cpu { illegal: Some((c.pc.wrapping_sub(1), op)), ..c }, m, 4)
    } else if op == 0xCB {
        cb_spec(advance(c, 1), m, imm8(c, m))
    } else if op % 8 == 6 {
        alu_ops_spec(c, m, op)
    } else if op % 16 == 1 || op % 16 == 5 {
        stack_spec(c, m, op)
    } else if op >= 0xE0 && op != 0xE9 && op != 0xE7 && op != 0xEF && op != 0xF7 && op != 0xFF {
        high_ops_spec(c, m, op)
    } else {
        control_spec(c, m, op)
    }
}

/// The lowest set bit among the five interrupt bits of `p` (p is not zero).
pub open spec fn lowest_bit(p: u8) -> u8 {
    if p & 0x01 != 0 {
        0
    } else if p & 0x02 != 0 {
        1
    } else if p & 0x04 != 0 {
        2
    } else if p & 0x08 != 0 {
        3
    } else {
        4
    }
}

/// One CPU step: service the highest-priority pending interrupt if IME is set,
/// else idle while halted, else fetch and execute one instruction.
pub open spec fn step_spec(c: Cpu, m: MemView) -> Outcome {
    let pending = m.io[0x0F] & m.ie & 0x1F;
    let c1 = if pending != 0 { Cpu { halted: false, ..c } } else { c };
    if pending != 0 && c.ime {
        let bit = lowest_bit(pending);
        let m1 = MemView { io: m.io.update(0x0F, m.io[0x0F] & !(1u8 << bit)), ..m };
        let (c2, m2) = push_spec(Cpu { ime: false, ..c1 }, m1, c.pc);
        (Cpu { pc: (0x40 + bit * 8) as u16, ..c2 }, m2, 20)
    } else if c1.halted {
        (c1, m, 4)
    } else {
        execute_spec(advance(c1, 1), m, m.read(c1.pc))
    }
}

/// Every step takes between 4 and 24 cycles.
pub proof fn lemma_step_cycles(c: Cpu, m: MemView)
    ensures
        4 <= step_spec(c, m).2 <= 24,
{
    let pending = m.io[0x0F] & m.ie & 0x1F;
    let c1 = if pending != 0 { Cpu { halted: false, ..c } } else { c };
    let c2 = advance(c1, 1);
    let op = m.read(c1.pc);
    let n = imm8(c2, m);
    assert(4 <= misc_jr_spec(c2, m, op).2 <= 24) by { reveal(misc_jr_spec); }
    assert(4 <= inc_dec_spec(c2, m, op).2 <= 24) by { reveal(inc_dec_spec); }
    assert(4 <= ld_imm8_spec(c2, m, op).2 <= 24) by { reveal(ld_imm8_spec); }
    assert(4 <= r16_ops_spec(c2, m, op).2 <= 24) by { reveal(r16_ops_spec); }
    assert(4 <= ld_r8_spec(c2, m, op).2 <= 24) by { reveal(ld_r8_spec); }
    assert(4 <= alu_ops_spec(c2, m, op).2 <= 24) by { reveal(alu_ops_spec); }
    assert(4 <= control_spec(c2, m, op).2 <= 24) by { reveal(control_spec); }
    assert(4 <= stack_spec(c2, m, op).2 <= 24) by { reveal(stack_spec); }
    assert(4 <= high_ops_spec(c2, m, op).2 <= 24) by { reveal(high_ops_spec); }
    assert(4 <= cb_spec(advance(c2, 1), m, n).2 <= 24) by { reveal(cb_spec); }
    assert(4 <= execute_spec(c2, m, op).2 <= 24) by { reveal(execute_spec); }
}

} // verus!
