//! Laws that relate several instructions, proved over their semantics.
use vstd::prelude::*;
use crate::cpu::Cpu;
use crate::isa::{
    advance, af_of, alu_ops_spec, alu_spec, execute_spec, hl_of, imm8, inc_dec_spec,
    ld_imm8_spec, ld_r8_spec, r16_spec, r8_spec, stack_spec,
};
use crate::mmu::MemView;
use crate::registers::{lemma_flag_byte, n_of, pair, z_of};

verus! {

/// Addresses where a written byte reads back: VRAM, external RAM that the
/// selected bank holds, work RAM and its echo, OAM, the I/O registers but
/// JOYP, DIV and DMA, high RAM and IE.
pub open spec fn is_ram(m: MemView, addr: u16) -> bool {
    ||| 0x8000 <= addr <= 0x9FFF
    ||| 0xA000 <= addr <= 0xBFFF && m.extram_bank * 0x2000 + (addr - 0xA000) < m.extram.len()
    ||| 0xC000 <= addr <= 0xFE9F
    ||| 0xFF01 <= addr && addr != 0xFF04 && addr != 0xFF46
}

/// Every write keeps the bus well-formed.
pub proof fn lemma_write_wf(m: MemView, addr: u16, val: u8)
    requires
        m.wf(),
    ensures
        m.write(addr, val).wf(),
{
    if addr == 0xFF46 {
        let kept = MemView { io: m.io.update(0x46, val), ..m };
        assert(kept.dma_source(val).len() == 0xA0);
    }
    if 0x2000 <= addr <= 0x3FFF {
        assert(val & 0x7F <= 0x7F) by (bit_vector);
    }
}

/// A write to RAM reads back.
pub proof fn lemma_ram_read_back(m: MemView, addr: u16, val: u8)
    requires
        m.wf(),
        is_ram(m, addr),
    ensures
        m.write(addr, val).read(addr) == val,
        is_ram(m.write(addr, val), addr),
{
}

/// A write to RAM leaves every address that is neither it nor its echo alone,
/// and leaves RAM where it was.
pub proof fn lemma_ram_write_other(m: MemView, addr: u16, val: u8, other: u16)
    requires
        m.wf(),
        is_ram(m, addr),
        other != addr,
        other as int != addr as int + 0x2000,
        other as int != addr as int - 0x2000,
    ensures
        m.write(addr, val).read(other) == m.read(other),
        is_ram(m.write(addr, val), other) == is_ram(m, other),
{
}

/// CP with any operand leaves A and the bus as they were and sets the same
/// flags as SUB with that operand, in the same cycles.
pub proof fn lemma_cp_matches_sub(c: Cpu, m: MemView, op: u8)
    requires
        c.wf(),
        m.wf(),
        0xB8 <= op <= 0xBF || op == 0xFE,
    ensures
        execute_spec(c, m, op).0.a == c.a,
        execute_spec(c, m, op).0.f == execute_spec(c, m, (op - 0x28) as u8).0.f,
        execute_spec(c, m, op).0.pc == execute_spec(c, m, (op - 0x28) as u8).0.pc,
        execute_spec(c, m, op).1 == m,
        execute_spec(c, m, op).2 == execute_spec(c, m, (op - 0x28) as u8).2,
{
    let sub = (op - 0x28) as u8;
    reveal(execute_spec);
    reveal(alu_ops_spec);
    assert((op / 8) % 8 == 7 && (sub / 8) % 8 == 2 && sub % 8 == op % 8);
    assert(op < 0xC0 <==> sub < 0xC0);
    let v = if op < 0xC0 { r8_spec(c, m, op % 8) } else { imm8(c, m) };
    let c1 = if op < 0xC0 { c } else { advance(c, 1) };
    assert(execute_spec(c, m, op) == alu_ops_spec(c, m, op));
    assert(execute_spec(c, m, sub) == alu_ops_spec(c, m, sub));
    assert(alu_ops_spec(c, m, op).0 == alu_spec(c1, 7, v));
    assert(alu_ops_spec(c, m, sub).0 == alu_spec(c1, 2, v));
}

/// PUSH of a register pair followed by POP of the same pair gives it back
/// (AF with the low nibble of F cleared) and restores SP, where the two stack
/// bytes are RAM.
pub proof fn lemma_push_pop(c: Cpu, m: MemView, p: u8)
    requires
        c.wf(),
        m.wf(),
        p < 4,
        is_ram(m, c.sp.wrapping_sub(1)),
        is_ram(m, c.sp.wrapping_sub(2)),
    ensures
        ({
            let pushed = execute_spec(c, m, (0xC5 + 16 * p) as u8);
            let popped = execute_spec(pushed.0, pushed.1, (0xC1 + 16 * p) as u8);
            &&& popped.0.sp == c.sp
            &&& p < 3 ==> r16_spec(popped.0, p) == r16_spec(c, p)
            &&& p == 3 ==> af_of(popped.0) == af_of(c) & 0xFFF0
        }),
{
    reveal(execute_spec);
    reveal(stack_spec);
    let v = if p == 3 { af_of(c) } else { r16_spec(c, p) };
    let hi_at = c.sp.wrapping_sub(1);
    let lo_at = hi_at.wrapping_sub(1);
    assert(lo_at == c.sp.wrapping_sub(2));
    let m1 = m.write(hi_at, (v / 256) as u8);
    lemma_write_wf(m, hi_at, (v / 256) as u8);
    let m2 = m1.write(lo_at, (v % 256) as u8);
    lemma_ram_read_back(m, hi_at, (v / 256) as u8);
    lemma_ram_write_other(m, hi_at, (v / 256) as u8, lo_at);
    lemma_ram_read_back(m1, lo_at, (v % 256) as u8);
    lemma_ram_write_other(m1, lo_at, (v % 256) as u8, hi_at);
    assert(lo_at.wrapping_add(1) == hi_at);
    assert(pair(m2.read(hi_at), m2.read(lo_at)) == v);
    let pushed = execute_spec(c, m, (0xC5 + 16 * p) as u8);
    assert(pushed.0.sp == lo_at && pushed.1 == m2);
    if p == 3 {
        lemma_af_parts(c.a, c.f);
    }
}

/// A pair whose low byte has a clear low nibble splits back into its bytes.
proof fn lemma_af_parts(a: u8, f: u8)
    by (bit_vector)
    requires
        f & 0x0F == 0,
    ensures
        f & 0xF0 == f,
        (pair(a, f) % 256) as u8 == f,
        (pair(a, f) / 256) as u8 == a,
        pair(a, f) & 0xFFF0 == pair(a, f),
{
}

/// LD r,n stores the byte after the opcode into r; A changes only if r is A.
proof fn lemma_ld_imm_effect(c: Cpu, m: MemView, r: u8)
    requires
        m.wf(),
        r < 8,
        r == 6 ==> is_ram(m, hl_of(execute_spec(c, m, (0x06 + 8 * r) as u8).0)),
    ensures
        ({
            let s = execute_spec(c, m, (0x06 + 8 * r) as u8);
            let n = m.read(c.pc);
            &&& r8_spec(s.0, s.1, r) == n
            &&& s.0.a == (if r == 7 { n } else { c.a })
            &&& s.1.wf()
            &&& r != 6 ==> s.1 == m
            &&& r == 6 ==> hl_of(s.0) == hl_of(c) && is_ram(s.1, hl_of(c))
        }),
{
    reveal(execute_spec);
    reveal(ld_imm8_spec);
    let op = (0x06 + 8 * r) as u8;
    assert(op < 0x40 && op % 8 == 6 && op / 8 == r);
    if r == 6 {
        assert(hl_of(execute_spec(c, m, op).0) == hl_of(c));
        lemma_ram_read_back(m, hl_of(c), m.read(c.pc));
        lemma_write_wf(m, hl_of(c), m.read(c.pc));
    }
}

/// LD r2,r copies r into r2 (HALT in place of LD (HL),(HL) copies nothing,
/// and (HL) already holds itself).
proof fn lemma_ld_copy_effect(c: Cpu, m: MemView, r: u8, r2: u8)
    requires
        m.wf(),
        r < 8,
        r2 < 8,
        r2 == 6 ==> is_ram(m, hl_of(c)),
    ensures
        ({
            let s = execute_spec(c, m, (0x40 + 8 * r2 + r) as u8);
            let v = r8_spec(c, m, r);
            &&& r8_spec(s.0, s.1, r2) == v
            &&& s.0.a == (if r2 == 7 { v } else { c.a })
            &&& s.1.wf()
        }),
{
    reveal(execute_spec);
    reveal(ld_r8_spec);
    let op = (0x40 + 8 * r2 + r) as u8;
    assert(0x40 <= op < 0x80 && (op / 8) % 8 == r2 && op % 8 == r);
    if r2 == 6 && r != 6 {
        lemma_ram_read_back(m, hl_of(c), r8_spec(c, m, r));
        lemma_write_wf(m, hl_of(c), r8_spec(c, m, r));
    }
}

/// CP r with r equal to A sets Z and leaves A.
proof fn lemma_cp_equal(c: Cpu, m: MemView, r: u8)
    requires
        r < 8,
        r8_spec(c, m, r) == c.a,
    ensures
        execute_spec(c, m, (0xB8 + r) as u8).0.a == c.a,
        z_of(execute_spec(c, m, (0xB8 + r) as u8).0.f),
{
    reveal(execute_spec);
    reveal(alu_ops_spec);
    let op = (0xB8 + r) as u8;
    assert(0x80 <= op < 0xC0 && (op / 8) % 8 == 7 && op % 8 == r);
    assert(execute_spec(c, m, op).0 == alu_spec(c, 7, c.a));
    lemma_flag_byte(true, true, false, false);
}

/// LD r,n then LD r',r then CP r', starting with A equal to n, leaves A at n
/// and sets Z, where an (HL) operand points at RAM.
pub proof fn lemma_load_copy_compare(c: Cpu, m: MemView, r: u8, r2: u8)
    requires
        c.wf(),
        m.wf(),
        r < 8,
        r2 < 8,
        c.a == m.read(c.pc),
        r == 6 || r2 == 6 ==> is_ram(m, hl_of(execute_spec(c, m, (0x06 + 8 * r) as u8).0)),
    ensures
        ({
            let n = m.read(c.pc);
            let s1 = execute_spec(c, m, (0x06 + 8 * r) as u8);
            let s2 = execute_spec(s1.0, s1.1, (0x40 + 8 * r2 + r) as u8);
            let s3 = execute_spec(s2.0, s2.1, (0xB8 + r2) as u8);
            &&& s3.0.a == n
            &&& z_of(s3.0.f)
        }),
{
    let s1 = execute_spec(c, m, (0x06 + 8 * r) as u8);
    lemma_ld_imm_effect(c, m, r);
    lemma_ld_copy_effect(s1.0, s1.1, r, r2);
    let s2 = execute_spec(s1.0, s1.1, (0x40 + 8 * r2 + r) as u8);
    lemma_cp_equal(s2.0, s2.1, r2);
}

/// INC r then DEC r gives r back and leaves N set; for (HL), where HL
/// points at RAM.
pub proof fn lemma_inc_dec(c: Cpu, m: MemView, r: u8)
    requires
        c.wf(),
        m.wf(),
        r < 8,
        r == 6 ==> is_ram(m, hl_of(c)),
    ensures
        ({
            let s1 = execute_spec(c, m, (0x04 + 8 * r) as u8);
            let s2 = execute_spec(s1.0, s1.1, (0x05 + 8 * r) as u8);
            &&& r8_spec(s2.0, s2.1, r) == r8_spec(c, m, r)
            &&& n_of(s2.0.f)
        }),
{
    reveal(execute_spec);
    reveal(inc_dec_spec);
    let v = r8_spec(c, m, r);
    let s1 = execute_spec(c, m, (0x04 + 8 * r) as u8);
    if r == 6 {
        lemma_ram_read_back(m, hl_of(c), v.wrapping_add(1));
        lemma_write_wf(m, hl_of(c), v.wrapping_add(1));
        lemma_ram_read_back(s1.1, hl_of(c), v.wrapping_add(1).wrapping_sub(1));
    }
    assert(r8_spec(s1.0, s1.1, r) == v.wrapping_add(1));
    let s2 = execute_spec(s1.0, s1.1, (0x05 + 8 * r) as u8);
    assert(v.wrapping_add(1).wrapping_sub(1) == v);
    let w = v.wrapping_add(1);
    lemma_flag_byte(w.wrapping_sub(1) == 0, true, (w & 0x0F) == 0, crate::registers::c_of(s1.0.f));
}

} // verus!
