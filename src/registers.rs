//! The LR35902 register file and the flag byte F.
use vstd::prelude::*;

verus! {

/// Whether the zero flag (bit 7) is set in a flag byte.
pub open spec fn z_of(f: u8) -> bool {
    f & 0x80 != 0
}

/// Whether the subtract flag (bit 6) is set in a flag byte.
pub open spec fn n_of(f: u8) -> bool {
    f & 0x40 != 0
}

/// Whether the half-carry flag (bit 5) is set in a flag byte.
pub open spec fn h_of(f: u8) -> bool {
    f & 0x20 != 0
}

/// Whether the carry flag (bit 4) is set in a flag byte.
pub open spec fn c_of(f: u8) -> bool {
    f & 0x10 != 0
}

/// The flag byte that holds exactly the four flags given, low nibble clear.
pub open spec fn flag_byte(z: bool, n: bool, h: bool, c: bool) -> u8 {
    (if z { 0x80u8 } else { 0u8 }) | (if n { 0x40u8 } else { 0u8 }) | (if h { 0x20u8 } else { 0u8 })
        | (if c { 0x10u8 } else { 0u8 })
}

/// The 16-bit value of a register pair, high byte first.
pub open spec fn pair(hi: u8, lo: u8) -> u16 {
    (hi as int * 256 + lo as int) as u16
}

/// A flag byte gives back the flags it was built from and has a clear low nibble.
pub proof fn lemma_flag_byte(z: bool, n: bool, h: bool, c: bool)
    by (bit_vector)
    ensures
        z_of(flag_byte(z, n, h, c)) == z,
        n_of(flag_byte(z, n, h, c)) == n,
        h_of(flag_byte(z, n, h, c)) == h,
        c_of(flag_byte(z, n, h, c)) == c,
        flag_byte(z, n, h, c) & 0x0F == 0,
{
}

/// Setting or clearing one flag bit leaves the other seven bits as they were.
proof fn lemma_flag_bits(f: u8)
    by (bit_vector)
    ensures
        z_of(f | 0x80) && n_of(f | 0x80) == n_of(f) && h_of(f | 0x80) == h_of(f) && c_of(f | 0x80)
            == c_of(f) && (f | 0x80) & 0x0F == f & 0x0F,
        !z_of(f & !0x80u8) && n_of(f & !0x80u8) == n_of(f) && h_of(f & !0x80u8) == h_of(f)
            && c_of(f & !0x80u8) == c_of(f) && (f & !0x80u8) & 0x0F == f & 0x0F,
        n_of(f | 0x40) && z_of(f | 0x40) == z_of(f) && h_of(f | 0x40) == h_of(f) && c_of(f | 0x40)
            == c_of(f) && (f | 0x40) & 0x0F == f & 0x0F,
        !n_of(f & !0x40u8) && z_of(f & !0x40u8) == z_of(f) && h_of(f & !0x40u8) == h_of(f)
            && c_of(f & !0x40u8) == c_of(f) && (f & !0x40u8) & 0x0F == f & 0x0F,
        h_of(f | 0x20) && z_of(f | 0x20) == z_of(f) && n_of(f | 0x20) == n_of(f) && c_of(f | 0x20)
            == c_of(f) && (f | 0x20) & 0x0F == f & 0x0F,
        !h_of(f & !0x20u8) && z_of(f & !0x20u8) == z_of(f) && n_of(f & !0x20u8) == n_of(f)
            && c_of(f & !0x20u8) == c_of(f) && (f & !0x20u8) & 0x0F == f & 0x0F,
        c_of(f | 0x10) && z_of(f | 0x10) == z_of(f) && n_of(f | 0x10) == n_of(f) && h_of(f | 0x10)
            == h_of(f) && (f | 0x10) & 0x0F == f & 0x0F,
        !c_of(f & !0x10u8) && z_of(f & !0x10u8) == z_of(f) && n_of(f & !0x10u8) == n_of(f)
            && h_of(f & !0x10u8) == h_of(f) && (f & !0x10u8) & 0x0F == f & 0x0F,
{
}

/// A plain register file: eight 8-bit registers, SP, PC and the IME and HALT bits.
#[derive(Clone, Copy, Debug)]
pub struct Registers {
    pub a: u8,
    pub f: u8,
    pub b: u8,
    pub c: u8,
    pub d: u8,
    pub e: u8,
    pub h: u8,
    pub l: u8,
    pub sp: u16,
    pub pc: u16,
    pub ime: bool,
    pub halt: bool,
}

impl Registers {
    /// The register file as the boot ROM leaves it.
    pub fn new() -> (r: Self)
        ensures
            r.a == 0x01 && r.f == 0xB0,
            r.b == 0x00 && r.c == 0x13,
            r.d == 0x00 && r.e == 0xD8,
            r.h == 0x01 && r.l == 0x4D,
            r.sp == 0xFFFE && r.pc == 0x0100,
            !r.ime && !r.halt,
    {
        Registers {
            a: 0x01,
            f: 0xB0,
            b: 0x00,
            c: 0x13,
            d: 0x00,
            e: 0xD8,
            h: 0x01,
            l: 0x4D,
            sp: 0xFFFE,
            pc: 0x0100,
            ime: false,
            halt: false,
        }
    }

    pub fn get_af(&self) -> (r: u16)
        ensures
            r == pair(self.a, self.f),
    {
        (self.a as u16) * 256 + self.f as u16
    }

    pub fn get_bc(&self) -> (r: u16)
        ensures
            r == pair(self.b, self.c),
    {
        (self.b as u16) * 256 + self.c as u16
    }

    pub fn get_de(&self) -> (r: u16)
        ensures
            r == pair(self.d, self.e),
    {
        (self.d as u16) * 256 + self.e as u16
    }

    pub fn get_hl(&self) -> (r: u16)
        ensures
            r == pair(self.h, self.l),
    {
        (self.h as u16) * 256 + self.l as u16
    }

    pub fn set_bc(&mut self, value: u16)
        ensures
            *final(self) == (Registers { b: (value / 256) as u8, c: (value % 256) as u8, ..*old(self) }),
            pair(final(self).b, final(self).c) == value,
    {
        self.b = (value / 256) as u8;
        self.c = (value % 256) as u8;
    }

    pub fn set_de(&mut self, value: u16)
        ensures
            *final(self) == (Registers { d: (value / 256) as u8, e: (value % 256) as u8, ..*old(self) }),
            pair(final(self).d, final(self).e) == value,
    {
        self.d = (value / 256) as u8;
        self.e = (value % 256) as u8;
    }

    pub fn set_hl(&mut self, value: u16)
        ensures
            *final(self) == (Registers { h: (value / 256) as u8, l: (value % 256) as u8, ..*old(self) }),
            pair(final(self).h, final(self).l) == value,
    {
        self.h = (value / 256) as u8;
        self.l = (value % 256) as u8;
    }

    pub fn get_flag_z(&self) -> (r: bool)
        ensures
            r == z_of(self.f),
    {
        self.f & 0x80 != 0
    }

    pub fn get_flag_n(&self) -> (r: bool)
        ensures
            r == n_of(self.f),
    {
        self.f & 0x40 != 0
    }

    pub fn get_flag_h(&self) -> (r: bool)
        ensures
            r == h_of(self.f),
    {
        self.f & 0x20 != 0
    }

    pub fn get_flag_c(&self) -> (r: bool)
        ensures
            r == c_of(self.f),
    {
        self.f & 0x10 != 0
    }

    /// Sets or clears Z; the other flags, the low nibble and the other registers stay.
    pub fn set_flag_z(&mut self, value: bool)
        ensures
            *final(self) == (Registers { f: final(self).f, ..*old(self) }),
            z_of(final(self).f) == value,
            n_of(final(self).f) == n_of(old(self).f),
            h_of(final(self).f) == h_of(old(self).f),
            c_of(final(self).f) == c_of(old(self).f),
            final(self).f & 0x0F == old(self).f & 0x0F,
    {
        proof {
            lemma_flag_bits(self.f);
        }
        self.f = if value { self.f | 0x80 } else { self.f & !0x80u8 };
    }

    /// Sets or clears N; the other flags, the low nibble and the other registers stay.
    pub fn set_flag_n(&mut self, value: bool)
        ensures
            *final(self) == (Registers { f: final(self).f, ..*old(self) }),
            n_of(final(self).f) == value,
            z_of(final(self).f) == z_of(old(self).f),
            h_of(final(self).f) == h_of(old(self).f),
            c_of(final(self).f) == c_of(old(self).f),
            final(self).f & 0x0F == old(self).f & 0x0F,
    {
        proof {
            lemma_flag_bits(self.f);
        }
        self.f = if value { self.f | 0x40 } else { self.f & !0x40u8 };
    }

    /// Sets or clears H; the other flags, the low nibble and the other registers stay.
    pub fn set_flag_h(&mut self, value: bool)
        ensures
            *final(self) == (Registers { f: final(self).f, ..*old(self) }),
            h_of(final(self).f) == value,
            z_of(final(self).f) == z_of(old(self).f),
            n_of(final(self).f) == n_of(old(self).f),
            c_of(final(self).f) == c_of(old(self).f),
            final(self).f & 0x0F == old(self).f & 0x0F,
    {
        proof {
            lemma_flag_bits(self.f);
        }
        self.f = if value { self.f | 0x20 } else { self.f & !0x20u8 };
    }

    /// Sets or clears C; the other flags, the low nibble and the other registers stay.
    pub fn set_flag_c(&mut self, value: bool)
        ensures
            *final(self) == (Registers { f: final(self).f, ..*old(self) }),
            c_of(final(self).f) == value,
            z_of(final(self).f) == z_of(old(self).f),
            n_of(final(self).f) == n_of(old(self).f),
            h_of(final(self).f) == h_of(old(self).f),
            final(self).f & 0x0F == old(self).f & 0x0F,
    {
        proof {
            lemma_flag_bits(self.f);
        }
        self.f = if value { self.f | 0x10 } else { self.f & !0x10u8 };
    }

    /// Sets all four flags at once; the low nibble and the other registers stay.
    pub fn set_flags(&mut self, z: bool, n: bool, h: bool, c: bool)
        ensures
            *final(self) == (Registers { f: final(self).f, ..*old(self) }),
            z_of(final(self).f) == z,
            n_of(final(self).f) == n,
            h_of(final(self).f) == h,
            c_of(final(self).f) == c,
            final(self).f & 0x0F == old(self).f & 0x0F,
    {
        self.set_flag_z(z);
        self.set_flag_n(n);
        self.set_flag_h(h);
        self.set_flag_c(c);
    }
}

} // verus!
