//! The 64 KiB memory bus: address decoding, MBC3 banking, echo RAM, OAM DMA,
//! the DIV reset and the joypad selector.
use vstd::prelude::*;

verus! {

/// Size of video RAM.
pub const VRAM_SIZE: usize = 0x2000;

/// Size of work RAM.
pub const WRAM_SIZE: usize = 0x2000;

/// Size of object attribute memory (40 sprites of 4 bytes).
pub const OAM_SIZE: usize = 0xA0;

/// Size of the I/O register page.
pub const IO_SIZE: usize = 0x80;

/// Size of high RAM.
pub const HRAM_SIZE: usize = 0x7F;

/// The byte at `i` of `s`, or 0xFF where `i` lies outside it.
pub open spec fn byte_or_ff(s: Seq<u8>, i: int) -> u8 {
    if 0 <= i < s.len() {
        s[i]
    } else {
        0xFF
    }
}

/// The state of the bus as plain values.
pub struct MemView {
    pub rom: Seq<u8>,
    pub rom_bank: usize,
    pub vram: Seq<u8>,
    pub extram: Seq<u8>,
    pub extram_bank: usize,
    pub wram: Seq<u8>,
    pub oam: Seq<u8>,
    pub io: Seq<u8>,
    pub hram: Seq<u8>,
    pub ie: u8,
    pub buttons: u8,
    pub dpad: u8,
}

impl MemView {
    /// Every region has its size and both bank numbers are in range.
    pub open spec fn wf(self) -> bool {
        &&& self.vram.len() == VRAM_SIZE
        &&& self.wram.len() == WRAM_SIZE
        &&& self.oam.len() == OAM_SIZE
        &&& self.io.len() == IO_SIZE
        &&& self.hram.len() == HRAM_SIZE
        &&& 1 <= self.rom_bank <= 127
        &&& self.extram_bank <= 3
    }

    /// What a read of JOYP (0xFF00) returns.
    pub open spec fn joypad(self) -> u8 {
        let select = self.io[0];
        if select & 0x10 == 0 {
            0xC0u8 | 0x10u8 | (self.dpad & 0x0F)
        } else if select & 0x20 == 0 {
            0xC0u8 | 0x20u8 | (self.buttons & 0x0F)
        } else {
            0xFF
        }
    }

    /// The byte that a read of `addr` returns.
    pub open spec fn read(self, addr: u16) -> u8 {
        if addr <= 0x3FFF {
            byte_or_ff(self.rom, addr as int)
        } else if addr <= 0x7FFF {
            byte_or_ff(self.rom, self.rom_bank * 0x4000 + (addr - 0x4000))
        } else if addr <= 0x9FFF {
            self.vram[addr - 0x8000]
        } else if addr <= 0xBFFF {
            byte_or_ff(self.extram, self.extram_bank * 0x2000 + (addr - 0xA000))
        } else if addr <= 0xDFFF {
            self.wram[addr - 0xC000]
        } else if addr <= 0xFDFF {
            self.wram[addr - 0xE000]
        } else if addr <= 0xFE9F {
            self.oam[addr - 0xFE00]
        } else if addr <= 0xFEFF {
            0xFF
        } else if addr == 0xFF00 {
            self.joypad()
        } else if addr <= 0xFF7F {
            self.io[addr - 0xFF00]
        } else if addr <= 0xFFFE {
            self.hram[addr - 0xFF80]
        } else {
            self.ie
        }
    }

    /// The OAM that a DMA from page `page` copies out of this state.
    pub open spec fn dma_source(self, page: u8) -> Seq<u8> {
        Seq::new(OAM_SIZE as nat, |i: int| self.read((page as int * 256 + i) as u16))
    }

    /// The state after a write of `val` to the I/O register at `addr`.
    pub open spec fn io_write(self, addr: u16, val: u8) -> MemView {
        let i = addr - 0xFF00;
        if addr == 0xFF46 {
            let kept = MemView { io: self.io.update(i, val), ..self };
            MemView { oam: kept.dma_source(val), ..kept }
        } else if addr == 0xFF04 {
            MemView { io: self.io.update(i, 0), ..self }
        } else if addr == 0xFF00 {
            MemView { io: self.io.update(i, val & 0x30), ..self }
        } else {
            MemView { io: self.io.update(i, val), ..self }
        }
    }

    /// The state after a write of `val` to `addr`.
    pub open spec fn write(self, addr: u16, val: u8) -> MemView {
        if 0x2000 <= addr <= 0x3FFF {
            let bank = val & 0x7F;
            MemView { rom_bank: if bank == 0 { 1 } else { bank as usize }, ..self }
        } else if 0x4000 <= addr <= 0x5FFF {
            if val <= 3 {
                MemView { extram_bank: val as usize, ..self }
            } else {
                self
            }
        } else if addr <= 0x7FFF {
            self
        } else if addr <= 0x9FFF {
            MemView { vram: self.vram.update(addr - 0x8000, val), ..self }
        } else if addr <= 0xBFFF {
            let offset = self.extram_bank * 0x2000 + (addr - 0xA000);
            if offset < self.extram.len() {
                MemView { extram: self.extram.update(offset, val), ..self }
            } else {
                self
            }
        } else if addr <= 0xDFFF {
            MemView { wram: self.wram.update(addr - 0xC000, val), ..self }
        } else if addr <= 0xFDFF {
            MemView { wram: self.wram.update(addr - 0xE000, val), ..self }
        } else if addr <= 0xFE9F {
            MemView { oam: self.oam.update(addr - 0xFE00, val), ..self }
        } else if addr <= 0xFEFF {
            self
        } else if addr <= 0xFF7F {
            self.io_write(addr, val)
        } else if addr <= 0xFFFE {
            MemView { hram: self.hram.update(addr - 0xFF80, val), ..self }
        } else {
            MemView { ie: val, ..self }
        }
    }

    /// The bus right after power-on, with the boot values of LCDC and BGP.
    pub open spec fn boot(rom: Seq<u8>, extram: Seq<u8>) -> MemView {
        MemView {
            rom,
            rom_bank: 1,
            vram: Seq::new(VRAM_SIZE as nat, |i: int| 0u8),
            extram,
            extram_bank: 0,
            wram: Seq::new(WRAM_SIZE as nat, |i: int| 0u8),
            oam: Seq::new(OAM_SIZE as nat, |i: int| 0u8),
            io: Seq::new(IO_SIZE as nat, |i: int| 0u8).update(0x40, 0x91).update(0x47, 0xFC),
            hram: Seq::new(HRAM_SIZE as nat, |i: int| 0u8),
            ie: 0,
            buttons: 0x0F,
            dpad: 0x0F,
        }
    }
}

/// The memory bus. `buttons` (Start, Select, B, A) and `dpad` (Down, Up,
/// Left, Right) are active-low nibbles that the host fills in.
pub struct Mmu {
    pub rom: Vec<u8>,
    pub rom_bank: usize,
    pub vram: Vec<u8>,
    pub extram: Vec<u8>,
    pub extram_bank: usize,
    pub wram: Vec<u8>,
    pub oam: Vec<u8>,
    pub io: Vec<u8>,
    pub hram: Vec<u8>,
    pub ie: u8,
    pub buttons: u8,
    pub dpad: u8,
}

impl View for Mmu {
    type V = MemView;

    open spec fn view(&self) -> MemView {
        MemView {
            rom: self.rom@,
            rom_bank: self.rom_bank,
            vram: self.vram@,
            extram: self.extram@,
            extram_bank: self.extram_bank,
            wram: self.wram@,
            oam: self.oam@,
            io: self.io@,
            hram: self.hram@,
            ie: self.ie,
            buttons: self.buttons,
            dpad: self.dpad,
        }
    }
}

impl Mmu {
    /// Well-formed: every region has its size and the banks are in range.
    pub open spec fn wf(&self) -> bool {
        self@.wf()
    }

    /// A bus over `rom` and `extram` in its post-boot state.
    pub fn new(rom: Vec<u8>, extram: Vec<u8>) -> (r: Self)
        ensures
            r.wf(),
            r@ == MemView::boot(rom@, extram@),
    {
        let mut io = vec![0u8; IO_SIZE];
        io.set(0x40, 0x91);
        io.set(0x47, 0xFC);
        let r = Mmu {
            rom,
            rom_bank: 1,
            vram: vec![0u8; VRAM_SIZE],
            extram,
            extram_bank: 0,
            wram: vec![0u8; WRAM_SIZE],
            oam: vec![0u8; OAM_SIZE],
            io,
            hram: vec![0u8; HRAM_SIZE],
            ie: 0,
            buttons: 0x0F,
            dpad: 0x0F,
        };
        let ghost boot = MemView::boot(rom@, extram@);
        assert(r.vram@ =~= boot.vram);
        assert(r.wram@ =~= boot.wram);
        assert(r.oam@ =~= boot.oam);
        assert(r.io@ =~= boot.io);
        assert(r.hram@ =~= boot.hram);
        r
    }

    fn byte_at(v: &Vec<u8>, i: usize) -> (r: u8)
        ensures
            r == byte_or_ff(v@, i as int),
    {
        if i < v.len() {
            v[i]
        } else {
            0xFF
        }
    }

    pub fn read(&self, addr: u16) -> (r: u8)
        requires
            self.wf(),
        ensures
            r == self@.read(addr),
    {
        if addr <= 0x3FFF {
            Self::byte_at(&self.rom, addr as usize)
        } else if addr <= 0x7FFF {
            Self::byte_at(&self.rom, self.rom_bank * 0x4000 + (addr as usize - 0x4000))
        } else if addr <= 0x9FFF {
            self.vram[addr as usize - 0x8000]
        } else if addr <= 0xBFFF {
            Self::byte_at(&self.extram, self.extram_bank * 0x2000 + (addr as usize - 0xA000))
        } else if addr <= 0xDFFF {
            self.wram[addr as usize - 0xC000]
        } else if addr <= 0xFDFF {
            self.wram[addr as usize - 0xE000]
        } else if addr <= 0xFE9F {
            self.oam[addr as usize - 0xFE00]
        } else if addr <= 0xFEFF {
            0xFF
        } else if addr == 0xFF00 {
            let select = self.io[0];
            if select & 0x10 == 0 {
                0xC0u8 | 0x10u8 | (self.dpad & 0x0F)
            } else if select & 0x20 == 0 {
                0xC0u8 | 0x20u8 | (self.buttons & 0x0F)
            } else {
                0xFF
            }
        } else if addr <= 0xFF7F {
            self.io_read(addr)
        } else if addr <= 0xFFFE {
            self.hram[addr as usize - 0xFF80]
        } else {
            self.ie
        }
    }

    fn io_read(&self, addr: u16) -> (r: u8)
        requires
            self.wf(),
            0xFF00 <= addr <= 0xFF7F,
        ensures
            r == self@.io[addr - 0xFF00],
    {
        self.io[addr as usize - 0xFF00]
    }

    pub fn write(&mut self, addr: u16, val: u8)
        requires
            old(self).wf(),
        ensures
            final(self).wf(),
            final(self)@ == old(self)@.write(addr, val),
    {
        if 0x2000 <= addr && addr <= 0x3FFF {
            let bank = val & 0x7F;
            assert(val & 0x7F <= 0x7F) by (bit_vector);
            self.rom_bank = if bank == 0 { 1 } else { bank as usize };
        } else if 0x4000 <= addr && addr <= 0x5FFF {
            if val <= 3 {
                self.extram_bank = val as usize;
            }
        } else if addr <= 0x7FFF {
        } else if addr <= 0x9FFF {
            self.vram.set(addr as usize - 0x8000, val);
        } else if addr <= 0xBFFF {
            let offset = self.extram_bank * 0x2000 + (addr as usize - 0xA000);
            if offset < self.extram.len() {
                self.extram.set(offset, val);
            }
        } else if addr <= 0xDFFF {
            self.wram.set(addr as usize - 0xC000, val);
        } else if addr <= 0xFDFF {
            self.wram.set(addr as usize - 0xE000, val);
        } else if addr <= 0xFE9F {
            self.oam.set(addr as usize - 0xFE00, val);
        } else if addr <= 0xFEFF {
        } else if addr <= 0xFF7F {
            self.io_write(addr, val);
        } else if addr <= 0xFFFE {
            self.hram.set(addr as usize - 0xFF80, val);
        } else {
            self.ie = val;
        }
        assert(self@ =~= old(self)@.write(addr, val));
    }

    fn io_write(&mut self, addr: u16, val: u8)
        requires
            old(self).wf(),
            0xFF00 <= addr <= 0xFF7F,
        ensures
            final(self).wf(),
            final(self)@ == old(self)@.io_write(addr, val),
    {
        let i = addr as usize - 0xFF00;
        if addr == 0xFF46 {
            self.io.set(i, val);
            let ghost kept = self@;
            let src: u16 = (val as u16) * 256;
            let mut j: u16 = 0;
            while j < OAM_SIZE as u16
                invariant
                    self.wf(),
                    kept.wf(),
                    j <= OAM_SIZE,
                    src == val as int * 256,
                    self@ == (MemView { oam: self@.oam, ..kept }),
                    forall|k: int| 0 <= k < j ==> self@.oam[k] == kept.read((src + k) as u16),
                    forall|k: int| j <= k < OAM_SIZE ==> self@.oam[k] == kept.oam[k],
                decreases OAM_SIZE - j,
            {
                let b = self.read(src + j);
                assert(b == kept.read((src + j) as u16));
                self.oam.set(j as usize, b);
                j = j + 1;
            }
            assert(self@.oam =~= kept.dma_source(val));
        } else if addr == 0xFF04 {
            self.io.set(i, 0);
        } else if addr == 0xFF00 {
            self.io.set(i, val & 0x30);
        } else {
            self.io.set(i, val);
        }
        assert(self@ =~= old(self)@.io_write(addr, val));
    }
}

/// Echo RAM: every address in 0xE000..=0xFDFF reads and writes the work RAM
/// byte 0x2000 below it.
pub proof fn lemma_echo_aliases(m: MemView, addr: u16, val: u8)
    requires
        m.wf(),
        0xE000 <= addr <= 0xFDFF,
    ensures
        m.read(addr) == m.read((addr - 0x2000) as u16),
        m.write(addr, val) == m.write((addr - 0x2000) as u16, val),
{
}

/// After any write to DIV (0xFF04), a read of DIV returns 0.
pub proof fn lemma_div_write_resets(m: MemView, val: u8)
    requires
        m.wf(),
    ensures
        m.write(0xFF04, val).read(0xFF04) == 0,
{
}

/// After a write of `page` to DMA (0xFF46), each OAM byte `i` equals what a
/// read of `page * 0x100 + i` returns.
pub proof fn lemma_dma_copies_page(m: MemView, page: u8)
    requires
        m.wf(),
    ensures
        m.write(0xFF46, page).wf(),
        forall|i: int|
            0 <= i < OAM_SIZE ==> #[trigger] m.write(0xFF46, page).oam[i] == m.write(
                0xFF46,
                page,
            ).read((page as int * 256 + i) as u16),
{
    let after = m.write(0xFF46, page);
    let kept = MemView { io: m.io.update(0x46, page), ..m };
    assert(after == (MemView { oam: kept.dma_source(page), ..kept }));
    assert forall|i: int| 0 <= i < OAM_SIZE implies #[trigger] after.oam[i] == after.read(
        (page as int * 256 + i) as u16,
    ) by {
        let a = (page as int * 256 + i) as u16;
        assert(a == page as int * 256 + i);
        if 0xFE00 <= a <= 0xFE9F {
            assert(page == 0xFE);
            assert(a - 0xFE00 == i);
        }
    }
}

} // verus!
