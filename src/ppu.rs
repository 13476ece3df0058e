//! The pixel processor: LY and dot counting, the V-Blank request, and the
//! background, window and sprite compositor of one scanline.
use vstd::prelude::*;
use crate::mmu::{MemView, Mmu};

verus! {

/// Visible width in pixels.
pub const SCREEN_W: usize = 160;

/// Visible height in pixels.
pub const SCREEN_H: usize = 144;

/// Dots in one scanline.
pub const DOTS_PER_LINE: u32 = 456;

/// The 2-bit colour number of pixel `bit` of a tile row given by its two bytes.
pub open spec fn color_id(lo: u8, hi: u8, bit: u8) -> u8 {
    ((hi >> bit) & 1) << 1u8 | ((lo >> bit) & 1)
}

/// The shade (0..=3) that palette `palette` gives colour number `id`.
pub open spec fn palette_shade(palette: u8, id: u8) -> u8 {
    (palette >> (id * 2) as u8) & 0x03
}

/// The tile map that the background (LCDC bit 3) or window (LCDC bit 6) uses.
pub open spec fn map_base(lcdc: u8, is_window: bool) -> u16 {
    if is_window {
        if lcdc & 0x40 != 0 { 0x9C00 } else { 0x9800 }
    } else {
        if lcdc & 0x08 != 0 { 0x9C00 } else { 0x9800 }
    }
}

/// Address of tile `idx`: unsigned from 0x8000 (LCDC bit 4) or signed around 0x9000.
pub open spec fn tile_addr(lcdc: u8, idx: u8) -> int {
    if lcdc & 0x10 != 0 {
        0x8000 + idx * 16
    } else if idx < 128 {
        0x9000 + idx * 16
    } else {
        0x9000 + (idx - 256) * 16
    }
}

/// The shade of the pixel at (`px`, `py`) of the tile map at `base`.
pub open spec fn map_pixel(m: MemView, lcdc: u8, base: u16, px: int, py: int, palette: u8) -> u8 {
    let idx = m.read((base + (py / 8) * 32 + px / 8) as u16);
    let row = tile_addr(lcdc, idx) + (py % 8) * 2;
    let bit = (7 - px % 8) as u8;
    palette_shade(palette, color_id(m.read(row as u16), m.read((row + 1) as u16), bit))
}

/// The background shades of scanline `ly`.
pub open spec fn bg_row(m: MemView, ly: u8) -> Seq<u8> {
    let lcdc = m.io[0x40];
    Seq::new(
        SCREEN_W as nat,
        |x: int|
            map_pixel(
                m,
                lcdc,
                map_base(lcdc, false),
                (x as u8).wrapping_add(m.io[0x43]) as int,
                ly.wrapping_add(m.io[0x42]) as int,
                m.io[0x47],
            ),
    )
}

/// Whether the window covers column `x` of scanline `ly`.
pub open spec fn window_covers(m: MemView, ly: u8, x: int) -> bool {
    m.io[0x40] & 0x20 != 0 && ly >= m.io[0x4A] && x >= m.io[0x4B] - 7
}

/// `row` with the window drawn over it.
pub open spec fn window_row(m: MemView, ly: u8, row: Seq<u8>) -> Seq<u8> {
    let lcdc = m.io[0x40];
    Seq::new(
        SCREEN_W as nat,
        |x: int|
            if window_covers(m, ly, x) {
                map_pixel(
                    m,
                    lcdc,
                    map_base(lcdc, true),
                    x - (m.io[0x4B] - 7),
                    ly - m.io[0x4A],
                    m.io[0x47],
                )
            } else {
                row[x]
            },
    )
}

/// Whether OAM entry `i` lies on scanline `ly` (8-pixel-high sprites).
pub open spec fn on_line(m: MemView, ly: u8, i: int) -> bool {
    let top = m.oam[4 * i] - 16;
    top <= ly < top + 8
}

/// The shade at column `x` after sprite `i` is drawn over shade `old`.
pub open spec fn sprite_pixel(m: MemView, ly: u8, i: int, x: int, old: u8) -> u8 {
    let top = m.oam[4 * i] - 16;
    let left = m.oam[4 * i + 1] - 8;
    let tile = m.oam[4 * i + 2];
    let attrs = m.oam[4 * i + 3];
    let col = x - left;
    if !(0 <= col < 8) {
        old
    } else {
        let line = if attrs & 0x40 != 0 { 7 - (ly - top) } else { ly - top };
        let addr = 0x8000 + tile * 16 + line * 2;
        let bit = (if attrs & 0x20 != 0 { col } else { 7 - col }) as u8;
        let id = color_id(m.read(addr as u16), m.read((addr + 1) as u16), bit);
        let palette = if attrs & 0x10 != 0 { m.io[0x49] } else { m.io[0x48] };
        if id == 0 || (attrs & 0x80 != 0 && old != 0) {
            old
        } else {
            palette_shade(palette, id)
        }
    }
}

/// `row` with sprite `i` drawn over it.
pub open spec fn draw_sprite(m: MemView, ly: u8, i: int, row: Seq<u8>) -> Seq<u8> {
    Seq::new(SCREEN_W as nat, |x: int| sprite_pixel(m, ly, i, x, row[x]))
}

/// `row` after the first `n` OAM entries are considered, with the number of
/// sprites drawn: at most ten, the first ones on the line.
pub open spec fn sprites_upto(m: MemView, ly: u8, row: Seq<u8>, n: nat) -> (Seq<u8>, nat)
    decreases n,
{
    if n == 0 {
        (row, 0)
    } else {
        let (r, count) = sprites_upto(m, ly, row, (n - 1) as nat);
        if on_line(m, ly, n - 1) && count < 10 {
            (draw_sprite(m, ly, n - 1, r), count + 1)
        } else {
            (r, count)
        }
    }
}

/// The shades of scanline `ly`: background, then window, then sprites (LCDC bit 1).
pub open spec fn line_shades(m: MemView, ly: u8) -> Seq<u8> {
    let row = window_row(m, ly, bg_row(m, ly));
    if m.io[0x40] & 0x02 != 0 {
        sprites_upto(m, ly, row, 40).0
    } else {
        row
    }
}

/// Scanline `ly` of framebuffer `fb`.
pub open spec fn row_of(fb: Seq<u8>, ly: u8) -> Seq<u8> {
    fb.subrange(ly * 160, ly * 160 + 160)
}

/// `fb` with scanline `ly` replaced by `row`.
pub open spec fn with_row(fb: Seq<u8>, ly: u8, row: Seq<u8>) -> Seq<u8> {
    Seq::new(fb.len(), |i: int| if ly * 160 <= i < ly * 160 + 160 { row[i - ly * 160] } else { fb[i] })
}

/// One scanline boundary: render the line if visible, advance LY (wrapping
/// after 153), request V-Blank on reaching 144, publish LY at 0xFF44.
pub open spec fn line_step(fb: Seq<u8>, ly: u8, m: MemView) -> (Seq<u8>, u8, MemView) {
    let fb1 = if ly < 144 { with_row(fb, ly, line_shades(m, ly)) } else { fb };
    let m1 = if ly + 1 == 144 { MemView { io: m.io.update(0x0F, m.io[0x0F] | 1), ..m } } else { m };
    let ly1: u8 = if ly + 1 > 153 { 0 } else { (ly + 1) as u8 };
    (fb1, ly1, MemView { io: m1.io.update(0x44, ly1), ..m1 })
}

/// `n` scanline boundaries in a row.
pub open spec fn run_lines(fb: Seq<u8>, ly: u8, m: MemView, n: nat) -> (Seq<u8>, u8, MemView)
    decreases n,
{
    if n == 0 {
        (fb, ly, m)
    } else {
        let (fb1, ly1, m1) = run_lines(fb, ly, m, (n - 1) as nat);
        line_step(fb1, ly1, m1)
    }
}

/// The pixel processor. `framebuffer` holds one shade (0..=3) per pixel, row by row.
pub struct Ppu {
    pub framebuffer: Vec<u8>,
    pub dot: u32,
    pub ly: u8,
}

/// Where the dot counter, LY, the framebuffer and the bus stand after `tick(cycles)`:
/// LY is first published at 0xFF44; with the LCD off (LCDC bit 7) LY and the
/// dot counter go back to 0; else one `line_step` per 456 dots.
pub open spec fn tick_spec(fb: Seq<u8>, ly: u8, dot: u32, m: MemView, cycles: u32) -> (Seq<u8>, u8, u32, MemView) {
    let m0 = MemView { io: m.io.update(0x44, ly), ..m };
    if m0.io[0x40] & 0x80 == 0 {
        (fb, 0, 0, m0)
    } else {
        let total = dot + cycles;
        let (fb1, ly1, m1) = run_lines(fb, ly, m0, (total / 456) as nat);
        (fb1, ly1, (total % 456) as u32, m1)
    }
}

/// The number of scanline boundaries after which LY first equals 144, from `ly`.
pub open spec fn vblank_at(ly: u8) -> nat {
    if ly < 144 {
        (144 - ly) as nat
    } else {
        (298 - ly) as nat
    }
}

proof fn lemma_sprites_len(m: MemView, ly: u8, row: Seq<u8>, n: nat)
    requires
        row.len() == SCREEN_W,
    ensures
        sprites_upto(m, ly, row, n).0.len() == SCREEN_W,
        sprites_upto(m, ly, row, n).1 <= n,
        sprites_upto(m, ly, row, n).1 <= 10,
    decreases n,
{
    if n > 0 {
        lemma_sprites_len(m, ly, row, (n - 1) as nat);
    }
}

/// After `n` scanline boundaries from `ly` (in 0..=153), LY is `(ly + n) % 154`.
proof fn lemma_ly_after(fb: Seq<u8>, ly: u8, m: MemView, n: nat)
    requires
        ly <= 153,
        m.io.len() == 0x80,
    ensures
        run_lines(fb, ly, m, n).1 == (ly + n) % 154,
        run_lines(fb, ly, m, n).2.io.len() == 0x80,
    decreases n,
{
    if n > 0 {
        lemma_ly_after(fb, ly, m, (n - 1) as nat);
    }
}

/// Over any 154 consecutive scanline boundaries, which is what a frame of
/// 70224 cycles crosses, LY stays in 0..=153 and equals 144 exactly once, at
/// the boundary where V-Blank (IF bit 0) is requested.
pub proof fn lemma_vblank_once_per_frame(fb: Seq<u8>, ly: u8, m: MemView)
    requires
        ly <= 153,
        m.wf(),
    ensures
        forall|k: nat| #[trigger] run_lines(fb, ly, m, k).1 <= 153,
        1 <= vblank_at(ly) <= 154,
        forall|k: nat|
            1 <= k <= 154 ==> (#[trigger] run_lines(fb, ly, m, k).1 == 144 <==> k == vblank_at(ly)),
        run_lines(fb, ly, m, vblank_at(ly)).2.io[0x0F] & 1 == 1,
{
    assert forall|k: nat| #[trigger] run_lines(fb, ly, m, k).1 <= 153 by {
        lemma_ly_after(fb, ly, m, k);
    }
    assert forall|k: nat| 1 <= k <= 154 implies (#[trigger] run_lines(fb, ly, m, k).1 == 144 <==> k
        == vblank_at(ly)) by {
        lemma_ly_after(fb, ly, m, k);
    }
    let k0 = vblank_at(ly);
    lemma_ly_after(fb, ly, m, (k0 - 1) as nat);
    let prev = run_lines(fb, ly, m, (k0 - 1) as nat);
    assert(prev.1 == 143);
    let x = prev.2.io[0x0F];
    assert((x | 1) & 1 == 1) by (bit_vector);
}

/// A frame of 70224 cycles crosses exactly 154 scanline boundaries, wherever
/// the dot counter stood.
pub proof fn lemma_frame_is_154_lines(dot: u32)
    requires
        dot < DOTS_PER_LINE,
    ensures
        (dot + 70224) / 456 == 154,
{
}

proof fn lemma_color_id(lo: u8, hi: u8, bit: u8)
    by (bit_vector)
    ensures
        color_id(lo, hi, bit) <= 3,
{
}

proof fn lemma_rows(fb: Seq<u8>, ly: u8, r1: Seq<u8>, r2: Seq<u8>)
    requires
        fb.len() == SCREEN_W * SCREEN_H,
        ly < 144,
        r1.len() == SCREEN_W,
    ensures
        with_row(with_row(fb, ly, r1), ly, r2) == with_row(fb, ly, r2),
        row_of(with_row(fb, ly, r1), ly) == r1,
        with_row(fb, ly, row_of(fb, ly)) == fb,
{
    assert(with_row(with_row(fb, ly, r1), ly, r2) =~= with_row(fb, ly, r2));
    assert(row_of(with_row(fb, ly, r1), ly) =~= r1);
    assert(with_row(fb, ly, row_of(fb, ly)) =~= fb);
}

impl Ppu {
    /// Framebuffer of 160 x 144 shades, dot within a line, LY in 0..=153.
    pub open spec fn wf(&self) -> bool {
        &&& self.framebuffer.len() == SCREEN_W * SCREEN_H
        &&& self.dot < DOTS_PER_LINE
        &&& self.ly <= 153
    }

    /// A blank (shade 0) screen at the top of a frame.
    pub fn new() -> (r: Self)
        ensures
            r.wf(),
            r.dot == 0 && r.ly == 0,
            forall|i: int| 0 <= i < r.framebuffer.len() ==> r.framebuffer@[i] == 0,
    {
        Ppu { framebuffer: vec![0u8; SCREEN_W * SCREEN_H], dot: 0, ly: 0 }
    }

    /// The grey level (0xFF lightest .. 0x00 darkest) of shade `color`.
    pub fn shade(color: u8) -> (r: u8)
        ensures
            r == (if color == 0 { 0xFFu8 } else if color == 1 { 0xAAu8 } else if color == 2 { 0x55u8 } else { 0x00u8 }),
    {
        if color == 0 {
            0xFF
        } else if color == 1 {
            0xAA
        } else if color == 2 {
            0x55
        } else {
            0x00
        }
    }

    fn color_of(lo: u8, hi: u8, bit: u8) -> (r: u8)
        requires
            bit < 8,
        ensures
            r == color_id(lo, hi, bit),
            r <= 3,
    {
        proof {
            lemma_color_id(lo, hi, bit);
        }
        ((hi >> bit) & 1) << 1u8 | ((lo >> bit) & 1)
    }

    fn set_pixel(&mut self, x: usize, y: usize, color: u8)
        requires
            old(self).framebuffer.len() == SCREEN_W * SCREEN_H,
            x < SCREEN_W,
            y < SCREEN_H,
        ensures
            final(self).framebuffer@ == old(self).framebuffer@.update(y * 160 + x, color),
            final(self).dot == old(self).dot,
            final(self).ly == old(self).ly,
    {
        self.framebuffer.set(y * SCREEN_W + x, color);
    }

    fn get_bg_pixel(mmu: &Mmu, lcdc: u8, px: u16, py: u16, palette: u8, is_window: bool) -> (r: u8)
        requires
            mmu.wf(),
            px < 256,
            py < 256,
        ensures
            r == map_pixel(mmu@, lcdc, map_base(lcdc, is_window), px as int, py as int, palette),
    {
        let base: u16 = if is_window {
            if lcdc & 0x40 != 0 { 0x9C00 } else { 0x9800 }
        } else {
            if lcdc & 0x08 != 0 { 0x9C00 } else { 0x9800 }
        };
        let idx = mmu.read(base + (py / 8) * 32 + px / 8);
        let tile: u16 = if lcdc & 0x10 != 0 {
            0x8000 + idx as u16 * 16
        } else if idx < 128 {
            0x9000 + idx as u16 * 16
        } else {
            0x9000 - (256 - idx as u16) * 16
        };
        let row = tile + (py % 8) * 2;
        let lo = mmu.read(row);
        let hi = mmu.read(row + 1);
        let bit = (7 - px % 8) as u8;
        let id = Self::color_of(lo, hi, bit);
        (palette >> (id * 2)) & 0x03
    }

    fn render_background(&mut self, mmu: &Mmu)
        requires
            old(self).wf(),
            old(self).ly < 144,
            mmu.wf(),
        ensures
            final(self).wf(),
            final(self).ly == old(self).ly,
            final(self).dot == old(self).dot,
            final(self).framebuffer@ == with_row(old(self).framebuffer@, old(self).ly, bg_row(mmu@, old(self).ly)),
    {
        let lcdc = mmu.io[0x40];
        let scx = mmu.io[0x43];
        let scy = mmu.io[0x42];
        let bgp = mmu.io[0x47];
        let ghost fb0 = self.framebuffer@;
        let ghost row0 = row_of(fb0, self.ly);
        let ghost target = bg_row(mmu@, self.ly);
        proof {
            lemma_rows(fb0, self.ly, row0, row0);
        }
        let mut x: u8 = 0;
        while x < 160
            invariant
                self.wf(),
                self.ly < 144,
                self.ly == old(self).ly,
                self.dot == old(self).dot,
                mmu.wf(),
                x <= 160,
                fb0 == old(self).framebuffer@,
                lcdc == mmu@.io[0x40] && scx == mmu@.io[0x43] && scy == mmu@.io[0x42] && bgp == mmu@.io[0x47],
                target == bg_row(mmu@, self.ly),
                self.framebuffer@ == with_row(
                    fb0,
                    self.ly,
                    Seq::new(160, |i: int| if i < x { target[i] } else { row0[i] }),
                ),
            decreases 160 - x,
        {
            let px = x.wrapping_add(scx) as u16;
            let py = self.ly.wrapping_add(scy) as u16;
            let color = Self::get_bg_pixel(mmu, lcdc, px, py, bgp, false);
            let ghost before = self.framebuffer@;
            self.set_pixel(x as usize, self.ly as usize, color);
            assert(self.framebuffer@ =~= with_row(
                fb0,
                self.ly,
                Seq::new(160, |i: int| if i < x + 1 { target[i] } else { row0[i] }),
            ));
            x = x + 1;
        }
        assert(Seq::new(160, |i: int| if i < x { target[i] } else { row0[i] }) =~= target);
    }

    fn render_window(&mut self, mmu: &Mmu)
        requires
            old(self).wf(),
            old(self).ly < 144,
            mmu.wf(),
        ensures
            final(self).wf(),
            final(self).ly == old(self).ly,
            final(self).dot == old(self).dot,
            final(self).framebuffer@ == with_row(
                old(self).framebuffer@,
                old(self).ly,
                window_row(mmu@, old(self).ly, row_of(old(self).framebuffer@, old(self).ly)),
            ),
    {
        let ghost fb0 = self.framebuffer@;
        let ghost row0 = row_of(fb0, self.ly);
        let ghost target = window_row(mmu@, self.ly, row0);
        proof {
            lemma_rows(fb0, self.ly, row0, row0);
        }
        let lcdc = mmu.io[0x40];
        let wy = mmu.io[0x4A];
        if lcdc & 0x20 == 0 || self.ly < wy {
            assert(target =~= row0);
            return;
        }
        let wx = mmu.io[0x4B] as i32 - 7;
        let bgp = mmu.io[0x47];
        let mut x: u8 = 0;
        while x < 160
            invariant
                self.wf(),
                self.ly < 144,
                self.ly == old(self).ly,
                self.dot == old(self).dot,
                mmu.wf(),
                x <= 160,
                fb0 == old(self).framebuffer@,
                row0 == row_of(fb0, self.ly),
                lcdc == mmu@.io[0x40] && bgp == mmu@.io[0x47] && wy == mmu@.io[0x4A],
                wx == mmu@.io[0x4B] - 7,
                lcdc & 0x20 != 0 && self.ly >= wy,
                target == window_row(mmu@, self.ly, row0),
                self.framebuffer@ == with_row(
                    fb0,
                    self.ly,
                    Seq::new(160, |i: int| if i < x { target[i] } else { row0[i] }),
                ),
            decreases 160 - x,
        {
            if x as i32 >= wx {
                let px = (x as i32 - wx) as u16;
                let py = (self.ly - wy) as u16;
                let color = Self::get_bg_pixel(mmu, lcdc, px, py, bgp, true);
                self.set_pixel(x as usize, self.ly as usize, color);
            }
            assert(self.framebuffer@ =~= with_row(
                fb0,
                self.ly,
                Seq::new(160, |i: int| if i < x + 1 { target[i] } else { row0[i] }),
            ));
            x = x + 1;
        }
        assert(Seq::new(160, |i: int| if i < x { target[i] } else { row0[i] }) =~= target);
    }

    fn draw_one_sprite(&mut self, mmu: &Mmu, i: usize)
        requires
            old(self).wf(),
            old(self).ly < 144,
            mmu.wf(),
            i < 40,
            on_line(mmu@, old(self).ly, i as int),
        ensures
            final(self).wf(),
            final(self).ly == old(self).ly,
            final(self).dot == old(self).dot,
            final(self).framebuffer@ == with_row(
                old(self).framebuffer@,
                old(self).ly,
                draw_sprite(mmu@, old(self).ly, i as int, row_of(old(self).framebuffer@, old(self).ly)),
            ),
    {
        let ghost m = mmu@;
        let ghost fb0 = self.framebuffer@;
        let ghost row0 = row_of(fb0, self.ly);
        let ghost target = draw_sprite(m, self.ly, i as int, row0);
        proof {
            lemma_rows(fb0, self.ly, row0, row0);
        }
        let top = mmu.oam[4 * i] as i32 - 16;
        let left = mmu.oam[4 * i + 1] as i32 - 8;
        let tile = mmu.oam[4 * i + 2];
        let attrs = mmu.oam[4 * i + 3];
        let palette = if attrs & 0x10 != 0 { mmu.io[0x49] } else { mmu.io[0x48] };
        let mut line = (self.ly as i32 - top) as u16;
        if attrs & 0x40 != 0 {
            line = 7 - line;
        }
        let addr = 0x8000u16 + tile as u16 * 16 + line * 2;
        let lo = mmu.read(addr);
        let hi = mmu.read(addr + 1);
        let ly = self.ly as usize;
        let mut px: i32 = 0;
        while px < 8
            invariant
                self.wf(),
                self.ly < 144,
                self.ly == old(self).ly,
                self.dot == old(self).dot,
                ly == self.ly,
                mmu.wf(),
                mmu@ == m,
                0 <= px <= 8,
                i < 40,
                fb0 == old(self).framebuffer@,
                row0 == row_of(fb0, self.ly),
                left == m.oam[4 * i + 1] - 8,
                attrs == m.oam[4 * i + 3],
                palette == (if attrs & 0x10 != 0 { m.io[0x49] } else { m.io[0x48] }),
                lo == m.read(addr) && hi == m.read((addr + 1) as u16),
                addr == 0x8000 + m.oam[4 * i + 2] * 16 + (if attrs & 0x40 != 0 { 7 - (self.ly - (m.oam[4 * i] - 16)) } else { self.ly - (m.oam[4 * i] - 16) }) * 2,
                target == draw_sprite(m, self.ly, i as int, row0),
                self.framebuffer@ == with_row(
                    fb0,
                    self.ly,
                    Seq::new(160, |x: int| if x < left + px { target[x] } else { row0[x] }),
                ),
            decreases 8 - px,
        {
            let sx = left + px;
            if 0 <= sx && sx < 160 {
                let bit = (if attrs & 0x20 != 0 { px } else { 7 - px }) as u8;
                let id = Self::color_of(lo, hi, bit);
                if id != 0 {
                    let old = self.framebuffer[ly * SCREEN_W + sx as usize];
                    if !(attrs & 0x80 != 0 && old != 0) {
                        self.set_pixel(sx as usize, ly, (palette >> (id * 2)) & 0x03);
                    }
                }
            }
            assert(self.framebuffer@ =~= with_row(
                fb0,
                self.ly,
                Seq::new(160, |x: int| if x < left + px + 1 { target[x] } else { row0[x] }),
            ));
            px = px + 1;
        }
        assert(Seq::new(160, |x: int| if x < left + px { target[x] } else { row0[x] }) =~= target);
    }

    fn render_sprites(&mut self, mmu: &Mmu)
        requires
            old(self).wf(),
            old(self).ly < 144,
            mmu.wf(),
        ensures
            final(self).wf(),
            final(self).ly == old(self).ly,
            final(self).dot == old(self).dot,
            final(self).framebuffer@ == with_row(
                old(self).framebuffer@,
                old(self).ly,
                sprites_upto(mmu@, old(self).ly, row_of(old(self).framebuffer@, old(self).ly), 40).0,
            ),
    {
        let ghost fb0 = self.framebuffer@;
        let ghost row0 = row_of(fb0, self.ly);
        proof {
            lemma_rows(fb0, self.ly, row0, row0);
        }
        let mut count: u8 = 0;
        let mut i: usize = 0;
        while i < 40
            invariant
                self.wf(),
                self.ly < 144,
                self.ly == old(self).ly,
                self.dot == old(self).dot,
                mmu.wf(),
                i <= 40,
                fb0 == old(self).framebuffer@,
                row0 == row_of(fb0, self.ly),
                row0.len() == SCREEN_W,
                count == sprites_upto(mmu@, self.ly, row0, i as nat).1,
                self.framebuffer@ == with_row(fb0, self.ly, sprites_upto(mmu@, self.ly, row0, i as nat).0),
            decreases 40 - i,
        {
            proof {
                lemma_sprites_len(mmu@, self.ly, row0, i as nat);
            }
            let top = mmu.oam[4 * i] as i32 - 16;
            let ly = self.ly as i32;
            if top <= ly && ly < top + 8 && count < 10 {
                let ghost cur = sprites_upto(mmu@, self.ly, row0, i as nat).0;
                proof {
                    lemma_rows(fb0, self.ly, cur, cur);
                }
                self.draw_one_sprite(mmu, i);
                proof {
                    lemma_rows(fb0, self.ly, cur, draw_sprite(mmu@, self.ly, i as int, cur));
                }
                count = count + 1;
            }
            i = i + 1;
        }
    }

    fn render_scanline(&mut self, mmu: &Mmu)
        requires
            old(self).wf(),
            old(self).ly < 144,
            mmu.wf(),
        ensures
            final(self).wf(),
            final(self).ly == old(self).ly,
            final(self).dot == old(self).dot,
            final(self).framebuffer@ == with_row(
                old(self).framebuffer@,
                old(self).ly,
                line_shades(mmu@, old(self).ly),
            ),
    {
        let ghost fb0 = self.framebuffer@;
        let ghost ly = self.ly;
        let ghost m = mmu@;
        let lcdc = mmu.io[0x40];
        self.render_background(mmu);
        let ghost r1 = bg_row(m, ly);
        proof {
            lemma_rows(fb0, ly, r1, r1);
        }
        self.render_window(mmu);
        let ghost r2 = window_row(m, ly, r1);
        proof {
            lemma_rows(fb0, ly, r1, r2);
            lemma_rows(fb0, ly, r2, r2);
        }
        if lcdc & 0x02 != 0 {
            self.render_sprites(mmu);
            proof {
                lemma_sprites_len(m, ly, r2, 40);
                lemma_rows(fb0, ly, r2, sprites_upto(m, ly, r2, 40).0);
            }
        }
    }

    /// Advances the dot counter by `cycles`, rendering each visible scanline
    /// that ends and requesting V-Blank when LY reaches 144.
    pub fn tick(&mut self, cycles: u32, mmu: &mut Mmu)
        requires
            old(self).wf(),
            old(mmu).wf(),
        ensures
            final(self).wf(),
            final(mmu).wf(),
            (final(self).framebuffer@, final(self).ly, final(self).dot, final(mmu)@) == tick_spec(
                old(self).framebuffer@,
                old(self).ly,
                old(self).dot,
                old(mmu)@,
                cycles,
            ),
    {
        mmu.io.set(0x44, self.ly);
        let lcdc = mmu.io[0x40];
        if lcdc & 0x80 == 0 {
            self.ly = 0;
            self.dot = 0;
            return;
        }
        let ghost fb0 = self.framebuffer@;
        let ghost ly0 = self.ly;
        let ghost m0 = mmu@;
        let ghost total0 = self.dot + cycles;
        let mut total: u64 = self.dot as u64 + cycles as u64;
        let ghost mut k: nat = 0;
        while total >= 456
            invariant
                self.framebuffer.len() == SCREEN_W * SCREEN_H,
                self.ly <= 153,
                self.dot < DOTS_PER_LINE,
                mmu.wf(),
                total + 456 * k == total0,
                (self.framebuffer@, self.ly, mmu@) == run_lines(fb0, ly0, m0, k),
            decreases total,
        {
            total = total - 456;
            if self.ly < 144 {
                self.render_scanline(mmu);
            }
            self.ly = self.ly + 1;
            if self.ly == 144 {
                let flags = mmu.io[0x0F] | 0x01;
                mmu.io.set(0x0F, flags);
            }
            if self.ly > 153 {
                self.ly = 0;
            }
            mmu.io.set(0x44, self.ly);
            proof {
                k = k + 1;
            }
        }
        assert(total0 / 456 == k && total0 % 456 == total) by (nonlinear_arith)
            requires
                total + 456 * k == total0,
                0 <= total < 456,
        ;
        self.dot = total as u32;
    }
}

} // verus!
