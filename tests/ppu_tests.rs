use dmg_core::cpu::Cpu;
use dmg_core::gameboy::GameBoy;
use dmg_core::mmu::Mmu;
use dmg_core::ppu::Ppu;

fn plain_bus() -> Mmu {
    Mmu::new(vec![0u8; 0x8000], vec![0u8; 0x2000])
}

#[test]
fn vblank_once_per_frame_of_nops() {
    let mut mmu = plain_bus();
    let mut cpu = Cpu::new();
    let mut ppu = Ppu::new();
    let mut total: u32 = 0;
    let mut entries = 0;
    let mut last_ly = ppu.ly;
    while total < 70224 {
        let c = cpu.step(&mut mmu);
        ppu.tick(c, &mut mmu);
        total += c;
        assert!(ppu.ly <= 153);
        if ppu.ly == 144 && last_ly != 144 {
            entries += 1;
            assert_eq!(mmu.io[0x0F] & 0x01, 0x01);
            assert_eq!(mmu.read(0xFF44), 144);
        }
        if entries == 0 {
            assert_eq!(mmu.io[0x0F] & 0x01, 0x00);
        }
        last_ly = ppu.ly;
    }
    assert_eq!(entries, 1);
    assert_eq!(ppu.ly, 0);
}

#[test]
fn ly_advances_per_line_and_wraps() {
    let mut mmu = plain_bus();
    let mut ppu = Ppu::new();
    ppu.tick(455, &mut mmu);
    assert_eq!(ppu.ly, 0);
    assert_eq!(ppu.dot, 455);
    ppu.tick(1, &mut mmu);
    assert_eq!(ppu.ly, 1);
    assert_eq!(ppu.dot, 0);
    assert_eq!(mmu.read(0xFF44), 1);
    ppu.tick(456 * 153, &mut mmu);
    assert_eq!(ppu.ly, 0);
    ppu.tick(u32::MAX, &mut mmu);
    assert!(ppu.ly <= 153);
    assert!(ppu.dot < 456);
}

#[test]
fn lcd_off_resets_ly_and_dot() {
    let mut mmu = plain_bus();
    let mut ppu = Ppu::new();
    ppu.tick(456 * 3 + 10, &mut mmu);
    assert_eq!(ppu.ly, 3);
    mmu.write(0xFF40, 0x11);
    ppu.tick(1000, &mut mmu);
    assert_eq!(ppu.ly, 0);
    assert_eq!(ppu.dot, 0);
}

#[test]
fn background_row_uses_palette() {
    let mut mmu = plain_bus();
    // tile 0, every row: low plane set -> colour 1; BGP maps 1 -> shade 2
    for row in 0..8u16 {
        mmu.write(0x8000 + row * 2, 0xFF);
        mmu.write(0x8000 + row * 2 + 1, 0x00);
    }
    mmu.write(0xFF47, 0b1110_1000);
    let mut ppu = Ppu::new();
    ppu.tick(456, &mut mmu);
    assert!(ppu.framebuffer[0..160].iter().all(|&s| s == 2));
    assert!(ppu.framebuffer[160..320].iter().all(|&s| s == 0));
}

#[test]
fn background_signed_tile_addressing() {
    let mut mmu = plain_bus();
    // LCDC bit 4 clear: tile 0xFF lives at 0x8FF0
    mmu.write(0xFF40, 0x81);
    mmu.write(0x9800, 0xFF);
    mmu.write(0x8FF0, 0x80);
    mmu.write(0x8FF1, 0x80);
    mmu.write(0xFF47, 0b1110_0100);
    let mut ppu = Ppu::new();
    ppu.tick(456, &mut mmu);
    assert_eq!(ppu.framebuffer[0], 3);
    assert_eq!(ppu.framebuffer[1], 0);
    assert_eq!(ppu.framebuffer[8], 0);
}

#[test]
fn window_covers_from_wx_minus_seven() {
    let mut mmu = plain_bus();
    // window map at 0x9C00 uses tile 1, all colour 3
    mmu.write(0xFF40, 0x91 | 0x20 | 0x40);
    for i in 0..32u16 {
        mmu.write(0x9C00 + i, 1);
    }
    for b in 0..16u16 {
        mmu.write(0x8010 + b, 0xFF);
    }
    mmu.write(0xFF47, 0b1110_0100);
    mmu.write(0xFF4A, 0);
    mmu.write(0xFF4B, 7 + 100);
    let mut ppu = Ppu::new();
    ppu.tick(456, &mut mmu);
    assert!(ppu.framebuffer[0..100].iter().all(|&s| s == 0));
    assert!(ppu.framebuffer[100..160].iter().all(|&s| s == 3));
}

#[test]
fn sprite_drawn_and_transparent_pixels_skipped() {
    let mut mmu = plain_bus();
    mmu.write(0xFF40, 0x93);
    // tile 2 row 0: pixels 0..3 colour 1, 4..7 transparent
    mmu.write(0x8020, 0xF0);
    mmu.write(0x8021, 0x00);
    mmu.write(0xFF48, 0b1110_0100);
    // sprite 0 at screen (10, 0)
    mmu.write(0xFE00, 16);
    mmu.write(0xFE01, 8 + 10);
    mmu.write(0xFE02, 2);
    mmu.write(0xFE03, 0);
    let mut ppu = Ppu::new();
    ppu.tick(456, &mut mmu);
    assert_eq!(&ppu.framebuffer[8..16], &[0, 0, 1, 1, 1, 1, 0, 0]);
}

#[test]
fn sprite_x_flip_and_limit_of_ten() {
    let mut mmu = plain_bus();
    mmu.write(0xFF40, 0x93);
    mmu.write(0x8020, 0x80);
    mmu.write(0x8021, 0x80);
    mmu.write(0xFF48, 0b1110_0100);
    // twelve sprites on line 0, at x = 0, 8, ..., 88; X-flipped
    for i in 0..12u16 {
        mmu.write(0xFE00 + i * 4, 16);
        mmu.write(0xFE01 + i * 4, (8 + i * 8) as u8);
        mmu.write(0xFE02 + i * 4, 2);
        mmu.write(0xFE03 + i * 4, 0x20);
    }
    let mut ppu = Ppu::new();
    ppu.tick(456, &mut mmu);
    for i in 0..10usize {
        assert_eq!(ppu.framebuffer[i * 8 + 7], 3);
        assert_eq!(ppu.framebuffer[i * 8], 0);
    }
    assert_eq!(ppu.framebuffer[10 * 8 + 7], 0);
    assert_eq!(ppu.framebuffer[11 * 8 + 7], 0);
}

#[test]
fn sprite_behind_background() {
    let mut mmu = plain_bus();
    mmu.write(0xFF40, 0x93);
    // background tile 0 row 0: left half colour 1
    mmu.write(0x8000, 0xF0);
    mmu.write(0xFF47, 0b1110_0100);
    mmu.write(0x8020, 0xFF);
    mmu.write(0x8021, 0xFF);
    mmu.write(0xFF49, 0b1000_0000);
    mmu.write(0xFE00, 16);
    mmu.write(0xFE01, 8);
    mmu.write(0xFE02, 2);
    mmu.write(0xFE03, 0x80 | 0x10);
    let mut ppu = Ppu::new();
    ppu.tick(456, &mut mmu);
    assert_eq!(&ppu.framebuffer[0..8], &[1, 1, 1, 1, 2, 2, 2, 2]);
}

#[test]
fn shade_levels() {
    assert_eq!(Ppu::shade(0), 0xFF);
    assert_eq!(Ppu::shade(1), 0xAA);
    assert_eq!(Ppu::shade(2), 0x55);
    assert_eq!(Ppu::shade(3), 0x00);
}

#[test]
fn run_frame_covers_one_frame() {
    let mut gb = GameBoy::new(vec![0u8; 0x8000], vec![]);
    let cycles = gb.run_frame();
    assert!(cycles >= 70224 && cycles < 70224 + 24);
    assert_eq!(gb.mmu.io[0x0F] & 0x01, 0x01);
    assert_eq!(gb.ppu.ly, 0);
    assert_eq!(gb.cpu.pc, 0x0100 + (cycles / 4) as u16);
}
