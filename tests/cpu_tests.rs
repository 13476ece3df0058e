use dmg_core::cpu::Cpu;
use dmg_core::mmu::Mmu;

/// A bus whose ROM holds `program` at 0x0100 and NOPs elsewhere.
fn bus_with_program(program: &[u8]) -> Mmu {
    let mut rom = vec![0u8; 0x8000];
    rom[0x0100..0x0100 + program.len()].copy_from_slice(program);
    Mmu::new(rom, vec![0u8; 0x8000])
}

#[test]
fn boot_register_check() {
    let cpu = Cpu::new();
    assert_eq!(cpu.a, 0x01);
    assert_eq!(cpu.f, 0xB0);
    assert_eq!(cpu.bc(), 0x0013);
    assert_eq!(cpu.de(), 0x00D8);
    assert_eq!(cpu.hl(), 0x014D);
    assert_eq!(cpu.af(), 0x01B0);
    assert_eq!(cpu.sp, 0xFFFE);
    assert_eq!(cpu.pc, 0x0100);
    assert!(!cpu.ime);
    assert!(!cpu.halted);
    assert!(cpu.flag_z() && !cpu.flag_n() && cpu.flag_h() && cpu.flag_c());
}

#[test]
fn step_single_nop() {
    let mut mmu = bus_with_program(&[0x00]);
    let mut cpu = Cpu::new();
    let f = cpu.f;
    let cycles = cpu.step(&mut mmu);
    assert_eq!(cycles, 4);
    assert_eq!(cpu.pc, 0x0101);
    assert_eq!(cpu.f, f);
}

#[test]
fn jump_absolute() {
    let mut mmu = bus_with_program(&[0xC3, 0x34, 0x12]);
    let mut cpu = Cpu::new();
    assert_eq!(cpu.step(&mut mmu), 16);
    assert_eq!(cpu.pc, 0x1234);
}

#[test]
fn interrupt_service_vblank() {
    let mut mmu = bus_with_program(&[0x00]);
    let mut cpu = Cpu::new();
    cpu.ime = true;
    mmu.write(0xFFFF, 0x01);
    mmu.write(0xFF0F, 0x01);
    let cycles = cpu.step(&mut mmu);
    assert_eq!(cycles, 20);
    assert!(!cpu.ime);
    assert_eq!(mmu.read(0xFF0F) & 0x01, 0);
    assert_eq!(cpu.pc, 0x0040);
    assert_eq!(cpu.sp, 0xFFFC);
    assert_eq!(mmu.read(0xFFFC), 0x00);
    assert_eq!(mmu.read(0xFFFD), 0x01);
}

#[test]
fn interrupt_priority_lowest_bit_first() {
    let mut mmu = bus_with_program(&[0x00]);
    let mut cpu = Cpu::new();
    cpu.ime = true;
    mmu.write(0xFFFF, 0x1F);
    mmu.write(0xFF0F, 0x14);
    assert_eq!(cpu.step(&mut mmu), 20);
    assert_eq!(cpu.pc, 0x0050);
    assert_eq!(mmu.read(0xFF0F), 0x10);
}

#[test]
fn halt_idles_until_interrupt_pending() {
    let mut mmu = bus_with_program(&[0x76, 0x00]);
    let mut cpu = Cpu::new();
    assert_eq!(cpu.step(&mut mmu), 4);
    assert!(cpu.halted);
    assert_eq!(cpu.step(&mut mmu), 4);
    assert_eq!(cpu.pc, 0x0101);
    mmu.write(0xFFFF, 0x04);
    mmu.write(0xFF0F, 0x04);
    assert_eq!(cpu.step(&mut mmu), 4);
    assert!(!cpu.halted);
    assert_eq!(cpu.pc, 0x0102);
}

#[test]
fn add_overflow_flags() {
    let mut mmu = bus_with_program(&[0x3E, 0xFF, 0xC6, 0x01]);
    let mut cpu = Cpu::new();
    cpu.step(&mut mmu);
    assert_eq!(cpu.step(&mut mmu), 8);
    assert_eq!(cpu.a, 0x00);
    assert!(cpu.flag_z() && !cpu.flag_n() && cpu.flag_h() && cpu.flag_c());
}

#[test]
fn sub_half_borrow_flags() {
    let mut mmu = bus_with_program(&[0x3E, 0x10, 0x06, 0x01, 0x90]);
    let mut cpu = Cpu::new();
    cpu.step(&mut mmu);
    cpu.step(&mut mmu);
    assert_eq!(cpu.step(&mut mmu), 4);
    assert_eq!(cpu.a, 0x0F);
    assert!(!cpu.flag_z() && cpu.flag_n() && cpu.flag_h() && !cpu.flag_c());
}

#[test]
fn daa_after_bcd_add() {
    let mut mmu = bus_with_program(&[0x3E, 0x15, 0xC6, 0x27, 0x27]);
    let mut cpu = Cpu::new();
    cpu.step(&mut mmu);
    cpu.step(&mut mmu);
    assert_eq!(cpu.a, 0x3C);
    assert_eq!(cpu.step(&mut mmu), 4);
    assert_eq!(cpu.a, 0x42);
    assert!(!cpu.flag_z() && !cpu.flag_h() && !cpu.flag_c());
}

#[test]
fn daa_after_bcd_sub() {
    let mut mmu = bus_with_program(&[0x3E, 0x42, 0xD6, 0x15, 0x27]);
    let mut cpu = Cpu::new();
    cpu.step(&mut mmu);
    cpu.step(&mut mmu);
    cpu.step(&mut mmu);
    assert_eq!(cpu.a, 0x27);
    assert!(cpu.flag_n() && !cpu.flag_c());
}

#[test]
fn add_sp_negative_offset() {
    let mut mmu = bus_with_program(&[0xE8, 0xFE]);
    let mut cpu = Cpu::new();
    assert_eq!(cpu.sp, 0xFFFE);
    assert_eq!(cpu.step(&mut mmu), 16);
    assert_eq!(cpu.sp, 0xFFFC);
    assert!(!cpu.flag_z() && !cpu.flag_n());
    let x = 0xFFFEu16 ^ 0xFFFE ^ 0xFFFC;
    assert_eq!(cpu.flag_h(), x & 0x10 != 0);
    assert_eq!(cpu.flag_c(), x & 0x100 != 0);
}

#[test]
fn ld_hl_sp_offset() {
    let mut mmu = bus_with_program(&[0xF8, 0x02]);
    let mut cpu = Cpu::new();
    assert_eq!(cpu.step(&mut mmu), 12);
    assert_eq!(cpu.hl(), 0x0000);
    assert_eq!(cpu.sp, 0xFFFE);
    assert!(cpu.flag_h() && cpu.flag_c() && !cpu.flag_z());
}

#[test]
fn rlca_rotates_into_carry() {
    let mut mmu = bus_with_program(&[0x3E, 0x85, 0x07]);
    let mut cpu = Cpu::new();
    cpu.step(&mut mmu);
    assert_eq!(cpu.step(&mut mmu), 4);
    assert_eq!(cpu.a, 0x0B);
    assert!(cpu.flag_c() && !cpu.flag_z());
}

#[test]
fn rra_through_carry() {
    let mut mmu = bus_with_program(&[0x3E, 0x01, 0x37, 0x1F]);
    let mut cpu = Cpu::new();
    cpu.step(&mut mmu);
    cpu.step(&mut mmu);
    cpu.step(&mut mmu);
    assert_eq!(cpu.a, 0x80);
    assert!(cpu.flag_c());
}

#[test]
fn push_pop_round_trip() {
    // PUSH BC; POP BC; PUSH DE; POP DE; PUSH HL; POP HL
    let mut mmu = bus_with_program(&[0xC5, 0xC1, 0xD5, 0xD1, 0xE5, 0xE1]);
    let mut cpu = Cpu::new();
    cpu.set_bc(0xBEEF);
    cpu.set_de(0x1234);
    cpu.set_hl(0xC0DE);
    assert_eq!(cpu.step(&mut mmu), 16);
    cpu.set_bc(0);
    assert_eq!(cpu.step(&mut mmu), 12);
    assert_eq!(cpu.bc(), 0xBEEF);
    cpu.step(&mut mmu);
    cpu.set_de(0);
    cpu.step(&mut mmu);
    assert_eq!(cpu.de(), 0x1234);
    cpu.step(&mut mmu);
    cpu.set_hl(0);
    cpu.step(&mut mmu);
    assert_eq!(cpu.hl(), 0xC0DE);
    assert_eq!(cpu.sp, 0xFFFE);
}

#[test]
fn pop_af_masks_low_nibble() {
    // LD BC,0x12FF; PUSH BC; POP AF
    let mut mmu = bus_with_program(&[0x01, 0xFF, 0x12, 0xC5, 0xF1]);
    let mut cpu = Cpu::new();
    cpu.step(&mut mmu);
    cpu.step(&mut mmu);
    cpu.step(&mut mmu);
    assert_eq!(cpu.af(), 0x12F0);
    assert_eq!(cpu.f & 0x0F, 0);
}

#[test]
fn set_af_masks_low_nibble() {
    let mut cpu = Cpu::new();
    cpu.set_af(0xABCD);
    assert_eq!(cpu.a, 0xAB);
    assert_eq!(cpu.f, 0xC0);
    assert_eq!(cpu.af(), 0xABC0);
}

#[test]
fn load_copy_compare_sets_zero() {
    // LD D,0x5A; LD E,D; CP E with A = 0x5A
    let mut mmu = bus_with_program(&[0x16, 0x5A, 0x5A, 0xBB]);
    let mut cpu = Cpu::new();
    cpu.a = 0x5A;
    cpu.step(&mut mmu);
    cpu.step(&mut mmu);
    assert_eq!(cpu.e, 0x5A);
    cpu.step(&mut mmu);
    assert!(cpu.flag_z());
    assert!(cpu.flag_n());
    assert_eq!(cpu.a, 0x5A);
}

#[test]
fn load_copy_compare_through_memory() {
    // LD (HL),0x3C; LD A,(HL); CP A with HL in work RAM
    let mut mmu = bus_with_program(&[0x36, 0x3C, 0x7E, 0xBF]);
    let mut cpu = Cpu::new();
    cpu.set_hl(0xC080);
    cpu.a = 0x3C;
    assert_eq!(cpu.step(&mut mmu), 12);
    assert_eq!(mmu.read(0xC080), 0x3C);
    assert_eq!(cpu.step(&mut mmu), 8);
    cpu.step(&mut mmu);
    assert!(cpu.flag_z());
    assert_eq!(cpu.a, 0x3C);
}

#[test]
fn inc_dec_restores_register() {
    // INC B; DEC B from B = 0xFF, then INC (HL); DEC (HL)
    let mut mmu = bus_with_program(&[0x04, 0x05, 0x34, 0x35]);
    let mut cpu = Cpu::new();
    cpu.b = 0xFF;
    assert_eq!(cpu.step(&mut mmu), 4);
    assert_eq!(cpu.b, 0x00);
    assert!(cpu.flag_z() && cpu.flag_h() && !cpu.flag_n());
    assert_eq!(cpu.step(&mut mmu), 4);
    assert_eq!(cpu.b, 0xFF);
    assert!(cpu.flag_n() && !cpu.flag_z());
    cpu.set_hl(0xC010);
    mmu.write(0xC010, 0x0F);
    assert_eq!(cpu.step(&mut mmu), 12);
    assert_eq!(mmu.read(0xC010), 0x10);
    assert_eq!(cpu.step(&mut mmu), 12);
    assert_eq!(mmu.read(0xC010), 0x0F);
    assert!(cpu.flag_n());
}

#[test]
fn cp_matches_sub_flags() {
    for &(a, v) in &[(0x10u8, 0x01u8), (0x00, 0x01), (0x42, 0x42), (0x80, 0x7F)] {
        let mut mmu = bus_with_program(&[0xFE, v]);
        let mut cp = Cpu::new();
        cp.a = a;
        cp.step(&mut mmu);
        let mut mmu2 = bus_with_program(&[0xD6, v]);
        let mut sub = Cpu::new();
        sub.a = a;
        sub.step(&mut mmu2);
        assert_eq!(cp.a, a);
        assert_eq!(cp.f, sub.f);
    }
}

#[test]
fn adc_and_sbc_use_carry() {
    // SCF; LD A,0x0F; ADC A,0x00 -> 0x10, H; SCF; SBC A,0x00 -> 0x0F, H
    let mut mmu = bus_with_program(&[0x37, 0x3E, 0x0F, 0xCE, 0x00, 0x37, 0xDE, 0x00]);
    let mut cpu = Cpu::new();
    cpu.step(&mut mmu);
    cpu.step(&mut mmu);
    cpu.step(&mut mmu);
    assert_eq!(cpu.a, 0x10);
    assert!(cpu.flag_h() && !cpu.flag_c());
    cpu.step(&mut mmu);
    cpu.step(&mut mmu);
    assert_eq!(cpu.a, 0x0F);
    assert!(cpu.flag_h() && cpu.flag_n() && !cpu.flag_c());
}

#[test]
fn logic_ops_flags() {
    // LD A,0xF0; AND 0x0F -> 0, Z H; OR 0x81 -> 0x81; XOR 0x81 -> 0, Z
    let mut mmu = bus_with_program(&[0x3E, 0xF0, 0xE6, 0x0F, 0xF6, 0x81, 0xEE, 0x81]);
    let mut cpu = Cpu::new();
    cpu.step(&mut mmu);
    cpu.step(&mut mmu);
    assert_eq!(cpu.a, 0);
    assert!(cpu.flag_z() && cpu.flag_h() && !cpu.flag_c());
    cpu.step(&mut mmu);
    assert_eq!(cpu.a, 0x81);
    assert!(!cpu.flag_z() && !cpu.flag_h());
    cpu.step(&mut mmu);
    assert_eq!(cpu.a, 0);
    assert!(cpu.flag_z());
}

#[test]
fn add_hl_half_carry_keeps_zero() {
    // LD HL,0x0FFF; LD BC,0x0001; ADD HL,BC
    let mut mmu = bus_with_program(&[0x21, 0xFF, 0x0F, 0x01, 0x01, 0x00, 0x09]);
    let mut cpu = Cpu::new();
    cpu.step(&mut mmu);
    cpu.step(&mut mmu);
    assert_eq!(cpu.step(&mut mmu), 8);
    assert_eq!(cpu.hl(), 0x1000);
    assert!(cpu.flag_h() && !cpu.flag_c() && !cpu.flag_n());
    assert!(cpu.flag_z());
}

#[test]
fn call_and_ret() {
    // CALL 0x0200 ... at 0x0200: RET
    let mut rom = vec![0u8; 0x8000];
    rom[0x0100..0x0103].copy_from_slice(&[0xCD, 0x00, 0x02]);
    rom[0x0200] = 0xC9;
    let mut mmu = Mmu::new(rom, vec![]);
    let mut cpu = Cpu::new();
    assert_eq!(cpu.step(&mut mmu), 24);
    assert_eq!(cpu.pc, 0x0200);
    assert_eq!(cpu.sp, 0xFFFC);
    assert_eq!(cpu.step(&mut mmu), 16);
    assert_eq!(cpu.pc, 0x0103);
    assert_eq!(cpu.sp, 0xFFFE);
}

#[test]
fn conditional_jumps_taken_and_not() {
    // Z is set at boot: JR NZ not taken (8), JR Z,-2 taken (12)
    let mut mmu = bus_with_program(&[0x20, 0x05, 0x28, 0xFE]);
    let mut cpu = Cpu::new();
    assert_eq!(cpu.step(&mut mmu), 8);
    assert_eq!(cpu.pc, 0x0102);
    assert_eq!(cpu.step(&mut mmu), 12);
    assert_eq!(cpu.pc, 0x0102);
    // JP C taken (C set at boot), RET NC not taken
    let mut mmu2 = bus_with_program(&[0xDA, 0x00, 0x03]);
    let mut cpu2 = Cpu::new();
    assert_eq!(cpu2.step(&mut mmu2), 16);
    assert_eq!(cpu2.pc, 0x0300);
    let mut mmu3 = bus_with_program(&[0xD0]);
    let mut cpu3 = Cpu::new();
    assert_eq!(cpu3.step(&mut mmu3), 8);
    assert_eq!(cpu3.pc, 0x0101);
}

#[test]
fn rst_pushes_and_jumps() {
    let mut mmu = bus_with_program(&[0xEF]);
    let mut cpu = Cpu::new();
    assert_eq!(cpu.step(&mut mmu), 16);
    assert_eq!(cpu.pc, 0x0028);
    assert_eq!(mmu.read(0xFFFC), 0x01);
    assert_eq!(mmu.read(0xFFFD), 0x01);
}

#[test]
fn reti_enables_interrupts() {
    let mut mmu = bus_with_program(&[0xD9]);
    let mut cpu = Cpu::new();
    cpu.sp = 0xC000;
    mmu.write(0xC000, 0x34);
    mmu.write(0xC001, 0x12);
    assert_eq!(cpu.step(&mut mmu), 16);
    assert_eq!(cpu.pc, 0x1234);
    assert!(cpu.ime);
}

#[test]
fn di_and_ei() {
    let mut mmu = bus_with_program(&[0xFB, 0xF3]);
    let mut cpu = Cpu::new();
    cpu.step(&mut mmu);
    assert!(cpu.ime);
    cpu.step(&mut mmu);
    assert!(!cpu.ime);
}

#[test]
fn high_page_loads() {
    // LD A,0x77; LDH (0x80),A; LD A,0; LDH A,(0x80); LD C,0x81; LD (C),A
    let mut mmu = bus_with_program(&[0x3E, 0x77, 0xE0, 0x80, 0x3E, 0x00, 0xF0, 0x80, 0x0E, 0x81, 0xE2]);
    let mut cpu = Cpu::new();
    cpu.step(&mut mmu);
    assert_eq!(cpu.step(&mut mmu), 12);
    assert_eq!(mmu.read(0xFF80), 0x77);
    cpu.step(&mut mmu);
    cpu.step(&mut mmu);
    assert_eq!(cpu.a, 0x77);
    cpu.step(&mut mmu);
    assert_eq!(cpu.step(&mut mmu), 8);
    assert_eq!(mmu.read(0xFF81), 0x77);
}

#[test]
fn absolute_loads_and_hl_increment() {
    // LD A,0x99; LD (0xC123),A; LD HL,0xC123; LD A,(HL+); LD (HL-),A
    let mut mmu = bus_with_program(&[0x3E, 0x99, 0xEA, 0x23, 0xC1, 0x21, 0x23, 0xC1, 0x2A, 0x32]);
    let mut cpu = Cpu::new();
    cpu.step(&mut mmu);
    assert_eq!(cpu.step(&mut mmu), 16);
    assert_eq!(mmu.read(0xC123), 0x99);
    cpu.step(&mut mmu);
    cpu.a = 0;
    assert_eq!(cpu.step(&mut mmu), 8);
    assert_eq!(cpu.a, 0x99);
    assert_eq!(cpu.hl(), 0xC124);
    cpu.step(&mut mmu);
    assert_eq!(mmu.read(0xC124), 0x99);
    assert_eq!(cpu.hl(), 0xC123);
}

#[test]
fn ld_nn_sp_stores_little_endian() {
    let mut mmu = bus_with_program(&[0x08, 0x00, 0xC0]);
    let mut cpu = Cpu::new();
    assert_eq!(cpu.step(&mut mmu), 20);
    assert_eq!(mmu.read(0xC000), 0xFE);
    assert_eq!(mmu.read(0xC001), 0xFF);
    assert_eq!(cpu.pc, 0x0103);
}

#[test]
fn stop_consumes_one_byte() {
    let mut mmu = bus_with_program(&[0x10, 0x00]);
    let mut cpu = Cpu::new();
    assert_eq!(cpu.step(&mut mmu), 4);
    assert_eq!(cpu.pc, 0x0102);
}

#[test]
fn cpl_scf_ccf() {
    let mut mmu = bus_with_program(&[0x3E, 0x35, 0x2F, 0x37, 0x3F]);
    let mut cpu = Cpu::new();
    cpu.step(&mut mmu);
    cpu.step(&mut mmu);
    assert_eq!(cpu.a, 0xCA);
    assert!(cpu.flag_n() && cpu.flag_h());
    cpu.step(&mut mmu);
    assert!(cpu.flag_c() && !cpu.flag_n() && !cpu.flag_h());
    cpu.step(&mut mmu);
    assert!(!cpu.flag_c());
}

#[test]
fn cb_prefix_operations() {
    // SWAP A; BIT 7,A; SET 0,B; RES 7,(HL); SRA A
    let mut mmu = bus_with_program(&[0xCB, 0x37, 0xCB, 0x7F, 0xCB, 0xC0, 0xCB, 0xBE, 0xCB, 0x2F]);
    let mut cpu = Cpu::new();
    cpu.a = 0x1F;
    cpu.b = 0x00;
    cpu.set_hl(0xC000);
    mmu.write(0xC000, 0xFF);
    assert_eq!(cpu.step(&mut mmu), 8);
    assert_eq!(cpu.a, 0xF1);
    assert!(!cpu.flag_c() && !cpu.flag_z());
    assert_eq!(cpu.step(&mut mmu), 8);
    assert!(!cpu.flag_z() && cpu.flag_h());
    cpu.step(&mut mmu);
    assert_eq!(cpu.b, 0x01);
    assert_eq!(cpu.step(&mut mmu), 16);
    assert_eq!(mmu.read(0xC000), 0x7F);
    cpu.step(&mut mmu);
    assert_eq!(cpu.a, 0xF8);
    assert!(cpu.flag_c());
}

#[test]
fn cb_bit_on_hl_takes_twelve() {
    let mut mmu = bus_with_program(&[0xCB, 0x46]);
    let mut cpu = Cpu::new();
    cpu.set_hl(0xC000);
    assert_eq!(cpu.step(&mut mmu), 12);
    assert!(cpu.flag_z());
}

#[test]
fn illegal_opcode_is_reported() {
    let mut mmu = bus_with_program(&[0xD3]);
    let mut cpu = Cpu::new();
    assert_eq!(cpu.step(&mut mmu), 4);
    assert_eq!(cpu.illegal, Some((0x0100, 0xD3)));
    assert_eq!(cpu.pc, 0x0101);
}

#[test]
fn ld_register_to_register() {
    // LD B,0x42; LD A,B; LD (HL),A with HL=0xC000; LD C,(HL)
    let mut mmu = bus_with_program(&[0x06, 0x42, 0x78, 0x77, 0x4E]);
    let mut cpu = Cpu::new();
    cpu.set_hl(0xC000);
    cpu.step(&mut mmu);
    assert_eq!(cpu.step(&mut mmu), 4);
    assert_eq!(cpu.a, 0x42);
    assert_eq!(cpu.step(&mut mmu), 8);
    assert_eq!(mmu.read(0xC000), 0x42);
    assert_eq!(cpu.step(&mut mmu), 8);
    assert_eq!(cpu.c, 0x42);
}

#[test]
fn inc_dec_r16_wrap() {
    // DEC BC from 0; INC SP from 0xFFFF
    let mut mmu = bus_with_program(&[0x0B, 0x33]);
    let mut cpu = Cpu::new();
    cpu.set_bc(0);
    cpu.sp = 0xFFFF;
    assert_eq!(cpu.step(&mut mmu), 8);
    assert_eq!(cpu.bc(), 0xFFFF);
    cpu.step(&mut mmu);
    assert_eq!(cpu.sp, 0x0000);
}
