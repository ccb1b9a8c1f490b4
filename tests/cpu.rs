use gbe_rs::cpu::{add_signed_u8_carry_half, decode, decode_cb, Instr, CPU, OP};
use gbe_rs::mbc::select_mbc;
use gbe_rs::ppu::PPU;
use gbe_rs::ram::Reg;
use gbe_rs::rom::ROM;

/// A machine on a 32 KiB MBC1 image whose bytes at `at` are `program`.
fn machine(program: &[u8], at: usize) -> CPU {
    let mut raw = vec![0u8; 0x8000];
    raw[0x147] = 0x01;
    for (k, b) in program.iter().enumerate() {
        raw[at + k] = *b;
    }
    CPU::new(PPU::new(select_mbc(ROM::new(raw))))
}

#[test]
fn ld_a_immediate() {
    let mut cpu = machine(&[0x3e, 0x42], 0x100);
    cpu.step();
    assert_eq!(cpu.a, 0x42);
    assert_eq!(cpu.pc, 0x0102);
    // two machine cycles, four T-cycles each
    assert_eq!(cpu.sys_counter, 8);
}

#[test]
fn ld_a_immediate_costs_two_cycles() {
    let mut cpu = machine(&[0x3e, 0x42], 0x100);
    cpu.execute();
    assert_eq!(cpu.cycle, 2);
    assert_eq!(cpu.pc, 0x0102);
}

#[test]
fn add_half_carry() {
    let mut cpu = machine(&[0xc6, 0x01], 0x100);
    cpu.a = 0x0f;
    cpu.step();
    assert_eq!(cpu.a, 0x10);
    assert_eq!(cpu.f, 0x20);
}

#[test]
fn add_overflow_to_zero() {
    let mut cpu = machine(&[0xc6, 0x01], 0x100);
    cpu.a = 0xff;
    cpu.step();
    assert_eq!(cpu.a, 0x00);
    assert_eq!(cpu.f, 0xb0);
}

#[test]
fn daa_after_add_with_both_carries() {
    // N clear, H and C set: the adjustment is 0x06 + 0x60, so 0x3c becomes
    // 0x3c + 0x66 = 0xa2, and C is set because the adjustment reaches 0x60.
    let mut cpu = machine(&[0x27], 0x100);
    cpu.a = 0x3c;
    cpu.f = 0x30;
    cpu.step();
    assert_eq!(cpu.a, 0xa2);
    assert_eq!(cpu.f & 0x10, 0x10);
    assert_eq!(cpu.f & 0x20, 0);
}

#[test]
fn daa_corrects_bcd_sum() {
    // 0x15 + 0x27 = 0x3c in binary; DAA makes it the BCD sum 0x42.
    let mut cpu = machine(&[0xc6, 0x27, 0x27], 0x100);
    cpu.a = 0x15;
    cpu.step();
    assert_eq!(cpu.a, 0x3c);
    cpu.step();
    assert_eq!(cpu.a, 0x42);
    assert_eq!(cpu.f & 0x10, 0);
}

#[test]
fn call_pushes_return_address() {
    let mut cpu = machine(&[0xcd, 0x00, 0x80], 0x1234);
    cpu.sp = 0xdffd;
    cpu.pc = 0x1234;
    cpu.step();
    assert_eq!(cpu.ppu.mbc.read(0xdffb), 0x37);
    assert_eq!(cpu.ppu.mbc.read(0xdffc), 0x12);
    assert_eq!(cpu.sp, 0xdffb);
    assert_eq!(cpu.pc, 0x8000);
}

#[test]
fn interrupt_dispatches_vblank() {
    let mut cpu = machine(&[], 0x100);
    cpu.ppu.mbc.write(0xffff, 0x01);
    cpu.ppu.mbc.write(0xff0f, 0x01);
    cpu.ime = true;
    cpu.pc = 0x0150;
    cpu.interrupt();
    assert_eq!(cpu.pc, 0x0040);
    assert!(!cpu.ime);
    assert_eq!(cpu.ppu.mbc.read_reg(Reg::IF) & 0x01, 0);
    assert_eq!(cpu.sp, 0xfffc);
    assert_eq!(cpu.ppu.mbc.read(0xfffc), 0x50);
    assert_eq!(cpu.ppu.mbc.read(0xfffd), 0x01);
}

#[test]
fn interrupt_priority_lowest_bit_first() {
    let mut cpu = machine(&[], 0x100);
    cpu.ppu.mbc.write(0xffff, 0x1f);
    cpu.ppu.mbc.write(0xff0f, 0x14);
    cpu.ime = true;
    cpu.interrupt();
    assert_eq!(cpu.pc, 0x0050);
    assert_eq!(cpu.ppu.mbc.read_reg(Reg::IF), 0x10);
}

#[test]
fn halt_wakes_without_ime() {
    let mut cpu = machine(&[], 0x100);
    cpu.halting = true;
    cpu.ppu.mbc.write(0xffff, 0x04);
    cpu.ppu.mbc.write(0xff0f, 0x04);
    cpu.interrupt();
    assert!(!cpu.halting);
    assert_eq!(cpu.pc, 0x0100);
}

#[test]
fn push_then_pop_round_trip() {
    let mut cpu = machine(&[], 0x100);
    for v in [0x0000u16, 0x1234, 0xbeef, 0xffff] {
        cpu.sp = 0xdff0;
        cpu.push16(v);
        assert_eq!(cpu.sp, 0xdfee);
        assert_eq!(cpu.pop16(), v);
        assert_eq!(cpu.sp, 0xdff0);
    }
}

#[test]
fn register_pairs_round_trip() {
    let mut cpu = machine(&[], 0x100);
    cpu.set_bc(0x1234);
    assert_eq!(cpu.get_bc(), 0x1234);
    cpu.set_de(0xabcd);
    assert_eq!(cpu.get_de(), 0xabcd);
    cpu.set_hl(0x8001);
    assert_eq!(cpu.get_hl(), 0x8001);
    cpu.set_af(0x12ff);
    assert_eq!(cpu.get_af(), 0x12f0);
    assert_eq!(cpu.f & 0x0f, 0);
}

#[test]
fn hl_is_big_endian() {
    let mut cpu = machine(&[], 0x100);
    cpu.h = 0xc0;
    cpu.l = 0x01;
    assert_eq!(cpu.get_hl(), ((cpu.h as u16) << 8) | cpu.l as u16);
    assert_eq!(cpu.get_hl(), 0xc001);
}

#[test]
fn flags_low_nibble_stays_clear() {
    // POP AF with 0xff in the low byte keeps F's low nibble clear.
    let mut cpu = machine(&[0xf1], 0x100);
    cpu.sp = 0xc000;
    cpu.ppu.mbc.write(0xc000, 0xff);
    cpu.ppu.mbc.write(0xc001, 0x12);
    cpu.step();
    assert_eq!(cpu.a, 0x12);
    assert_eq!(cpu.f, 0xf0);
}

#[test]
fn signed_displacement_add() {
    assert_eq!(add_signed_u8_carry_half(0x1000, 0xff), (0x0fff, false, false));
    assert_eq!(add_signed_u8_carry_half(0x00ff, 0x01), (0x0100, true, true));
    assert_eq!(add_signed_u8_carry_half(0x000f, 0x01), (0x0010, false, true));
    assert_eq!(add_signed_u8_carry_half(0xffff, 0x01), (0x0000, true, true));
}

#[test]
fn jr_backwards() {
    let mut cpu = machine(&[0x18, 0xfe], 0x100);
    cpu.step();
    assert_eq!(cpu.pc, 0x0100);
}

#[test]
fn jp_conditional_not_taken() {
    let mut cpu = machine(&[0xca, 0x00, 0x20], 0x100);
    cpu.step();
    assert_eq!(cpu.pc, 0x0103);
}

#[test]
fn rst_and_ret() {
    let mut cpu = machine(&[0xef], 0x100);
    cpu.step();
    assert_eq!(cpu.pc, 0x0028);
    assert_eq!(cpu.sp, 0xfffc);
}

#[test]
fn cb_bit_set_res() {
    // SET 3,B ; BIT 3,B ; RES 3,B ; BIT 3,B
    let mut cpu = machine(&[0xcb, 0xd8, 0xcb, 0x58, 0xcb, 0x98, 0xcb, 0x58], 0x100);
    cpu.step();
    assert_eq!(cpu.b, 0x08);
    cpu.step();
    assert_eq!(cpu.f & 0x80, 0);
    cpu.step();
    assert_eq!(cpu.b, 0x00);
    cpu.step();
    assert_eq!(cpu.f & 0x80, 0x80);
    assert_eq!(cpu.pc, 0x0108);
}

#[test]
fn rlca_never_sets_zero() {
    let mut cpu = machine(&[0x07, 0xcb, 0x07], 0x100);
    cpu.a = 0x00;
    cpu.step();
    assert_eq!(cpu.f & 0x80, 0);
    cpu.step();
    assert_eq!(cpu.f & 0x80, 0x80);
}

#[test]
fn swap_and_shifts() {
    let mut cpu = machine(&[0xcb, 0x37, 0xcb, 0x2f, 0xcb, 0x3f], 0x100);
    cpu.a = 0x81;
    cpu.step();
    assert_eq!(cpu.a, 0x18);
    cpu.a = 0x81;
    cpu.step();
    assert_eq!(cpu.a, 0xc0);
    assert_eq!(cpu.f & 0x10, 0x10);
    cpu.step();
    assert_eq!(cpu.a, 0x60);
}

#[test]
fn ld_hl_increment_and_store() {
    // LD HL,0xc000 ; LD (HL+),A ; LD (HL-),A
    let mut cpu = machine(&[0x21, 0x00, 0xc0, 0x22, 0x32], 0x100);
    cpu.a = 0x5a;
    cpu.step();
    assert_eq!(cpu.get_hl(), 0xc000);
    cpu.step();
    assert_eq!(cpu.get_hl(), 0xc001);
    assert_eq!(cpu.ppu.mbc.read(0xc000), 0x5a);
    cpu.step();
    assert_eq!(cpu.get_hl(), 0xc000);
    assert_eq!(cpu.ppu.mbc.read(0xc001), 0x5a);
}

#[test]
fn sub_and_compare_flags() {
    let mut cpu = machine(&[0xd6, 0x01, 0xfe, 0x10], 0x100);
    cpu.a = 0x10;
    cpu.step();
    assert_eq!(cpu.a, 0x0f);
    assert_eq!(cpu.f, 0x60);
    cpu.step();
    assert_eq!(cpu.a, 0x0f);
    assert_eq!(cpu.f, 0x50);
}

#[test]
fn decode_tables() {
    assert_eq!(decode(0x3e), Instr::Ld8(OP::A, OP::N));
    assert_eq!(decode(0x76), Instr::Halt);
    assert_eq!(decode(0xcb), Instr::Prefix);
    assert_eq!(decode(0xd3), Instr::Undefined);
    assert_eq!(decode(0xe2), Instr::Ld8(OP::P_FF00_C, OP::A));
    assert_eq!(decode_cb(0x36), Instr::Swap(OP::P_HL));
    assert_eq!(decode_cb(0x7e), Instr::Bit(7, OP::P_HL));
}

#[test]
fn timer_overflow_reloads() {
    let mut cpu = machine(&[], 0x100);
    cpu.ppu.mbc.write(0xff07, 0x05);
    cpu.ppu.mbc.write(0xff05, 0xff);
    cpu.ppu.mbc.write(0xff06, 0x10);
    for _ in 0..16 {
        cpu.timer();
        cpu.sys_counter += 1;
    }
    assert_eq!(cpu.ppu.mbc.read_reg(Reg::TIMA), 0x10);
    assert_eq!(cpu.ppu.mbc.read_reg(Reg::IF) & 0x04, 0x04);
}

#[test]
fn timer_divider_counts() {
    let mut cpu = machine(&[], 0x100);
    for _ in 0..512 {
        cpu.timer();
        cpu.sys_counter += 1;
    }
    assert_eq!(cpu.ppu.mbc.read_reg(Reg::DIV), 2);
    assert_eq!(cpu.ppu.mbc.read_reg(Reg::TIMA), 0);
}

#[test]
fn serial_transfer_logs_byte() {
    let mut cpu = machine(&[], 0x100);
    cpu.ppu.mbc.write(0xff01, b'P');
    cpu.ppu.mbc.write(0xff02, 0x81);
    cpu.sys_counter = 256;
    cpu.serial();
    assert_eq!(*cpu.serial_logger.read(), b'P');
    assert_eq!(cpu.ppu.mbc.read_reg(Reg::SC), 0x01);
    assert_eq!(cpu.ppu.mbc.read_reg(Reg::IF) & 0x08, 0x08);
}

#[test]
fn joypad_reports_buttons() {
    let mut cpu = machine(&[], 0x100);
    cpu.joypad_buffer = 0b1110_0111;
    cpu.ppu.mbc.write(0xff00, 0x20);
    cpu.joypad();
    assert_eq!(cpu.ppu.mbc.read_reg(Reg::JOYP), 0x27);
    assert_eq!(cpu.ppu.mbc.read_reg(Reg::IF) & 0x10, 0x10);
}

#[test]
fn instruction_log_records_opcode() {
    let mut cpu = machine(&[0x3e, 0x42], 0x100);
    cpu.step();
    let entry = cpu.cpu_logger.read();
    assert_eq!(entry.pc, 0x0100);
    assert_eq!(entry.codes, vec![0x3e, 0x42, 0x00]);
    assert_eq!(entry.instr, "LD");
    assert_eq!(entry.op1, OP::A);
    assert!(!entry.get_zero());
}

#[test]
fn log_flag_getters() {
    let mut cpu = machine(&[0xaf], 0x100);
    cpu.step();
    let entry = cpu.cpu_logger.read().clone();
    assert!(!entry.get_zero());
    cpu = machine(&[0xaf, 0x00], 0x100);
    cpu.step();
    cpu.step();
    let entry = cpu.cpu_logger.read();
    assert!(entry.get_zero());
    assert!(!entry.get_carry());
    assert!(!entry.get_half());
    assert!(!entry.get_negative());
}

#[test]
fn halted_step_idles_one_cycle() {
    let mut cpu = machine(&[], 0x100);
    cpu.halting = true;
    let (pc, sp) = (cpu.pc, cpu.sp);
    cpu.step();
    assert_eq!(cpu.pc, pc);
    assert_eq!(cpu.sp, sp);
    assert_eq!(cpu.sys_counter, 4);
    assert_eq!(cpu.exe_counter, 0);
    assert_eq!(cpu.cycle, 0);
}

#[test]
fn step_serves_pending_interrupt() {
    // EI, then NOP: the NOP's cycle serves the pending VBlank request.
    let mut cpu = machine(&[0xfb, 0x00], 0x100);
    cpu.ppu.mbc.write(0xffff, 0x01);
    cpu.step();
    assert_eq!(cpu.pc, 0x0101);
    cpu.ppu.mbc.write(0xff0f, 0x01);
    cpu.step();
    assert_eq!(cpu.pc, 0x0040);
    assert!(!cpu.ime);
    assert_eq!(cpu.sp, 0xfffc);
    // one machine cycle for each NOP and EI, five for the dispatch
    assert_eq!(cpu.sys_counter, 4 + 4 + 20);
}
