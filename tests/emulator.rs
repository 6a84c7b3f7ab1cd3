use gb::alu::{add_8, daa, shift, sub_8, Flags};
use gb::bus::Bus;
use gb::cpu::{Cpu, CpuError};
use gb::debugger::Debugger;
use gb::gb::Gb;
use gb::joypad::{Joypad, JoypadKey};
use gb::mbc::{new_mbc, Cartridge, Mbc, Mbc1, MbcError, RomOnly};
use gb::ppu::{Mode, Ppu};
use gb::rom::{MbcType, Rom, RomError};
use gb::timer::Timer;
use gb::utils::bytes_to_hex;

/// A cartridge image of `size_code` (32 KiB << code) with a valid header
/// checksum and `program` placed at the given offsets.
fn image(mbc: u8, size_code: u8, program: &[(usize, u8)]) -> Vec<u8> {
    let mut d = vec![0u8; 0x8000 << size_code];
    d[0x147] = mbc;
    d[0x148] = size_code;
    for &(i, b) in program {
        d[i] = b;
    }
    let mut sum: u8 = 0;
    for i in 0x134..0x14D {
        sum = sum.wrapping_sub(d[i]).wrapping_sub(1);
    }
    d[0x14D] = sum;
    d
}

fn cpu_with(mbc: u8, size_code: u8, program: &[(usize, u8)]) -> Cpu {
    let rom = Rom::new(image(mbc, size_code, program)).unwrap();
    let cart = new_mbc(rom).unwrap();
    Cpu::new(Bus::new(Ppu::new(), cart))
}

#[test]
fn load_then_increment_accumulator() {
    let mut cpu = cpu_with(0x00, 0, &[(0x100, 0x3E), (0x101, 0x05), (0x102, 0x3C)]);
    cpu.pc = 0x100;
    cpu.tick().unwrap();
    cpu.tick().unwrap();
    assert_eq!(cpu.a, 0x06);
    assert!(!cpu.f.z);
    assert!(!cpu.f.n);
    assert!(!cpu.f.h);
    assert_eq!(cpu.pc, 0x103);
}

#[test]
fn whole_console_runs_program_after_reset() {
    let rom = Rom::new(image(0x00, 0, &[(0x100, 0x3E), (0x101, 0x0F), (0x102, 0x3C)])).unwrap();
    let mut gb = Gb::new(rom).unwrap();
    gb.reset();
    assert_eq!(gb.cpu.pc, 0x100);
    gb.tick().unwrap();
    gb.tick().unwrap();
    assert_eq!(gb.cpu.a, 0x10);
    assert!(gb.cpu.f.h);
    assert_eq!(gb.cpu.bus.ppu.cycles, 6);
    assert_eq!(gb.cpu.bus.timer.counter, 12);
}

#[test]
fn mbc1_rom_bank_switch() {
    let mut d = image(0x01, 1, &[]);
    d[2 * 16384] = 0xAB;
    d[16384] = 0x11;
    let mut m = Mbc1::new(Rom::new(d).unwrap());
    assert_eq!(m.read(0x4000), 0x11);
    m.write(0x2000, 0x02);
    assert_eq!(m.read(0x4000), 0xAB);
    m.write(0x2000, 0x00);
    assert_eq!(m.read(0x4000), 0x11);
}

#[test]
fn mbc1_ram_enable_round_trip() {
    let mut m = Mbc1::new(Rom::new(image(0x01, 0, &[])).unwrap());
    m.write(0x0000, 0x0A);
    m.write(0xA000, 0x42);
    assert_eq!(m.read(0xA000), 0x42);
    m.write(0x0000, 0x00);
    assert_eq!(m.read(0xA000), 0);
    m.write(0xA000, 0x55);
    m.write(0x0000, 0x1A);
    assert_eq!(m.read(0xA000), 0x42);
}

#[test]
fn mbc1_ram_banking_mode() {
    let mut m = Mbc1::new(Rom::new(image(0x03, 0, &[])).unwrap());
    m.write(0x6000, 0x01);
    m.write(0x4000, 0x02);
    m.write(0xA000, 0x77);
    m.write(0x4000, 0x00);
    assert_eq!(m.read(0xA000), 0);
    m.write(0x4000, 0x02);
    assert_eq!(m.read(0xA000), 0x77);
}

#[test]
fn rom_only_reads_and_ram() {
    let mut c = RomOnly::new(Rom::new(image(0x00, 0, &[(0x1234, 0x99)])).unwrap());
    assert_eq!(c.read(0x1234), 0x99);
    c.write(0x1234, 0x00);
    assert_eq!(c.read(0x1234), 0x99);
    c.write(0xBFFF, 0x3C);
    assert_eq!(c.read(0xBFFF), 0x3C);
}

#[test]
fn vblank_interrupt_dispatch() {
    let mut cpu = cpu_with(0x00, 0, &[]);
    cpu.sp = 0xFFFE;
    cpu.pc = 0x1234;
    cpu.ime = true;
    cpu.bus.write(0xFFFF, 0x01);
    cpu.bus.set_irq_v_blank(true);
    cpu.tick().unwrap();
    assert!(!cpu.bus.irq_v_blank());
    assert!(!cpu.ime);
    assert_eq!(cpu.pc, 0x0040);
    assert_eq!(cpu.sp, 0xFFFC);
    assert_eq!(cpu.bus.read_word(0xFFFC), 0x1234);
}

#[test]
fn interrupt_priority_and_mask() {
    let mut cpu = cpu_with(0x00, 0, &[]);
    cpu.sp = 0xD000;
    cpu.pc = 0x0200;
    cpu.ime = true;
    cpu.bus.write(0xFFFF, 0x04 | 0x10);
    cpu.bus.write(0xFF0F, 0x1F);
    cpu.tick().unwrap();
    assert_eq!(cpu.pc, 0x0050);
    assert_eq!(cpu.bus.read(0xFF0F), 0x1B);
}

#[test]
fn halt_waits_until_interrupt() {
    let mut cpu = cpu_with(0x00, 0, &[(0x100, 0x76), (0x101, 0x3C)]);
    cpu.pc = 0x100;
    cpu.sp = 0xFFFE;
    cpu.tick().unwrap();
    assert!(cpu.halt);
    cpu.tick().unwrap();
    assert_eq!(cpu.pc, 0x101);
    cpu.ime = true;
    cpu.bus.write(0xFFFF, 0x01);
    cpu.bus.set_irq_v_blank(true);
    cpu.tick().unwrap();
    assert!(!cpu.halt);
    assert_eq!(cpu.pc, 0x40);
}

#[test]
fn unknown_opcode_is_error() {
    let mut cpu = cpu_with(0x00, 0, &[(0x100, 0xD3)]);
    cpu.pc = 0x100;
    assert_eq!(cpu.tick(), Err(CpuError::UnknownOpcode(0xD3)));
}

#[test]
fn register_index_errors() {
    let mut cpu = cpu_with(0x00, 0, &[]);
    assert_eq!(cpu.add_8_a_r(8), Err(CpuError::UnknownRegister(8)));
    assert_eq!(cpu.load_8_r_r(0, 9), Err(CpuError::UnknownRegister(9)));
    assert_eq!(cpu.push_16_rr(4), Err(CpuError::UnknownRegisterPair(4)));
    assert_eq!(cpu.a, 0);
}

#[test]
fn push_pop_restores_pairs() {
    let mut cpu = cpu_with(0x00, 0, &[]);
    cpu.sp = 0xDFF0;
    cpu.bc = 0xBEEF;
    cpu.push_16_rr(0).unwrap();
    assert_eq!(cpu.sp, 0xDFEE);
    cpu.bc = 0;
    cpu.pop_16_rr(0).unwrap();
    assert_eq!(cpu.bc, 0xBEEF);
    assert_eq!(cpu.sp, 0xDFF0);
    cpu.a = 0x12;
    cpu.f = Flags { z: true, n: false, h: true, c: false };
    cpu.push_16_rr(3).unwrap();
    cpu.a = 0;
    cpu.f = Flags { z: false, n: false, h: false, c: false };
    cpu.pop_16_rr(3).unwrap();
    assert_eq!(cpu.a, 0x12);
    assert_eq!(cpu.f, Flags { z: true, n: false, h: true, c: false });
    assert_eq!(cpu.sp, 0xDFF0);
}

#[test]
fn pop_af_drops_low_nibble() {
    let mut cpu = cpu_with(0x00, 0, &[]);
    cpu.sp = 0xC100;
    cpu.bus.write_word(0xC100, 0x34FF);
    cpu.pop_16_rr(3).unwrap();
    assert_eq!(cpu.a, 0x34);
    assert_eq!(cpu.f, Flags { z: true, n: true, h: true, c: true });
    cpu.push_16_rr(3).unwrap();
    assert_eq!(cpu.bus.read_word(0xC100), 0x34F0);
}

#[test]
fn add_then_sub_round_trip() {
    for &(a, b) in &[(0x3Au8, 0xC6u8), (0x00, 0x00), (0xFF, 0x01), (0x0F, 0x01), (0x80, 0x80)] {
        let (s, _) = add_8(a, b, false);
        assert_eq!(sub_8(s, b, false).0, a);
        let (d, _) = sub_8(a, b, false);
        assert_eq!(add_8(d, b, false).0, a);
    }
}

#[test]
fn add_and_sub_flags() {
    assert_eq!(add_8(0x3A, 0xC6, false), (0x00, Flags { z: true, n: false, h: true, c: true }));
    assert_eq!(add_8(0x0F, 0x00, true), (0x10, Flags { z: false, n: false, h: true, c: false }));
    assert_eq!(sub_8(0x3E, 0x3E, false), (0x00, Flags { z: true, n: true, h: false, c: false }));
    assert_eq!(sub_8(0x3E, 0x0F, false), (0x2F, Flags { z: false, n: true, h: true, c: false }));
    assert_eq!(sub_8(0x3E, 0x40, false), (0xFE, Flags { z: false, n: true, h: false, c: true }));
    assert_eq!(sub_8(0x10, 0x0F, true), (0x00, Flags { z: true, n: true, h: true, c: false }));
}

#[test]
fn logic_and_compare_instructions() {
    let mut cpu = cpu_with(0x00, 0, &[(0x100, 0xE6), (0x101, 0x0F), (0x102, 0xFE), (0x103, 0x05)]);
    cpu.pc = 0x100;
    cpu.a = 0x35;
    cpu.tick().unwrap();
    assert_eq!(cpu.a, 0x05);
    assert_eq!(cpu.f, Flags { z: false, n: false, h: true, c: false });
    cpu.tick().unwrap();
    assert_eq!(cpu.a, 0x05);
    assert_eq!(cpu.f, Flags { z: true, n: true, h: false, c: false });
}

#[test]
fn rotates_and_swap() {
    let f0 = Flags { z: false, n: false, h: false, c: false };
    let f1 = Flags { c: true, ..f0 };
    assert_eq!(shift(0, 0x85, f0), (0x0B, Flags { c: true, ..f0 }));
    assert_eq!(shift(1, 0x01, f0), (0x80, Flags { c: true, ..f0 }));
    assert_eq!(shift(2, 0x80, f0), (0x00, Flags { z: true, c: true, ..f0 }));
    assert_eq!(shift(3, 0x01, f1), (0x80, Flags { c: true, ..f0 }));
    assert_eq!(shift(5, 0x81, f0), (0xC0, Flags { c: true, ..f0 }));
    assert_eq!(shift(6, 0xF1, f1), (0x1F, f0));
    assert_eq!(shift(7, 0x01, f0), (0x00, Flags { z: true, c: true, ..f0 }));
}

#[test]
fn decimal_adjust() {
    let f0 = Flags { z: false, n: false, h: false, c: false };
    let (s, f) = add_8(0x45, 0x38, false);
    assert_eq!(daa(s, f), (0x83, f0));
    let (s, f) = add_8(0x99, 0x01, false);
    assert_eq!(daa(s, f), (0x00, Flags { z: true, c: true, ..f0 }));
}

#[test]
fn bit_set_res_on_memory() {
    let mut cpu = cpu_with(0x00, 0, &[(0x100, 0xCB), (0x101, 0xFE), (0x102, 0xCB), (0x103, 0x7E)]);
    cpu.pc = 0x100;
    cpu.hl = 0xC010;
    cpu.tick().unwrap();
    assert_eq!(cpu.bus.read(0xC010), 0x80);
    cpu.tick().unwrap();
    assert!(!cpu.f.z);
    assert!(cpu.f.h);
    cpu.reset_8_bit_r(6, 7).unwrap();
    assert_eq!(cpu.bus.read(0xC010), 0x00);
}

#[test]
fn call_ret_and_restart() {
    let mut cpu = cpu_with(0x00, 0, &[(0x100, 0xCD), (0x101, 0x00), (0x102, 0x20), (0x2000, 0xC9), (0x103, 0xEF)]);
    cpu.pc = 0x100;
    cpu.sp = 0xFFFE;
    cpu.tick().unwrap();
    assert_eq!(cpu.pc, 0x2000);
    assert_eq!(cpu.bus.read_word(0xFFFC), 0x103);
    cpu.tick().unwrap();
    assert_eq!(cpu.pc, 0x103);
    assert_eq!(cpu.sp, 0xFFFE);
    cpu.tick().unwrap();
    assert_eq!(cpu.pc, 0x28);
    assert_eq!(cpu.bus.read_word(0xFFFC), 0x104);
}

#[test]
fn relative_jumps() {
    let mut cpu = cpu_with(0x00, 0, &[(0x100, 0x18), (0x101, 0xFE), (0x200, 0x20), (0x201, 0x05)]);
    cpu.pc = 0x100;
    cpu.tick().unwrap();
    assert_eq!(cpu.pc, 0x100);
    cpu.pc = 0x200;
    cpu.f.z = true;
    cpu.tick().unwrap();
    assert_eq!(cpu.pc, 0x202);
}

#[test]
fn bus_round_trips() {
    let mut cpu = cpu_with(0x00, 0, &[]);
    for &(addr, v) in &[(0xC000u16, 0x11u8), (0xDFFF, 0x22), (0xFF80, 0x33), (0xFFFE, 0x44), (0x8000, 0x55), (0x9FFF, 0x66)] {
        cpu.bus.write(addr, v);
        assert_eq!(cpu.bus.read(addr), v);
    }
    cpu.bus.write(0xE005, 0x77);
    assert_eq!(cpu.bus.read(0xC005), 0x77);
    cpu.bus.write(0xFEA0, 0x12);
    assert_eq!(cpu.bus.read(0xFEA0), 0);
    cpu.bus.write(0xFE01, 0x9A);
    assert_eq!(cpu.bus.read(0xFE01), 0x9A);
    cpu.bus.write_word(0xC100, 0xABCD);
    assert_eq!(cpu.bus.read(0xC100), 0xCD);
    assert_eq!(cpu.bus.read_word(0xC100), 0xABCD);
}

#[test]
fn io_registers_through_bus() {
    let mut cpu = cpu_with(0x00, 0, &[]);
    cpu.bus.write(0xFF07, 0x05);
    assert_eq!(cpu.bus.read(0xFF07), 0x05);
    cpu.bus.write(0xFF47, 0xE4);
    assert_eq!(cpu.bus.read(0xFF47), 0xE4);
    cpu.bus.write(0xFF0F, 0x15);
    assert!(cpu.bus.irq_v_blank());
    assert!(cpu.bus.irq_timer());
    assert!(cpu.bus.irq_joypad());
    assert!(!cpu.bus.irq_lcd_stat());
    assert_eq!(cpu.bus.read(0xFF0F), 0x15);
    cpu.bus.write(0xFF02, 0x80);
    cpu.bus.write(0xFF02, 0x00);
    assert!(cpu.bus.irq_serial());
}

#[test]
fn frame_timing_and_single_vblank() {
    let mut ppu = Ppu::new();
    let mut raised_at = Vec::new();
    let mut prev = ppu.int_v_blank;
    for i in 1..=(456u32 * 154) {
        ppu.tick();
        if i < 456 * 154 {
            assert_eq!((ppu.lines as u32, ppu.cycles as u32), (i / 456, i % 456));
        }
        if ppu.int_v_blank && !prev {
            raised_at.push(i);
        }
        prev = ppu.int_v_blank;
    }
    assert_eq!(raised_at, vec![144 * 456]);
    assert_eq!(ppu.read_lines(), 0);
    assert_eq!(ppu.cycles, 0);
}

#[test]
fn mode_follows_position() {
    let mut ppu = Ppu::new();
    assert_eq!(ppu.mode, Mode::OamScan);
    ppu.lines = 10;
    ppu.cycles = 100;
    ppu.mode = Mode::Drawing;
    ppu.tick();
    assert_eq!(ppu.mode, Mode::Drawing);
    ppu.cycles = 239;
    ppu.tick();
    assert_eq!(ppu.mode, Mode::HBlank);
    ppu.lines = 150;
    ppu.cycles = 455;
    ppu.mode = Mode::VBlank;
    ppu.tick();
    assert_eq!(ppu.mode, Mode::VBlank);
    ppu.lines = 153;
    ppu.cycles = 455;
    ppu.tick();
    assert_eq!((ppu.lines, ppu.cycles, ppu.mode), (0, 0, Mode::OamScan));
}

#[test]
fn background_pixel_reaches_frame() {
    let mut ppu = Ppu::new();
    let mut frame = Vec::new();
    ppu.render(&mut frame);
    assert_eq!(frame, vec![0u8; 160 * 144 * 4]);
    ppu.write(0x9000, 0xFF);
    ppu.write(0x9001, 0xFF);
    ppu.write_bg_palette(0xE4);
    ppu.write_lcd_control(0x01);
    for _ in 0..241 {
        ppu.tick();
    }
    ppu.render(&mut frame);
    assert_eq!(&frame[0..4], &[0x00, 0x14, 0x1B, 0xFF]);
    assert_eq!(&frame[4..8], &[0x00, 0x14, 0x1B, 0xFF]);
    assert_eq!(&frame[8..12], &[0, 0, 0, 0]);
}

#[test]
fn timer_period_and_overflow() {
    let mut t = Timer::new();
    t.write_tac(0b100);
    let mut increments = Vec::new();
    for i in 1..=3000u32 {
        let before = t.read_tima();
        t.tick();
        if t.read_tima() != before {
            increments.push(i);
        }
    }
    assert_eq!(increments, vec![1024, 2048]);
    let mut t = Timer::new();
    t.write_tac(0b100);
    t.write_tma(0x10);
    t.write_tima(0xFF);
    for _ in 0..1023 {
        t.tick();
    }
    assert_eq!(t.read_tima(), 0xFF);
    assert!(!t.int);
    t.tick();
    assert_eq!(t.read_tima(), 0x10);
    assert!(t.int);
}

#[test]
fn timer_div_and_tac() {
    let mut t = Timer::new();
    for _ in 0..0x300 {
        t.tick();
    }
    assert_eq!(t.read_div(), 3);
    t.write_div(0x55);
    assert_eq!(t.read_div(), 0);
    t.write_tac(0xFF);
    assert_eq!(t.read_tac(), 0x07);
}

#[test]
fn joypad_views() {
    let mut j = Joypad::new();
    assert_eq!(j.read(), 0xFF);
    j.press(JoypadKey::A);
    assert!(j.int);
    j.press(JoypadKey::Down);
    j.write(0x10);
    assert_eq!(j.read(), 0xDE);
    j.write(0x20);
    assert_eq!(j.read(), 0xE7);
    j.release(JoypadKey::Down);
    assert_eq!(j.read(), 0xEF);
}

#[test]
fn rom_header_errors() {
    assert_eq!(Rom::new(vec![0; 0x100]).err(), Some(RomError::Truncated));
    let mut d = image(0x00, 0, &[]);
    d[0x146] = 0x01;
    assert_eq!(Rom::new(d).err(), Some(RomError::UnknownSgbFlag(0x01)));
    let d = image(0x04, 0, &[]);
    assert_eq!(Rom::new(d).err(), Some(RomError::UnknownMbcType(0x04)));
    let mut d = image(0x00, 0, &[]);
    d[0x148] = 0x09;
    assert_eq!(Rom::new(d).err(), Some(RomError::UnknownRomSize(0x09)));
    let d = image(0x00, 0, &[(0x149, 0x06)]);
    assert_eq!(Rom::new(d).err(), Some(RomError::UnknownRamSize(0x06)));
    let d = image(0x00, 0, &[(0x14A, 0x02)]);
    assert_eq!(Rom::new(d).err(), Some(RomError::UnknownDestinationCode(0x02)));
    let mut d = image(0x00, 0, &[]);
    d[0x14D] ^= 1;
    let computed = d[0x14D] ^ 1;
    assert_eq!(Rom::new(d.clone()).err(), Some(RomError::HeaderChecksum { stored: d[0x14D], computed }));
    let mut d = image(0x00, 0, &[]);
    d.push(0);
    assert_eq!(Rom::new(d).err(), Some(RomError::RomSize { expected: 0x8000, actual: 0x8001 }));
}

#[test]
fn rom_header_fields() {
    let d = image(0x01, 1, &[(0x134, b'G'), (0x135, b'B'), (0x14B, 0x33), (0x14E, 0xAA)]);
    let rom = Rom::new(d).unwrap();
    assert_eq!(rom.mbc_type, MbcType::Mbc1);
    assert_eq!(rom.rom_size, 0x10000);
    assert_eq!(&rom.title[0..2], b"GB");
    assert_eq!(rom.old_licensee_code, 0x33);
    assert_eq!(rom.global_checksum, vec![0xAA, 0x00]);
    assert_eq!(rom.data.len(), 0x10000);
}

#[test]
fn unsupported_controller() {
    let rom = Rom::new(image(0x11, 0, &[])).unwrap();
    assert!(matches!(new_mbc(rom), Err(MbcError::Unsupported(MbcType::Mbc3))));
    let rom = Rom::new(image(0x01, 0, &[])).unwrap();
    assert!(matches!(new_mbc(rom), Ok(Cartridge::Mbc1(_))));
}

#[test]
fn hex_of_bytes() {
    assert_eq!(bytes_to_hex(&[0x00, 0xAB, 0x5F]), "00AB5F");
    assert_eq!(bytes_to_hex(&[]), "");
}

#[test]
fn debugger_breakpoints() {
    let mut d = Debugger::new(vec![0x150, 0x200]);
    assert!(d.should_break(0x200));
    assert!(!d.should_break(0x201));
    d.step_run = true;
    assert!(d.should_break(0x201));
}

#[test]
fn vblank_request_raised_once_per_frame() {
    let mut ppu = Ppu::new();
    for _ in 0..(144 * 456) {
        ppu.tick();
    }
    assert_eq!(ppu.read_lines(), 144);
    assert!(ppu.int_v_blank);
    ppu.int_v_blank = false;
    for _ in 0..455 {
        ppu.tick();
    }
    assert!(!ppu.int_v_blank);
}

#[test]
fn interrupt_costs_five_cycles() {
    let rom = Rom::new(image(0x00, 0, &[(0x40, 0x3C)])).unwrap();
    let mut gb = Gb::new(rom).unwrap();
    gb.cpu.sp = 0xFFFE;
    gb.cpu.ime = true;
    gb.cpu.bus.write(0xFFFF, 0x01);
    gb.cpu.bus.set_irq_v_blank(true);
    gb.tick().unwrap();
    assert_eq!(gb.cpu.pc, 0x40);
    assert_eq!(gb.cpu.cycles, 5);
    assert_eq!(gb.cpu.bus.timer.counter, 20);
    gb.tick().unwrap();
    assert_eq!(gb.cpu.pc, 0x41);
    assert_eq!(gb.cpu.a, 1);
    assert_eq!(gb.cpu.cycles, 1);
}

#[test]
fn instruction_cycle_counts() {
    let mut cpu = cpu_with(
        0x00,
        0,
        &[(0x100, 0x00), (0x101, 0x36), (0x102, 0x01), (0x103, 0xCD), (0x104, 0x00), (0x105, 0x20),
          (0x2000, 0xC8), (0x2001, 0xCB), (0x2002, 0x46), (0x2003, 0x20), (0x2004, 0x00)],
    );
    cpu.pc = 0x100;
    cpu.sp = 0xFFFE;
    cpu.hl = 0xC000;
    let mut seen = Vec::new();
    for _ in 0..6 {
        cpu.tick().unwrap();
        seen.push(cpu.cycles);
    }
    assert_eq!(seen, vec![1, 3, 6, 2, 3, 3]);
}

#[test]
fn stack_pointer_loads() {
    let mut cpu = cpu_with(0x00, 0, &[(0x100, 0x08), (0x101, 0x00), (0x102, 0xC2), (0x103, 0xF8), (0x104, 0xFF)]);
    cpu.pc = 0x100;
    cpu.sp = 0xABCD;
    cpu.tick().unwrap();
    assert_eq!(cpu.bus.read_word(0xC200), 0xABCD);
    cpu.sp = 0x0FFF;
    cpu.tick().unwrap();
    assert_eq!(cpu.hl, 0x0FFE);
    assert!(!cpu.f.z && !cpu.f.n);
    assert!(cpu.f.h);
    assert!(cpu.f.c);
}

#[test]
fn console_joypad_keys() {
    let rom = Rom::new(image(0x00, 0, &[])).unwrap();
    let mut gb = Gb::new(rom).unwrap();
    gb.press(JoypadKey::Start);
    assert!(gb.cpu.bus.irq_joypad());
    gb.cpu.bus.write(0xFF00, 0x10);
    assert_eq!(gb.cpu.bus.read(0xFF00), 0xD7);
    gb.release(JoypadKey::Start);
    assert_eq!(gb.cpu.bus.read(0xFF00), 0xDF);
    let mut frame = vec![1u8; 3];
    gb.render(&mut frame);
    assert_eq!(frame, vec![0u8; 160 * 144 * 4]);
}

#[test]
fn timer_reload_uses_value_before_write() {
    let mut t = Timer::new();
    t.write_tac(0b100);
    t.write_tma(0x20);
    t.write_tima(0xFF);
    for _ in 0..1023 {
        t.tick();
    }
    t.counter = t.counter.wrapping_add(1);
    t.write_tma(0x30);
    assert_eq!(t.read_tima(), 0x20);
    assert!(t.int);
    assert_eq!(t.read_tma(), 0x30);
}
