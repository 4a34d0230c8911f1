use ayyboy::cpu::Cpu;
use ayyboy::error::AyyError;
use ayyboy::gameboy::GameBoy;
use ayyboy::handlers::Handlers;
use ayyboy::irq::Ime;
use ayyboy::registers::{Register, Registers};
use ayyboy::sm83::{decode_opcode, Opcode};

/// A console running a flat 32 KiB ROM whose bytes at 0x100 are `program`.
fn console_with(program: &[u8]) -> GameBoy {
    let mut rom = vec![0u8; 0x8000];
    for (i, b) in program.iter().enumerate() {
        rom[0x100 + i] = *b;
    }
    rom[0x147] = 0x00;
    let mut gb = GameBoy::new(Vec::new(), rom).unwrap();
    gb.cpu.registers.pc = 0x100;
    gb
}

fn step(gb: &mut GameBoy) -> Result<usize, AyyError> {
    gb.cpu.tick(&mut gb.mmu, &mut gb.timer)
}

#[test]
fn register_add_sets_all_flags() {
    let mut gb = console_with(&[0x80]);
    gb.cpu.registers.a = 0x3a;
    gb.cpu.registers.b = 0xc6;
    gb.cpu.registers.f = 0x00;
    assert_eq!(step(&mut gb), Ok(4));
    assert_eq!(gb.cpu.registers.a, 0x00);
    assert_eq!(gb.cpu.registers.f, 0xb0);
}

#[test]
fn increment_half_carry_keeps_carry() {
    let mut gb = console_with(&[0x3c]);
    gb.cpu.registers.a = 0x0f;
    gb.cpu.registers.f = 0x00;
    step(&mut gb).unwrap();
    assert_eq!(gb.cpu.registers.a, 0x10);
    assert_eq!(gb.cpu.registers.f, 0x20);

    let mut gb = console_with(&[0x3c]);
    gb.cpu.registers.a = 0x0f;
    gb.cpu.registers.f = 0x10;
    step(&mut gb).unwrap();
    assert_eq!(gb.cpu.registers.f, 0x30);
}

#[test]
fn conditional_jump_not_taken() {
    let mut gb = console_with(&[0xca, 0x34, 0x12]);
    gb.cpu.registers.f = 0x00;
    assert_eq!(step(&mut gb), Ok(12));
    assert_eq!(gb.cpu.registers.pc, 0x0103);
}

#[test]
fn conditional_jump_taken() {
    let mut gb = console_with(&[0xca, 0x34, 0x12]);
    gb.cpu.registers.f = 0x80;
    assert_eq!(step(&mut gb), Ok(16));
    assert_eq!(gb.cpu.registers.pc, 0x1234);
}

#[test]
fn call_then_return() {
    let mut rom_program = vec![0xcd, 0x00, 0x20];
    rom_program.resize(0x2000 - 0x100 + 1, 0);
    rom_program[0x2000 - 0x100] = 0xc9;
    let mut gb = console_with(&rom_program);
    gb.cpu.registers.sp = 0xfffe;
    assert_eq!(step(&mut gb), Ok(24));
    assert_eq!(gb.cpu.registers.pc, 0x2000);
    assert_eq!(gb.cpu.registers.sp, 0xfffc);
    assert_eq!(gb.mmu.read(0xfffc), Ok(0x03));
    assert_eq!(gb.mmu.read(0xfffd), Ok(0x01));
    assert_eq!(step(&mut gb), Ok(16));
    assert_eq!(gb.cpu.registers.pc, 0x0103);
    assert_eq!(gb.cpu.registers.sp, 0xfffe);
}

#[test]
fn flag_register_drops_low_nibble() {
    for f in 0..=255u8 {
        let mut cpu = Cpu::new();
        cpu.write_register(Register::F, f);
        assert_eq!(cpu.read_register(Register::F), f & 0xf0);
        cpu.write_register16(Register::AF, 0x1200 | f as u16);
        assert_eq!(cpu.read_register16(Register::AF), 0x1200 | (f & 0xf0) as u16);
    }
}

#[test]
fn pop_af_drops_low_nibble() {
    let mut gb = console_with(&[0xf1]);
    gb.cpu.registers.sp = 0xc000;
    gb.mmu.write(0xc000, 0xff).unwrap();
    gb.mmu.write(0xc001, 0x12).unwrap();
    step(&mut gb).unwrap();
    assert_eq!(gb.cpu.registers.a, 0x12);
    assert_eq!(gb.cpu.registers.f, 0xf0);
    assert_eq!(gb.cpu.registers.sp, 0xc002);
}

#[test]
fn ei_takes_effect_one_instruction_late() {
    let mut gb = console_with(&[0xfb, 0x00, 0x00]);
    step(&mut gb).unwrap();
    assert!(!gb.cpu.interrupt_master_raised());
    assert!(gb.cpu.ime.enable_pending);
    step(&mut gb).unwrap();
    assert!(gb.cpu.interrupt_master_raised());
    step(&mut gb).unwrap();
    assert!(gb.cpu.interrupt_master_raised());
}

#[test]
fn di_clears_ime_at_once() {
    let mut gb = console_with(&[0xf3]);
    gb.cpu.ime = Ime { enabled: true, enable_pending: false };
    step(&mut gb).unwrap();
    assert!(!gb.cpu.interrupt_master_raised());
}

#[test]
fn reti_pops_and_enables() {
    let mut gb = console_with(&[0xd9]);
    gb.cpu.registers.sp = 0xc000;
    gb.mmu.write(0xc000, 0x34).unwrap();
    gb.mmu.write(0xc001, 0x12).unwrap();
    assert_eq!(step(&mut gb), Ok(16));
    assert_eq!(gb.cpu.registers.pc, 0x1234);
    assert_eq!(gb.cpu.registers.sp, 0xc002);
    assert!(gb.cpu.interrupt_master_raised());
}

#[test]
fn interrupt_dispatch_pushes_and_clears_flag() {
    let mut gb = console_with(&[0x00]);
    gb.cpu.registers.sp = 0xd000;
    gb.cpu.ime = Ime { enabled: true, enable_pending: false };
    gb.mmu.write(0xffff, 0x05).unwrap();
    gb.mmu.write(0xff0f, 0x04).unwrap();
    let cycles = step(&mut gb).unwrap();
    assert_eq!(cycles, 20);
    assert_eq!(gb.mmu.read(0xff0f), Ok(0x00));
    assert_eq!(gb.mmu.read(0xcffe), Ok(0x00));
    assert_eq!(gb.mmu.read(0xcfff), Ok(0x01));
    assert!(!gb.cpu.interrupt_master_raised());
    assert_eq!(gb.cpu.registers.pc, 0x50);
    assert_eq!(gb.cpu.registers.sp, 0xcffe);
}

#[test]
fn halt_idles_until_interrupt_pending() {
    let mut gb = console_with(&[0x76, 0x00]);
    step(&mut gb).unwrap();
    assert!(gb.cpu.halted);
    assert_eq!(step(&mut gb), Ok(4));
    assert_eq!(gb.cpu.registers.pc, 0x101);
    gb.mmu.write(0xffff, 0x01).unwrap();
    gb.mmu.write(0xff0f, 0x01).unwrap();
    step(&mut gb).unwrap();
    assert!(!gb.cpu.halted);
    assert_eq!(gb.cpu.registers.pc, 0x102);
}

#[test]
fn daa_after_bcd_addition() {
    // 0x15 + 0x27 = 0x3c, adjusted to 0x42
    let mut gb = console_with(&[0x80, 0x27]);
    gb.cpu.registers.a = 0x15;
    gb.cpu.registers.b = 0x27;
    step(&mut gb).unwrap();
    step(&mut gb).unwrap();
    assert_eq!(gb.cpu.registers.a, 0x42);
    assert_eq!(gb.cpu.registers.f & 0x10, 0);
}

#[test]
fn add_sp_offset_flags_from_low_byte() {
    let mut gb = console_with(&[0xe8, 0xff]);
    gb.cpu.registers.sp = 0x00ff;
    step(&mut gb).unwrap();
    assert_eq!(gb.cpu.registers.sp, 0x00fe);
    assert_eq!(gb.cpu.registers.f, 0x30);
}

#[test]
fn load_hl_sp_offset() {
    let mut gb = console_with(&[0xf8, 0x02]);
    gb.cpu.registers.sp = 0xfff8;
    step(&mut gb).unwrap();
    assert_eq!(gb.cpu.read_register16(Register::HL), 0xfffa);
    assert_eq!(gb.cpu.registers.f, 0x00);
}

#[test]
fn add_hl_keeps_zero_flag() {
    let mut gb = console_with(&[0x09]);
    gb.cpu.registers.h = 0x0f;
    gb.cpu.registers.l = 0xff;
    gb.cpu.registers.b = 0x00;
    gb.cpu.registers.c = 0x01;
    gb.cpu.registers.f = 0x80;
    step(&mut gb).unwrap();
    assert_eq!(gb.cpu.read_register16(Register::HL), 0x1000);
    assert_eq!(gb.cpu.registers.f, 0xa0);
}

#[test]
fn rla_clears_zero_but_rl_sets_it() {
    let mut gb = console_with(&[0x17]);
    gb.cpu.registers.a = 0x80;
    gb.cpu.registers.f = 0x00;
    step(&mut gb).unwrap();
    assert_eq!(gb.cpu.registers.a, 0x00);
    assert_eq!(gb.cpu.registers.f, 0x10);

    let mut gb = console_with(&[0xcb, 0x17]);
    gb.cpu.registers.a = 0x80;
    gb.cpu.registers.f = 0x00;
    assert_eq!(step(&mut gb), Ok(8));
    assert_eq!(gb.cpu.registers.a, 0x00);
    assert_eq!(gb.cpu.registers.f, 0x90);
}

#[test]
fn load_through_hl_increment() {
    let mut gb = console_with(&[0x22, 0x3a]);
    gb.cpu.registers.a = 0x5a;
    gb.cpu.registers.h = 0xc0;
    gb.cpu.registers.l = 0x10;
    step(&mut gb).unwrap();
    assert_eq!(gb.mmu.read(0xc010), Ok(0x5a));
    assert_eq!(gb.cpu.read_register16(Register::HL), 0xc011);
    gb.cpu.registers.a = 0;
    step(&mut gb).unwrap();
    assert_eq!(gb.cpu.read_register16(Register::HL), 0xc010);
}

#[test]
fn ldh_and_ld_c_use_high_page() {
    let mut gb = console_with(&[0xe0, 0x80, 0xe2]);
    gb.cpu.registers.a = 0x77;
    gb.cpu.registers.c = 0x81;
    step(&mut gb).unwrap();
    step(&mut gb).unwrap();
    assert_eq!(gb.mmu.read(0xff80), Ok(0x77));
    assert_eq!(gb.mmu.read(0xff81), Ok(0x77));
}

#[test]
fn rst_jumps_to_vector() {
    let mut gb = console_with(&[0xef]);
    gb.cpu.registers.sp = 0xd000;
    step(&mut gb).unwrap();
    assert_eq!(gb.cpu.registers.pc, 0x28);
    assert_eq!(gb.mmu.read(0xcffe), Ok(0x01));
    assert_eq!(gb.mmu.read(0xcfff), Ok(0x01));
}

#[test]
fn bit_res_set_on_memory() {
    let mut gb = console_with(&[0xcb, 0x46, 0xcb, 0xc6, 0xcb, 0x86]);
    gb.cpu.registers.h = 0xc0;
    gb.cpu.registers.l = 0x00;
    gb.cpu.registers.f = 0x10;
    assert_eq!(step(&mut gb), Ok(12));
    assert_eq!(gb.cpu.registers.f, 0xb0);
    assert_eq!(step(&mut gb), Ok(16));
    assert_eq!(gb.mmu.read(0xc000), Ok(0x01));
    step(&mut gb).unwrap();
    assert_eq!(gb.mmu.read(0xc000), Ok(0x00));
}

#[test]
fn swap_and_sub_with_borrow() {
    let mut gb = console_with(&[0xcb, 0x37, 0x98]);
    gb.cpu.registers.a = 0xf1;
    step(&mut gb).unwrap();
    assert_eq!(gb.cpu.registers.a, 0x1f);
    assert_eq!(gb.cpu.registers.f, 0x00);
    gb.cpu.registers.b = 0x1f;
    gb.cpu.registers.f = 0x10;
    step(&mut gb).unwrap();
    assert_eq!(gb.cpu.registers.a, 0xff);
    assert_eq!(gb.cpu.registers.f, 0x70);
}

#[test]
fn illegal_opcode_is_refused() {
    for op in [0xd3u8, 0xdb, 0xdd, 0xe3, 0xe4, 0xeb, 0xec, 0xed, 0xf4, 0xfc, 0xfd] {
        assert!(matches!(decode_opcode(op, false, 0, 0), Err(AyyError::IllegalOpcode { opcode }) if opcode == op));
    }
    let mut gb = console_with(&[0xd3]);
    assert_eq!(step(&mut gb), Err(AyyError::IllegalOpcode { opcode: 0xd3 }));
}

#[test]
fn decoder_lengths_and_cycles() {
    let jr = decode_opcode(0x20, false, 0xfe, 0).unwrap();
    assert_eq!(jr.opcode, Opcode::Jr);
    assert_eq!(jr.length, 2);
    assert_eq!(jr.cycles, (12, Some(8)));
    let call = decode_opcode(0xc4, false, 0, 0x20).unwrap();
    assert_eq!(call.length, 3);
    assert_eq!(call.cycles, (24, Some(12)));
    let set = decode_opcode(0xfe, true, 0, 0).unwrap();
    assert_eq!(set.opcode, Opcode::SetBit);
    assert_eq!(set.cycles, (16, None));
    for op in 0..=255u8 {
        if let Ok(ins) = decode_opcode(op, false, 0, 0) {
            assert!(ins.length >= 1 && ins.length <= 3);
        }
        assert_eq!(decode_opcode(op, true, 0, 0).unwrap().length, 2);
    }
}

#[test]
fn registers_start_cleared() {
    let r = Registers::new();
    assert_eq!((r.a, r.f, r.sp, r.pc), (0, 0, 0, 0));
}

#[test]
fn prefix_byte_alone_is_no_instruction() {
    assert_eq!(
        decode_opcode(0xcb, false, 0, 0).err(),
        Some(AyyError::DecoderFailure { opcode: 0xcb, address: 0 })
    );
}

#[test]
fn handler_refuses_foreign_shape() {
    let mut gb = console_with(&[0x00]);
    let nop = decode_opcode(0x00, false, 0, 0).unwrap();
    assert_eq!(Handlers::add(&mut gb.cpu, &gb.mmu, &nop), Err(AyyError::InvalidHandler));
    let before = gb.cpu.registers;
    assert_eq!(Handlers::push(&mut gb.cpu, &mut gb.mmu, &nop), Err(AyyError::InvalidHandler));
    assert_eq!(gb.cpu.registers, before);
}
