use ayyboy::cram::Cram;
use ayyboy::error::AyyError;
use ayyboy::gameboy::{GameBoy, Mode};
use ayyboy::irq::Vector;
use ayyboy::joypad::{Button, Joypad};
use ayyboy::mapper::mbc1::Mbc1;
use ayyboy::mapper::mbc3::Mbc3;
use ayyboy::mapper::mbc5::Mbc5;
use ayyboy::mapper::rom::Rom;
use ayyboy::mapper::Cartridge;
use ayyboy::mmu::Mmu;
use ayyboy::palette::Palette;
use ayyboy::ppu::Ppu;
use ayyboy::sprite::Sprite;
use ayyboy::state::State;
use ayyboy::timer::Timer;

/// A ROM image of `banks` 16 KiB banks whose every byte holds its bank number.
fn banked_rom(banks: usize) -> Vec<u8> {
    let mut rom = vec![0u8; banks * 0x4000];
    for (i, b) in rom.iter_mut().enumerate() {
        *b = (i / 0x4000) as u8;
    }
    rom
}

fn dmg_mmu() -> Mmu {
    Mmu::new(Vec::new(), Cartridge::Rom(Rom::new(vec![0u8; 0x8000])), Mode::Dmg)
}

#[test]
fn rom_refuses_writes_and_keeps_bytes() {
    let mut image = vec![0u8; 0x8000];
    image[0x1234] = 0xab;
    let mut rom = Rom::new(image);
    assert_eq!(rom.write(0x1234, 0x00), Err(AyyError::WriteToReadOnlyMemory { address: 0x1234, data: 0x00 }));
    assert_eq!(rom.read(0x1234), Ok(0xab));
    assert_eq!(rom.read(0xa000), Err(AyyError::OutOfBoundsMemoryAccess { address: 0xa000 }));
}

#[test]
fn mbc1_rom_bank_switching() {
    let mut m = Mbc1::new(banked_rom(8));
    assert_eq!(m.read(0x4000), Ok(1));
    m.write(0x2000, 0x03).unwrap();
    assert_eq!(m.read(0x4000), Ok(3));
    assert_eq!(m.read(0x0000), Ok(0));
    m.write(0x2000, 0x00).unwrap();
    assert_eq!(m.current_rom_bank(), 1);
    m.write(0x2000, 0xe1).unwrap();
    assert_eq!(m.current_rom_bank(), 1);
    m.write(0x2000, 0x09).unwrap();
    assert_eq!(m.read(0x4000), Err(AyyError::OutOfBoundsMemoryAccess { address: 0x4000 }));
}

#[test]
fn mbc1_upper_bits_on_large_rom() {
    let mut m = Mbc1::new(banked_rom(64));
    m.write(0x2000, 0x02).unwrap();
    m.write(0x4000, 0x01).unwrap();
    assert_eq!(m.current_rom_bank(), 0x22);
    assert_eq!(m.read(0x4000), Ok(0x22));
    m.write(0x6000, 0x01).unwrap();
    assert_eq!(m.current_rom_bank(), 0x02);
    assert_eq!(m.current_ram_bank(), 1);
}

#[test]
fn mbc1_ram_enable_and_errors() {
    let mut m = Mbc1::new(banked_rom(4));
    assert_eq!(m.write(0xa000, 1), Err(AyyError::WriteToDisabledExternalRam { address: 0xa000, data: 1 }));
    assert_eq!(m.read(0xa000), Err(AyyError::OutOfBoundsMemoryAccess { address: 0xa000 }));
    m.write(0x0000, 0x0a).unwrap();
    m.write(0xa000, 0x42).unwrap();
    assert_eq!(m.read(0xa000), Ok(0x42));
    m.write(0x0000, 0x00).unwrap();
    assert!(m.read(0xa000).is_err());
    assert_eq!(m.write(0x8000, 1), Err(AyyError::WriteToReadOnlyMemory { address: 0x8000, data: 1 }));
}

#[test]
fn mbc3_banks_and_clock_stub() {
    let mut m = Mbc3::new(banked_rom(128));
    m.write(0x2000, 0x85).unwrap();
    assert_eq!(m.current_rom_bank(), 0x05);
    assert_eq!(m.read(0x4000), Ok(5));
    m.write(0x2000, 0x80).unwrap();
    assert_eq!(m.current_rom_bank(), 1);
    m.write(0x0000, 0x0a).unwrap();
    m.write(0x4000, 0x02).unwrap();
    m.write(0xa001, 0x99).unwrap();
    assert_eq!(m.read(0xa001), Ok(0x99));
    m.write(0x4000, 0x08).unwrap();
    assert_eq!(m.read(0xa001), Ok(0x00));
    m.write(0x4000, 0x02).unwrap();
    assert_eq!(m.read(0xa001), Ok(0x99));
}

#[test]
fn mbc5_nine_bit_bank_and_rumble() {
    let mut m = Mbc5::with_rumble(banked_rom(2));
    m.write(0x2000, 0x00).unwrap();
    assert_eq!(m.current_rom_bank(), 0);
    assert_eq!(m.read(0x4000), Ok(0));
    m.write(0x3000, 0x01).unwrap();
    assert_eq!(m.current_rom_bank(), 0x100);
    m.write(0x4000, 0x0b).unwrap();
    assert!(m.rumble);
    assert_eq!(m.current_ram_bank(), 0x0b);
    m.write(0x4000, 0x03).unwrap();
    assert!(!m.rumble);
    let plain = Mbc5::new(banked_rom(2));
    assert!(!plain.allow_rumble);
}

#[test]
fn cartridge_names() {
    assert_eq!(Cartridge::Rom(Rom::new(vec![0; 0x8000])).name(), "ROM");
    assert_eq!(Cartridge::Mbc1(Mbc1::new(vec![0; 0x8000])).name(), "MBC1");
    assert_eq!(Cartridge::Mbc3(Mbc3::new(vec![0; 0x8000])).name(), "MBC3");
    assert_eq!(Cartridge::Mbc5(Mbc5::new(vec![0; 0x8000])).name(), "MBC5");
    assert_eq!(Cartridge::Mbc5(Mbc5::with_rumble(vec![0; 0x8000])).name(), "MBC5+RUMBLE");
}

#[test]
fn ram_dump_and_load_round_trip() {
    let mut c = Cartridge::Mbc1(Mbc1::new(banked_rom(4)));
    c.write(0x0000, 0x0a).unwrap();
    c.write(0xa010, 0x5c).unwrap();
    let dump = c.dump_ram();
    assert_eq!(dump.len(), 0x2000);
    assert_eq!(dump[0x10], 0x5c);
    let before: Vec<_> = (0xa000u16..0xa020).map(|a| c.read(a)).collect();
    c.load_ram(dump);
    let after: Vec<_> = (0xa000u16..0xa020).map(|a| c.read(a)).collect();
    assert_eq!(before, after);
    assert_eq!(c.current_rom_bank(), 1);
}

#[test]
fn writes_to_rom_space_leave_rom_bytes() {
    let mut c = Cartridge::Mbc1(Mbc1::new(banked_rom(4)));
    for addr in [0x0000u16, 0x1fff, 0x2000, 0x3fff] {
        let before = c.read(addr);
        c.write(addr, 0x02).unwrap();
        assert_eq!(c.read(addr), before);
    }
    assert_eq!(c.read(0x4000), Ok(2));
    let mut r = Cartridge::Rom(Rom::new(banked_rom(2)));
    for addr in [0x0000u16, 0x4000, 0x7fff] {
        let before = r.read(addr);
        assert!(r.write(addr, 0x77).is_err());
        assert_eq!(r.read(addr), before);
    }
}

#[test]
fn oam_dma_copies_a_page() {
    let mut mmu = dmg_mmu();
    for i in 0..0xa0u16 {
        mmu.write(0xc000 + i, i as u8).unwrap();
    }
    mmu.write(0xfe9f + 1, 0xee).unwrap();
    mmu.write(0xff46, 0xc0).unwrap();
    for i in 0..0xa0u16 {
        assert_eq!(mmu.read(0xfe00 + i), Ok(i as u8));
    }
    assert_eq!(mmu.read(0xfea0), Ok(0xee));
}

#[test]
fn echo_ram_mirrors_work_ram() {
    let mut mmu = dmg_mmu();
    mmu.write(0xc123, 0x5a).unwrap();
    assert_eq!(mmu.read(0xe123), Ok(0x5a));
    mmu.write(0xfdff, 0x11).unwrap();
    assert_eq!(mmu.read(0xddff), Ok(0x11));
}

#[test]
fn bootrom_overlay_until_unmapped() {
    let mut rom = vec![0u8; 0x8000];
    rom[0x0000] = 0x22;
    let mut mmu = Mmu::new(vec![0x11; 0x100], Cartridge::Rom(Rom::new(rom)), Mode::Dmg);
    assert_eq!(mmu.read(0x0000), Ok(0x11));
    assert_eq!(mmu.read(0xff50), Ok(0));
    mmu.write(0xff50, 0x69).unwrap();
    assert_eq!(mmu.read(0xff50), Ok(1));
    assert_eq!(mmu.read(0x0000), Ok(0x22));
}

#[test]
fn cgb_banked_vram_and_wram() {
    let mut mmu = Mmu::new(Vec::new(), Cartridge::Rom(Rom::new(vec![0u8; 0x8000])), Mode::Cgb);
    mmu.write(0x8000, 0x01).unwrap();
    mmu.write(0xff4f, 0x01).unwrap();
    assert_eq!(mmu.current_vram_bank(), 1);
    assert_eq!(mmu.read(0x8000), Ok(0x00));
    mmu.write(0x8000, 0x02).unwrap();
    mmu.write(0xff4f, 0x00).unwrap();
    assert_eq!(mmu.read(0x8000), Ok(0x01));
    assert_eq!(mmu.current_wram_bank(), 1);
    mmu.write(0xd000, 0x31).unwrap();
    mmu.write(0xff70, 0x03).unwrap();
    assert_eq!(mmu.current_wram_bank(), 3);
    assert_eq!(mmu.read(0xd000), Ok(0x00));
    mmu.write(0xff70, 0x00).unwrap();
    assert_eq!(mmu.read(0xd000), Ok(0x31));
}

#[test]
fn cgb_general_purpose_dma() {
    let mut mmu = Mmu::new(Vec::new(), Cartridge::Rom(Rom::new(vec![0u8; 0x8000])), Mode::Cgb);
    for i in 0..0x20u16 {
        mmu.write(0xc000 + i, 0x80 + i as u8).unwrap();
    }
    mmu.write(0xff51, 0xc0).unwrap();
    mmu.write(0xff52, 0x00).unwrap();
    mmu.write(0xff53, 0x01).unwrap();
    mmu.write(0xff54, 0x00).unwrap();
    mmu.write(0xff55, 0x01).unwrap();
    for i in 0..0x20u16 {
        assert_eq!(mmu.read(0x8100 + i), Ok(0x80 + i as u8));
    }
    assert_eq!(mmu.read(0xff55), Ok(0xff));
}

#[test]
fn speed_switch_armed_then_performed() {
    let mut mmu = Mmu::new(Vec::new(), Cartridge::Rom(Rom::new(vec![0u8; 0x8000])), Mode::Cgb);
    mmu.write(0xff4d, 0x01).unwrap();
    assert_eq!(mmu.read(0xff4d), Ok(0x01));
    mmu.enable_pending_speed_switch();
    assert!(mmu.cgb_double_speed);
    assert_eq!(mmu.read(0xff4d), Ok(0x80));
}

#[test]
fn div_counts_every_256_cycles_and_resets() {
    let mut mmu = dmg_mmu();
    let mut timer = Timer::new();
    let mut total = 0usize;
    for _ in 0..1000 {
        timer.tick(&mut mmu, 36);
        total += 36;
        assert_eq!(mmu.read(0xff04), Ok(((total / 256) % 256) as u8));
    }
    mmu.write(0xff04, 0x55).unwrap();
    assert_eq!(mmu.read(0xff04), Ok(0));
    timer.tick(&mut mmu, 255);
    assert_eq!(mmu.read(0xff04), Ok(0));
    timer.tick(&mut mmu, 1);
    assert_eq!(mmu.read(0xff04), Ok(1));
}

#[test]
fn tima_prescale_16_and_overflow() {
    let mut mmu = dmg_mmu();
    let mut timer = Timer::new();
    mmu.write(0xff07, 0b101).unwrap();
    mmu.write(0xff06, 0x42).unwrap();
    mmu.write(0xff05, 0xfd).unwrap();
    timer.tick(&mut mmu, 15);
    assert_eq!(mmu.read(0xff05), Ok(0xfd));
    timer.tick(&mut mmu, 1);
    assert_eq!(mmu.read(0xff05), Ok(0xfe));
    timer.tick(&mut mmu, 16);
    assert_eq!(mmu.read(0xff05), Ok(0xff));
    assert_eq!(mmu.read(0xff0f), Ok(0x00));
    timer.tick(&mut mmu, 16);
    assert_eq!(mmu.read(0xff05), Ok(0x42));
    assert_eq!(mmu.read(0xff0f), Ok(0x04));
}

#[test]
fn tima_stopped_when_disabled() {
    let mut mmu = dmg_mmu();
    let mut timer = Timer::new();
    mmu.write(0xff07, 0b001).unwrap();
    timer.tick(&mut mmu, 1000);
    assert_eq!(mmu.read(0xff05), Ok(0x00));
}

#[test]
fn ppu_frame_every_70224_cycles() {
    let mut mmu = dmg_mmu();
    mmu.write(0xff40, 0x80).unwrap();
    let mut ppu = Ppu::new(Mode::Dmg);
    let mut frames = 0;
    let mut cycles = 0usize;
    let mut first = 0usize;
    while frames < 2 {
        if ppu.tick_state(&mut mmu, 4) {
            frames += 1;
            if frames == 1 {
                first = cycles + 4;
            }
        }
        cycles += 4;
    }
    assert_eq!(first, 70224);
    assert_eq!(cycles, 2 * 70224);
}

#[test]
fn ppu_modes_and_vblank_interrupt() {
    let mut mmu = dmg_mmu();
    mmu.write(0xff40, 0x80).unwrap();
    let mut ppu = Ppu::new(Mode::Dmg);
    assert!(!ppu.tick_state(&mut mmu, 80));
    assert_eq!(ppu.state, State::Drawing);
    assert_eq!(mmu.read(0xff41).unwrap() & 0x03, 3);
    ppu.tick_state(&mut mmu, 172);
    assert_eq!(ppu.state, State::HBlank);
    assert_eq!(mmu.read(0xff41).unwrap() & 0x03, 0);
    ppu.tick_state(&mut mmu, 204);
    assert_eq!(mmu.read(0xff44), Ok(1));
    for _ in 1..144 {
        ppu.tick_state(&mut mmu, 456);
    }
    assert_eq!(mmu.read(0xff44), Ok(144));
    assert_eq!(ppu.state, State::VBlank);
    assert_eq!(mmu.read(0xff0f).unwrap() & 0x01, 0x01);
}

#[test]
fn lcd_off_freezes_ppu() {
    let mut mmu = dmg_mmu();
    mmu.write(0xff44, 0x33).unwrap();
    let mut ppu = Ppu::new(Mode::Dmg);
    assert!(!ppu.tick_state(&mut mmu, 1000));
    assert_eq!(mmu.read(0xff44), Ok(0));
    assert_eq!(mmu.read(0xff0f), Ok(0));
    assert!(ppu.pull_frame().iter().all(|p| *p == Palette::White(0)));
}

fn sprite_scene(x: u8, y: u8) -> (Mmu, Ppu) {
    let mut mmu = dmg_mmu();
    // tile 1: every pixel colour 3
    for i in 0..16u16 {
        mmu.write(0x8010 + i, 0xff).unwrap();
    }
    mmu.write(0xfe00, y).unwrap();
    mmu.write(0xfe01, x).unwrap();
    mmu.write(0xfe02, 0x01).unwrap();
    mmu.write(0xfe03, 0x00).unwrap();
    mmu.write(0xff47, 0b1110_0100).unwrap();
    mmu.write(0xff48, 0b1110_0100).unwrap();
    mmu.write(0xff40, 0x93).unwrap();
    (mmu, Ppu::new(Mode::Dmg))
}

#[test]
fn sprite_drawn_over_background() {
    let (mut mmu, mut ppu) = sprite_scene(8, 16);
    mmu.write(0xff44, 0).unwrap();
    ppu.render_scanline(&mmu);
    let frame = ppu.pull_frame();
    assert_eq!(frame[0], Palette::Black(3));
    assert_eq!(frame[7], Palette::Black(3));
    assert_eq!(frame[8], Palette::White(0));
}

#[test]
fn offscreen_sprites_are_invisible() {
    for (x, y) in [(0u8, 16u8), (168, 16), (8, 0), (8, 160)] {
        let (mut mmu, mut ppu) = sprite_scene(x, y);
        for ly in 0..144u8 {
            mmu.write(0xff44, ly).unwrap();
            ppu.render_scanline(&mmu);
        }
        assert!(ppu.pull_frame().iter().all(|p| *p == Palette::White(0)));
        let s = Sprite { y, x, tile_index: 1, attributes: 0, oam_addr: 0xfe00 };
        for px in 0..160u8 {
            for ly in 0..144u8 {
                assert!(!(s.is_on_column(px) && s.is_on_line(ly, 8)));
                assert!(!(s.is_on_column(px) && s.is_on_line(ly, 16)));
            }
        }
    }
}

#[test]
fn at_most_ten_sprites_per_line() {
    let (mut mmu, ppu) = sprite_scene(8, 16);
    for i in 0..40u16 {
        mmu.write(0xfe00 + i * 4, 16).unwrap();
        mmu.write(0xfe01 + i * 4, (8 + i) as u8).unwrap();
    }
    assert_eq!(ppu.fetch_oams(&mmu, 0, 8).len(), 10);
    assert_eq!(ppu.fetch_oams(&mmu, 8, 8).len(), 0);
    assert_eq!(ppu.fetch_oams(&mmu, 8, 16).len(), 10);
}

#[test]
fn joypad_reads_active_low() {
    let mut pad = Joypad::new();
    pad.update_button(Button::A, true);
    pad.update_button(Button::Up, true);
    assert_eq!(pad.as_u8(0x10), 0x10 | 0x0e);
    assert_eq!(pad.as_u8(0x20), 0x20 | 0x0b);
    assert_eq!(pad.as_u8(0x30), 0x3f);
    assert_eq!(pad.as_u8(0x00), 0x0a);
    pad.update_button(Button::A, false);
    assert_eq!(pad.as_u8(0x10), 0x1f);
}

#[test]
fn interrupt_vectors_by_priority() {
    assert_eq!(Vector::from_flags(0x1f, 0x14), Ok(Vector::Timer));
    assert_eq!(Vector::from_flags(0x1f, 0x03), Ok(Vector::VBlank));
    assert_eq!(Vector::from_flags(0x10, 0x1f).unwrap().to_address(), 0x60);
    assert_eq!(Vector::Stat.to_address(), 0x48);
    assert_eq!(Vector::from_flags(0x01, 0x02), Err(AyyError::UnknownIrqVector { vector: 0x02 }));
}

#[test]
fn palette_ram_auto_increment() {
    let mut cram = Cram::new();
    cram.write(0xff68, 0x80 | 0x3e);
    cram.write(0xff69, 0x1f);
    cram.write(0xff69, 0x00);
    cram.write(0xff69, 0xe0);
    assert_eq!(cram.read(0xff68), 0x80 | 0x01);
    assert_eq!(cram.fetch_bg(7, 6), 0x001f);
    cram.write(0xff68, 0x00);
    assert_eq!(cram.read(0xff69), 0xe0);
    assert_eq!(cram.read(0xff69), 0xe0);
    cram.write(0xff6a, 0x02);
    cram.write(0xff6b, 0x34);
    assert_eq!(cram.read(0xff6a), 0x02);
    assert_eq!(cram.fetch_obj(0, 2), 0x0034);
}

#[test]
fn rgb555_widening() {
    assert_eq!(Palette::rgb555_to_rgb888(0x7fff), (0xff, 0xff, 0xff));
    assert_eq!(Palette::rgb555_to_rgb888(0x001f), (0xff, 0x00, 0x00));
    assert_eq!(Palette::rgb555_to_rgb888(0x03e0), (0x00, 0xff, 0x00));
    assert_eq!(Palette::rgb555_to_rgb888(0x0001), (0x08, 0x00, 0x00));
    assert_eq!(Palette::rgb555_to_rgb888(0x0010), (0x84, 0x00, 0x00));
}

#[test]
fn dmg_shades_through_bgp() {
    let cram = Cram::new();
    let bgp = 0b00_01_10_11;
    assert_eq!(Palette::from_background(0, Mode::Dmg, bgp, &cram, 0), Palette::Black(0));
    assert_eq!(Palette::from_background(3, Mode::Dmg, bgp, &cram, 0), Palette::White(3));
    assert_eq!(Palette::from_object(0, Mode::Dmg, bgp, &cram, 0, true), Palette::Transparent(0));
    assert!(Palette::Transparent(0).is_transparent());
    assert!(Palette::Color(2, 1, 2, 3).is_color(2));
}

#[test]
fn cartridge_header_selects_mapper() {
    let mut rom = vec![0u8; 0x8000];
    rom[0x143] = 0x80;
    rom[0x147] = 0x13;
    let gb = GameBoy::new(Vec::new(), rom.clone()).unwrap();
    assert_eq!(gb.mode, Mode::Cgb);
    assert_eq!(gb.mmu.cartridge.name(), "MBC3");
    rom[0x147] = 0x05;
    assert!(matches!(GameBoy::new(Vec::new(), rom), Err(AyyError::UnsupportedCartridge { kind: 0x05 })));
}

#[test]
fn recoverable_errors() {
    assert!(AyyError::WriteToReadOnlyMemory { address: 0, data: 0 }.is_recoverable());
    assert!(AyyError::WriteToDisabledExternalRam { address: 0, data: 0 }.is_recoverable());
    assert!(AyyError::OutOfBoundsMemoryAccess { address: 0 }.is_recoverable());
    assert!(!AyyError::IllegalOpcode { opcode: 0xd3 }.is_recoverable());
    assert!(!AyyError::InvalidHandler.is_recoverable());
}

#[test]
fn run_frame_completes_with_lcd_on() {
    let mut rom = vec![0u8; 0x8000];
    // at 0x100: LD A, 0x91; LDH (0x40), A; JR -2
    rom[0x100] = 0x3e;
    rom[0x101] = 0x91;
    rom[0x102] = 0xe0;
    rom[0x103] = 0x40;
    rom[0x104] = 0x18;
    rom[0x105] = 0xfe;
    let mut gb = GameBoy::new(Vec::new(), rom).unwrap();
    gb.cpu.registers.pc = 0x100;
    assert_eq!(gb.run_frame(), Ok(true));
    assert_eq!(gb.cpu.registers.pc, 0x104);
    assert_eq!(gb.mmu.read(0xff44), Ok(0));
}

#[test]
fn button_press_raises_joypad_interrupt() {
    let mut mmu = dmg_mmu();
    mmu.write(0xff00, 0x10).unwrap();
    mmu.update_button(Button::Start, true);
    assert_eq!(mmu.read(0xff0f), Ok(0x10));
    assert_eq!(mmu.read(0xff00), Ok(0x10 | 0x07));
    mmu.write(0xff0f, 0x00).unwrap();
    mmu.update_button(Button::Up, true);
    assert_eq!(mmu.read(0xff0f), Ok(0x00));
    mmu.update_button(Button::Start, false);
    assert_eq!(mmu.read(0xff0f), Ok(0x00));
}

#[test]
fn tile_views() {
    let (mmu, ppu) = sprite_scene(8, 16);
    let tiles = ppu.render_tileset(&mmu, 0);
    assert_eq!(tiles.len(), 384);
    assert!(tiles[1].pixels.iter().all(|p| *p == Palette::Black(3)));
    assert!(tiles[0].pixels.iter().all(|p| *p == Palette::White(0)));
    let map = ppu.render_background_tilemap(&mmu);
    assert_eq!(map.len(), 1024);
    assert_eq!(ppu.render_window_tilemap(&mmu).len(), 1024);
}

#[test]
fn mbc1_has_eight_kib_of_zeroed_ram() {
    let mut m = Mbc1::new(banked_rom(64));
    assert_eq!(Cartridge::Mbc1(m.clone()).dump_ram(), vec![0u8; 0x2000]);
    m.write(0x0000, 0x0a).unwrap();
    m.write(0x6000, 0x01).unwrap();
    m.write(0x4000, 0x01).unwrap();
    assert_eq!(m.read(0xa000), Err(AyyError::OutOfBoundsMemoryAccess { address: 0xa000 }));
    assert_eq!(m.write(0xa000, 1), Err(AyyError::OutOfBoundsMemoryAccess { address: 0xa000 }));
}

#[test]
fn hblank_dma_moves_sixteen_bytes_per_hblank() {
    let mut mmu = Mmu::new(Vec::new(), Cartridge::Rom(Rom::new(vec![0u8; 0x8000])), Mode::Cgb);
    for i in 0..0x20u16 {
        mmu.write(0xc000 + i, 0x40 + i as u8).unwrap();
    }
    mmu.write(0xff51, 0xc0).unwrap();
    mmu.write(0xff52, 0x00).unwrap();
    mmu.write(0xff53, 0x00).unwrap();
    mmu.write(0xff54, 0x00).unwrap();
    mmu.write(0xff55, 0x81).unwrap();
    assert_eq!(mmu.read(0x8000), Ok(0x00));
    mmu.cache_ppu_state(State::HBlank);
    mmu.tick_hdma();
    assert_eq!(mmu.read(0x800f), Ok(0x4f));
    assert_eq!(mmu.read(0x8010), Ok(0x00));
    assert_eq!(mmu.cgb_hdma_src, 0xc010);
    assert_eq!(mmu.cgb_hdma_dst, 0x8010);
    mmu.tick_hdma();
    assert_eq!(mmu.read(0x801f), Ok(0x5f));
    assert_eq!(mmu.read(0xff55), Ok(0xff));
}

#[test]
fn cgb_window_ignores_bg_enable_bit() {
    let mut mmu = Mmu::new(Vec::new(), Cartridge::Rom(Rom::new(vec![0u8; 0x8000])), Mode::Cgb);
    mmu.write(0xff40, 0x80 | 0x20 | 0x10).unwrap();
    mmu.write(0xff4a, 0).unwrap();
    mmu.write(0xff4b, 7).unwrap();
    let cgb = Ppu::new(Mode::Cgb);
    assert!(!cgb.fetch_window_pixel(&mmu, 0, 0).0.is_transparent());
    let mut dmg = dmg_mmu();
    dmg.write(0xff40, 0x80 | 0x20 | 0x10).unwrap();
    dmg.write(0xff4b, 7).unwrap();
    assert!(Ppu::new(Mode::Dmg).fetch_window_pixel(&dmg, 0, 0).0.is_transparent());
}
