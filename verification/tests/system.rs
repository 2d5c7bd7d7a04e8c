use rustboy::bus::Bus;
use rustboy::cartridge::Cartridge;
use rustboy::cpu::Cpu;
use rustboy::gameboy::Gameboy;
use rustboy::joypad::Button;
use rustboy::cartridge::CartridgeError;

fn nop_rom() -> Vec<u8> {
    let mut rom = vec![0xFFu8; 0x8000];
    for i in 0x38..0x8000 {
        rom[i] = 0x00;
    }
    rom[0x147] = 0x00;
    rom[0x148] = 0x00;
    rom[0x149] = 0x00;
    rom
}

fn screen() -> Vec<u32> {
    vec![0u32; 160 * 144]
}

// NOP x4: four NOPs at 0x100 leave PC at 0x104, four cycles each, flags
// untouched.
#[test]
fn four_nops() {
    let mut rom = vec![0xFFu8; 0x8000];
    rom[0x100] = 0x00;
    rom[0x101] = 0x00;
    rom[0x102] = 0x00;
    rom[0x103] = 0x00;
    rom[0x147] = 0x00;
    rom[0x148] = 0x00;
    rom[0x149] = 0x00;
    let mut bus = Bus::new(Cartridge::from_vec(rom));
    let mut cpu = Cpu::new();
    cpu.reset();
    let f_before = cpu.regs.f();
    for _ in 0..4 {
        let cycles = cpu.step(&mut bus);
        assert_eq!(cycles, 4);
    }
    assert_eq!(cpu.regs.pc(), 0x104);
    assert_eq!(cpu.regs.f(), f_before);
}

// LD A, 0x42; LD (0xC000), A; LD A, (0xC000); LD B, A.
#[test]
fn store_and_reload_through_wram() {
    let mut rom = nop_rom();
    let program = [0x3E, 0x42, 0xEA, 0x00, 0xC0, 0xFA, 0x00, 0xC0, 0x47];
    for (i, b) in program.iter().enumerate() {
        rom[0x100 + i] = *b;
    }
    let mut bus = Bus::new(Cartridge::from_vec(rom));
    let mut cpu = Cpu::new();
    cpu.reset();
    for _ in 0..4 {
        cpu.step(&mut bus);
    }
    assert_eq!(cpu.regs.a(), 0x42);
    assert_eq!(cpu.regs.b(), 0x42);
    assert_eq!(bus.read(0xC000), 0x42);
}

// Enable the timer at 4096 Hz and wait for the overflow: the timer
// interrupt must fire exactly 256 increments x 1024 cycles after the
// enabling write (56 cycles of setup precede it).
#[test]
fn timer_overflow_after_enable() {
    let mut rom = nop_rom();
    // TIMA = 0, TMA = 0, TAC = enable | 4096 Hz select.
    let program = [
        0x3E, 0x00, 0xEA, 0x05, 0xFF, // LD A, 0x00; LD (0xFF05), A
        0x3E, 0x00, 0xEA, 0x06, 0xFF, // LD A, 0x00; LD (0xFF06), A
        0x3E, 0x04, 0xEA, 0x07, 0xFF, // LD A, 0x04; LD (0xFF07), A
        0xC3, 0x00, 0x02, // JP 0x0200
    ];
    for (i, b) in program.iter().enumerate() {
        rom[0x100 + i] = *b;
    }
    // The reset vector a stray 0xFF opcode reaches jumps back to the NOP run.
    rom[0x38] = 0xC3;
    rom[0x39] = 0x00;
    rom[0x3A] = 0x02;
    let mut gb = Gameboy::new(Cartridge::from_vec(rom));
    gb.power_on();
    let mut buf = screen();
    let mut total: usize = 0;
    loop {
        let r = gb.step(Button::empty(), &mut buf);
        total += r.cycles;
        if gb.bus.io_if & 0x04 == 0x04 {
            break;
        }
        assert!(total < 400000);
    }
    assert_eq!(total - 56, 256 * 1024);
}

// STAT coincidence: LYC = 42 with the coincidence interrupt enabled
// dispatches to 0x48 when LY first reaches 42, at cycle 42 x 456 plus the
// 20-cycle dispatch.
#[test]
fn stat_coincidence_dispatch() {
    let mut gb = Gameboy::new(Cartridge::from_vec(nop_rom()));
    gb.power_on();
    gb.bus.write(0xFF45, 42); // LYC
    gb.bus.write(0xFF41, 0x40); // STAT: coincidence interrupt enable
    gb.bus.write(0xFFFF, 0x02); // IE: STAT only
    let mut buf = screen();
    let mut total: usize = 0;
    loop {
        let r = gb.step(Button::empty(), &mut buf);
        total += r.cycles;
        if gb.cpu.regs.pc() == 0x48 {
            break;
        }
        assert!(total < 100000);
    }
    assert_eq!(gb.bus.lcd.ly, 42);
    assert_eq!(total, 42 * 456 + 20);
}

// VBlank frame: with the display enabled and only VBlank in IE, exactly
// 70224 cycles dispatch exactly one VBlank interrupt and leave LY at 0.
#[test]
fn one_vblank_per_frame() {
    let mut gb = Gameboy::new(Cartridge::from_vec(nop_rom()));
    gb.power_on();
    gb.bus.write(0xFF40, 0x91); // LCDC
    gb.bus.write(0xFFFF, 0x01); // IE: VBlank only
    let mut buf = screen();
    let mut total: usize = 0;
    let mut dispatches = 0;
    while total < 70224 {
        let r = gb.step(Button::empty(), &mut buf);
        total += r.cycles;
        if gb.cpu.regs.pc() == 0x40 {
            dispatches += 1;
        }
    }
    assert_eq!(total, 70224);
    assert_eq!(dispatches, 1);
    assert_eq!(gb.bus.lcd.ly, 0);
}

// MBC1 bank switching on a 128 KiB cartridge: bank select 3 reads file
// offset 3 x 0x4000; bank select 0 maps to bank 1.
#[test]
fn mbc1_bank_switch_roundtrip() {
    let mut rom = vec![0u8; 8 * 0x4000];
    for bank in 0..8 {
        rom[bank * 0x4000] = 0xA0 + bank as u8;
    }
    rom[0x147] = 0x01;
    rom[0x148] = 0x02;
    rom[0x149] = 0x00;
    let mut cart = Cartridge::from_vec(rom);
    cart.write(0x2000, 3);
    assert_eq!(cart.read(0x4000), 0xA3);
    cart.write(0x2000, 0);
    assert_eq!(cart.read(0x4000), 0xA1);
}

// A cartridge read through the bus sees the same banked byte.
#[test]
fn mbc1_bank_switch_through_bus() {
    let mut rom = vec![0u8; 8 * 0x4000];
    rom[3 * 0x4000] = 0x77;
    rom[0x147] = 0x01;
    rom[0x148] = 0x02;
    let mut bus = Bus::new(Cartridge::from_vec(rom));
    bus.write(0x2000, 3);
    assert_eq!(bus.read(0x4000), 0x77);
}

// MBC1 external RAM: enabled with 0x0A, bytes stick; disabled reads 0xFF.
#[test]
fn mbc1_ram_enable_gate() {
    let mut rom = vec![0u8; 8 * 0x4000];
    rom[0x147] = 0x02;
    rom[0x148] = 0x02;
    rom[0x149] = 0x02; // one 8 KiB bank
    let mut cart = Cartridge::from_vec(rom);
    assert_eq!(cart.read(0xA000), 0xFF);
    cart.write(0x0000, 0x0A);
    cart.write(0xA000, 0x5A);
    assert_eq!(cart.read(0xA000), 0x5A);
    cart.write(0x0000, 0x00);
    assert_eq!(cart.read(0xA000), 0xFF);
}

// MBC5 nine-bit bank select: the high bit write region extends the bank.
#[test]
fn mbc5_high_bank_bit() {
    let mut rom = vec![0u8; 512 * 0x4000];
    rom[256 * 0x4000] = 0xB1;
    rom[5 * 0x4000] = 0xB2;
    rom[0x147] = 0x19;
    rom[0x148] = 0x08;
    rom[0x149] = 0x00;
    let mut cart = Cartridge::from_vec(rom);
    cart.write(0x2000, 0x00);
    cart.write(0x3000, 0x01);
    assert_eq!(cart.read(0x4000), 0xB1);
    cart.write(0x3000, 0x00);
    cart.write(0x2000, 0x05);
    assert_eq!(cart.read(0x4000), 0xB2);
}

// The loader names each rejection: short images, unimplemented mappers,
// undefined size bytes, and a length that contradicts the header.
#[test]
fn cartridge_rejections() {
    let short = vec![0u8; 0x100];
    assert!(matches!(Cartridge::try_from_vec(short), Err(CartridgeError::TooShort)));

    let mut mbc3 = vec![0u8; 0x8000];
    mbc3[0x147] = 0x0F;
    assert!(matches!(
        Cartridge::try_from_vec(mbc3),
        Err(CartridgeError::UnsupportedMapper(0x0F))
    ));

    let mut bad_rom_size = vec![0u8; 0x8000];
    bad_rom_size[0x147] = 0x01;
    bad_rom_size[0x148] = 0x40;
    assert!(matches!(
        Cartridge::try_from_vec(bad_rom_size),
        Err(CartridgeError::UnknownRomSize(0x40))
    ));

    let mut bad_ram_size = vec![0u8; 4 * 0x4000];
    bad_ram_size[0x147] = 0x01;
    bad_ram_size[0x148] = 0x01;
    bad_ram_size[0x149] = 0x09;
    assert!(matches!(
        Cartridge::try_from_vec(bad_ram_size),
        Err(CartridgeError::UnknownRamSize(0x09))
    ));

    let mut mismatch = vec![0u8; 0x8000];
    mismatch[0x147] = 0x01;
    mismatch[0x148] = 0x02; // header says 8 banks, image has 2
    assert!(matches!(Cartridge::try_from_vec(mismatch), Err(CartridgeError::SizeMismatch)));

    let mut good = vec![0u8; 8 * 0x4000];
    good[0x147] = 0x01;
    good[0x148] = 0x02;
    assert!(Cartridge::try_from_vec(good).is_ok());
}

// Header metadata: title bytes, flags and bank counts decode as documented.
#[test]
fn cartridge_header_fields() {
    let mut rom = vec![0u8; 8 * 0x4000];
    rom[0x147] = 0x01;
    rom[0x148] = 0x02;
    rom[0x149] = 0x03;
    for (i, b) in b"RUSTBOY".iter().enumerate() {
        rom[0x134 + i] = *b;
    }
    rom[0x143] = 0x80;
    rom[0x146] = 0x03;
    let cart = Cartridge::from_vec(rom);
    assert_eq!(&cart.name()[..7], b"RUSTBOY");
    assert!(cart.gbc());
    assert!(cart.sgb());
    assert_eq!(cart.total_rom_banks(), 8);
    assert_eq!(cart.total_ram_banks(), 4);
    assert!(matches!(cart.mapper_type(), Some(rustboy::cartridge::MapperType::Mbc1)));
}

// Echo RAM: a byte written in 0xE000..0xFDFF reads back there and 0x2000
// below, and the other way round.
#[test]
fn echo_ram_mirrors_work_ram() {
    let mut bus = Bus::new(Cartridge::from_vec(nop_rom()));
    bus.write(0xE123, 0x9C);
    assert_eq!(bus.read(0xE123), 0x9C);
    assert_eq!(bus.read(0xC123), 0x9C);
    bus.write(0xC456, 0x3B);
    assert_eq!(bus.read(0xE456), 0x3B);
}

// IF reads with its top three bits set; only five bits are stored.
#[test]
fn interrupt_flag_register_bits() {
    let mut bus = Bus::new(Cartridge::from_vec(nop_rom()));
    bus.write(0xFF0F, 0xFF);
    assert_eq!(bus.read(0xFF0F), 0xFF);
    assert_eq!(bus.io_if, 0x1F);
    bus.write(0xFF0F, 0x00);
    assert_eq!(bus.read(0xFF0F), 0xE0);
}

// OAM DMA: a write to 0xFF46 copies 160 bytes from the source page into
// the attribute table.
#[test]
fn oam_dma_copies_page() {
    let mut bus = Bus::new(Cartridge::from_vec(nop_rom()));
    for i in 0..160u16 {
        bus.write(0xC000 + i, (i as u8).wrapping_add(1));
    }
    bus.write(0xFF46, 0xC0);
    assert_eq!(bus.read(0xFE00), 1);
    assert_eq!(bus.read(0xFE9F), 160);
}

// The unused window after OAM reads back fixed values and drops writes.
#[test]
fn unused_region_reads_fixed() {
    let mut bus = Bus::new(Cartridge::from_vec(nop_rom()));
    bus.write(0xFEA5, 0x12);
    assert_eq!(bus.read(0xFEA5), 0);
    assert_eq!(bus.read(0xFF7F), 0xFF);
}

// Sound registers are inert storage.
#[test]
fn sound_registers_hold_bytes() {
    let mut bus = Bus::new(Cartridge::from_vec(nop_rom()));
    bus.write(0xFF10, 0x80);
    bus.write(0xFF3F, 0x42);
    assert_eq!(bus.read(0xFF10), 0x80);
    assert_eq!(bus.read(0xFF3F), 0x42);
}

// LY is read-only through the bus.
#[test]
fn ly_write_is_ignored() {
    let mut bus = Bus::new(Cartridge::from_vec(nop_rom()));
    bus.write(0xFF44, 0x55);
    assert_eq!(bus.read(0xFF44), 0);
}

// Disabling the display resets LY and the mode; re-enabling restarts
// OamScan at line 0.
#[test]
fn lcd_disable_resets_line() {
    let mut gb = Gameboy::new(Cartridge::from_vec(nop_rom()));
    gb.power_on();
    let mut buf = screen();
    for _ in 0..2000 {
        gb.step(Button::empty(), &mut buf);
    }
    assert!(gb.bus.lcd.ly > 0);
    gb.bus.write(0xFF40, 0x11);
    assert_eq!(gb.bus.lcd.ly, 0);
    assert_eq!(gb.bus.read(0xFF41) & 0x03, 0);
    gb.bus.write(0xFF40, 0x91);
    assert_eq!(gb.bus.read(0xFF41) & 0x03, 2);
}

// One rendered line: a solid tile 0 pattern maps screen pixels of line 0
// through BGP to the darkest shade.
#[test]
fn background_line_renders_through_palette() {
    let mut gb = Gameboy::new(Cartridge::from_vec(nop_rom()));
    gb.power_on();
    // Tile 0 rows: both pattern bytes 0xFF, color index 3 everywhere.
    for i in 0..16u16 {
        gb.bus.lcd.write(0x8000 + i, 0xFF);
    }
    gb.bus.write(0xFF47, 0xE4); // BGP: identity-ish, index 3 -> shade 3
    let mut buf = screen();
    let mut total = 0;
    while total < 456 {
        let r = gb.step(Button::empty(), &mut buf);
        total += r.cycles;
    }
    assert_eq!(buf[0], 0x0F380F);
    assert_eq!(buf[159], 0x0F380F);
    // line 1 is not yet rendered
    assert_eq!(buf[160], 0);
}

// A sprite pixel covers the background, and color 0 stays transparent.
#[test]
fn sprite_overlays_background() {
    let mut gb = Gameboy::new(Cartridge::from_vec(nop_rom()));
    gb.power_on();
    gb.bus.write(0xFF40, 0x93); // LCDC: background and sprites on
    // Sprite tile 1: solid color index 1.
    for row in 0..8u16 {
        gb.bus.lcd.write(0x8010 + row * 2, 0xFF);
        gb.bus.lcd.write(0x8010 + row * 2 + 1, 0x00);
    }
    gb.bus.write(0xFF48, 0xE4); // OBP0
    // Sprite at screen (0, 0), tile 1.
    gb.bus.lcd.oam_write_raw(0, 16);
    gb.bus.lcd.oam_write_raw(1, 8);
    gb.bus.lcd.oam_write_raw(2, 1);
    gb.bus.lcd.oam_write_raw(3, 0);
    let mut buf = screen();
    let mut total = 0;
    while total < 456 {
        let r = gb.step(Button::empty(), &mut buf);
        total += r.cycles;
    }
    // OBP0 0xE4 maps color 1 to shade 1.
    assert_eq!(buf[0], 0x8CAD0F);
    assert_eq!(buf[7], 0x8CAD0F);
    // Past the sprite the background (index 0 -> shade 0) shows.
    assert_eq!(buf[8], 0x9CBD0F);
}

// LDH: a byte stored through the high page comes back, and lands in HRAM.
#[test]
fn ldh_high_page_roundtrip() {
    let mut rom = nop_rom();
    let program = [0x3E, 0x77, 0xE0, 0x80, 0x3E, 0x00, 0xF0, 0x80, 0x47];
    for (i, b) in program.iter().enumerate() {
        rom[0x100 + i] = *b;
    }
    let mut bus = Bus::new(Cartridge::from_vec(rom));
    let mut cpu = Cpu::new();
    cpu.reset();
    for _ in 0..5 {
        cpu.step(&mut bus);
    }
    assert_eq!(bus.read(0xFF80), 0x77);
    assert_eq!(cpu.regs.a(), 0x77);
    assert_eq!(cpu.regs.b(), 0x77);
}

// JR -2 right after its immediate leaves PC where the instruction began:
// the canonical tight loop.
#[test]
fn jr_tight_loop() {
    let mut rom = nop_rom();
    rom[0x150] = 0x18;
    rom[0x151] = 0xFE;
    let mut bus = Bus::new(Cartridge::from_vec(rom));
    let mut cpu = Cpu::new();
    cpu.reset();
    cpu.regs.set_pc(0x150);
    let cycles = cpu.step(&mut bus);
    assert_eq!(cpu.regs.pc(), 0x150);
    assert_eq!(cycles, 12);
}

// SUB 0x01 from A = 0x00 wraps to 0xFF with the borrow flags set.
#[test]
fn sub_borrow_boundary() {
    let mut cpu = Cpu::new();
    let bus = Bus::new(Cartridge::from_vec(nop_rom()));
    cpu.regs.set_a(0x00);
    cpu.regs.set_f(0);
    rustboy::math::sub(&mut cpu, &bus, rustboy::addressing::Addr8::Immediate(0x01));
    assert_eq!(cpu.regs.a(), 0xFF);
    assert_eq!(cpu.regs.f(), 0b0111 << 4);
}

// INC from 0x0F sets the half-carry and not zero.
#[test]
fn inc_half_carry_boundary() {
    let mut cpu = Cpu::new();
    let mut bus = Bus::new(Cartridge::from_vec(nop_rom()));
    cpu.regs.set_a(0x0F);
    cpu.regs.set_f(0);
    rustboy::math::inc_8(
        &mut cpu,
        &mut bus,
        rustboy::addressing::Addr8::Register(rustboy::registers::Register::A),
    );
    assert_eq!(cpu.regs.a(), 0x10);
    assert_eq!(cpu.regs.f(), 0b0010 << 4);
}

// DAA after adding 0x06 to 0x06 reads 0x12 in binary-coded decimal.
#[test]
fn daa_after_bcd_add() {
    let mut cpu = Cpu::new();
    let bus = Bus::new(Cartridge::from_vec(nop_rom()));
    cpu.regs.set_a(0x06);
    cpu.regs.set_f(0);
    rustboy::math::add_8(&mut cpu, &bus, rustboy::addressing::Addr8::Immediate(0x06));
    rustboy::math::daa(&mut cpu);
    assert_eq!(cpu.regs.a(), 0x12);
}

// Writing AF keeps the lower nibble of F hardwired to zero.
#[test]
fn af_write_masks_low_nibble() {
    let mut cpu = Cpu::new();
    cpu.regs.set_af(0x12FF);
    assert_eq!(cpu.regs.af(), 0x12F0);
    cpu.regs.set_f(0x0F);
    assert_eq!(cpu.regs.f(), 0);
}

// A halted CPU idles at 4 cycles per step until an interrupt request
// wakes it; with IME set it dispatches.
#[test]
fn halt_wakes_on_interrupt() {
    let mut rom = nop_rom();
    rom[0x100] = 0x76; // HALT
    let mut bus = Bus::new(Cartridge::from_vec(rom));
    let mut cpu = Cpu::new();
    cpu.reset();
    cpu.step(&mut bus);
    assert!(cpu.halted);
    assert_eq!(cpu.step(&mut bus), 4);
    assert!(cpu.halted);
    bus.write(0xFFFF, 0x04); // IE: timer
    cpu.interrupt(&mut bus, rustboy::cpu::Interrupt::Timer);
    assert!(!cpu.halted);
    let cycles = cpu.step(&mut bus);
    assert_eq!(cycles, 20);
    assert_eq!(cpu.regs.pc(), 0x50);
    assert_eq!(bus.io_if & 0x04, 0);
}

// Dispatch priority: the lowest-numbered pending source wins.
#[test]
fn interrupt_priority_order() {
    let mut bus = Bus::new(Cartridge::from_vec(nop_rom()));
    let mut cpu = Cpu::new();
    cpu.reset();
    bus.write(0xFFFF, 0x1F);
    bus.write(0xFF0F, 0x12); // joypad and STAT pending
    let cycles = cpu.step(&mut bus);
    assert_eq!(cycles, 20);
    assert_eq!(cpu.regs.pc(), 0x48); // STAT vector
    assert_eq!(bus.io_if, 0x10); // joypad still pending
}
