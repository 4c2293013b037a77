//! Whole-machine scenarios: boot unmap, the timer, the interrupt-enable
//! delay, frame timing, and the memory-model behaviors.

use gb_rs::clock::Clock;
use gb_rs::cpu::CPU;
use gb_rs::gb::GameBoy;
use gb_rs::graphics::Ppu;
use gb_rs::memory::Memory;

fn rom_only_cart(first_byte: u8) -> Vec<u8> {
    // two 16 KiB banks; ROM-only mapper; size code 0
    let mut rom = vec![0u8; 0x8000];
    rom[0] = first_byte;
    rom[0x147] = 0x00;
    rom[0x148] = 0x00;
    rom
}

#[test]
fn power_on_to_boot_unmap() {
    // The boot ROM's last instruction writes to 0xFF50, then jumps to
    // 0x0100; afterwards reads of 0x0000 return cartridge byte 0.
    let mut boot = vec![0u8; 0x100];
    boot[0] = 0x3E; // LD A, 0x01
    boot[1] = 0x01;
    boot[2] = 0xE0; // LDH (0x50), A
    boot[3] = 0x50;
    // after the unmap the cartridge's bytes stand here; execution falls
    // through them (NOPs) to 0x0100

    let mut gb = GameBoy::new();
    gb.load_boot(boot);
    gb.load_rom(rom_only_cart(0x42));
    assert_eq!(gb.memory.read_byte(0x0000), 0x3E);

    let mut steps = 0;
    while gb.cpu.pc != 0x0100 && steps < 1000 {
        gb.step().unwrap();
        steps += 1;
    }
    assert_eq!(gb.cpu.pc, 0x0100);
    assert_eq!(gb.memory.read_byte(0x0000), 0x42);
}

#[test]
fn timer_overflow_reloads_and_interrupts() {
    // TAC = 0x05 selects the 16-T-state period; TIMA starts at 0xFF, so
    // four NOPs (four machine cycles) overflow it once: TIMA reloads from
    // TMA and the TIMER bit appears in IF.
    let mut cpu = CPU::new();
    let mut memory = Memory::new();
    let mut clock = Clock::new();

    memory.write_byte(0xFF07, 0x05);
    memory.write_byte(0xFF06, 0xAB);
    memory.write_byte(0xFF05, 0xFF);
    memory.write_test(vec![0x00, 0x00, 0x00, 0x00]);

    for _ in 0..4 {
        cpu.execute(&mut memory, &mut clock);
    }
    assert_eq!(memory.read_byte(0xFF05), 0xAB);
    assert_eq!(memory.read_byte(0xFF0F) & 0x04, 0x04);
    assert_eq!(clock.get_timestamp(), 4);
}

#[test]
fn swap_b_zero_sets_zero_flag_and_cycles() {
    // CB 30 with B = 0: B stays 0, F = 0x80, PC advances 2, the clock
    // gains 2 machine cycles.
    let mut cpu = CPU::new();
    let mut memory = Memory::new();
    let mut clock = Clock::new();

    memory.write_test(vec![0xCB, 0x30]);
    cpu.b = 0;
    cpu.execute(&mut memory, &mut clock);

    assert_eq!(cpu.b, 0);
    assert_eq!(cpu.f, 0x80);
    assert_eq!(cpu.pc, 2);
    assert_eq!(clock.get_timestamp(), 2);
}

#[test]
fn ld_hl_sp_half_carry() {
    // SP = 0x000F, opcode F8 01: HL = 0x0010 with H set and C, Z, N clear.
    let mut cpu = CPU::new();
    let mut memory = Memory::new();
    let mut clock = Clock::new();

    memory.write_test(vec![0xF8, 0x01]);
    cpu.sp = 0x000F;
    cpu.execute(&mut memory, &mut clock);

    assert_eq!(cpu.get_hl(), 0x0010);
    assert_eq!(cpu.f, 0x20);
}

#[test]
fn ei_delay_then_di_keeps_interrupts_off() {
    // EI arms a two-instruction delay; DI right after cancels it, so no
    // interrupt is serviced even with one pending.
    let mut gb = GameBoy::new();
    gb.memory.write_test(vec![0xFB, 0xF3]);
    gb.memory.write_byte(0xFFFF, 0x01);
    gb.memory.write_byte(0xFF0F, 0x01);

    gb.step().unwrap();
    gb.step().unwrap();

    assert!(!gb.cpu.ime.1);
    assert_eq!(gb.cpu.pc, 2);
    // the pending VBLANK bit is still there, unserviced
    assert_eq!(gb.memory.read_byte(0xFF0F) & 0x01, 0x01);
}

#[test]
fn unknown_opcode_stops_the_machine() {
    let mut gb = GameBoy::new();
    gb.memory.write_test(vec![0xD3]);
    assert_eq!(gb.step(), Err(0xD3));
}

#[test]
fn frame_spans_17556_cycles_and_raises_vblank_once() {
    // An endless relative jump; LY reaches 144 exactly when the VBLANK
    // frame is signalled, 154 * 114 cycles pace the full frame.
    let mut gb = GameBoy::new();
    gb.memory.write_test(vec![0x18, 0xFE]); // JR -2
    let mut frames = 0u32;
    let mut steps = 0u64;
    while frames == 0 && steps < 20000 {
        let out = gb.step().unwrap();
        if out.frame {
            frames += 1;
        }
        steps += 1;
    }
    assert_eq!(frames, 1);
    assert_eq!(gb.ppu.line_y, 144);
    assert_eq!(gb.memory.read_byte(0xFF44), 144);
    assert_eq!(gb.memory.read_byte(0xFF0F) & 0x01, 0x01);
    assert_eq!(gb.ppu.last_timestamp, 144 * 114);

    // no second frame before a full frame of cycles has passed
    let first_frame_at = gb.clock.get_timestamp();
    let mut second = 0u32;
    while gb.clock.get_timestamp() < first_frame_at + 17000 {
        let out = gb.step().unwrap();
        if out.frame {
            second += 1;
        }
    }
    assert_eq!(second, 0);
}

#[test]
fn write_then_read_back_in_writable_region() {
    let mut memory = Memory::new();
    memory.write_byte(0x8123, 0x5A);
    assert_eq!(memory.read_byte(0x8123), 0x5A);
    memory.write_byte(0xC001, 0x77);
    assert_eq!(memory.read_byte(0xC001), 0x77);
}

#[test]
fn div_register_resets_on_write() {
    let mut memory = Memory::new();
    memory.write_byte(0xFF04, 0x99);
    assert_eq!(memory.read_byte(0xFF04), 0x00);
}

#[test]
fn dma_copies_160_bytes_to_oam() {
    let mut memory = Memory::new();
    for i in 0..160u16 {
        memory.write_byte(0xC000 + i, (i % 251) as u8);
    }
    memory.write_byte(0xFF46, 0xC0);
    for i in 0..160u16 {
        assert_eq!(memory.read_byte(0xFE00 + i), (i % 251) as u8);
    }
    assert_eq!(memory.read_byte(0xFF46), 0xC0);
}

#[test]
fn boot_rom_visible_until_unmap() {
    let mut memory = Memory::new();
    memory.load_cartidge(rom_only_cart(0x42));
    let mut boot = vec![0u8; 0x100];
    boot[0] = 0x3E;
    memory.load_boot(boot);

    assert_eq!(memory.read_byte(0x0000), 0x3E);
    memory.write_byte(0xFF50, 1);
    assert_eq!(memory.read_byte(0x0000), 0x42);
}

#[test]
fn mbc1_bank_switch_changes_upper_window() {
    // four banks; each bank's first byte names it
    let mut rom = vec![0u8; 0x10000];
    rom[0x147] = 0x01; // MBC1
    rom[0x148] = 0x01; // size code 1: four banks
    rom[0x4000] = 0xB1;
    rom[0x8000] = 0xB2;
    rom[0xC000] = 0xB3;
    let mut memory = Memory::new();
    memory.load_cartidge(rom);

    assert_eq!(memory.read_byte(0x4000), 0xB1);
    memory.write_byte(0x2000, 0x02);
    assert_eq!(memory.read_byte(0x4000), 0xB2);
    memory.write_byte(0x2000, 0x03);
    assert_eq!(memory.read_byte(0x4000), 0xB3);
    // bank 0 in the lower slot aliases to bank 1
    memory.write_byte(0x2000, 0x00);
    assert_eq!(memory.read_byte(0x4000), 0xB1);
}

#[test]
fn rom_only_ignores_low_writes() {
    let mut memory = Memory::new();
    memory.load_cartidge(rom_only_cart(0x42));
    memory.write_byte(0x0100, 0x99);
    assert_eq!(memory.read_byte(0x0100), rom_only_cart(0x42)[0x100]);
}

fn render_one_line(memory: &mut Memory) -> Ppu {
    let mut ppu = Ppu::new();
    ppu.render(memory, 0);
    ppu.render(memory, 19);
    ppu.render(memory, 20); // the 20 OAM-scan cycles end: the scanline is drawn
    ppu
}

#[test]
fn sprite_priority_behind_background() {
    // An OAM entry with the priority flag set loses to background colors
    // 1-3: the pixel at x = 8 keeps the background shade.
    let mut memory = Memory::new();
    memory.write_byte(0xFF40, 0x93); // LCD on, 0x8000 tiles, OBJ on, BG on
    memory.write_byte(0xFF47, 0xE4);
    memory.write_byte(0xFF48, 0xE4);
    // background tile 0, row 0: color index 2 everywhere
    memory.write_byte(0x8001, 0xFF);
    // sprite tile 1, row 0: color index 1 everywhere
    memory.write_byte(0x8010, 0xFF);
    // OAM entry 0: y_pos 0x10, x_pos 0x10, tile 1, priority flag
    memory.write_byte(0xFE00, 0x10);
    memory.write_byte(0xFE01, 0x10);
    memory.write_byte(0xFE02, 0x01);
    memory.write_byte(0xFE03, 0x80);

    let ppu = render_one_line(&mut memory);
    // background color 2 maps to dark grey through BGP 0xE4
    assert_eq!(ppu.screen_buffer[8 * 3], 48);
    assert_eq!(ppu.screen_buffer[8 * 3 + 1], 48);
    assert_eq!(ppu.screen_buffer[8 * 3 + 2], 48);
}

#[test]
fn sprite_wins_without_priority_flag() {
    let mut memory = Memory::new();
    memory.write_byte(0xFF40, 0x93);
    memory.write_byte(0xFF47, 0xE4);
    memory.write_byte(0xFF48, 0xE4);
    memory.write_byte(0x8001, 0xFF);
    memory.write_byte(0x8010, 0xFF);
    memory.write_byte(0xFE00, 0x10);
    memory.write_byte(0xFE01, 0x10);
    memory.write_byte(0xFE02, 0x01);
    memory.write_byte(0xFE03, 0x00);

    let ppu = render_one_line(&mut memory);
    // sprite color 1 maps to light grey through OBP0 0xE4
    assert_eq!(ppu.screen_buffer[8 * 3], 139);
}

#[test]
fn at_most_ten_sprites_per_scanline() {
    let mut memory = Memory::new();
    memory.write_byte(0xFF40, 0x93);
    // twenty sprites all intersecting line 0
    for i in 0..20u16 {
        memory.write_byte(0xFE00 + 4 * i, 0x10);
        memory.write_byte(0xFE00 + 4 * i + 1, 0x08);
        memory.write_byte(0xFE00 + 4 * i + 2, 0x00);
        memory.write_byte(0xFE00 + 4 * i + 3, 0x00);
    }
    let ppu = render_one_line(&mut memory);
    assert_eq!(ppu.obj_fifo.obj_attr.len(), 10);
}

#[test]
fn lcd_disabled_renders_black() {
    let mut memory = Memory::new();
    memory.write_byte(0xFF40, 0x13); // bit 7 clear
    memory.write_byte(0xFF47, 0xE4);
    memory.write_byte(0x8001, 0xFF);
    let ppu = render_one_line(&mut memory);
    for x in 0..160 {
        assert_eq!(ppu.screen_buffer[x * 3], 0);
        assert_eq!(ppu.screen_buffer[x * 3 + 1], 0);
        assert_eq!(ppu.screen_buffer[x * 3 + 2], 0);
    }
}

#[test]
fn daa_after_bcd_add() {
    // 0x15 + 0x27 = 0x3C; DAA corrects to 0x42, and a second DAA changes
    // nothing.
    let mut cpu = CPU::new();
    let mut memory = Memory::new();
    let mut clock = Clock::new();
    memory.write_test(vec![0x80, 0x27, 0x27]); // ADD A,B; DAA; DAA
    cpu.a = 0x15;
    cpu.b = 0x27;
    cpu.execute(&mut memory, &mut clock);
    assert_eq!(cpu.a, 0x3C);
    cpu.execute(&mut memory, &mut clock);
    assert_eq!(cpu.a, 0x42);
    cpu.execute(&mut memory, &mut clock);
    assert_eq!(cpu.a, 0x42);
}

#[test]
fn cpl_involution() {
    let mut cpu = CPU::new();
    let mut memory = Memory::new();
    let mut clock = Clock::new();
    memory.write_test(vec![0x2F, 0x2F]);
    cpu.a = 0xA5;
    cpu.execute(&mut memory, &mut clock);
    assert_eq!(cpu.a, 0x5A);
    assert_eq!(cpu.f & 0x60, 0x60); // N and H set
    cpu.execute(&mut memory, &mut clock);
    assert_eq!(cpu.a, 0xA5);
}

#[test]
fn branch_cycle_counts() {
    // JR NZ taken costs 3 cycles, not taken 2.
    let mut cpu = CPU::new();
    let mut memory = Memory::new();
    let mut clock = Clock::new();
    memory.write_test(vec![0x20, 0x02]); // JR NZ, +2
    cpu.execute(&mut memory, &mut clock);
    assert_eq!(clock.get_timestamp(), 3);
    assert_eq!(cpu.pc, 4);

    let mut cpu = CPU::new();
    let mut memory = Memory::new();
    let mut clock = Clock::new();
    memory.write_test(vec![0x20, 0x02]);
    cpu.f = 0x80; // Z set: not taken
    cpu.execute(&mut memory, &mut clock);
    assert_eq!(clock.get_timestamp(), 2);
    assert_eq!(cpu.pc, 2);
}

#[test]
fn rotate_carry_out_is_shifted_bit() {
    // RLC B: carry is the old bit 7; RRC B: carry is the old bit 0.
    let mut cpu = CPU::new();
    let mut memory = Memory::new();
    let mut clock = Clock::new();
    memory.write_test(vec![0xCB, 0x00]); // RLC B
    cpu.b = 0x80;
    cpu.execute(&mut memory, &mut clock);
    assert_eq!(cpu.b, 0x01);
    assert!(cpu.get_flag(0x10));

    let mut cpu = CPU::new();
    let mut memory = Memory::new();
    let mut clock = Clock::new();
    memory.write_test(vec![0xCB, 0x08]); // RRC B
    cpu.b = 0x01;
    cpu.execute(&mut memory, &mut clock);
    assert_eq!(cpu.b, 0x80);
    assert!(cpu.get_flag(0x10));
}

#[test]
fn bit_test_flags() {
    // BIT 7,B: Z is the complement of the bit, H set, N clear, C kept.
    let mut cpu = CPU::new();
    let mut memory = Memory::new();
    let mut clock = Clock::new();
    memory.write_test(vec![0xCB, 0x78]); // BIT 7,B
    cpu.b = 0x00;
    cpu.f = 0x10;
    cpu.execute(&mut memory, &mut clock);
    assert_eq!(cpu.f, 0xB0); // Z set, H set, C kept
}

#[test]
fn interrupt_dispatch_vector_and_cycles() {
    // With IME on and VBLANK pending, the CPU pushes PC, jumps to 0x40,
    // clears the bit, and the dispatch costs five cycles.
    let mut cpu = CPU::new();
    let mut memory = Memory::new();
    let mut clock = Clock::new();
    cpu.ime = (None, true);
    cpu.pc = 0x1234;
    cpu.sp = 0xC100;
    memory.write_byte(0xFFFF, 0x01);
    memory.write_byte(0xFF0F, 0x01);
    cpu.handle_interrupts(&mut memory, &mut clock);
    assert_eq!(cpu.pc, 0x40);
    assert!(!cpu.ime.1);
    assert_eq!(memory.read_byte(0xFF0F) & 0x01, 0);
    assert_eq!(memory.read_byte(0xC0FF), 0x12);
    assert_eq!(memory.read_byte(0xC0FE), 0x34);
    assert_eq!(clock.get_timestamp(), 5);
}

#[test]
fn tall_sprite_bottom_tile() {
    // With LCDC bit 2 set, sprites are 8x16: a sprite with y_pos = 8 shows
    // its ninth row on line 0, which comes from the odd tile of the pair.
    let mut memory = Memory::new();
    memory.write_byte(0xFF40, 0x97); // LCD on, 0x8000 tiles, 8x16, OBJ on, BG on
    memory.write_byte(0xFF47, 0xE4);
    memory.write_byte(0xFF48, 0xE4);
    // tile 3 (bottom of the 2/3 pair), row 0: color index 1 everywhere
    memory.write_byte(0x8030, 0xFF);
    // OAM entry 0: y_pos 8, x_pos 16, tile 2
    memory.write_byte(0xFE00, 0x08);
    memory.write_byte(0xFE01, 0x10);
    memory.write_byte(0xFE02, 0x02);
    memory.write_byte(0xFE03, 0x00);

    let ppu = render_one_line(&mut memory);
    // sprite color 1 through OBP0 0xE4 is light grey at x = 8..16
    assert_eq!(ppu.screen_buffer[8 * 3], 139);
    // in 8x8 mode the same entry would not intersect line 0 at all
    let mut memory8 = Memory::new();
    memory8.write_byte(0xFF40, 0x93);
    memory8.write_byte(0xFF47, 0xE4);
    memory8.write_byte(0xFF48, 0xE4);
    memory8.write_byte(0x8030, 0xFF);
    memory8.write_byte(0xFE00, 0x08);
    memory8.write_byte(0xFE01, 0x10);
    memory8.write_byte(0xFE02, 0x02);
    memory8.write_byte(0xFE03, 0x00);
    let ppu8 = render_one_line(&mut memory8);
    // background color 0 through BGP 0xE4 is white
    assert_eq!(ppu8.screen_buffer[8 * 3], 255);
}
