use nes_core::bus::Bus;
use nes_core::cpu::Cpu;
use nes_core::errors::EmuError;
use nes_core::nes::Nes;
use nes_core::ppu::Ppu;
use nes_core::testing::parse_processor_flags;
use nes_core::util::{combine_low_high, get_u8_bit, get_u8_bits, set_u8_bit};

fn machine() -> (Bus, Cpu, Ppu) {
    (Bus::new(), Cpu::new(), Ppu::new())
}

#[test]
fn power_on_reset() {
    let mut nes = Nes::new();
    let mut rom = vec![0u8; 0x6010];
    rom[0x10 + 0x3FFC] = 0x00;
    rom[0x10 + 0x3FFD] = 0x80;
    nes.bus.load_cartridge(&rom).unwrap();
    nes.reset();
    assert_eq!(nes.cpu.pc, 0x8000);
    assert_eq!(nes.cpu.stack_pointer, 0xFD);
    assert_eq!(nes.cpu.flags_to_byte(), 0x24);
    assert_eq!(nes.cycles, 7);
    assert_eq!(nes.cycles_left, 7);
}

#[test]
fn adc_immediate_with_carry() {
    let (mut bus, mut cpu, mut ppu) = machine();
    cpu.pc = 0x8000;
    cpu.a = 0x50;
    cpu.c = true;
    bus.cpu_write_16(0x8000, 0x69);
    bus.cpu_write_16(0x8001, 0x10);
    let cycles = cpu.load_instruction(&mut bus).unwrap();
    assert_eq!(cycles, 2);
    cpu.execute_instruction(&mut bus, &mut ppu).unwrap();
    assert_eq!(cpu.a, 0x61);
    assert!(!cpu.c);
    assert!(!cpu.o);
    assert!(!cpu.z);
    assert!(!cpu.n);
    assert_eq!(cpu.pc, 0x8002);
}

#[test]
fn branch_taken_across_page() {
    let (mut bus, mut cpu, mut ppu) = machine();
    cpu.pc = 0x80FD;
    cpu.c = true;
    bus.cpu_write_16(0x80FD, 0xB0);
    bus.cpu_write_16(0x80FE, 0x05);
    let cycles = cpu.load_instruction(&mut bus).unwrap();
    assert_eq!(cycles, 4);
    cpu.execute_instruction(&mut bus, &mut ppu).unwrap();
    assert_eq!(cpu.pc, 0x8104);
}

#[test]
fn branch_cycle_counts() {
    // Not taken: 2 cycles.
    let (mut bus, mut cpu, _) = machine();
    cpu.pc = 0x8000;
    cpu.c = false;
    bus.cpu_write_16(0x8000, 0xB0);
    bus.cpu_write_16(0x8001, 0x05);
    assert_eq!(cpu.load_instruction(&mut bus).unwrap(), 2);
    // Taken, same page: 3 cycles.
    cpu.c = true;
    assert_eq!(cpu.load_instruction(&mut bus).unwrap(), 3);
    // Taken, page cross: 4 cycles.
    cpu.pc = 0x80FD;
    bus.cpu_write_16(0x80FD, 0xB0);
    bus.cpu_write_16(0x80FE, 0x05);
    assert_eq!(cpu.load_instruction(&mut bus).unwrap(), 4);
}

#[test]
fn jsr_rts_round_trip() {
    let (mut bus, mut cpu, mut ppu) = machine();
    cpu.pc = 0x8000;
    bus.cpu_write_16(0x8000, 0x20);
    bus.cpu_write_16(0x8001, 0x34);
    bus.cpu_write_16(0x8002, 0x12);
    let cycles = cpu.load_instruction(&mut bus).unwrap();
    assert_eq!(cycles, 6);
    cpu.execute_instruction(&mut bus, &mut ppu).unwrap();
    assert_eq!(bus.cpu_read_16(0x01FD), 0x80);
    assert_eq!(bus.cpu_read_16(0x01FC), 0x02);
    assert_eq!(cpu.pc, 0x1234);
    assert_eq!(cpu.stack_pointer, 0xFB);
    bus.cpu_write_16(0x1234, 0x60);
    let cycles = cpu.load_instruction(&mut bus).unwrap();
    assert_eq!(cycles, 6);
    cpu.execute_instruction(&mut bus, &mut ppu).unwrap();
    assert_eq!(cpu.pc, 0x8003);
    assert_eq!(cpu.stack_pointer, 0xFD);
}

#[test]
fn vblank_and_nmi() {
    let (mut bus, mut cpu, mut ppu) = machine();
    // NMI vector.
    bus.cpu_write_16(0xFFFA, 0x00);
    bus.cpu_write_16(0xFFFB, 0x90);
    // Enable the interrupt through the CONTROL register.
    bus.cpu_write_16_ppu_regs(0x2000, 0x80, &mut ppu).unwrap();
    assert!(ppu.control.nmi);
    let mut injected: u32 = 0;
    loop {
        injected += ppu.tick(&mut bus, &mut cpu) as u32;
        if ppu.line == 241 && ppu.cycle == 2 {
            break;
        }
    }
    // Seven extra cycles were billed and the CPU jumped through 0xFFFA.
    assert_eq!(injected, 7);
    assert_eq!(cpu.pc, 0x9000);
    // STATUS bit 7 reads set once, then the read clears it.
    let v = bus.cpu_read_16_ppu_regs(0x2002, &mut ppu);
    assert_eq!(v & 0x80, 0x80);
    let v2 = bus.cpu_read_16_ppu_regs(0x2002, &mut ppu);
    assert_eq!(v2 & 0x80, 0x00);
}

#[test]
fn vblank_flag_transitions() {
    let (mut bus, mut cpu, mut ppu) = machine();
    let mut saw_set_at = None;
    let mut saw_clear_at = None;
    let mut prev = ppu.status.vblank;
    for _ in 0..(262 * 341 + 10) {
        let at = (ppu.line, ppu.cycle);
        ppu.tick(&mut bus, &mut cpu);
        if !prev && ppu.status.vblank {
            saw_set_at = Some(at);
        }
        if prev && !ppu.status.vblank {
            saw_clear_at = Some(at);
        }
        prev = ppu.status.vblank;
    }
    assert_eq!(saw_set_at, Some((241, 1)));
    assert_eq!(saw_clear_at, Some((261, 1)));
}

#[test]
fn ppu_scan_order() {
    let (mut bus, mut cpu, mut ppu) = machine();
    assert_eq!((ppu.line, ppu.cycle), (0, 0));
    ppu.tick(&mut bus, &mut cpu);
    assert_eq!((ppu.line, ppu.cycle), (0, 1));
    // Every dot of a frame is visited exactly once, in increasing order.
    let mut count: u64 = 1;
    while !(ppu.line == 0 && ppu.cycle == 0) {
        let before = (ppu.line, ppu.cycle);
        ppu.tick(&mut bus, &mut cpu);
        let after = (ppu.line, ppu.cycle);
        assert!(after.0 > before.0 || (after.0 == before.0 && after.1 == before.1 + 1) || after
            == (0, 0) || (after.0 == before.0 + 1 && after.1 == 0));
        count += 1;
    }
    assert_eq!(count, 262 * 341);
}

#[test]
fn sprite_zero_hit() {
    let (mut bus, mut cpu, mut ppu) = machine();
    // Background tile 1 under dot (line 80, column 100), with an opaque row.
    bus.ppu_write_16(0x2000 + (80 / 8) * 32 + 100 / 8, 1);
    bus.ppu_write_16((1 << 4) | (80 % 8), 0xFF);
    // Sprite 0: y = 80, tile 2, x = 100, with an opaque row 0.
    bus.cpu_write_16(0x0300, 80);
    bus.cpu_write_16(0x0301, 2);
    bus.cpu_write_16(0x0302, 0);
    bus.cpu_write_16(0x0303, 100);
    bus.cpu_write_16_ppu_regs(0x4014, 0x03, &mut ppu).unwrap();
    bus.ppu_write_16(2 << 4, 0xFF);
    // Palette entries so both pixels select a color.
    bus.ppu_write_16(0x3F00, 0x21);
    while !(ppu.line == 81 && ppu.cycle == 0) {
        ppu.tick(&mut bus, &mut cpu);
    }
    assert!(ppu.status.hit);
    assert_eq!(bus.cpu_read_16(0x2002) & 0x40, 0x40);
    // The flag stays up until the pre-render line clears it.
    while !(ppu.line == 261 && ppu.cycle == 2) {
        ppu.tick(&mut bus, &mut cpu);
    }
    assert!(!ppu.status.hit);
    assert_eq!(bus.cpu_read_16(0x2002) & 0x40, 0x00);
}

#[test]
fn adc_then_sbc_restores_accumulator() {
    let (mut bus, mut cpu, mut ppu) = machine();
    cpu.pc = 0x8000;
    cpu.a = 0x35;
    cpu.c = true;
    bus.cpu_write_16(0x8000, 0x69);
    bus.cpu_write_16(0x8001, 0x17);
    bus.cpu_write_16(0x8002, 0xE9);
    bus.cpu_write_16(0x8003, 0x17);
    cpu.load_instruction(&mut bus).unwrap();
    cpu.execute_instruction(&mut bus, &mut ppu).unwrap();
    assert_eq!(cpu.a, 0x4D);
    assert!(!cpu.c);
    cpu.load_instruction(&mut bus).unwrap();
    cpu.execute_instruction(&mut bus, &mut ppu).unwrap();
    assert_eq!(cpu.a, 0x35);
}

#[test]
fn pha_pla_round_trip() {
    let (mut bus, mut cpu, mut ppu) = machine();
    cpu.pc = 0x8000;
    cpu.a = 0x7A;
    bus.cpu_write_16(0x8000, 0x48);
    bus.cpu_write_16(0x8001, 0xA9);
    bus.cpu_write_16(0x8002, 0x00);
    bus.cpu_write_16(0x8003, 0x68);
    let sp0 = cpu.stack_pointer;
    cpu.load_instruction(&mut bus).unwrap();
    cpu.execute_instruction(&mut bus, &mut ppu).unwrap();
    cpu.load_instruction(&mut bus).unwrap();
    cpu.execute_instruction(&mut bus, &mut ppu).unwrap();
    assert_eq!(cpu.a, 0x00);
    cpu.load_instruction(&mut bus).unwrap();
    cpu.execute_instruction(&mut bus, &mut ppu).unwrap();
    assert_eq!(cpu.a, 0x7A);
    assert_eq!(cpu.stack_pointer, sp0);
}

#[test]
fn addr_data_round_trip() {
    let (mut bus, _, mut ppu) = machine();
    bus.cpu_write_16_ppu_regs(0x2006, 0x21, &mut ppu).unwrap();
    bus.cpu_write_16_ppu_regs(0x2006, 0x08, &mut ppu).unwrap();
    assert_eq!(ppu.addr, 0x2108);
    bus.cpu_write_16_ppu_regs(0x2007, 0x5A, &mut ppu).unwrap();
    assert_eq!(bus.ppu_read_16(0x2108), 0x5A);
}

#[test]
fn zero_page_indexed_wraps() {
    let (mut bus, mut cpu, mut ppu) = machine();
    cpu.pc = 0x8000;
    cpu.x = 0x02;
    bus.cpu_write_16(0x0001, 0x99);
    bus.cpu_write_16(0x8000, 0xB5);
    bus.cpu_write_16(0x8001, 0xFF);
    cpu.load_instruction(&mut bus).unwrap();
    cpu.execute_instruction(&mut bus, &mut ppu).unwrap();
    assert_eq!(cpu.a, 0x99);
}

#[test]
fn indirect_indexed_pointer_wraps() {
    let (mut bus, mut cpu, mut ppu) = machine();
    cpu.pc = 0x8000;
    cpu.y = 0x00;
    // Pointer at zero page 0xFF: low from 0xFF, high from 0x00.
    bus.cpu_write_16(0x00FF, 0x20);
    bus.cpu_write_16(0x0000, 0x03);
    bus.cpu_write_16(0x0320, 0x42);
    bus.cpu_write_16(0x8000, 0xB1);
    bus.cpu_write_16(0x8001, 0xFF);
    // No carry out of pointer-low + Y, so no page-cross penalty even at
    // zero-page pointer 0xFF.
    assert_eq!(cpu.load_instruction(&mut bus).unwrap(), 5);
    cpu.execute_instruction(&mut bus, &mut ppu).unwrap();
    assert_eq!(cpu.a, 0x42);
}

#[test]
fn indirect_indexed_penalty_carries() {
    let (mut bus, mut cpu, _) = machine();
    cpu.pc = 0x8000;
    cpu.y = 0x10;
    bus.cpu_write_16(0x00FF, 0xF8);
    bus.cpu_write_16(0x8000, 0xB1);
    bus.cpu_write_16(0x8001, 0xFF);
    // 0xF8 + 0x10 carries into the high byte: one extra cycle.
    assert_eq!(cpu.load_instruction(&mut bus).unwrap(), 6);
}

#[test]
fn sprite_vertical_flip() {
    let (mut bus, mut cpu, mut ppu) = machine();
    // Sprite 0: y = 80, tile 2, vertically flipped, x = 100.
    bus.cpu_write_16(0x0300, 80);
    bus.cpu_write_16(0x0301, 2);
    bus.cpu_write_16(0x0302, 0x80);
    bus.cpu_write_16(0x0303, 100);
    bus.cpu_write_16_ppu_regs(0x4014, 0x03, &mut ppu).unwrap();
    // Tile 2: last row opaque, first row transparent.
    bus.ppu_write_16((2 << 4) | 7, 0xFF);
    bus.ppu_write_16(0x3F01, 0x33);
    while !(ppu.line == 81 && ppu.cycle == 0) {
        ppu.tick(&mut bus, &mut cpu);
    }
    // On the sprite's first visible row the flipped tile shows its last row.
    assert_eq!(ppu.frame[80 * 256 + 99], 0x33);
}

#[test]
fn jmp_indirect_page_wrap_bug() {
    let (mut bus, mut cpu, mut ppu) = machine();
    cpu.pc = 0x8000;
    bus.cpu_write_16(0x02FF, 0x34);
    bus.cpu_write_16(0x0200, 0x12);
    bus.cpu_write_16(0x0300, 0x55);
    bus.cpu_write_16(0x8000, 0x6C);
    bus.cpu_write_16(0x8001, 0xFF);
    bus.cpu_write_16(0x8002, 0x02);
    cpu.load_instruction(&mut bus).unwrap();
    cpu.execute_instruction(&mut bus, &mut ppu).unwrap();
    // High byte comes from 0x0200, not 0x0300.
    assert_eq!(cpu.pc, 0x1234);
}

#[test]
fn register_window_mirror() {
    let (mut bus, _, _) = machine();
    assert_eq!(bus.cpu_ppu_reg_addr_map(0x2008), 0x2000);
    assert_eq!(bus.cpu_ppu_reg_addr_map(0x3456), 0x2006);
    assert_eq!(bus.cpu_ppu_reg_addr_map(0x3FFF), 0x2007);
    assert_eq!(bus.cpu_ppu_reg_addr_map(0x2002), 0x2002);
    assert_eq!(bus.cpu_ppu_reg_addr_map(0x4014), 0x4014);
}

#[test]
fn status_byte_bits() {
    let mut cpu = Cpu::new();
    let p = cpu.flags_to_byte();
    assert_eq!(p & 0x20, 0x20);
    assert_eq!(p & 0x10, 0x00);
    cpu.n = true;
    cpu.c = true;
    assert_eq!(cpu.flags_to_byte(), 0x80 | 0x20 | 0x04 | 0x01);
}

#[test]
fn controller_port_shift() {
    let mut bus = Bus::new();
    bus.input = 0b1010_0101;
    // Writing 1 arms polling and latches the input byte.
    bus.cpu_write_16(0x4016, 1);
    assert!(bus.polling);
    // While polling, reads return bit 0 without shifting.
    assert_eq!(bus.cpu_read_16(0x4016), 1);
    assert_eq!(bus.cpu_read_16(0x4016), 1);
    // Writing 0 releases the latch; reads shift right.
    bus.cpu_write_16(0x4016, 0);
    assert_eq!(bus.cpu_read_16(0x4016), 1);
    assert_eq!(bus.cpu_read_16(0x4016), 0);
    assert_eq!(bus.cpu_read_16(0x4016), 1);
    assert_eq!(bus.cpu_read_16(0x4016), 0);
}

#[test]
fn cartridge_errors() {
    let mut bus = Bus::new();
    let short = vec![0u8; 0x100];
    assert_eq!(bus.load_cartridge(&short), Err(EmuError::MalformedCartridge));
    let mut mapper1 = vec![0u8; 0x6010];
    mapper1[6] = 0x80;
    assert_eq!(bus.load_cartridge(&mapper1), Err(EmuError::UnsupportedMapper));
}

#[test]
fn unknown_opcode_is_fatal() {
    let (mut bus, mut cpu, _) = machine();
    cpu.pc = 0x8000;
    bus.cpu_write_16(0x8000, 0x02);
    assert_eq!(cpu.load_instruction(&mut bus), Err(EmuError::UnknownOpcode(0x02)));
}

#[test]
fn data_port_with_bad_latch_is_fatal() {
    let (mut bus, _, mut ppu) = machine();
    bus.cpu_write_16_ppu_regs(0x2006, 0x41, &mut ppu).unwrap();
    bus.cpu_write_16_ppu_regs(0x2006, 0x00, &mut ppu).unwrap();
    assert_eq!(
        bus.cpu_write_16_ppu_regs(0x2007, 0x00, &mut ppu),
        Err(EmuError::VramAddrOutOfRange)
    );
}

#[test]
fn oam_dma_copies_a_page() {
    let (mut bus, _, mut ppu) = machine();
    for k in 0..256u16 {
        bus.cpu_write_16(0x0200 + k, (k as u8).wrapping_add(3));
    }
    bus.cpu_write_16_ppu_regs(0x4014, 0x02, &mut ppu).unwrap();
    assert_eq!(ppu.oam[0], 3);
    assert_eq!(ppu.oam[255], 2);
}

#[test]
fn util_bit_helpers() {
    assert_eq!(combine_low_high(0x34, 0x12), 0x1234);
    assert_eq!(get_u8_bit(0b1000_0000, 7), 1);
    assert_eq!(get_u8_bit(0b1000_0000, 6), 0);
    assert_eq!(set_u8_bit(0, 3, 1), 0b1000);
    assert_eq!(set_u8_bit(0xFF, 3, 0), 0b1111_0111);
    assert_eq!(get_u8_bits(0b1101_1010, 4, 1), 0b1101);
}

#[test]
fn parse_flags_field() {
    assert_eq!(parse_processor_flags("NvUbdIzC"), 0xA5);
    assert_eq!(parse_processor_flags("nvubdizc"), 0x20);
    assert_eq!(parse_processor_flags("NVUBDIZC"), 0xFF);
}

#[test]
fn run_frame_counts_cycles() {
    let mut nes = Nes::new();
    let mut rom = vec![0u8; 0x6010];
    // Reset to 0x8000, where an endless loop of NOPs sits (opcode 0xEA).
    rom[0x10 + 0x3FFC] = 0x00;
    rom[0x10 + 0x3FFD] = 0x80;
    for k in 0..0x3FFC {
        rom[0x10 + k] = 0xEA;
    }
    nes.bus.load_cartridge(&rom).unwrap();
    nes.reset();
    nes.run_frame(0x01).unwrap();
    // 29,780 cycles ran; the charge counter follows within one instruction.
    assert!(nes.cycles >= 29780);
    assert!(nes.cycles <= 29780 + 9);
    assert_eq!(nes.bus.input, 0x01);
}
