//! Whole-system behaviour: the ROM loader, the mappers, the bus and the
//! direct-memory-access channel, the controller serialisation, the frame
//! cadence and the vertical blank timing.

use gc_nes_core::cartridge::calculate_rom_size;
use gc_nes_core::cartridge::Cartridge;
use gc_nes_core::cartridge::CartridgeError;
use gc_nes_core::cartridge::Mirroring;
use gc_nes_core::mapper::get_mapper;
use gc_nes_core::mapper::Mapper;
use gc_nes_core::nes::Nes;
use gc_nes_core::ppu::NesPpu;
use gc_nes_core::ppu::PPU_CTRL_NMI_ENABLE;
use gc_nes_core::ppu::PPU_CTRL_VRAM_INCREMENT;
use gc_nes_core::ppu::PPU_MASK_BACKGROUND_ENABLE;
use gc_nes_core::ppu::PPU_STATUS_VERTICAL_BLANK;
use gc_nes_core::ppu_render::NES_COLOUR_MAP;

/// A ROM image with the given program and character contents, NROM unless a
/// mapper id is patched in afterwards.
fn rom_image(program: &[u8], character: &[u8]) -> Vec<u8> {
    let prg_banks = (program.len() / 16384) as u8;
    let chr_banks = (character.len() / 8192) as u8;
    let mut data = vec![0x4eu8, 0x45, 0x53, 0x1a, prg_banks, chr_banks, 0, 0, 0, 0, 0, 0, 0, 0, 0, 0];
    data.extend_from_slice(program);
    data.extend_from_slice(character);
    data
}

/// A zeroed NROM cartridge with horizontal mirroring.
fn test_cartridge() -> Cartridge {
    Cartridge::load_from_reader(&rom_image(&vec![0u8; 16384], &vec![0u8; 8192])).expect("load")
}

#[test]
fn palette_mirroring_write_3f10_reads_3f00() {
    let mut ppu = NesPpu::new();
    let mut cartridge = test_cartridge();
    ppu.vram_write(0x3f10, 0x3a, &mut cartridge);
    assert_eq!(0x3a, ppu.vram_read(0x3f00, &mut cartridge));
}

#[test]
fn palette_mirroring_covers_all_transparent_entries() {
    let mut ppu = NesPpu::new();
    let mut cartridge = test_cartridge();
    for (alias, base) in [(0x3f10u16, 0x3f00u16), (0x3f14, 0x3f04), (0x3f18, 0x3f08), (0x3f1c, 0x3f0c)] {
        ppu.vram_write(alias, 0x21, &mut cartridge);
        assert_eq!(0x21, ppu.vram_read(base, &mut cartridge));
        ppu.vram_write(base, 0x07, &mut cartridge);
        assert_eq!(0x07, ppu.vram_read(alias, &mut cartridge));
    }
}

#[test]
fn nametable_accesses_above_0x3000_mirror_0x2000() {
    let mut ppu = NesPpu::new();
    let mut cartridge = test_cartridge();
    ppu.vram_write(0x3123, 0x5d, &mut cartridge);
    assert_eq!(0x5d, ppu.vram_read(0x2123, &mut cartridge));
    ppu.vram_write(0x2eff, 0x31, &mut cartridge);
    assert_eq!(0x31, ppu.vram_read(0x3eff, &mut cartridge));
}

#[test]
fn vblank_flag_and_nmi_after_241_scanlines() {
    let mut ppu = NesPpu::new();
    let mut cartridge = test_cartridge();
    ppu.scanline = 0;
    ppu.cycle = 0;
    ppu.ctrl_flags = PPU_CTRL_NMI_ENABLE;
    let total = 241 * 341 + 2;
    let mut nmi_at = None;
    for i in 0..total {
        if ppu.cycle(&mut cartridge) {
            nmi_at = Some(i);
        }
    }
    assert_eq!(Some(total - 1), nmi_at);
    let first = ppu.read(&mut cartridge, 0x2002);
    assert_ne!(0, first & 0x80);
    let second = ppu.read(&mut cartridge, 0x2002);
    assert_eq!(0, second & 0x80);
    assert_eq!(first & 0x7f, second & 0x7f);
}

#[test]
fn coarse_x_wrap_flips_horizontal_nametable() {
    let mut ppu = NesPpu::new();
    ppu.current_vram_address = 0b000_11_00000_11111;
    ppu.mask_flags = PPU_MASK_BACKGROUND_ENABLE;
    ppu.coarse_x_increment();
    assert_eq!(0b000_10_00000_00000, ppu.current_vram_address);
}

#[test]
fn coarse_y_wrap_at_29_flips_vertical_nametable() {
    let mut ppu = NesPpu::new();
    ppu.current_vram_address = 0b111_00_11101_11111;
    ppu.mask_flags = PPU_MASK_BACKGROUND_ENABLE;
    ppu.y_increment();
    // Fine y cleared, coarse y wrapped to zero, and the vertical nametable
    // bit (bit 11) flipped.
    assert_eq!(0b000_10_00000_11111, ppu.current_vram_address);
}

#[test]
fn nrom_read_through_ramp() {
    let mut program = vec![0u8; 16384];
    for i in 0..program.len() {
        program[i] = (i & 0xff) as u8;
    }
    let cartridge_16k = Cartridge::load_from_reader(&rom_image(&program, &vec![0u8; 8192]))
        .expect("load");
    assert_eq!(5, cartridge_16k.program_read(0x8005));
    assert_eq!(5, cartridge_16k.program_read(0xc005));

    let mut program_32k = vec![0u8; 32768];
    for i in 0..program_32k.len() {
        program_32k[i] = (i & 0xff) as u8;
    }
    let cartridge_32k = Cartridge::load_from_reader(&rom_image(&program_32k, &vec![0u8; 8192]))
        .expect("load");
    assert_eq!(5, cartridge_32k.program_read(0x8005));
    assert_eq!((0x4005u32 & 0xff) as u8, cartridge_32k.program_read(0xc005));
}

#[test]
fn nrom_mirroring_distinguishes_sizes() {
    let mut program = vec![0u8; 32768];
    program[0x0005] = 0xaa;
    program[0x4005] = 0xbb;
    let cartridge_32k = Cartridge::load_from_reader(&rom_image(&program, &vec![0u8; 8192]))
        .expect("load");
    assert_eq!(0xaa, cartridge_32k.program_read(0x8005));
    assert_eq!(0xbb, cartridge_32k.program_read(0xc005));

    let mut program_16k = vec![0u8; 16384];
    program_16k[0x0005] = 0xaa;
    let cartridge_16k = Cartridge::load_from_reader(&rom_image(&program_16k, &vec![0u8; 8192]))
        .expect("load");
    assert_eq!(0xaa, cartridge_16k.program_read(0xc005));
}

#[test]
fn oam_dma_copies_a_page_and_stalls_the_cpu() {
    let mut nes = Nes::new(test_cartridge());
    for i in 0..256u16 {
        nes.bus.write(0x0200 + i, (i as u8).wrapping_mul(7).wrapping_add(3));
    }
    // Step one master tick so the transfer is requested on an odd count.
    let ran = nes.cycle_cpu_phase();
    assert!(ran);
    nes.cycle_ppu_phase();
    assert_eq!(1, nes.cycle_count % 2);
    nes.bus.write(0x4014, 0x02);
    let mut cpu_runs = 0u32;
    let mut ticks = 0u64;
    while nes.bus.dma_status.is_some() {
        if nes.cycle_cpu_phase() {
            cpu_runs += 1;
        }
        nes.cycle_ppu_phase();
        ticks += 1;
        assert!(ticks < 4000, "transfer never finished");
    }
    assert_eq!(0, cpu_runs);
    for i in 0..256usize {
        assert_eq!(
            (i as u8).wrapping_mul(7).wrapping_add(3),
            nes.bus.ppu.object_attribute_memory[i]
        );
    }
}

#[test]
fn odd_frame_cycle_skip_totals_178683() {
    let mut ppu = NesPpu::new();
    let mut cartridge = test_cartridge();
    ppu.mask_flags = PPU_MASK_BACKGROUND_ENABLE;
    while ppu.frame_count == 0 {
        ppu.cycle(&mut cartridge);
    }
    let mut first = 0u32;
    while ppu.frame_count == 1 {
        ppu.cycle(&mut cartridge);
        first += 1;
    }
    let mut second = 0u32;
    while ppu.frame_count == 2 {
        ppu.cycle(&mut cartridge);
        second += 1;
    }
    assert_eq!(178683, first + second);
    assert_eq!(89341, first.min(second));
    assert_eq!(89342, first.max(second));
}

#[test]
fn controller_latch_then_polls_hand_out_the_bits() {
    let mut nes = Nes::new(test_cartridge());
    let state = 0b1011_0100u8;
    nes.update_controller_one(Some(state));
    nes.bus.write(0x4016, 1);
    nes.bus.write(0x4016, 0);
    for i in 0..8 {
        let bit = nes.bus.read(0x4016) & 0x01;
        assert_eq!((state >> i) & 0x01, bit, "poll {}", i);
    }
    for _ in 0..3 {
        assert_eq!(1, nes.bus.read(0x4016) & 0x01);
    }
}

#[test]
fn controller_held_latch_rereads_first_bit() {
    let mut nes = Nes::new(test_cartridge());
    nes.update_controller_one(Some(0b0000_0001));
    nes.bus.write(0x4016, 1);
    for _ in 0..4 {
        assert_eq!(1, nes.bus.read(0x4016) & 0x01);
    }
}

#[test]
fn disconnected_controller_reads_open_bus() {
    let mut nes = Nes::new(test_cartridge());
    assert_eq!(0x00, nes.bus.read(0x4016));
    assert_eq!(0x00, nes.bus.read(0x4017));
}

#[test]
fn mmc3_scanline_counter_raises_one_pending_irq() {
    let mut mapper = get_mapper(4, 0).expect("mapper");
    let mut program_ram: Vec<u8> = Vec::new();
    // Reload value zero, counter armed, interrupts enabled.
    mapper.program_write(&mut program_ram, 0xc000, 0);
    mapper.program_write(&mut program_ram, 0xc001, 0);
    mapper.program_write(&mut program_ram, 0xe001, 0);
    mapper.end_of_scanline();
    assert!(mapper.get_pending_interrupt_request());
    assert!(!mapper.get_pending_interrupt_request());
}

#[test]
fn mmc3_scanline_counter_counts_down_to_the_irq() {
    let mut mapper = get_mapper(4, 0).expect("mapper");
    let mut program_ram: Vec<u8> = Vec::new();
    mapper.program_write(&mut program_ram, 0xc000, 2);
    mapper.program_write(&mut program_ram, 0xc001, 0);
    mapper.program_write(&mut program_ram, 0xe001, 0);
    mapper.end_of_scanline();
    assert!(!mapper.get_pending_interrupt_request());
    mapper.end_of_scanline();
    assert!(!mapper.get_pending_interrupt_request());
    mapper.end_of_scanline();
    assert!(!mapper.get_pending_interrupt_request());
    mapper.end_of_scanline();
    assert!(mapper.get_pending_interrupt_request());
}

#[test]
fn mmc3_irq_disable_clears_the_pending_request() {
    let mut mapper = get_mapper(4, 0).expect("mapper");
    let mut program_ram: Vec<u8> = Vec::new();
    mapper.program_write(&mut program_ram, 0xc000, 0);
    mapper.program_write(&mut program_ram, 0xc001, 0);
    mapper.program_write(&mut program_ram, 0xe001, 0);
    mapper.end_of_scanline();
    mapper.program_write(&mut program_ram, 0xe000, 0);
    assert!(!mapper.get_pending_interrupt_request());
}

#[test]
fn scroll_then_address_writes_compose_into_the_vram_address() {
    let mut ppu = NesPpu::new();
    let mut cartridge = test_cartridge();
    ppu.write_latch = true;
    ppu.temporary_vram_address = 0x5abc;
    ppu.read(&mut cartridge, 0x2002);
    assert!(!ppu.write_latch);
    ppu.scroll_write(0x7d);
    ppu.scroll_write(0x5e);
    ppu.vram_address_write(0x3d);
    ppu.vram_address_write(0xf0);
    assert_eq!(((0x3du16 & 0x3f) << 8) | 0xf0, ppu.current_vram_address);
}

#[test]
fn scroll_registers_stay_fifteen_bits_wide() {
    let mut ppu = NesPpu::new();
    let mut cartridge = test_cartridge();
    for data in [0xffu8, 0x80, 0x3a, 0x07, 0xf8, 0x01] {
        for offset in [0u16, 5, 6, 7] {
            ppu.write(&mut cartridge, 0x2000 + offset, data);
            assert!(ppu.current_vram_address < 0x8000);
            assert!(ppu.temporary_vram_address < 0x8000);
        }
    }
}

#[test]
fn loader_rejects_a_bad_magic() {
    let mut data = rom_image(&vec![0u8; 16384], &vec![0u8; 8192]);
    data[0] = 0x4f;
    assert_eq!(
        Err(CartridgeError::InvalidRomFormat),
        Cartridge::load_from_reader(&data).map(|_| ())
    );
}

#[test]
fn loader_rejects_an_unknown_mapper() {
    let mut data = rom_image(&vec![0u8; 16384], &vec![0u8; 8192]);
    data[6] = 0x50;
    assert_eq!(
        Err(CartridgeError::UnsupportedMapper(5)),
        Cartridge::load_from_reader(&data).map(|_| ())
    );
}

#[test]
fn loader_rejects_a_truncated_image() {
    let data = vec![0x4eu8, 0x45, 0x53, 0x1a, 1, 1, 0, 0, 0, 0, 0, 0, 0, 0, 0, 0];
    assert_eq!(
        Err(CartridgeError::TruncatedImage),
        Cartridge::load_from_reader(&data).map(|_| ())
    );
    assert_eq!(
        Err(CartridgeError::TruncatedImage),
        Cartridge::load_from_reader(&vec![0x4e, 0x45]).map(|_| ())
    );
}

#[test]
fn loader_rejects_an_impossible_exponent_size() {
    let mut data = rom_image(&vec![0u8; 16384], &vec![0u8; 8192]);
    data[7] = 0x0c;
    data[9] = 0x0f;
    data[4] = 0xff;
    assert_eq!(
        Err(CartridgeError::RomTooLarge),
        Cartridge::load_from_reader(&data).map(|_| ())
    );
}

#[test]
fn loader_consumes_a_trainer_block() {
    let mut header = vec![0x4eu8, 0x45, 0x53, 0x1a, 1, 0, 0b0000_0100, 0, 0, 0, 0, 0, 0, 0, 0, 0];
    let mut trainer = vec![0u8; 512];
    trainer[0] = 0xde;
    trainer[511] = 0xad;
    let mut program = vec![0u8; 16384];
    program[0] = 0x99;
    header.extend_from_slice(&trainer);
    header.extend_from_slice(&program);
    let cartridge = Cartridge::load_from_reader(&header).expect("load");
    assert_eq!(0xde, cartridge.trainer_data[0]);
    assert_eq!(0xad, cartridge.trainer_data[511]);
    assert_eq!(0x99, cartridge.program_read(0x8000));
}

#[test]
fn loader_selects_the_header_mirroring() {
    let mut data = rom_image(&vec![0u8; 16384], &vec![0u8; 8192]);
    data[6] = 0x01;
    let mut cartridge = Cartridge::load_from_reader(&data).expect("load");
    assert_eq!(Mirroring::Vertical, cartridge.get_mirroring());
    let mut horizontal = test_cartridge();
    assert_eq!(Mirroring::Horizontal, horizontal.get_mirroring());
}

#[test]
fn rom_sizes_follow_both_header_notations() {
    assert_eq!(Ok(16384), calculate_rom_size(0x01, 0x0f, 16384, false));
    assert_eq!(Ok(65536), calculate_rom_size(0x04, 0x0f, 16384, false));
    assert_eq!(Ok(0x3fc000), calculate_rom_size(0xff, 0x00, 16384, false));
    assert_eq!(Ok(62898176), calculate_rom_size(0xff, 0x0e, 16384, true));
    assert_eq!(Ok(1), calculate_rom_size(0x00, 0x0f, 16384, true));
    assert_eq!(Ok(196608), calculate_rom_size(0x41, 0x0f, 16384, true));
    assert_eq!(
        Err(CartridgeError::RomTooLarge),
        calculate_rom_size(0xff, 0x0f, 16384, true)
    );
}

#[test]
fn mmc1_serial_writes_select_program_banks() {
    let mut mapper = get_mapper(1, 0).expect("mapper");
    let mut program_ram: Vec<u8> = Vec::new();
    let mut program_rom = vec![0u8; 4 * 16384];
    for bank in 0..4 {
        program_rom[bank * 16384 + 5] = bank as u8;
    }
    // Control register: program mode 3 (last bank fixed at 0xC000).
    for i in 0..5 {
        mapper.program_write(&mut program_ram, 0x8000, (0x0c >> i) & 1);
    }
    // Program bank register: bank 1 at 0x8000.
    for i in 0..5 {
        mapper.program_write(&mut program_ram, 0xe000, (0x01 >> i) & 1);
    }
    assert_eq!(1, mapper.program_read(&program_rom, &program_ram, 0x8005));
    assert_eq!(3, mapper.program_read(&program_rom, &program_ram, 0xc005));
}

#[test]
fn mmc1_reset_bit_restores_the_load_register() {
    let mut mapper = get_mapper(1, 0).expect("mapper");
    let mut program_ram: Vec<u8> = Vec::new();
    let program_rom = vec![0u8; 2 * 16384];
    mapper.program_write(&mut program_ram, 0x8000, 1);
    mapper.program_write(&mut program_ram, 0x8000, 0x80);
    match mapper {
        Mapper::Mmc1(s) => {
            assert_eq!(0x10, s.load_register);
        },
        _ => panic!("wrong mapper"),
    }
    let _ = program_rom;
}

#[test]
fn uxrom_banking_fixes_the_last_bank() {
    let mut mapper = get_mapper(2, 0).expect("mapper");
    let mut program_ram: Vec<u8> = Vec::new();
    let mut program_rom = vec![0u8; 4 * 16384];
    for bank in 0..4 {
        program_rom[bank * 16384 + 5] = bank as u8;
    }
    mapper.program_write(&mut program_ram, 0x8000, 2);
    assert_eq!(2, mapper.program_read(&program_rom, &program_ram, 0x8005));
    assert_eq!(3, mapper.program_read(&program_rom, &program_ram, 0xc005));
}

#[test]
fn cnrom_banking_switches_character_memory() {
    let mut mapper = get_mapper(3, 0).expect("mapper");
    let mut program_ram: Vec<u8> = Vec::new();
    let mut character_ram = vec![0u8; 4 * 8192];
    for bank in 0..4 {
        character_ram[bank * 8192 + 5] = 0x10 + bank as u8;
    }
    assert_eq!(0x10, mapper.character_read(&character_ram, 0x0005));
    mapper.program_write(&mut program_ram, 0x8000, 1);
    assert_eq!(0x11, mapper.character_read(&character_ram, 0x0005));
}

#[test]
fn mmc3_program_banking_swaps_the_fixed_window() {
    let mut mapper = get_mapper(4, 0).expect("mapper");
    let mut program_ram: Vec<u8> = Vec::new();
    let mut program_rom = vec![0u8; 8 * 8192];
    for bank in 0..8 {
        program_rom[bank * 8192 + 5] = bank as u8;
    }
    mapper.program_write(&mut program_ram, 0x8000, 6);
    mapper.program_write(&mut program_ram, 0x8001, 2);
    mapper.program_write(&mut program_ram, 0x8000, 7);
    mapper.program_write(&mut program_ram, 0x8001, 3);
    assert_eq!(2, mapper.program_read(&program_rom, &program_ram, 0x8005));
    assert_eq!(3, mapper.program_read(&program_rom, &program_ram, 0xa005));
    assert_eq!(6, mapper.program_read(&program_rom, &program_ram, 0xc005));
    assert_eq!(7, mapper.program_read(&program_rom, &program_ram, 0xe005));
    // Flipping bit 6 swaps the switchable and the fixed window.
    mapper.program_write(&mut program_ram, 0x8000, 0x46);
    assert_eq!(6, mapper.program_read(&program_rom, &program_ram, 0x8005));
    assert_eq!(2, mapper.program_read(&program_rom, &program_ram, 0xc005));
}

#[test]
fn sprite_loading_reverses_bits_for_horizontal_mirroring() {
    let mut ppu = NesPpu::new();
    let mut cartridge = test_cartridge();
    ppu.scanline = 12;
    ppu.secondary_sprite_evaluation_index = 0;
    ppu.secondary_object_attribute_memory[0] = 10;
    ppu.secondary_object_attribute_memory[1] = 0x02;
    ppu.secondary_object_attribute_memory[2] = 0x40;
    ppu.secondary_object_attribute_memory[3] = 20;
    cartridge.character_write(0x0022, 0b1101_0000);
    cartridge.character_write(0x002a, 0b0110_0000);
    ppu.load_foregroud_shifters(&mut cartridge);
    assert_eq!(0b0000_1011, ppu.sprite_shifters_lo[0]);
    assert_eq!(0b0000_0110, ppu.sprite_shifters_hi[0]);
    assert_eq!(0x40, ppu.sprite_attributes[0]);
    assert_eq!(21, ppu.sprite_x_offsets[0]);
}

#[test]
fn sprite_loading_keeps_bit_order_without_mirroring() {
    let mut ppu = NesPpu::new();
    let mut cartridge = test_cartridge();
    ppu.scanline = 12;
    ppu.secondary_sprite_evaluation_index = 0;
    ppu.secondary_object_attribute_memory[0] = 10;
    ppu.secondary_object_attribute_memory[1] = 0x02;
    ppu.secondary_object_attribute_memory[2] = 0x00;
    ppu.secondary_object_attribute_memory[3] = 20;
    cartridge.character_write(0x0022, 0b1101_0000);
    cartridge.character_write(0x002a, 0b0110_0000);
    ppu.load_foregroud_shifters(&mut cartridge);
    assert_eq!(0b1101_0000, ppu.sprite_shifters_lo[0]);
    assert_eq!(0b0110_0000, ppu.sprite_shifters_hi[0]);
}

#[test]
fn draw_pixel_maps_the_palette_through_the_colour_table() {
    let mut ppu = NesPpu::new();
    let mut cartridge = test_cartridge();
    ppu.scanline = 0;
    ppu.cycle = 1;
    ppu.vram_write(0x3f00, 0x16, &mut cartridge);
    ppu.draw_pixel(&mut cartridge);
    assert_eq!(NES_COLOUR_MAP[0x16], ppu.screen_buffer[0]);
    assert_eq!(0x00cf0b00, ppu.screen_buffer[0]);
}

#[test]
fn status_read_returns_bus_remnants_and_clears_the_latch() {
    let mut ppu = NesPpu::new();
    let mut cartridge = test_cartridge();
    ppu.status_flags = 0xa0;
    ppu.read_buffer = 0x1b;
    ppu.write_latch = true;
    let value = ppu.read(&mut cartridge, 0x2002);
    assert_eq!(0xa0 | 0x1b, value);
    assert_eq!(0x20, ppu.status_flags);
    assert!(!ppu.write_latch);
}

#[test]
fn vram_data_reads_are_buffered_except_for_palette() {
    let mut ppu = NesPpu::new();
    let mut cartridge = test_cartridge();
    cartridge.character_write(0x0015, 0x77);
    ppu.current_vram_address = 0x0015;
    assert_eq!(0x00, ppu.read(&mut cartridge, 0x2007));
    assert_eq!(0x0016, ppu.current_vram_address);
    ppu.current_vram_address = 0x0015;
    assert_eq!(0x77, ppu.read(&mut cartridge, 0x2007));
    ppu.vram_write(0x3f05, 0x2a, &mut cartridge);
    ppu.current_vram_address = 0x3f05;
    assert_eq!(0x2a, ppu.read(&mut cartridge, 0x2007));
}

#[test]
fn vram_data_accesses_step_by_32_in_column_mode() {
    let mut ppu = NesPpu::new();
    let mut cartridge = test_cartridge();
    ppu.ctrl_flags = PPU_CTRL_VRAM_INCREMENT;
    ppu.current_vram_address = 0x2000;
    ppu.write(&mut cartridge, 0x2007, 0x11);
    assert_eq!(0x2020, ppu.current_vram_address);
}

#[test]
fn work_ram_mirrors_every_two_kilobytes() {
    let mut nes = Nes::new(test_cartridge());
    nes.bus.write(0x0002, 0xab);
    assert_eq!(0xab, nes.bus.read(0x0802));
    assert_eq!(0xab, nes.bus.read(0x1802));
    nes.bus.write(0x1fff, 0xcd);
    assert_eq!(0xcd, nes.bus.read(0x07ff));
}

#[test]
fn reset_preserves_the_vertical_blank_bit() {
    let mut nes = Nes::new(test_cartridge());
    nes.bus.ppu.status_flags = 0xe0;
    nes.bus.ppu.ctrl_flags = 0xff;
    nes.bus.ppu.write_latch = true;
    nes.reset();
    assert_eq!(PPU_STATUS_VERTICAL_BLANK, nes.bus.ppu.status_flags);
    assert_eq!(0, nes.bus.ppu.ctrl_flags);
    assert!(!nes.bus.ppu.write_latch);
    assert_eq!(0, nes.cycle_count);
}

#[test]
fn apu_range_reads_zero() {
    let mut nes = Nes::new(test_cartridge());
    assert_eq!(0, nes.bus.read(0x4000));
    assert_eq!(0, nes.bus.read(0x4015));
    assert_eq!(0, nes.bus.read(0x4018));
}

#[test]
fn controller_update_connects_and_disconnects() {
    let mut nes = Nes::new(test_cartridge());
    nes.update_controller_two(Some(0xff));
    nes.bus.write(0x4016, 1);
    nes.bus.write(0x4016, 0);
    assert_eq!(1, nes.bus.read(0x4017) & 0x01);
    nes.update_controller_two(None);
    assert_eq!(0x00, nes.bus.read(0x4017));
}

#[test]
fn the_screen_starts_black_and_has_one_frame_of_pixels() {
    let nes = Nes::new(test_cartridge());
    let screen = nes.get_screen();
    assert_eq!(61440, screen.len());
    assert!(screen.iter().all(|&p| p == 0));
}

#[test]
fn horizontal_scroll_bits_copy_into_the_address_at_dot_257() {
    let mut ppu = NesPpu::new();
    let mut cartridge = test_cartridge();
    ppu.scanline = 10;
    ppu.cycle = 257;
    ppu.mask_flags = PPU_MASK_BACKGROUND_ENABLE;
    ppu.current_vram_address = 0b0101010_10101010;
    ppu.temporary_vram_address = 0b0010101_01010101;
    ppu.cycle(&mut cartridge);
    assert_eq!(
        (0b0101010_10101010 & !0x041f) | (0b0010101_01010101 & 0x041f),
        ppu.current_vram_address
    );
}

#[test]
fn vertical_scroll_bits_copy_repeatedly_on_the_pre_render_line() {
    let mut ppu = NesPpu::new();
    let mut cartridge = test_cartridge();
    ppu.scanline = 261;
    ppu.cycle = 290;
    ppu.mask_flags = PPU_MASK_BACKGROUND_ENABLE;
    ppu.current_vram_address = 0b0101010_10101010;
    ppu.temporary_vram_address = 0b0010101_01010101;
    ppu.cycle(&mut cartridge);
    assert_eq!(
        (0b0101010_10101010u16 & !0x7be0) | (0b0010101_01010101 & 0x7be0),
        ppu.current_vram_address
    );
}

#[test]
fn mmc3_hook_fires_at_dot_260_with_the_sprite_table_selected() {
    let mut data = rom_image(&vec![0u8; 16384], &vec![0u8; 8192]);
    data[6] = 0x40;
    let mut cartridge = Cartridge::load_from_reader(&data).expect("load");
    assert!(matches!(cartridge.mapper, Mapper::Mmc3(_)));
    // Reload value zero, counter armed, interrupts enabled.
    cartridge.program_write(0xc000, 0);
    cartridge.program_write(0xc001, 0);
    cartridge.program_write(0xe001, 0);
    let mut ppu = NesPpu::new();
    ppu.scanline = 10;
    ppu.cycle = 260;
    ppu.mask_flags = PPU_MASK_BACKGROUND_ENABLE;
    ppu.ctrl_flags = 0x08;
    ppu.cycle(&mut cartridge);
    assert!(cartridge.get_pending_interrupt_request());
    assert!(!cartridge.get_pending_interrupt_request());
}
