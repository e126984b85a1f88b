//! The per-dot pipeline of the picture processing unit: background tile
//! fetches, sprite evaluation, the two pixel calculators and the object
//! attribute memory read window.

use gc_nes_core::cartridge::Cartridge;
use gc_nes_core::ppu::NesPpu;
use gc_nes_core::ppu::PPU_CTRL_BACKGROUND_SELECT;
use gc_nes_core::ppu::PPU_MASK_BACKGROUND_ENABLE;
use gc_nes_core::ppu::PPU_MASK_BACKGROUND_LEFT_ENABLE;
use gc_nes_core::ppu::PPU_MASK_SPRITE_ENABLE;
use gc_nes_core::ppu::PPU_MASK_SPRITE_LEFT_ENABLE;
use gc_nes_core::ppu::PPU_STATUS_SPRITE_0_HIT;
use gc_nes_core::ppu::PPU_STATUS_SPRITE_OVERFLOW;
use gc_nes_core::ppu::PPU_STATUS_VERTICAL_BLANK;
use gc_nes_core::ppu::SPRITE_ATTR_PALETTE;
use gc_nes_core::ppu::SPRITE_ATTR_PRIORITY;
use gc_nes_core::ppu::SPRITE_ATTR_SPRITE_ZERO;

/// A cartridge for the tests: NROM, horizontal mirroring, one program bank
/// and one character bank, all zeroed.
fn test_cartridge() -> Cartridge {
    let mut data = vec![0x4eu8, 0x45, 0x53, 0x1a, 1, 1, 0, 0, 0, 0, 0, 0, 0, 0, 0, 0];
    data.extend(vec![0u8; 16384]);
    data.extend(vec![0u8; 8192]);
    Cartridge::load_from_reader(&data).expect("load")
}

/// A unit in the state the pipeline tests start from.
fn test_ppu() -> NesPpu {
    let mut ppu = NesPpu::new();
    ppu.object_attribute_memory = vec![0u8; 256];
    ppu.scanline = 0;
    ppu.cycle = 0;
    ppu
}

/// Compares the registers, latches, shifters and sprite state of two units:
/// every field that is not one of the large memories.
fn assert_ppu_eq(expected: &NesPpu, actual: &NesPpu) {
    assert_eq!(expected.ctrl_flags, actual.ctrl_flags);
    assert_eq!(expected.mask_flags, actual.mask_flags);
    assert_eq!(expected.status_flags, actual.status_flags);
    assert_eq!(expected.temporary_vram_address, actual.temporary_vram_address);
    assert_eq!(expected.current_vram_address, actual.current_vram_address);
    assert_eq!(expected.fine_x_scroll, actual.fine_x_scroll);
    assert_eq!(expected.write_latch, actual.write_latch);
    assert_eq!(expected.read_buffer, actual.read_buffer);
    assert_eq!(expected.scanline, actual.scanline);
    assert_eq!(expected.cycle, actual.cycle);
    assert_eq!(expected.frame_count, actual.frame_count);
    assert_eq!(expected.pattern_latch_lo, actual.pattern_latch_lo);
    assert_eq!(expected.pattern_latch_hi, actual.pattern_latch_hi);
    assert_eq!(expected.pattern_shifter_lo, actual.pattern_shifter_lo);
    assert_eq!(expected.pattern_shifter_hi, actual.pattern_shifter_hi);
    assert_eq!(expected.attribute_latch, actual.attribute_latch);
    assert_eq!(expected.attribute_shifter_lo, actual.attribute_shifter_lo);
    assert_eq!(expected.attribute_shifter_hi, actual.attribute_shifter_hi);
    assert_eq!(expected.nametable_id, actual.nametable_id);
    assert_eq!(expected.sprite_evaluation_index, actual.sprite_evaluation_index);
    assert_eq!(
        expected.secondary_sprite_evaluation_index,
        actual.secondary_sprite_evaluation_index
    );
    assert_eq!(expected.sprite_evaluation_wrapped, actual.sprite_evaluation_wrapped);
    assert_eq!(expected.sprite_shifters_lo, actual.sprite_shifters_lo);
    assert_eq!(expected.sprite_shifters_hi, actual.sprite_shifters_hi);
    assert_eq!(expected.sprite_attributes, actual.sprite_attributes);
    assert_eq!(expected.sprite_x_offsets, actual.sprite_x_offsets);
}

#[test]
fn test_select_next_background_tile_cycle_0() {
    let mut ppu_base = test_ppu();
    ppu_base.current_vram_address = 0b0111000_10100111;
    ppu_base.mask_flags = PPU_MASK_BACKGROUND_ENABLE;
    ppu_base.write_latch = false;

    let mut cartridge = test_cartridge();

    let mut ppu_expected = ppu_base.clone();
    ppu_expected.coarse_x_increment();

    ppu_base.select_next_background_tile(&mut cartridge);
    assert_ppu_eq(&ppu_expected, &ppu_base)
}

#[test]
fn test_select_next_background_tile_cycle_1() {
    let mut ppu_base = test_ppu();
    ppu_base.cycle = 9;
    ppu_base.current_vram_address = 0b0111000_10100111;
    ppu_base.attribute_latch = 0b01;
    ppu_base.pattern_latch_lo = 0xcf;
    ppu_base.pattern_latch_hi = 0x4a;
    ppu_base.attribute_shifter_lo = 0x0000;
    ppu_base.attribute_shifter_hi = 0xff00;
    ppu_base.pattern_shifter_lo = 0x1700;
    ppu_base.pattern_shifter_hi = 0xa500;

    let mut cartridge = test_cartridge();
    ppu_base.vram_write(0x28a7, 0x20, &mut cartridge);

    let mut ppu_expected = ppu_base.clone();
    ppu_expected.nametable_id = 0x20;
    ppu_expected.reload_shifters();

    ppu_base.select_next_background_tile(&mut cartridge);
    assert_ppu_eq(&ppu_expected, &ppu_base)
}

#[test]
fn test_select_next_background_tile_cycle_3() {
    let mut ppu_base = test_ppu();
    ppu_base.cycle = 3;
    ppu_base.current_vram_address = 0b00000011_11000000;

    let mut cartridge = test_cartridge();
    ppu_base.vram_write(0x23f8, 0x1 << 4, &mut cartridge);

    let mut ppu_expected = ppu_base.clone();
    ppu_expected.attribute_latch = 0x1;

    ppu_base.select_next_background_tile(&mut cartridge);
    assert_ppu_eq(&ppu_expected, &ppu_base)
}

#[test]
fn test_select_next_background_tile_cycle_5() {
    let mut ppu_base = test_ppu();
    ppu_base.cycle = 5;
    ppu_base.ctrl_flags = PPU_CTRL_BACKGROUND_SELECT;
    ppu_base.nametable_id = 0b10001011;
    ppu_base.current_vram_address = 0b10100011_11000000;

    let mut cartridge = test_cartridge();
    cartridge.character_write(0b0001_1000_1011_1010, 0x4a);

    let mut ppu_expected = ppu_base.clone();
    ppu_expected.pattern_latch_lo = 0x4a;

    ppu_base.select_next_background_tile(&mut cartridge);
    assert_ppu_eq(&ppu_expected, &ppu_base)
}

#[test]
fn test_select_next_background_tile_cycle_7() {
    let mut ppu_base = test_ppu();
    ppu_base.cycle = 7;
    ppu_base.ctrl_flags = PPU_CTRL_BACKGROUND_SELECT;
    ppu_base.nametable_id = 0b10001011;
    ppu_base.current_vram_address = 0b10100011_11000000;

    let mut cartridge = test_cartridge();
    cartridge.character_write(0b0001_1000_1011_1010 + 8, 0x4a);

    let mut ppu_expected = ppu_base.clone();
    ppu_expected.pattern_latch_hi = 0x4a;

    ppu_base.select_next_background_tile(&mut cartridge);
    assert_ppu_eq(&ppu_expected, &ppu_base)
}

#[test]
fn test_perform_sprite_evaluation_cycles_1_to_64() {
    let mut ppu_base = test_ppu();
    ppu_base.secondary_sprite_evaluation_index = 0x71;

    let mut ppu_expected = ppu_base.clone();
    ppu_expected.cycle = 64;
    ppu_expected.secondary_sprite_evaluation_index = 32;

    for i in 0..=64 {
        ppu_base.cycle = i;
        ppu_base.perform_sprite_evaluation();
    }
    assert_ppu_eq(&ppu_expected, &ppu_base)
}

#[test]
fn test_perform_sprite_evaluation_cycle_66() {
    let mut ppu_base = test_ppu();
    ppu_base.cycle = 66;
    ppu_base.scanline = 20;
    ppu_base.object_attribute_memory[0..4].copy_from_slice(&[40, 0x16, SPRITE_ATTR_PALETTE, 100]);

    let mut ppu_expected = ppu_base.clone();
    ppu_expected.secondary_sprite_evaluation_index = 0;
    ppu_expected.sprite_evaluation_index = 4;

    ppu_base.perform_sprite_evaluation();
    assert_ppu_eq(&ppu_expected, &ppu_base)
}

#[test]
fn test_perform_sprite_evaluation_on_scanline() {
    let mut ppu_base = test_ppu();
    ppu_base.cycle = 68;
    ppu_base.scanline = 40;
    ppu_base.sprite_evaluation_index = 4;
    ppu_base.object_attribute_memory[4..8].copy_from_slice(&[40, 0x16, SPRITE_ATTR_PALETTE, 100]);

    let mut ppu_expected = ppu_base.clone();
    ppu_expected.secondary_sprite_evaluation_index = 4;
    ppu_expected.sprite_evaluation_index = 8;
    let copied: Vec<u8> = ppu_base.object_attribute_memory[4..8].to_vec();
    ppu_expected.secondary_object_attribute_memory[0..4].copy_from_slice(&copied);

    ppu_base.perform_sprite_evaluation();
    assert_eq!(
        ppu_expected.secondary_object_attribute_memory[0..4],
        ppu_base.secondary_object_attribute_memory[0..4],
    );
    assert_ppu_eq(&ppu_expected, &ppu_base)
}

#[test]
fn test_perform_sprite_evaluation_on_scanline_sprite_zero() {
    let mut ppu_base = test_ppu();
    ppu_base.cycle = 66;
    ppu_base.scanline = 40;
    ppu_base.object_attribute_memory[0..4].copy_from_slice(&[40, 0x16, SPRITE_ATTR_PALETTE, 100]);

    let mut ppu_expected = ppu_base.clone();
    ppu_expected.secondary_sprite_evaluation_index = 4;
    ppu_expected.sprite_evaluation_index = 4;
    let copied: Vec<u8> = ppu_base.object_attribute_memory[0..4].to_vec();
    ppu_expected.secondary_object_attribute_memory[0..4].copy_from_slice(&copied);
    ppu_expected.secondary_object_attribute_memory[2] |= SPRITE_ATTR_SPRITE_ZERO;

    ppu_base.perform_sprite_evaluation();
    assert_eq!(
        ppu_expected.secondary_object_attribute_memory[0..4],
        ppu_base.secondary_object_attribute_memory[0..4],
    );
    assert_ppu_eq(&ppu_expected, &ppu_base)
}

#[test]
fn test_perform_sprite_evaluation_overflow() {
    let mut ppu_base = test_ppu();
    ppu_base.cycle = 122;
    ppu_base.scanline = 40;
    ppu_base.sprite_evaluation_index = 32;
    ppu_base.secondary_sprite_evaluation_index = 32;
    ppu_base.status_flags = 0;
    ppu_base.object_attribute_memory[32..36].copy_from_slice(&[40, 0x16, SPRITE_ATTR_PALETTE, 100]);

    let mut ppu_expected = ppu_base.clone();
    ppu_expected.sprite_evaluation_index = 37;
    ppu_expected.status_flags = PPU_STATUS_SPRITE_OVERFLOW;

    ppu_base.perform_sprite_evaluation();
    assert_ppu_eq(&ppu_expected, &ppu_base)
}

#[test]
fn test_perform_sprite_evaluation_overflow_search_bug() {
    let mut ppu_base = test_ppu();
    ppu_base.cycle = 122;
    ppu_base.scanline = 40;
    ppu_base.sprite_evaluation_index = 32;
    ppu_base.secondary_sprite_evaluation_index = 32;
    ppu_base.status_flags = 0;
    ppu_base.object_attribute_memory[32..36].copy_from_slice(&[80, 0x16, SPRITE_ATTR_PALETTE, 100]);

    let mut ppu_expected = ppu_base.clone();
    ppu_expected.sprite_evaluation_index = 37;

    ppu_base.perform_sprite_evaluation();
    assert_ppu_eq(&ppu_expected, &ppu_base)
}

#[test]
fn test_calculate_background_pixel() {
    let mut ppu_base = test_ppu();
    ppu_base.pattern_shifter_lo = 0b0001_0000_0000_0000;
    ppu_base.pattern_shifter_hi = 0b0001_0000_0000_0000;
    ppu_base.attribute_shifter_lo = 0b1111_1111_1111_1111;
    ppu_base.attribute_shifter_hi = 0b0000_0000_0000_0000;
    ppu_base.fine_x_scroll = 3;
    ppu_base.mask_flags = PPU_MASK_BACKGROUND_ENABLE | PPU_MASK_BACKGROUND_LEFT_ENABLE;
    ppu_base.cycle = 6;

    let ppu_expected = ppu_base.clone();

    assert_eq!((0b11, 0b01), ppu_base.calculate_background_pixel());
    assert_ppu_eq(&ppu_expected, &ppu_base)
}

#[test]
fn test_calculate_background_pixel_background_disabled() {
    let mut ppu_base = test_ppu();
    ppu_base.pattern_shifter_lo = 0b0001_0000_0000_0000;
    ppu_base.pattern_shifter_hi = 0b0001_0000_0000_0000;
    ppu_base.attribute_shifter_lo = 0b1111_1111_1111_1111;
    ppu_base.attribute_shifter_hi = 0b0000_0000_0000_0000;
    ppu_base.fine_x_scroll = 3;
    ppu_base.mask_flags = 0;
    ppu_base.cycle = 6;

    let ppu_expected = ppu_base.clone();

    assert_eq!((0b00, 0b00), ppu_base.calculate_background_pixel());
    assert_ppu_eq(&ppu_expected, &ppu_base)
}

#[test]
fn test_calculate_background_pixel_background_left_disabled_cycle_6() {
    let mut ppu_base = test_ppu();
    ppu_base.pattern_shifter_lo = 0b0001_0000_0000_0000;
    ppu_base.pattern_shifter_hi = 0b0001_0000_0000_0000;
    ppu_base.attribute_shifter_lo = 0b1111_1111_1111_1111;
    ppu_base.attribute_shifter_hi = 0b0000_0000_0000_0000;
    ppu_base.fine_x_scroll = 3;
    ppu_base.mask_flags = PPU_MASK_BACKGROUND_ENABLE;
    ppu_base.cycle = 6;

    let ppu_expected = ppu_base.clone();

    assert_eq!((0b00, 0b00), ppu_base.calculate_background_pixel());
    assert_ppu_eq(&ppu_expected, &ppu_base)
}

#[test]
fn test_calculate_background_pixel_cycle_9() {
    let mut ppu_base = test_ppu();
    ppu_base.pattern_shifter_lo = 0b0001_0000_0000_0000;
    ppu_base.pattern_shifter_hi = 0b0001_0000_0000_0000;
    ppu_base.attribute_shifter_lo = 0b1111_1111_1111_1111;
    ppu_base.attribute_shifter_hi = 0b0000_0000_0000_0000;
    ppu_base.fine_x_scroll = 3;
    ppu_base.mask_flags = PPU_MASK_BACKGROUND_ENABLE;
    ppu_base.cycle = 9;

    let ppu_expected = ppu_base.clone();

    assert_eq!((0b11, 0b01), ppu_base.calculate_background_pixel());
    assert_ppu_eq(&ppu_expected, &ppu_base)
}

#[test]
fn test_calculate_foreground_pixel() {
    let mut ppu_base = test_ppu();
    ppu_base.mask_flags = PPU_MASK_SPRITE_ENABLE | PPU_MASK_SPRITE_LEFT_ENABLE;
    ppu_base.cycle = 9;
    ppu_base.sprite_x_offsets = [-8; 8];
    ppu_base.status_flags = 0;
    ppu_base.sprite_x_offsets[2] = 4;
    ppu_base.sprite_shifters_lo[2] = 0b0000_1000;
    ppu_base.sprite_shifters_hi[2] = 0b0000_1000;
    ppu_base.sprite_attributes[2] = SPRITE_ATTR_PRIORITY;
    ppu_base.sprite_x_offsets[3] = -3;
    ppu_base.sprite_shifters_lo[3] = 0b0000_1000;
    ppu_base.sprite_shifters_hi[3] = 0b0000_1000;
    ppu_base.sprite_attributes[3] = SPRITE_ATTR_PALETTE | SPRITE_ATTR_PRIORITY;
    ppu_base.sprite_x_offsets[4] = -3;
    ppu_base.sprite_shifters_lo[4] = 0b0000_1000;
    ppu_base.sprite_shifters_hi[4] = 0b0000_1000;
    ppu_base.sprite_attributes[4] = 0x01 | SPRITE_ATTR_PRIORITY;

    let mut ppu_expected = ppu_base.clone();
    ppu_expected.sprite_x_offsets[2..5].clone_from_slice(&[3, -4, -4]);

    assert_eq!((0b11, 0b11 + 4, false), ppu_base.calculate_foreground_pixel(0b01));
    assert_ppu_eq(&ppu_expected, &ppu_base)
}

#[test]
fn test_calculate_foreground_pixel_foreground_disabled() {
    let mut ppu_base = test_ppu();
    ppu_base.mask_flags = 0;
    ppu_base.cycle = 9;
    ppu_base.sprite_x_offsets = [-8; 8];
    ppu_base.status_flags = 0;
    ppu_base.sprite_x_offsets[2] = -2;
    ppu_base.sprite_shifters_lo[2] = 0b0000_1000;
    ppu_base.sprite_shifters_hi[2] = 0b0000_1000;
    ppu_base.sprite_attributes[2] = SPRITE_ATTR_PRIORITY;
    ppu_base.sprite_x_offsets[3] = -3;
    ppu_base.sprite_shifters_lo[3] = 0b0000_1000;
    ppu_base.sprite_shifters_hi[3] = 0b0000_1000;
    ppu_base.sprite_attributes[3] = SPRITE_ATTR_PALETTE | SPRITE_ATTR_PRIORITY;
    ppu_base.sprite_x_offsets[4] = -3;
    ppu_base.sprite_shifters_lo[4] = 0b0000_1000;
    ppu_base.sprite_shifters_hi[4] = 0b0000_1000;
    ppu_base.sprite_attributes[4] = 0x01 | SPRITE_ATTR_PRIORITY;

    let mut ppu_expected = ppu_base.clone();
    ppu_expected.sprite_x_offsets[2..5].clone_from_slice(&[-3, -4, -4]);

    assert_eq!((0b00, 0b00, false), ppu_base.calculate_foreground_pixel(0b01));
    assert_ppu_eq(&ppu_expected, &ppu_base)
}

#[test]
fn test_calculate_foreground_pixel_foreground_left_disabled() {
    let mut ppu_base = test_ppu();
    ppu_base.mask_flags = PPU_MASK_SPRITE_ENABLE;
    ppu_base.cycle = 6;
    ppu_base.sprite_x_offsets = [-8; 8];
    ppu_base.status_flags = 0;
    ppu_base.sprite_x_offsets[2] = -2;
    ppu_base.sprite_shifters_lo[2] = 0b0000_1000;
    ppu_base.sprite_shifters_hi[2] = 0b0000_1000;
    ppu_base.sprite_attributes[2] = SPRITE_ATTR_PRIORITY;
    ppu_base.sprite_x_offsets[3] = -3;
    ppu_base.sprite_shifters_lo[3] = 0b0000_1000;
    ppu_base.sprite_shifters_hi[3] = 0b0000_1000;
    ppu_base.sprite_attributes[3] = SPRITE_ATTR_PALETTE | SPRITE_ATTR_PRIORITY;
    ppu_base.sprite_x_offsets[4] = -3;
    ppu_base.sprite_shifters_lo[4] = 0b0000_1000;
    ppu_base.sprite_shifters_hi[4] = 0b0000_1000;
    ppu_base.sprite_attributes[4] = 0x01 | SPRITE_ATTR_PRIORITY;

    let mut ppu_expected = ppu_base.clone();
    ppu_expected.sprite_x_offsets[2..5].clone_from_slice(&[-3, -4, -4]);

    assert_eq!((0b00, 0b00, false), ppu_base.calculate_foreground_pixel(0b01));
    assert_ppu_eq(&ppu_expected, &ppu_base)
}

#[test]
fn test_calculate_foreground_pixel_sprite_zero() {
    let mut ppu_base = test_ppu();
    ppu_base.mask_flags = PPU_MASK_SPRITE_ENABLE;
    ppu_base.cycle = 9;
    ppu_base.sprite_x_offsets = [-8; 8];
    ppu_base.status_flags = 0;
    ppu_base.sprite_x_offsets[2] = -3;
    ppu_base.sprite_shifters_lo[2] = 0b0000_1000;
    ppu_base.sprite_shifters_hi[2] = 0b0000_1000;
    ppu_base.sprite_attributes[2] = 0x02 | SPRITE_ATTR_PRIORITY | SPRITE_ATTR_SPRITE_ZERO;
    ppu_base.sprite_x_offsets[3] = -3;
    ppu_base.sprite_shifters_lo[3] = 0b0000_1000;
    ppu_base.sprite_shifters_hi[3] = 0b0000_1000;
    ppu_base.sprite_attributes[3] = SPRITE_ATTR_PALETTE | SPRITE_ATTR_PRIORITY;
    ppu_base.sprite_x_offsets[4] = -3;
    ppu_base.sprite_shifters_lo[4] = 0b0000_1000;
    ppu_base.sprite_shifters_hi[4] = 0b0000_1000;
    ppu_base.sprite_attributes[4] = 0x01 | SPRITE_ATTR_PRIORITY;

    let mut ppu_expected = ppu_base.clone();
    ppu_expected.status_flags = PPU_STATUS_SPRITE_0_HIT;
    ppu_expected.sprite_x_offsets[2..5].clone_from_slice(&[-4, -4, -4]);

    assert_eq!((0b11, 0b10 + 4, false), ppu_base.calculate_foreground_pixel(0b01));
    assert_ppu_eq(&ppu_expected, &ppu_base)
}

#[test]
fn test_oam_read() {
    let mut ppu_base = test_ppu();
    ppu_base.oam_address = 0x00;
    ppu_base.status_flags = PPU_STATUS_SPRITE_0_HIT;
    ppu_base.object_attribute_memory[0] = 0x20;

    let ppu_expected = ppu_base.clone();

    assert_eq!(0x20, ppu_base.oam_read());
    assert_ppu_eq(&ppu_expected, &ppu_base);
}

#[test]
fn test_oam_read_cycle_64() {
    let mut ppu_base = test_ppu();
    ppu_base.oam_address = 0x00;
    ppu_base.cycle = 64;
    ppu_base.status_flags = PPU_STATUS_SPRITE_0_HIT;
    ppu_base.object_attribute_memory[0] = 0x20;

    let ppu_expected = ppu_base.clone();

    assert_eq!(0xff, ppu_base.oam_read());
    assert_ppu_eq(&ppu_expected, &ppu_base);
}

#[test]
fn test_oam_read_cycle_64_vblank() {
    let mut ppu_base = test_ppu();
    ppu_base.oam_address = 0x00;
    ppu_base.cycle = 64;
    ppu_base.status_flags = PPU_STATUS_VERTICAL_BLANK;
    ppu_base.object_attribute_memory[0] = 0x20;

    let ppu_expected = ppu_base.clone();

    assert_eq!(0x20, ppu_base.oam_read());
    assert_ppu_eq(&ppu_expected, &ppu_base);
}
