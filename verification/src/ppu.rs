//! The picture processing unit: its registers, memories and scroll state,
//! and the CPU-visible register interface. The per-dot pixel pipeline lives
//! in the neighbouring rendering module.

use vstd::prelude::*;

use crate::cartridge::Cartridge;
use crate::cartridge::Mirroring;
use crate::mapper::spec_character_read;
use crate::mapper::spec_character_write;
use crate::mapper::spec_mirroring;

verus! {

/// Number of pixels in a frame: 256 columns by 240 rows.
pub const NES_SCREEN_DIMENSIONS: usize = 61440;

/// Index of the pre-render scanline, the last one of a frame.
pub const MAX_SCANLINES: u16 = 261;

/// Index of the last dot of a scanline.
pub const MAX_CYCLES: u16 = 340;

/// Bits of the VRAM address that hold the coarse x scroll.
pub const COARSE_X_MASK: u16 = 0x001f;

/// Bits of the VRAM address that hold the coarse y scroll.
pub const COARSE_Y_MASK: u16 = 0x03e0;

/// Position of the coarse y scroll in the VRAM address.
pub const COARSE_Y_OFFSET: u16 = 5;

/// Bits of the VRAM address that hold the fine y scroll.
pub const FINE_Y_MASK: u16 = 0x7000;

/// Position of the fine y scroll in the VRAM address.
pub const FINE_Y_OFFSET: u16 = 12;

/// Control register bit: raise a non-maskable interrupt when the vertical
/// blank starts.
pub const PPU_CTRL_NMI_ENABLE: u8 = 0x80;

/// Control register bit: master/slave select on the EXT pins.
pub const PPU_CTRL_MASTER_SELECT: u8 = 0x40;

/// Control register bit: sprites are sixteen pixels tall instead of eight.
pub const PPU_CTRL_SPRITE_HEIGHT: u8 = 0x20;

/// Control register bit: the background reads the second pattern table.
pub const PPU_CTRL_BACKGROUND_SELECT: u8 = 0x10;

/// Control register bit: eight-pixel sprites read the second pattern table.
pub const PPU_CTRL_SPRITE_SELECT: u8 = 0x08;

/// Control register bit: VRAM accesses step by 32 instead of 1.
pub const PPU_CTRL_VRAM_INCREMENT: u8 = 0x04;

/// Control register bits: which nametable rendering starts from.
pub const PPU_CTRL_NAMETABLE_SELECT: u8 = 0x03;

/// Mask register bit: show sprites.
pub const PPU_MASK_SPRITE_ENABLE: u8 = 0x10;

/// Mask register bit: show the background.
pub const PPU_MASK_BACKGROUND_ENABLE: u8 = 0x08;

/// Mask register bit: show sprites in the leftmost eight pixels.
pub const PPU_MASK_SPRITE_LEFT_ENABLE: u8 = 0x04;

/// Mask register bit: show the background in the leftmost eight pixels.
pub const PPU_MASK_BACKGROUND_LEFT_ENABLE: u8 = 0x02;

/// Mask register bit: greyscale display.
pub const PPU_MASK_GREYSCALE: u8 = 0x01;

/// Status register bit: the vertical blank has started.
pub const PPU_STATUS_VERTICAL_BLANK: u8 = 0x80;

/// Status register bit: a non-transparent pixel of sprite zero overlapped a
/// non-transparent background pixel.
pub const PPU_STATUS_SPRITE_0_HIT: u8 = 0x40;

/// Status register bit: more than eight sprites fell on one scanline.
pub const PPU_STATUS_SPRITE_OVERFLOW: u8 = 0x20;

/// Sprite attribute bit: flip the sprite vertically.
pub const SPRITE_ATTR_VERTICAL_MIRROR: u8 = 0x80;

/// Sprite attribute bit: flip the sprite horizontally.
pub const SPRITE_ATTR_HORIZONTAL_MIRROR: u8 = 0x40;

/// Sprite attribute bit: the background wins ties against this sprite.
pub const SPRITE_ATTR_PRIORITY: u8 = 0x20;

/// Sprite attribute bits that the hardware leaves unused; they mark the copy
/// of sprite zero in the secondary object attribute memory.
pub const SPRITE_ATTR_SPRITE_ZERO: u8 = 0x1c;

/// Sprite attribute bits: the sprite's palette.
pub const SPRITE_ATTR_PALETTE: u8 = 0x03;

/// The registers and memories of the picture processing unit.
#[derive(Debug, Clone)]
pub struct NesPpu {
    /// Control register: interrupt, pattern table and sprite size flags.
    pub ctrl_flags: u8,
    /// Mask register: which layers render, and the left-edge masks.
    pub mask_flags: u8,
    /// Status register: vertical blank, sprite-zero hit, sprite overflow.
    pub status_flags: u8,
    /// Address of the next object attribute memory access.
    pub oam_address: u8,
    /// The temporary VRAM address the scroll registers assemble; fifteen bits.
    pub temporary_vram_address: u16,
    /// The current VRAM address; fifteen bits.
    pub current_vram_address: u16,
    /// Scroll position within a tile column; three bits.
    pub fine_x_scroll: u8,
    /// Distinguishes the first and second writes to the scroll and address
    /// registers.
    pub write_latch: bool,
    /// Holds the previous VRAM datum: reads of the data register are delayed
    /// by one access.
    pub read_buffer: u8,
    /// The 32 bytes of palette memory.
    pub palette_ram: Vec<u8>,
    /// The two kilobytes of nametable memory.
    pub name_table: Vec<u8>,
    /// The 256 bytes of object attribute memory: four bytes for each of 64
    /// sprites.
    pub object_attribute_memory: Vec<u8>,
    /// The 32 bytes holding the up-to-eight sprites picked for a scanline.
    pub secondary_object_attribute_memory: Vec<u8>,
    /// The rendered frame, one packed 0x00RRGGBB value per pixel.
    pub screen_buffer: Vec<u32>,
    /// The scanline being drawn, 0 through 261.
    pub scanline: u16,
    /// The dot of the current scanline, 0 through 340.
    pub cycle: u16,
    /// How many frames have been completed so far.
    pub frame_count: u64,
    /// Pattern table low plane byte waiting to enter the shifters.
    pub pattern_latch_lo: u8,
    /// Pattern table high plane byte waiting to enter the shifters.
    pub pattern_latch_hi: u8,
    /// Background pattern shifter, low plane; the high byte is on screen.
    pub pattern_shifter_lo: u16,
    /// Background pattern shifter, high plane.
    pub pattern_shifter_hi: u16,
    /// Attribute table bits for the next tile, waiting to enter the shifters.
    pub attribute_latch: u8,
    /// Background attribute shifter, low bit.
    pub attribute_shifter_lo: u16,
    /// Background attribute shifter, high bit.
    pub attribute_shifter_hi: u16,
    /// The tile number last fetched from the nametable.
    pub nametable_id: u8,
    /// Which sprite of the object attribute memory is being evaluated.
    pub sprite_evaluation_index: u8,
    /// Where in the secondary object attribute memory the next sprite goes.
    pub secondary_sprite_evaluation_index: u8,
    /// Set once the sprite evaluation has wrapped past the last sprite.
    pub sprite_evaluation_wrapped: bool,
    /// Low plane of the eight sprite pattern shifters.
    pub sprite_shifters_lo: [u8; 8],
    /// High plane of the eight sprite pattern shifters.
    pub sprite_shifters_hi: [u8; 8],
    /// Attribute bytes of the eight selected sprites.
    pub sprite_attributes: [u8; 8],
    /// Distance from each sprite's left edge to the current dot; counts down.
    pub sprite_x_offsets: [i16; 8],
}

/// The state a freshly powered-on picture processing unit is in.
pub open spec fn spec_power_on_ppu(p: NesPpu) -> bool {
    &&& p.ctrl_flags == 0
    &&& p.mask_flags == 0
    &&& p.status_flags == PPU_STATUS_VERTICAL_BLANK | PPU_STATUS_SPRITE_OVERFLOW
    &&& p.oam_address == 0
    &&& p.temporary_vram_address == 0
    &&& p.current_vram_address == 0
    &&& p.fine_x_scroll == 0
    &&& p.write_latch == false
    &&& p.read_buffer == 0
    &&& p.palette_ram@ == Seq::new(32, |i: int| 0u8)
    &&& p.name_table@ == Seq::new(2048, |i: int| 0u8)
    &&& p.object_attribute_memory@ == Seq::new(256, |i: int| 0xffu8)
    &&& p.secondary_object_attribute_memory@ == Seq::new(32, |i: int| 0u8)
    &&& p.screen_buffer@ == Seq::new(61440, |i: int| 0u32)
    &&& p.scanline == 261
    &&& p.cycle == 0
    &&& p.frame_count == 0
    &&& p.pattern_latch_lo == 0
    &&& p.pattern_latch_hi == 0
    &&& p.pattern_shifter_lo == 0
    &&& p.pattern_shifter_hi == 0
    &&& p.attribute_latch == 0
    &&& p.attribute_shifter_lo == 0
    &&& p.attribute_shifter_hi == 0
    &&& p.nametable_id == 0
    &&& p.sprite_evaluation_index == 0
    &&& p.secondary_sprite_evaluation_index == 0
    &&& p.sprite_evaluation_wrapped == false
    &&& p.sprite_shifters_lo@ == Seq::new(8, |i: int| 0u8)
    &&& p.sprite_shifters_hi@ == Seq::new(8, |i: int| 0u8)
    &&& p.sprite_attributes@ == Seq::new(8, |i: int| 0u8)
    &&& p.sprite_x_offsets@ == Seq::new(8, |i: int| 0i16)
}

impl NesPpu {
    /// The sizes of the memories and the bit widths of the scroll registers,
    /// as the hardware fixes them. Every operation keeps this.
    pub open spec fn wf(self) -> bool {
        &&& self.current_vram_address < 0x8000
        &&& self.temporary_vram_address < 0x8000
        &&& self.fine_x_scroll < 8
        &&& self.scanline <= 261
        &&& self.cycle <= 340
        &&& self.palette_ram.len() == 32
        &&& self.name_table.len() == 2048
        &&& self.object_attribute_memory.len() == 256
        &&& self.secondary_object_attribute_memory.len() == 32
        &&& self.screen_buffer.len() == 61440
    }

    /// A picture processing unit at power-on: memories cleared (object
    /// attribute memory to ones), the status showing vertical blank and
    /// sprite overflow, and the dot clock at the start of the pre-render
    /// scanline.
    pub fn new() -> (result: NesPpu)
        ensures
            result.wf(),
            spec_power_on_ppu(result),
    {
        let result = NesPpu {
            ctrl_flags: 0,
            mask_flags: 0,
            status_flags: PPU_STATUS_VERTICAL_BLANK | PPU_STATUS_SPRITE_OVERFLOW,
            oam_address: 0x00,
            temporary_vram_address: 0x0000,
            current_vram_address: 0x0000,
            fine_x_scroll: 0,
            write_latch: false,
            read_buffer: 0x00,
            palette_ram: filled_vec_u8(32, 0x00),
            name_table: filled_vec_u8(2048, 0x00),
            object_attribute_memory: filled_vec_u8(256, 0xff),
            secondary_object_attribute_memory: filled_vec_u8(32, 0x00),
            screen_buffer: filled_vec_u32(61440, 0),
            scanline: 261,
            cycle: 0,
            frame_count: 0,
            pattern_latch_lo: 0,
            pattern_latch_hi: 0,
            pattern_shifter_lo: 0,
            pattern_shifter_hi: 0,
            attribute_latch: 0,
            attribute_shifter_lo: 0,
            attribute_shifter_hi: 0,
            nametable_id: 0,
            sprite_evaluation_index: 0,
            secondary_sprite_evaluation_index: 0,
            sprite_evaluation_wrapped: false,
            sprite_shifters_lo: [0u8, 0u8, 0u8, 0u8, 0u8, 0u8, 0u8, 0u8],
            sprite_shifters_hi: [0u8, 0u8, 0u8, 0u8, 0u8, 0u8, 0u8, 0u8],
            sprite_attributes: [0u8, 0u8, 0u8, 0u8, 0u8, 0u8, 0u8, 0u8],
            sprite_x_offsets: [0i16, 0i16, 0i16, 0i16, 0i16, 0i16, 0i16, 0i16],
        };
        proof {
            assert(result.sprite_shifters_lo@ =~= Seq::new(8, |i: int| 0u8));
            assert(result.sprite_shifters_hi@ =~= Seq::new(8, |i: int| 0u8));
            assert(result.sprite_attributes@ =~= Seq::new(8, |i: int| 0u8));
            assert(result.sprite_x_offsets@ =~= Seq::new(8, |i: int| 0i16));
        }
        result
    }

    /// Resets the unit as the reset line does: control, mask, scroll and
    /// clocks are cleared; the vertical blank bit, the memories and the
    /// frame counter keep their values.
    pub fn reset(&mut self)
        requires
            old(self).wf(),
        ensures
            final(self).wf(),
            *final(self) == (NesPpu {
                ctrl_flags: 0,
                mask_flags: 0,
                status_flags: old(self).status_flags & PPU_STATUS_VERTICAL_BLANK,
                write_latch: false,
                read_buffer: 0,
                cycle: 0,
                scanline: 0,
                fine_x_scroll: 0,
                temporary_vram_address: 0,
                ..*old(self)
            }),
    {
        self.ctrl_flags = 0;
        self.mask_flags = 0;
        self.status_flags = self.status_flags & PPU_STATUS_VERTICAL_BLANK;
        self.write_latch = false;
        self.read_buffer = 0x00;
        self.cycle = 0;
        self.scanline = 0;
        self.fine_x_scroll = 0x00;
        self.temporary_vram_address = 0x00;
    }

    /// The rendered frame.
    pub fn get_screen(&self) -> (result: &Vec<u32>)
        ensures
            result@ == self.screen_buffer@,
    {
        &self.screen_buffer
    }

    /// The slot of palette memory an address in 0x3F00..=0x3FFF reaches.
    pub fn apply_palette_mirroring(&self, address: u16) -> (result: usize)
        ensures
            result == spec_palette_index(address),
            result < 32,
    {
        proof {
            assert(((address & 0xffef) & 0x1f) < 32 && (address & 0x1f) < 32) by (bit_vector);
        }
        if address >= 0x3f10 && address & 0x03 == 0x0 {
            ((address & 0xffef) & 0x1f) as usize
        } else {
            (address & 0x1f) as usize
        }
    }

    /// The slot of the two-kilobyte nametable memory an address in
    /// 0x2000..=0x3EFF reaches, under the cartridge's mirroring.
    pub fn apply_name_table_mirroring(&self, cartridge: &mut Cartridge, address: u16) -> (result:
        usize)
        ensures
            *final(cartridge) == *old(cartridge),
            result == spec_nt_index(
                spec_mirroring(old(cartridge).mapper, old(cartridge).mirroring),
                address,
            ),
            result < 2048,
    {
        proof {
            assert((address & 0x3ff) < 0x400
                && ((address & 0x3ff) | (((address >> 10) & 0x1) << 10)) < 2048
                && ((address & 0x3ff) | (((address >> 11) & 0x1) << 10)) < 2048) by (bit_vector);
        }
        match cartridge.get_mirroring() {
            Mirroring::OneScreenLower | Mirroring::OneScreenUpper => (address & 0x3ff) as usize,
            Mirroring::Vertical => ((address & 0x3ff) | (((address >> 10) & 0x1) << 10)) as usize,
            Mirroring::Horizontal => ((address & 0x3ff) | (((address >> 11) & 0x1) << 10)) as usize,
        }
    }

    /// Reads from the internal bus of the picture processing unit: pattern
    /// tables in the cartridge, then the nametables, then palette memory.
    pub fn vram_read(&mut self, address: u16, cartridge: &mut Cartridge) -> (result: u8)
        requires
            old(self).wf(),
            address < 0x4000,
        ensures
            *final(self) == *old(self),
            *final(cartridge) == *old(cartridge),
            result == spec_vram_read(*old(self), *old(cartridge), address),
    {
        if address < 0x2000 {
            cartridge.character_read(address)
        } else if address < 0x3f00 {
            let index = self.apply_name_table_mirroring(cartridge, address);
            self.name_table[index]
        } else {
            let index = self.apply_palette_mirroring(address);
            self.palette_ram[index]
        }
    }

    /// Writes onto the internal bus of the picture processing unit.
    pub fn vram_write(&mut self, address: u16, data: u8, cartridge: &mut Cartridge)
        requires
            old(self).wf(),
            address < 0x4000,
        ensures
            final(self).wf(),
            address < 0x2000 ==> *final(self) == *old(self) && final(cartridge).character_ram@
                == spec_character_write(
                old(cartridge).mapper,
                old(cartridge).character_ram@,
                address,
                data,
            ) && final(cartridge).mapper == old(cartridge).mapper && final(cartridge).program_rom@ == old(cartridge).program_rom@ && final(cartridge).program_ram@ == old(cartridge).program_ram@ && final(cartridge).mirroring == old(cartridge).mirroring,
            0x2000 <= address < 0x3f00 ==> *final(cartridge) == *old(cartridge) && *final(self)
                == (NesPpu { name_table: final(self).name_table, ..*old(self) }) && final(self).name_table@ == old(self).name_table@.update(
                spec_nt_index(
                    spec_mirroring(old(cartridge).mapper, old(cartridge).mirroring),
                    address,
                ),
                data,
            ),
            0x3f00 <= address ==> *final(cartridge) == *old(cartridge) && *final(self) == (NesPpu {
                palette_ram: final(self).palette_ram,
                ..*old(self)
            }) && final(self).palette_ram@ == old(self).palette_ram@.update(
                spec_palette_index(address),
                data,
            ),
    {
        if address < 0x2000 {
            cartridge.character_write(address, data);
        } else if address < 0x3f00 {
            let index = self.apply_name_table_mirroring(cartridge, address);
            self.name_table.set(index, data);
        } else {
            let index = self.apply_palette_mirroring(address);
            self.palette_ram.set(index, data);
        }
    }

    /// A read of the object attribute memory at the current address. During
    /// the first 64 dots of a line outside the vertical blank the memory
    /// reads as all ones: that is how the secondary memory is cleared.
    pub fn oam_read(&mut self) -> (result: u8)
        requires
            old(self).wf(),
        ensures
            *final(self) == *old(self),
            result == spec_oam_read(*old(self)),
    {
        if self.status_flags & PPU_STATUS_VERTICAL_BLANK == 0 && self.cycle > 0 && self.cycle
            <= 64 {
            0xff
        } else {
            self.object_attribute_memory[self.oam_address as usize]
        }
    }

    /// A write to the object attribute memory at the current address, which
    /// the write then steps forward.
    pub fn oam_write(&mut self, data: u8)
        requires
            old(self).wf(),
        ensures
            final(self).wf(),
            *final(self) == (NesPpu {
                object_attribute_memory: final(self).object_attribute_memory,
                oam_address: (vstd::wrapping::u8_specs::wrapping_add(old(self).oam_address, 1)),
                ..*old(self)
            }),
            final(self).object_attribute_memory@ == old(self).object_attribute_memory@.update(
                old(self).oam_address as int,
                data,
            ),
    {
        self.object_attribute_memory.set(self.oam_address as usize, data);
        self.oam_address = self.oam_address.wrapping_add(1);
    }

    /// The write side of the sprite direct-memory-access channel: the byte
    /// lands `address` past the current object attribute memory address.
    pub fn oam_dma_write(&mut self, address: u8, data: u8)
        requires
            old(self).wf(),
        ensures
            final(self).wf(),
            *final(self) == (NesPpu {
                object_attribute_memory: final(self).object_attribute_memory,
                ..*old(self)
            }),
            final(self).object_attribute_memory@ == old(self).object_attribute_memory@.update(
                vstd::wrapping::u8_specs::wrapping_add(old(self).oam_address, address) as int,
                data,
            ),
    {
        let index = self.oam_address.wrapping_add(address) as usize;
        self.object_attribute_memory.set(index, data);
    }

    /// A write to the scroll register: the first write sets the fine and
    /// coarse x scroll, the second the fine and coarse y scroll, and the
    /// write toggle flips each time. The registers stay fifteen and three
    /// bits wide, whatever is written.
    pub fn scroll_write(&mut self, data: u8)
        requires
            old(self).wf(),
        ensures
            final(self).wf(),
            *final(self) == (NesPpu {
                temporary_vram_address: spec_scroll_write_t(
                    old(self).temporary_vram_address,
                    data,
                    old(self).write_latch,
                ),
                fine_x_scroll: (if old(self).write_latch {
                    old(self).fine_x_scroll
                } else {
                    data & 0x07
                }),
                write_latch: !old(self).write_latch,
                ..*old(self)
            }),
    {
        proof {
            let t = self.temporary_vram_address;
            assert(t < 0x8000 ==> (((t & 0x0c1f) | (((data as u16) & 0x07) << 12) | (((data as u16)
                & 0xf8) << 2)) < 0x8000 && ((t & 0xffe0) | ((data as u16) >> 3)) < 0x8000 && (data
                & 0x07) < 8)) by (bit_vector);
        }
        let data16 = data as u16;
        if self.write_latch {
            self.temporary_vram_address = self.temporary_vram_address & 0x0c1f;
            self.temporary_vram_address = self.temporary_vram_address | ((data16 & 0x07) << 12) | (
            (data16 & 0xf8) << 2);
            self.write_latch = false;
        } else {
            self.fine_x_scroll = data & 0x07;
            self.temporary_vram_address = self.temporary_vram_address & 0xffe0;
            self.temporary_vram_address = self.temporary_vram_address | (data16 >> 3);
            self.write_latch = true;
        }
    }

    /// A write to the VRAM address register: the first write sets the upper
    /// bits of the temporary address and clears bit 14, the second sets the
    /// low byte and copies the whole temporary address into the current one.
    pub fn vram_address_write(&mut self, data: u8)
        requires
            old(self).wf(),
        ensures
            final(self).wf(),
            *final(self) == (NesPpu {
                temporary_vram_address: spec_vram_address_write_t(
                    old(self).temporary_vram_address,
                    data,
                    old(self).write_latch,
                ),
                current_vram_address: (if old(self).write_latch {
                    spec_vram_address_write_t(
                        old(self).temporary_vram_address,
                        data,
                        old(self).write_latch,
                    )
                } else {
                    old(self).current_vram_address
                }),
                write_latch: !old(self).write_latch,
                ..*old(self)
            }),
    {
        proof {
            let t = self.temporary_vram_address;
            assert(t < 0x8000 ==> (((t & 0xff00) | (data as u16)) < 0x8000 && ((t & 0x00ff) | (((
            data as u16) & 0x3f) << 8)) < 0x8000)) by (bit_vector);
        }
        if self.write_latch {
            self.temporary_vram_address = (self.temporary_vram_address & 0xff00) | (data as u16);
            self.current_vram_address = self.temporary_vram_address;
            self.write_latch = false;
        } else {
            self.temporary_vram_address = (self.temporary_vram_address & 0x00ff) | (((data as u16)
                & 0x3f) << 8);
            self.write_latch = true;
        }
    }

    /// Steps the coarse x scroll of the current VRAM address, when rendering
    /// is enabled.
    pub fn coarse_x_increment(&mut self)
        requires
            old(self).wf(),
        ensures
            final(self).wf(),
            *final(self) == (NesPpu {
                current_vram_address: spec_coarse_x_increment_v(
                    old(self).current_vram_address,
                    old(self).mask_flags,
                ),
                ..*old(self)
            }),
    {
        proof {
            let v = self.current_vram_address;
            assert(v < 0x8000 ==> ((v ^ (0x0400 | COARSE_X_MASK)) < 0x8000 && (v & COARSE_X_MASK
                == COARSE_X_MASK || v + 1 < 0x8000))) by (bit_vector);
        }
        if self.mask_flags & (PPU_MASK_BACKGROUND_ENABLE | PPU_MASK_SPRITE_ENABLE) != 0 {
            if self.current_vram_address & COARSE_X_MASK == COARSE_X_MASK {
                self.current_vram_address = self.current_vram_address ^ (0x0400 | COARSE_X_MASK);
            } else {
                self.current_vram_address = self.current_vram_address + 0x1;
            }
        }
    }

    /// Steps the y scroll of the current VRAM address, when rendering is
    /// enabled: fine y first, then coarse y with its wrapping rules.
    pub fn y_increment(&mut self)
        requires
            old(self).wf(),
        ensures
            final(self).wf(),
            *final(self) == (NesPpu {
                current_vram_address: spec_y_increment_v(
                    old(self).current_vram_address,
                    old(self).mask_flags,
                ),
                ..*old(self)
            }),
    {
        proof {
            let v = self.current_vram_address;
            assert(v < 0x8000 ==> ((v & 0x7000 != 0x7000 ==> v + 0x1000 < 0x8000) && (v & 0x8fff)
                < 0x8000 && ((v & 0x8fff) ^ 0x0800) & 0xfc1f < 0x8000 && (v & 0x8fff) & 0xfc1f
                < 0x8000 && (v & 0x8fff) + 0x20 < 0x8000 && ((v & 0x8fff) & COARSE_Y_MASK) >> 5
                <= 0x1f)) by (bit_vector);
        }
        if self.mask_flags & (PPU_MASK_BACKGROUND_ENABLE | PPU_MASK_SPRITE_ENABLE) != 0 {
            if (self.current_vram_address & FINE_Y_MASK) != FINE_Y_MASK {
                self.current_vram_address = self.current_vram_address + 0x1000;
            } else {
                self.current_vram_address = self.current_vram_address & 0x8fff;
                let coarse_y = (self.current_vram_address & COARSE_Y_MASK) >> 5;
                if coarse_y == 0x1d {
                    self.current_vram_address = self.current_vram_address ^ 0x0800;
                    self.current_vram_address = self.current_vram_address & 0xfc1f;
                } else if coarse_y == 0x1f {
                    self.current_vram_address = self.current_vram_address & 0xfc1f;
                } else {
                    self.current_vram_address = self.current_vram_address + 0x20;
                }
            }
        }
    }

    /// Moves the latched tile data into the low halves of the shifters.
    pub fn reload_shifters(&mut self)
        ensures
            *final(self) == spec_reload_shifters(*old(self)),
    {
        self.attribute_shifter_lo = (self.attribute_shifter_lo & 0xff00) | (
        if self.attribute_latch & 0x1 == 1 {
            0xff
        } else {
            0x00
        });
        self.attribute_shifter_hi = (self.attribute_shifter_hi & 0xff00) | (
        if self.attribute_latch & 0x2 == 2 {
            0xff
        } else {
            0x00
        });
        self.pattern_shifter_lo = (self.pattern_shifter_lo & 0xff00) | (self.pattern_latch_lo
            as u16);
        self.pattern_shifter_hi = (self.pattern_shifter_hi & 0xff00) | (self.pattern_latch_hi
            as u16);
    }

    /// Reads the attribute table byte for the tile the VRAM address points
    /// at, and picks out the two bits of its quadrant.
    pub fn read_attribute_table_byte(&mut self, cartridge: &mut Cartridge) -> (result: u8)
        requires
            old(self).wf(),
        ensures
            *final(self) == *old(self),
            *final(cartridge) == *old(cartridge),
            result == spec_attribute_entry(*old(self), *old(cartridge)),
    {
        let v = self.current_vram_address;
        proof {
            assert((0x23c0 | (v & 0x0c00) | ((v & COARSE_X_MASK) >> 2) | ((v & 0x0380) >> 4))
                < 0x4000 && ((((v >> 5) & 0x02) << 1) | (v & 0x02)) <= 6) by (bit_vector);
        }
        let attribute_address = 0x23c0 | (v & 0x0c00) | ((v & COARSE_X_MASK) >> 2) | ((v & 0x0380)
            >> 4);
        let byte = self.vram_read(attribute_address, cartridge);
        let shift = ((((v >> 5) & 0x02) << 1) | (v & 0x02)) as u8;
        ((byte as u16 >> shift as u16) as u8) & 0x03
    }

    /// A CPU read of one of the eight picture processing unit registers; the
    /// address is reduced to its low three bits. The status read clears the
    /// vertical blank bit and the write toggle; the data read is delayed
    /// through the read buffer, except for palette entries, and steps the
    /// VRAM address. Registers without read sides return zero.
    pub fn read(&mut self, cartridge: &mut Cartridge, address: u16) -> (result: u8)
        requires
            old(self).wf(),
        ensures
            final(self).wf(),
            spec_register_read_rel(
                *old(self),
                *old(cartridge),
                *final(self),
                *final(cartridge),
                address,
                result,
            ),
    {
        let offset = address & 0x07;
        proof {
            assert((address & 0x07) <= 7) by (bit_vector);
            let v = self.current_vram_address;
            assert((v & 0x3fff) < 0x4000) by (bit_vector);
            assert(v < 0x8000 ==> ((v + 0x20) as u16 & 0x7fff) < 0x8000 && ((v + 0x01) as u16
                & 0x7fff) < 0x8000) by (bit_vector);
        }
        if offset == 2 {
            let value = self.status_flags | (self.read_buffer & 0x1f);
            self.status_flags = self.status_flags & 0x7f;
            self.write_latch = false;
            value
        } else if offset == 4 {
            self.oam_read()
        } else if offset == 7 {
            let vram_address = self.current_vram_address & 0x3fff;
            let mut temp = self.read_buffer;
            self.read_buffer = self.vram_read(vram_address, cartridge);
            if vram_address >= 0x3f00 {
                temp = self.read_buffer;
            }
            if self.ctrl_flags & PPU_CTRL_VRAM_INCREMENT != 0 {
                self.current_vram_address = (self.current_vram_address + 0x20) & 0x7fff;
            } else {
                self.current_vram_address = (self.current_vram_address + 0x01) & 0x7fff;
            }
            temp
        } else {
            0x00
        }
    }

    /// A CPU write to one of the eight picture processing unit registers;
    /// the address is reduced to its low three bits. The control write also
    /// places the nametable selection into the temporary VRAM address; the
    /// data write stores at the current VRAM address and steps it.
    pub fn write(&mut self, cartridge: &mut Cartridge, address: u16, data: u8)
        requires
            old(self).wf(),
        ensures
            final(self).wf(),
            spec_register_write_rel(
                *old(self),
                *old(cartridge),
                *final(self),
                *final(cartridge),
                address,
                data,
            ),
    {
        let offset = address & 0x07;
        proof {
            assert((address & 0x07) <= 7) by (bit_vector);
            let t = self.temporary_vram_address;
            assert(t < 0x8000 ==> ((t & 0x73ff) | (((data as u16) & 0x03) << 10)) < 0x8000)
                by (bit_vector);
            let v = self.current_vram_address;
            assert((v & 0x3fff) < 0x4000) by (bit_vector);
            assert(v < 0x8000 ==> ((v + 0x20) as u16 & 0x7fff) < 0x8000 && ((v + 0x01) as u16
                & 0x7fff) < 0x8000) by (bit_vector);
        }
        if offset == 0 {
            self.ctrl_flags = data;
            self.temporary_vram_address = self.temporary_vram_address & 0x73ff;
            self.temporary_vram_address = self.temporary_vram_address | (((data as u16) & 0x03)
                << 10);
        } else if offset == 1 {
            self.mask_flags = data;
        } else if offset == 2 {
            // The status register has no write side.
        } else if offset == 3 {
            self.oam_address = data;
        } else if offset == 4 {
            self.oam_write(data);
        } else if offset == 5 {
            self.scroll_write(data);
        } else if offset == 6 {
            self.vram_address_write(data);
        } else {
            let vram_address = self.current_vram_address & 0x3fff;
            self.vram_write(vram_address, data, cartridge);
            if self.ctrl_flags & PPU_CTRL_VRAM_INCREMENT != 0 {
                self.current_vram_address = (self.current_vram_address + 0x20) & 0x7fff;
            } else {
                self.current_vram_address = (self.current_vram_address + 0x01) & 0x7fff;
            }
        }
    }
}

/// The temporary VRAM address after a control register write: the two
/// nametable selection bits land in bits 10 and 11.
pub open spec fn spec_ctrl_write_t(t: u16, data: u8) -> u16 {
    (t & 0x73ff) | (((data as u16) & 0x03) << 10)
}

/// How a CPU register write relates the unit and the cartridge before the
/// write to the pair after it, keyed by the low three address bits: control
/// (with the nametable bits copied into the temporary address), mask, the
/// sprite memory address and data registers, the scroll and address write
/// pairs, and the VRAM data write with its address step.
pub open spec fn spec_register_write_rel(
    p: NesPpu,
    c: Cartridge,
    q: NesPpu,
    d: Cartridge,
    address: u16,
    data: u8,
) -> bool {
    ({
                let offset = address & 0x07;
                &&& offset == 0 ==> (q == (NesPpu {
                    ctrl_flags: data,
                    temporary_vram_address: spec_ctrl_write_t(
                        p.temporary_vram_address,
                        data,
                    ),
                    ..p
                }) && d == c)
                &&& offset == 1 ==> (q == (NesPpu { mask_flags: data, ..p })
                    && d == c)
                &&& offset == 2 ==> (q == p && d == c)
                &&& offset == 3 ==> (q == (NesPpu { oam_address: data, ..p })
                    && d == c)
                &&& offset == 4 ==> (q == (NesPpu {
                    object_attribute_memory: q.object_attribute_memory,
                    oam_address: (vstd::wrapping::u8_specs::wrapping_add(p.oam_address, 1)),
                    ..p
                }) && q.object_attribute_memory@ == p.object_attribute_memory@.update(p.oam_address as int, data) && d == c)
                &&& offset == 5 ==> (q == (NesPpu {
                    temporary_vram_address: spec_scroll_write_t(
                        p.temporary_vram_address,
                        data,
                        p.write_latch,
                    ),
                    fine_x_scroll: (if p.write_latch {
                        p.fine_x_scroll
                    } else {
                        data & 0x07
                    }),
                    write_latch: !p.write_latch,
                    ..p
                }) && d == c)
                &&& offset == 6 ==> (q == (NesPpu {
                    temporary_vram_address: spec_vram_address_write_t(
                        p.temporary_vram_address,
                        data,
                        p.write_latch,
                    ),
                    current_vram_address: (if p.write_latch {
                        spec_vram_address_write_t(
                            p.temporary_vram_address,
                            data,
                            p.write_latch,
                        )
                    } else {
                        p.current_vram_address
                    }),
                    write_latch: !p.write_latch,
                    ..p
                }) && d == c)
                &&& offset == 7 ==> ({
                    let vram_address = p.current_vram_address & 0x3fff;
                    &&& q == (NesPpu {
                        name_table: q.name_table,
                        palette_ram: q.palette_ram,
                        current_vram_address: spec_vram_increment(
                            p.current_vram_address,
                            p.ctrl_flags,
                        ),
                        ..p
                    })
                    &&& vram_address < 0x2000 ==> (q.name_table@ == p.name_table@ && q.palette_ram@ == p.palette_ram@ && d.character_ram@ == spec_character_write(
                        c.mapper,
                        c.character_ram@,
                        vram_address,
                        data,
                    ) && d.mapper == c.mapper && d.program_rom@ == c.program_rom@ && d.program_ram@
                        == c.program_ram@ && d.mirroring == c.mirroring)
                    &&& (0x2000 <= vram_address < 0x3f00) ==> (d == c
                        && q.palette_ram@ == p.palette_ram@ && q.name_table@ == p.name_table@.update(
                        spec_nt_index(
                            spec_mirroring(c.mapper, c.mirroring),
                            vram_address,
                        ),
                        data,
                    ))
                    &&& vram_address >= 0x3f00 ==> (d == c && q.name_table@ == p.name_table@ && q.palette_ram@ == p.palette_ram@.update(spec_palette_index(vram_address), data))
                })
            })
}

/// How a CPU register read relates the unit before the read, the value it
/// returns and the unit after it, keyed by the low three address bits: the
/// status read clears the vertical blank bit and the write toggle, the
/// sprite memory read sees the clearing window, the data read runs through
/// the read buffer and steps the VRAM address, and the rest return zero.
pub open spec fn spec_register_read_rel(
    p: NesPpu,
    c: Cartridge,
    q: NesPpu,
    d: Cartridge,
    address: u16,
    result: u8,
) -> bool {
    ({
                let offset = address & 0x07;
                &&& (offset == 0 || offset == 1 || offset == 3 || offset == 5 || offset == 6) ==> (
                result == 0 && q == p && d == c)
                &&& offset == 2 ==> (result == (p.status_flags | (p.read_buffer
                    & 0x1f)) && q == (NesPpu {
                    status_flags: p.status_flags & 0x7f,
                    write_latch: false,
                    ..p
                }) && d == c)
                &&& offset == 4 ==> (result == spec_oam_read(p) && q == p && d == c)
                &&& offset == 7 ==> ({
                    let vram_address = p.current_vram_address & 0x3fff;
                    let fetched = spec_vram_read(p, c, vram_address);
                    &&& result == (if vram_address >= 0x3f00 {
                        fetched
                    } else {
                        p.read_buffer
                    })
                    &&& q == (NesPpu {
                        read_buffer: fetched,
                        current_vram_address: spec_vram_increment(
                            p.current_vram_address,
                            p.ctrl_flags,
                        ),
                        ..p
                    })
                    &&& d == c
                })
            })
}

/// The slot of the 32-byte palette memory that an address reaches: the low
/// five bits, except that the transparent entries 0x3F10, 0x3F14, 0x3F18 and
/// 0x3F1C alias their background counterparts sixteen below.
pub open spec fn spec_palette_index(address: u16) -> int {
    if address >= 0x3f10 && address & 0x03 == 0 {
        ((address & 0xffef) & 0x1f) as int
    } else {
        (address & 0x1f) as int
    }
}

/// The slot of the nametable memory that an address reaches: the offset in a
/// one-kilobyte table, plus a table choice taken from address bit 10 under
/// vertical mirroring, bit 11 under horizontal, and fixed for one-screen.
pub open spec fn spec_nt_index(m: Mirroring, address: u16) -> int {
    match m {
        Mirroring::OneScreenLower | Mirroring::OneScreenUpper => (address & 0x3ff) as int,
        Mirroring::Vertical => ((address & 0x3ff) | (((address >> 10) & 0x1) << 10)) as int,
        Mirroring::Horizontal => ((address & 0x3ff) | (((address >> 11) & 0x1) << 10)) as int,
    }
}

/// What a read of the picture processing unit's internal bus returns.
pub open spec fn spec_vram_read(ppu: NesPpu, cartridge: Cartridge, address: u16) -> u8 {
    if address < 0x2000 {
        spec_character_read(cartridge.mapper, cartridge.character_ram@, address)
    } else if address < 0x3f00 {
        ppu.name_table@[spec_nt_index(
            spec_mirroring(cartridge.mapper, cartridge.mirroring),
            address,
        )]
    } else {
        ppu.palette_ram@[spec_palette_index(address)]
    }
}

/// What a read of the object attribute memory returns.
pub open spec fn spec_oam_read(ppu: NesPpu) -> u8 {
    if ppu.status_flags & PPU_STATUS_VERTICAL_BLANK == 0 && 0 < ppu.cycle <= 64 {
        0xff
    } else {
        ppu.object_attribute_memory@[ppu.oam_address as int]
    }
}

/// Palette aliasing: every address whose bit 4 is set above a transparent
/// entry reads and writes the same palette slot as the address with bit 4
/// cleared. Writing 0x3F10 and reading 0x3F00 meet in slot zero.
pub proof fn lemma_palette_alias(address: u16)
    requires
        0x3f00 <= address <= 0x3fff,
        address & 0x13 == 0x10,
    ensures
        spec_palette_index(address) == spec_palette_index(address & 0xffef),
{
    assert((0x3f00 <= address <= 0x3fff && address & 0x13 == 0x10) ==> spec_palette_index(address)
        == spec_palette_index(address & 0xffef)) by (bit_vector);
}

/// The temporary VRAM address after a write to the scroll register. The
/// first write carries the x scroll: its upper five bits become coarse x.
/// The second write carries the y scroll: its lower three bits become fine y
/// and its upper five coarse y.
pub open spec fn spec_scroll_write_t(t: u16, data: u8, latch: bool) -> u16 {
    if latch {
        (t & 0x0c1f) | (((data as u16) & 0x07) << 12) | (((data as u16) & 0xf8) << 2)
    } else {
        (t & 0xffe0) | ((data as u16) >> 3)
    }
}

/// The temporary VRAM address after a write to the address register. The
/// first write sets bits 8 through 13 and clears bit 14; the second sets the
/// low byte.
pub open spec fn spec_vram_address_write_t(t: u16, data: u8, latch: bool) -> u16 {
    if latch {
        (t & 0xff00) | (data as u16)
    } else {
        (t & 0x00ff) | (((data as u16) & 0x3f) << 8)
    }
}

/// The current VRAM address after a coarse x step: coarse x counts up, and
/// wrapping from 31 to 0 crosses into the neighbouring nametable by flipping
/// bit 10.
pub open spec fn spec_coarse_x_increment_v(v: u16, mask: u8) -> u16 {
    if mask & (PPU_MASK_BACKGROUND_ENABLE | PPU_MASK_SPRITE_ENABLE) != 0 {
        if v & COARSE_X_MASK == COARSE_X_MASK {
            v ^ (0x0400 | COARSE_X_MASK)
        } else {
            ((v + 1) as u16)
        }
    } else {
        v
    }
}

/// The current VRAM address after a y step: fine y counts up; on wrap,
/// coarse y counts up, where 29 wraps to 0 and flips the vertical nametable
/// bit, and 31 wraps to 0 without flipping it.
pub open spec fn spec_y_increment_v(v: u16, mask: u8) -> u16 {
    if mask & (PPU_MASK_BACKGROUND_ENABLE | PPU_MASK_SPRITE_ENABLE) != 0 {
        if v & FINE_Y_MASK != FINE_Y_MASK {
            ((v + 0x1000) as u16)
        } else {
            let cleared = v & 0x8fff;
            let coarse_y = (cleared & COARSE_Y_MASK) >> 5;
            if coarse_y == 0x1d {
                (cleared ^ 0x0800) & 0xfc1f
            } else if coarse_y == 0x1f {
                cleared & 0xfc1f
            } else {
                ((cleared + 0x20) as u16)
            }
        }
    } else {
        v
    }
}

/// A VRAM address stepped by a data register access: by 32 when the control
/// register selects column order, by 1 otherwise, wrapping at fifteen bits.
pub open spec fn spec_vram_increment(v: u16, ctrl: u8) -> u16 {
    if ctrl & PPU_CTRL_VRAM_INCREMENT != 0 {
        ((v + 0x20) as u16) & 0x7fff
    } else {
        ((v + 0x01) as u16) & 0x7fff
    }
}

/// The shifters after a reload from the latches: each pattern shifter takes
/// its latch byte into its low half, and each attribute shifter's low half
/// becomes eight copies of one attribute latch bit.
pub open spec fn spec_reload_shifters(p: NesPpu) -> NesPpu {
    NesPpu {
        attribute_shifter_lo: (p.attribute_shifter_lo & 0xff00) | (if p.attribute_latch & 0x1 == 1 {
            0xff
        } else {
            0x00
        }),
        attribute_shifter_hi: (p.attribute_shifter_hi & 0xff00) | (if p.attribute_latch & 0x2 == 2 {
            0xff
        } else {
            0x00
        }),
        pattern_shifter_lo: (p.pattern_shifter_lo & 0xff00) | (p.pattern_latch_lo as u16),
        pattern_shifter_hi: (p.pattern_shifter_hi & 0xff00) | (p.pattern_latch_hi as u16),
        ..p
    }
}

/// Address of the attribute table byte for the tile the VRAM address points
/// at: the attribute table of the selected nametable, indexed by the upper
/// three bits of each of coarse x and coarse y.
pub open spec fn spec_attribute_address(v: u16) -> u16 {
    0x23c0 | (v & 0x0c00) | ((v & COARSE_X_MASK) >> 2) | ((v & 0x0380) >> 4)
}

/// How far the attribute byte is shifted down for the current tile: four for
/// the lower half of the 32-pixel block, plus two for its right half.
pub open spec fn spec_attribute_shift(v: u16) -> u16 {
    (((v >> 5) & 0x02) << 1) | (v & 0x02)
}

/// The two palette-select bits the attribute table gives the current tile.
pub open spec fn spec_attribute_entry(p: NesPpu, cartridge: Cartridge) -> u8 {
    (spec_vram_read(p, cartridge, spec_attribute_address(p.current_vram_address)) as u16
        >> spec_attribute_shift(p.current_vram_address)) as u8 & 0x03
}

/// Scroll-register round trip: whatever the scroll state was, once a status
/// read has cleared the write toggle, a scroll write pair (a, b) followed by
/// an address write pair (c, d) leaves the current VRAM address at exactly
/// the address the last pair spells: the low six bits of c over d.
pub proof fn lemma_scroll_address_round_trip(t0: u16, a: u8, b: u8, c: u8, d: u8)
    ensures
        spec_vram_address_write_t(
            spec_vram_address_write_t(
                spec_scroll_write_t(spec_scroll_write_t(t0, a, false), b, true),
                c,
                false,
            ),
            d,
            true,
        ) == (((c as u16) & 0x3f) << 8) | (d as u16),
{
    assert(spec_vram_address_write_t(
        spec_vram_address_write_t(
            spec_scroll_write_t(spec_scroll_write_t(t0, a, false), b, true),
            c,
            false,
        ),
        d,
        true,
    ) == (((c as u16) & 0x3f) << 8) | (d as u16)) by (bit_vector);
}

/// Nametable mirroring: addresses 0x3000..=0x3EFF reach the same nametable
/// slot as the address one 0x1000 lower, under every mirroring mode.
pub proof fn lemma_nametable_mirror(m: Mirroring, address: u16)
    requires
        0x3000 <= address <= 0x3eff,
    ensures
        spec_nt_index(m, address) == spec_nt_index(m, (address - 0x1000) as u16),
{
    let low = (address - 0x1000) as u16;
    assert((0x3000 <= address <= 0x3eff && low == address - 0x1000) ==> ((address & 0x3ff) == (
    low & 0x3ff) && ((address >> 10) & 0x1) == ((low >> 10) & 0x1) && ((address >> 11) & 0x1) == ((
    low >> 11) & 0x1))) by (bit_vector);
}

/// A vector of `len` copies of `value`.
fn filled_vec_u8(len: usize, value: u8) -> (result: Vec<u8>)
    ensures
        result@ == Seq::new(len as nat, |i: int| value),
{
    let mut result: Vec<u8> = Vec::new();
    let mut i: usize = 0;
    while i < len
        invariant
            i <= len,
            result@ == Seq::new(i as nat, |j: int| value),
        decreases len - i,
    {
        result.push(value);
        proof {
            assert(result@ =~= Seq::new((i + 1) as nat, |j: int| value));
        }
        i = i + 1;
    }
    result
}

/// A vector of `len` copies of `value`.
fn filled_vec_u32(len: usize, value: u32) -> (result: Vec<u32>)
    ensures
        result@ == Seq::new(len as nat, |i: int| value),
{
    let mut result: Vec<u32> = Vec::new();
    let mut i: usize = 0;
    while i < len
        invariant
            i <= len,
            result@ == Seq::new(i as nat, |j: int| value),
        decreases len - i,
    {
        result.push(value);
        proof {
            assert(result@ =~= Seq::new((i + 1) as nat, |j: int| value));
        }
        i = i + 1;
    }
    result
}

} // verus!
