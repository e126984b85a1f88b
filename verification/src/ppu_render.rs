//! The per-dot pixel pipeline of the picture processing unit: the background
//! and sprite pixel calculators, their priority resolution, and the write of
//! the finished pixel into the frame.

use vstd::prelude::*;

use bit_reverse::BitwiseReverse;

use crate::cartridge::Cartridge;
use crate::ppu::NesPpu;
use crate::ppu::PPU_CTRL_BACKGROUND_SELECT;
use crate::ppu::PPU_CTRL_NMI_ENABLE;
use crate::ppu::PPU_STATUS_VERTICAL_BLANK;
use crate::ppu::PPU_CTRL_SPRITE_HEIGHT;
use crate::ppu::PPU_CTRL_SPRITE_SELECT;
use crate::ppu::PPU_STATUS_SPRITE_OVERFLOW;
use crate::ppu::SPRITE_ATTR_HORIZONTAL_MIRROR;
use crate::ppu::SPRITE_ATTR_VERTICAL_MIRROR;
use crate::ppu::FINE_Y_OFFSET;
use crate::ppu::spec_attribute_entry;
use crate::ppu::spec_coarse_x_increment_v;
use crate::ppu::spec_oam_read;
use crate::ppu::spec_reload_shifters;
use crate::ppu::PPU_MASK_BACKGROUND_ENABLE;
use crate::ppu::PPU_MASK_BACKGROUND_LEFT_ENABLE;
use crate::ppu::PPU_MASK_SPRITE_ENABLE;
use crate::ppu::PPU_MASK_SPRITE_LEFT_ENABLE;
use crate::ppu::PPU_STATUS_SPRITE_0_HIT;
use crate::ppu::SPRITE_ATTR_PALETTE;
use crate::ppu::SPRITE_ATTR_PRIORITY;
use crate::ppu::SPRITE_ATTR_SPRITE_ZERO;
use crate::ppu::spec_vram_read;

verus! {

/// The fixed palette of the console: the 64 colours its composite encoder
/// can produce, as packed 0x00RRGGBB values.
pub const NES_COLOUR_MAP: [u32; 64] = [
    0x464646,
    0x00065a,
    0x000678,
    0x020673,
    0x35034c,
    0x57000e,
    0x5a0000,
    0x410000,
    0x120200,
    0x001400,
    0x001e00,
    0x001e00,
    0x001521,
    0x000000,
    0x000000,
    0x000000,
    0x9d9d9d,
    0x004ab9,
    0x0530e1,
    0x5718da,
    0x9f07a7,
    0xcc0255,
    0xcf0b00,
    0xa42300,
    0x5c3f00,
    0x0b5800,
    0x006600,
    0x006713,
    0x005e6e,
    0x000000,
    0x000000,
    0x000000,
    0xfeffff,
    0x1f9eff,
    0x5376ff,
    0x9865ff,
    0xfc67ff,
    0xff6cb3,
    0xff7466,
    0xff8014,
    0xc49a00,
    0x71b300,
    0x28c421,
    0x00c874,
    0x00bfd0,
    0x2b2b2b,
    0x000000,
    0x000000,
    0xfeffff,
    0x9ed5ff,
    0xafc0ff,
    0xd0b8ff,
    0xfebfff,
    0xffc0e0,
    0xffc3bd,
    0xffca9c,
    0xe7d58b,
    0xc5df8e,
    0xa6e6a3,
    0x94e8c5,
    0x92e4eb,
    0xa7a7a7,
    0x000000,
    0x000000,
];

/// The colour a palette entry maps to; only its low six bits matter.
pub open spec fn spec_colour(entry: u8) -> u32 {
    NES_COLOUR_MAP[(entry & 0x3f) as int]
}

/// Whether the background layer supplies pixels at the current dot: it must
/// be enabled, and dots 1 through 8 also need the left-edge enable.
pub open spec fn spec_bg_rendering_allowed(p: NesPpu) -> bool {
    p.mask_flags & PPU_MASK_BACKGROUND_ENABLE != 0 && (!(p.cycle > 0 && p.cycle <= 8)
        || p.mask_flags & PPU_MASK_BACKGROUND_LEFT_ENABLE != 0)
}

/// Whether the sprite layer supplies pixels at the current dot.
pub open spec fn spec_fg_rendering_allowed(p: NesPpu) -> bool {
    p.mask_flags & PPU_MASK_SPRITE_ENABLE != 0 && (!(p.cycle > 0 && p.cycle <= 8)
        || p.mask_flags & PPU_MASK_SPRITE_LEFT_ENABLE != 0)
}

/// The two-bit background pixel: bit 15 of each pattern shifter, once the
/// fine x scroll has been applied.
pub open spec fn spec_bg_pixel(p: NesPpu) -> u8 {
    if spec_bg_rendering_allowed(p) {
        ((((p.pattern_shifter_hi << (p.fine_x_scroll as u16)) & 0x8000) >> 14) | (((
        p.pattern_shifter_lo << (p.fine_x_scroll as u16)) & 0x8000) >> 15)) as u8
    } else {
        0
    }
}

/// The two-bit background palette selector, from the attribute shifters.
pub open spec fn spec_bg_palette(p: NesPpu) -> u8 {
    if spec_bg_rendering_allowed(p) {
        ((((p.attribute_shifter_hi << (p.fine_x_scroll as u16)) & 0x8000) >> 14) | (((
        p.attribute_shifter_lo << (p.fine_x_scroll as u16)) & 0x8000) >> 15)) as u8
    } else {
        0
    }
}

/// A sprite x offset one dot later: offsets count down to -7 and rest there.
pub open spec fn spec_dec_offset(offset: i16) -> i16 {
    if offset > -8 {
        (offset - 1) as i16
    } else {
        offset
    }
}

/// The two-bit pixel sprite `index` shows at the current dot, its offset
/// already stepped.
pub open spec fn spec_sprite_pixel(p: NesPpu, index: int) -> u8 {
    let shift = (-spec_dec_offset(p.sprite_x_offsets[index])) as u8;
    (((p.sprite_shifters_hi[index] << shift) & 0x80) >> 6) | (((p.sprite_shifters_lo[index]
        << shift) & 0x80) >> 7)
}

/// The sprite scan over the first `i` of the eight sprite slots, at one dot:
/// the first slot whose stepped offset lies in (-8, 0] and whose pixel is
/// not transparent supplies the foreground pixel, its palette (offset into
/// the sprite half of palette memory) and its priority bit. The scan also
/// decides the sprite-zero hit: the winning slot must carry the sprite-zero
/// mark, overlap a non-transparent background pixel, fall on a dot where
/// both layers may show it, and not on dot 256.
pub open spec fn spec_fg_scan(p: NesPpu, background_pixel: u8, i: nat) -> (u8, u8, bool, bool)
    decreases i,
{
    if i == 0 {
        (0u8, 0u8, false, false)
    } else {
        let prev = spec_fg_scan(p, background_pixel, (i - 1) as nat);
        let index = i - 1;
        let offset = spec_dec_offset(p.sprite_x_offsets[index]);
        if offset <= 0 && offset > -8 && prev.0 == 0 {
            let allowed = spec_fg_rendering_allowed(p);
            let pixel = if allowed {
                spec_sprite_pixel(p, index)
            } else {
                prev.0
            };
            let palette = if allowed {
                (((p.sprite_attributes[index] & SPRITE_ATTR_PALETTE) + 0x04) as u8)
            } else {
                prev.1
            };
            let priority = if allowed {
                p.sprite_attributes[index] & SPRITE_ATTR_PRIORITY == 0
            } else {
                prev.2
            };
            let hit = prev.3 || (p.mask_flags & (PPU_MASK_BACKGROUND_ENABLE
                | PPU_MASK_SPRITE_ENABLE) != 0 && p.sprite_attributes[index]
                & SPRITE_ATTR_SPRITE_ZERO != 0 && pixel > 0 && background_pixel > 0 && (!(p.cycle
                > 0 && p.cycle <= 8) || p.mask_flags & (PPU_MASK_SPRITE_LEFT_ENABLE
                | PPU_MASK_BACKGROUND_LEFT_ENABLE) != 0) && p.cycle != 256);
            (pixel, palette, priority, hit)
        } else {
            prev
        }
    }
}

/// The sprite x offsets one dot later.
pub open spec fn spec_dec_offsets(p: NesPpu) -> Seq<i16> {
    Seq::new(8, |j: int| spec_dec_offset(p.sprite_x_offsets[j]))
}

/// Which layer colours the dot: transparent pixels lose, and when both
/// layers are opaque the sprite's priority bit decides.
pub open spec fn spec_colour_priority(
    foreground_pixel: u8,
    foreground_palette: u8,
    background_pixel: u8,
    background_palette: u8,
    foreground_priority: bool,
) -> (u8, u8) {
    if foreground_pixel == 0 && background_pixel == 0 {
        (0u8, 0u8)
    } else if foreground_pixel == 0 {
        (background_pixel, background_palette)
    } else if background_pixel == 0 {
        (foreground_pixel, foreground_palette)
    } else if foreground_priority {
        (foreground_pixel, foreground_palette)
    } else {
        (background_pixel, background_palette)
    }
}

/// The palette memory address a (pixel, palette) pair looks up.
pub open spec fn spec_pixel_palette_address(pixel: u8, palette: u8) -> u16 {
    0x3f00 | (((palette as u16) << 2) | (pixel as u16))
}

/// The colour a dot gets, given the unit's state when the dot is drawn.
pub open spec fn spec_draw_pixel_colour(p: NesPpu, cartridge: Cartridge) -> u32 {
    let background_pixel = spec_bg_pixel(p);
    let background_palette = spec_bg_palette(p);
    let scan = spec_fg_scan(p, background_pixel, 8);
    let winner = spec_colour_priority(
        scan.0,
        scan.1,
        background_pixel,
        background_palette,
        scan.2,
    );
    spec_colour(spec_vram_read(p, cartridge, spec_pixel_palette_address(winner.0, winner.1)))
}

impl NesPpu {
    /// The background pixel and palette selector at the current dot, read
    /// from the shifters under the fine x scroll.
    pub fn calculate_background_pixel(&mut self) -> (result: (u8, u8))
        requires
            old(self).wf(),
        ensures
            *final(self) == *old(self),
            result.0 == spec_bg_pixel(*old(self)),
            result.1 == spec_bg_palette(*old(self)),
            result.0 <= 3,
            result.1 <= 3,
    {
        let mut background_pixel: u8 = 0x00;
        let mut background_palette: u8 = 0x00;
        let offset = self.fine_x_scroll as u16;
        proof {
            let hi = self.pattern_shifter_hi;
            let lo = self.pattern_shifter_lo;
            let ahi = self.attribute_shifter_hi;
            let alo = self.attribute_shifter_lo;
            assert(((((hi << offset) & 0x8000) >> 14) | (((lo << offset) & 0x8000) >> 15)) <= 3
                && ((((ahi << offset) & 0x8000) >> 14) | (((alo << offset) & 0x8000) >> 15)) <= 3)
                by (bit_vector);
        }
        if self.mask_flags & PPU_MASK_BACKGROUND_ENABLE != 0 && (!(self.cycle > 0 && self.cycle
            <= 8) || self.mask_flags & PPU_MASK_BACKGROUND_LEFT_ENABLE != 0) {
            background_pixel = ((((self.pattern_shifter_hi << offset) & 0x8000) >> 14) | (((
            self.pattern_shifter_lo << offset) & 0x8000) >> 15)) as u8;
            background_palette = ((((self.attribute_shifter_hi << offset) & 0x8000) >> 14) | (((
            self.attribute_shifter_lo << offset) & 0x8000) >> 15)) as u8;
        }
        (background_pixel, background_palette)
    }

    /// The sprite pixel at the current dot: every sprite's x offset steps
    /// down, and the first slot whose offset window covers the dot and whose
    /// pixel is opaque supplies pixel, palette and priority. Crossing an
    /// opaque background pixel with the marked sprite zero sets the
    /// sprite-zero hit bit.
    #[verifier::loop_isolation(false)]
    pub fn calculate_foreground_pixel(&mut self, background_pixel: u8) -> (result: (u8, u8, bool))
        requires
            old(self).wf(),
        ensures
            final(self).wf(),
            *final(self) == (NesPpu {
                sprite_x_offsets: final(self).sprite_x_offsets,
                status_flags: final(self).status_flags,
                ..*old(self)
            }),
            final(self).sprite_x_offsets@ == spec_dec_offsets(*old(self)),
            final(self).status_flags == (if spec_fg_scan(*old(self), background_pixel, 8).3 {
                old(self).status_flags | PPU_STATUS_SPRITE_0_HIT
            } else {
                old(self).status_flags
            }),
            result.0 == spec_fg_scan(*old(self), background_pixel, 8).0,
            result.1 == spec_fg_scan(*old(self), background_pixel, 8).1,
            result.2 == spec_fg_scan(*old(self), background_pixel, 8).2,
            result.0 <= 3,
            result.1 <= 7,
    {
        let mut foreground_pixel: u8 = 0x00;
        let mut foreground_palette: u8 = 0x00;
        let mut foreground_priority: bool = false;
        let mut i: usize = 0;
        proof {
            assert(self.sprite_x_offsets@ =~= Seq::new(
                8,
                |j: int|
                    if j < 0 {
                        spec_dec_offset(old(self).sprite_x_offsets[j])
                    } else {
                        old(self).sprite_x_offsets[j]
                    },
            ));
        }
        while i < 8
            invariant
                i <= 8,
                *self == (NesPpu {
                    sprite_x_offsets: self.sprite_x_offsets,
                    status_flags: self.status_flags,
                    ..*old(self)
                }),
                self.sprite_x_offsets@ == Seq::new(
                    8,
                    |j: int|
                        if j < i {
                            spec_dec_offset(old(self).sprite_x_offsets[j])
                        } else {
                            old(self).sprite_x_offsets[j]
                        },
                ),
                self.status_flags == (if spec_fg_scan(*old(self), background_pixel, i as nat).3 {
                    old(self).status_flags | PPU_STATUS_SPRITE_0_HIT
                } else {
                    old(self).status_flags
                }),
                foreground_pixel == spec_fg_scan(*old(self), background_pixel, i as nat).0,
                foreground_palette == spec_fg_scan(*old(self), background_pixel, i as nat).1,
                foreground_priority == spec_fg_scan(*old(self), background_pixel, i as nat).2,
                foreground_pixel <= 3,
                foreground_palette <= 7,
            decreases 8 - i,
        {
            let ghost prev_offsets = self.sprite_x_offsets@;
            if self.sprite_x_offsets[i] > -0x8 {
                let stepped = self.sprite_x_offsets[i] - 1;
                self.sprite_x_offsets[i] = stepped;
            }
            proof {
                assert(self.sprite_x_offsets@ =~= Seq::new(
                    8,
                    |j: int|
                        if j < i + 1 {
                            spec_dec_offset(old(self).sprite_x_offsets[j])
                        } else {
                            old(self).sprite_x_offsets[j]
                        },
                ));
            }
            let offset = self.sprite_x_offsets[i];
            if offset <= 0 && offset > -0x8 && foreground_pixel == 0x00 {
                if self.mask_flags & PPU_MASK_SPRITE_ENABLE != 0 && (!(self.cycle > 0 && self.cycle
                    <= 8) || self.mask_flags & PPU_MASK_SPRITE_LEFT_ENABLE != 0) {
                    let shift = (-offset) as u8;
                    let hi = self.sprite_shifters_hi[i];
                    let lo = self.sprite_shifters_lo[i];
                    proof {
                        assert(shift < 8 ==> ((((hi << shift) & 0x80) >> 6) | (((lo << shift)
                            & 0x80) >> 7)) <= 3) by (bit_vector);
                    }
                    proof {
                        let attrs = self.sprite_attributes[i as int];
                        assert((attrs & SPRITE_ATTR_PALETTE) + 0x04 <= 7) by (bit_vector);
                    }
                    foreground_pixel = (((hi << shift) & 0x80) >> 6) | (((lo << shift) & 0x80)
                        >> 7);
                    foreground_palette = (self.sprite_attributes[i] & SPRITE_ATTR_PALETTE) + 0x04;
                    foreground_priority = self.sprite_attributes[i] & SPRITE_ATTR_PRIORITY == 0;
                }
                if self.mask_flags & (PPU_MASK_BACKGROUND_ENABLE | PPU_MASK_SPRITE_ENABLE) != 0
                    && self.sprite_attributes[i] & SPRITE_ATTR_SPRITE_ZERO != 0 && foreground_pixel
                    > 0 && background_pixel > 0 && (!(self.cycle > 0 && self.cycle <= 8)
                    || self.mask_flags & (PPU_MASK_SPRITE_LEFT_ENABLE
                    | PPU_MASK_BACKGROUND_LEFT_ENABLE) != 0) && self.cycle != 256 {
                    proof {
                        let s = old(self).status_flags;
                        assert((s | PPU_STATUS_SPRITE_0_HIT) | PPU_STATUS_SPRITE_0_HIT == s
                            | PPU_STATUS_SPRITE_0_HIT) by (bit_vector);
                    }
                    self.status_flags = self.status_flags | PPU_STATUS_SPRITE_0_HIT;
                }
            }
            i = i + 1;
        }
        (foreground_pixel, foreground_palette, foreground_priority)
    }

    /// Which of the two layers' pixels reaches the screen.
    pub fn colour_priority(
        foreground_pixel: u8,
        foreground_palette: u8,
        background_pixel: u8,
        background_palette: u8,
        foreground_priority: bool,
    ) -> (result: (u8, u8))
        requires
            foreground_pixel <= 3,
            background_pixel <= 3,
        ensures
            result == spec_colour_priority(
                foreground_pixel,
                foreground_palette,
                background_pixel,
                background_palette,
                foreground_priority,
            ),
    {
        if foreground_pixel == 0 && background_pixel == 0 {
            (0x00, 0x00)
        } else if foreground_pixel == 0 {
            (background_pixel, background_palette)
        } else if background_pixel == 0 {
            (foreground_pixel, foreground_palette)
        } else if foreground_priority {
            (foreground_pixel, foreground_palette)
        } else {
            (background_pixel, background_palette)
        }
    }

    /// Draws the current dot into the frame: the background and sprite
    /// pixels are computed, the winner picks a palette entry, and the
    /// entry's colour lands at (scanline, dot - 1).
    pub fn draw_pixel(&mut self, cartridge: &mut Cartridge)
        requires
            old(self).wf(),
            1 <= old(self).cycle <= 256,
            old(self).scanline <= 239,
        ensures
            final(self).wf(),
            *final(cartridge) == *old(cartridge),
            *final(self) == (NesPpu {
                sprite_x_offsets: final(self).sprite_x_offsets,
                status_flags: final(self).status_flags,
                screen_buffer: final(self).screen_buffer,
                ..*old(self)
            }),
            final(self).sprite_x_offsets@ == spec_dec_offsets(*old(self)),
            final(self).status_flags == (if spec_fg_scan(
                *old(self),
                spec_bg_pixel(*old(self)),
                8,
            ).3 {
                old(self).status_flags | PPU_STATUS_SPRITE_0_HIT
            } else {
                old(self).status_flags
            }),
            final(self).screen_buffer@ == old(self).screen_buffer@.update(
                (old(self).cycle - 1) + (old(self).scanline as int) * 256,
                spec_draw_pixel_colour(*old(self), *old(cartridge)),
            ),
    {
        let (background_pixel, background_palette) = self.calculate_background_pixel();
        let (foreground_pixel, foreground_palette, foreground_priority) = self
            .calculate_foreground_pixel(background_pixel);
        let (pixel, palette) = NesPpu::colour_priority(
            foreground_pixel,
            foreground_palette,
            background_pixel,
            background_palette,
            foreground_priority,
        );
        proof {
            assert((0x3f00u16 | (((palette as u16) << 2) | (pixel as u16))) < 0x4000)
                by (bit_vector);
        }
        let entry = self.vram_read(0x3f00 | (((palette as u16) << 2) | (pixel as u16)), cartridge);
        let index = (self.cycle - 1) as usize + (self.scanline as usize) * 256;
        let colour = nes_colour(entry);
        self.screen_buffer.set(index, colour);
    }
}

/// How tall sprites are under a control register value: 8 or 16 pixels.
pub open spec fn spec_sprite_height(ctrl: u8) -> u16 {
    if ctrl & PPU_CTRL_SPRITE_HEIGHT != 0 {
        16
    } else {
        8
    }
}

/// Whether the sprite whose descriptor starts at `index` in the object
/// attribute memory falls on the current scanline.
pub open spec fn spec_sprite_in_range(p: NesPpu, index: int) -> bool {
    let sprite_y = p.object_attribute_memory@[index];
    p.scanline >= sprite_y && p.scanline - sprite_y < spec_sprite_height(p.ctrl_flags)
}

/// The secondary object attribute memory after one sprite's four bytes are
/// copied in at `si`: the attribute byte's unused bits are reworked to mark
/// whether the copy is sprite zero.
pub open spec fn spec_sprite_copy(
    secondary: Seq<u8>,
    oam: Seq<u8>,
    si: int,
    ei: int,
) -> Seq<u8> {
    let attributes = if ei == 0 {
        oam[ei + 2] | SPRITE_ATTR_SPRITE_ZERO
    } else {
        oam[ei + 2] & 0xe3
    };
    secondary.update(si, oam[ei]).update(si + 1, oam[ei + 1]).update(si + 2, attributes).update(
        si + 3,
        oam[ei + 3],
    )
}

/// One even dot of the sprite evaluation in dots 65 through 256: the sprite
/// under the evaluation index is copied into the secondary memory if it
/// falls on the scanline and a slot is free; once the eight slots are full,
/// a further sprite on the line sets the overflow bit, with the hardware's
/// off-by-one stagger of the search index. The result is the new secondary
/// memory, the two evaluation indices, the wrapped flag and the status.
pub open spec fn spec_sprite_evaluation_step(p: NesPpu) -> (Seq<u8>, u8, u8, bool, u8) {
    let ei: u8 = if p.cycle == 66 {
        0
    } else {
        p.sprite_evaluation_index
    };
    let si: u8 = if p.cycle == 66 {
        0
    } else {
        p.secondary_sprite_evaluation_index
    };
    let wrapped: bool = if p.cycle == 66 {
        false
    } else {
        p.sprite_evaluation_wrapped
    };
    let in_range = spec_sprite_in_range(p, ei as int);
    let mid: (Seq<u8>, u8, u8, bool, u8) = if !wrapped {
        if si < 32 {
            if in_range && si + 4 <= 32 && ei + 4 <= 256 {
                (
                    spec_sprite_copy(
                        p.secondary_object_attribute_memory@,
                        p.object_attribute_memory@,
                        si as int,
                        ei as int,
                    ),
                    ((si + 4) as u8),
                    ei,
                    wrapped,
                    p.status_flags,
                )
            } else {
                (p.secondary_object_attribute_memory@, si, ei, wrapped, p.status_flags)
            }
        } else if p.status_flags & PPU_STATUS_SPRITE_OVERFLOW == 0 {
            let status = if in_range {
                p.status_flags | PPU_STATUS_SPRITE_OVERFLOW
            } else {
                p.status_flags
            };
            (
                p.secondary_object_attribute_memory@,
                si,
                vstd::wrapping::u8_specs::wrapping_add(ei, 1),
                wrapped || ei + 1 > 255,
                status,
            )
        } else {
            (p.secondary_object_attribute_memory@, si, ei, wrapped, p.status_flags)
        }
    } else {
        (p.secondary_object_attribute_memory@, si, ei, wrapped, p.status_flags)
    };
    (
        mid.0,
        mid.1,
        vstd::wrapping::u8_specs::wrapping_add(mid.2, 4),
        mid.3 || mid.2 + 4 > 255,
        mid.4,
    )
}

/// A byte with its bits reversed, bit 0 landing in bit 7.
pub open spec fn spec_reverse_byte(b: u8) -> u8 {
    ((b >> 7) & 1) | (((b >> 6) & 1) << 1) | (((b >> 5) & 1) << 2) | (((b >> 4) & 1) << 3) | (((b
        >> 3) & 1) << 4) | (((b >> 2) & 1) << 5) | (((b >> 1) & 1) << 6) | ((b & 1) << 7)
}

/// Relies on bit_reverse's BitwiseReverse::swap_bits for u8: it reverses the
/// order of the eight bits, bit i moving to bit 7 - i, which is exactly
/// `spec_reverse_byte`.
#[verifier::external_body]
fn reverse_byte(b: u8) -> (result: u8)
    ensures
        result == spec_reverse_byte(b),
{
    b.swap_bits()
}

/// The pattern table address the next sprite row is fetched from.
pub open spec fn spec_sprite_pattern_address(p: NesPpu, si: int) -> u16 {
    let secondary = p.secondary_object_attribute_memory@;
    let sprite_y = secondary[si];
    let pattern_id = secondary[si + 1] as u16;
    let attributes = secondary[si + 2];
    let raw_row = (p.scanline - sprite_y) as u16;
    let row = if attributes & SPRITE_ATTR_VERTICAL_MIRROR != 0 {
        (7 - (raw_row & 0x07)) as u16
    } else {
        raw_row
    };
    if p.ctrl_flags & PPU_CTRL_SPRITE_HEIGHT == 0 {
        (if p.ctrl_flags & PPU_CTRL_SPRITE_SELECT != 0 {
            0x1000u16
        } else {
            0u16
        }) | (pattern_id << 4) | row
    } else {
        let tile_id = (raw_row >> 3) ^ ((attributes >> 7) as u16);
        ((pattern_id & 0x01) << 12) | ((((pattern_id & 0xfe) + tile_id) as u16) << 4) | (row & 0x07)
    }
}

/// The unit after one sprite slot is loaded for the coming scanline: the
/// slot's attributes, x offset (biased by one dot) and the two pattern
/// bytes, the latter bit-reversed for horizontally mirrored sprites. Slots
/// holding cleared bytes, and sprites above the scanline, load nothing.
pub open spec fn spec_load_foreground(p: NesPpu, cartridge: Cartridge) -> NesPpu {
    let si = p.secondary_sprite_evaluation_index as int;
    if si > 28 {
        p
    } else {
        let secondary = p.secondary_object_attribute_memory@;
        let sprite_y = secondary[si];
        if sprite_y == 0xff || sprite_y > p.scanline {
            p
        } else {
            let slot = si / 4;
            let attributes = secondary[si + 2];
            let address = spec_sprite_pattern_address(p, si);
            let raw_lo = spec_vram_read(p, cartridge, address);
            let raw_hi = spec_vram_read(p, cartridge, (address + 8) as u16);
            let lo = if attributes & SPRITE_ATTR_HORIZONTAL_MIRROR != 0 {
                spec_reverse_byte(raw_lo)
            } else {
                raw_lo
            };
            let hi = if attributes & SPRITE_ATTR_HORIZONTAL_MIRROR != 0 {
                spec_reverse_byte(raw_hi)
            } else {
                raw_hi
            };
            NesPpu {
                sprite_attributes: vstd::array::spec_array_update(
                    p.sprite_attributes,
                    slot,
                    attributes,
                ),
                sprite_x_offsets: vstd::array::spec_array_update(
                    p.sprite_x_offsets,
                    slot,
                    ((secondary[si + 3] as i16) + 1) as i16,
                ),
                sprite_shifters_lo: vstd::array::spec_array_update(p.sprite_shifters_lo, slot, lo),
                sprite_shifters_hi: vstd::array::spec_array_update(p.sprite_shifters_hi, slot, hi),
                ..p
            }
        }
    }
}

/// The pattern table address the next background tile row is fetched from.
pub open spec fn spec_bg_pattern_address(p: NesPpu) -> u16 {
    (if p.ctrl_flags & PPU_CTRL_BACKGROUND_SELECT != 0 {
        0x1000u16
    } else {
        0u16
    }) | ((p.nametable_id as u16) << 4) | (p.current_vram_address >> FINE_Y_OFFSET)
}

/// One dot of the eight-dot background fetch pipeline, keyed by the dot
/// modulo eight: reload and nametable fetch, attribute fetch, the two
/// pattern plane fetches, and the coarse x step.
pub open spec fn spec_select_next_background_tile(p: NesPpu, cartridge: Cartridge) -> NesPpu {
    let phase = p.cycle % 8;
    if phase == 1 {
        NesPpu {
            nametable_id: spec_vram_read(
                p,
                cartridge,
                0x2000 | (p.current_vram_address & 0x0fff),
            ),
            ..spec_reload_shifters(p)
        }
    } else if phase == 3 {
        NesPpu { attribute_latch: spec_attribute_entry(p, cartridge), ..p }
    } else if phase == 5 {
        NesPpu { pattern_latch_lo: spec_vram_read(p, cartridge, spec_bg_pattern_address(p)), ..p }
    } else if phase == 7 {
        NesPpu {
            pattern_latch_hi: spec_vram_read(
                p,
                cartridge,
                (spec_bg_pattern_address(p) + 8) as u16,
            ),
            ..p
        }
    } else if phase == 0 {
        NesPpu {
            current_vram_address: spec_coarse_x_increment_v(
                p.current_vram_address,
                p.mask_flags,
            ),
            ..p
        }
    } else {
        p
    }
}

impl NesPpu {
    /// Clears or fills the secondary object attribute memory and scans the
    /// primary one, as the dot within the scanline dictates.
    pub fn perform_sprite_evaluation(&mut self)
        requires
            old(self).wf(),
        ensures
            final(self).wf(),
            old(self).cycle == 1 ==> *final(self) == (NesPpu {
                secondary_sprite_evaluation_index: 0,
                ..*old(self)
            }),
            (2 <= old(self).cycle <= 64 && old(self).cycle % 2 == 0) ==> (
            if old(self).secondary_sprite_evaluation_index < 32 {
                *final(self) == (NesPpu {
                    secondary_object_attribute_memory: final(self).secondary_object_attribute_memory,
                    secondary_sprite_evaluation_index: (((old(self).secondary_sprite_evaluation_index + 1) as u8)),
                    ..*old(self)
                }) && final(self).secondary_object_attribute_memory@ == old(self).secondary_object_attribute_memory@.update(
                    old(self).secondary_sprite_evaluation_index as int,
                    spec_oam_read(*old(self)),
                )
            } else {
                *final(self) == *old(self)
            }),
            (3 <= old(self).cycle <= 63 && old(self).cycle % 2 == 1) ==> *final(self) == *old(self),
            (65 <= old(self).cycle <= 256 && old(self).cycle % 2 == 0) ==> ({
                let step = spec_sprite_evaluation_step(*old(self));
                &&& *final(self) == (NesPpu {
                    secondary_object_attribute_memory: final(self).secondary_object_attribute_memory,
                    secondary_sprite_evaluation_index: step.1,
                    sprite_evaluation_index: step.2,
                    sprite_evaluation_wrapped: step.3,
                    status_flags: step.4,
                    ..*old(self)
                })
                &&& final(self).secondary_object_attribute_memory@ == step.0
            }),
            (65 <= old(self).cycle <= 256 && old(self).cycle % 2 == 1) ==> *final(self) == *old(self),
            (old(self).cycle == 0 || old(self).cycle > 256) ==> *final(self) == *old(self),
    {
        if self.cycle >= 1 && self.cycle <= 64 {
            if self.cycle == 1 {
                self.secondary_sprite_evaluation_index = 0;
            } else if self.cycle % 2 == 0 {
                if self.secondary_sprite_evaluation_index < 32 {
                    let value = self.oam_read();
                    let index = self.secondary_sprite_evaluation_index as usize;
                    self.secondary_object_attribute_memory.set(index, value);
                    self.secondary_sprite_evaluation_index = self.secondary_sprite_evaluation_index
                        + 1;
                }
            }
        } else if self.cycle >= 65 && self.cycle <= 256 && self.cycle % 2 == 0 {
            if self.cycle == 66 {
                self.sprite_evaluation_index = 0;
                self.secondary_sprite_evaluation_index = 0;
                self.sprite_evaluation_wrapped = false;
            }
            let sprite_y = self.object_attribute_memory[self.sprite_evaluation_index as usize]
                as u16;
            let sprite_height: u16 = if self.ctrl_flags & PPU_CTRL_SPRITE_HEIGHT != 0 {
                16
            } else {
                8
            };
            if !self.sprite_evaluation_wrapped {
                if self.secondary_sprite_evaluation_index < 32 {
                    if self.scanline >= sprite_y && self.scanline - sprite_y < sprite_height
                        && self.secondary_sprite_evaluation_index + 4 <= 32
                        && self.sprite_evaluation_index as u16 + 4 <= 256 {
                        let ei = self.sprite_evaluation_index as usize;
                        let si = self.secondary_sprite_evaluation_index as usize;
                        let byte_0 = self.object_attribute_memory[ei];
                        let byte_1 = self.object_attribute_memory[ei + 1];
                        let byte_2 = self.object_attribute_memory[ei + 2];
                        let byte_3 = self.object_attribute_memory[ei + 3];
                        let attributes = if self.sprite_evaluation_index == 0 {
                            byte_2 | SPRITE_ATTR_SPRITE_ZERO
                        } else {
                            byte_2 & 0xe3
                        };
                        self.secondary_object_attribute_memory.set(si, byte_0);
                        self.secondary_object_attribute_memory.set(si + 1, byte_1);
                        self.secondary_object_attribute_memory.set(si + 2, attributes);
                        self.secondary_object_attribute_memory.set(si + 3, byte_3);
                        self.secondary_sprite_evaluation_index = self
                            .secondary_sprite_evaluation_index + 4;
                        proof {
                            assert(self.secondary_object_attribute_memory@ =~= spec_sprite_copy(
                                old(self).secondary_object_attribute_memory@,
                                old(self).object_attribute_memory@,
                                si as int,
                                ei as int,
                            ));
                        }
                    }
                } else if self.status_flags & PPU_STATUS_SPRITE_OVERFLOW == 0 {
                    if self.scanline >= sprite_y && self.scanline - sprite_y < sprite_height {
                        self.status_flags = self.status_flags | PPU_STATUS_SPRITE_OVERFLOW;
                    }
                    let carried = self.sprite_evaluation_index > 254;
                    self.sprite_evaluation_index = self.sprite_evaluation_index.wrapping_add(1);
                    self.sprite_evaluation_wrapped = self.sprite_evaluation_wrapped || carried;
                }
            }
            let carried = self.sprite_evaluation_index > 251;
            self.sprite_evaluation_index = self.sprite_evaluation_index.wrapping_add(4);
            self.sprite_evaluation_wrapped = self.sprite_evaluation_wrapped || carried;
        }
    }

    /// Loads one secondary memory slot into the sprite shifters for the
    /// coming scanline.
    pub fn load_foregroud_shifters(&mut self, cartridge: &mut Cartridge)
        requires
            old(self).wf(),
        ensures
            final(self).wf(),
            *final(cartridge) == *old(cartridge),
            *final(self) == spec_load_foreground(*old(self), *old(cartridge)),
    {
        if self.secondary_sprite_evaluation_index > 28 {
            return ;
        }
        let si = self.secondary_sprite_evaluation_index as usize;
        let sprite_y = self.secondary_object_attribute_memory[si];
        if sprite_y == 0xff || sprite_y as u16 > self.scanline {
            return ;
        }
        let slot = si / 4;
        let pattern_id = self.secondary_object_attribute_memory[si + 1] as u16;
        let attributes = self.secondary_object_attribute_memory[si + 2];
        let x_position = self.secondary_object_attribute_memory[si + 3];
        let raw_row = self.scanline - sprite_y as u16;
        proof {
            assert((raw_row & 0x07) <= 7) by (bit_vector);
        }
        let row = if attributes & SPRITE_ATTR_VERTICAL_MIRROR != 0 {
            7 - (raw_row & 0x07)
        } else {
            raw_row
        };
        let tile_id = (raw_row >> 3) ^ ((attributes >> 7) as u16);
        proof {
            assert(tile_id <= 0x3f && (pattern_id & 0xfe) <= 0xfe) by (bit_vector)
                requires
                    raw_row <= 261,
                    tile_id == (raw_row >> 3) ^ ((attributes >> 7) as u16),
                    pattern_id <= 0xff,
            ;
        }
        let wide_tile = (pattern_id & 0xfe) + tile_id;
        proof {
            assert((0x1000u16 | (pattern_id << 4) | row) + 8 < 0x4000) by (bit_vector)
                requires
                    pattern_id <= 0xff,
                    row <= 0x105,
            ;
            assert((0u16 | (pattern_id << 4) | row) + 8 < 0x4000) by (bit_vector)
                requires
                    pattern_id <= 0xff,
                    row <= 0x105,
            ;
            assert((((pattern_id & 0x01) << 12) | (wide_tile << 4) | (row & 0x07)) + 8 < 0x4000)
                by (bit_vector)
                requires
                    wide_tile <= 0x13d,
            ;
        }
        let address: u16 = if self.ctrl_flags & PPU_CTRL_SPRITE_HEIGHT == 0 {
            (if self.ctrl_flags & PPU_CTRL_SPRITE_SELECT != 0 {
                0x1000u16
            } else {
                0u16
            }) | (pattern_id << 4) | row
        } else {
            ((pattern_id & 0x01) << 12) | (wide_tile << 4) | (row & 0x07)
        };
        let raw_lo = self.vram_read(address, cartridge);
        let raw_hi = self.vram_read(address + 8, cartridge);
        let (lo, hi) = if attributes & SPRITE_ATTR_HORIZONTAL_MIRROR != 0 {
            (reverse_byte(raw_lo), reverse_byte(raw_hi))
        } else {
            (raw_lo, raw_hi)
        };
        self.sprite_attributes[slot] = attributes;
        self.sprite_x_offsets[slot] = x_position as i16 + 1;
        self.sprite_shifters_lo[slot] = lo;
        self.sprite_shifters_hi[slot] = hi;
    }

    /// One dot of the background fetch pipeline.
    pub fn select_next_background_tile(&mut self, cartridge: &mut Cartridge)
        requires
            old(self).wf(),
        ensures
            final(self).wf(),
            *final(cartridge) == *old(cartridge),
            *final(self) == spec_select_next_background_tile(*old(self), *old(cartridge)),
    {
        let phase = self.cycle % 8;
        if phase == 1 {
            self.reload_shifters();
            proof {
                let v = self.current_vram_address;
                assert((0x2000u16 | (v & 0x0fff)) < 0x4000) by (bit_vector);
            }
            let address = 0x2000 | (self.current_vram_address & 0x0fff);
            self.nametable_id = self.vram_read(address, cartridge);
        } else if phase == 3 {
            self.attribute_latch = self.read_attribute_table_byte(cartridge);
        } else if phase == 5 || phase == 7 {
            let nametable_id = self.nametable_id as u16;
            proof {
                let v = self.current_vram_address;
                assert(((0x1000u16 | (nametable_id << 4) | (v >> FINE_Y_OFFSET)) + 8) < 0x4000 && (
                (0u16 | (nametable_id << 4) | (v >> FINE_Y_OFFSET)) + 8) < 0x4000) by (bit_vector)
                    requires
                        nametable_id <= 0xff,
                ;
            }
            let address = (if self.ctrl_flags & PPU_CTRL_BACKGROUND_SELECT != 0 {
                0x1000u16
            } else {
                0u16
            }) | (nametable_id << 4) | (self.current_vram_address >> FINE_Y_OFFSET);
            if phase == 5 {
                self.pattern_latch_lo = self.vram_read(address, cartridge);
            } else {
                self.pattern_latch_hi = self.vram_read(address + 8, cartridge);
            }
        } else if phase == 0 {
            self.coarse_x_increment();
        }
    }
}

/// The dot a unit's clock stands at, counted from the top of the frame.
pub open spec fn spec_dot(p: NesPpu) -> int {
    (p.scanline as int) * 341 + p.cycle
}

/// How many dots a frame has: 262 scanlines of 341 dots, except that every
/// other frame drops the last dot of its pre-render scanline.
pub open spec fn spec_frame_len(frame_count: u64) -> int {
    if frame_count % 2 == 0 {
        89342
    } else {
        89341
    }
}

/// Whether this dot makes the mapper's scanline-counter hook fire: on dot
/// 260 of a rendered visible scanline when sprites read the second pattern
/// table, and on dot 324 when the background does. This stands in for the
/// MMC3's detection of the rising pattern-table address line.
pub open spec fn spec_a12_hook(p: NesPpu) -> bool {
    p.scanline <= 239 && p.mask_flags & (PPU_MASK_BACKGROUND_ENABLE | PPU_MASK_SPRITE_ENABLE) != 0
        && ((p.cycle == 260 && p.ctrl_flags & PPU_CTRL_SPRITE_SELECT != 0) || (p.cycle == 324
        && p.ctrl_flags & PPU_CTRL_BACKGROUND_SELECT != 0))
}

/// Odd-frame cycle skip: two adjacent frames always add up to 178683 master
/// dots, one of 89342 and one of 89341, whichever order the frame counter
/// puts them in.
pub proof fn lemma_adjacent_frame_dots(frame_count: u64)
    ensures
        spec_frame_len(frame_count) + spec_frame_len(
            vstd::wrapping::u64_specs::wrapping_add(frame_count, 1),
        ) == 178683,
{
}

impl NesPpu {
    /// One master tick of the picture processing unit: the dot advances by
    /// one, wrapping through the frame cadence of 89342 and 89341 dots; a
    /// visible dot draws one pixel; dot 1 of scanline 241 raises the
    /// vertical blank (and the returned interrupt request when enabled); dot
    /// 1 of the pre-render scanline clears the status bits; and the mapper's
    /// scanline hook fires at its two dots. The unit's memories, the
    /// CPU-facing registers and the scroll setup are otherwise untouched.
    #[verifier::rlimit(100)]
    pub fn cycle(&mut self, cartridge: &mut Cartridge) -> (nmi: bool)
        requires
            old(self).wf(),
        ensures
            final(self).wf(),
            nmi == (old(self).scanline == 241 && old(self).cycle == 1 && old(self).ctrl_flags
                & PPU_CTRL_NMI_ENABLE != 0),
            (old(self).scanline == 241 && old(self).cycle == 1) ==> final(self).status_flags == (
            old(self).status_flags | PPU_STATUS_VERTICAL_BLANK),
            (old(self).scanline == 261 && old(self).cycle == 1) ==> final(self).status_flags == 0,
            ((old(self).scanline <= 239 || old(self).scanline == 261) && old(self).cycle == 256)
                ==> final(self).current_vram_address == crate::ppu::spec_y_increment_v(
                crate::ppu::spec_coarse_x_increment_v(
                    old(self).current_vram_address,
                    old(self).mask_flags,
                ),
                old(self).mask_flags,
            ),
            ((old(self).scanline <= 239 || old(self).scanline == 261) && old(self).cycle == 257
                && old(self).mask_flags & (PPU_MASK_BACKGROUND_ENABLE | PPU_MASK_SPRITE_ENABLE)
                != 0) ==> final(self).current_vram_address == ((old(self).current_vram_address
                & 0xfbe0) | (old(self).temporary_vram_address & 0x041f)),
            (old(self).scanline == 261 && 280 <= old(self).cycle <= 304 && old(self).mask_flags & (
            PPU_MASK_BACKGROUND_ENABLE | PPU_MASK_SPRITE_ENABLE) != 0) ==> final(self).current_vram_address == ((old(self).current_vram_address & 0x841f) | (old(self).temporary_vram_address & 0x7be0)),
            spec_dot(*old(self)) < spec_frame_len(old(self).frame_count) - 1 ==> (spec_dot(
                *final(self),
            ) == spec_dot(*old(self)) + 1 && final(self).frame_count == old(self).frame_count),
            spec_dot(*old(self)) >= spec_frame_len(old(self).frame_count) - 1 ==> (final(self).scanline == 0 && final(self).cycle == 0 && final(self).frame_count
                == vstd::wrapping::u64_specs::wrapping_add(old(self).frame_count, 1)),
            final(self).palette_ram@ == old(self).palette_ram@,
            final(self).name_table@ == old(self).name_table@,
            final(self).object_attribute_memory@ == old(self).object_attribute_memory@,
            final(self).oam_address == old(self).oam_address,
            final(self).read_buffer == old(self).read_buffer,
            final(self).ctrl_flags == old(self).ctrl_flags,
            final(self).mask_flags == old(self).mask_flags,
            final(self).temporary_vram_address == old(self).temporary_vram_address,
            final(self).fine_x_scroll == old(self).fine_x_scroll,
            final(self).write_latch == old(self).write_latch,
            final(cartridge).program_rom@ == old(cartridge).program_rom@,
            final(cartridge).program_ram@ == old(cartridge).program_ram@,
            final(cartridge).character_ram@ == old(cartridge).character_ram@,
            final(cartridge).mirroring == old(cartridge).mirroring,
            final(cartridge).trainer_data@ == old(cartridge).trainer_data@,
            spec_a12_hook(*old(self)) ==> ((old(cartridge).mapper matches crate::mapper::Mapper::Mmc3(
                s,
            ) ==> final(cartridge).mapper == crate::mapper::Mapper::Mmc3(
                crate::mapper::spec_mmc3_end_of_scanline(s),
            )) && (!(old(cartridge).mapper is Mmc3) ==> final(cartridge).mapper == old(cartridge).mapper)),
            !spec_a12_hook(*old(self)) ==> final(cartridge).mapper == old(cartridge).mapper,
            (old(self).scanline <= 239 && 1 <= old(self).cycle <= 256) ==> (forall|j: int|
                0 <= j < 61440 && j != (old(self).scanline as int) * 256 + old(self).cycle - 1
                    ==> final(self).screen_buffer@[j] == old(self).screen_buffer@[j]),
            !(old(self).scanline <= 239 && 1 <= old(self).cycle <= 256) ==> final(self).screen_buffer@ == old(self).screen_buffer@,
    {
        let mut nmi = false;
        if self.scanline == 261 || self.scanline <= 239 {
            if self.cycle == 0 {
                // The idle dot.
            } else if self.cycle <= 256 || (self.cycle >= 321 && self.cycle <= 336) {
                if self.mask_flags & PPU_MASK_BACKGROUND_ENABLE != 0 {
                    self.attribute_shifter_lo = self.attribute_shifter_lo << 1;
                    self.attribute_shifter_hi = self.attribute_shifter_hi << 1;
                    self.pattern_shifter_lo = self.pattern_shifter_lo << 1;
                    self.pattern_shifter_hi = self.pattern_shifter_hi << 1;
                }
                self.select_next_background_tile(cartridge);
                self.perform_sprite_evaluation();
                if self.cycle <= 256 && self.scanline != 261 {
                    self.draw_pixel(cartridge);
                }
                if self.scanline == 261 && self.cycle == 1 {
                    self.status_flags = 0;
                } else if self.cycle == 256 {
                    self.y_increment();
                }
                if self.cycle == 324 && self.scanline <= 239 && self.mask_flags & (
                PPU_MASK_BACKGROUND_ENABLE | PPU_MASK_SPRITE_ENABLE) != 0 && self.ctrl_flags
                    & PPU_CTRL_BACKGROUND_SELECT != 0 {
                    cartridge.end_of_scanline();
                }
            } else if self.cycle <= 320 {
                if self.cycle % 8 == 1 {
                    if self.cycle == 257 {
                        self.secondary_sprite_evaluation_index = 0;
                    }
                    self.load_foregroud_shifters(cartridge);
                    self.secondary_sprite_evaluation_index = self
                        .secondary_sprite_evaluation_index.wrapping_add(4);
                }
                if self.cycle == 257 && self.mask_flags & (PPU_MASK_BACKGROUND_ENABLE
                    | PPU_MASK_SPRITE_ENABLE) != 0 {
                    proof {
                        let v = self.current_vram_address;
                        let t = self.temporary_vram_address;
                        assert(v < 0x8000 ==> ((v & 0xfbe0) | (t & 0x041f)) < 0x8000)
                            by (bit_vector);
                    }
                    self.current_vram_address = (self.current_vram_address & 0xfbe0) | (
                    self.temporary_vram_address & 0x041f);
                }
                if self.cycle == 260 && self.scanline <= 239 && self.mask_flags & (
                PPU_MASK_BACKGROUND_ENABLE | PPU_MASK_SPRITE_ENABLE) != 0 && self.ctrl_flags
                    & PPU_CTRL_SPRITE_SELECT != 0 {
                    cartridge.end_of_scanline();
                }
                if self.cycle >= 280 && self.cycle <= 304 && self.scanline == 261
                    && self.mask_flags & (PPU_MASK_BACKGROUND_ENABLE | PPU_MASK_SPRITE_ENABLE)
                    != 0 {
                    proof {
                        let v = self.current_vram_address;
                        let t = self.temporary_vram_address;
                        assert((v < 0x8000 && t < 0x8000) ==> ((v & 0x841f) | (t & 0x7be0))
                            < 0x8000) by (bit_vector);
                    }
                    self.current_vram_address = (self.current_vram_address & 0x841f) | (
                    self.temporary_vram_address & 0x7be0);
                }
            } else {
                if self.cycle & 0x1 == 0 {
                    let _ = cartridge.character_read(0x00);
                }
            }
        } else if self.scanline == 241 {
            if self.cycle == 1 {
                self.status_flags = self.status_flags | PPU_STATUS_VERTICAL_BLANK;
                if self.ctrl_flags & PPU_CTRL_NMI_ENABLE != 0 {
                    nmi = true;
                }
            }
        }
        if self.scanline == 261 && (self.cycle == 340 || (self.cycle == 339 && self.frame_count % 2
            == 1)) {
            self.cycle = 0;
            self.scanline = 0;
            self.frame_count = self.frame_count.wrapping_add(1);
        } else if self.cycle == 340 {
            self.cycle = 0;
            self.scanline = self.scanline + 1;
        } else {
            self.cycle = self.cycle + 1;
        }
        nmi
    }
}

/// The colour of a palette entry, from the fixed 64-colour table.
pub fn nes_colour(entry: u8) -> (result: u32)
    ensures
        result == spec_colour(entry),
{
    proof {
        assert((entry & 0x3f) < 64) by (bit_vector);
    }
    NES_COLOUR_MAP[(entry & 0x3f) as usize]
}

} // verus!
