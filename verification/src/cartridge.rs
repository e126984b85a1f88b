//! Cartridges: the ROM image loader and the memory that a game brings along.

use vstd::prelude::*;

use crate::mapper::Mapper;
use crate::mapper::get_mapper;
use crate::mapper::spec_character_read;
use crate::mapper::spec_character_write;
use crate::mapper::spec_mirroring;
use crate::mapper::spec_mmc3_end_of_scanline;
use crate::mapper::spec_program_read;
use crate::mapper::spec_program_write;

verus! {

/// How the two physical kilobytes of nametable memory are laid over the
/// four-kilobyte nametable address range.
#[derive(Clone, Copy, PartialEq, Eq, Structural, Debug)]
pub enum Mirroring {
    Horizontal,
    Vertical,
    OneScreenLower,
    OneScreenUpper,
}

/// Everything that can go wrong while loading a ROM image.
#[derive(Clone, Copy, PartialEq, Eq, Structural, Debug)]
pub enum CartridgeError {
    /// The image names a mapper circuit this core does not implement.
    UnsupportedMapper(u16),
    /// The magic bytes at the start of the header are missing.
    InvalidRomFormat,
    /// The exponent size notation asks for more memory than can be addressed.
    RomTooLarge,
    /// The byte stream ends before the header-announced data does.
    TruncatedImage,
}

/// Bytes of program ROM a pair of header size bytes asks for. The NES 2.0
/// format adds a most-significant nibble, and reserves the nibble value 0xF
/// for an exponent notation: two to the power of the upper six bits of the
/// low byte, times an odd multiplier from its lower two bits.
pub open spec fn spec_rom_size(lsb: u8, msb: u8, bank_size: int, nes20: bool) -> int {
    if nes20 && msb == 0x0f {
        (1u64 << ((lsb >> 2) as u64)) * ((lsb & 0x03) * 2 + 1)
    } else if nes20 {
        (msb * 0x100 + lsb) * bank_size
    } else {
        lsb * bank_size
    }
}

/// Computes the number of bytes of memory that a ROM image header asks for,
/// from one of the two (LSB, MSB nibble) byte pairs it carries. Sizes beyond
/// what this machine can address are reported as too large a ROM.
pub fn calculate_rom_size(
    least_significant_byte: u8,
    most_significant_byte: u8,
    bank_size: usize,
    nes20: bool,
) -> (result: Result<usize, CartridgeError>)
    requires
        bank_size <= 0x100000,
    ensures
        spec_rom_size(
            least_significant_byte,
            most_significant_byte,
            bank_size as int,
            nes20,
        ) <= usize::MAX ==> result == Ok::<usize, CartridgeError>(
            spec_rom_size(
                least_significant_byte,
                most_significant_byte,
                bank_size as int,
                nes20,
            ) as usize,
        ),
        spec_rom_size(
            least_significant_byte,
            most_significant_byte,
            bank_size as int,
            nes20,
        ) > usize::MAX ==> result == Err::<usize, CartridgeError>(CartridgeError::RomTooLarge),
{
    if nes20 && most_significant_byte == 0x0f {
        proof {
            assert((least_significant_byte >> 2) < 64
                && (least_significant_byte & 0x03) <= 3) by (bit_vector);
        }
        let exponent = (least_significant_byte >> 2) as u64;
        let multiplier = ((least_significant_byte & 0x03) * 2 + 1) as u64;
        let base = 1u64 << exponent;
        proof {
            assert((base as u128) * (multiplier as u128) <= (u64::MAX as u128) * 7)
                by (nonlinear_arith)
                requires
                    base <= u64::MAX,
                    multiplier <= 7,
            ;
        }
        let total = (base as u128) * (multiplier as u128);
        if total <= usize::MAX as u128 {
            Ok(total as usize)
        } else {
            Err(CartridgeError::RomTooLarge)
        }
    } else {
        let mut banks = least_significant_byte as u64;
        if nes20 {
            banks = (most_significant_byte as u64) * 0x100 + banks;
        }
        proof {
            assert(banks * (bank_size as u64) <= 0xffffu64 * 0x100000) by (nonlinear_arith)
                requires
                    banks <= 0xffff,
                    bank_size <= 0x100000,
            ;
        }
        let total = banks * (bank_size as u64);
        if total <= usize::MAX as u64 {
            Ok(total as usize)
        } else {
            Err(CartridgeError::RomTooLarge)
        }
    }
}

/// A cartridge as the console sees it: the mapper circuit and the memories
/// it routes accesses into.
#[derive(Debug, Clone)]
pub struct Cartridge {
    /// The mapping circuit between the buses and the memories.
    pub mapper: Mapper,
    /// The optional 512-byte trainer block some images carry.
    pub trainer_data: Vec<u8>,
    /// The mirroring soldered into the cartridge.
    pub mirroring: Mirroring,
    /// Program ROM, immutable once loaded.
    pub program_rom: Vec<u8>,
    /// Program RAM; may be empty.
    pub program_ram: Vec<u8>,
    /// Character memory; kept writable so that character RAM cartridges and
    /// character ROM cartridges can be treated alike.
    pub character_ram: Vec<u8>,
}

/// Whether the stream begins with the magic bytes of a ROM image header.
pub open spec fn spec_magic_ok(data: Seq<u8>) -> bool {
    data[0] == 0x4e && data[1] == 0x45 && data[2] == 0x53 && data[3] == 0x1a
}

/// Whether the header flags name the NES 2.0 extension of the format.
pub open spec fn spec_nes2(data: Seq<u8>) -> bool {
    data[7] & 0x0c == 0x0c
}

/// The mapper number assembled from its three header fragments.
pub open spec fn spec_mapper_id(data: Seq<u8>) -> u16 {
    ((data[8] & 0x0f) as u16) << 8 | ((data[7] & 0xf0) as u16) | ((data[6] & 0xf0) as u16) >> 4
}

/// The nametable mirroring the header selects as the cartridge default.
pub open spec fn spec_header_mirroring(data: Seq<u8>) -> Mirroring {
    if data[6] & 0x01 != 0 {
        Mirroring::Vertical
    } else {
        Mirroring::Horizontal
    }
}

/// Whether a 512-byte trainer block precedes the program data.
pub open spec fn spec_trainer_present(data: Seq<u8>) -> bool {
    data[6] & 0x04 != 0
}

/// Bytes of program ROM the header asks for.
pub open spec fn spec_prg_size(data: Seq<u8>) -> int {
    spec_rom_size(data[4], data[9] & 0x0f, 0x4000, spec_nes2(data))
}

/// Bytes of character memory the header asks for.
pub open spec fn spec_chr_size(data: Seq<u8>) -> int {
    spec_rom_size(data[5], (data[9] & 0xf0) >> 4, 0x2000, spec_nes2(data))
}

/// Offset of the program data in the stream: past the header and, where one
/// is present, past the trainer block.
pub open spec fn spec_prg_start(data: Seq<u8>) -> int {
    if spec_trainer_present(data) {
        16int + 512
    } else {
        16int
    }
}

/// Whether a ROM image stream loads successfully.
pub open spec fn spec_load_ok(data: Seq<u8>) -> bool {
    &&& data.len() >= 16
    &&& spec_magic_ok(data)
    &&& spec_mapper_id(data) <= 4
    &&& spec_prg_size(data) <= usize::MAX
    &&& spec_chr_size(data) <= usize::MAX
    &&& data.len() >= spec_prg_start(data) + spec_prg_size(data) + spec_chr_size(data)
}

/// The error a failing load reports, in the order the stream is examined:
/// a short or unrecognisable header, an unknown mapper, an impossible size,
/// and data shorter than the header announced.
pub open spec fn spec_load_err(data: Seq<u8>) -> CartridgeError {
    if data.len() < 16 {
        CartridgeError::TruncatedImage
    } else if !spec_magic_ok(data) {
        CartridgeError::InvalidRomFormat
    } else if spec_mapper_id(data) > 4 {
        CartridgeError::UnsupportedMapper(spec_mapper_id(data))
    } else if spec_prg_size(data) > usize::MAX || spec_chr_size(data) > usize::MAX {
        CartridgeError::RomTooLarge
    } else {
        CartridgeError::TruncatedImage
    }
}

impl Cartridge {
    /// Read from the cartridge's program ROM/RAM through the mapper.
    pub fn program_read(&self, address: u16) -> (result: u8)
        ensures
            result == spec_program_read(self.mapper, self.program_rom@, self.program_ram@, address),
    {
        self.mapper.program_read(&self.program_rom, &self.program_ram, address)
    }

    /// Read from the cartridge's character ROM/RAM through the mapper.
    pub fn character_read(&self, address: u16) -> (result: u8)
        ensures
            result == spec_character_read(self.mapper, self.character_ram@, address),
    {
        self.mapper.character_read(&self.character_ram, address)
    }

    /// Write to the cartridge's program RAM, or to the mapper's own
    /// registers, through the mapper.
    pub fn program_write(&mut self, address: u16, data: u8)
        ensures
            final(self).mapper == spec_program_write(
                old(self).mapper,
                old(self).program_ram@,
                address,
                data,
            ).0,
            final(self).program_ram@ == spec_program_write(
                old(self).mapper,
                old(self).program_ram@,
                address,
                data,
            ).1,
            final(self).program_rom@ == old(self).program_rom@,
            final(self).character_ram@ == old(self).character_ram@,
            final(self).mirroring == old(self).mirroring,
            final(self).trainer_data@ == old(self).trainer_data@,
    {
        self.mapper.program_write(&mut self.program_ram, address, data)
    }

    /// Write to the cartridge's character RAM through the mapper.
    pub fn character_write(&mut self, address: u16, data: u8)
        ensures
            final(self).character_ram@ == spec_character_write(
                old(self).mapper,
                old(self).character_ram@,
                address,
                data,
            ),
            final(self).mapper == old(self).mapper,
            final(self).program_rom@ == old(self).program_rom@,
            final(self).program_ram@ == old(self).program_ram@,
            final(self).mirroring == old(self).mirroring,
            final(self).trainer_data@ == old(self).trainer_data@,
    {
        self.mapper.character_write(&mut self.character_ram, address, data)
    }

    /// The nametable mirroring in force: the mapper may override the
    /// cartridge's soldered default.
    pub fn get_mirroring(&mut self) -> (result: Mirroring)
        ensures
            *final(self) == *old(self),
            result == spec_mirroring(old(self).mapper, old(self).mirroring),
    {
        self.mapper.get_mirroring(self.mirroring)
    }

    /// Whether the mapper holds a pending interrupt request; asking
    /// consumes it.
    pub fn get_pending_interrupt_request(&mut self) -> (result: bool)
        ensures
            result == (old(self).mapper matches Mapper::Mmc3(s) && s.pending_interrupt_request),
            old(self).mapper matches Mapper::Mmc3(s) ==> final(self).mapper == Mapper::Mmc3(
                (crate::mapper::Mmc3 { pending_interrupt_request: false, ..s }),
            ),
            !(old(self).mapper is Mmc3) ==> final(self).mapper == old(self).mapper,
            final(self).program_rom@ == old(self).program_rom@,
            final(self).program_ram@ == old(self).program_ram@,
            final(self).character_ram@ == old(self).character_ram@,
            final(self).mirroring == old(self).mirroring,
            final(self).trainer_data@ == old(self).trainer_data@,
    {
        self.mapper.get_pending_interrupt_request()
    }

    /// Tells the mapper that a rendered scanline has ended.
    pub fn end_of_scanline(&mut self)
        ensures
            old(self).mapper matches Mapper::Mmc3(s) ==> final(self).mapper == Mapper::Mmc3(
                spec_mmc3_end_of_scanline(s),
            ),
            !(old(self).mapper is Mmc3) ==> final(self).mapper == old(self).mapper,
            final(self).program_rom@ == old(self).program_rom@,
            final(self).program_ram@ == old(self).program_ram@,
            final(self).character_ram@ == old(self).character_ram@,
            final(self).mirroring == old(self).mirroring,
            final(self).trainer_data@ == old(self).trainer_data@,
    {
        self.mapper.end_of_scanline()
    }

    /// Loads a cartridge from the bytes of a ROM image in the iNES or
    /// NES 2.0 format: a 16-byte header, an optional 512-byte trainer block,
    /// the program ROM, then the character data.
    pub fn load_from_reader(data: &Vec<u8>) -> (result: Result<Cartridge, CartridgeError>)
        ensures
            spec_load_ok(data@) ==> (result matches Ok(c) && {
                &&& c.mapper == crate::mapper::spec_power_on_mapper(spec_mapper_id(data@))
                &&& c.mirroring == spec_header_mirroring(data@)
                &&& c.trainer_data@ == (if spec_trainer_present(data@) {
                    data@.subrange(16, 16int + 512)
                } else {
                    Seq::new(512, |i: int| 0u8)
                })
                &&& c.program_rom@ == data@.subrange(
                    spec_prg_start(data@),
                    spec_prg_start(data@) + spec_prg_size(data@),
                )
                &&& c.program_ram@ == Seq::<u8>::empty()
                &&& c.character_ram@ == data@.subrange(
                    spec_prg_start(data@) + spec_prg_size(data@),
                    spec_prg_start(data@) + spec_prg_size(data@) + spec_chr_size(data@),
                )
            }),
            !spec_load_ok(data@) ==> result == Err::<Cartridge, CartridgeError>(
                spec_load_err(data@),
            ),
    {
        if data.len() < 16 {
            return Err(CartridgeError::TruncatedImage);
        }
        if !(data[0] == 0x4e && data[1] == 0x45 && data[2] == 0x53 && data[3] == 0x1a) {
            return Err(CartridgeError::InvalidRomFormat);
        }
        let nes2 = data[7] & 0x0c == 0x0c;
        let mapper_id = ((data[8] & 0x0f) as u16) << 8 | ((data[7] & 0xf0) as u16)
            | ((data[6] & 0xf0) as u16) >> 4;
        let mapper = match get_mapper(mapper_id, (data[8] & 0xf0) >> 4) {
            Ok(m) => m,
            Err(e) => {
                proof {
                    let d = data@;
                    assert(spec_mapper_id(d) <= 4 ==> false) by {
                        assert(mapper_id == spec_mapper_id(d));
                    }
                }
                return Err(e);
            },
        };
        let mirroring = if data[6] & 0x01 != 0 {
            Mirroring::Vertical
        } else {
            Mirroring::Horizontal
        };
        let program_rom_size = match calculate_rom_size(data[4], data[9] & 0x0f, 0x4000, nes2) {
            Ok(size) => size,
            Err(e) => { return Err(e); },
        };
        let character_rom_size = match calculate_rom_size(
            data[5],
            (data[9] & 0xf0) >> 4,
            0x2000,
            nes2,
        ) {
            Ok(size) => size,
            Err(e) => { return Err(e); },
        };
        let trainer_present = data[6] & 0x04 != 0;
        let mut offset: usize = 16;
        let trainer_data: Vec<u8>;
        if trainer_present {
            if data.len() - offset < 512 {
                return Err(CartridgeError::TruncatedImage);
            }
            trainer_data = copy_range(data, offset, 512);
            offset = offset + 512;
        } else {
            trainer_data = zero_vec(512);
        }
        if data.len() - offset < program_rom_size {
            return Err(CartridgeError::TruncatedImage);
        }
        let program_rom = copy_range(data, offset, program_rom_size);
        offset = offset + program_rom_size;
        if data.len() - offset < character_rom_size {
            return Err(CartridgeError::TruncatedImage);
        }
        let character_ram = copy_range(data, offset, character_rom_size);
        Ok(Cartridge {
            mapper,
            trainer_data,
            mirroring,
            program_rom,
            program_ram: Vec::new(),
            character_ram,
        })
    }
}

/// Copies `len` bytes of `data` starting at `start` into a fresh vector.
fn copy_range(data: &Vec<u8>, start: usize, len: usize) -> (result: Vec<u8>)
    requires
        start + len <= data.len(),
    ensures
        result@ == data@.subrange(start as int, start + len),
{
    let mut result: Vec<u8> = Vec::new();
    let mut i: usize = 0;
    while i < len
        invariant
            i <= len,
            start + len <= data.len(),
            result@ == data@.subrange(start as int, start + i),
        decreases len - i,
    {
        result.push(data[start + i]);
        proof {
            assert(result@ =~= data@.subrange(start as int, start + i + 1));
        }
        i = i + 1;
    }
    result
}

/// A vector of `len` zero bytes.
fn zero_vec(len: usize) -> (result: Vec<u8>)
    ensures
        result@ == Seq::new(len as nat, |i: int| 0u8),
{
    let mut result: Vec<u8> = Vec::new();
    let mut i: usize = 0;
    while i < len
        invariant
            i <= len,
            result@ == Seq::new(i as nat, |j: int| 0u8),
        decreases len - i,
    {
        result.push(0);
        proof {
            assert(result@ =~= Seq::new((i + 1) as nat, |j: int| 0u8));
        }
        i = i + 1;
    }
    result
}

} // verus!
