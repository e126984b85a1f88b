//! The mapping circuits that NES cartridges carry: they translate the
//! addresses the console puts on the bus into offsets in the cartridge's
//! program and character memory, and some of them hold switchable bank
//! registers or a scanline counter of their own.
//!
//! The iNES mappers 0 through 4 are supported.

use vstd::prelude::*;

use crate::cartridge::CartridgeError;
use crate::cartridge::Mirroring;

verus! {

broadcast use vstd::array::group_array_axioms;

/// State of the SxROM (MMC1) mapper circuit.
#[derive(Debug, Clone, Copy, PartialEq, Eq)]
pub struct Mmc1 {
    /// Serial five-bit shift register that collects configuration writes.
    pub load_register: u8,
    /// Selects the program and character banking modes and the mirroring.
    pub control_register: u8,
    /// Character bank for the lower (or whole) pattern table window.
    pub character_bank_0_register: u8,
    /// Character bank for the upper pattern table window.
    pub character_bank_1_register: u8,
    /// Program bank selector.
    pub program_bank_register: u8,
}

/// State of the UxROM mapper circuit.
#[derive(Debug, Clone, Copy, PartialEq, Eq)]
pub struct Uxrom {
    /// Selects the 16 KiB program bank mapped at 0x8000.
    pub bank_select: u8,
}

/// State of the CNROM mapper circuit.
#[derive(Debug, Clone, Copy, PartialEq, Eq)]
pub struct Cnrom {
    /// Selects the 8 KiB character bank.
    pub bank_select: u8,
}

/// State of the MMC3 mapper circuit.
#[derive(Debug, Clone, Copy, PartialEq, Eq)]
pub struct Mmc3 {
    /// Selects which bank register the next odd write fills, and the
    /// program (bit 6) and character (bit 7) layout modes.
    pub bank_control: u8,
    /// The eight bank registers.
    pub bank_select: [u8; 8],
    /// Mirroring selected through the mapper's own register.
    pub mirroring: Mirroring,
    /// Write protection for the program RAM window.
    pub program_ram_write_protect: bool,
    /// Whether the program RAM window responds at all.
    pub program_ram_enabled: bool,
    /// Counts scanlines down towards an interrupt request.
    pub scanline_counter: u8,
    /// Value the scanline counter is reloaded from.
    pub scanline_counter_reload: u8,
    /// Forces a reload of the scanline counter at the next scanline end.
    pub scanline_counter_reload_flag: bool,
    /// Whether a scanline counter expiry raises an interrupt request.
    pub interrupt_request_enabled: bool,
    /// An interrupt request that has been raised and not yet consumed.
    pub pending_interrupt_request: bool,
}

/// The mapping circuit in the cartridge, responsible for translating the
/// addresses provided by the console to the onboard memory.
#[derive(Debug, Clone, Copy, PartialEq, Eq)]
pub enum Mapper {
    /// NROM, iNES id 000: fixed mapping, no state.
    Nrom,
    /// SxROM, iNES id 001.
    Mmc1(Mmc1),
    /// UxROM, iNES id 002.
    Uxrom(Uxrom),
    /// CNROM, iNES id 003.
    Cnrom(Cnrom),
    /// The MMC3 boards, iNES id 004.
    Mmc3(Mmc3),
}

/// A read of `mem` at offset `index`, reduced modulo the length; an empty
/// memory reads as zero.
pub open spec fn spec_mem_read(mem: Seq<u8>, index: int) -> u8 {
    if mem.len() == 0 {
        0
    } else {
        mem[index % mem.len() as int]
    }
}

/// A write to `mem` at offset `index`, reduced modulo the length; an empty
/// memory swallows the write.
pub open spec fn spec_mem_write(mem: Seq<u8>, index: int, data: u8) -> Seq<u8> {
    if mem.len() == 0 {
        mem
    } else {
        mem.update(index % mem.len() as int, data)
    }
}

/// Byte offset of the last `bank_size`-byte bank of a memory of `len` bytes.
pub open spec fn spec_last_bank_base(len: int, bank_size: int) -> int {
    if len >= bank_size {
        (len / bank_size - 1) * bank_size
    } else {
        0
    }
}

/// Byte offset of the second-to-last `bank_size`-byte bank.
pub open spec fn spec_second_last_bank_base(len: int, bank_size: int) -> int {
    if len >= 2 * bank_size {
        (len / bank_size - 2) * bank_size
    } else {
        0
    }
}

/// A program-RAM read in the 0x6000..=0x7FFF window: modulo the RAM length,
/// or zero when the cartridge has none.
pub open spec fn spec_prg_ram_read(ram: Seq<u8>, address: u16) -> u8 {
    spec_mem_read(ram, address - 0x6000)
}

/// Offset into the program ROM that a read at `address` resolves to,
/// before the reduction modulo the ROM length.
pub open spec fn spec_prg_rom_offset(m: Mapper, rom_len: int, address: u16) -> int {
    match m {
        Mapper::Nrom => address - 0x8000,
        Mapper::Mmc1(s) => {
            let mode = (s.control_register >> 2) & 0x03;
            if mode == 0 || mode == 1 {
                (address & 0x7fff) + (s.program_bank_register & 0x0e) * 0x4000
            } else if mode == 2 {
                if address < 0xc000 {
                    (address & 0x3fff) as int
                } else {
                    (address & 0x3fff) + (s.program_bank_register & 0x0f) * 0x4000
                }
            } else {
                if address < 0xc000 {
                    (address & 0x3fff) + (s.program_bank_register & 0x0f) * 0x4000
                } else {
                    (address & 0x3fff) + spec_last_bank_base(rom_len, 0x4000)
                }
            }
        },
        Mapper::Uxrom(s) => {
            if address < 0xc000 {
                (address & 0x3fff) + s.bank_select * 0x4000
            } else {
                (address & 0x3fff) + spec_last_bank_base(rom_len, 0x4000)
            }
        },
        Mapper::Cnrom(_) => address - 0x8000,
        Mapper::Mmc3(s) => {
            let swap = s.bank_control & 0x40 != 0;
            if address < 0xa000 {
                if swap {
                    (address & 0x1fff) + spec_second_last_bank_base(rom_len, 0x2000)
                } else {
                    (address & 0x1fff) + s.bank_select[6] * 0x2000
                }
            } else if address < 0xc000 {
                (address & 0x1fff) + s.bank_select[7] * 0x2000
            } else if address < 0xe000 {
                if swap {
                    (address & 0x1fff) + s.bank_select[6] * 0x2000
                } else {
                    (address & 0x1fff) + spec_second_last_bank_base(rom_len, 0x2000)
                }
            } else {
                (address & 0x1fff) + spec_last_bank_base(rom_len, 0x2000)
            }
        },
    }
}

/// What a read of the program address space returns: zero below 0x6000,
/// program RAM up to 0x7FFF, and the mapped program ROM above.
pub open spec fn spec_program_read(m: Mapper, rom: Seq<u8>, ram: Seq<u8>, address: u16) -> u8 {
    if address < 0x6000 {
        0
    } else if address < 0x8000 {
        spec_prg_ram_read(ram, address)
    } else {
        spec_mem_read(rom, spec_prg_rom_offset(m, rom.len() as int, address))
    }
}

impl Mapper {
    /// Read from the cartridge's program ROM or RAM through the mapper.
    pub fn program_read(&self, program_rom: &Vec<u8>, program_ram: &Vec<u8>, address: u16) -> (result: u8)
        ensures
            result == spec_program_read(*self, program_rom@, program_ram@, address),
    {
        if address < 0x6000 {
            0
        } else if address < 0x8000 {
            mem_read(program_ram, (address - 0x6000) as usize)
        } else {
            let offset: usize = self.prg_rom_offset(program_rom.len(), address);
            mem_read(program_rom, offset)
        }
    }

    /// Offset into the program ROM that a read at `address` resolves to.
    fn prg_rom_offset(&self, rom_len: usize, address: u16) -> (offset: usize)
        requires
            0x8000 <= address,
        ensures
            offset == spec_prg_rom_offset(*self, rom_len as int, address),
    {
        match self {
            Mapper::Nrom => (address - 0x8000) as usize,
            Mapper::Mmc1(s) => {
                let mode = (s.control_register >> 2) & 0x03;
                let bank = s.program_bank_register;
                proof {
                    assert((bank & 0x0e) <= 0x0e && (bank & 0x0f) <= 0x0f
                        && (address & 0x7fff) <= 0x7fff
                        && (address & 0x3fff) <= 0x3fff) by (bit_vector);
                }
                if mode == 0 || mode == 1 {
                    (address & 0x7fff) as usize + (bank & 0x0e) as usize * 0x4000
                } else if mode == 2 {
                    if address < 0xc000 {
                        (address & 0x3fff) as usize
                    } else {
                        (address & 0x3fff) as usize + (bank & 0x0f) as usize * 0x4000
                    }
                } else {
                    if address < 0xc000 {
                        (address & 0x3fff) as usize + (bank & 0x0f) as usize * 0x4000
                    } else {
                        (address & 0x3fff) as usize + last_bank_base(rom_len, 0x4000)
                    }
                }
            },
            Mapper::Uxrom(s) => {
                proof {
                    assert((address & 0x3fff) <= 0x3fff) by (bit_vector);
                }
                if address < 0xc000 {
                    (address & 0x3fff) as usize + s.bank_select as usize * 0x4000
                } else {
                    (address & 0x3fff) as usize + last_bank_base(rom_len, 0x4000)
                }
            },
            Mapper::Cnrom(_) => (address - 0x8000) as usize,
            Mapper::Mmc3(s) => {
                let swap = s.bank_control & 0x40 != 0;
                proof {
                    assert((address & 0x1fff) <= 0x1fff) by (bit_vector);
                }
                if address < 0xa000 {
                    if swap {
                        (address & 0x1fff) as usize + second_last_bank_base(rom_len, 0x2000)
                    } else {
                        (address & 0x1fff) as usize + s.bank_select[6] as usize * 0x2000
                    }
                } else if address < 0xc000 {
                    (address & 0x1fff) as usize + s.bank_select[7] as usize * 0x2000
                } else if address < 0xe000 {
                    if swap {
                        (address & 0x1fff) as usize + s.bank_select[6] as usize * 0x2000
                    } else {
                        (address & 0x1fff) as usize + second_last_bank_base(rom_len, 0x2000)
                    }
                } else {
                    (address & 0x1fff) as usize + last_bank_base(rom_len, 0x2000)
                }
            },
        }
    }
}

/// Read of `mem` at `index` modulo its length; an empty memory reads as zero.
fn mem_read(mem: &Vec<u8>, index: usize) -> (result: u8)
    ensures
        result == spec_mem_read(mem@, index as int),
{
    if mem.len() == 0 {
        0
    } else {
        mem[index % mem.len()]
    }
}

/// Write to `mem` at `index` modulo its length; an empty memory swallows it.
fn mem_write(mem: &mut Vec<u8>, index: usize, data: u8)
    ensures
        final(mem)@ == spec_mem_write(old(mem)@, index as int, data),
{
    if mem.len() > 0 {
        let i = index % mem.len();
        mem.set(i, data);
    }
}

/// Byte offset of the last `bank_size`-byte bank of a `len`-byte memory.
fn last_bank_base(len: usize, bank_size: usize) -> (base: usize)
    requires
        bank_size >= 1,
    ensures
        base == spec_last_bank_base(len as int, bank_size as int),
{
    if len >= bank_size {
        proof {
            assert(len / bank_size >= 1 && (len / bank_size - 1) * bank_size <= len)
                by (nonlinear_arith)
                requires
                    len >= bank_size,
                    bank_size >= 1,
            ;
        }
        (len / bank_size - 1) * bank_size
    } else {
        0
    }
}

/// Byte offset of the second-to-last `bank_size`-byte bank.
fn second_last_bank_base(len: usize, bank_size: usize) -> (base: usize)
    requires
        bank_size >= 1,
        2 * bank_size <= usize::MAX,
    ensures
        base == spec_second_last_bank_base(len as int, bank_size as int),
{
    if len >= 2 * bank_size {
        proof {
            assert(len / bank_size >= 2 && (len / bank_size - 2) * bank_size <= len)
                by (nonlinear_arith)
                requires
                    len >= 2 * bank_size,
                    bank_size >= 1,
            ;
        }
        (len / bank_size - 2) * bank_size
    } else {
        0
    }
}

/// The state each supported mapper powers on in.
pub open spec fn spec_power_on_mapper(mapper_id: u16) -> Mapper {
    if mapper_id == 1 {
        Mapper::Mmc1(
            Mmc1 {
                load_register: 0x10,
                control_register: 0x1c,
                character_bank_0_register: 0,
                character_bank_1_register: 0,
                program_bank_register: 0,
            },
        )
    } else if mapper_id == 2 {
        Mapper::Uxrom(Uxrom { bank_select: 0 })
    } else if mapper_id == 3 {
        Mapper::Cnrom(Cnrom { bank_select: 0 })
    } else if mapper_id == 4 {
        Mapper::Mmc3(
            Mmc3 {
                bank_control: 0,
                bank_select: [0u8, 0u8, 0u8, 0u8, 0u8, 0u8, 0u8, 0u8],
                mirroring: Mirroring::Horizontal,
                program_ram_write_protect: false,
                program_ram_enabled: false,
                scanline_counter: 0,
                scanline_counter_reload: 0,
                scanline_counter_reload_flag: false,
                interrupt_request_enabled: false,
                pending_interrupt_request: false,
            },
        )
    } else {
        Mapper::Nrom
    }
}

/// Builds the mapper that a ROM image's header names, in its power-on state.
pub fn get_mapper(mapper_id: u16, submapper_id: u8) -> (result: Result<Mapper, CartridgeError>)
    ensures
        mapper_id <= 4 ==> result == Ok::<Mapper, CartridgeError>(spec_power_on_mapper(mapper_id)),
        mapper_id > 4 ==> result == Err::<Mapper, CartridgeError>(
            CartridgeError::UnsupportedMapper(mapper_id),
        ),
{
    let _ = submapper_id;
    match mapper_id {
        0 => Ok(Mapper::Nrom),
        1 => Ok(Mapper::Mmc1(Mmc1 {
            load_register: 0x10,
            control_register: 0x1c,
            character_bank_0_register: 0,
            character_bank_1_register: 0,
            program_bank_register: 0,
        })),
        2 => Ok(Mapper::Uxrom(Uxrom { bank_select: 0 })),
        3 => Ok(Mapper::Cnrom(Cnrom { bank_select: 0 })),
        4 => Ok(Mapper::Mmc3(Mmc3 {
            bank_control: 0,
            bank_select: [0u8, 0u8, 0u8, 0u8, 0u8, 0u8, 0u8, 0u8],
            mirroring: Mirroring::Horizontal,
            program_ram_write_protect: false,
            program_ram_enabled: false,
            scanline_counter: 0,
            scanline_counter_reload: 0,
            scanline_counter_reload_flag: false,
            interrupt_request_enabled: false,
            pending_interrupt_request: false,
        })),
        _ => Err(CartridgeError::UnsupportedMapper(mapper_id)),
    }
}

/// Offset into the character memory that an access at `address` resolves to,
/// before the reduction modulo the memory length. Reads and writes share it.
pub open spec fn spec_chr_offset(m: Mapper, address: u16) -> int {
    match m {
        Mapper::Nrom => address as int,
        Mapper::Mmc1(s) => {
            if s.control_register & 0x10 == 0 {
                (address & 0x1fff) + (s.character_bank_0_register & 0x1e) * 0x1000
            } else if address & 0x1fff < 0x1000 {
                (address & 0x0fff) + s.character_bank_0_register * 0x1000
            } else {
                (address & 0x0fff) + s.character_bank_1_register * 0x1000
            }
        },
        Mapper::Uxrom(_) => address as int,
        Mapper::Cnrom(s) => (address & 0x1fff) + s.bank_select * 0x2000,
        Mapper::Mmc3(s) => {
            let a = address & 0x1fff;
            if s.bank_control & 0x80 == 0 {
                if a < 0x0800 {
                    (a & 0x07ff) + s.bank_select[0] * 0x0400
                } else if a < 0x1000 {
                    (a & 0x07ff) + s.bank_select[1] * 0x0400
                } else if a < 0x1400 {
                    (a & 0x03ff) + s.bank_select[2] * 0x0400
                } else if a < 0x1800 {
                    (a & 0x03ff) + s.bank_select[3] * 0x0400
                } else if a < 0x1c00 {
                    (a & 0x03ff) + s.bank_select[4] * 0x0400
                } else {
                    (a & 0x03ff) + s.bank_select[5] * 0x0400
                }
            } else {
                if a < 0x0400 {
                    (a & 0x03ff) + s.bank_select[2] * 0x0400
                } else if a < 0x0800 {
                    (a & 0x03ff) + s.bank_select[3] * 0x0400
                } else if a < 0x0c00 {
                    (a & 0x03ff) + s.bank_select[4] * 0x0400
                } else if a < 0x1000 {
                    (a & 0x03ff) + s.bank_select[5] * 0x0400
                } else if a < 0x1800 {
                    (a & 0x07ff) + s.bank_select[0] * 0x0400
                } else {
                    (a & 0x07ff) + s.bank_select[1] * 0x0400
                }
            }
        },
    }
}

/// What a read of the character memory returns through the mapper.
pub open spec fn spec_character_read(m: Mapper, chr: Seq<u8>, address: u16) -> u8 {
    spec_mem_read(chr, spec_chr_offset(m, address))
}

/// The character memory after a write through the mapper.
pub open spec fn spec_character_write(m: Mapper, chr: Seq<u8>, address: u16, data: u8) -> Seq<u8> {
    spec_mem_write(chr, spec_chr_offset(m, address), data)
}

/// MMC1 after a configuration write at 0x8000..=0xFFFF: a bit is shifted into
/// the serial load register, and the fifth bit in a row fills one of the four
/// destination registers picked by address bits 13 and 14.
pub open spec fn spec_mmc1_register_write(s: Mmc1, address: u16, data: u8) -> Mmc1 {
    if data & 0x80 != 0 {
        Mmc1 { load_register: 0x10, ..s }
    } else {
        let loaded = (s.load_register >> 1) | ((data & 1) << 4);
        if s.load_register & 1 == 1 {
            let reset = Mmc1 { load_register: 0x10, ..s };
            if address & 0x6000 == 0x0000 {
                Mmc1 { control_register: loaded, ..reset }
            } else if address & 0x6000 == 0x2000 {
                Mmc1 { character_bank_0_register: loaded, ..reset }
            } else if address & 0x6000 == 0x4000 {
                Mmc1 { character_bank_1_register: loaded, ..reset }
            } else {
                Mmc1 { program_bank_register: loaded, ..reset }
            }
        } else {
            Mmc1 { load_register: loaded, ..s }
        }
    }
}

/// MMC3 after a configuration write at 0x8000..=0xFFFF: four address windows
/// times the even/odd address bit select among eight registers.
pub open spec fn spec_mmc3_register_write(s: Mmc3, address: u16, data: u8) -> Mmc3 {
    let odd = address & 0x01 == 1;
    if address < 0xa000 {
        if odd {
            Mmc3 {
                bank_select: vstd::array::spec_array_update(
                    s.bank_select,
                    (s.bank_control & 0x07) as int,
                    data,
                ),
                ..s
            }
        } else {
            Mmc3 { bank_control: data, ..s }
        }
    } else if address < 0xc000 {
        if odd {
            Mmc3 {
                program_ram_write_protect: data & 0x40 > 0,
                program_ram_enabled: data & 0x80 > 0,
                ..s
            }
        } else {
            Mmc3 {
                mirroring: if data & 0x01 > 0 {
                    Mirroring::Horizontal
                } else {
                    Mirroring::Vertical
                },
                ..s
            }
        }
    } else if address < 0xe000 {
        if odd {
            Mmc3 { scanline_counter: s.scanline_counter_reload, scanline_counter_reload_flag: true, ..s }
        } else {
            Mmc3 { scanline_counter_reload: data, ..s }
        }
    } else {
        if odd {
            Mmc3 { interrupt_request_enabled: true, ..s }
        } else {
            Mmc3 { interrupt_request_enabled: false, pending_interrupt_request: false, ..s }
        }
    }
}

/// The mapper and the program RAM after a write to the program address space:
/// below 0x6000 nothing listens, up to 0x7FFF the RAM takes the byte, and
/// above that the write configures the mapper itself.
pub open spec fn spec_program_write(m: Mapper, ram: Seq<u8>, address: u16, data: u8) -> (Mapper, Seq<u8>) {
    if address < 0x6000 {
        (m, ram)
    } else if address < 0x8000 {
        (m, spec_mem_write(ram, address - 0x6000, data))
    } else {
        let updated = match m {
            Mapper::Nrom => m,
            Mapper::Mmc1(s) => Mapper::Mmc1(spec_mmc1_register_write(s, address, data)),
            Mapper::Uxrom(_) => Mapper::Uxrom(Uxrom { bank_select: data & 0x0f }),
            Mapper::Cnrom(_) => Mapper::Cnrom(Cnrom { bank_select: data & 0x03 }),
            Mapper::Mmc3(s) => Mapper::Mmc3(spec_mmc3_register_write(s, address, data)),
        };
        (updated, ram)
    }
}

/// The mirroring a mapper reports, given the cartridge's soldered default.
pub open spec fn spec_mirroring(m: Mapper, cartridge_default: Mirroring) -> Mirroring {
    match m {
        Mapper::Mmc1(s) => {
            if s.control_register & 0x03 == 0 {
                Mirroring::OneScreenLower
            } else if s.control_register & 0x03 == 1 {
                Mirroring::OneScreenUpper
            } else if s.control_register & 0x03 == 2 {
                Mirroring::Vertical
            } else {
                Mirroring::Horizontal
            }
        },
        Mapper::Mmc3(s) => s.mirroring,
        _ => cartridge_default,
    }
}

/// The MMC3 at the end of a scanline: the counter counts down or reloads,
/// and an expiry with interrupts enabled latches a pending request.
pub open spec fn spec_mmc3_end_of_scanline(s: Mmc3) -> Mmc3 {
    let pending = s.pending_interrupt_request
        || (s.scanline_counter == 0 && s.interrupt_request_enabled);
    if s.scanline_counter == 0 || s.scanline_counter_reload_flag {
        Mmc3 {
            pending_interrupt_request: pending,
            scanline_counter: s.scanline_counter_reload,
            scanline_counter_reload_flag: false,
            ..s
        }
    } else {
        Mmc3 {
            pending_interrupt_request: pending,
            scanline_counter: (s.scanline_counter - 1) as u8,
            ..s
        }
    }
}

impl Mapper {
    /// Read from the cartridge's character ROM/RAM through the mapper.
    pub fn character_read(&self, character_ram: &Vec<u8>, address: u16) -> (result: u8)
        ensures
            result == spec_character_read(*self, character_ram@, address),
    {
        let offset = self.chr_offset(address);
        mem_read(character_ram, offset)
    }

    /// Write to the cartridge's character RAM through the mapper.
    pub fn character_write(&mut self, character_ram: &mut Vec<u8>, address: u16, data: u8)
        ensures
            *final(self) == *old(self),
            final(character_ram)@ == spec_character_write(
                *old(self),
                old(character_ram)@,
                address,
                data,
            ),
    {
        let offset = self.chr_offset(address);
        mem_write(character_ram, offset, data);
    }

    /// Offset into the character memory that an access at `address` resolves to.
    fn chr_offset(&self, address: u16) -> (offset: usize)
        ensures
            offset == spec_chr_offset(*self, address),
    {
        match self {
            Mapper::Nrom => address as usize,
            Mapper::Mmc1(s) => {
                let bank0 = s.character_bank_0_register;
                let bank1 = s.character_bank_1_register;
                proof {
                    assert((bank0 & 0x1e) <= 0x1e && (address & 0x1fff) <= 0x1fff
                        && (address & 0x0fff) <= 0x0fff) by (bit_vector);
                }
                if s.control_register & 0x10 == 0 {
                    (address & 0x1fff) as usize + (bank0 & 0x1e) as usize * 0x1000
                } else if address & 0x1fff < 0x1000 {
                    (address & 0x0fff) as usize + bank0 as usize * 0x1000
                } else {
                    (address & 0x0fff) as usize + bank1 as usize * 0x1000
                }
            },
            Mapper::Uxrom(_) => address as usize,
            Mapper::Cnrom(s) => {
                proof {
                    assert((address & 0x1fff) <= 0x1fff) by (bit_vector);
                }
                (address & 0x1fff) as usize + s.bank_select as usize * 0x2000
            },
            Mapper::Mmc3(s) => {
                let a = address & 0x1fff;
                proof {
                    assert((address & 0x1fff) <= 0x1fff
                        && ((address & 0x1fff) & 0x07ff) <= 0x07ff
                        && ((address & 0x1fff) & 0x03ff) <= 0x03ff) by (bit_vector);
                }
                if s.bank_control & 0x80 == 0 {
                    if a < 0x0800 {
                        (a & 0x07ff) as usize + s.bank_select[0] as usize * 0x0400
                    } else if a < 0x1000 {
                        (a & 0x07ff) as usize + s.bank_select[1] as usize * 0x0400
                    } else if a < 0x1400 {
                        (a & 0x03ff) as usize + s.bank_select[2] as usize * 0x0400
                    } else if a < 0x1800 {
                        (a & 0x03ff) as usize + s.bank_select[3] as usize * 0x0400
                    } else if a < 0x1c00 {
                        (a & 0x03ff) as usize + s.bank_select[4] as usize * 0x0400
                    } else {
                        (a & 0x03ff) as usize + s.bank_select[5] as usize * 0x0400
                    }
                } else {
                    if a < 0x0400 {
                        (a & 0x03ff) as usize + s.bank_select[2] as usize * 0x0400
                    } else if a < 0x0800 {
                        (a & 0x03ff) as usize + s.bank_select[3] as usize * 0x0400
                    } else if a < 0x0c00 {
                        (a & 0x03ff) as usize + s.bank_select[4] as usize * 0x0400
                    } else if a < 0x1000 {
                        (a & 0x03ff) as usize + s.bank_select[5] as usize * 0x0400
                    } else if a < 0x1800 {
                        (a & 0x07ff) as usize + s.bank_select[0] as usize * 0x0400
                    } else {
                        (a & 0x07ff) as usize + s.bank_select[1] as usize * 0x0400
                    }
                }
            },
        }
    }

    /// Write to the cartridge's program RAM, or configure the mapper, through
    /// the program address space.
    pub fn program_write(&mut self, program_ram: &mut Vec<u8>, address: u16, data: u8)
        ensures
            *final(self) == spec_program_write(*old(self), old(program_ram)@, address, data).0,
            final(program_ram)@ == spec_program_write(
                *old(self),
                old(program_ram)@,
                address,
                data,
            ).1,
    {
        if address < 0x6000 {
            // Nothing is mapped below the program RAM window.
        } else if address < 0x8000 {
            mem_write(program_ram, (address - 0x6000) as usize, data);
        } else {
            match self {
                Mapper::Nrom => {},
                Mapper::Mmc1(s) => {
                    if data & 0x80 != 0 {
                        s.load_register = 0x10;
                    } else {
                        let copy = s.load_register & 1 == 1;
                        let loaded = (s.load_register >> 1) | ((data & 1) << 4);
                        if copy {
                            s.load_register = 0x10;
                            let target = address & 0x6000;
                            if target == 0x0000 {
                                s.control_register = loaded;
                            } else if target == 0x2000 {
                                s.character_bank_0_register = loaded;
                            } else if target == 0x4000 {
                                s.character_bank_1_register = loaded;
                            } else {
                                s.program_bank_register = loaded;
                            }
                        } else {
                            s.load_register = loaded;
                        }
                    }
                },
                Mapper::Uxrom(s) => {
                    s.bank_select = data & 0x0f;
                },
                Mapper::Cnrom(s) => {
                    s.bank_select = data & 0x03;
                },
                Mapper::Mmc3(s) => {
                    let odd = address & 0x01 == 1;
                    if address < 0xa000 {
                        if odd {
                            let index = (s.bank_control & 0x07) as usize;
                            proof {
                                let control = s.bank_control;
                                assert((control & 0x07) < 8) by (bit_vector);
                            }
                            s.bank_select[index] = data;
                        } else {
                            s.bank_control = data;
                        }
                    } else if address < 0xc000 {
                        if odd {
                            s.program_ram_write_protect = data & 0x40 > 0;
                            s.program_ram_enabled = data & 0x80 > 0;
                        } else {
                            s.mirroring = if data & 0x01 > 0 {
                                Mirroring::Horizontal
                            } else {
                                Mirroring::Vertical
                            };
                        }
                    } else if address < 0xe000 {
                        if odd {
                            s.scanline_counter = s.scanline_counter_reload;
                            s.scanline_counter_reload_flag = true;
                        } else {
                            s.scanline_counter_reload = data;
                        }
                    } else {
                        if odd {
                            s.interrupt_request_enabled = true;
                        } else {
                            s.interrupt_request_enabled = false;
                            s.pending_interrupt_request = false;
                        }
                    }
                },
            }
        }
    }

    /// The mirroring this mapper imposes, given the cartridge's default.
    pub fn get_mirroring(&mut self, mirroring: Mirroring) -> (result: Mirroring)
        ensures
            *final(self) == *old(self),
            result == spec_mirroring(*old(self), mirroring),
    {
        match self {
            Mapper::Mmc1(s) => {
                let select = s.control_register & 0x03;
                if select == 0 {
                    Mirroring::OneScreenLower
                } else if select == 1 {
                    Mirroring::OneScreenUpper
                } else if select == 2 {
                    Mirroring::Vertical
                } else {
                    Mirroring::Horizontal
                }
            },
            Mapper::Mmc3(s) => s.mirroring,
            _ => mirroring,
        }
    }

    /// Whether the mapper is holding a pending interrupt request; asking
    /// consumes it.
    pub fn get_pending_interrupt_request(&mut self) -> (result: bool)
        ensures
            result == (*old(self) matches Mapper::Mmc3(s) && s.pending_interrupt_request),
            *old(self) matches Mapper::Mmc3(s) ==> *final(self) == Mapper::Mmc3(
                (Mmc3 { pending_interrupt_request: false, ..s }),
            ),
            !(*old(self) is Mmc3) ==> *final(self) == *old(self),
    {
        match self {
            Mapper::Mmc3(s) => {
                let value = s.pending_interrupt_request;
                s.pending_interrupt_request = false;
                value
            },
            _ => false,
        }
    }

    /// Called at the end of each rendered scanline; the MMC3 counts these to
    /// raise its interrupt at a chosen line of the picture.
    pub fn end_of_scanline(&mut self)
        ensures
            *old(self) matches Mapper::Mmc3(s) ==> *final(self) == Mapper::Mmc3(
                spec_mmc3_end_of_scanline(s),
            ),
            !(*old(self) is Mmc3) ==> *final(self) == *old(self),
    {
        match self {
            Mapper::Mmc3(s) => {
                if s.scanline_counter == 0 && s.interrupt_request_enabled {
                    s.pending_interrupt_request = true;
                }
                if s.scanline_counter == 0 || s.scanline_counter_reload_flag {
                    s.scanline_counter = s.scanline_counter_reload;
                    s.scanline_counter_reload_flag = false;
                } else {
                    s.scanline_counter = s.scanline_counter - 1;
                }
            },
            _ => {},
        }
    }
}

} // verus!
