//! The console around the bus: the two-kilobyte work RAM, the cartridge, the
//! picture and audio units, the controller ports and the sprite
//! direct-memory-access channel, all multiplexed into the CPU's address
//! space. The 6502 itself lives outside; the host asks, tick by tick,
//! whether the CPU owns this master cycle and which interrupt lines rose.

use vstd::prelude::*;

use crate::apu::NesApu;
use crate::cartridge::Cartridge;
use crate::input::NesInput;
use crate::input::NesInputDevice;
use crate::input::spec_effective_shift;
use crate::input::spec_shift_step;
use crate::mapper::Mapper;
use crate::mapper::Mmc3;
use crate::mapper::spec_mmc3_end_of_scanline;
use crate::mapper::spec_program_read;
use crate::mapper::spec_program_write;
use crate::ppu::NesPpu;
use crate::ppu::spec_oam_read;
use crate::ppu::spec_power_on_ppu;
use crate::ppu::spec_vram_increment;
use crate::ppu::spec_vram_read;
use crate::ppu_render::spec_a12_hook;

verus! {

/// The state of a sprite direct-memory-access transfer in flight.
#[derive(Debug, Clone, Copy, PartialEq, Eq, Structural)]
pub struct DmaStatus {
    /// The transfer idles until the first odd master cycle after its start.
    pub dma_wait: bool,
    /// First address of the 256-byte page being copied.
    pub dma_start_address: u16,
    /// How many bytes have been copied so far.
    pub dma_count: u8,
    /// The byte read on the even cycle, written out on the odd one.
    pub dma_buffer: u8,
}

impl DmaStatus {
    /// A transfer about to copy the 256-byte page `page << 8`.
    pub fn new(page: u8) -> (result: DmaStatus)
        ensures
            result == (DmaStatus {
                dma_wait: true,
                dma_start_address: ((page as u16) << 8),
                dma_count: 0,
                dma_buffer: 0,
            }),
    {
        DmaStatus {
            dma_wait: true,
            dma_start_address: (page as u16) << 8,
            dma_count: 0,
            dma_buffer: 0,
        }
    }
}

/// Everything the CPU's address space reaches.
#[derive(Debug, Clone)]
pub struct Bus {
    /// The cartridge in the slot.
    pub cartridge: Cartridge,
    /// The picture processing unit.
    pub ppu: NesPpu,
    /// The silent audio stub.
    pub apu: NesApu,
    /// The console's two kilobytes of work RAM.
    pub ram: Vec<u8>,
    /// The first controller port.
    pub input_device_one: NesInput,
    /// The second controller port.
    pub input_device_two: NesInput,
    /// The sprite transfer in flight, if one is.
    pub dma_status: Option<DmaStatus>,
}

/// The console: the bus and the master cycle counter. The 6502 is an outside
/// collaborator; the host drives it against this bus.
#[derive(Debug, Clone)]
pub struct Nes {
    /// The bus with every component the CPU can reach.
    pub bus: Bus,
    /// Master cycles executed so far.
    pub cycle_count: u64,
}

/// What one master tick asks of the host besides the picture: the interrupt
/// lines to latch into the CPU.
#[derive(Debug, Clone, Copy, PartialEq, Eq, Structural)]
pub struct InterruptSignal {
    /// The picture unit entered the vertical blank with interrupts enabled.
    pub nmi: bool,
    /// The cartridge mapper holds an interrupt request.
    pub irq: bool,
}

impl Bus {
    /// The sizes the hardware fixes; every operation keeps this.
    pub open spec fn wf(self) -> bool {
        &&& self.ram.len() == 2048
        &&& self.ppu.wf()
    }
}

/// What a read of one of the picture unit's registers returns, and the unit
/// afterwards; the mirror of the unit's own register-read contract.
pub open spec fn spec_ppu_register_read(p: NesPpu, cartridge: Cartridge, address: u16) -> (
    u8,
    NesPpu,
) {
    let offset = address & 0x07;
    if offset == 2 {
        (
            p.status_flags | (p.read_buffer & 0x1f),
            NesPpu { status_flags: p.status_flags & 0x7f, write_latch: false, ..p },
        )
    } else if offset == 4 {
        (spec_oam_read(p), p)
    } else if offset == 7 {
        let vram_address = p.current_vram_address & 0x3fff;
        let fetched = spec_vram_read(p, cartridge, vram_address);
        (
            if vram_address >= 0x3f00 {
                fetched
            } else {
                p.read_buffer
            },
            NesPpu {
                read_buffer: fetched,
                current_vram_address: spec_vram_increment(p.current_vram_address, p.ctrl_flags),
                ..p
            },
        )
    } else {
        (0u8, p)
    }
}

/// What a poll of a controller port returns, and the port afterwards.
pub open spec fn spec_port_poll(port: NesInput, bus_value: u8) -> (u8, NesInput) {
    match port {
        NesInput::Disconnected => ((bus_value & 0xf4), port),
        NesInput::Connected(d) => (
            (spec_effective_shift(d) & 0x01) | (bus_value & 0xf8),
            NesInput::Connected(
                NesInputDevice {
                    shift_register: spec_shift_step(spec_effective_shift(d)),
                    ..d
                },
            ),
        ),
    }
}

/// What a latch write does to a controller port.
pub open spec fn spec_port_latch(port: NesInput, data: u8) -> NesInput {
    match port {
        NesInput::Disconnected => port,
        NesInput::Connected(d) => NesInput::Connected(
            NesInputDevice {
                reload_latch: data & 0x01 == 0x01,
                shift_register: (if data & 0x01 == 0x01 {
                    d.input_state
                } else {
                    d.shift_register
                }),
                ..d
            },
        ),
    }
}

/// What a CPU read of the bus returns, and the bus afterwards: work RAM
/// mirrored every two kilobytes, then the picture unit's registers mirrored
/// every eight bytes, the silent audio range, the two controller ports, the
/// disabled test range, and the cartridge above 0x4020.
pub open spec fn spec_bus_read(b: Bus, address: u16) -> (u8, Bus) {
    if address < 0x2000 {
        (b.ram@[(address & 0x07ff) as int], b)
    } else if address < 0x4000 {
        let r = spec_ppu_register_read(b.ppu, b.cartridge, address);
        (r.0, Bus { ppu: r.1, ..b })
    } else if address <= 0x4015 {
        (0u8, b)
    } else if address == 0x4016 {
        let r = spec_port_poll(b.input_device_one, 0x00);
        (r.0, Bus { input_device_one: r.1, ..b })
    } else if address == 0x4017 {
        let r = spec_port_poll(b.input_device_two, 0x00);
        (r.0, Bus { input_device_two: r.1, ..b })
    } else if address <= 0x401f {
        (0u8, b)
    } else {
        (
            spec_program_read(
                b.cartridge.mapper,
                b.cartridge.program_rom@,
                b.cartridge.program_ram@,
                address,
            ),
            b,
        )
    }
}

impl Bus {
    /// A CPU read of the bus.
    pub fn read(&mut self, address: u16) -> (result: u8)
        requires
            old(self).wf(),
        ensures
            final(self).wf(),
            result == spec_bus_read(*old(self), address).0,
            *final(self) == spec_bus_read(*old(self), address).1,
    {
        if address < 0x2000 {
            proof {
                assert((address & 0x07ff) < 2048) by (bit_vector);
            }
            self.ram[(address & 0x07ff) as usize]
        } else if address < 0x4000 {
            let value = self.ppu.read(&mut self.cartridge, address);
            proof {
                assert((address & 0x07) <= 7) by (bit_vector);
            }
            value
        } else if address <= 0x4015 {
            0x00
        } else if address == 0x4016 {
            self.input_device_one.poll(0x00)
        } else if address == 0x4017 {
            self.input_device_two.poll(0x00)
        } else if address <= 0x401f {
            0x00
        } else {
            self.cartridge.program_read(address)
        }
    }

    /// A CPU write to the bus. A write to 0x4014 starts a sprite transfer of
    /// the named page; a write to 0x4016 latches both controller ports.
    pub fn write(&mut self, address: u16, data: u8)
        requires
            old(self).wf(),
        ensures
            final(self).wf(),
            address < 0x2000 ==> *final(self) == (Bus { ram: final(self).ram, ..*old(self) })
                && final(self).ram@ == old(self).ram@.update((address & 0x07ff) as int, data),
            0x2000 <= address < 0x4000 ==> (*final(self) == (Bus {
                ppu: final(self).ppu,
                cartridge: final(self).cartridge,
                ..*old(self)
            }) && crate::ppu::spec_register_write_rel(
                old(self).ppu,
                old(self).cartridge,
                final(self).ppu,
                final(self).cartridge,
                address,
                data,
            )),
            address == 0x4014 ==> *final(self) == (Bus {
                dma_status: Some(
                    DmaStatus {
                        dma_wait: true,
                        dma_start_address: ((data as u16) << 8),
                        dma_count: 0,
                        dma_buffer: 0,
                    },
                ),
                ..*old(self)
            }),
            address == 0x4016 ==> *final(self) == (Bus {
                input_device_one: spec_port_latch(old(self).input_device_one, data),
                input_device_two: spec_port_latch(old(self).input_device_two, data),
                ..*old(self)
            }),
            (0x4000 <= address <= 0x401f && address != 0x4014 && address != 0x4016) ==> *final(self) == *old(self),
            0x4020 <= address ==> (*final(self) == (Bus {
                cartridge: final(self).cartridge,
                ..*old(self)
            }) && final(self).cartridge.mapper == spec_program_write(
                old(self).cartridge.mapper,
                old(self).cartridge.program_ram@,
                address,
                data,
            ).0 && final(self).cartridge.program_ram@ == spec_program_write(
                old(self).cartridge.mapper,
                old(self).cartridge.program_ram@,
                address,
                data,
            ).1 && final(self).cartridge.program_rom@ == old(self).cartridge.program_rom@ && final(self).cartridge.character_ram@ == old(self).cartridge.character_ram@ && final(self).cartridge.mirroring == old(self).cartridge.mirroring && final(self).cartridge.trainer_data@ == old(self).cartridge.trainer_data@),
    {
        if address < 0x2000 {
            proof {
                assert((address & 0x07ff) < 2048) by (bit_vector);
            }
            self.ram.set((address & 0x07ff) as usize, data);
        } else if address < 0x4000 {
            self.ppu.write(&mut self.cartridge, address, data);
        } else if address == 0x4014 {
            self.dma_status = Some(DmaStatus::new(data));
        } else if address == 0x4016 {
            self.input_device_one.latch(data);
            self.input_device_two.latch(data);
        } else if address <= 0x401f {
            // The audio ranges and the disabled test registers ignore writes.
        } else {
            self.cartridge.program_write(address, data);
        }
    }

    /// Resets the components on the bus that the reset line reaches.
    pub fn reset(&mut self)
        requires
            old(self).wf(),
        ensures
            final(self).wf(),
            *final(self) == (Bus { ppu: final(self).ppu, ..*old(self) }),
            final(self).ppu == (NesPpu {
                ctrl_flags: 0,
                mask_flags: 0,
                status_flags: old(self).ppu.status_flags & crate::ppu::PPU_STATUS_VERTICAL_BLANK,
                write_latch: false,
                read_buffer: 0,
                cycle: 0,
                scanline: 0,
                fine_x_scroll: 0,
                temporary_vram_address: 0,
                ..old(self).ppu
            }),
    {
        self.ppu.reset();
    }
}

/// The cartridge mapper after the picture unit's tick: unchanged, unless the
/// tick fired the scanline hook of an MMC3.
pub open spec fn spec_mapper_after_tick(p: NesPpu, m: Mapper) -> Mapper {
    if spec_a12_hook(p) {
        match m {
            Mapper::Mmc3(s) => Mapper::Mmc3(spec_mmc3_end_of_scanline(s)),
            _ => m,
        }
    } else {
        m
    }
}

impl Nes {
    /// A console with the cartridge in its slot, the memories cleared and no
    /// controllers connected.
    pub fn new(cartridge: Cartridge) -> (result: Nes)
        ensures
            result.bus.wf(),
            result.bus.cartridge == cartridge,
            spec_power_on_ppu(result.bus.ppu),
            result.bus.ram@ == Seq::new(2048, |i: int| 0u8),
            result.bus.input_device_one == NesInput::Disconnected,
            result.bus.input_device_two == NesInput::Disconnected,
            result.bus.dma_status is None,
            result.cycle_count == 0,
    {
        Nes {
            bus: Bus {
                cartridge,
                ppu: NesPpu::new(),
                apu: NesApu::new(),
                ram: zero_ram(),
                input_device_one: NesInput::Disconnected,
                input_device_two: NesInput::Disconnected,
                dma_status: None,
            },
            cycle_count: 0,
        }
    }

    /// The CPU slot of one master tick. Every third master cycle belongs to
    /// the CPU, unless a sprite transfer owns the bus: the transfer first
    /// waits for an odd cycle, then alternates a read of the source page on
    /// even cycles with a write into the sprite memory on odd ones, and ends
    /// after its 256th byte. Returns whether the host must run one CPU cycle
    /// against the bus now.
    pub fn cycle_cpu_phase(&mut self) -> (run_cpu: bool)
        requires
            old(self).bus.wf(),
        ensures
            final(self).bus.wf(),
            final(self).cycle_count == old(self).cycle_count,
            old(self).cycle_count % 3 != 0 ==> (*final(self) == *old(self) && !run_cpu),
            (old(self).cycle_count % 3 == 0 && old(self).bus.dma_status is None) ==> (*final(self)
                == *old(self) && run_cpu),
            old(self).cycle_count % 3 == 0 ==> (old(self).bus.dma_status matches Some(d) ==> (
            !run_cpu && (if d.dma_wait {
                if old(self).cycle_count % 2 == 1 {
                    *final(self) == (Nes {
                        bus: (Bus {
                            dma_status: Some((DmaStatus { dma_wait: false, ..d })),
                            ..old(self).bus
                        }),
                        ..*old(self)
                    })
                } else {
                    *final(self) == *old(self)
                }
            } else if old(self).cycle_count % 2 == 0 {
                ({
                    let read = spec_bus_read(
                        old(self).bus,
                        vstd::wrapping::u16_specs::wrapping_add(
                            d.dma_start_address,
                            d.dma_count as u16,
                        ),
                    );
                    *final(self) == (Nes {
                        bus: (Bus {
                            dma_status: Some((DmaStatus { dma_buffer: read.0, ..d })),
                            ..read.1
                        }),
                        ..*old(self)
                    })
                })
            } else {
                ({
                    let next_count = vstd::wrapping::u8_specs::wrapping_add(d.dma_count, 1);
                    &&& *final(self) == (Nes {
                        bus: (Bus {
                            ppu: final(self).bus.ppu,
                            dma_status: (if next_count == 0 {
                                None
                            } else {
                                Some((DmaStatus { dma_count: next_count, ..d }))
                            }),
                            ..old(self).bus
                        }),
                        ..*old(self)
                    })
                    &&& final(self).bus.ppu == (NesPpu {
                        object_attribute_memory: final(self).bus.ppu.object_attribute_memory,
                        ..old(self).bus.ppu
                    })
                    &&& final(self).bus.ppu.object_attribute_memory@ == old(self).bus.ppu.object_attribute_memory@.update(
                        vstd::wrapping::u8_specs::wrapping_add(
                            old(self).bus.ppu.oam_address,
                            d.dma_count,
                        ) as int,
                        d.dma_buffer,
                    )
                })
            }))),
    {
        if self.cycle_count % 3 != 0 {
            return false;
        }
        let (wait, start, count, buffer) = match self.bus.dma_status {
            None => {
                return true;
            },
            Some(d) => (d.dma_wait, d.dma_start_address, d.dma_count, d.dma_buffer),
        };
        if wait {
            if self.cycle_count % 2 == 1 {
                self.bus.dma_status = Some(
                    DmaStatus {
                        dma_wait: false,
                        dma_start_address: start,
                        dma_count: count,
                        dma_buffer: buffer,
                    },
                );
            }
        } else if self.cycle_count % 2 == 0 {
            let value = self.bus.read(start.wrapping_add(count as u16));
            self.bus.dma_status = Some(
                DmaStatus {
                    dma_wait: false,
                    dma_start_address: start,
                    dma_count: count,
                    dma_buffer: value,
                },
            );
        } else {
            self.bus.ppu.oam_dma_write(count, buffer);
            let next_count = count.wrapping_add(1);
            if next_count == 0 {
                self.bus.dma_status = None;
            } else {
                self.bus.dma_status = Some(
                    DmaStatus {
                        dma_wait: false,
                        dma_start_address: start,
                        dma_count: next_count,
                        dma_buffer: buffer,
                    },
                );
            }
        }
        false
    }

    /// The picture slot of one master tick: the picture unit advances one
    /// dot, the mapper is polled for its interrupt line, and the master
    /// cycle counter steps. Returns the interrupt lines for the host to
    /// latch into the CPU.
    pub fn cycle_ppu_phase(&mut self) -> (signal: InterruptSignal)
        requires
            old(self).bus.wf(),
        ensures
            final(self).bus.wf(),
            final(self).cycle_count == vstd::wrapping::u64_specs::wrapping_add(
                old(self).cycle_count,
                1,
            ),
            signal.nmi == (old(self).bus.ppu.scanline == 241 && old(self).bus.ppu.cycle == 1 && old(self).bus.ppu.ctrl_flags & crate::ppu::PPU_CTRL_NMI_ENABLE != 0),
            signal.irq == (spec_mapper_after_tick(old(self).bus.ppu, old(self).bus.cartridge.mapper)
                matches Mapper::Mmc3(s) && s.pending_interrupt_request),
            final(self).bus.cartridge.mapper == (match spec_mapper_after_tick(
                old(self).bus.ppu,
                old(self).bus.cartridge.mapper,
            ) {
                Mapper::Mmc3(s) => Mapper::Mmc3(
                    (Mmc3 { pending_interrupt_request: false, ..s }),
                ),
                m => m,
            }),
            final(self).bus.cartridge.program_rom@ == old(self).bus.cartridge.program_rom@,
            final(self).bus.cartridge.program_ram@ == old(self).bus.cartridge.program_ram@,
            final(self).bus.cartridge.character_ram@ == old(self).bus.cartridge.character_ram@,
            final(self).bus.cartridge.mirroring == old(self).bus.cartridge.mirroring,
            final(self).bus.ram@ == old(self).bus.ram@,
            final(self).bus.input_device_one == old(self).bus.input_device_one,
            final(self).bus.input_device_two == old(self).bus.input_device_two,
            final(self).bus.dma_status == old(self).bus.dma_status,
            crate::ppu_render::spec_dot(old(self).bus.ppu) < crate::ppu_render::spec_frame_len(
                old(self).bus.ppu.frame_count,
            ) - 1 ==> (crate::ppu_render::spec_dot(final(self).bus.ppu)
                == crate::ppu_render::spec_dot(old(self).bus.ppu) + 1 && final(self).bus.ppu.frame_count == old(self).bus.ppu.frame_count),
            crate::ppu_render::spec_dot(old(self).bus.ppu) >= crate::ppu_render::spec_frame_len(
                old(self).bus.ppu.frame_count,
            ) - 1 ==> (final(self).bus.ppu.scanline == 0 && final(self).bus.ppu.cycle == 0 && final(self).bus.ppu.frame_count == vstd::wrapping::u64_specs::wrapping_add(
                old(self).bus.ppu.frame_count,
                1,
            )),
            (old(self).bus.ppu.scanline == 241 && old(self).bus.ppu.cycle == 1) ==> final(self).bus.ppu.status_flags == (old(self).bus.ppu.status_flags
                | crate::ppu::PPU_STATUS_VERTICAL_BLANK),
            final(self).bus.ppu.object_attribute_memory@ == old(self).bus.ppu.object_attribute_memory@,
            final(self).bus.ppu.palette_ram@ == old(self).bus.ppu.palette_ram@,
            final(self).bus.ppu.name_table@ == old(self).bus.ppu.name_table@,
    {
        let nmi = self.bus.ppu.cycle(&mut self.bus.cartridge);
        let irq = self.bus.cartridge.get_pending_interrupt_request();
        self.cycle_count = self.cycle_count.wrapping_add(1);
        InterruptSignal { nmi, irq }
    }

    /// Connects, updates or unplugs the first controller port: nothing keeps
    /// a port occupied but a byte of button state.
    pub fn update_controller_one(&mut self, input_state: Option<u8>)
        ensures
            *final(self) == (Nes {
                bus: (Bus {
                    input_device_one: spec_updated_port(
                        old(self).bus.input_device_one,
                        input_state,
                    ),
                    ..old(self).bus
                }),
                ..*old(self)
            }),
    {
        update_port(&mut self.bus.input_device_one, input_state);
    }

    /// Connects, updates or unplugs the second controller port.
    pub fn update_controller_two(&mut self, input_state: Option<u8>)
        ensures
            *final(self) == (Nes {
                bus: (Bus {
                    input_device_two: spec_updated_port(
                        old(self).bus.input_device_two,
                        input_state,
                    ),
                    ..old(self).bus
                }),
                ..*old(self)
            }),
    {
        update_port(&mut self.bus.input_device_two, input_state);
    }

    /// The rendered frame, without advancing time.
    pub fn get_screen(&self) -> (result: &Vec<u32>)
        ensures
            result@ == self.bus.ppu.screen_buffer@,
    {
        self.bus.ppu.get_screen()
    }

    /// Resets the console: the cycle counter restarts and the picture unit
    /// sees its reset line; the cartridge keeps its state. The host resets
    /// its CPU against the bus alongside this.
    pub fn reset(&mut self)
        requires
            old(self).bus.wf(),
        ensures
            final(self).bus.wf(),
            final(self).cycle_count == 0,
            *final(self) == (Nes {
                bus: (Bus { ppu: final(self).bus.ppu, ..old(self).bus }),
                cycle_count: 0,
            }),
            final(self).bus.ppu == (NesPpu {
                ctrl_flags: 0,
                mask_flags: 0,
                status_flags: old(self).bus.ppu.status_flags
                    & crate::ppu::PPU_STATUS_VERTICAL_BLANK,
                write_latch: false,
                read_buffer: 0,
                cycle: 0,
                scanline: 0,
                fine_x_scroll: 0,
                temporary_vram_address: 0,
                ..old(self).bus.ppu
            }),
    {
        self.cycle_count = 0;
        self.bus.reset();
    }
}

/// A controller port after a host update: no byte unplugs it, and a byte
/// either connects a fresh controller or refreshes the connected one.
pub open spec fn spec_updated_port(port: NesInput, input_state: Option<u8>) -> NesInput {
    match input_state {
        None => NesInput::Disconnected,
        Some(state) => match port {
            NesInput::Disconnected => NesInput::Connected(
                NesInputDevice { shift_register: 0, reload_latch: false, input_state: state },
            ),
            NesInput::Connected(d) => NesInput::Connected(
                NesInputDevice { input_state: state, ..d },
            ),
        },
    }
}

/// Applies a host update to one controller port.
fn update_port(port: &mut NesInput, input_state: Option<u8>)
    ensures
        *final(port) == spec_updated_port(*old(port), input_state),
{
    match input_state {
        None => {
            *port = NesInput::Disconnected;
        },
        Some(state) => {
            match port {
                NesInput::Disconnected => {
                    *port = NesInput::Connected(NesInputDevice::new(state));
                },
                NesInput::Connected(device) => device.update_state(state),
            }
        },
    }
}

/// The two kilobytes of work RAM, cleared.
fn zero_ram() -> (result: Vec<u8>)
    ensures
        result@ == Seq::new(2048, |i: int| 0u8),
{
    let mut result: Vec<u8> = Vec::new();
    let mut i: usize = 0;
    while i < 2048
        invariant
            i <= 2048,
            result@ == Seq::new(i as nat, |j: int| 0u8),
        decreases 2048 - i,
    {
        result.push(0);
        proof {
            assert(result@ =~= Seq::new((i + 1) as nat, |j: int| 0u8));
        }
        i = i + 1;
    }
    result
}

} // verus!
