//! The bus: 2 KiB of work RAM, the PPU, the APU, two controller ports and
//! the cartridge, multiplexed behind the CPU's 16-bit address space.

use vstd::array::ArrayAdditionalExecFns;
use vstd::prelude::*;

use crate::apu::APU;
use crate::cart::Cart;
use crate::framebuffer::Framebuffer;
use crate::joypad::Joypad;
use crate::mapper::Mapper;
use crate::memory::Memory;
use crate::ppu::PPU;

verus! {

pub struct Bus {
    pub ram: Vec<u8>,
    pub cart: Cart,
    pub ppu: PPU,
    pub apu: APU,
    pub joypad1: Joypad,
    pub joypad2: Joypad,
    pub dma_stall: u16,
}

impl Bus {
    pub open spec fn wf(&self) -> bool {
        &&& self.ram.len() == 2048
        &&& self.cart.wf()
        &&& self.ppu.wf()
        &&& self.apu.wf()
    }

    pub fn new(cart: Cart, apu: APU) -> (r: Bus)
        requires
            cart.wf(),
            apu.wf(),
        ensures
            r.wf(),
            r.dma_stall == 0,
    {
        Bus {
            ram: crate::mapper::filled_vec(2048, 0),
            cart,
            ppu: PPU::new(),
            apu,
            joypad1: Joypad::new(),
            joypad2: Joypad::new(),
            dma_stall: 0,
        }
    }

    /// The work-RAM cell behind a mirrored RAM address.
    fn mirror_cpu_vram_addr(addr: u16) -> (r: usize)
        ensures
            r == addr % 0x800,
    {
        (addr % 0x800) as usize
    }

    /// The PPU register selected by a mirrored register address.
    fn normalize_ppu_register_addr(addr: u16) -> (r: u16)
        requires
            0x2000 <= addr < 0x4000,
        ensures
            r == 0x2000 + (addr % 8),
    {
        0x2000 + (addr % 8)
    }

    pub fn joypad(&self, idx: usize) -> (r: Option<&Joypad>)
        ensures
            idx < 2 <==> r is Some,
    {
        if idx == 0 {
            Some(&self.joypad1)
        } else if idx == 1 {
            Some(&self.joypad2)
        } else {
            None
        }
    }

    /// Presses or releases one button on a controller port; only the
    /// addressed pad's button byte changes.
    pub fn set_button_pressed(&mut self, idx: usize, button: u8, pressed: bool)
        requires
            old(self).wf(),
        ensures
            final(self).wf(),
            idx == 0 ==> final(self).joypad1 == (Joypad {
                button_status: if pressed {
                    old(self).joypad1.button_status | button
                } else {
                    old(self).joypad1.button_status & !button
                },
                ..old(self).joypad1
            }) && *final(self) == (Bus { joypad1: final(self).joypad1, ..*old(self) }),
            idx == 1 ==> final(self).joypad2 == (Joypad {
                button_status: if pressed {
                    old(self).joypad2.button_status | button
                } else {
                    old(self).joypad2.button_status & !button
                },
                ..old(self).joypad2
            }) && *final(self) == (Bus { joypad2: final(self).joypad2, ..*old(self) }),
            idx >= 2 ==> *final(self) == *old(self),
    {
        if idx == 0 {
            self.joypad1.set_button_pressed_status(button, pressed);
        } else if idx == 1 {
            self.joypad2.set_button_pressed_status(button, pressed);
        }
    }

    /// One PPU dot; true exactly on the dot that ends the frame.
    pub fn ppu_clock(&mut self) -> (r: bool)
        requires
            old(self).wf(),
        ensures
            final(self).wf(),
            r == (old(self).ppu.cycle == 340 && old(self).ppu.scanline == 261),
            final(self).ppu.cycle == if old(self).ppu.cycle == 340 {
                0int
            } else {
                old(self).ppu.cycle + 1
            },
    {
        self.ppu.clock(&mut self.cart.mapper)
    }

    /// One APU cycle, serving any DMC fetch it requests from the bus: the
    /// sequencer advances one step, nothing outside the APU changes, and a
    /// requested fetch fills the DMC buffer with the byte at the requested
    /// cartridge address.
    pub fn apu_clock(&mut self)
        requires
            old(self).wf(),
        ensures
            final(self).wf(),
            final(self).apu.fs_project() == crate::apu::fs_step(old(self).apu.fs_project()),
            final(self).apu.current_cycle == vstd::wrapping::u64_specs::wrapping_add(
                old(self).apu.current_cycle,
                1,
            ),
            *final(self) == (Bus { apu: final(self).apu, ..*old(self) }),
            old(self).apu.dmc.sample_buffer is None && !old(self).apu.dmc.sample_fetch_pending
                && old(self).apu.dmc.bytes_remaining > 0 ==> final(self).apu.dmc.sample_buffer
                == Some(
                old(self).read_of(
                    (0x8000 + (old(self).apu.dmc.current_address % 0x8000)) as u16,
                ),
            ),
    {
        match self.apu.clock() {
            Some(addr) => {
                let value = self.read(addr);
                self.apu.provide_dmc_sample(value);
            },
            None => {},
        }
    }

    /// Consumes the PPU's pending NMI edge.
    pub fn poll_nmi(&mut self) -> (r: bool)
        requires
            old(self).wf(),
        ensures
            final(self).wf(),
            r == (old(self).ppu.nmi_interrupt is Some),
    {
        let got = self.ppu.poll_nmi_interrupt();
        match got {
            Some(_) => true,
            None => false,
        }
    }

    /// The IRQ line: the APU's or the mapper's.
    pub fn poll_irq(&mut self) -> (r: bool)
        requires
            old(self).wf(),
        ensures
            final(self).wf(),
            *final(self) == *old(self),
    {
        let apu_irq = match self.apu.poll_irq() {
            Some(_) => true,
            None => false,
        };
        let mapper_irq = match self.cart.mapper.poll_irq() {
            Some(_) => true,
            None => false,
        };
        apu_irq || mapper_irq
    }

    /// A side-effect-free read: work RAM or cartridge space, else zero.
    pub fn peek(&self, addr: u16) -> u8
        requires
            self.wf(),
    {
        if addr < 0x2000 {
            self.ram[(addr % 0x800) as usize]
        } else if addr >= 0x4020 {
            self.cart.mapper.read_prg(addr)
        } else {
            0
        }
    }

    /// Hands over and clears the CPU stall an OAM DMA transfer earned.
    pub fn take_dma_stall(&mut self) -> (r: u16)
        ensures
            r == old(self).dma_stall,
            *final(self) == (Bus { dma_stall: 0u16, ..*old(self) }),
    {
        let r = self.dma_stall;
        self.dma_stall = 0;
        r
    }

    /// Rasterizes the frame and opens the next frame's scroll-segment list:
    /// afterwards the list holds one segment starting at scanline zero, the
    /// pending descriptor is consumed, and nothing else on the bus moved.
    pub fn render_frame(&mut self, framebuffer: &mut Framebuffer)
        requires
            old(self).wf(),
            old(framebuffer).wf(),
        ensures
            final(self).wf(),
            final(framebuffer).wf(),
            final(self).ppu.spec_scroll_segments().len() == 1,
            final(self).ppu.spec_scroll_segments()[0].start_scanline == 0,
            final(self).ppu == (crate::ppu::PPU {
                scroll_segments: final(self).ppu.scroll_segments,
                pending_scroll_descriptor: None,
                ..old(self).ppu
            }),
            *final(self) == (Bus { ppu: final(self).ppu, ..*old(self) }),
    {
        crate::render::render(&self.ppu, &self.cart.mapper, framebuffer);
        self.ppu.reset_scroll_segments_for_new_frame();
    }
}

impl Memory for Bus {
    open spec fn inv(&self) -> bool {
        self.wf()
    }

    /// The byte each CPU read returns: mirrored work RAM, the readable PPU
    /// registers, the APU status byte, the controller shift registers, or
    /// the cartridge through its mapper; unmapped space reads zero.
    open spec fn read_of(&self, addr: u16) -> u8 {
        if addr < 0x2000 {
            self.ram@[addr as int % 0x800]
        } else if addr < 0x4000 {
            let reg = addr % 8;
            if reg == 2 {
                self.ppu.status.bits
            } else if reg == 4 {
                self.ppu.oam_data@[self.ppu.oam_addr as int]
            } else if reg == 7 {
                let a = self.ppu.scroll.spec_v() & 0x3FFF;
                if a < 0x3F00 {
                    self.ppu.internal_data_buf
                } else {
                    self.ppu.palette_table@[crate::ppu::spec_mirror_palette(a)]
                }
            } else {
                0u8
            }
        } else if addr == 0x4015 {
            self.apu.spec_status_byte()
        } else if addr == 0x4016 {
            crate::joypad::spec_read_value(self.joypad1)
        } else if addr == 0x4017 {
            crate::joypad::spec_read_value(self.joypad2)
        } else if addr < 0x4020 {
            0u8
        } else {
            self.cart.mapper.spec_read_prg(addr)
        }
    }

    /// Reads are pure everywhere but PPUSTATUS, PPUDATA, the APU status and
    /// the two controller ports.
    open spec fn reads_pure(&self, addr: u16) -> bool {
        if addr < 0x2000 {
            true
        } else if addr < 0x4000 {
            addr % 8 != 2 && addr % 8 != 7
        } else {
            addr != 0x4015 && addr != 0x4016 && addr != 0x4017
        }
    }

    /// Work RAM sits below 0x2000, mirrored every 2 KiB.
    open spec fn ram_addr(&self, addr: u16) -> bool {
        addr < 0x2000
    }

    /// A CPU read: RAM and cartridge reads are pure; PPU and APU register
    /// reads carry their documented side effects (status reads clear
    /// latches, 0x4015 acknowledges the frame IRQ).
    fn read(&mut self, addr: u16) -> (r: u8)
        ensures
            addr < 0x2000 ==> r == old(self).ram@[addr as int % 0x800] && *final(self) == *old(
                self,
            ),
            addr == 0x4016 ==> r == crate::joypad::spec_read_value(old(self).joypad1) && final(self).joypad1 == crate::joypad::spec_after_read(old(self).joypad1),
            addr == 0x4017 ==> r == crate::joypad::spec_read_value(old(self).joypad2) && final(self).joypad2 == crate::joypad::spec_after_read(old(self).joypad2),
    {
        if addr < 0x2000 {
            self.ram[Self::mirror_cpu_vram_addr(addr)]
        } else if addr < 0x4000 {
            let reg = Self::normalize_ppu_register_addr(addr);
            if reg == 0x2002 {
                self.ppu.read_status()
            } else if reg == 0x2004 {
                self.ppu.read_oam_data()
            } else if reg == 0x2007 {
                proof {
                    let v0 = self.ppu.scroll.spec_v();
                    assert(v0 & 0x3FFF < 0x4000u16) by (bit_vector);
                }
                self.ppu.read_data(&mut self.cart.mapper)
            } else {
                0
            }
        } else if addr == 0x4015 {
            self.apu.read_status()
        } else if addr == 0x4016 {
            self.joypad1.read()
        } else if addr == 0x4017 {
            self.joypad2.read()
        } else if addr < 0x4020 {
            0
        } else {
            self.cart.mapper.read_prg(addr)
        }
    }

    /// A CPU write, dispatched to RAM, a PPU or APU register, the controller
    /// strobe, OAM DMA or the cartridge; each target leaves the others
    /// untouched.
    fn write(&mut self, addr: u16, data: u8)
        ensures
            addr < 0x2000 ==> final(self).ram@ == old(self).ram@.update(addr as int % 0x800, data)
                && *final(self) == (Bus { ram: final(self).ram, ..*old(self) }),
            0x2000 <= addr < 0x4000 ==> *final(self) == (Bus {
                ppu: final(self).ppu,
                cart: final(self).cart,
                ..*old(self)
            }),
            0x2000 <= addr < 0x4000 && addr % 8 != 7 ==> final(self).cart == old(self).cart,
            0x4000 <= addr <= 0x4013 || addr == 0x4015 || addr == 0x4017 ==> *final(self) == (Bus {
                apu: final(self).apu,
                ..*old(self)
            }),
            addr == 0x4014 && data < 0x20 ==> *final(self) == (Bus {
                ppu: final(self).ppu,
                dma_stall: 513u16,
                ..*old(self)
            }),
            addr == 0x4014 ==> final(self).dma_stall == 513,
            addr == 0x4014 && data < 0x20 ==> final(self).ppu == (crate::ppu::PPU {
                oam_data: final(self).ppu.oam_data,
                ..old(self).ppu
            }) && forall|i: int|
                0 <= i < 256 ==> #[trigger] final(self).ppu.oam_data@[(old(self).ppu.oam_addr + i)
                    % 256] == old(self).ram@[((data as int) * 256 + i) % 0x800],
            addr == 0x4016 ==> {
                &&& final(self).joypad1 == (crate::joypad::Joypad {
                    strobe: (data & 1) == 1,
                    button_index: if (data & 1) == 1 {
                        0u8
                    } else {
                        old(self).joypad1.button_index
                    },
                    button_status: old(self).joypad1.button_status,
                })
                &&& final(self).joypad2 == (crate::joypad::Joypad {
                    strobe: (data & 1) == 1,
                    button_index: if (data & 1) == 1 {
                        0u8
                    } else {
                        old(self).joypad2.button_index
                    },
                    button_status: old(self).joypad2.button_status,
                })
                &&& *final(self) == (Bus {
                    joypad1: final(self).joypad1,
                    joypad2: final(self).joypad2,
                    ..*old(self)
                })
            },
            0x4018 <= addr < 0x4020 ==> *final(self) == *old(self),
            addr >= 0x4020 ==> *final(self) == (Bus { cart: final(self).cart, ..*old(self) }),
    {
        if addr < 0x2000 {
            self.ram.set(Self::mirror_cpu_vram_addr(addr), data);
            proof {
                assert forall|a: u16| #[trigger] self.read_of(a) == (if old(self).ram_addr(a) && a
                    % 0x800 == addr % 0x800 {
                    data
                } else {
                    old(self).read_of(a)
                }) by {
                    if a < 0x2000 {
                        assert(self.ram@ == old(self).ram@.update(addr as int % 0x800, data));
                        assert(a as int % 0x800 < 0x800);
                    }
                }
            }
        } else if addr < 0x4000 {
            let reg = Self::normalize_ppu_register_addr(addr);
            if reg == 0x2000 {
                self.ppu.write_to_ctrl(data);
            } else if reg == 0x2001 {
                self.ppu.write_to_mask(data);
            } else if reg == 0x2003 {
                self.ppu.write_to_oam_addr(data);
            } else if reg == 0x2004 {
                self.ppu.write_to_oam_data(data);
            } else if reg == 0x2005 {
                self.ppu.write_to_scroll(data);
            } else if reg == 0x2006 {
                self.ppu.write_to_ppu_addr(data);
            } else if reg == 0x2007 {
                self.ppu.write_to_data(&mut self.cart.mapper, data);
            }
        } else if addr <= 0x4013 {
            self.apu.write_register(addr, data);
        } else if addr == 0x4014 {
            let mut buffer: [u8; 256] = [0;256];
            let hi: u16 = (data as u16) * 256;
            let mut i: usize = 0;
            while i < 256
                invariant
                    self.wf(),
                    hi == data * 256,
                    hi <= 0xFF00,
                    i <= 256,
                    data < 0x20 ==> *self == *old(self) && forall|j: int|
                        0 <= j < i ==> #[trigger] buffer@[j] == old(self).ram@[(hi + j) % 0x800],
                decreases 256 - i,
            {
                let b = self.read(hi + i as u16);
                buffer.set(i, b);
                i = i + 1;
            }
            self.ppu.write_oam_dma(&buffer);
            self.dma_stall = 513;
            proof {
                if data < 0x20 {
                    assert forall|i: int| 0 <= i < 256 implies #[trigger] self.ppu.oam_data@[(old(
                        self,
                    ).ppu.oam_addr + i) % 256] == old(self).ram@[((data as int) * 256 + i)
                        % 0x800] by {
                        assert(self.ppu.oam_data@[(old(self).ppu.oam_addr + i) % 256]
                            == buffer@[i]);
                        assert(buffer@[i] == old(self).ram@[(hi + i) % 0x800]);
                    }
                }
            }
        } else if addr == 0x4015 {
            self.apu.write_status(data);
        } else if addr == 0x4016 {
            self.joypad1.write(data);
            self.joypad2.write(data);
        } else if addr == 0x4017 {
            self.apu.write_frame_counter(data);
        } else if addr < 0x4020 {
            // disabled APU and IO range
        } else {
            self.cart.mapper.write_prg(addr, data);
        }
    }
}

} // verus!
