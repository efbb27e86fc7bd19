//! The PPU: registers, VRAM and OAM, the loopy scroll state, dot-level
//! timing with NMI generation, and the per-frame list of scroll segments
//! that a renderer consumes.

pub mod palette;
pub mod regs;
pub mod scroll;

use vstd::prelude::*;

use crate::mapper::{ChrSource, Mapper};
use crate::ppu::regs::{AddrRegister, ControlRegister, MaskRegister, StatusRegister};
use crate::ppu::scroll::ScrollRegister;

verus! {

/// One horizontal strip of the frame rendered with a single scroll state.
#[derive(Clone, Copy, PartialEq, Eq, Structural, Debug)]
pub struct ScrollSegment {
    pub start_scanline: usize,
    pub scroll_x: usize,
    pub scroll_y: usize,
    pub base_nametable: usize,
    pub screen_origin: usize,
}

pub struct PPU {
    pub ctrl: ControlRegister,
    pub mask: MaskRegister,
    pub status: StatusRegister,
    pub scroll: ScrollRegister,
    pub addr: AddrRegister,
    pub vram: Vec<u8>,
    pub oam_addr: u8,
    pub oam_data: Vec<u8>,
    pub palette_table: Vec<u8>,
    pub nmi_interrupt: Option<u8>,
    pub cycle: i16,
    pub scanline: i16,
    pub frame_count: u64,
    pub internal_data_buf: u8,
    pub scroll_segments: Vec<ScrollSegment>,
    pub pending_scroll_descriptor: Option<(usize, usize, usize, usize)>,
}

/// The physical VRAM cell behind a logical nametable address, for a
/// mirroring mode. Addresses 0x3000-0x3FFF repeat 0x2000-0x2FFF.
pub open spec fn spec_mirror_vram(mirroring: crate::cart::Mirroring, addr: u16) -> int {
    let mirrored: int = if addr >= 0x3000 {
        addr - 0x1000
    } else {
        addr as int
    };
    let vram_index = mirrored - 0x2000;
    let name_table = vram_index / 0x400;
    match mirroring {
        crate::cart::Mirroring::Vertical => {
            if name_table == 2 || name_table == 3 {
                vram_index - 0x800
            } else {
                vram_index % 0x800
            }
        },
        crate::cart::Mirroring::Horizontal => {
            if name_table == 1 || name_table == 2 {
                vram_index - 0x400
            } else if name_table == 3 {
                vram_index - 0x800
            } else {
                vram_index % 0x800
            }
        },
        crate::cart::Mirroring::SingleScreenLower => vram_index % 0x400,
        crate::cart::Mirroring::SingleScreenUpper => (vram_index % 0x400) + 0x400,
        _ => vram_index % 0x800,
    }
}

/// The palette RAM cell behind a palette address: 32-byte mirroring with
/// 0x10/0x14/0x18/0x1C folded onto 0x00/0x04/0x08/0x0C.
pub open spec fn spec_mirror_palette(addr: u16) -> int {
    let index = (addr - 0x3F00) % 0x20;
    if index >= 0x10 && index % 4 == 0 {
        index - 0x10
    } else {
        index
    }
}

/// In horizontal mirroring the first two logical nametables share one
/// physical page: 0x2000 and 0x2400 reach the same cell, offset for offset.
pub proof fn lemma_horizontal_mirroring_shares_page(off: u16)
    requires
        off < 0x400,
    ensures
        spec_mirror_vram(crate::cart::Mirroring::Horizontal, (0x2000 + off) as u16)
            == spec_mirror_vram(crate::cart::Mirroring::Horizontal, (0x2400 + off) as u16),
{
}

/// Palette writes to 0x3F00/04/08/0C land in the same cell that reads of
/// 0x3F10/14/18/1C return: the mirrored addresses agree.
pub proof fn lemma_palette_mirroring(addr: u16)
    requires
        0x3F10 <= addr < 0x4000,
        (addr - 0x3F00) % 0x20 >= 0x10,
        addr % 4 == 0,
    ensures
        spec_mirror_palette(addr) == spec_mirror_palette((addr - 0x10) as u16),
{
    assert((addr - 0x3F00) % 0x20 == ((addr - 0x10) - 0x3F00) % 0x20 + 0x10);
}

/// Whether sprite 0 scores a hit as a scanline ends: sprite 0 sits on the
/// finished scanline, its left edge was reached within the scanline, it is
/// not parked at x = 255, and both background and sprites are shown.
pub open spec fn spec_sprite_zero_hit(ppu: PPU, cycle: int) -> bool {
    &&& ppu.oam_data@[0] == ppu.scanline
    &&& ppu.oam_data@[3] <= cycle
    &&& ppu.oam_data@[3] != 255
    &&& ppu.mask.bits & regs::MASK_SHOW_SPRITES != 0
    &&& ppu.mask.bits & regs::MASK_SHOW_BACKGROUND != 0
}

/// The nametable byte at a PPU address: the mapper's intercepted value when
/// it claims the address, else the PPU's internal VRAM through the mapper's
/// mirroring.
pub open spec fn spec_nametable_byte<M: Mapper>(ppu: PPU, mapper: M, addr: u16) -> u8 {
    match mapper.spec_nametable_read(addr, ppu.vram@) {
        Some(v) => v,
        None => ppu.vram@[spec_mirror_vram(mapper.spec_mirroring(), addr)],
    }
}

impl PPU {
    /// Memories have their fixed sizes and the scroll state is well formed.
    pub open spec fn wf(&self) -> bool {
        &&& self.vram.len() == 2048
        &&& self.oam_data.len() == 256
        &&& self.palette_table.len() == 32
        &&& self.scroll.wf()
        &&& self.addr.wf()
        &&& 0 <= self.cycle <= 340
        &&& 0 <= self.scanline <= 261
    }

    /// The same freshly powered PPU that `new` builds.
    pub fn empty() -> (r: PPU)
        ensures
            r.wf(),
            r.scroll_segments@.len() == 1,
            r.cycle == 0,
            r.scanline == 0,
            r.frame_count == 0,
            r.ctrl.bits == 0,
            r.mask.bits == 0,
            r.status.bits == 0,
            r.oam_addr == 0,
            r.internal_data_buf == 0,
            r.nmi_interrupt is None,
            r.pending_scroll_descriptor is None,
            r.scroll.spec_v() == 0,
            r.scroll.spec_t() == 0,
            r.scroll.spec_x() == 0,
            !r.scroll.spec_w(),
            r.addr.spec_hi() == 0,
            r.addr.spec_lo() == 0,
            r.addr.spec_hi_ptr(),
            forall|i: int| 0 <= i < 2048 ==> r.vram@[i] == 0,
            forall|i: int| 0 <= i < 256 ==> r.oam_data@[i] == 0,
            forall|i: int| 0 <= i < 32 ==> r.palette_table@[i] == 0,
            r.scroll_segments@[0] == (ScrollSegment {
                start_scanline: 0,
                scroll_x: 0,
                scroll_y: 0,
                base_nametable: 0,
                screen_origin: 0,
            }),
    {
        PPU::new()
    }

    /// A freshly powered PPU: every register, memory and counter zero, no
    /// pending NMI, and one opening scroll segment covering the whole frame.
    pub fn new() -> (r: PPU)
        ensures
            r.wf(),
            r.scroll_segments@.len() == 1,
            r.cycle == 0,
            r.scanline == 0,
            r.frame_count == 0,
            r.ctrl.bits == 0,
            r.mask.bits == 0,
            r.status.bits == 0,
            r.oam_addr == 0,
            r.internal_data_buf == 0,
            r.nmi_interrupt is None,
            r.pending_scroll_descriptor is None,
            r.scroll.spec_v() == 0,
            r.scroll.spec_t() == 0,
            r.scroll.spec_x() == 0,
            !r.scroll.spec_w(),
            r.addr.spec_hi() == 0,
            r.addr.spec_lo() == 0,
            r.addr.spec_hi_ptr(),
            forall|i: int| 0 <= i < 2048 ==> r.vram@[i] == 0,
            forall|i: int| 0 <= i < 256 ==> r.oam_data@[i] == 0,
            forall|i: int| 0 <= i < 32 ==> r.palette_table@[i] == 0,
            r.scroll_segments@[0] == (ScrollSegment {
                start_scanline: 0,
                scroll_x: 0,
                scroll_y: 0,
                base_nametable: 0,
                screen_origin: 0,
            }),
    {
        let mut ppu = PPU {
            ctrl: ControlRegister::new(),
            mask: MaskRegister::new(),
            status: StatusRegister::new(),
            oam_addr: 0,
            scroll: ScrollRegister::new(),
            addr: AddrRegister::new(),
            vram: crate::mapper::filled_vec(2048, 0),
            oam_data: crate::mapper::filled_vec(256, 0),
            palette_table: crate::mapper::filled_vec(32, 0),
            nmi_interrupt: None,
            cycle: 0,
            scanline: 0,
            frame_count: 0,
            internal_data_buf: 0,
            scroll_segments: Vec::new(),
            pending_scroll_descriptor: None,
        };
        ppu.reset_scroll_segments_for_new_frame();
        proof {
            assert((0u16 >> 5u16) & 0x1Fu16 == 0u16) by (bit_vector);
            assert((0u16 >> 12u16) & 0x07u16 == 0u16) by (bit_vector);
            assert((0u16 >> 10u16) & 0x03u16 == 0u16) by (bit_vector);
            assert(0u16 & 0x001Fu16 == 0u16) by (bit_vector);
        }
        ppu
    }

    /// The physical VRAM index behind a logical nametable address, per the
    /// mapper's current mirroring.
    pub fn mirror_vram_addr<M: Mapper>(&self, mapper: &M, addr: u16) -> (r: u16)
        requires
            mapper.inv(),
            0x2000 <= addr < 0x4000,
        ensures
            r == spec_mirror_vram(mapper.spec_mirroring(), addr),
            r < 0x800,
    {
        let mirrored = if addr >= 0x3000 {
            addr - 0x1000
        } else {
            addr
        };
        let vram_index = mirrored - 0x2000;
        let name_table = vram_index / 0x400;
        let mirroring = mapper.mirroring();
        match mirroring {
            crate::cart::Mirroring::Vertical => {
                if name_table == 2 || name_table == 3 {
                    vram_index - 0x800
                } else {
                    vram_index % 0x800
                }
            },
            crate::cart::Mirroring::Horizontal => {
                if name_table == 1 || name_table == 2 {
                    vram_index - 0x400
                } else if name_table == 3 {
                    vram_index - 0x800
                } else {
                    vram_index % 0x800
                }
            },
            crate::cart::Mirroring::SingleScreenLower => vram_index % 0x400,
            crate::cart::Mirroring::SingleScreenUpper => (vram_index % 0x400) + 0x400,
            _ => vram_index % 0x800,
        }
    }

    /// The palette RAM index behind a palette address.
    fn mirror_palette_addr(addr: u16) -> (r: usize)
        requires
            0x3F00 <= addr < 0x4000,
        ensures
            r == spec_mirror_palette(addr),
            r < 32,
    {
        let mut palette_index = (addr - 0x3F00) % 0x20;
        if palette_index >= 0x10 && palette_index % 4 == 0 {
            palette_index = palette_index - 0x10;
        }
        palette_index as usize
    }

    /// A nametable byte as the renderer sees it: the mapper may intercept,
    /// else internal VRAM through mirroring, per [`spec_nametable_byte`].
    pub fn peek_nametable_byte<M: Mapper>(&self, mapper: &M, addr: u16) -> (r: u8)
        requires
            self.wf(),
            mapper.inv(),
            0x2000 <= addr < 0x4000,
        ensures
            r == spec_nametable_byte(*self, *mapper, addr),
    {
        match mapper.peek_nametable(addr, &self.vram) {
            Some(v) => v,
            None => self.vram[self.mirror_vram_addr(mapper, addr) as usize],
        }
    }

    fn nametable_base_addr(table_index: usize) -> (r: u16)
        ensures
            0x2000 <= r <= 0x2C00,
            r == 0x2000 + (table_index % 4) * 0x400,
    {
        0x2000 + ((table_index % 4) * 0x400) as u16
    }

    /// The tile index at a column and row of a nametable.
    pub fn read_nametable_entry<M: Mapper>(
        &self,
        mapper: &M,
        table_index: usize,
        tile_column: usize,
        tile_row: usize,
    ) -> (r: u8)
        requires
            self.wf(),
            mapper.inv(),
            tile_column < 32,
            tile_row < 30,
        ensures
            r == spec_nametable_byte(
                *self,
                *mapper,
                (0x2000 + (table_index % 4) * 0x400 + tile_row * 32 + tile_column) as u16,
            ),
    {
        let base = Self::nametable_base_addr(table_index);
        let offset = (tile_row * 32 + tile_column) as u16;
        self.peek_nametable_byte(mapper, base + offset)
    }

    /// The attribute byte covering a 4x4 tile group of a nametable.
    pub fn read_attribute_entry<M: Mapper>(
        &self,
        mapper: &M,
        table_index: usize,
        tile_column: usize,
        tile_row: usize,
    ) -> (r: u8)
        requires
            self.wf(),
            mapper.inv(),
            tile_column < 32,
            tile_row < 30,
        ensures
            r == spec_nametable_byte(
                *self,
                *mapper,
                (0x2000 + (table_index % 4) * 0x400 + 0x3C0 + (tile_row / 4) * 8 + tile_column
                    / 4) as u16,
            ),
    {
        let base = Self::nametable_base_addr(table_index);
        let attr = 0x3C0 + (tile_row / 4 * 8 + tile_column / 4) as u16;
        self.peek_nametable_byte(mapper, base + attr)
    }

    fn increment_vram_addr(&mut self)
        requires
            old(self).wf(),
        ensures
            final(self).wf(),
            *final(self) == (PPU {
                scroll: final(self).scroll,
                addr: final(self).addr,
                ..*old(self)
            }),
            final(self).scroll.spec_v() == (old(self).scroll.spec_v() + (if old(self).ctrl.bits
                & regs::CTRL_VRAM_ADD_INCREMENT != 0 {
                32int
            } else {
                1int
            })) % 0x4000,
            final(self).scroll.spec_t() == old(self).scroll.spec_t(),
            final(self).scroll.spec_x() == old(self).scroll.spec_x(),
            final(self).scroll.spec_w() == old(self).scroll.spec_w(),
            final(self).addr.spec_hi_ptr() == old(self).addr.spec_hi_ptr(),
    {
        let step = self.ctrl.vram_addr_increment();
        self.addr.increment(step);
        self.scroll.increment(step);
    }

    /// The scroll segments recorded so far this frame, in order.
    pub fn scroll_segments(&self) -> (r: &Vec<ScrollSegment>)
        ensures
            r@ == self.spec_scroll_segments(),
    {
        &self.scroll_segments
    }

    pub closed spec fn spec_scroll_segments(&self) -> Seq<ScrollSegment> {
        self.scroll_segments@
    }

    fn current_scroll_descriptor(&self) -> (r: (usize, usize, usize))
        requires
            self.wf(),
        ensures
            r.0 == (self.scroll.spec_t() & 0x001F) * 8 + self.scroll.spec_x(),
            r.1 == ((self.scroll.spec_t() >> 5) & 0x1F) * 8 + ((self.scroll.spec_t() >> 12)
                & 0x07),
            r.2 == (self.scroll.spec_t() >> 10) & 0x03,
    {
        (self.scroll.scroll_x(), self.scroll.scroll_y(), self.scroll.base_nametable())
    }

    fn visible_scanline(&self) -> (r: Option<usize>)
        ensures
            r matches Some(s) ==> s == self.scanline && s < 240,
            (r is Some) == (0 <= self.scanline < 240),
    {
        if 0 <= self.scanline && self.scanline < 240 {
            Some(self.scanline as usize)
        } else {
            None
        }
    }

    fn push_scroll_segment(
        &mut self,
        descriptor: (usize, usize, usize),
        scanline: usize,
        screen_origin: usize,
    )
        requires
            old(self).wf(),
        ensures
            final(self).wf(),
            final(self).spec_scroll_segments().len() >= 1,
            *final(self) == (PPU {
                scroll_segments: final(self).scroll_segments,
                ..*old(self)
            }),
            final(self).spec_scroll_segments().last().scroll_x == descriptor.0,
            final(self).spec_scroll_segments().last().scroll_y == descriptor.1,
            final(self).spec_scroll_segments().last().base_nametable == descriptor.2,
            final(self).spec_scroll_segments().last().screen_origin == screen_origin,
    {
        let (scroll_x, scroll_y, base_nametable) = descriptor;
        let n = self.scroll_segments.len();
        if n > 0 {
            let last = self.scroll_segments[n - 1];
            if last.start_scanline == scanline {
                self.scroll_segments.set(
                    n - 1,
                    ScrollSegment {
                        start_scanline: scanline,
                        scroll_x,
                        scroll_y,
                        base_nametable,
                        screen_origin,
                    },
                );
                return ;
            }
            if last.scroll_x == scroll_x && last.scroll_y == scroll_y && last.base_nametable
                == base_nametable && last.screen_origin == screen_origin {
                return ;
            }
        }
        self.scroll_segments.push(
            ScrollSegment {
                start_scanline: scanline,
                scroll_x,
                scroll_y,
                base_nametable,
                screen_origin,
            },
        );
    }

    fn queue_scroll_state_change(&mut self, reset_origin: bool)
        requires
            old(self).wf(),
        ensures
            final(self).wf(),
            *final(self) == (PPU {
                scroll_segments: final(self).scroll_segments,
                pending_scroll_descriptor: final(self).pending_scroll_descriptor,
                ..*old(self)
            }),
            0 <= old(self).scanline < 240 ==> {
                &&& final(self).pending_scroll_descriptor == old(self).pending_scroll_descriptor
                &&& final(self).spec_scroll_segments().len() >= 1
                &&& final(self).spec_scroll_segments().last().scroll_x == (old(
                    self,
                ).scroll.spec_t() & 0x001F) * 8 + old(self).scroll.spec_x()
                &&& final(self).spec_scroll_segments().last().scroll_y == ((old(
                    self,
                ).scroll.spec_t() >> 5) & 0x1F) * 8 + ((old(self).scroll.spec_t() >> 12) & 0x07)
                &&& final(self).spec_scroll_segments().last().base_nametable == (old(
                    self,
                ).scroll.spec_t() >> 10) & 0x03
            },
            !(0 <= old(self).scanline < 240) ==> {
                &&& final(self).scroll_segments == old(self).scroll_segments
                &&& final(self).pending_scroll_descriptor matches Some(p) && p.0 == (old(
                    self,
                ).scroll.spec_t() & 0x001F) * 8 + old(self).scroll.spec_x() && p.1 == ((old(
                    self,
                ).scroll.spec_t() >> 5) & 0x1F) * 8 + ((old(self).scroll.spec_t() >> 12) & 0x07)
                    && p.2 == (old(self).scroll.spec_t() >> 10) & 0x03
            },
    {
        let descriptor = self.current_scroll_descriptor();
        match self.visible_scanline() {
            Some(scanline_raw) => {
                let scanline = if scanline_raw > 239 {
                    239
                } else {
                    scanline_raw
                };
                let screen_origin = if reset_origin {
                    scanline
                } else {
                    let n = self.scroll_segments.len();
                    if n > 0 {
                        self.scroll_segments[n - 1].screen_origin
                    } else {
                        0
                    }
                };
                self.push_scroll_segment(descriptor, scanline, screen_origin);
            },
            None => {
                let screen_origin = if reset_origin {
                    0
                } else {
                    match self.pending_scroll_descriptor {
                        Some(p) => p.3,
                        None => {
                            let n = self.scroll_segments.len();
                            if n > 0 {
                                self.scroll_segments[n - 1].screen_origin
                            } else {
                                0
                            }
                        },
                    }
                };
                self.pending_scroll_descriptor = Some(
                    (descriptor.0, descriptor.1, descriptor.2, screen_origin),
                );
            },
        }
    }

    /// Starts a new frame's segment list from the pending descriptor, or the
    /// live scroll state when none is pending; the list always holds one
    /// opening segment afterwards.
    pub fn reset_scroll_segments_for_new_frame(&mut self)
        requires
            old(self).wf(),
        ensures
            final(self).wf(),
            final(self).spec_scroll_segments().len() == 1,
            final(self).spec_scroll_segments()[0].start_scanline == 0,
            old(self).pending_scroll_descriptor matches Some(d) ==> final(self).spec_scroll_segments()[0] == (ScrollSegment {
                start_scanline: 0,
                scroll_x: d.0,
                scroll_y: d.1,
                base_nametable: d.2,
                screen_origin: d.3,
            }),
            old(self).pending_scroll_descriptor is None ==> {
                &&& final(self).spec_scroll_segments()[0].scroll_x == (old(self).scroll.spec_t()
                    & 0x001F) * 8 + old(self).scroll.spec_x()
                &&& final(self).spec_scroll_segments()[0].scroll_y == ((old(self).scroll.spec_t()
                    >> 5) & 0x1F) * 8 + ((old(self).scroll.spec_t() >> 12) & 0x07)
                &&& final(self).spec_scroll_segments()[0].base_nametable == (old(
                    self,
                ).scroll.spec_t() >> 10) & 0x03
                &&& final(self).spec_scroll_segments()[0].screen_origin == 0
            },
            *final(self) == (PPU {
                scroll_segments: final(self).scroll_segments,
                pending_scroll_descriptor: None,
                ..*old(self)
            }),
    {
        let descriptor = match self.pending_scroll_descriptor {
            Some(d) => d,
            None => {
                let (scroll_x, scroll_y, base_nametable) = self.current_scroll_descriptor();
                (scroll_x, scroll_y, base_nametable, 0)
            },
        };
        self.pending_scroll_descriptor = None;
        self.scroll_segments = Vec::new();
        self.scroll_segments.push(
            ScrollSegment {
                start_scanline: 0,
                scroll_x: descriptor.0,
                scroll_y: descriptor.1,
                base_nametable: descriptor.2,
                screen_origin: descriptor.3,
            },
        );
    }
}

impl PPU {
    /// A PPUCTRL write; entering NMI-enable during vblank latches an NMI, the
    /// nametable bits are copied into bits 10-11 of the scroll's `t`, and a
    /// nametable change is recorded as a scroll change. Nothing else moves.
    pub fn write_to_ctrl(&mut self, value: u8)
        requires
            old(self).wf(),
        ensures
            final(self).wf(),
            final(self).ctrl.bits == value,
            final(self).scroll.spec_t() == (old(self).scroll.spec_t() & !0x0C00) | (((value
                & 0x03) as u16) << 10),
            final(self).scroll.spec_v() == old(self).scroll.spec_v(),
            final(self).scroll.spec_x() == old(self).scroll.spec_x(),
            final(self).scroll.spec_w() == old(self).scroll.spec_w(),
            final(self).nmi_interrupt == if old(self).ctrl.bits & regs::CTRL_GENERATE_NMI == 0
                && value & regs::CTRL_GENERATE_NMI != 0 && old(self).status.bits
                & regs::STATUS_VBLANK_STARTED != 0 {
                Some(1u8)
            } else {
                old(self).nmi_interrupt
            },
            *final(self) == (PPU {
                ctrl: final(self).ctrl,
                scroll: final(self).scroll,
                nmi_interrupt: final(self).nmi_interrupt,
                scroll_segments: final(self).scroll_segments,
                pending_scroll_descriptor: final(self).pending_scroll_descriptor,
                ..*old(self)
            }),
            0 <= old(self).scanline < 240 ==> {
                &&& final(self).pending_scroll_descriptor == old(self).pending_scroll_descriptor
                &&& final(self).spec_scroll_segments().len() >= 1
                &&& final(self).spec_scroll_segments().last().scroll_x == (final(self).scroll.spec_t() & 0x001F) * 8 + final(self).scroll.spec_x()
                &&& final(self).spec_scroll_segments().last().scroll_y == ((final(self).scroll.spec_t() >> 5) & 0x1F) * 8 + ((final(self).scroll.spec_t() >> 12) & 0x07)
                &&& final(self).spec_scroll_segments().last().base_nametable == (final(self).scroll.spec_t() >> 10) & 0x03
            },
            !(0 <= old(self).scanline < 240) ==> {
                &&& final(self).scroll_segments == old(self).scroll_segments
                &&& final(self).pending_scroll_descriptor matches Some(p) && p.0 == (final(self).scroll.spec_t() & 0x001F) * 8 + final(self).scroll.spec_x() && p.1 == ((final(self).scroll.spec_t() >> 5) & 0x1F) * 8 + ((final(self).scroll.spec_t() >> 12) & 0x07)
                    && p.2 == (final(self).scroll.spec_t() >> 10) & 0x03
            },
    {
        let before_nmi_status = self.ctrl.generate_vblank_nmi();
        let previous_base_nametable = self.scroll.base_nametable();
        self.ctrl.update(value);
        self.scroll.update_ctrl(value);
        let base_changed = previous_base_nametable != self.scroll.base_nametable();
        if !before_nmi_status && self.ctrl.generate_vblank_nmi() && self.status.is_in_vblank() {
            self.nmi_interrupt = Some(1);
        }
        self.queue_scroll_state_change(base_changed);
    }

    /// A PPUMASK write; only the mask byte changes.
    pub fn write_to_mask(&mut self, value: u8)
        requires
            old(self).wf(),
        ensures
            final(self).wf(),
            final(self).mask.bits == value,
            *final(self) == (PPU { mask: final(self).mask, ..*old(self) }),
    {
        self.mask.update(value);
    }

    /// Reads PPUSTATUS: returns the byte, clears vblank and resets both
    /// write latches; everything else survives.
    pub fn read_status(&mut self) -> (r: u8)
        requires
            old(self).wf(),
        ensures
            final(self).wf(),
            r == old(self).status.bits,
            final(self).status.bits == old(self).status.bits & !regs::STATUS_VBLANK_STARTED,
            final(self).status.bits & regs::STATUS_VBLANK_STARTED == 0,
            !final(self).scroll.spec_w(),
            final(self).scroll.spec_v() == old(self).scroll.spec_v(),
            final(self).scroll.spec_t() == old(self).scroll.spec_t(),
            final(self).scroll.spec_x() == old(self).scroll.spec_x(),
            final(self).addr.spec_hi_ptr(),
            final(self).addr.spec_hi() == old(self).addr.spec_hi(),
            final(self).addr.spec_lo() == old(self).addr.spec_lo(),
            *final(self) == (PPU {
                status: final(self).status,
                scroll: final(self).scroll,
                addr: final(self).addr,
                ..*old(self)
            }),
    {
        let data = self.status.snapshot();
        self.status.reset_vblank_status();
        self.addr.reset_latch();
        self.scroll.reset_latch();
        data
    }

    /// An OAMADDR write; only the OAM address changes.
    pub fn write_to_oam_addr(&mut self, value: u8)
        requires
            old(self).wf(),
        ensures
            final(self).wf(),
            final(self).oam_addr == value,
            *final(self) == (PPU { oam_addr: value, ..*old(self) }),
    {
        self.oam_addr = value;
    }

    /// Writes the byte at the OAM address and advances it.
    pub fn write_to_oam_data(&mut self, value: u8)
        requires
            old(self).wf(),
        ensures
            final(self).wf(),
            final(self).oam_data@[old(self).oam_addr as int] == value,
            final(self).oam_addr == vstd::wrapping::u8_specs::wrapping_add(old(self).oam_addr, 1),
            final(self).oam_data@.len() == 256,
            forall|i: int|
                0 <= i < 256 && i != old(self).oam_addr ==> final(self).oam_data@[i] == old(self).oam_data@[i],
            *final(self) == (PPU {
                oam_addr: final(self).oam_addr,
                oam_data: final(self).oam_data,
                ..*old(self)
            }),
    {
        self.oam_data.set(self.oam_addr as usize, value);
        self.oam_addr = self.oam_addr.wrapping_add(1);
    }

    pub fn read_oam_data(&self) -> (r: u8)
        requires
            self.wf(),
        ensures
            r == self.oam_data@[self.oam_addr as int],
    {
        self.oam_data[self.oam_addr as usize]
    }

    /// A PPUSCROLL write: the first write of a pair sets coarse and fine X,
    /// the second sets coarse and fine Y, toggling the shared write latch; a
    /// completed pair records a scroll change. Nothing else moves.
    pub fn write_to_scroll(&mut self, value: u8)
        requires
            old(self).wf(),
        ensures
            final(self).wf(),
            final(self).scroll.spec_v() == old(self).scroll.spec_v(),
            final(self).scroll.spec_w() == !old(self).scroll.spec_w(),
            !old(self).scroll.spec_w() ==> final(self).scroll.spec_x() == value & 0x07 && final(self).scroll.spec_t() == (old(self).scroll.spec_t() & !0x001F) | (((value >> 3)
                & 0x1F) as u16),
            old(self).scroll.spec_w() ==> final(self).scroll.spec_x() == old(self).scroll.spec_x()
                && final(self).scroll.spec_t() == (((old(self).scroll.spec_t() & !0x73E0) | ((((
            value >> 3) & 0x1F) as u16) << 5) | (((value & 0x07) as u16) << 12)) & 0x3FFF),
            *final(self) == (PPU {
                scroll: final(self).scroll,
                scroll_segments: final(self).scroll_segments,
                pending_scroll_descriptor: final(self).pending_scroll_descriptor,
                ..*old(self)
            }),
            !old(self).scroll.spec_w() ==> final(self).scroll_segments == old(self).scroll_segments
                && final(self).pending_scroll_descriptor == old(self).pending_scroll_descriptor,
            old(self).scroll.spec_w() && 0 <= old(self).scanline < 240 ==> {
                &&& final(self).pending_scroll_descriptor == old(self).pending_scroll_descriptor
                &&& final(self).spec_scroll_segments().len() >= 1
                &&& final(self).spec_scroll_segments().last().scroll_x == (final(self).scroll.spec_t() & 0x001F) * 8 + final(self).scroll.spec_x()
                &&& final(self).spec_scroll_segments().last().scroll_y == ((final(self).scroll.spec_t() >> 5) & 0x1F) * 8 + ((final(self).scroll.spec_t() >> 12) & 0x07)
                &&& final(self).spec_scroll_segments().last().base_nametable == (final(self).scroll.spec_t() >> 10) & 0x03
            },
            old(self).scroll.spec_w() && !(0 <= old(self).scanline < 240) ==> {
                &&& final(self).scroll_segments == old(self).scroll_segments
                &&& final(self).pending_scroll_descriptor matches Some(p) && p.0 == (final(self).scroll.spec_t() & 0x001F) * 8 + final(self).scroll.spec_x() && p.1 == ((final(self).scroll.spec_t() >> 5) & 0x1F) * 8 + ((final(self).scroll.spec_t() >> 12) & 0x07)
                    && p.2 == (final(self).scroll.spec_t() >> 10) & 0x03
            },
    {
        let completed_sequence = self.scroll.write(value);
        if completed_sequence {
            self.queue_scroll_state_change(true);
        }
    }

    /// A PPUADDR write: the high six bits of the address land first, the low
    /// byte second, after which `t` is copied into `v`; both the address
    /// latch and the scroll latch toggle, and a completed pair records a
    /// scroll change. Nothing else moves.
    pub fn write_to_ppu_addr(&mut self, value: u8)
        requires
            old(self).wf(),
        ensures
            final(self).wf(),
            final(self).scroll.spec_w() == !old(self).scroll.spec_w(),
            final(self).scroll.spec_x() == old(self).scroll.spec_x(),
            !old(self).scroll.spec_w() ==> final(self).scroll.spec_t() == (old(
                self,
            ).scroll.spec_t() & 0x00FF) | (((value & 0x3F) as u16) << 8) && final(self).scroll.spec_v() == old(self).scroll.spec_v(),
            old(self).scroll.spec_w() ==> final(self).scroll.spec_t() == (old(self).scroll.spec_t()
                & 0xFF00) | value as u16 && final(self).scroll.spec_v() == final(self).scroll.spec_t(),
            final(self).addr.spec_hi_ptr() == !old(self).addr.spec_hi_ptr(),
            old(self).addr.spec_hi_ptr() ==> final(self).addr.spec_hi() == value % 0x40 && final(self).addr.spec_lo() == old(self).addr.spec_lo(),
            !old(self).addr.spec_hi_ptr() ==> final(self).addr.spec_lo() == value && final(self).addr.spec_hi() == old(self).addr.spec_hi(),
            *final(self) == (PPU {
                scroll: final(self).scroll,
                addr: final(self).addr,
                scroll_segments: final(self).scroll_segments,
                pending_scroll_descriptor: final(self).pending_scroll_descriptor,
                ..*old(self)
            }),
            !old(self).scroll.spec_w() ==> final(self).scroll_segments == old(self).scroll_segments
                && final(self).pending_scroll_descriptor == old(self).pending_scroll_descriptor,
            old(self).scroll.spec_w() && 0 <= old(self).scanline < 240 ==> {
                &&& final(self).pending_scroll_descriptor == old(self).pending_scroll_descriptor
                &&& final(self).spec_scroll_segments().len() >= 1
                &&& final(self).spec_scroll_segments().last().scroll_x == (final(self).scroll.spec_t() & 0x001F) * 8 + final(self).scroll.spec_x()
                &&& final(self).spec_scroll_segments().last().scroll_y == ((final(self).scroll.spec_t() >> 5) & 0x1F) * 8 + ((final(self).scroll.spec_t() >> 12) & 0x07)
                &&& final(self).spec_scroll_segments().last().base_nametable == (final(self).scroll.spec_t() >> 10) & 0x03
            },
            old(self).scroll.spec_w() && !(0 <= old(self).scanline < 240) ==> {
                &&& final(self).scroll_segments == old(self).scroll_segments
                &&& final(self).pending_scroll_descriptor matches Some(p) && p.0 == (final(self).scroll.spec_t() & 0x001F) * 8 + final(self).scroll.spec_x() && p.1 == ((final(self).scroll.spec_t() >> 5) & 0x1F) * 8 + ((final(self).scroll.spec_t() >> 12) & 0x07)
                    && p.2 == (final(self).scroll.spec_t() >> 10) & 0x03
            },
    {
        self.addr.update(value);
        let completed_sequence = self.scroll.write_ppu_addr(value);

        if completed_sequence {
            self.queue_scroll_state_change(true);
        }
    }

    /// A PPUDATA write to the address in `v`: pattern tables go to the
    /// mapper, nametables through the mapper or mirrored VRAM, palette
    /// entries keep their low six bits in the mirrored palette cell; then
    /// `v` steps by the configured increment.
    pub fn write_to_data<M: Mapper>(&mut self, mapper: &mut M, value: u8)
        requires
            old(self).wf(),
            old(mapper).inv(),
        ensures
            final(self).wf(),
            final(mapper).inv(),
            ({
                let a = old(self).scroll.spec_v() & 0x3FFF;
                &&& 0x3F00 <= a < 0x4000 ==> final(self).palette_table@[spec_mirror_palette(a)]
                    == (value & 0x3F)
                &&& 0x3F00 <= a < 0x4000 ==> final(self).vram == old(self).vram && *final(mapper)
                    == *old(mapper) && final(self).palette_table@ == old(
                    self,
                ).palette_table@.update(spec_mirror_palette(a), (value & 0x3F) as u8)
                &&& a < 0x3F00 ==> final(self).palette_table == old(self).palette_table
                &&& a < 0x2000 ==> final(self).vram == old(self).vram
                &&& (0x2000 <= a < 0x3F00 && !old(mapper).spec_nametable_write_claimed(a) ==> final(self).vram@ == old(self).vram@.update(
                    spec_mirror_vram(old(mapper).spec_mirroring(), a),
                    value,
                ) && *final(mapper) == *old(mapper))
            }),
            final(self).scroll.spec_v() == (old(self).scroll.spec_v() + (if old(self).ctrl.bits
                & regs::CTRL_VRAM_ADD_INCREMENT != 0 {
                32int
            } else {
                1int
            })) % 0x4000,
            final(self).scroll.spec_t() == old(self).scroll.spec_t(),
            final(self).scroll.spec_x() == old(self).scroll.spec_x(),
            final(self).scroll.spec_w() == old(self).scroll.spec_w(),
            *final(self) == (PPU {
                vram: final(self).vram,
                palette_table: final(self).palette_table,
                scroll: final(self).scroll,
                addr: final(self).addr,
                ..*old(self)
            }),
    {
        let ghost v0 = self.scroll.spec_v();
        let addr = self.scroll.addr();
        proof {
            assert(v0 & 0x3FFF < 0x4000u16) by (bit_vector);
        }
        if addr < 0x2000 {
            mapper.write_chr(addr, value);
        } else if addr < 0x3F00 {
            if !mapper.ppu_write_nametable(addr, value, &mut self.vram) {
                let idx = self.mirror_vram_addr(mapper, addr) as usize;
                self.vram.set(idx, value);
            }
        } else {
            let palette_index = PPU::mirror_palette_addr(addr);
            self.palette_table.set(palette_index, value & 0x3F);
        }
        self.increment_vram_addr();
    }

    /// A PPUDATA read from the address in `v`: pattern and nametable reads
    /// are buffered (the previous buffer is returned and refilled), palette
    /// reads return the cell directly while refilling the buffer from the
    /// mirrored nametable underneath; then `v` steps.
    pub fn read_data<M: Mapper>(&mut self, mapper: &mut M) -> (r: u8)
        requires
            old(self).wf(),
            old(mapper).inv(),
        ensures
            final(self).wf(),
            final(mapper).inv(),
            ({
                let a = old(self).scroll.spec_v() & 0x3FFF;
                &&& (a < 0x3F00 ==> r == old(self).internal_data_buf)
                &&& (0x3F00 <= a < 0x4000 ==> r == old(self).palette_table@[spec_mirror_palette(a)])
                &&& (0x3F00 <= a < 0x4000 ==> final(self).internal_data_buf == old(
                    self,
                ).vram@[spec_mirror_vram(old(mapper).spec_mirroring(), (a - 0x1000) as u16)]
                    && *final(mapper) == *old(mapper))
                &&& (a < 0x2000 ==> final(self).internal_data_buf == old(mapper).spec_read_chr(
                    a,
                    ChrSource::Cpu,
                ) && *final(mapper) == *old(mapper))
                &&& (0x2000 <= a < 0x3F00 ==> final(self).internal_data_buf == spec_nametable_byte(
                    *old(self),
                    *old(mapper),
                    a,
                ) && *final(mapper) == *old(mapper))
            }),
            final(self).scroll.spec_v() == (old(self).scroll.spec_v() + (if old(self).ctrl.bits
                & regs::CTRL_VRAM_ADD_INCREMENT != 0 {
                32int
            } else {
                1int
            })) % 0x4000,
            final(self).scroll.spec_t() == old(self).scroll.spec_t(),
            final(self).scroll.spec_x() == old(self).scroll.spec_x(),
            final(self).scroll.spec_w() == old(self).scroll.spec_w(),
            *final(self) == (PPU {
                scroll: final(self).scroll,
                addr: final(self).addr,
                internal_data_buf: final(self).internal_data_buf,
                ..*old(self)
            }),
    {
        let ghost v0 = self.scroll.spec_v();
        let addr = self.scroll.addr();
        proof {
            assert(v0 & 0x3FFF < 0x4000u16) by (bit_vector);
        }

        self.increment_vram_addr();

        if addr < 0x2000 {
            let result = self.internal_data_buf;
            self.internal_data_buf = mapper.read_chr(addr, ChrSource::Cpu);
            result
        } else if addr < 0x3F00 {
            let result = self.internal_data_buf;
            let value = match mapper.ppu_read_nametable(addr, &self.vram) {
                Some(v) => v,
                None => self.vram[self.mirror_vram_addr(mapper, addr) as usize],
            };
            self.internal_data_buf = value;
            result
        } else {
            let palette_index = PPU::mirror_palette_addr(addr);
            let mirrored_vram_addr = addr - 0x1000;
            let idx = self.mirror_vram_addr(mapper, mirrored_vram_addr) as usize;
            self.internal_data_buf = self.vram[idx];
            self.palette_table[palette_index]
        }
    }

    /// Copies 256 bytes into OAM starting at the OAM address, wrapping.
    pub fn write_oam_dma(&mut self, data: &[u8; 256])
        requires
            old(self).wf(),
        ensures
            final(self).wf(),
            final(self).oam_addr == old(self).oam_addr,
            forall|i: int|
                0 <= i < 256 ==> final(self).oam_data@[(old(self).oam_addr + i) % 256] == data@[i],
            *final(self) == (PPU { oam_data: final(self).oam_data, ..*old(self) }),
    {
        let mut i: usize = 0;
        while i < 256
            invariant
                old(self).wf(),
                self.wf(),
                i <= 256,
                self.oam_addr as int == (old(self).oam_addr + i) % 256,
                forall|j: int|
                    0 <= j < i ==> self.oam_data@[(old(self).oam_addr + j) % 256] == data@[j],
                *self == (PPU { oam_addr: self.oam_addr, oam_data: self.oam_data, ..*old(self) }),
            decreases 256 - i,
        {
            proof {
                assert forall|j: int|
                    0 <= j < i implies #[trigger] ((old(self).oam_addr + j) % 256) != (old(
                    self).oam_addr + i as int) % 256 by {
                    assert((old(self).oam_addr + j) % 256 == (old(self).oam_addr + i as int) % 256
                        ==> j % 256 == i as int % 256);
                }
            }
            self.oam_data.set(self.oam_addr as usize, data[i]);
            self.oam_addr = self.oam_addr.wrapping_add(1);
            i = i + 1;
        }
    }

    /// One PPU dot. At the end of scanline 240 the vblank flag rises and an
    /// NMI is latched when enabled; the pre-render scanline clears the frame
    /// flags; returns true exactly on the dot that ends the frame.
    pub fn clock<M: Mapper>(&mut self, mapper: &mut M) -> (frame_done: bool)
        requires
            old(self).wf(),
            old(mapper).inv(),
        ensures
            final(self).wf(),
            final(mapper).inv(),
            final(self).cycle == if old(self).cycle == 340 {
                0int
            } else {
                old(self).cycle + 1
            },
            final(self).scanline == if old(self).cycle != 340 {
                old(self).scanline as int
            } else if old(self).scanline == 261 {
                0int
            } else {
                old(self).scanline + 1
            },
            frame_done == (old(self).cycle == 340 && old(self).scanline == 261),
            old(self).cycle == 340 && old(self).scanline == 240 ==> {
                &&& final(self).status.bits & regs::STATUS_VBLANK_STARTED != 0
                &&& (old(self).ctrl.bits & regs::CTRL_GENERATE_NMI != 0 ==> final(self).nmi_interrupt is Some)
            },
            frame_done ==> final(self).status.bits & regs::STATUS_VBLANK_STARTED == 0 && final(self).frame_count
                == vstd::wrapping::u64_specs::wrapping_add(old(self).frame_count, 1),
            old(self).cycle != 340 ==> *final(self) == (PPU {
                cycle: final(self).cycle,
                status: final(self).status,
                ..*old(self)
            }),
            old(self).cycle != 340 ==> {
                &&& (final(self).status.bits & regs::STATUS_SPRITE_ZERO_HIT != 0) == (
                spec_sprite_zero_hit(*old(self), old(self).cycle + 1) || old(self).status.bits
                    & regs::STATUS_SPRITE_ZERO_HIT != 0)
                &&& final(self).status.bits & !regs::STATUS_SPRITE_ZERO_HIT == old(
                    self,
                ).status.bits & !regs::STATUS_SPRITE_ZERO_HIT
            },
            old(self).cycle == 340 && old(self).scanline < 240 ==> (final(self).status.bits
                & regs::STATUS_SPRITE_ZERO_HIT != 0) == (spec_sprite_zero_hit(*old(self), 341)
                || old(self).status.bits & regs::STATUS_SPRITE_ZERO_HIT != 0),
    {
        self.cycle = self.cycle + 1;

        if self.is_sprite_zero_hit(self.cycle as usize) {
            let ghost sb = self.status.bits;
            self.status.set_sprite_zero_hit(true);
            proof {
                assert((sb | 0x40u8) & 0x40u8 != 0) by (bit_vector);
                assert((sb | 0x40u8) & !0x40u8 == sb & !0x40u8) by (bit_vector);
            }
        }

        if self.cycle >= 341 {
            self.cycle = self.cycle - 341;

            if self.scanline < 240 {
                let rendering_enabled = self.mask.show_background() || self.mask.show_sprites();
                mapper.handle_scanline(rendering_enabled);
            }

            self.scanline = self.scanline + 1;

            if self.scanline == 241 {
                let ghost sb = self.status.bits;
                self.status.set_vblank_status(true);
                self.status.set_sprite_zero_hit(false);
                if self.ctrl.generate_vblank_nmi() {
                    self.nmi_interrupt = Some(1);
                }
                proof {
                    assert(((sb | 0x80u8) & !0x40u8) & 0x80u8 != 0) by (bit_vector);
                }
            }

            if self.scanline >= 262 {
                self.scanline = 0;
                self.cycle = 0;
                self.nmi_interrupt = None;
                self.status.set_sprite_zero_hit(false);
                self.status.reset_vblank_status();
                self.frame_count = self.frame_count.wrapping_add(1);
                return true;
            }
        }
        false
    }

    /// Consumes the pending NMI edge.
    pub fn poll_nmi_interrupt(&mut self) -> (r: Option<u8>)
        ensures
            r == old(self).nmi_interrupt,
            final(self).nmi_interrupt is None,
            *final(self) == (PPU { nmi_interrupt: None, ..*old(self) }),
    {
        let r = self.nmi_interrupt;
        self.nmi_interrupt = None;
        r
    }

    fn is_sprite_zero_hit(&self, cycle: usize) -> (r: bool)
        requires
            self.oam_data@.len() == 256,
        ensures
            r == spec_sprite_zero_hit(*self, cycle as int),
    {
        let y = self.oam_data[0] as usize;
        let x = self.oam_data[3] as usize;
        (self.scanline >= 0 && y == self.scanline as usize) && x <= cycle && x != 255
            && self.mask.show_sprites() && self.mask.show_background()
    }
}

} // verus!
