//! MMC5: banked work RAM, character banks that differ for background and
//! sprite fetches, ExRAM that can serve as a nametable or per-tile override
//! source, a fill-mode nametable and a scanline IRQ comparator.

use vstd::array::ArrayAdditionalExecFns;
use vstd::prelude::*;
use vstd::wrapping::usize_specs;

use crate::cart::Mirroring;
use crate::mapper::{ChrSource, Mapper, filled_vec};

verus! {

pub const PRG_RAM_BANK_SIZE: usize = 0x2000;
pub const CHR_REGISTER_COUNT: usize = 12;

/// The sprite character register serving a 1 KiB chunk, per banking mode.
fn sprite_chr_reg(mode: u8, chunk: usize) -> (r: usize)
    requires
        chunk < 8,
    ensures
        r < CHR_REGISTER_COUNT,
{
    if mode == 0 {
        7
    } else if mode == 1 {
        if chunk < 4 {
            3
        } else {
            7
        }
    } else if mode == 2 {
        if chunk < 2 {
            1
        } else if chunk < 4 {
            3
        } else if chunk < 6 {
            5
        } else {
            7
        }
    } else {
        chunk
    }
}

/// The background character register serving a 1 KiB chunk, per banking mode.
fn bg_chr_reg(mode: u8, chunk: usize) -> (r: usize)
    requires
        chunk < 8,
    ensures
        r < CHR_REGISTER_COUNT,
{
    if mode == 0 || mode == 1 {
        11
    } else if mode == 2 {
        if chunk == 2 || chunk == 3 || chunk == 6 || chunk == 7 {
            11
        } else {
            9
        }
    } else {
        8 + (chunk % 4)
    }
}

pub struct Mmc5Mapper {
    prg_rom: Vec<u8>,
    chr: Vec<u8>,
    chr_is_ram: bool,
    prg_ram: Vec<u8>,
    mirroring: Mirroring,
    prg_mode: u8,
    chr_mode: u8,
    prg_bank_regs: [u8; 4],
    prg_bank_offsets: [usize; 4],
    prg_ram_bank: u8,
    prg_ram_protect_a: u8,
    prg_ram_protect_b: u8,
    prg_ram_write_enabled: bool,
    chr_regs: [u16; 12],
    chr_sprite_offsets: [usize; 8],
    chr_bg_offsets: [usize; 8],
    chr_upper_bits: u8,
    chr_io_background: bool,
    exram: Vec<u8>,
    exram_mode: u8,
    nametable_mapping: [u8; 4],
    fill_tile: u8,
    fill_attr: u8,
    irq_scanline: u8,
    irq_enabled: bool,
    irq_pending: bool,
    in_frame: bool,
    current_scanline: u8,
    multiplier_a: u8,
    multiplier_b: u8,
}

impl Mmc5Mapper {
    pub fn new(prg_rom: Vec<u8>, chr_rom: Vec<u8>, mirroring: Mirroring) -> (r: Mmc5Mapper)
        ensures
            r.inv(),
    {
        let chr_is_ram = chr_rom.len() == 0;
        let chr = if chr_is_ram {
            filled_vec(0x2000, 0)
        } else {
            chr_rom
        };

        let mut mapper = Mmc5Mapper {
            prg_rom,
            chr,
            chr_is_ram,
            prg_ram: filled_vec(0x10000, 0),
            mirroring,
            prg_mode: 3,
            chr_mode: 3,
            prg_bank_regs: [0, 0, 0, 0],
            prg_bank_offsets: [0, 0, 0, 0],
            prg_ram_bank: 0,
            prg_ram_protect_a: 0,
            prg_ram_protect_b: 0,
            prg_ram_write_enabled: false,
            chr_regs: [0, 0, 0, 0, 0, 0, 0, 0, 0, 0, 0, 0],
            chr_sprite_offsets: [0, 0, 0, 0, 0, 0, 0, 0],
            chr_bg_offsets: [0, 0, 0, 0, 0, 0, 0, 0],
            chr_upper_bits: 0,
            chr_io_background: false,
            exram: filled_vec(0x400, 0),
            exram_mode: 0,
            nametable_mapping: [0, 0, 0, 0],
            fill_tile: 0,
            fill_attr: 0,
            irq_scanline: 0,
            irq_enabled: false,
            irq_pending: false,
            in_frame: false,
            current_scanline: 0,
            multiplier_a: 0,
            multiplier_b: 0,
        };
        mapper.sync_prg_banks();
        mapper.sync_chr_banks();
        mapper
    }

    /// The IRQ unit is untouched.
    pub closed spec fn keeps_irq(&self, pre: Mmc5Mapper) -> bool {
        &&& self.irq_scanline == pre.irq_scanline
        &&& self.irq_enabled == pre.irq_enabled
        &&& self.irq_pending == pre.irq_pending
        &&& self.current_scanline == pre.current_scanline
        &&& self.in_frame == pre.in_frame
    }

    pub closed spec fn spec_irq_pending(&self) -> bool {
        self.irq_pending
    }

    pub closed spec fn spec_irq_enabled(&self) -> bool {
        self.irq_enabled
    }

    pub closed spec fn spec_irq_scanline(&self) -> u8 {
        self.irq_scanline
    }

    pub closed spec fn spec_current_scanline(&self) -> u8 {
        self.current_scanline
    }

    pub closed spec fn spec_in_frame(&self) -> bool {
        self.in_frame
    }

    pub closed spec fn spec_inv(&self) -> bool {
        &&& self.chr.len() > 0
        &&& self.prg_ram.len() == 0x10000
        &&& self.exram.len() == 0x400
    }

    fn prg_bank_count(&self) -> (r: usize)
        ensures
            r >= 1,
    {
        let count = self.prg_rom.len() / 0x2000;
        if count == 0 {
            1
        } else {
            count
        }
    }

    fn chr_bank_span(&self) -> (r: usize)
        ensures
            r == 0x2000 || r == 0x1000 || r == 0x0800 || r == 0x0400,
    {
        let m = self.chr_mode & 0x03;
        if m == 0 {
            0x2000
        } else if m == 1 {
            0x1000
        } else if m == 2 {
            0x0800
        } else {
            0x0400
        }
    }

    fn sync_prg_banks(&mut self)
        requires
            old(self).spec_inv(),
        ensures
            final(self).spec_inv(),
            final(self).keeps_irq(*old(self)),
    {
        let mode = self.prg_mode & 0x03;
        let slot_to_register: [u8; 4] = if mode == 0 {
            [3, 3, 3, 3]
        } else if mode == 1 {
            [1, 1, 3, 3]
        } else if mode == 2 {
            [1, 1, 2, 3]
        } else {
            [0, 1, 2, 3]
        };

        let mut slot: usize = 0;
        while slot < 4
            invariant
                self.spec_inv(),
                self.keeps_irq(*old(self)),
            decreases 4 - slot,
        {
            let reg_index = slot_to_register[slot];
            let value = if (reg_index as usize) < 4 {
                self.prg_bank_regs[reg_index as usize]
            } else {
                0
            };

            let is_rom = reg_index == 3 || (value & 0x80) != 0;
            let offset: usize = if is_rom && self.prg_rom.len() > 0 {
                let bank = ((value & 0x7F) as usize) % self.prg_bank_count();
                bank.wrapping_mul(0x2000)
            } else {
                usize::MAX
            };
            self.prg_bank_offsets.set(slot, offset);
            slot = slot + 1;
        }
    }

    fn compute_chr_offset(&self, reg_index: usize, chunk: usize, span: usize) -> usize
        requires
            self.spec_inv(),
            reg_index < CHR_REGISTER_COUNT,
            span == 0x2000 || span == 0x1000 || span == 0x0800 || span == 0x0400,
    {
        if self.chr.len() == 0 {
            return 0;
        }
        let value = self.chr_regs[reg_index] as usize;
        let base = value.wrapping_mul(span) % self.chr.len();
        let chunks_per_bank = span / 0x400;
        let offset = base.wrapping_add((chunk % chunks_per_bank).wrapping_mul(0x400));
        offset % self.chr.len()
    }

    fn sync_chr_banks(&mut self)
        requires
            old(self).spec_inv(),
        ensures
            final(self).spec_inv(),
            final(self).keeps_irq(*old(self)),
    {
        let size = self.chr_bank_span();
        let mode = self.chr_mode & 0x03;
        let mut chunk: usize = 0;
        while chunk < 8
            invariant
                self.spec_inv(),
                self.keeps_irq(*old(self)),
                size == 0x2000 || size == 0x1000 || size == 0x0800 || size == 0x0400,
            decreases 8 - chunk,
        {
            let sprite_reg = sprite_chr_reg(mode, chunk);
            let sprite_off = self.compute_chr_offset(sprite_reg, chunk, size);
            self.chr_sprite_offsets.set(chunk, sprite_off);

            let bg_reg = bg_chr_reg(mode, chunk);
            let bg_off = self.compute_chr_offset(bg_reg, chunk, size);
            self.chr_bg_offsets.set(chunk, bg_off);
            chunk = chunk + 1;
        }
    }

    /// The ROM index behind a banked CPU address, when one is mapped.
    pub closed spec fn spec_prg_rom_index(&self, addr: u16) -> Option<int> {
        if self.prg_rom@.len() == 0 {
            None
        } else {
            let slot = (addr - 0x8000) as int / 0x2000;
            if slot >= 4 {
                None
            } else {
                let offset = self.prg_bank_offsets@[slot];
                if offset == usize::MAX {
                    None
                } else {
                    let within = (addr as usize) & 0x1FFF;
                    Some(
                        usize_specs::wrapping_add(offset, within as usize) as int % (
                        self.prg_rom@.len() as int),
                    )
                }
            }
        }
    }

    fn resolve_prg_addr(&self, addr: u16) -> (r: Option<usize>)
        requires
            self.spec_inv(),
            addr >= 0x8000,
        ensures
            r matches Some(i) ==> i < self.prg_rom@.len(),
            (r is Some) == (self.spec_prg_rom_index(addr) is Some),
            r matches Some(i) ==> self.spec_prg_rom_index(addr) == Some(i as int),
    {
        if self.prg_rom.len() == 0 {
            return None;
        }
        let slot = ((addr - 0x8000) / 0x2000) as usize;
        if slot >= 4 {
            return None;
        }
        let offset = self.prg_bank_offsets[slot];
        if offset == usize::MAX {
            None
        } else {
            let within = (addr as usize) & 0x1FFF;
            Some(offset.wrapping_add(within) % self.prg_rom.len())
        }
    }

    /// The work-RAM index behind a banked CPU address, when RAM is present.
    pub closed spec fn spec_prg_ram_index(&self, addr: u16) -> Option<int> {
        if self.prg_ram@.len() == 0 {
            None
        } else {
            let bank = ((self.prg_ram_bank as usize) & 0x0F) as int % (
            self.prg_ram@.len() as int / 0x2000);
            let base = usize_specs::wrapping_mul(bank as usize, 0x2000);
            let offset = (addr - 0x6000) as int % 0x2000;
            Some(
                usize_specs::wrapping_add(base, offset as usize) as int % (
                self.prg_ram@.len() as int),
            )
        }
    }

    fn resolve_prg_ram_addr(&self, addr: u16) -> (r: Option<usize>)
        requires
            self.spec_inv(),
            addr >= 0x6000,
        ensures
            r matches Some(i) ==> i < self.prg_ram@.len(),
            (r is Some) == (self.spec_prg_ram_index(addr) is Some),
            r matches Some(i) ==> self.spec_prg_ram_index(addr) == Some(i as int),
    {
        if self.prg_ram.len() == 0 {
            return None;
        }
        let bank = ((self.prg_ram_bank as usize) & 0x0F) % (self.prg_ram.len() / PRG_RAM_BANK_SIZE);
        let base = bank.wrapping_mul(PRG_RAM_BANK_SIZE);
        let offset = ((addr - 0x6000) as usize) % PRG_RAM_BANK_SIZE;
        Some(base.wrapping_add(offset) % self.prg_ram.len())
    }

    fn update_prg_ram_write(&mut self)
        requires
            old(self).spec_inv(),
        ensures
            final(self).spec_inv(),
            final(self).keeps_irq(*old(self)),
    {
        self.prg_ram_write_enabled = self.prg_ram_protect_a == 2 && self.prg_ram_protect_b == 1;
    }

    fn write_chr_register(&mut self, reg: usize, value: u8)
        requires
            old(self).spec_inv(),
        ensures
            final(self).spec_inv(),
            final(self).keeps_irq(*old(self)),
    {
        if reg >= CHR_REGISTER_COUNT {
            return ;
        }
        let upper = (self.chr_upper_bits & 0x03) as u16;
        self.chr_regs.set(reg, (upper << 8u16) | value as u16);
        self.chr_io_background = reg >= 8;
        self.sync_chr_banks();
    }

    fn exram_accessible(&self) -> (r: bool)
        ensures
            r == (self.exram_mode == 0 || self.exram_mode == 1),
    {
        self.exram_mode == 0 || self.exram_mode == 1
    }

    fn read_exram(&self, offset: usize) -> (r: u8)
        requires
            self.spec_inv(),
        ensures
            r == self.exram@[offset as int % (self.exram@.len() as int)],
    {
        self.exram[offset % self.exram.len()]
    }

    fn write_exram(&mut self, offset: usize, value: u8)
        requires
            old(self).spec_inv(),
        ensures
            final(self).spec_inv(),
            final(self).keeps_irq(*old(self)),
    {
        if self.exram_mode == 0 || self.exram_mode == 1 || self.exram_mode == 2 {
            let idx = offset % self.exram.len();
            self.exram.set(idx, value);
        }
    }

    fn nametable_slot(&self, addr: u16) -> (r: (u8, usize))
        requires
            addr >= 0x2000,
        ensures
            r.1 < 0x400,
            r.0 == self.nametable_mapping@[((addr - 0x2000) as int / 0x400) % 4],
            r.1 == (addr - 0x2000) as int % 0x400,
    {
        let quadrant = (((addr - 0x2000) / 0x400) as usize) % 4;
        let offset = ((addr - 0x2000) as usize) % 0x400;
        (self.nametable_mapping[quadrant], offset)
    }

    fn fill_value(&self, offset: usize) -> (r: u8)
        ensures
            r == if offset >= 0x3C0 {
                (((self.fill_attr as int) % 4) * 0x55) as u8
            } else {
                self.fill_tile
            },
    {
        if offset >= 0x3C0 {
            (self.fill_attr % 4) * 0x55
        } else {
            self.fill_tile
        }
    }

    fn tile_exram_offset(&self, table_index: usize, tile_column: usize, tile_row: usize) -> (r:
        usize)
        requires
            self.spec_inv(),
        ensures
            r < 0x400,
    {
        ((tile_row % 30) * 32 + (tile_column % 32)) % self.exram.len()
    }
}

impl Mapper for Mmc5Mapper {
    closed spec fn spec_mirroring(&self) -> Mirroring {
        self.mirroring
    }

    open spec fn inv(&self) -> bool {
        self.spec_inv()
    }

    closed spec fn spec_read_prg(&self, addr: u16) -> u8 {
        if 0x6000 <= addr && addr <= 0x7FFF {
            match self.spec_prg_ram_index(addr) {
                Some(i) => self.prg_ram@[i],
                None => 0u8,
            }
        } else if addr >= 0x8000 {
            match self.spec_prg_rom_index(addr) {
                Some(i) => self.prg_rom@[i],
                None => 0u8,
            }
        } else {
            0u8
        }
    }

    fn read_prg(&self, addr: u16) -> u8 {
        if 0x6000 <= addr && addr <= 0x7FFF {
            match self.resolve_prg_ram_addr(addr) {
                Some(index) => self.prg_ram[index],
                None => 0,
            }
        } else if addr >= 0x8000 {
            match self.resolve_prg_addr(addr) {
                Some(index) => self.prg_rom[index],
                None => 0,
            }
        } else {
            0
        }
    }

    /// Register writes; 0x5203 sets the IRQ comparator scanline and 0x5204
    /// bit 7 enables the IRQ, with a disable acknowledging any latched one.
    fn write_prg(&mut self, addr: u16, data: u8)
        ensures
            addr == 0x5203 ==> {
                &&& final(self).spec_irq_scanline() == data
                &&& final(self).spec_irq_enabled() == old(self).spec_irq_enabled()
                &&& final(self).spec_irq_pending() == old(self).spec_irq_pending()
                &&& final(self).spec_current_scanline() == old(self).spec_current_scanline()
            },
            addr == 0x5204 ==> {
                &&& final(self).spec_irq_enabled() == (data & 0x80 != 0)
                &&& final(self).spec_irq_scanline() == old(self).spec_irq_scanline()
                &&& final(self).spec_current_scanline() == old(self).spec_current_scanline()
                &&& final(self).spec_irq_pending() == (old(self).spec_irq_pending() && data & 0x80
                    != 0)
            },
            addr != 0x5203 && addr != 0x5204 ==> {
                &&& final(self).spec_irq_scanline() == old(self).spec_irq_scanline()
                &&& final(self).spec_irq_enabled() == old(self).spec_irq_enabled()
                &&& final(self).spec_irq_pending() == old(self).spec_irq_pending()
                &&& final(self).spec_current_scanline() == old(self).spec_current_scanline()
            },
    {
        if addr == 0x5100 {
            self.prg_mode = data & 0x03;
            self.sync_prg_banks();
        } else if addr == 0x5101 {
            self.chr_mode = data & 0x03;
            self.sync_chr_banks();
        } else if addr == 0x5102 {
            self.prg_ram_protect_a = data & 0x03;
            self.update_prg_ram_write();
        } else if addr == 0x5103 {
            self.prg_ram_protect_b = data & 0x03;
            self.update_prg_ram_write();
        } else if addr == 0x5104 {
            self.exram_mode = data & 0x03;
        } else if addr == 0x5105 {
            self.nametable_mapping = [
                data & 0x03,
                (data >> 2u8) & 0x03,
                (data >> 4u8) & 0x03,
                (data >> 6u8) & 0x03,
            ];
        } else if addr == 0x5106 {
            self.fill_tile = data;
        } else if addr == 0x5107 {
            self.fill_attr = data & 0x03;
        } else if addr == 0x5113 {
            self.prg_ram_bank = data & 0x0F;
        } else if 0x5114 <= addr && addr <= 0x5117 {
            let idx = (addr - 0x5114) as usize;
            self.prg_bank_regs.set(idx, data);
            self.sync_prg_banks();
        } else if 0x5120 <= addr && addr <= 0x512B {
            let idx = (addr - 0x5120) as usize;
            self.write_chr_register(idx, data);
        } else if addr == 0x5130 {
            self.chr_upper_bits = data & 0x03;
        } else if addr == 0x5203 {
            self.irq_scanline = data;
        } else if addr == 0x5204 {
            self.irq_enabled = data & 0x80 != 0;
            if !self.irq_enabled {
                self.irq_pending = false;
            }
        } else if addr == 0x5205 {
            self.multiplier_a = data;
        } else if addr == 0x5206 {
            self.multiplier_b = data;
        } else if 0x5C00 <= addr && addr <= 0x5FFF {
            let offset = (addr - 0x5C00) as usize;
            self.write_exram(offset, data);
        } else if 0x6000 <= addr && addr <= 0x7FFF {
            if self.prg_ram_write_enabled {
                match self.resolve_prg_ram_addr(addr) {
                    Some(index) => {
                        self.prg_ram.set(index, data);
                    },
                    None => {},
                }
            }
        }
    }

    closed spec fn spec_read_chr(&self, addr: u16, source: ChrSource) -> u8 {
        if self.chr@.len() == 0 {
            0u8
        } else {
            let chunk_raw = (addr as usize) / 0x400;
            let chunk: int = if chunk_raw > 7 {
                7
            } else {
                chunk_raw as int
            };
            let within = ((addr as usize) & 0x3FF) as usize;
            let base = if source == ChrSource::Sprite {
                self.chr_sprite_offsets@[chunk]
            } else if source == ChrSource::Background {
                self.chr_bg_offsets@[chunk]
            } else if self.chr_io_background {
                self.chr_bg_offsets@[chunk]
            } else {
                self.chr_sprite_offsets@[chunk]
            };
            let index = usize_specs::wrapping_add(base, within) as int % (self.chr@.len() as int);
            self.chr@[index]
        }
    }

    fn read_chr(&self, addr: u16, source: ChrSource) -> u8 {
        if self.chr.len() == 0 {
            return 0;
        }
        let chunk_raw = (addr as usize) / 0x400;
        let chunk = if chunk_raw > 7 {
            7
        } else {
            chunk_raw
        };
        let within = (addr as usize) & 0x3FF;
        let base = match source {
            ChrSource::Sprite => self.chr_sprite_offsets[chunk],
            ChrSource::Background => self.chr_bg_offsets[chunk],
            ChrSource::Cpu => {
                if self.chr_io_background {
                    self.chr_bg_offsets[chunk]
                } else {
                    self.chr_sprite_offsets[chunk]
                }
            },
        };
        let index = base.wrapping_add(within) % self.chr.len();
        self.chr[index]
    }

    fn write_chr(&mut self, addr: u16, data: u8) {
        if self.chr_is_ram && self.chr.len() > 0 {
            let chunk_raw = (addr as usize) / 0x400;
            let chunk = if chunk_raw > 7 {
                7
            } else {
                chunk_raw
            };
            let within = (addr as usize) & 0x3FF;
            let base = self.chr_sprite_offsets[chunk];
            let index = base.wrapping_add(within) % self.chr.len();
            self.chr.set(index, data);
        }
    }

    fn mirroring(&self) -> Mirroring {
        self.mirroring
    }

    /// Counts rendered scanlines and latches an IRQ when the comparator
    /// matches; leaving rendering resets the counter. The comparator value
    /// and the enable flag survive every scanline.
    fn handle_scanline(&mut self, rendering_enabled: bool)
        ensures
            final(self).spec_irq_scanline() == old(self).spec_irq_scanline(),
            final(self).spec_irq_enabled() == old(self).spec_irq_enabled(),
            rendering_enabled ==> {
                &&& final(self).spec_irq_pending() == (old(self).spec_irq_pending() || (old(
                    self,
                ).spec_irq_enabled() && old(self).spec_irq_scanline() != 0 && old(
                    self,
                ).spec_current_scanline() == old(self).spec_irq_scanline()))
                &&& final(self).spec_current_scanline() == vstd::wrapping::u8_specs::wrapping_add(
                    old(self).spec_current_scanline(),
                    1,
                )
            },
            !rendering_enabled ==> {
                &&& final(self).spec_irq_pending() == old(self).spec_irq_pending()
                &&& final(self).spec_current_scanline() == if old(self).spec_in_frame() {
                    0u8
                } else {
                    old(self).spec_current_scanline()
                }
            },
    {
        if rendering_enabled {
            self.in_frame = true;
            if self.irq_enabled && self.irq_scanline != 0 && self.current_scanline
                == self.irq_scanline {
                self.irq_pending = true;
            }
            self.current_scanline = self.current_scanline.wrapping_add(1);
        } else if self.in_frame {
            self.in_frame = false;
            self.current_scanline = 0;
        }
    }

    /// Reports the IRQ line: high exactly while an IRQ is latched with the
    /// comparator still enabled.
    fn poll_irq(&self) -> (r: Option<u8>)
        ensures
            r is Some <==> (self.spec_irq_pending() && self.spec_irq_enabled()),
    {
        if self.irq_pending && self.irq_enabled {
            Some(0)
        } else {
            None
        }
    }

    closed spec fn spec_nametable_read(&self, addr: u16, vram: Seq<u8>) -> Option<u8> {
        if !(0x2000 <= addr && addr <= 0x3EFF) {
            None
        } else {
            let mapping = self.nametable_mapping@[((addr - 0x2000) as int / 0x400) % 4];
            let offset = (addr - 0x2000) as int % 0x400;
            if mapping == 0 {
                Some(vram[offset % 0x400])
            } else if mapping == 1 {
                Some(vram[(0x400 + (offset % 0x400)) % (vram.len() as int)])
            } else if mapping == 2 {
                if self.exram_mode == 0 || self.exram_mode == 1 {
                    Some(self.exram@[offset % (self.exram@.len() as int)])
                } else {
                    Some(0u8)
                }
            } else {
                Some(
                    if offset >= 0x3C0 {
                        (((self.fill_attr as int) % 4) * 0x55) as u8
                    } else {
                        self.fill_tile
                    },
                )
            }
        }
    }

    closed spec fn spec_nametable_write_claimed(&self, addr: u16) -> bool {
        if !(0x2000 <= addr && addr <= 0x3EFF) {
            false
        } else {
            let mapping = self.nametable_mapping@[((addr - 0x2000) as int / 0x400) % 4];
            if mapping == 2 {
                self.exram_mode == 0 || self.exram_mode == 1
            } else {
                true
            }
        }
    }

    fn ppu_read_nametable(&self, addr: u16, vram: &Vec<u8>) -> Option<u8> {
        if !(0x2000 <= addr && addr <= 0x3EFF) {
            return None;
        }
        let (mapping, offset) = self.nametable_slot(addr);
        if mapping == 0 {
            Some(vram[offset % 0x400])
        } else if mapping == 1 {
            let idx = 0x400 + (offset % 0x400);
            Some(vram[idx % vram.len()])
        } else if mapping == 2 {
            if self.exram_accessible() {
                Some(self.read_exram(offset))
            } else {
                Some(0)
            }
        } else {
            Some(self.fill_value(offset))
        }
    }

    fn ppu_write_nametable(&mut self, addr: u16, value: u8, vram: &mut Vec<u8>) -> bool {
        if !(0x2000 <= addr && addr <= 0x3EFF) {
            return false;
        }
        let (mapping, offset) = self.nametable_slot(addr);
        if mapping == 0 {
            vram.set(offset % 0x400, value);
            true
        } else if mapping == 1 {
            let idx = 0x400 + (offset % 0x400);
            let len = vram.len();
            vram.set(idx % len, value);
            true
        } else if mapping == 2 {
            if self.exram_accessible() {
                self.write_exram(offset, value);
                true
            } else {
                false
            }
        } else {
            true
        }
    }

    fn background_tile_override(
        &self,
        table_index: usize,
        tile_column: usize,
        tile_row: usize,
        tile_index: u8,
        pattern_addr: u16,
    ) -> Option<[u8; 16]> {
        if self.exram_mode != 1 || self.chr.len() < 16 {
            return None;
        }
        let offset = self.tile_exram_offset(table_index, tile_column, tile_row);
        let entry = self.exram[offset];
        let bank_bits = (entry as usize) & 0x3F;
        let bank = (((self.chr_upper_bits as usize) & 0x03) << 6usize) | bank_bits;
        let tile_number = (((bank << 8usize) | tile_index as usize)) % (self.chr.len() / 16);
        let base = tile_number.wrapping_mul(16);
        if base >= self.chr.len() || self.chr.len() - base < 16 {
            return None;
        }
        let mut data: [u8; 16] = [0, 0, 0, 0, 0, 0, 0, 0, 0, 0, 0, 0, 0, 0, 0, 0];
        let mut i: usize = 0;
        while i < 16
            invariant
                base + 16 <= self.chr.len(),
            decreases 16 - i,
        {
            data.set(i, self.chr[base + i]);
            i = i + 1;
        }
        Some(data)
    }

    fn background_palette_override(
        &self,
        table_index: usize,
        tile_column: usize,
        tile_row: usize,
    ) -> Option<u8> {
        if self.exram_mode != 1 {
            return None;
        }
        let offset = self.tile_exram_offset(table_index, tile_column, tile_row);
        let entry = self.exram[offset];
        Some((entry >> 6u8) & 0x03)
    }
}

} // verus!
