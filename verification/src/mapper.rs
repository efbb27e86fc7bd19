//! Cartridge mappers: per-cartridge address translation, bank switching and
//! mapper IRQs. Each variant keeps its indices reduced modulo the physical
//! bank count, so malformed ROMs cannot cause out-of-bounds access; that is
//! the `inv` every mapper maintains.

pub mod cnrom;
pub mod mmc1;
pub mod mmc3;
pub mod mmc5;
pub mod nrom;
pub mod nsf;
pub mod uxrom;

use vstd::prelude::*;

use crate::cart::Mirroring;
use crate::mapper::cnrom::CnromMapper;
use crate::mapper::mmc1::Mmc1Mapper;
use crate::mapper::mmc3::Mmc3Mapper;
use crate::mapper::mmc5::Mmc5Mapper;
use crate::mapper::nrom::NromMapper;
use crate::mapper::nsf::NsfMapper;
use crate::mapper::uxrom::UxromMapper;

verus! {

/// A vector of `n` copies of `v`.
pub fn filled_vec(n: usize, v: u8) -> (r: Vec<u8>)
    ensures
        r@.len() == n,
        forall|i: int| 0 <= i < n ==> r@[i] == v,
{
    let mut out: Vec<u8> = Vec::new();
    let mut k: usize = 0;
    while k < n
        invariant
            k <= n,
            out@.len() == k,
            forall|i: int| 0 <= i < k ==> out@[i] == v,
        decreases n - k,
    {
        out.push(v);
        k = k + 1;
    }
    out
}

/// Which agent a pattern-table read is for; MMC5 banks background and sprite
/// fetches differently.
#[derive(Clone, Copy, PartialEq, Eq, Structural, Debug)]
pub enum ChrSource {
    Background,
    Sprite,
    Cpu,
}

/// The capability set every cartridge variant provides. `inv` is the
/// variant's own well-formedness; constructors establish it and every
/// mutation preserves it.
pub trait Mapper: Sized {
    spec fn inv(&self) -> bool;

    spec fn spec_mirroring(&self) -> Mirroring;

    /// The byte a CPU read returns for each address, as a function of the
    /// mapper's banking state.
    spec fn spec_read_prg(&self, addr: u16) -> u8;

    /// The byte a pattern-table read returns, as a function of the mapper's
    /// character banking state and the fetching agent.
    spec fn spec_read_chr(&self, addr: u16, source: ChrSource) -> u8;

    /// What a nametable read through the mapper returns when it intercepts
    /// the address; `None` falls through to the PPU's internal VRAM.
    spec fn spec_nametable_read(&self, addr: u16, vram: Seq<u8>) -> Option<u8>;

    /// Whether the mapper claims a nametable write at this address; an
    /// unclaimed write falls through to the PPU's internal VRAM.
    spec fn spec_nametable_write_claimed(&self, addr: u16) -> bool;

    fn read_prg(&self, addr: u16) -> (r: u8)
        requires
            self.inv(),
        ensures
            r == self.spec_read_prg(addr),
    ;

    fn write_prg(&mut self, addr: u16, data: u8)
        requires
            old(self).inv(),
        ensures
            final(self).inv(),
    ;

    fn read_chr(&self, addr: u16, source: ChrSource) -> (r: u8)
        requires
            self.inv(),
        ensures
            r == self.spec_read_chr(addr, source),
    ;

    fn write_chr(&mut self, addr: u16, data: u8)
        requires
            old(self).inv(),
        ensures
            final(self).inv(),
    ;

    fn mirroring(&self) -> (r: Mirroring)
        requires
            self.inv(),
        ensures
            r == self.spec_mirroring(),
    ;

    fn handle_scanline(&mut self, rendering_enabled: bool)
        requires
            old(self).inv(),
        ensures
            final(self).inv(),
    {
    }

    fn poll_irq(&self) -> Option<u8>
        requires
            self.inv(),
    {
        None
    }

    fn ppu_read_nametable(&self, addr: u16, vram: &Vec<u8>) -> (r: Option<u8>)
        requires
            self.inv(),
            vram.len() == 2048,
        ensures
            r == self.spec_nametable_read(addr, vram@),
    ;

    fn ppu_write_nametable(&mut self, addr: u16, value: u8, vram: &mut Vec<u8>) -> (r: bool)
        requires
            old(self).inv(),
            old(vram).len() == 2048,
        ensures
            final(self).inv(),
            final(vram).len() == 2048,
            r == old(self).spec_nametable_write_claimed(addr),
            !r ==> *final(self) == *old(self) && final(vram)@ == old(vram)@,
    ;

    fn peek_nametable(&self, addr: u16, vram: &Vec<u8>) -> (r: Option<u8>)
        requires
            self.inv(),
            vram.len() == 2048,
        ensures
            r == self.spec_nametable_read(addr, vram@),
    {
        self.ppu_read_nametable(addr, vram)
    }

    fn background_tile_override(
        &self,
        table_index: usize,
        tile_column: usize,
        tile_row: usize,
        tile_index: u8,
        pattern_addr: u16,
    ) -> Option<[u8; 16]>
        requires
            self.inv(),
    {
        None
    }

    fn background_palette_override(
        &self,
        table_index: usize,
        tile_column: usize,
        tile_row: usize,
    ) -> Option<u8>
        requires
            self.inv(),
    {
        None
    }
}

/// The closed sum of cartridge variants a `Cart` can hold, dispatching the
/// capability set to the variant it carries.
pub enum AnyMapper {
    Nrom(NromMapper),
    Uxrom(UxromMapper),
    Cnrom(CnromMapper),
    Mmc1(Mmc1Mapper),
    Mmc3(Mmc3Mapper),
    Mmc5(Mmc5Mapper),
    Nsf(NsfMapper),
}

impl Mapper for AnyMapper {
    open spec fn spec_mirroring(&self) -> Mirroring {
        match self {
            AnyMapper::Nrom(m) => m.spec_mirroring(),
            AnyMapper::Uxrom(m) => m.spec_mirroring(),
            AnyMapper::Cnrom(m) => m.spec_mirroring(),
            AnyMapper::Mmc1(m) => m.spec_mirroring(),
            AnyMapper::Mmc3(m) => m.spec_mirroring(),
            AnyMapper::Mmc5(m) => m.spec_mirroring(),
            AnyMapper::Nsf(m) => m.spec_mirroring(),
        }
    }

    open spec fn inv(&self) -> bool {
        match self {
            AnyMapper::Nrom(m) => m.inv(),
            AnyMapper::Uxrom(m) => m.inv(),
            AnyMapper::Cnrom(m) => m.inv(),
            AnyMapper::Mmc1(m) => m.inv(),
            AnyMapper::Mmc3(m) => m.inv(),
            AnyMapper::Mmc5(m) => m.inv(),
            AnyMapper::Nsf(m) => m.inv(),
        }
    }

    open spec fn spec_read_prg(&self, addr: u16) -> u8 {
        match self {
            AnyMapper::Nrom(m) => m.spec_read_prg(addr),
            AnyMapper::Uxrom(m) => m.spec_read_prg(addr),
            AnyMapper::Cnrom(m) => m.spec_read_prg(addr),
            AnyMapper::Mmc1(m) => m.spec_read_prg(addr),
            AnyMapper::Mmc3(m) => m.spec_read_prg(addr),
            AnyMapper::Mmc5(m) => m.spec_read_prg(addr),
            AnyMapper::Nsf(m) => m.spec_read_prg(addr),
        }
    }

    fn read_prg(&self, addr: u16) -> u8 {
        match self {
            AnyMapper::Nrom(m) => m.read_prg(addr),
            AnyMapper::Uxrom(m) => m.read_prg(addr),
            AnyMapper::Cnrom(m) => m.read_prg(addr),
            AnyMapper::Mmc1(m) => m.read_prg(addr),
            AnyMapper::Mmc3(m) => m.read_prg(addr),
            AnyMapper::Mmc5(m) => m.read_prg(addr),
            AnyMapper::Nsf(m) => m.read_prg(addr),
        }
    }

    fn write_prg(&mut self, addr: u16, data: u8) {
        match self {
            AnyMapper::Nrom(m) => m.write_prg(addr, data),
            AnyMapper::Uxrom(m) => m.write_prg(addr, data),
            AnyMapper::Cnrom(m) => m.write_prg(addr, data),
            AnyMapper::Mmc1(m) => m.write_prg(addr, data),
            AnyMapper::Mmc3(m) => m.write_prg(addr, data),
            AnyMapper::Mmc5(m) => m.write_prg(addr, data),
            AnyMapper::Nsf(m) => m.write_prg(addr, data),
        }
    }

    open spec fn spec_read_chr(&self, addr: u16, source: ChrSource) -> u8 {
        match self {
            AnyMapper::Nrom(m) => m.spec_read_chr(addr, source),
            AnyMapper::Uxrom(m) => m.spec_read_chr(addr, source),
            AnyMapper::Cnrom(m) => m.spec_read_chr(addr, source),
            AnyMapper::Mmc1(m) => m.spec_read_chr(addr, source),
            AnyMapper::Mmc3(m) => m.spec_read_chr(addr, source),
            AnyMapper::Mmc5(m) => m.spec_read_chr(addr, source),
            AnyMapper::Nsf(m) => m.spec_read_chr(addr, source),
        }
    }

    fn read_chr(&self, addr: u16, source: ChrSource) -> u8 {
        match self {
            AnyMapper::Nrom(m) => m.read_chr(addr, source),
            AnyMapper::Uxrom(m) => m.read_chr(addr, source),
            AnyMapper::Cnrom(m) => m.read_chr(addr, source),
            AnyMapper::Mmc1(m) => m.read_chr(addr, source),
            AnyMapper::Mmc3(m) => m.read_chr(addr, source),
            AnyMapper::Mmc5(m) => m.read_chr(addr, source),
            AnyMapper::Nsf(m) => m.read_chr(addr, source),
        }
    }

    fn write_chr(&mut self, addr: u16, data: u8) {
        match self {
            AnyMapper::Nrom(m) => m.write_chr(addr, data),
            AnyMapper::Uxrom(m) => m.write_chr(addr, data),
            AnyMapper::Cnrom(m) => m.write_chr(addr, data),
            AnyMapper::Mmc1(m) => m.write_chr(addr, data),
            AnyMapper::Mmc3(m) => m.write_chr(addr, data),
            AnyMapper::Mmc5(m) => m.write_chr(addr, data),
            AnyMapper::Nsf(m) => m.write_chr(addr, data),
        }
    }

    fn mirroring(&self) -> Mirroring {
        match self {
            AnyMapper::Nrom(m) => m.mirroring(),
            AnyMapper::Uxrom(m) => m.mirroring(),
            AnyMapper::Cnrom(m) => m.mirroring(),
            AnyMapper::Mmc1(m) => m.mirroring(),
            AnyMapper::Mmc3(m) => m.mirroring(),
            AnyMapper::Mmc5(m) => m.mirroring(),
            AnyMapper::Nsf(m) => m.mirroring(),
        }
    }

    fn handle_scanline(&mut self, rendering_enabled: bool) {
        match self {
            AnyMapper::Nrom(m) => m.handle_scanline(rendering_enabled),
            AnyMapper::Uxrom(m) => m.handle_scanline(rendering_enabled),
            AnyMapper::Cnrom(m) => m.handle_scanline(rendering_enabled),
            AnyMapper::Mmc1(m) => m.handle_scanline(rendering_enabled),
            AnyMapper::Mmc3(m) => m.handle_scanline(rendering_enabled),
            AnyMapper::Mmc5(m) => m.handle_scanline(rendering_enabled),
            AnyMapper::Nsf(m) => m.handle_scanline(rendering_enabled),
        }
    }

    fn poll_irq(&self) -> Option<u8> {
        match self {
            AnyMapper::Nrom(m) => m.poll_irq(),
            AnyMapper::Uxrom(m) => m.poll_irq(),
            AnyMapper::Cnrom(m) => m.poll_irq(),
            AnyMapper::Mmc1(m) => m.poll_irq(),
            AnyMapper::Mmc3(m) => m.poll_irq(),
            AnyMapper::Mmc5(m) => m.poll_irq(),
            AnyMapper::Nsf(m) => m.poll_irq(),
        }
    }

    open spec fn spec_nametable_read(&self, addr: u16, vram: Seq<u8>) -> Option<u8> {
        match self {
            AnyMapper::Nrom(m) => m.spec_nametable_read(addr, vram),
            AnyMapper::Uxrom(m) => m.spec_nametable_read(addr, vram),
            AnyMapper::Cnrom(m) => m.spec_nametable_read(addr, vram),
            AnyMapper::Mmc1(m) => m.spec_nametable_read(addr, vram),
            AnyMapper::Mmc3(m) => m.spec_nametable_read(addr, vram),
            AnyMapper::Mmc5(m) => m.spec_nametable_read(addr, vram),
            AnyMapper::Nsf(m) => m.spec_nametable_read(addr, vram),
        }
    }

    open spec fn spec_nametable_write_claimed(&self, addr: u16) -> bool {
        match self {
            AnyMapper::Nrom(m) => m.spec_nametable_write_claimed(addr),
            AnyMapper::Uxrom(m) => m.spec_nametable_write_claimed(addr),
            AnyMapper::Cnrom(m) => m.spec_nametable_write_claimed(addr),
            AnyMapper::Mmc1(m) => m.spec_nametable_write_claimed(addr),
            AnyMapper::Mmc3(m) => m.spec_nametable_write_claimed(addr),
            AnyMapper::Mmc5(m) => m.spec_nametable_write_claimed(addr),
            AnyMapper::Nsf(m) => m.spec_nametable_write_claimed(addr),
        }
    }

    fn ppu_read_nametable(&self, addr: u16, vram: &Vec<u8>) -> Option<u8> {
        match self {
            AnyMapper::Nrom(m) => m.ppu_read_nametable(addr, vram),
            AnyMapper::Uxrom(m) => m.ppu_read_nametable(addr, vram),
            AnyMapper::Cnrom(m) => m.ppu_read_nametable(addr, vram),
            AnyMapper::Mmc1(m) => m.ppu_read_nametable(addr, vram),
            AnyMapper::Mmc3(m) => m.ppu_read_nametable(addr, vram),
            AnyMapper::Mmc5(m) => m.ppu_read_nametable(addr, vram),
            AnyMapper::Nsf(m) => m.ppu_read_nametable(addr, vram),
        }
    }

    fn ppu_write_nametable(&mut self, addr: u16, value: u8, vram: &mut Vec<u8>) -> bool {
        match self {
            AnyMapper::Nrom(m) => m.ppu_write_nametable(addr, value, vram),
            AnyMapper::Uxrom(m) => m.ppu_write_nametable(addr, value, vram),
            AnyMapper::Cnrom(m) => m.ppu_write_nametable(addr, value, vram),
            AnyMapper::Mmc1(m) => m.ppu_write_nametable(addr, value, vram),
            AnyMapper::Mmc3(m) => m.ppu_write_nametable(addr, value, vram),
            AnyMapper::Mmc5(m) => m.ppu_write_nametable(addr, value, vram),
            AnyMapper::Nsf(m) => m.ppu_write_nametable(addr, value, vram),
        }
    }

    fn peek_nametable(&self, addr: u16, vram: &Vec<u8>) -> Option<u8> {
        match self {
            AnyMapper::Nrom(m) => m.peek_nametable(addr, vram),
            AnyMapper::Uxrom(m) => m.peek_nametable(addr, vram),
            AnyMapper::Cnrom(m) => m.peek_nametable(addr, vram),
            AnyMapper::Mmc1(m) => m.peek_nametable(addr, vram),
            AnyMapper::Mmc3(m) => m.peek_nametable(addr, vram),
            AnyMapper::Mmc5(m) => m.peek_nametable(addr, vram),
            AnyMapper::Nsf(m) => m.peek_nametable(addr, vram),
        }
    }

    fn background_tile_override(
        &self,
        table_index: usize,
        tile_column: usize,
        tile_row: usize,
        tile_index: u8,
        pattern_addr: u16,
    ) -> Option<[u8; 16]> {
        match self {
            AnyMapper::Nrom(m) => m.background_tile_override(
                table_index,
                tile_column,
                tile_row,
                tile_index,
                pattern_addr,
            ),
            AnyMapper::Uxrom(m) => m.background_tile_override(
                table_index,
                tile_column,
                tile_row,
                tile_index,
                pattern_addr,
            ),
            AnyMapper::Cnrom(m) => m.background_tile_override(
                table_index,
                tile_column,
                tile_row,
                tile_index,
                pattern_addr,
            ),
            AnyMapper::Mmc1(m) => m.background_tile_override(
                table_index,
                tile_column,
                tile_row,
                tile_index,
                pattern_addr,
            ),
            AnyMapper::Mmc3(m) => m.background_tile_override(
                table_index,
                tile_column,
                tile_row,
                tile_index,
                pattern_addr,
            ),
            AnyMapper::Mmc5(m) => m.background_tile_override(
                table_index,
                tile_column,
                tile_row,
                tile_index,
                pattern_addr,
            ),
            AnyMapper::Nsf(m) => m.background_tile_override(
                table_index,
                tile_column,
                tile_row,
                tile_index,
                pattern_addr,
            ),
        }
    }

    fn background_palette_override(
        &self,
        table_index: usize,
        tile_column: usize,
        tile_row: usize,
    ) -> Option<u8> {
        match self {
            AnyMapper::Nrom(m) => m.background_palette_override(table_index, tile_column, tile_row),
            AnyMapper::Uxrom(m) => m.background_palette_override(
                table_index,
                tile_column,
                tile_row,
            ),
            AnyMapper::Cnrom(m) => m.background_palette_override(
                table_index,
                tile_column,
                tile_row,
            ),
            AnyMapper::Mmc1(m) => m.background_palette_override(table_index, tile_column, tile_row),
            AnyMapper::Mmc3(m) => m.background_palette_override(table_index, tile_column, tile_row),
            AnyMapper::Mmc5(m) => m.background_palette_override(table_index, tile_column, tile_row),
            AnyMapper::Nsf(m) => m.background_palette_override(table_index, tile_column, tile_row),
        }
    }
}

} // verus!
