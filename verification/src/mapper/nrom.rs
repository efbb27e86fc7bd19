//! NROM: no banking. A 16 KiB program ROM is mirrored across the upper half
//! of the address space; character memory is ROM, or 8 KiB of RAM when the
//! cartridge brought none.

use vstd::prelude::*;

use crate::cart::Mirroring;
use crate::mapper::{ChrSource, Mapper, filled_vec};

verus! {

pub struct NromMapper {
    prg_rom: Vec<u8>,
    chr: Vec<u8>,
    chr_is_ram: bool,
    mirroring: Mirroring,
}

impl NromMapper {
    pub closed spec fn spec_prg_rom(&self) -> Seq<u8> {
        self.prg_rom@
    }

    pub closed spec fn spec_chr_rom(&self) -> Seq<u8> {
        self.chr@
    }

    pub fn new(prg_rom: Vec<u8>, chr_rom: Vec<u8>, mirroring: Mirroring) -> (r: NromMapper)
        ensures
            r.inv(),
            r.spec_mirroring() == mirroring,
            r.spec_prg_rom() == prg_rom@,
            chr_rom@.len() > 0 ==> r.spec_chr_rom() == chr_rom@,
            chr_rom@.len() == 0 ==> r.spec_chr_rom().len() == 0x2000,
    {
        let chr_is_ram = chr_rom.len() == 0;
        let chr = if chr_is_ram {
            filled_vec(0x2000, 0)
        } else {
            chr_rom
        };
        NromMapper { prg_rom, chr, chr_is_ram, mirroring }
    }

}

impl Mapper for NromMapper {
    closed spec fn spec_mirroring(&self) -> Mirroring {
        self.mirroring
    }

    closed spec fn inv(&self) -> bool {
        self.chr.len() > 0
    }

    closed spec fn spec_read_prg(&self, addr: u16) -> u8 {
        if addr < 0x8000 {
            0u8
        } else if self.prg_rom@.len() == 0 {
            0u8
        } else {
            self.prg_rom@[(addr - 0x8000) % (self.prg_rom@.len() as int)]
        }
    }

    fn read_prg(&self, addr: u16) -> u8 {
        if addr < 0x8000 {
            return 0;
        }
        if self.prg_rom.len() == 0 {
            return 0;
        }
        let offset = (addr - 0x8000) as usize;
        self.prg_rom[offset % self.prg_rom.len()]
    }

    fn write_prg(&mut self, addr: u16, data: u8) {
        // NROM has no PRG RAM; writes are ignored.
    }

    closed spec fn spec_read_chr(&self, addr: u16, source: ChrSource) -> u8 {
        self.chr@[addr as int % (self.chr@.len() as int)]
    }

    fn read_chr(&self, addr: u16, source: ChrSource) -> u8 {
        self.chr[addr as usize % self.chr.len()]
    }

    fn write_chr(&mut self, addr: u16, data: u8) {
        if self.chr_is_ram {
            let index = addr as usize % self.chr.len();
            self.chr.set(index, data);
        }
    }

    closed spec fn spec_nametable_read(&self, addr: u16, vram: Seq<u8>) -> Option<u8> {
        None
    }

    closed spec fn spec_nametable_write_claimed(&self, addr: u16) -> bool {
        false
    }

    fn ppu_read_nametable(&self, addr: u16, vram: &Vec<u8>) -> Option<u8> {
        None
    }

    fn ppu_write_nametable(&mut self, addr: u16, value: u8, vram: &mut Vec<u8>) -> bool {
        false
    }

    fn mirroring(&self) -> (r: Mirroring)
        ensures
            r == self.spec_mirroring(),
    {
        self.mirroring
    }
}

} // verus!
