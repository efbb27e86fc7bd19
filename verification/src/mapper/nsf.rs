//! NSF-style banking: eight 4 KiB program slots selected through registers
//! at 0x5FF8-0x5FFF, with the last slot initially holding the last bank.

use vstd::array::ArrayAdditionalExecFns;
use vstd::prelude::*;
use vstd::wrapping::u16_specs;
use vstd::wrapping::usize_specs;

use crate::cart::Mirroring;
use crate::mapper::{ChrSource, Mapper, filled_vec};

verus! {

pub struct NsfMapper {
    prg_rom: Vec<u8>,
    chr: Vec<u8>,
    chr_is_ram: bool,
    mirroring: Mirroring,
    banks: [usize; 8],
}

impl NsfMapper {
    /// The program image must hold at least one 4 KiB bank.
    pub fn new(prg_rom: Vec<u8>, chr_rom: Vec<u8>, mirroring: Mirroring) -> (r: NsfMapper)
        requires
            prg_rom.len() >= 0x1000,
        ensures
            r.inv(),
            r.spec_mirroring() == mirroring,
    {
        let total_banks = prg_rom.len() / 0x1000;
        let last_bank = total_banks - 1;
        let banks: [usize; 8] = [0, 0, 0, 0, 0, 0, 0, last_bank];

        let chr_is_ram = chr_rom.len() == 0;
        let chr = if chr_is_ram {
            filled_vec(0x2000, 0)
        } else {
            chr_rom
        };

        NsfMapper { prg_rom, banks, chr, chr_is_ram, mirroring }
    }

    /// The ROM index behind a banked CPU address.
    pub closed spec fn spec_prg_offset(&self, addr: u16) -> int {
        let rel = u16_specs::wrapping_sub(addr, 0x8000) as usize;
        let offset_within_slice = rel & 0x0FFF;
        let slice_idx = (rel >> 12) % 8;
        let bank = (self.banks@[slice_idx as int] as int) % (self.prg_rom@.len() as int / 0x1000);
        usize_specs::wrapping_add(
            usize_specs::wrapping_mul(bank as usize, 0x1000),
            offset_within_slice as usize,
        ) as int % (self.prg_rom@.len() as int)
    }

    fn prg_offset(&self, addr: u16) -> (r: usize)
        requires
            self.inv(),
        ensures
            r < self.prg_rom_len(),
            r == self.spec_prg_offset(addr),
    {
        let offset_within_slice = (addr.wrapping_sub(0x8000)) as usize & 0x0FFF;
        let slice_idx = ((addr.wrapping_sub(0x8000)) as usize >> 12usize) % 8;
        let bank = self.banks[slice_idx] % (self.prg_rom.len() / 0x1000);
        bank.wrapping_mul(0x1000).wrapping_add(offset_within_slice) % self.prg_rom.len()
    }

    pub closed spec fn prg_rom_len(&self) -> int {
        self.prg_rom.len() as int
    }
}

impl Mapper for NsfMapper {
    closed spec fn spec_mirroring(&self) -> Mirroring {
        self.mirroring
    }

    closed spec fn inv(&self) -> bool {
        &&& self.chr.len() > 0
        &&& self.prg_rom.len() >= 0x1000
    }

    closed spec fn spec_read_prg(&self, addr: u16) -> u8 {
        if addr < 0x8000 {
            0u8
        } else {
            self.prg_rom@[self.spec_prg_offset(addr)]
        }
    }

    fn read_prg(&self, addr: u16) -> u8 {
        if addr < 0x8000 {
            return 0;
        }
        let off = self.prg_offset(addr);
        self.prg_rom[off]
    }

    fn write_prg(&mut self, addr: u16, data: u8) {
        if 0x5FF8 <= addr && addr <= 0x5FFF {
            let idx = (addr - 0x5FF8) as usize;
            let total_banks = self.prg_rom.len() / 0x1000;
            let bank = (data as usize) % total_banks;
            self.banks.set(idx, bank);
        }
    }

    closed spec fn spec_read_chr(&self, addr: u16, source: ChrSource) -> u8 {
        self.chr@[addr as int % (self.chr@.len() as int)]
    }

    fn read_chr(&self, addr: u16, source: ChrSource) -> u8 {
        self.chr[(addr as usize) % self.chr.len()]
    }

    fn write_chr(&mut self, addr: u16, data: u8) {
        if self.chr_is_ram {
            let idx = (addr as usize) % self.chr.len();
            self.chr.set(idx, data);
        }
    }

    closed spec fn spec_nametable_read(&self, addr: u16, vram: Seq<u8>) -> Option<u8> {
        None
    }

    closed spec fn spec_nametable_write_claimed(&self, addr: u16) -> bool {
        false
    }

    fn ppu_read_nametable(&self, addr: u16, vram: &Vec<u8>) -> Option<u8> {
        None
    }

    fn ppu_write_nametable(&mut self, addr: u16, value: u8, vram: &mut Vec<u8>) -> bool {
        false
    }

    fn mirroring(&self) -> (r: Mirroring)
        ensures
            r == self.spec_mirroring(),
    {
        self.mirroring
    }
}

} // verus!
