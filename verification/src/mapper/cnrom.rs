//! CNROM: fixed program ROM with a switchable 8 KiB character bank, plus
//! 8 KiB of work RAM.

use vstd::prelude::*;
use vstd::wrapping::usize_specs;

use crate::cart::Mirroring;
use crate::mapper::{ChrSource, Mapper, filled_vec};

verus! {

pub const CHR_BANK_SIZE: usize = 0x2000;

pub struct CnromMapper {
    prg_rom: Vec<u8>,
    chr: Vec<u8>,
    chr_is_ram: bool,
    prg_ram: Vec<u8>,
    chr_bank: u8,
    mirroring: Mirroring,
}

impl CnromMapper {
    pub closed spec fn spec_prg_rom(&self) -> Seq<u8> {
        self.prg_rom@
    }

    pub closed spec fn spec_chr_rom(&self) -> Seq<u8> {
        self.chr@
    }

    pub fn new(prg_rom: Vec<u8>, chr_rom: Vec<u8>, mirroring: Mirroring) -> (r: CnromMapper)
        ensures
            r.inv(),
            r.spec_mirroring() == mirroring,
            r.spec_prg_rom() == prg_rom@,
            chr_rom@.len() > 0 ==> r.spec_chr_rom() == chr_rom@,
            chr_rom@.len() == 0 ==> r.spec_chr_rom().len() == 0x2000,
    {
        let chr_is_ram = chr_rom.len() == 0;
        let chr = if chr_is_ram {
            filled_vec(CHR_BANK_SIZE, 0)
        } else {
            chr_rom
        };
        CnromMapper {
            prg_rom,
            chr,
            chr_is_ram,
            prg_ram: filled_vec(0x2000, 0),
            chr_bank: 0,
            mirroring,
        }
    }

    pub closed spec fn spec_chr_bank(&self) -> u8 {
        self.chr_bank
    }

    pub closed spec fn spec_prg_ram(&self) -> Seq<u8> {
        self.prg_ram@
    }

    /// The number of 8 KiB character banks, at least one.
    pub closed spec fn spec_chr_bank_count(&self) -> int {
        if self.chr@.len() / 0x2000 == 0 {
            1
        } else {
            self.chr@.len() as int / 0x2000
        }
    }

    fn chr_bank_count(&self) -> (r: usize)
        ensures
            r >= 1,
            r == self.spec_chr_bank_count(),
    {
        let count = self.chr.len() / CHR_BANK_SIZE;
        if count == 0 {
            1
        } else {
            count
        }
    }
}

impl Mapper for CnromMapper {
    closed spec fn spec_mirroring(&self) -> Mirroring {
        self.mirroring
    }

    closed spec fn inv(&self) -> bool {
        &&& self.chr.len() > 0
        &&& self.prg_ram.len() == 0x2000
    }

    closed spec fn spec_read_prg(&self, addr: u16) -> u8 {
        if 0x6000 <= addr && addr <= 0x7FFF {
            self.prg_ram@[addr - 0x6000]
        } else if addr >= 0x8000 {
            if self.prg_rom@.len() == 0 {
                0u8
            } else {
                self.prg_rom@[(addr - 0x8000) % (self.prg_rom@.len() as int)]
            }
        } else {
            0u8
        }
    }

    fn read_prg(&self, addr: u16) -> u8 {
        if 0x6000 <= addr && addr <= 0x7FFF {
            self.prg_ram[(addr - 0x6000) as usize]
        } else if addr >= 0x8000 {
            if self.prg_rom.len() == 0 {
                0
            } else {
                let offset = (addr - 0x8000) as usize;
                self.prg_rom[offset % self.prg_rom.len()]
            }
        } else {
            0
        }
    }

    /// Work-RAM writes land directly; a write at 0x8000 and above latches
    /// the character bank select, reduced modulo the bank count.
    fn write_prg(&mut self, addr: u16, data: u8)
        ensures
            addr < 0x6000 ==> *final(self) == *old(self),
            0x6000 <= addr <= 0x7FFF ==> final(self).spec_chr_bank() == old(self).spec_chr_bank()
                && final(self).spec_prg_ram() == old(self).spec_prg_ram().update(
                addr - 0x6000,
                data,
            ),
            addr >= 0x8000 ==> {
                &&& final(self).spec_prg_ram() == old(self).spec_prg_ram()
                &&& final(self).spec_chr_bank() == (if old(self).spec_chr_bank_count() % 256 == 0 {
                    0int
                } else {
                    data as int % (old(self).spec_chr_bank_count() % 256)
                })
            },
    {
        if 0x6000 <= addr && addr <= 0x7FFF {
            self.prg_ram.set((addr - 0x6000) as usize, data);
        } else if addr >= 0x8000 {
            let count = (self.chr_bank_count() % 256) as u8;
            self.chr_bank = if count == 0 {
                0
            } else {
                data % count
            };
        }
    }

    closed spec fn spec_read_chr(&self, addr: u16, source: ChrSource) -> u8 {
        let bank = usize_specs::wrapping_mul(
            ((self.chr_bank as int) % self.spec_chr_bank_count()) as usize,
            0x2000,
        );
        let index = usize_specs::wrapping_add(bank, ((addr as usize) & 0x1FFF) as usize);
        self.chr@[(index as int) % (self.chr@.len() as int)]
    }

    fn read_chr(&self, addr: u16, source: ChrSource) -> u8 {
        let bank = (self.chr_bank as usize % self.chr_bank_count()).wrapping_mul(CHR_BANK_SIZE);
        let offset = (addr as usize) & 0x1FFF;
        let index = bank.wrapping_add(offset);
        self.chr[index % self.chr.len()]
    }

    fn write_chr(&mut self, addr: u16, data: u8) {
        if self.chr_is_ram {
            let bank = (self.chr_bank as usize % self.chr_bank_count()).wrapping_mul(CHR_BANK_SIZE);
            let offset = (addr as usize) & 0x1FFF;
            let index = bank.wrapping_add(offset);
            let len = self.chr.len();
            let idx = index % len;
            self.chr.set(idx, data);
        }
    }

    closed spec fn spec_nametable_read(&self, addr: u16, vram: Seq<u8>) -> Option<u8> {
        None
    }

    closed spec fn spec_nametable_write_claimed(&self, addr: u16) -> bool {
        false
    }

    fn ppu_read_nametable(&self, addr: u16, vram: &Vec<u8>) -> Option<u8> {
        None
    }

    fn ppu_write_nametable(&mut self, addr: u16, value: u8, vram: &mut Vec<u8>) -> bool {
        false
    }

    fn mirroring(&self) -> (r: Mirroring)
        ensures
            r == self.spec_mirroring(),
    {
        self.mirroring
    }
}

} // verus!
