//! UxROM: a switchable 16 KiB program bank at 0x8000 and the last bank fixed
//! at 0xC000, plus 8 KiB of work RAM.

use vstd::prelude::*;
use vstd::wrapping::usize_specs;

use crate::cart::Mirroring;
use crate::mapper::{ChrSource, Mapper, filled_vec};

verus! {

pub const PRG_BANK_SIZE: usize = 0x4000;

pub struct UxromMapper {
    prg_rom: Vec<u8>,
    chr: Vec<u8>,
    chr_is_ram: bool,
    prg_ram: Vec<u8>,
    bank_select: u8,
    mirroring: Mirroring,
}

impl UxromMapper {
    pub closed spec fn spec_prg_rom(&self) -> Seq<u8> {
        self.prg_rom@
    }

    pub closed spec fn spec_chr_rom(&self) -> Seq<u8> {
        self.chr@
    }

    pub fn new(prg_rom: Vec<u8>, chr_rom: Vec<u8>, mirroring: Mirroring) -> (r: UxromMapper)
        ensures
            r.inv(),
            r.spec_mirroring() == mirroring,
            r.spec_prg_rom() == prg_rom@,
            chr_rom@.len() > 0 ==> r.spec_chr_rom() == chr_rom@,
            chr_rom@.len() == 0 ==> r.spec_chr_rom().len() == 0x2000,
    {
        let chr_is_ram = chr_rom.len() == 0;
        let chr = if chr_is_ram {
            filled_vec(0x2000, 0)
        } else {
            chr_rom
        };
        UxromMapper {
            prg_rom,
            chr,
            chr_is_ram,
            prg_ram: filled_vec(0x2000, 0),
            bank_select: 0,
            mirroring,
        }
    }

    pub closed spec fn spec_bank_select(&self) -> u8 {
        self.bank_select
    }

    pub closed spec fn spec_prg_ram(&self) -> Seq<u8> {
        self.prg_ram@
    }

    /// The number of 16 KiB banks, at least one.
    pub closed spec fn spec_bank_count(&self) -> int {
        if self.prg_rom@.len() / 0x4000 == 0 {
            1
        } else {
            self.prg_rom@.len() as int / 0x4000
        }
    }

    /// The byte offset where a bank starts, reduced modulo the bank count.
    pub closed spec fn spec_bank_offset(&self, bank: usize) -> usize {
        usize_specs::wrapping_mul(((bank as int) % self.spec_bank_count()) as usize, 0x4000)
    }

    fn prg_bank_count(&self) -> (r: usize)
        ensures
            r >= 1,
            r == self.spec_bank_count(),
    {
        let count = self.prg_rom.len() / PRG_BANK_SIZE;
        if count == 0 {
            1
        } else {
            count
        }
    }

    fn prg_bank_offset(&self, bank: usize) -> (r: usize)
        ensures
            r == self.spec_bank_offset(bank),
    {
        let count = self.prg_bank_count();
        (bank % count).wrapping_mul(PRG_BANK_SIZE)
    }
}

impl Mapper for UxromMapper {
    closed spec fn spec_mirroring(&self) -> Mirroring {
        self.mirroring
    }

    closed spec fn inv(&self) -> bool {
        &&& self.chr.len() > 0
        &&& self.prg_ram.len() == 0x2000
    }

    closed spec fn spec_read_prg(&self, addr: u16) -> u8 {
        if 0x6000 <= addr && addr <= 0x7FFF {
            self.prg_ram@[addr - 0x6000]
        } else if 0x8000 <= addr && addr <= 0xBFFF {
            if self.prg_rom@.len() == 0 {
                0u8
            } else {
                let idx = usize_specs::wrapping_add(
                    self.spec_bank_offset(self.bank_select as usize),
                    (addr - 0x8000) as usize,
                );
                self.prg_rom@[(idx as int) % (self.prg_rom@.len() as int)]
            }
        } else if addr >= 0xC000 {
            if self.prg_rom@.len() == 0 {
                0u8
            } else {
                let idx = usize_specs::wrapping_add(
                    self.spec_bank_offset((self.spec_bank_count() - 1) as usize),
                    (addr - 0xC000) as usize,
                );
                self.prg_rom@[(idx as int) % (self.prg_rom@.len() as int)]
            }
        } else {
            0u8
        }
    }

    fn read_prg(&self, addr: u16) -> u8 {
        if 0x6000 <= addr && addr <= 0x7FFF {
            self.prg_ram[(addr - 0x6000) as usize]
        } else if 0x8000 <= addr && addr <= 0xBFFF {
            if self.prg_rom.len() == 0 {
                0
            } else {
                let offset = self.prg_bank_offset(self.bank_select as usize);
                let index = offset.wrapping_add(addr as usize - 0x8000);
                self.prg_rom[index % self.prg_rom.len()]
            }
        } else if addr >= 0xC000 {
            if self.prg_rom.len() == 0 {
                0
            } else {
                let last_bank = self.prg_bank_count() - 1;
                let offset = self.prg_bank_offset(last_bank);
                let index = offset.wrapping_add(addr as usize - 0xC000);
                self.prg_rom[index % self.prg_rom.len()]
            }
        } else {
            0
        }
    }

    /// Work-RAM writes land directly; a write at 0x8000 and above latches
    /// the switchable bank select, reduced modulo the bank count.
    fn write_prg(&mut self, addr: u16, data: u8)
        ensures
            addr < 0x6000 ==> *final(self) == *old(self),
            0x6000 <= addr <= 0x7FFF ==> final(self).spec_bank_select() == old(
                self,
            ).spec_bank_select() && final(self).spec_prg_ram() == old(self).spec_prg_ram().update(
                addr - 0x6000,
                data,
            ),
            addr >= 0x8000 ==> {
                &&& final(self).spec_prg_ram() == old(self).spec_prg_ram()
                &&& final(self).spec_bank_select() == (if old(self).spec_bank_count() % 256 == 0 {
                    0int
                } else {
                    data as int % (old(self).spec_bank_count() % 256)
                })
            },
    {
        if 0x6000 <= addr && addr <= 0x7FFF {
            self.prg_ram.set((addr - 0x6000) as usize, data);
        } else if addr >= 0x8000 {
            let count = (self.prg_bank_count() % 256) as u8;
            self.bank_select = if count == 0 {
                0
            } else {
                data % count
            };
        }
    }

    closed spec fn spec_read_chr(&self, addr: u16, source: ChrSource) -> u8 {
        self.chr@[addr as int % (self.chr@.len() as int)]
    }

    fn read_chr(&self, addr: u16, source: ChrSource) -> u8 {
        self.chr[addr as usize % self.chr.len()]
    }

    fn write_chr(&mut self, addr: u16, data: u8) {
        if self.chr_is_ram {
            let index = addr as usize % self.chr.len();
            self.chr.set(index, data);
        }
    }

    closed spec fn spec_nametable_read(&self, addr: u16, vram: Seq<u8>) -> Option<u8> {
        None
    }

    closed spec fn spec_nametable_write_claimed(&self, addr: u16) -> bool {
        false
    }

    fn ppu_read_nametable(&self, addr: u16, vram: &Vec<u8>) -> Option<u8> {
        None
    }

    fn ppu_write_nametable(&mut self, addr: u16, value: u8, vram: &mut Vec<u8>) -> bool {
        false
    }

    fn mirroring(&self) -> (r: Mirroring)
        ensures
            r == self.spec_mirroring(),
    {
        self.mirroring
    }
}

} // verus!
