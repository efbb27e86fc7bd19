//! MMC1: a 5-bit serial shift register commits to one of four internal
//! registers chosen by the address; control selects mirroring, program bank
//! mode and character bank mode.

use vstd::prelude::*;
use vstd::wrapping::usize_specs;

use crate::cart::Mirroring;
use crate::mapper::{ChrSource, Mapper, filled_vec};

verus! {

pub const PRG_BANK_SIZE: usize = 0x4000;
pub const CHR_BANK_SIZE_4K: usize = 0x1000;
pub const SRAM_BANK_SIZE: usize = 0x2000;

#[derive(Clone, Copy, PartialEq, Eq, Structural, Debug)]
enum PrgMode {
    Bank32kb,
    FixFirstPage,
    FixLastPage,
}

#[derive(Clone, Copy, PartialEq, Eq, Structural, Debug)]
enum ChrMode {
    Bank8kb,
    Bank4kb,
}

pub struct Mmc1Mapper {
    prg_rom: Vec<u8>,
    chr: Vec<u8>,
    chr_is_ram: bool,
    prg_ram: Vec<u8>,
    prg_mode: PrgMode,
    chr_mode: ChrMode,
    prg_select: usize,
    prg_256kb_bank: usize,
    prg_last_bank: usize,
    chr_select0: usize,
    chr_select1: usize,
    last_wrote_chr_select1: bool,
    shift_reg: u8,
    shift_writes: u8,
    prg_ram_disabled: bool,
    prg_banks: [usize; 2],
    chr_banks: [usize; 2],
    sram_bank: usize,
    has_512kb_prg: bool,
    mirroring: Mirroring,
}

impl Mmc1Mapper {
    pub closed spec fn spec_shift_reg(&self) -> u8 {
        self.shift_reg
    }

    pub closed spec fn spec_shift_writes(&self) -> u8 {
        self.shift_writes
    }

    pub closed spec fn spec_prg_ram(&self) -> Seq<u8> {
        self.prg_ram@
    }

    pub closed spec fn spec_prg_ram_disabled(&self) -> bool {
        self.prg_ram_disabled
    }

    pub closed spec fn spec_sram_bank(&self) -> usize {
        self.sram_bank
    }

    pub closed spec fn spec_prg_rom(&self) -> Seq<u8> {
        self.prg_rom@
    }

    pub closed spec fn spec_chr_rom(&self) -> Seq<u8> {
        self.chr@
    }

    pub fn new(prg_rom: Vec<u8>, chr_rom: Vec<u8>, mirroring: Mirroring) -> (r: Mmc1Mapper)
        ensures
            r.inv(),
            r.spec_prg_rom() == prg_rom@,
            chr_rom@.len() > 0 ==> r.spec_chr_rom() == chr_rom@,
            chr_rom@.len() == 0 ==> r.spec_chr_rom().len() == 0x2000,
    {
        let chr_is_ram = chr_rom.len() == 0;
        let chr = if chr_is_ram {
            filled_vec(0x2000, 0)
        } else {
            chr_rom
        };

        let prg_bank_count_raw = prg_rom.len() / PRG_BANK_SIZE;
        let prg_bank_count = if prg_bank_count_raw == 0 {
            1
        } else {
            prg_bank_count_raw
        };
        let has_512kb_prg = prg_rom.len() > 256 * 1024;
        let prg_last_bank = if has_512kb_prg {
            let half = prg_bank_count / 2;
            if half == 0 {
                0
            } else {
                half - 1
            }
        } else {
            prg_bank_count - 1
        };

        let mut mapper = Mmc1Mapper {
            prg_rom,
            chr,
            chr_is_ram,
            prg_ram: filled_vec(SRAM_BANK_SIZE, 0),
            prg_mode: PrgMode::FixLastPage,
            chr_mode: ChrMode::Bank8kb,
            prg_select: 0,
            prg_256kb_bank: 0,
            prg_last_bank,
            chr_select0: 0,
            chr_select1: 0,
            last_wrote_chr_select1: false,
            shift_reg: 0,
            shift_writes: 0,
            prg_ram_disabled: false,
            prg_banks: [0, 0],
            chr_banks: [0, 0],
            sram_bank: 0,
            has_512kb_prg,
            mirroring,
        };

        mapper.update_prg_banks();
        mapper.update_all_banks();
        mapper
    }

    pub closed spec fn spec_inv(&self) -> bool {
        &&& self.chr.len() > 0
        &&& self.prg_ram.len() == SRAM_BANK_SIZE
        &&& self.prg_select <= 0x1F
        &&& self.chr_select0 <= 0x1F
        &&& self.chr_select1 <= 0x1F
    }

    fn prg_bank_count(&self) -> (r: usize)
        ensures
            r >= 1,
    {
        let count = self.prg_rom.len() / PRG_BANK_SIZE;
        if count == 0 {
            1
        } else {
            count
        }
    }

    fn chr_bank_count(&self) -> (r: usize)
        ensures
            r >= 1,
    {
        let count = self.chr.len() / CHR_BANK_SIZE_4K;
        if count == 0 {
            1
        } else {
            count
        }
    }

    fn write_ctrl(&mut self, val: u8)
        requires
            old(self).spec_inv(),
        ensures
            final(self).spec_inv(),
    {
        self.mirroring = if val & 0x03 == 0 {
            Mirroring::SingleScreenLower
        } else if val & 0x03 == 1 {
            Mirroring::SingleScreenUpper
        } else if val & 0x03 == 2 {
            Mirroring::Vertical
        } else {
            Mirroring::Horizontal
        };

        let prg_mode_bits = (val >> 2u8) & 0x03;
        self.prg_mode = if prg_mode_bits == 2 {
            PrgMode::FixFirstPage
        } else if prg_mode_bits == 3 {
            PrgMode::FixLastPage
        } else {
            PrgMode::Bank32kb
        };
        self.update_prg_banks();

        self.chr_mode = if (val >> 4u8) == 0 {
            ChrMode::Bank8kb
        } else {
            ChrMode::Bank4kb
        };
        self.update_all_banks();
    }

    fn update_prg_banks(&mut self)
        requires
            old(self).spec_inv(),
        ensures
            final(self).spec_inv(),
            final(self).spec_shift_reg() == old(self).spec_shift_reg(),
            final(self).spec_shift_writes() == old(self).spec_shift_writes(),
            final(self).spec_prg_ram() == old(self).spec_prg_ram(),
            final(self).spec_prg_rom() == old(self).spec_prg_rom(),
            final(self).spec_chr_rom() == old(self).spec_chr_rom(),
    {
        if self.prg_rom.len() == 0 {
            self.prg_banks = [0, 0];
            return ;
        }

        let prg_count = self.prg_bank_count();
        let (bank0_raw, bank1_raw): (usize, usize) = match self.prg_mode {
            PrgMode::Bank32kb => {
                let bank = (self.prg_select / 2) * 2;
                (bank, bank + 1)
            },
            PrgMode::FixFirstPage => (0, self.prg_select),
            PrgMode::FixLastPage => (self.prg_select, self.prg_last_bank),
        };

        let bank0 = (bank0_raw | self.prg_256kb_bank) % prg_count;
        let bank1 = (bank1_raw | self.prg_256kb_bank) % prg_count;

        self.prg_banks = [bank0.wrapping_mul(PRG_BANK_SIZE), bank1.wrapping_mul(PRG_BANK_SIZE)];
    }

    fn update_chr_banks(&mut self)
        requires
            old(self).spec_inv(),
        ensures
            final(self).spec_inv(),
            final(self).spec_prg_rom() == old(self).spec_prg_rom(),
            final(self).spec_chr_rom() == old(self).spec_chr_rom(),
    {
        if self.chr.len() == 0 {
            self.chr_banks = [0, 0];
            return ;
        }

        let chr_count = self.chr_bank_count();
        match self.chr_mode {
            ChrMode::Bank8kb => {
                let base = ((self.chr_select0 / 2) * 2) % chr_count;
                self.chr_banks = [
                    base.wrapping_mul(CHR_BANK_SIZE_4K),
                    ((base + 1) % chr_count).wrapping_mul(CHR_BANK_SIZE_4K),
                ];
            },
            ChrMode::Bank4kb => {
                self.chr_banks = [
                    (self.chr_select0 % chr_count).wrapping_mul(CHR_BANK_SIZE_4K),
                    (self.chr_select1 % chr_count).wrapping_mul(CHR_BANK_SIZE_4K),
                ];
            },
        }
    }

    fn update_sram_bank(&mut self, sxrom_select: usize)
        requires
            old(self).spec_inv(),
        ensures
            final(self).spec_inv(),
            final(self).spec_prg_rom() == old(self).spec_prg_rom(),
            final(self).spec_chr_rom() == old(self).spec_chr_rom(),
    {
        let banks = self.prg_ram.len() / SRAM_BANK_SIZE;
        let bank: usize = if banks == 0 || banks == 1 {
            0
        } else if banks == 2 {
            (sxrom_select >> 3usize) & 0x01
        } else if banks == 4 {
            (sxrom_select >> 2usize) & 0x03
        } else {
            0
        };
        self.sram_bank = bank.wrapping_mul(SRAM_BANK_SIZE);
    }

    fn update_all_banks(&mut self)
        requires
            old(self).spec_inv(),
        ensures
            final(self).spec_inv(),
            final(self).spec_prg_rom() == old(self).spec_prg_rom(),
            final(self).spec_chr_rom() == old(self).spec_chr_rom(),
    {
        self.update_chr_banks();

        let sxrom_select = if self.last_wrote_chr_select1 && self.chr_mode == ChrMode::Bank4kb {
            self.chr_select1
        } else {
            self.chr_select0
        };

        if self.has_512kb_prg {
            self.prg_256kb_bank = sxrom_select & 0x10;
            self.update_prg_banks();
        }

        self.update_sram_bank(sxrom_select);
    }
}

impl Mapper for Mmc1Mapper {
    closed spec fn spec_mirroring(&self) -> Mirroring {
        self.mirroring
    }

    open spec fn inv(&self) -> bool {
        self.spec_inv()
    }

    closed spec fn spec_read_prg(&self, addr: u16) -> u8 {
        if 0x6000 <= addr && addr <= 0x7FFF {
            if self.prg_ram_disabled || self.prg_ram@.len() == 0 {
                0xFFu8
            } else {
                let index = usize_specs::wrapping_add(self.sram_bank, (addr - 0x6000) as usize);
                if index < self.prg_ram@.len() {
                    self.prg_ram@[index as int]
                } else {
                    0xFFu8
                }
            }
        } else if addr >= 0x8000 {
            if self.prg_rom@.len() == 0 {
                0u8
            } else {
                let bank = if addr < 0xC000 {
                    self.prg_banks@[0]
                } else {
                    self.prg_banks@[1]
                };
                let offset = usize_specs::wrapping_add(bank, (addr as usize) & 0x3FFF);
                if offset < self.prg_rom@.len() {
                    self.prg_rom@[offset as int]
                } else {
                    0u8
                }
            }
        } else {
            0u8
        }
    }

    fn read_prg(&self, addr: u16) -> u8 {
        if 0x6000 <= addr && addr <= 0x7FFF {
            if self.prg_ram_disabled || self.prg_ram.len() == 0 {
                0xFF
            } else {
                let index = self.sram_bank.wrapping_add((addr - 0x6000) as usize);
                if index < self.prg_ram.len() {
                    self.prg_ram[index]
                } else {
                    0xFF
                }
            }
        } else if addr >= 0x8000 {
            if self.prg_rom.len() == 0 {
                0
            } else {
                let bank = if addr < 0xC000 {
                    self.prg_banks[0]
                } else {
                    self.prg_banks[1]
                };
                let offset = bank.wrapping_add((addr as usize) & 0x3FFF);
                if offset < self.prg_rom.len() {
                    self.prg_rom[offset]
                } else {
                    0
                }
            }
        } else {
            0
        }
    }

    /// Register writes. Work-RAM writes land through the SRAM bank; a write
    /// at 0x8000 and above feeds the 5-bit serial shift register: bit 7
    /// resets it, otherwise a bit shifts in, and the fifth write commits to
    /// the register the address selects and clears the shift state.
    fn write_prg(&mut self, addr: u16, val: u8)
        ensures
            addr < 0x6000 ==> *final(self) == *old(self),
            0x6000 <= addr <= 0x7FFF ==> {
                &&& final(self).spec_shift_reg() == old(self).spec_shift_reg()
                &&& final(self).spec_shift_writes() == old(self).spec_shift_writes()
                &&& final(self).spec_prg_ram() == (if !old(self).spec_prg_ram_disabled() && old(
                    self,
                ).spec_prg_ram().len() > 0 && usize_specs::wrapping_add(
                    old(self).spec_sram_bank(),
                    (addr - 0x6000) as usize,
                ) < old(self).spec_prg_ram().len() {
                    old(self).spec_prg_ram().update(
                        usize_specs::wrapping_add(
                            old(self).spec_sram_bank(),
                            (addr - 0x6000) as usize,
                        ) as int,
                        val,
                    )
                } else {
                    old(self).spec_prg_ram()
                })
            },
            addr >= 0x8000 && val & 0x80 != 0 ==> final(self).spec_shift_reg() == 0 && final(self).spec_shift_writes() == 0,
            addr >= 0x8000 && val & 0x80 == 0 && old(self).spec_shift_writes() < 4 ==> {
                &&& final(self).spec_shift_reg() == (old(self).spec_shift_reg() >> 1) | ((val & 1)
                    << 4)
                &&& final(self).spec_shift_writes() == old(self).spec_shift_writes() + 1
                &&& final(self).spec_prg_ram() == old(self).spec_prg_ram()
            },
            addr >= 0x8000 && val & 0x80 == 0 && old(self).spec_shift_writes() >= 4 ==> final(self).spec_shift_reg() == 0 && final(self).spec_shift_writes() == 0,
    {
        if 0x6000 <= addr && addr <= 0x7FFF {
            if !self.prg_ram_disabled && self.prg_ram.len() > 0 {
                let index = self.sram_bank.wrapping_add((addr - 0x6000) as usize);
                if index < self.prg_ram.len() {
                    self.prg_ram.set(index, val);
                }
            }
        } else if addr >= 0x8000 {
            if val & 0x80 != 0 {
                self.shift_reg = 0;
                self.shift_writes = 0;
                self.prg_mode = PrgMode::FixLastPage;
                self.update_prg_banks();
            } else if self.shift_writes < 5 {
                self.shift_reg = (self.shift_reg >> 1u8) | ((val & 1) << 4u8);
                self.shift_writes = self.shift_writes + 1;
            }

            if self.shift_writes >= 5 {
                let committed = self.shift_reg;
                if addr <= 0x9FFF {
                    self.write_ctrl(committed);
                } else if addr <= 0xBFFF {
                    self.chr_select0 = (committed % 32) as usize;
                    self.last_wrote_chr_select1 = false;
                    self.update_all_banks();
                } else if addr <= 0xDFFF {
                    self.chr_select1 = (committed % 32) as usize;
                    self.last_wrote_chr_select1 = true;
                    self.update_all_banks();
                } else {
                    self.prg_ram_disabled = committed & 0x10 != 0;
                    self.prg_select = (committed % 16) as usize;
                    self.update_prg_banks();
                }

                self.shift_writes = 0;
                self.shift_reg = 0;
            }
        }
    }

    closed spec fn spec_read_chr(&self, addr: u16, source: ChrSource) -> u8 {
        if self.chr@.len() == 0 {
            0u8
        } else {
            let bank = if addr < 0x1000 {
                self.chr_banks@[0]
            } else {
                self.chr_banks@[1]
            };
            let offset = usize_specs::wrapping_add(bank, ((addr as usize) & 0x0FFF) as usize);
            if offset < self.chr@.len() {
                self.chr@[offset as int]
            } else {
                0u8
            }
        }
    }

    fn read_chr(&self, addr: u16, source: ChrSource) -> u8 {
        if self.chr.len() == 0 {
            0
        } else {
            let bank = if addr < 0x1000 {
                self.chr_banks[0]
            } else {
                self.chr_banks[1]
            };
            let offset = bank.wrapping_add((addr as usize) & 0x0FFF);
            if offset < self.chr.len() {
                self.chr[offset]
            } else {
                0
            }
        }
    }

    fn write_chr(&mut self, addr: u16, val: u8) {
        if self.chr_is_ram && self.chr.len() > 0 {
            let bank = if addr < 0x1000 {
                self.chr_banks[0]
            } else {
                self.chr_banks[1]
            };
            let offset = bank.wrapping_add((addr as usize) & 0x0FFF);
            if offset < self.chr.len() {
                self.chr.set(offset, val);
            }
        }
    }

    closed spec fn spec_nametable_read(&self, addr: u16, vram: Seq<u8>) -> Option<u8> {
        None
    }

    closed spec fn spec_nametable_write_claimed(&self, addr: u16) -> bool {
        false
    }

    fn ppu_read_nametable(&self, addr: u16, vram: &Vec<u8>) -> Option<u8> {
        None
    }

    fn ppu_write_nametable(&mut self, addr: u16, value: u8, vram: &mut Vec<u8>) -> bool {
        false
    }

    fn mirroring(&self) -> Mirroring {
        self.mirroring
    }
}

} // verus!
