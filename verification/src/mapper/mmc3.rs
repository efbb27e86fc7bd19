//! MMC3: eight bank registers selected at 0x8000, program and character bank
//! modes that swap regions, and a scanline-counting IRQ clocked once per
//! rendered scanline.
//!
//! The IRQ counter law: on a rendered scanline the counter reloads from the
//! latch when it is zero or a reload is pending, otherwise it decrements, and
//! an IRQ is latched when it lands on zero while IRQs are enabled. Writing
//! the even 0xE000 register disables and acknowledges; the odd one enables.

use vstd::array::ArrayAdditionalExecFns;
use vstd::prelude::*;
use vstd::wrapping::usize_specs;

use crate::cart::Mirroring;
use crate::mapper::{ChrSource, Mapper, filled_vec};

verus! {

pub const PRG_BANK_SIZE: usize = 0x2000;
pub const CHR_BANK_SIZE_1K: usize = 0x0400;
pub const CHR_BANK_SIZE_2K: usize = 0x0800;

#[derive(Clone, Copy, PartialEq, Eq, Structural, Debug)]
enum PrgMode {
    FixLastPages,
    FixFirstPages,
}

#[derive(Clone, Copy, PartialEq, Eq, Structural, Debug)]
enum ChrMode {
    BiggerFirst,
    BiggerLast,
}

pub struct Mmc3Mapper {
    prg_rom: Vec<u8>,
    chr: Vec<u8>,
    chr_is_ram: bool,
    prg_ram: Vec<u8>,
    reg_select: u8,
    prg_mode: PrgMode,
    chr_mode: ChrMode,
    prg_banks: [usize; 4],
    chr_banks: [usize; 8],
    mirroring: Mirroring,
    mirroring_locked: bool,
    sram_read_enabled: bool,
    sram_write_enabled: bool,
    irq_latch: u8,
    irq_count: u8,
    irq_reload: bool,
    irq_enabled: bool,
    irq_pending: bool,
}

impl Mmc3Mapper {
    pub closed spec fn spec_prg_rom(&self) -> Seq<u8> {
        self.prg_rom@
    }

    pub closed spec fn spec_chr_rom(&self) -> Seq<u8> {
        self.chr@
    }

    pub fn new(prg_rom: Vec<u8>, chr_rom: Vec<u8>, mirroring: Mirroring) -> (r: Mmc3Mapper)
        ensures
            r.inv(),
            !r.spec_irq_pending(),
            !r.spec_irq_enabled(),
            r.spec_irq_count() == 0,
            r.spec_irq_latch() == 0,
            !r.spec_irq_reload(),
            r.spec_prg_rom() == prg_rom@,
            chr_rom@.len() > 0 ==> r.spec_chr_rom() == chr_rom@,
            chr_rom@.len() == 0 ==> r.spec_chr_rom().len() == 0x2000,
    {
        let chr_is_ram = chr_rom.len() == 0;
        let chr = if chr_is_ram {
            filled_vec(0x2000, 0)
        } else {
            chr_rom
        };
        let locked = matches!(mirroring, Mirroring::FourScreen);

        let mut mapper = Mmc3Mapper {
            prg_rom,
            chr,
            chr_is_ram,
            prg_ram: filled_vec(0x2000, 0),
            reg_select: 0,
            prg_mode: PrgMode::FixLastPages,
            chr_mode: ChrMode::BiggerFirst,
            prg_banks: [0, 0, 0, 0],
            chr_banks: [0, 0, 0, 0, 0, 0, 0, 0],
            mirroring,
            mirroring_locked: locked,
            sram_read_enabled: false,
            sram_write_enabled: false,
            irq_latch: 0,
            irq_count: 0,
            irq_reload: false,
            irq_enabled: false,
            irq_pending: false,
        };

        mapper.init_prg_banks();
        mapper.init_chr_banks();
        mapper
    }

    pub closed spec fn spec_irq_pending(&self) -> bool {
        self.irq_pending
    }

    pub closed spec fn spec_irq_enabled(&self) -> bool {
        self.irq_enabled
    }

    pub closed spec fn spec_irq_count(&self) -> u8 {
        self.irq_count
    }

    pub closed spec fn spec_irq_latch(&self) -> u8 {
        self.irq_latch
    }

    pub closed spec fn spec_irq_reload(&self) -> bool {
        self.irq_reload
    }

    pub closed spec fn spec_reg_select(&self) -> u8 {
        self.reg_select
    }

    pub closed spec fn spec_sram_read_enabled(&self) -> bool {
        self.sram_read_enabled
    }

    pub closed spec fn spec_sram_write_enabled(&self) -> bool {
        self.sram_write_enabled
    }

    pub closed spec fn spec_mirroring_locked(&self) -> bool {
        self.mirroring_locked
    }

    pub closed spec fn spec_prg_ram(&self) -> Seq<u8> {
        self.prg_ram@
    }

    pub closed spec fn spec_prg_banks(&self) -> Seq<usize> {
        self.prg_banks@
    }

    pub closed spec fn spec_chr_banks(&self) -> Seq<usize> {
        self.chr_banks@
    }

    pub closed spec fn spec_prg_mode_fix_last(&self) -> bool {
        self.prg_mode == PrgMode::FixLastPages
    }

    /// The number of 8 KiB program banks, at least one.
    pub closed spec fn spec_prg_bank_count(&self) -> int {
        if self.prg_rom@.len() / 0x2000 == 0 {
            1
        } else {
            self.prg_rom@.len() as int / 0x2000
        }
    }

    /// The byte offset a bank register selects, reduced modulo the bank
    /// count.
    pub closed spec fn spec_prg_page_value(&self, bank_index: u8) -> usize {
        if self.prg_rom@.len() == 0 {
            0usize
        } else {
            usize_specs::wrapping_mul(
                ((bank_index as int) % self.spec_prg_bank_count()) as usize,
                0x2000,
            )
        }
    }

    fn prg_bank_count(&self) -> (r: usize)
        ensures
            r >= 1,
            r == self.spec_prg_bank_count(),
    {
        let count = self.prg_rom.len() / PRG_BANK_SIZE;
        if count == 0 {
            1
        } else {
            count
        }
    }

    fn chr_bank_count(&self) -> (r: usize)
        ensures
            r >= 1,
    {
        let count = self.chr.len() / CHR_BANK_SIZE_1K;
        if count == 0 {
            1
        } else {
            count
        }
    }

    fn set_prg_page(&mut self, slot: usize, bank_index: u8)
        requires
            old(self).spec_inv(),
            slot < 4,
        ensures
            final(self).spec_inv(),
            final(self).keeps_irq(*old(self)),
            final(self).keeps_config(*old(self)),
            final(self).spec_prg_banks() == old(self).spec_prg_banks().update(
                slot as int,
                old(self).spec_prg_page_value(bank_index),
            ),
            final(self).spec_chr_banks() == old(self).spec_chr_banks(),
            final(self).spec_prg_mode_fix_last() == old(self).spec_prg_mode_fix_last(),
    {
        if self.prg_rom.len() == 0 {
            self.prg_banks.set(slot, 0);
            return ;
        }
        let index = (bank_index as usize) % self.prg_bank_count();
        self.prg_banks.set(slot, index.wrapping_mul(PRG_BANK_SIZE));
    }

    fn chr_bank_address(&self, value: u8, bank_size: usize) -> usize
        requires
            self.spec_inv(),
            bank_size == CHR_BANK_SIZE_1K || bank_size == CHR_BANK_SIZE_2K,
    {
        if self.chr.len() == 0 {
            0
        } else {
            let mut index = value as usize;
            if bank_size == CHR_BANK_SIZE_2K {
                index = (index / 2) * 2;
            }
            let count = self.chr_bank_count();
            index = index % count;
            let base = index.wrapping_mul(CHR_BANK_SIZE_1K) % self.chr.len();
            if bank_size == CHR_BANK_SIZE_2K {
                (base / 0x800) * 0x800
            } else {
                (base / 0x400) * 0x400
            }
        }
    }

    fn set_chr_pair(&mut self, slot: usize, value: u8)
        requires
            old(self).spec_inv(),
            slot < 7,
        ensures
            final(self).spec_inv(),
            final(self).keeps_irq(*old(self)),
            final(self).keeps_config(*old(self)),
            final(self).spec_prg_banks() == old(self).spec_prg_banks(),
            final(self).spec_prg_mode_fix_last() == old(self).spec_prg_mode_fix_last(),
    {
        if self.chr.len() == 0 {
            self.chr_banks.set(slot, 0);
            self.chr_banks.set(slot + 1, 0);
            return ;
        }
        let base = self.chr_bank_address(value, CHR_BANK_SIZE_2K);
        self.chr_banks.set(slot, base);
        self.chr_banks.set(slot + 1, base.wrapping_add(CHR_BANK_SIZE_1K) % self.chr.len());
    }

    fn set_chr_single(&mut self, slot: usize, value: u8)
        requires
            old(self).spec_inv(),
            slot < 8,
        ensures
            final(self).spec_inv(),
            final(self).keeps_irq(*old(self)),
            final(self).keeps_config(*old(self)),
            final(self).spec_prg_banks() == old(self).spec_prg_banks(),
            final(self).spec_prg_mode_fix_last() == old(self).spec_prg_mode_fix_last(),
    {
        if self.chr.len() == 0 {
            self.chr_banks.set(slot, 0);
            return ;
        }
        let addr = self.chr_bank_address(value, CHR_BANK_SIZE_1K);
        self.chr_banks.set(slot, addr);
    }

    fn init_prg_banks(&mut self)
        requires
            old(self).spec_inv(),
        ensures
            final(self).spec_inv(),
            final(self).keeps_irq(*old(self)),
            final(self).keeps_config(*old(self)),
    {
        if self.prg_rom.len() == 0 {
            self.prg_banks = [0, 0, 0, 0];
            return ;
        }
        let count = self.prg_bank_count();
        let last_bank = ((count - 1) % 256) as u8;
        let second_last = if count >= 2 {
            ((count - 2) % 256) as u8
        } else {
            last_bank
        };

        self.set_prg_page(0, 0);
        self.set_prg_page(1, 1);
        self.set_prg_page(2, second_last);
        self.set_prg_page(3, last_bank);
    }

    fn init_chr_banks(&mut self)
        requires
            old(self).spec_inv(),
        ensures
            final(self).spec_inv(),
            final(self).keeps_irq(*old(self)),
            final(self).keeps_config(*old(self)),
    {
        if self.chr.len() == 0 {
            self.chr_banks = [0, 0, 0, 0, 0, 0, 0, 0];
            return ;
        }
        let mut bank: usize = 0;
        while bank < 8
            invariant
                self.spec_inv(),
                self.keeps_irq(*old(self)),
                self.keeps_config(*old(self)),
            decreases 8 - bank,
        {
            self.set_chr_single(bank, bank as u8);
            bank = bank + 1;
        }
    }

    /// The ROM index behind a banked CPU address, when one is mapped.
    pub closed spec fn spec_prg_addr(&self, addr: u16) -> Option<int> {
        if self.prg_rom@.len() == 0 {
            None
        } else if addr < 0x8000 {
            None
        } else {
            let slot: int = if addr <= 0x9FFF {
                0
            } else if addr <= 0xBFFF {
                1
            } else if addr <= 0xDFFF {
                2
            } else {
                3
            };
            let base = ((self.prg_banks@[slot] as int) % (self.prg_rom@.len() as int)) as usize;
            let offset = (addr as usize) & 0x1FFF;
            Some(
                usize_specs::wrapping_add(base, offset as usize) as int % (
                self.prg_rom@.len() as int),
            )
        }
    }

    fn prg_addr(&self, addr: u16) -> (r: Option<usize>)
        requires
            self.spec_inv(),
        ensures
            r matches Some(i) ==> i < self.prg_rom@.len(),
            (r is Some) == (self.spec_prg_addr(addr) is Some),
            r matches Some(i) ==> self.spec_prg_addr(addr) == Some(i as int),
    {
        if self.prg_rom.len() == 0 {
            return None;
        }
        let slot: usize = if addr < 0x8000 {
            return None;
        } else if addr <= 0x9FFF {
            0
        } else if addr <= 0xBFFF {
            1
        } else if addr <= 0xDFFF {
            2
        } else {
            3
        };
        let base = self.prg_banks[slot] % self.prg_rom.len();
        let offset = (addr as usize) & (PRG_BANK_SIZE - 1);
        Some(base.wrapping_add(offset) % self.prg_rom.len())
    }

    /// The CHR index behind a pattern-table address.
    pub closed spec fn spec_chr_addr(&self, addr: u16) -> int {
        let slot_raw = (addr as usize) / 0x400;
        let slot: int = if slot_raw > 7 {
            7
        } else {
            slot_raw as int
        };
        let base = ((self.chr_banks@[slot] as int) % (self.chr@.len() as int)) as usize;
        let offset = ((addr as usize) & 0x3FF) as usize;
        usize_specs::wrapping_add(base, offset) as int % (self.chr@.len() as int)
    }

    fn chr_addr(&self, addr: u16) -> (r: usize)
        requires
            self.spec_inv(),
            self.chr@.len() > 0,
        ensures
            r < self.chr@.len(),
            r == self.spec_chr_addr(addr),
    {
        let slot_raw = (addr as usize) / CHR_BANK_SIZE_1K;
        let slot = if slot_raw > 7 {
            7
        } else {
            slot_raw
        };
        let base = self.chr_banks[slot] % self.chr.len();
        let offset = (addr as usize) & (CHR_BANK_SIZE_1K - 1);
        base.wrapping_add(offset) % self.chr.len()
    }

    fn write_bank_select(&mut self, data: u8)
        requires
            old(self).spec_inv(),
        ensures
            final(self).spec_inv(),
            final(self).keeps_irq(*old(self)),
            final(self).spec_prg_ram() == old(self).spec_prg_ram(),
            final(self).spec_mirroring() == old(self).spec_mirroring(),
            final(self).spec_sram_read_enabled() == old(self).spec_sram_read_enabled(),
            final(self).spec_sram_write_enabled() == old(self).spec_sram_write_enabled(),
            final(self).spec_reg_select() == data & 7,
            final(self).spec_prg_mode_fix_last() == (data & 0x40 == 0),
            final(self).spec_prg_banks() == (if (data & 0x40 == 0) == old(
                self,
            ).spec_prg_mode_fix_last() {
                old(self).spec_prg_banks()
            } else {
                old(self).spec_prg_banks().update(0, old(self).spec_prg_banks()[2] as usize).update(
                    2,
                    old(self).spec_prg_banks()[0] as usize,
                )
            }),
    {
        self.reg_select = data & 0x07;

        let new_prg_mode = if data & 0x40 != 0 {
            PrgMode::FixFirstPages
        } else {
            PrgMode::FixLastPages
        };

        if new_prg_mode != self.prg_mode {
            let t0 = self.prg_banks[0];
            let t2 = self.prg_banks[2];
            self.prg_banks.set(0, t2);
            self.prg_banks.set(2, t0);
        }
        self.prg_mode = new_prg_mode;

        let new_chr_mode = if data & 0x80 != 0 {
            ChrMode::BiggerLast
        } else {
            ChrMode::BiggerFirst
        };

        let ghost banks_mid = self.prg_banks@;
        let ghost mode_mid = self.prg_mode;
        if new_chr_mode != self.chr_mode {
            let mut i: usize = 0;
            while i < 4
                invariant
                    self.spec_inv(),
                    self.keeps_irq(*old(self)),
                    self.spec_prg_ram() == old(self).spec_prg_ram(),
                    self.spec_mirroring() == old(self).spec_mirroring(),
                    self.spec_sram_read_enabled() == old(self).spec_sram_read_enabled(),
                    self.spec_sram_write_enabled() == old(self).spec_sram_write_enabled(),
                    self.spec_reg_select() == data & 7,
                    self.prg_banks@ == banks_mid,
                    self.prg_mode == mode_mid,
                decreases 4 - i,
            {
                let a = self.chr_banks[i];
                let b = self.chr_banks[i + 4];
                self.chr_banks.set(i, b);
                self.chr_banks.set(i + 4, a);
                i = i + 1;
            }
        }
        self.chr_mode = new_chr_mode;
    }

    fn update_prg_bank(&mut self, target: u8, bank: u8)
        requires
            old(self).spec_inv(),
        ensures
            final(self).spec_inv(),
            final(self).keeps_irq(*old(self)),
            final(self).keeps_config(*old(self)),
            final(self).spec_prg_mode_fix_last() == old(self).spec_prg_mode_fix_last(),
            ({
                let slot: int = if old(self).spec_prg_mode_fix_last() {
                    if target == 6 {
                        0int
                    } else if target == 7 {
                        1int
                    } else {
                        -1int
                    }
                } else {
                    if target == 7 {
                        1int
                    } else if target == 6 {
                        2int
                    } else {
                        -1int
                    }
                };
                if slot >= 0 {
                    final(self).spec_prg_banks() == old(self).spec_prg_banks().update(
                        slot,
                        old(self).spec_prg_page_value(bank),
                    )
                } else {
                    final(self).spec_prg_banks() == old(self).spec_prg_banks()
                }
            }),
    {
        let slot: usize = match self.prg_mode {
            PrgMode::FixLastPages => {
                if target == 6 {
                    0
                } else if target == 7 {
                    1
                } else {
                    return ;
                }
            },
            PrgMode::FixFirstPages => {
                if target == 7 {
                    1
                } else if target == 6 {
                    2
                } else {
                    return ;
                }
            },
        };
        self.set_prg_page(slot, bank);
    }

    fn update_chr_bank(&mut self, target: u8, bank: u8)
        requires
            old(self).spec_inv(),
        ensures
            final(self).spec_inv(),
            final(self).keeps_irq(*old(self)),
            final(self).keeps_config(*old(self)),
            final(self).spec_prg_banks() == old(self).spec_prg_banks(),
            final(self).spec_prg_mode_fix_last() == old(self).spec_prg_mode_fix_last(),
    {
        match self.chr_mode {
            ChrMode::BiggerFirst => {
                if target == 0 {
                    self.set_chr_pair(0, bank);
                } else if target == 1 {
                    self.set_chr_pair(2, bank);
                } else if target == 2 {
                    self.set_chr_single(4, bank);
                } else if target == 3 {
                    self.set_chr_single(5, bank);
                } else if target == 4 {
                    self.set_chr_single(6, bank);
                } else if target == 5 {
                    self.set_chr_single(7, bank);
                }
            },
            ChrMode::BiggerLast => {
                if target == 0 {
                    self.set_chr_pair(4, bank);
                } else if target == 1 {
                    self.set_chr_pair(6, bank);
                } else if target == 2 {
                    self.set_chr_single(0, bank);
                } else if target == 3 {
                    self.set_chr_single(1, bank);
                } else if target == 4 {
                    self.set_chr_single(2, bank);
                } else if target == 5 {
                    self.set_chr_single(3, bank);
                }
            },
        }
    }

    fn write_bank_data(&mut self, data: u8)
        requires
            old(self).spec_inv(),
        ensures
            final(self).spec_inv(),
            final(self).keeps_irq(*old(self)),
            final(self).keeps_config(*old(self)),
            final(self).spec_prg_mode_fix_last() == old(self).spec_prg_mode_fix_last(),
            old(self).spec_reg_select() <= 5 ==> final(self).spec_prg_banks() == old(
                self,
            ).spec_prg_banks(),
            ({
                let reg = old(self).spec_reg_select();
                let slot: int = if old(self).spec_prg_mode_fix_last() {
                    if reg == 6 {
                        0int
                    } else {
                        1int
                    }
                } else {
                    if reg == 7 {
                        1int
                    } else {
                        2int
                    }
                };
                reg == 6 || reg == 7 ==> final(self).spec_prg_banks() == old(
                    self,
                ).spec_prg_banks().update(slot, old(self).spec_prg_page_value((data & 0x3F) as u8))
            }),
    {
        let reg = self.reg_select;
        if reg == 0 || reg == 1 {
            self.update_chr_bank(reg, data & !1u8);
        } else if reg >= 2 && reg <= 5 {
            self.update_chr_bank(reg, data);
        } else if reg == 6 || reg == 7 {
            self.update_prg_bank(reg, data & 0x3F);
        }
    }

    fn update_mirroring(&mut self, data: u8)
        requires
            old(self).spec_inv(),
        ensures
            final(self).spec_inv(),
            final(self).keeps_irq(*old(self)),
            final(self).spec_prg_ram() == old(self).spec_prg_ram(),
            final(self).spec_sram_read_enabled() == old(self).spec_sram_read_enabled(),
            final(self).spec_sram_write_enabled() == old(self).spec_sram_write_enabled(),
            final(self).spec_reg_select() == old(self).spec_reg_select(),
            final(self).spec_mirroring() == if old(self).spec_mirroring_locked() {
                old(self).spec_mirroring()
            } else if data & 1 == 0 {
                Mirroring::Vertical
            } else {
                Mirroring::Horizontal
            },
    {
        if self.mirroring_locked {
            return ;
        }
        self.mirroring = if data & 0x01 == 0 {
            Mirroring::Vertical
        } else {
            Mirroring::Horizontal
        };
    }

    fn update_sram_control(&mut self, data: u8)
        requires
            old(self).spec_inv(),
        ensures
            final(self).spec_inv(),
            final(self).keeps_irq(*old(self)),
            final(self).spec_prg_ram() == old(self).spec_prg_ram(),
            final(self).spec_mirroring() == old(self).spec_mirroring(),
            final(self).spec_reg_select() == old(self).spec_reg_select(),
            final(self).spec_sram_write_enabled() == (data & 0x40 == 0),
            final(self).spec_sram_read_enabled() == (data & 0x80 != 0),
    {
        self.sram_write_enabled = data & 0x40 == 0;
        self.sram_read_enabled = data & 0x80 != 0;
    }

    /// What one rendered scanline does to the counter and the IRQ line.
    fn clock_irq_counter(&mut self)
        requires
            old(self).spec_inv(),
        ensures
            final(self).spec_inv(),
            final(self).spec_irq_count() == if old(self).spec_irq_count() == 0 || old(
                self,
            ).spec_irq_reload() {
                old(self).spec_irq_latch()
            } else {
                (old(self).spec_irq_count() - 1) as u8
            },
            !final(self).spec_irq_reload(),
            final(self).spec_irq_latch() == old(self).spec_irq_latch(),
            final(self).spec_irq_enabled() == old(self).spec_irq_enabled(),
            final(self).spec_irq_pending() == (old(self).spec_irq_pending() || (old(
                self,
            ).spec_irq_enabled() && final(self).spec_irq_count() == 0)),
            final(self).keeps_config(*old(self)),
            final(self).spec_chr_banks() == old(self).spec_chr_banks(),
            final(self).spec_prg_banks() == old(self).spec_prg_banks(),
    {
        if self.irq_count == 0 || self.irq_reload {
            self.irq_count = self.irq_latch;
            self.irq_reload = false;
        } else {
            self.irq_count = self.irq_count - 1;
        }

        if self.irq_enabled && self.irq_count == 0 {
            self.irq_pending = true;
        }
    }

    pub closed spec fn spec_inv(&self) -> bool {
        &&& self.chr.len() > 0
        &&& self.prg_ram.len() == 0x2000
    }

    /// The IRQ state is untouched.
    pub closed spec fn keeps_irq(&self, pre: Mmc3Mapper) -> bool {
        &&& self.irq_latch == pre.irq_latch
        &&& self.irq_count == pre.irq_count
        &&& self.irq_reload == pre.irq_reload
        &&& self.irq_enabled == pre.irq_enabled
        &&& self.irq_pending == pre.irq_pending
    }

    /// Work RAM, mirroring, the SRAM guards and the register select are
    /// untouched.
    pub closed spec fn keeps_config(&self, pre: Mmc3Mapper) -> bool {
        &&& self.reg_select == pre.reg_select
        &&& self.prg_ram == pre.prg_ram
        &&& self.mirroring == pre.mirroring
        &&& self.mirroring_locked == pre.mirroring_locked
        &&& self.sram_read_enabled == pre.sram_read_enabled
        &&& self.sram_write_enabled == pre.sram_write_enabled
        &&& self.prg_rom == pre.prg_rom
        &&& self.chr == pre.chr
    }
}

impl Mapper for Mmc3Mapper {
    closed spec fn spec_mirroring(&self) -> Mirroring {
        self.mirroring
    }

    open spec fn inv(&self) -> bool {
        self.spec_inv()
    }

    closed spec fn spec_read_prg(&self, addr: u16) -> u8 {
        if 0x6000 <= addr && addr <= 0x7FFF {
            if self.sram_read_enabled {
                self.prg_ram@[addr - 0x6000]
            } else {
                0xFFu8
            }
        } else if addr >= 0x8000 {
            match self.spec_prg_addr(addr) {
                Some(i) => self.prg_rom@[i],
                None => 0u8,
            }
        } else {
            0u8
        }
    }

    fn read_prg(&self, addr: u16) -> u8 {
        if 0x6000 <= addr && addr <= 0x7FFF {
            if self.sram_read_enabled {
                self.prg_ram[(addr - 0x6000) as usize]
            } else {
                0xFF
            }
        } else if addr >= 0x8000 {
            match self.prg_addr(addr) {
                Some(index) => self.prg_rom[index],
                None => 0,
            }
        } else {
            0
        }
    }

    /// Register writes; the IRQ registers obey: even 0xC000 sets the latch,
    /// odd 0xC000 requests a reload, even 0xE000 disables and acknowledges,
    /// odd 0xE000 enables. Each register leaves every other piece of state
    /// alone: writes below 0xC000 keep the whole IRQ unit untouched, and the
    /// IRQ registers keep the banking, mirroring and work RAM untouched.
    fn write_prg(&mut self, addr: u16, data: u8)
        ensures
            addr < 0x6000 ==> *final(self) == *old(self),
            0x6000 <= addr <= 0x7FFF ==> {
                &&& final(self).keeps_irq(*old(self))
                &&& final(self).spec_mirroring() == old(self).spec_mirroring()
                &&& final(self).spec_sram_read_enabled() == old(self).spec_sram_read_enabled()
                &&& final(self).spec_sram_write_enabled() == old(self).spec_sram_write_enabled()
                &&& final(self).spec_reg_select() == old(self).spec_reg_select()
                &&& final(self).spec_prg_ram() == if old(self).spec_sram_write_enabled() {
                    old(self).spec_prg_ram().update(addr - 0x6000, data)
                } else {
                    old(self).spec_prg_ram()
                }
            },
            0x8000 <= addr <= 0x9FFF ==> {
                &&& final(self).keeps_irq(*old(self))
                &&& final(self).spec_mirroring() == old(self).spec_mirroring()
                &&& final(self).spec_sram_read_enabled() == old(self).spec_sram_read_enabled()
                &&& final(self).spec_sram_write_enabled() == old(self).spec_sram_write_enabled()
                &&& final(self).spec_prg_ram() == old(self).spec_prg_ram()
                &&& final(self).spec_reg_select() == if addr & 1 == 0 {
                    data & 7
                } else {
                    old(self).spec_reg_select()
                }
            },
            0x8000 <= addr <= 0x9FFF && addr & 1 == 0 ==> {
                &&& final(self).spec_prg_mode_fix_last() == (data & 0x40 == 0)
                &&& final(self).spec_prg_banks() == (if (data & 0x40 == 0) == old(
                    self,
                ).spec_prg_mode_fix_last() {
                    old(self).spec_prg_banks()
                } else {
                    old(self).spec_prg_banks().update(
                        0,
                        old(self).spec_prg_banks()[2] as usize,
                    ).update(2, old(self).spec_prg_banks()[0] as usize)
                })
            },
            0x8000 <= addr <= 0x9FFF && addr & 1 == 1 ==> {
                &&& final(self).spec_prg_mode_fix_last() == old(self).spec_prg_mode_fix_last()
                &&& (old(self).spec_reg_select() <= 5 ==> final(self).spec_prg_banks() == old(
                    self,
                ).spec_prg_banks())
                &&& ({
                    let reg = old(self).spec_reg_select();
                    let slot: int = if old(self).spec_prg_mode_fix_last() {
                        if reg == 6 {
                            0int
                        } else {
                            1int
                        }
                    } else {
                        if reg == 7 {
                            1int
                        } else {
                            2int
                        }
                    };
                    reg == 6 || reg == 7 ==> final(self).spec_prg_banks() == old(
                        self,
                    ).spec_prg_banks().update(
                        slot,
                        old(self).spec_prg_page_value((data & 0x3F) as u8),
                    )
                })
            },
            0xA000 <= addr <= 0xBFFF ==> {
                &&& final(self).keeps_irq(*old(self))
                &&& final(self).spec_prg_ram() == old(self).spec_prg_ram()
                &&& final(self).spec_reg_select() == old(self).spec_reg_select()
                &&& addr & 1 == 0 ==> final(self).spec_mirroring() == (if old(
                    self,
                ).spec_mirroring_locked() {
                    old(self).spec_mirroring()
                } else if data & 1 == 0 {
                    Mirroring::Vertical
                } else {
                    Mirroring::Horizontal
                })
                &&& addr & 1 == 1 ==> final(self).spec_sram_write_enabled() == (data & 0x40 == 0)
                    && final(self).spec_sram_read_enabled() == (data & 0x80 != 0)
                    && final(self).spec_mirroring() == old(self).spec_mirroring()
            },
            0xC000 <= addr ==> {
                &&& final(self).keeps_config(*old(self))
                &&& final(self).spec_chr_banks() == old(self).spec_chr_banks()
                &&& final(self).spec_prg_banks() == old(self).spec_prg_banks()
            },
            0xC000 <= addr <= 0xDFFF && addr & 1 == 0 ==> {
                &&& final(self).spec_irq_latch() == data
                &&& final(self).spec_irq_pending() == old(self).spec_irq_pending()
                &&& final(self).spec_irq_enabled() == old(self).spec_irq_enabled()
                &&& final(self).spec_irq_reload() == old(self).spec_irq_reload()
                &&& final(self).spec_irq_count() == old(self).spec_irq_count()
            },
            0xC000 <= addr <= 0xDFFF && addr & 1 == 1 ==> {
                &&& final(self).spec_irq_reload()
                &&& final(self).spec_irq_pending() == old(self).spec_irq_pending()
                &&& final(self).spec_irq_enabled() == old(self).spec_irq_enabled()
                &&& final(self).spec_irq_latch() == old(self).spec_irq_latch()
                &&& final(self).spec_irq_count() == old(self).spec_irq_count()
            },
            addr >= 0xE000 && addr & 1 == 0 ==> {
                &&& !final(self).spec_irq_enabled()
                &&& !final(self).spec_irq_pending()
                &&& final(self).spec_irq_latch() == old(self).spec_irq_latch()
                &&& final(self).spec_irq_reload() == old(self).spec_irq_reload()
                &&& final(self).spec_irq_count() == old(self).spec_irq_count()
            },
            addr >= 0xE000 && addr & 1 == 1 ==> {
                &&& final(self).spec_irq_enabled()
                &&& final(self).spec_irq_pending() == old(self).spec_irq_pending()
                &&& final(self).spec_irq_latch() == old(self).spec_irq_latch()
                &&& final(self).spec_irq_reload() == old(self).spec_irq_reload()
                &&& final(self).spec_irq_count() == old(self).spec_irq_count()
            },
    {
        if 0x6000 <= addr && addr <= 0x7FFF {
            if self.sram_write_enabled {
                self.prg_ram.set((addr - 0x6000) as usize, data);
            }
        } else if 0x8000 <= addr && addr <= 0x9FFF {
            if addr & 1 == 0 {
                self.write_bank_select(data);
            } else {
                self.write_bank_data(data);
            }
        } else if 0xA000 <= addr && addr <= 0xBFFF {
            if addr & 1 == 0 {
                self.update_mirroring(data);
            } else {
                self.update_sram_control(data);
            }
        } else if 0xC000 <= addr && addr <= 0xDFFF {
            if addr & 1 == 0 {
                self.irq_latch = data;
            } else {
                self.irq_reload = true;
            }
        } else if addr >= 0xE000 {
            if addr & 1 == 0 {
                self.irq_enabled = false;
                self.irq_pending = false;
            } else {
                self.irq_enabled = true;
            }
        }
    }

    closed spec fn spec_read_chr(&self, addr: u16, source: ChrSource) -> u8 {
        if self.chr@.len() == 0 {
            0u8
        } else {
            self.chr@[self.spec_chr_addr(addr)]
        }
    }

    fn read_chr(&self, addr: u16, source: ChrSource) -> u8 {
        if self.chr.len() == 0 {
            0
        } else {
            let index = self.chr_addr(addr);
            self.chr[index]
        }
    }

    fn write_chr(&mut self, addr: u16, data: u8) {
        if self.chr_is_ram && self.chr.len() > 0 {
            let index = self.chr_addr(addr);
            self.chr.set(index, data);
        }
    }

    closed spec fn spec_nametable_read(&self, addr: u16, vram: Seq<u8>) -> Option<u8> {
        None
    }

    closed spec fn spec_nametable_write_claimed(&self, addr: u16) -> bool {
        false
    }

    fn ppu_read_nametable(&self, addr: u16, vram: &Vec<u8>) -> Option<u8> {
        None
    }

    fn ppu_write_nametable(&mut self, addr: u16, value: u8, vram: &mut Vec<u8>) -> bool {
        false
    }

    fn mirroring(&self) -> Mirroring {
        self.mirroring
    }

    /// Clocks the scanline IRQ counter only while rendering is enabled; the
    /// latch and the enable flag survive every scanline.
    fn handle_scanline(&mut self, rendering_enabled: bool)
        ensures
            !rendering_enabled ==> *final(self) == *old(self),
            final(self).spec_irq_latch() == old(self).spec_irq_latch(),
            final(self).spec_irq_enabled() == old(self).spec_irq_enabled(),
            final(self).keeps_config(*old(self)),
            final(self).spec_chr_banks() == old(self).spec_chr_banks(),
            final(self).spec_prg_banks() == old(self).spec_prg_banks(),
            rendering_enabled ==> {
                &&& final(self).spec_irq_count() == if old(self).spec_irq_count() == 0 || old(
                    self,
                ).spec_irq_reload() {
                    old(self).spec_irq_latch()
                } else {
                    (old(self).spec_irq_count() - 1) as u8
                }
                &&& !final(self).spec_irq_reload()
                &&& final(self).spec_irq_pending() == (old(self).spec_irq_pending() || (old(
                    self,
                ).spec_irq_enabled() && final(self).spec_irq_count() == 0))
            },
    {
        if rendering_enabled {
            self.clock_irq_counter();
        }
    }

    /// Reports the IRQ line: high exactly while an IRQ is latched.
    fn poll_irq(&self) -> (r: Option<u8>)
        ensures
            r is Some <==> self.spec_irq_pending(),
    {
        if self.irq_pending {
            Some(0)
        } else {
            None
        }
    }
}

} // verus!
