//! The byte-wide PPU registers: PPUCTRL, PPUMASK, PPUSTATUS and the
//! two-write PPUADDR latch.

use vstd::prelude::*;

verus! {

pub const CTRL_VRAM_ADD_INCREMENT: u8 = 0x04;
pub const CTRL_SPRITE_PATTERN_ADDR: u8 = 0x08;
pub const CTRL_BACKGROUND_PATTERN_ADDR: u8 = 0x10;
pub const CTRL_SPRITE_SIZE: u8 = 0x20;
pub const CTRL_GENERATE_NMI: u8 = 0x80;

pub const STATUS_SPRITE_OVERFLOW: u8 = 0x20;
pub const STATUS_SPRITE_ZERO_HIT: u8 = 0x40;
pub const STATUS_VBLANK_STARTED: u8 = 0x80;

pub const MASK_GRAYSCALE: u8 = 0x01;
pub const MASK_LEFTMOST_BACKGROUND: u8 = 0x02;
pub const MASK_LEFTMOST_SPRITE: u8 = 0x04;
pub const MASK_SHOW_BACKGROUND: u8 = 0x08;
pub const MASK_SHOW_SPRITES: u8 = 0x10;

#[derive(Clone, Copy, PartialEq, Eq, Structural, Debug)]
pub struct ControlRegister {
    pub bits: u8,
}

impl ControlRegister {
    pub fn new() -> (r: ControlRegister)
        ensures
            r.bits == 0,
    {
        ControlRegister { bits: 0 }
    }

    pub fn update(&mut self, data: u8)
        ensures
            final(self).bits == data,
    {
        self.bits = data;
    }

    /// 1 or 32 per the increment bit.
    pub fn vram_addr_increment(&self) -> (r: u8)
        ensures
            r == if self.bits & CTRL_VRAM_ADD_INCREMENT != 0 {
                32u8
            } else {
                1u8
            },
    {
        if self.bits & CTRL_VRAM_ADD_INCREMENT != 0 {
            32
        } else {
            1
        }
    }

    pub fn sprt_pattern_addr(&self) -> (r: u16)
        ensures
            r == if self.bits & CTRL_SPRITE_PATTERN_ADDR != 0 {
                0x1000u16
            } else {
                0u16
            },
    {
        if self.bits & CTRL_SPRITE_PATTERN_ADDR != 0 {
            0x1000
        } else {
            0
        }
    }

    pub fn bknd_pattern_addr(&self) -> (r: u16)
        ensures
            r == if self.bits & CTRL_BACKGROUND_PATTERN_ADDR != 0 {
                0x1000u16
            } else {
                0u16
            },
    {
        if self.bits & CTRL_BACKGROUND_PATTERN_ADDR != 0 {
            0x1000
        } else {
            0
        }
    }

    /// 8 or 16 pixel high sprites.
    pub fn sprite_size(&self) -> (r: u8)
        ensures
            r == if self.bits & CTRL_SPRITE_SIZE != 0 {
                16u8
            } else {
                8u8
            },
    {
        if self.bits & CTRL_SPRITE_SIZE != 0 {
            16
        } else {
            8
        }
    }

    pub fn generate_vblank_nmi(&self) -> (r: bool)
        ensures
            r == (self.bits & CTRL_GENERATE_NMI != 0),
    {
        self.bits & CTRL_GENERATE_NMI != 0
    }
}

#[derive(Clone, Copy, PartialEq, Eq, Structural, Debug)]
pub struct MaskRegister {
    pub bits: u8,
}

impl MaskRegister {
    pub fn new() -> (r: MaskRegister)
        ensures
            r.bits == 0,
    {
        MaskRegister { bits: 0 }
    }

    pub fn update(&mut self, data: u8)
        ensures
            final(self).bits == data,
    {
        self.bits = data;
    }

    pub fn is_grayscale(&self) -> (r: bool)
        ensures
            r == (self.bits & MASK_GRAYSCALE != 0),
    {
        self.bits & MASK_GRAYSCALE != 0
    }

    pub fn leftmost_8pxl_background(&self) -> (r: bool)
        ensures
            r == (self.bits & MASK_LEFTMOST_BACKGROUND != 0),
    {
        self.bits & MASK_LEFTMOST_BACKGROUND != 0
    }

    pub fn leftmost_8pxl_sprite(&self) -> (r: bool)
        ensures
            r == (self.bits & MASK_LEFTMOST_SPRITE != 0),
    {
        self.bits & MASK_LEFTMOST_SPRITE != 0
    }

    pub fn show_background(&self) -> (r: bool)
        ensures
            r == (self.bits & MASK_SHOW_BACKGROUND != 0),
    {
        self.bits & MASK_SHOW_BACKGROUND != 0
    }

    pub fn show_sprites(&self) -> (r: bool)
        ensures
            r == (self.bits & MASK_SHOW_SPRITES != 0),
    {
        self.bits & MASK_SHOW_SPRITES != 0
    }
}

#[derive(Clone, Copy, PartialEq, Eq, Structural, Debug)]
pub struct StatusRegister {
    pub bits: u8,
}

impl StatusRegister {
    pub fn new() -> (r: StatusRegister)
        ensures
            r.bits == 0,
    {
        StatusRegister { bits: 0 }
    }

    pub fn snapshot(&self) -> (r: u8)
        ensures
            r == self.bits,
    {
        self.bits
    }

    pub fn set_vblank_status(&mut self, on: bool)
        ensures
            final(self).bits == if on {
                old(self).bits | STATUS_VBLANK_STARTED
            } else {
                old(self).bits & !STATUS_VBLANK_STARTED
            },
    {
        if on {
            self.bits = self.bits | STATUS_VBLANK_STARTED;
        } else {
            self.bits = self.bits & !STATUS_VBLANK_STARTED;
        }
    }

    pub fn reset_vblank_status(&mut self)
        ensures
            final(self).bits == old(self).bits & !STATUS_VBLANK_STARTED,
            final(self).bits & STATUS_VBLANK_STARTED == 0,
    {
        let ghost b0 = self.bits;
        self.bits = self.bits & !STATUS_VBLANK_STARTED;
        proof {
            assert((b0 & !0x80u8) & 0x80u8 == 0) by (bit_vector);
        }
    }

    pub fn is_in_vblank(&self) -> (r: bool)
        ensures
            r == (self.bits & STATUS_VBLANK_STARTED != 0),
    {
        self.bits & STATUS_VBLANK_STARTED != 0
    }

    pub fn set_sprite_zero_hit(&mut self, on: bool)
        ensures
            final(self).bits == if on {
                old(self).bits | STATUS_SPRITE_ZERO_HIT
            } else {
                old(self).bits & !STATUS_SPRITE_ZERO_HIT
            },
    {
        if on {
            self.bits = self.bits | STATUS_SPRITE_ZERO_HIT;
        } else {
            self.bits = self.bits & !STATUS_SPRITE_ZERO_HIT;
        }
    }

    pub fn set_sprite_overflow(&mut self, on: bool)
        ensures
            final(self).bits == if on {
                old(self).bits | STATUS_SPRITE_OVERFLOW
            } else {
                old(self).bits & !STATUS_SPRITE_OVERFLOW
            },
    {
        if on {
            self.bits = self.bits | STATUS_SPRITE_OVERFLOW;
        } else {
            self.bits = self.bits & !STATUS_SPRITE_OVERFLOW;
        }
    }
}

/// The two-write PPUADDR latch; the address it tracks stays within 14 bits.
#[derive(Clone, Copy, PartialEq, Eq, Structural, Debug)]
pub struct AddrRegister {
    hi: u8,
    lo: u8,
    hi_ptr: bool,
}

impl AddrRegister {
    pub open spec fn wf(&self) -> bool {
        self.spec_hi() < 0x40
    }

    pub closed spec fn spec_hi(&self) -> u8 {
        self.hi
    }

    pub closed spec fn spec_lo(&self) -> u8 {
        self.lo
    }

    pub closed spec fn spec_hi_ptr(&self) -> bool {
        self.hi_ptr
    }

    pub fn new() -> (r: AddrRegister)
        ensures
            r.wf(),
            r.spec_hi() == 0,
            r.spec_lo() == 0,
            r.spec_hi_ptr(),
    {
        AddrRegister { hi: 0, lo: 0, hi_ptr: true }
    }

    /// High six bits on the first write, low byte on the second.
    pub fn update(&mut self, data: u8)
        requires
            old(self).wf(),
        ensures
            final(self).wf(),
            final(self).spec_hi_ptr() == !old(self).spec_hi_ptr(),
            old(self).spec_hi_ptr() ==> final(self).spec_hi() == data % 0x40 && final(self).spec_lo()
                == old(self).spec_lo(),
            !old(self).spec_hi_ptr() ==> final(self).spec_lo() == data && final(self).spec_hi()
                == old(self).spec_hi(),
    {
        if self.hi_ptr {
            self.hi = data % 0x40;
        } else {
            self.lo = data;
        }
        self.hi_ptr = !self.hi_ptr;
    }

    /// Steps the address, carrying into the high byte and wrapping within 14
    /// bits.
    pub fn increment(&mut self, inc: u8)
        requires
            old(self).wf(),
        ensures
            final(self).wf(),
            final(self).spec_hi() * 256 + final(self).spec_lo() == (old(self).spec_hi() * 256 + old(
                self,
            ).spec_lo() + inc) % 0x4000,
            final(self).spec_hi_ptr() == old(self).spec_hi_ptr(),
    {
        let sum: u16 = (self.hi as u16) * 256 + self.lo as u16 + inc as u16;
        let wrapped = sum % 0x4000;
        self.hi = (wrapped / 256) as u8;
        self.lo = (wrapped % 256) as u8;
    }

    pub fn reset_latch(&mut self)
        requires
            old(self).wf(),
        ensures
            final(self).wf(),
            final(self).spec_hi_ptr(),
            final(self).spec_hi() == old(self).spec_hi(),
            final(self).spec_lo() == old(self).spec_lo(),
    {
        self.hi_ptr = true;
    }

    pub fn get(&self) -> (r: u16)
        requires
            self.wf(),
        ensures
            r == self.spec_hi() * 256 + self.spec_lo(),
            r < 0x4000,
    {
        (self.hi as u16) * 256 + self.lo as u16
    }
}

} // verus!
