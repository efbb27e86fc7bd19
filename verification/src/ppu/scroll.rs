//! The PPU's internal "loopy" scroll state: current VRAM address `v`, temp
//! address `t`, fine-x and the shared write toggle `w`.
//!
//! The invariant `wf` keeps `v` within 15 bits and `t` within 14 bits across
//! every register write; every mutating method here preserves it.

use vstd::prelude::*;

verus! {

#[derive(Clone, PartialEq, Eq, Structural, Debug)]
pub struct ScrollRegister {
    v: u16,
    t: u16,
    x: u8,
    w: bool,
}

/// The loopy fine-Y step: fine Y carries into coarse Y, and coarse Y wraps
/// into the vertically adjacent nametable at row 29 (row 31 wraps without a
/// nametable switch).
pub open spec fn spec_increment_y(v: u16) -> int {
    if v & 0x7000u16 != 0x7000u16 {
        v + 0x1000
    } else {
        let vb: u16 = v & !0x7000u16;
        let y: u16 = (vb & 0x03E0u16) >> 5u16;
        if y == 29 {
            ((vb ^ 0x0800u16) & !0x03E0u16) as int
        } else if y == 31 {
            (vb & !0x03E0u16) as int
        } else {
            ((vb & !0x03E0u16) | (((y + 1) as u16) << 5u16)) as int
        }
    }
}

impl ScrollRegister {
    /// `v` stays within 15 bits, `t` within 14 bits, fine-x within 3 bits.
    pub open spec fn wf(&self) -> bool {
        &&& self.spec_v() < 0x8000
        &&& self.spec_t() < 0x4000
        &&& self.spec_x() < 8
    }

    pub closed spec fn spec_v(&self) -> u16 {
        self.v
    }

    pub closed spec fn spec_t(&self) -> u16 {
        self.t
    }

    pub closed spec fn spec_x(&self) -> u8 {
        self.x
    }

    pub closed spec fn spec_w(&self) -> bool {
        self.w
    }

    pub fn new() -> (r: ScrollRegister)
        ensures
            r.wf(),
            r.spec_v() == 0,
            r.spec_t() == 0,
            r.spec_x() == 0,
            !r.spec_w(),
    {
        ScrollRegister { v: 0, t: 0, x: 0, w: false }
    }

    /// A control-register write copies its nametable bits into bits 10-11 of
    /// `t`.
    pub fn update_ctrl(&mut self, value: u8)
        requires
            old(self).wf(),
        ensures
            final(self).wf(),
            final(self).spec_t() == (old(self).spec_t() & !0x0C00) | (((value & 0x03) as u16)
                << 10),
            final(self).spec_v() == old(self).spec_v(),
            final(self).spec_x() == old(self).spec_x(),
            final(self).spec_w() == old(self).spec_w(),
    {
        let nt = (value & 0x03) as u16;
        let ghost t0 = self.t;
        self.t = (self.t & !0x0C00) | (nt << 10u16);
        proof {
            assert((t0 & !0x0C00u16) | (((value & 0x03) as u16) << 10u16) < 0x4000u16)
                by (bit_vector)
                requires
                    t0 < 0x4000u16,
            ;
        }
    }

    /// A 0x2005 write: first write sets coarse/fine X, second sets coarse and
    /// fine Y; returns true when the two-write sequence completed.
    pub fn write(&mut self, value: u8) -> (completed: bool)
        requires
            old(self).wf(),
        ensures
            final(self).wf(),
            final(self).spec_v() == old(self).spec_v(),
            final(self).spec_w() == !old(self).spec_w(),
            completed == old(self).spec_w(),
            !old(self).spec_w() ==> final(self).spec_x() == value & 0x07 && final(self).spec_t()
                == (old(self).spec_t() & !0x001F) | (((value >> 3) & 0x1F) as u16),
            old(self).spec_w() ==> final(self).spec_x() == old(self).spec_x() && final(self).spec_t()
                == (((old(self).spec_t() & !0x73E0) | ((((value >> 3) & 0x1F) as u16) << 5) | (((
            value & 0x07) as u16) << 12)) & 0x3FFF),
    {
        if !self.w {
            let coarse_x = (value >> 3u8) & 0x1F;
            let ghost t0 = self.t;
            self.t = (self.t & !0x001F) | coarse_x as u16;
            self.x = value % 8;
            self.w = true;
            proof {
                assert((t0 & !0x001Fu16) | (((value >> 3u8) & 0x1Fu8) as u16) < 0x4000u16)
                    by (bit_vector)
                    requires
                        t0 < 0x4000u16,
                ;
                assert(value % 8 == value & 0x07) by (bit_vector);
            }
            false
        } else {
            let coarse_y = ((value >> 3u8) & 0x1F) as u16;
            let fine_y = (value & 0x07) as u16;
            self.t = self.t & !0x73E0;
            self.t = self.t | (coarse_y << 5u16);
            self.t = self.t | (fine_y << 12u16);
            let ghost t3 = self.t;
            self.t = self.t & 0x3FFF;
            self.w = false;
            proof {
                assert(t3 & 0x3FFFu16 < 0x4000u16) by (bit_vector);
            }
            true
        }
    }

    /// A 0x2006 write: high six bits of `t` first, then the low byte, after
    /// which `t` is copied into `v`; returns true when the sequence
    /// completed.
    pub fn write_ppu_addr(&mut self, value: u8) -> (completed: bool)
        requires
            old(self).wf(),
        ensures
            final(self).wf(),
            final(self).spec_w() == !old(self).spec_w(),
            completed == old(self).spec_w(),
            final(self).spec_x() == old(self).spec_x(),
            !old(self).spec_w() ==> {
                &&& final(self).spec_t() == (old(self).spec_t() & 0x00FF) | (((value & 0x3F) as u16)
                    << 8)
                &&& final(self).spec_v() == old(self).spec_v()
            },
            old(self).spec_w() ==> {
                &&& final(self).spec_t() == (old(self).spec_t() & 0xFF00) | value as u16
                &&& final(self).spec_v() == final(self).spec_t()
            },
    {
        if !self.w {
            let high = (value & 0x3F) as u16;
            let ghost t0 = self.t;
            self.t = (self.t & 0x00FF) | (high << 8u16);
            self.w = true;
            proof {
                assert((t0 & 0x00FFu16) | (((value & 0x3Fu8) as u16) << 8u16) < 0x4000u16)
                    by (bit_vector);
            }
            false
        } else {
            let ghost t0 = self.t;
            self.t = (self.t & 0xFF00) | (value as u16);
            self.v = self.t;
            self.w = false;
            proof {
                assert((t0 & 0xFF00u16) | (value as u16) < 0x4000u16) by (bit_vector)
                    requires
                        t0 < 0x4000u16,
                ;
            }
            true
        }
    }

    /// A 0x2007 access steps `v` by 1 or 32, wrapping within 14 bits.
    pub fn increment(&mut self, step: u8)
        requires
            old(self).wf(),
        ensures
            final(self).wf(),
            final(self).spec_v() == (old(self).spec_v() + step) % 0x4000,
            final(self).spec_t() == old(self).spec_t(),
            final(self).spec_x() == old(self).spec_x(),
            final(self).spec_w() == old(self).spec_w(),
    {
        self.v = (self.v + step as u16) % 0x4000;
    }

    /// The current VRAM address.
    pub fn addr(&self) -> (r: u16)
        ensures
            r == self.spec_v() & 0x3FFF,
    {
        self.v & 0x3FFF
    }

    /// The horizontal scroll in pixels: coarse X from `t` plus fine X.
    pub fn scroll_x(&self) -> (r: usize)
        requires
            self.wf(),
        ensures
            r == (self.spec_t() & 0x001F) * 8 + self.spec_x(),
            r < 256,
    {
        let ghost t0 = self.t;
        let coarse_x = (self.t & 0x001F) as usize;
        proof {
            assert(t0 & 0x001F < 32) by (bit_vector);
        }
        coarse_x * 8 + self.x as usize
    }

    /// The vertical scroll in pixels: coarse Y from `t` times eight plus fine
    /// Y.
    pub fn scroll_y(&self) -> (r: usize)
        requires
            self.wf(),
        ensures
            r == ((self.spec_t() >> 5) & 0x1F) * 8 + ((self.spec_t() >> 12) & 0x07),
            r < 256,
    {
        let ghost t0 = self.t;
        let coarse_y = ((self.t >> 5u16) & 0x1F) as usize;
        let fine_y = ((self.t >> 12u16) & 0x07) as usize;
        proof {
            assert((t0 >> 5u16) & 0x1F < 32) by (bit_vector);
            assert((t0 >> 12u16) & 0x07 < 8) by (bit_vector);
        }
        coarse_y * 8 + fine_y
    }

    /// The nametable selected by bits 10-11 of `t`.
    pub fn base_nametable(&self) -> (r: usize)
        ensures
            r == (self.spec_t() >> 10) & 0x03,
            r < 4,
    {
        proof {
            let t0 = self.t;
            assert((t0 >> 10u16) & 0x03 < 4) by (bit_vector);
        }
        ((self.t >> 10u16) & 0x03) as usize
    }

    /// Reading PPUSTATUS clears the shared write toggle.
    pub fn reset_latch(&mut self)
        requires
            old(self).wf(),
        ensures
            final(self).wf(),
            final(self).spec_v() == old(self).spec_v(),
            final(self).spec_t() == old(self).spec_t(),
            final(self).spec_x() == old(self).spec_x(),
            !final(self).spec_w(),
    {
        self.w = false;
    }

    pub fn rendering_enabled(&self, show_bg: bool, show_sprites: bool) -> (r: bool)
        ensures
            r == (show_bg || show_sprites),
    {
        show_bg || show_sprites
    }

    /// Steps coarse X in `v`, wrapping into the horizontally adjacent
    /// nametable.
    pub fn increment_x(&mut self)
        requires
            old(self).wf(),
        ensures
            final(self).wf(),
            final(self).spec_t() == old(self).spec_t(),
            final(self).spec_x() == old(self).spec_x(),
            final(self).spec_w() == old(self).spec_w(),
            final(self).spec_v() == if old(self).spec_v() & 0x001F == 31 {
                ((old(self).spec_v() & !0x001F) ^ 0x0400) as int
            } else {
                old(self).spec_v() + 1
            },
    {
        let ghost v0 = self.v;
        if (self.v & 0x001F) == 31 {
            self.v = self.v & !0x001F;
            self.v = self.v ^ 0x0400;
            proof {
                assert(((v0 & !0x001Fu16) ^ 0x0400u16) < 0x8000u16) by (bit_vector)
                    requires
                        v0 < 0x8000u16,
                ;
            }
        } else {
            proof {
                assert(v0 & 0x001Fu16 != 31 ==> v0 + 1 < 0x8000u16) by (bit_vector)
                    requires
                        v0 < 0x8000u16,
                ;
            }
            self.v = self.v + 1;
        }
    }

    /// Steps fine Y in `v`, carrying into coarse Y and wrapping into the
    /// vertically adjacent nametable at row 29.
    pub fn increment_y(&mut self)
        requires
            old(self).wf(),
        ensures
            final(self).wf(),
            final(self).spec_t() == old(self).spec_t(),
            final(self).spec_x() == old(self).spec_x(),
            final(self).spec_w() == old(self).spec_w(),
            final(self).spec_v() == spec_increment_y(old(self).spec_v()),
    {
        let ghost v0 = self.v;
        if (self.v & 0x7000) != 0x7000 {
            proof {
                assert(v0 & 0x7000u16 != 0x7000u16 ==> v0 + 0x1000 < 0x8000u16) by (bit_vector)
                    requires
                        v0 < 0x8000u16,
                ;
            }
            self.v = self.v + 0x1000;
        } else {
            self.v = self.v & !0x7000;
            let mut y = (self.v & 0x03E0) >> 5u16;
            proof {
                assert((v0 & !0x7000u16) < 0x8000u16) by (bit_vector)
                    requires
                        v0 < 0x8000u16,
                ;
                assert(((v0 & !0x7000u16) & 0x03E0u16) >> 5u16 < 32) by (bit_vector);
            }
            if y == 29 {
                y = 0;
                let ghost v1 = self.v;
                self.v = self.v ^ 0x0800;
                proof {
                    assert((v1 ^ 0x0800u16) < 0x8000u16) by (bit_vector)
                        requires
                            v1 < 0x8000u16,
                    ;
                }
            } else if y == 31 {
                y = 0;
            } else {
                y = y + 1;
            }
            let ghost v_mid = self.v;
            self.v = (self.v & !0x03E0) | (y << 5u16);
            proof {
                assert(((v_mid & !0x03E0u16) | (y << 5u16)) < 0x8000u16) by (bit_vector)
                    requires
                        v_mid < 0x8000u16,
                        y < 32u16,
                ;
                let w = v0 & !0x7000u16;
                assert((((w ^ 0x0800u16) & !0x03E0u16) | (0u16 << 5u16)) == ((w ^ 0x0800u16)
                    & !0x03E0u16)) by (bit_vector);
                assert(((w & !0x03E0u16) | (0u16 << 5u16)) == (w & !0x03E0u16)) by (bit_vector);
            }
        }
    }

    /// Copies the horizontal bits of `t` into `v` (coarse X and nametable X).
    pub fn copy_horizontal_bits(&mut self)
        requires
            old(self).wf(),
        ensures
            final(self).wf(),
            final(self).spec_t() == old(self).spec_t(),
            final(self).spec_x() == old(self).spec_x(),
            final(self).spec_w() == old(self).spec_w(),
            final(self).spec_v() == (old(self).spec_v() & !0x041F) | (old(self).spec_t() & 0x041F),
    {
        let ghost v0 = self.v;
        let ghost t0 = self.t;
        self.v = (self.v & !0x041F) | (self.t & 0x041F);
        proof {
            assert(((v0 & !0x041Fu16) | (t0 & 0x041Fu16)) < 0x8000u16) by (bit_vector)
                requires
                    v0 < 0x8000u16,
                    t0 < 0x4000u16,
            ;
        }
    }

    /// Copies the vertical bits of `t` into `v` (coarse Y, fine Y and
    /// nametable Y).
    pub fn copy_vertical_bits(&mut self)
        requires
            old(self).wf(),
        ensures
            final(self).wf(),
            final(self).spec_t() == old(self).spec_t(),
            final(self).spec_x() == old(self).spec_x(),
            final(self).spec_w() == old(self).spec_w(),
            final(self).spec_v() == (old(self).spec_v() & !0x7BE0) | (old(self).spec_t() & 0x7BE0),
    {
        let ghost v0 = self.v;
        let ghost t0 = self.t;
        self.v = (self.v & !0x7BE0) | (self.t & 0x7BE0);
        proof {
            assert(((v0 & !0x7BE0u16) | (t0 & 0x7BE0u16)) < 0x8000u16) by (bit_vector)
                requires
                    v0 < 0x8000u16,
                    t0 < 0x4000u16,
            ;
        }
    }

    pub fn v_debug(&self) -> (r: u16)
        ensures
            r == self.spec_v(),
    {
        self.v
    }

    pub fn t_debug(&self) -> (r: u16)
        ensures
            r == self.spec_t(),
    {
        self.t
    }

    pub fn fine_x_debug(&self) -> (r: u8)
        ensures
            r == self.spec_x(),
    {
        self.x
    }

    pub fn latch_debug(&self) -> (r: bool)
        ensures
            r == self.spec_w(),
    {
        self.w
    }
}

} // verus!
