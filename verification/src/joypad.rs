//! Controller port: eight button bits latched by a strobe and then shifted
//! out one bit per read, button A first; reads past the eighth return 1.

use vstd::prelude::*;

verus! {

/// Bit masks for the eight buttons, in shift order (A is read first).
pub const BUTTON_A: u8 = 0x01;
pub const BUTTON_B: u8 = 0x02;
pub const BUTTON_SELECT: u8 = 0x04;
pub const BUTTON_START: u8 = 0x08;
pub const BUTTON_UP: u8 = 0x10;
pub const BUTTON_DOWN: u8 = 0x20;
pub const BUTTON_LEFT: u8 = 0x40;
pub const BUTTON_RIGHT: u8 = 0x80;

pub struct Joypad {
    pub strobe: bool,
    pub button_index: u8,
    pub button_status: u8,
}

/// The n-th button bit of a status byte (0 = button A).
pub open spec fn button_bit(status: u8, n: u8) -> u8 {
    (status >> n) & 1
}

/// What one read of the shift register returns.
pub open spec fn spec_read_value(j: Joypad) -> u8 {
    if j.button_index > 7 {
        1
    } else {
        button_bit(j.button_status, j.button_index)
    }
}

/// The controller state after one read.
pub open spec fn spec_after_read(j: Joypad) -> Joypad {
    if j.button_index > 7 || j.strobe {
        j
    } else {
        Joypad { button_index: (j.button_index + 1) as u8, ..j }
    }
}

/// The controller state after n successive reads.
pub open spec fn spec_after_reads(j: Joypad, n: nat) -> Joypad
    decreases n,
{
    if n == 0 {
        j
    } else {
        spec_after_read(spec_after_reads(j, (n - 1) as nat))
    }
}

/// What the (n+1)-th of a run of successive reads returns.
pub open spec fn spec_nth_read(j: Joypad, n: nat) -> u8 {
    spec_read_value(spec_after_reads(j, n))
}

impl Joypad {
    pub fn new() -> (r: Joypad)
        ensures
            !r.strobe,
            r.button_index == 0,
            r.button_status == 0,
    {
        Joypad { strobe: false, button_index: 0, button_status: 0 }
    }

    /// Writing bit 0 sets the strobe; while high the shift index stays reset,
    /// and the falling edge leaves the index at 0 so reads walk the bits.
    pub fn write(&mut self, data: u8)
        ensures
            final(self).strobe == ((data & 1) == 1),
            final(self).button_index == if (data & 1) == 1 { 0u8 } else { old(self).button_index },
            final(self).button_status == old(self).button_status,
    {
        self.strobe = (data & 1) == 1;
        if self.strobe {
            self.button_index = 0;
        }
    }

    /// Returns the current button bit and, when the strobe is low, advances
    /// the shift index; reads past the eighth bit return 1.
    pub fn read(&mut self) -> (r: u8)
        ensures
            r == spec_read_value(*old(self)),
            *final(self) == spec_after_read(*old(self)),
    {
        if self.button_index > 7 {
            return 1;
        }
        let response = (self.button_status >> self.button_index) & 1;
        if !self.strobe {
            self.button_index = self.button_index + 1;
        }
        response
    }

    pub fn set_button_pressed_status(&mut self, button: u8, pressed: bool)
        ensures
            final(self).button_status == if pressed {
                old(self).button_status | button
            } else {
                old(self).button_status & !button
            },
            final(self).strobe == old(self).strobe,
            final(self).button_index == old(self).button_index,
    {
        if pressed {
            self.button_status = self.button_status | button;
        } else {
            self.button_status = self.button_status & !button;
        }
    }
}

/// After n reads from a freshly strobed controller the shift index is
/// min(n, 8) and the buttons and strobe are untouched.
pub proof fn lemma_after_reads_index(j: Joypad, n: nat)
    requires
        !j.strobe,
        j.button_index == 0,
    ensures
        spec_after_reads(j, n).button_status == j.button_status,
        spec_after_reads(j, n).strobe == j.strobe,
        spec_after_reads(j, n).button_index == if n <= 8 { n as u8 } else { 8u8 },
    decreases n,
{
    if n > 0 {
        lemma_after_reads_index(j, (n - 1) as nat);
    }
}

/// After a strobe pulse the first eight reads return the eight button bits in
/// order, button A first, and every later read returns 1.
pub proof fn lemma_reads_after_strobe(j: Joypad, n: nat)
    requires
        !j.strobe,
        j.button_index == 0,
    ensures
        n < 8 ==> spec_nth_read(j, n) == button_bit(j.button_status, n as u8),
        n >= 8 ==> spec_nth_read(j, n) == 1,
{
    lemma_after_reads_index(j, n);
}

} // verus!
