//! The shared envelope unit: a looping or one-shot decay from 15, or a
//! constant volume, clocked on quarter-frame ticks.

use vstd::prelude::*;

verus! {

#[derive(Clone, Copy, PartialEq, Eq, Structural, Debug)]
pub struct Envelope {
    pub loop_flag: bool,
    pub constant_volume: bool,
    pub volume: u8,
    pub start_flag: bool,
    pub divider: u8,
    pub decay_level: u8,
}

/// The envelope after one quarter-frame clock.
pub open spec fn spec_envelope_clock(e: Envelope) -> Envelope {
    if e.start_flag {
        Envelope { start_flag: false, decay_level: 15, divider: spec_reload_value(e), ..e }
    } else if e.divider == 0 {
        let decayed = if e.decay_level == 0 {
            if e.loop_flag {
                15u8
            } else {
                0u8
            }
        } else {
            (e.decay_level - 1) as u8
        };
        Envelope { divider: spec_reload_value(e), decay_level: decayed, ..e }
    } else {
        Envelope { divider: (e.divider - 1) as u8, ..e }
    }
}

pub open spec fn spec_reload_value(e: Envelope) -> u8 {
    if e.volume == 255 {
        255
    } else {
        (e.volume + 1) as u8
    }
}

impl Envelope {
    pub fn new() -> (r: Envelope)
        ensures
            r == (Envelope {
                loop_flag: false,
                constant_volume: false,
                volume: 0u8,
                start_flag: false,
                divider: 0u8,
                decay_level: 0u8,
            }),
    {
        Envelope {
            loop_flag: false,
            constant_volume: false,
            volume: 0,
            start_flag: false,
            divider: 0,
            decay_level: 0,
        }
    }

    /// Loads loop, constant-volume and volume from a channel control byte.
    pub fn write_control(&mut self, value: u8)
        ensures
            final(self).loop_flag == ((value & 0x20) != 0),
            final(self).constant_volume == ((value & 0x10) != 0),
            final(self).volume == value & 0x0F,
            final(self).start_flag == old(self).start_flag,
            final(self).divider == old(self).divider,
            final(self).decay_level == old(self).decay_level,
    {
        self.loop_flag = (value & 0x20) != 0;
        self.constant_volume = (value & 0x10) != 0;
        self.volume = value & 0x0F;
    }

    /// Flags a restart; the next quarter-frame clock reloads the decay.
    pub fn restart(&mut self)
        ensures
            *final(self) == (Envelope { start_flag: true, ..*old(self) }),
    {
        self.start_flag = true;
    }

    /// One quarter-frame tick, per `spec_envelope_clock`.
    pub fn clock(&mut self)
        ensures
            *final(self) == spec_envelope_clock(*old(self)),
    {
        if self.start_flag {
            self.start_flag = false;
            self.decay_level = 15;
            self.divider = self.reload_value();
            return ;
        }

        if self.divider == 0 {
            self.divider = self.reload_value();
            if self.decay_level == 0 {
                if self.loop_flag {
                    self.decay_level = 15;
                }
            } else {
                self.decay_level = self.decay_level - 1;
            }
        } else {
            self.divider = self.divider - 1;
        }
    }

    /// The current volume: the register in constant mode, else the decay.
    pub fn output(&self) -> (r: u8)
        ensures
            r == if self.constant_volume {
                self.volume
            } else {
                self.decay_level
            },
    {
        if self.constant_volume {
            self.volume
        } else {
            self.decay_level
        }
    }

    fn reload_value(&self) -> (r: u8)
        ensures
            r == spec_reload_value(*self),
    {
        if self.volume == 255 {
            255
        } else {
            self.volume + 1
        }
    }
}

} // verus!
