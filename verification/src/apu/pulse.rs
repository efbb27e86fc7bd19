//! A pulse channel: duty sequence, 11-bit timer, length counter, envelope
//! and sweep unit. Pulse 1 sweeps with one's-complement negation (an extra
//! minus one), pulse 2 with two's-complement.

use vstd::prelude::*;

use crate::apu::envelope::Envelope;
use crate::apu::{length_table_entry, spec_length_table};

verus! {

/// The bit of a duty pattern at a sequence position.
pub fn duty_bit(duty: u8, position: usize) -> u8 {
    let p = position % 8;
    match duty % 4 {
        0 => {
            if p == 0 {
                1
            } else {
                0
            }
        },
        1 => {
            if p <= 1 {
                1
            } else {
                0
            }
        },
        2 => {
            if p <= 3 {
                1
            } else {
                0
            }
        },
        _ => {
            if p >= 2 {
                1
            } else {
                0
            }
        },
    }
}

/// The sweep's target period: the current period plus or minus its shifted
/// self, with the channel's negate correction (pulse 1 subtracts one more),
/// saturating at the top of the 16-bit range.
pub open spec fn spec_sweep_target(p: PulseChannel) -> u16 {
    let change = p.timer_period >> ((p.sweep_shift % 16) as u16);
    if p.sweep_negate {
        let sub: u16 = if change + p.negate_correction > 0xFFFF {
            0xFFFFu16
        } else {
            (change + p.negate_correction) as u16
        };
        if p.timer_period >= sub {
            (p.timer_period - sub) as u16
        } else {
            0u16
        }
    } else {
        if p.timer_period + change > 0xFFFF {
            0xFFFFu16
        } else {
            (p.timer_period + change) as u16
        }
    }
}

/// The sweep mutes outside the playable period range, or when the target
/// period would overflow 11 bits.
pub open spec fn spec_sweep_mute(p: PulseChannel) -> bool {
    if p.timer_period < 8 || p.timer_period > 0x07FF {
        true
    } else if p.sweep_enabled && p.sweep_shift > 0 {
        let change = p.timer_period >> ((p.sweep_shift % 16) as u16);
        (p.sweep_negate && change + p.negate_correction > p.timer_period) || spec_sweep_target(p)
            > 0x07FF
    } else {
        false
    }
}

pub struct PulseChannel {
    pub enabled: bool,
    pub duty: u8,
    pub duty_position: usize,
    pub timer_period: u16,
    pub timer_value: u16,
    pub length_counter: u8,
    pub length_halt: bool,
    pub envelope: Envelope,
    pub sweep_enabled: bool,
    pub sweep_period: u8,
    pub sweep_counter: u8,
    pub sweep_shift: u8,
    pub sweep_negate: bool,
    pub sweep_reload: bool,
    pub negate_correction: u16,
}

impl PulseChannel {
    pub fn new(negate_correction: u16) -> (r: PulseChannel)
        ensures
            !r.enabled,
            r.length_counter == 0,
            r.timer_period == 0,
            r.negate_correction == negate_correction,
    {
        PulseChannel {
            enabled: false,
            duty: 0,
            duty_position: 0,
            timer_period: 0,
            timer_value: 0,
            length_counter: 0,
            length_halt: false,
            envelope: Envelope::new(),
            sweep_enabled: false,
            sweep_period: 1,
            sweep_counter: 0,
            sweep_shift: 0,
            sweep_negate: false,
            sweep_reload: false,
            negate_correction,
        }
    }

    /// Enables or disables the channel; disabling clears the length counter.
    pub fn set_enabled(&mut self, enabled: bool)
        ensures
            final(self).enabled == enabled,
            final(self).length_counter == if enabled {
                old(self).length_counter
            } else {
                0u8
            },
            final(self).timer_period == old(self).timer_period,
    {
        self.enabled = enabled;
        if !enabled {
            self.length_counter = 0;
        }
    }

    /// One of the four channel registers.
    pub fn write_register(&mut self, register: usize, value: u8)
        ensures
            register == 2 ==> final(self).timer_period == (old(self).timer_period & 0xFF00) | (
            value as u16),
            register == 3 ==> {
                &&& final(self).timer_period == (old(self).timer_period & 0x00FF) | (((value
                    & 0x07) as u16) << 8)
                &&& final(self).length_counter == spec_length_table((value >> 3) & 0x1F)
                &&& final(self).duty_position == 0
            },
            register == 0 ==> final(self).envelope.volume == value & 0x0F,
    {
        if register == 0 {
            self.duty = (value >> 6u8) & 0x03;
            self.length_halt = (value & 0x20) != 0;
            self.envelope.write_control(value);
        } else if register == 1 {
            self.sweep_enabled = (value & 0x80) != 0;
            self.sweep_period = ((value >> 4u8) % 8) + 1;
            self.sweep_negate = (value & 0x08) != 0;
            self.sweep_shift = value & 0x07;
            self.sweep_reload = true;
        } else if register == 2 {
            self.timer_period = (self.timer_period & 0xFF00) | value as u16;
        } else if register == 3 {
            self.timer_period = (self.timer_period & 0x00FF) | (((value & 0x07) as u16) << 8u16);
            self.reload_timer();
            self.length_counter = length_table_entry((value >> 3u8) & 0x1F);
            self.envelope.restart();
            self.duty_position = 0;
        }
    }

    /// One timer tick: within the playable period range, counts down and on
    /// expiry reloads from the period and steps the duty position.
    pub fn clock_timer(&mut self)
        ensures
            old(self).timer_period < 8 || old(self).timer_period > 0x07FF ==> *final(self) == *old(
                self,
            ),
            8 <= old(self).timer_period <= 0x07FF && old(self).timer_value <= 1 ==> *final(self)
                == (PulseChannel {
                timer_value: (old(self).timer_period + 1) as u16,
                duty_position: ((old(self).duty_position % 8 + 1) % 8) as usize,
                ..*old(self)
            }),
            8 <= old(self).timer_period <= 0x07FF && old(self).timer_value > 1 ==> *final(self)
                == (PulseChannel { timer_value: (old(self).timer_value - 1) as u16, ..*old(self) }),
    {
        if self.timer_period < 8 || self.timer_period > 0x07FF {
            return ;
        }

        if self.timer_value <= 1 {
            self.reload_timer();
            self.duty_position = (self.duty_position % 8 + 1) % 8;
        } else {
            self.timer_value = self.timer_value - 1;
        }
    }

    /// Quarter frame: clocks the envelope.
    pub fn clock_quarter_frame(&mut self)
        ensures
            final(self).envelope == crate::apu::envelope::spec_envelope_clock(old(self).envelope),
            final(self).length_counter == old(self).length_counter,
            final(self).length_halt == old(self).length_halt,
    {
        self.envelope.clock();
    }

    /// Half frame: steps the length counter and the sweep unit.
    pub fn clock_half_frame(&mut self)
        ensures
            final(self).length_counter == if old(self).length_counter > 0 && !old(
                self,
            ).length_halt {
                (old(self).length_counter - 1) as u8
            } else {
                old(self).length_counter
            },
            final(self).envelope == old(self).envelope,
            final(self).timer_period == (if old(self).sweep_counter == 0 && old(
                self,
            ).sweep_enabled && old(self).sweep_shift > 0 && !spec_sweep_mute(*old(self))
                && spec_sweep_target(*old(self)) <= 0x07FF {
                spec_sweep_target(*old(self))
            } else {
                old(self).timer_period
            }),
            final(self).sweep_counter == (if old(self).sweep_reload || old(self).sweep_counter
                == 0 {
                old(self).sweep_period
            } else {
                (old(self).sweep_counter - 1) as u8
            }),
            !final(self).sweep_reload,
    {
        if self.length_counter > 0 && !self.length_halt {
            self.length_counter = self.length_counter - 1;
        }

        if self.sweep_counter == 0 {
            if self.sweep_enabled && self.sweep_shift > 0 && !self.sweep_mute() {
                let target = self.sweep_target_period();
                if target <= 0x07FF {
                    self.timer_period = target;
                }
            }
            self.sweep_counter = self.sweep_period;
        } else {
            self.sweep_counter = self.sweep_counter - 1;
        }

        if self.sweep_reload {
            self.sweep_counter = self.sweep_period;
            self.sweep_reload = false;
        }
    }

    /// The channel's sample: the envelope volume while enabled, audible and
    /// on a high duty bit, else zero.
    pub fn output(&self) -> (r: i16)
        ensures
            (!self.enabled || self.length_counter == 0) ==> r == 0,
            0 <= r <= 255,
    {
        if !self.enabled || self.length_counter == 0 || self.sweep_mute() {
            return 0;
        }
        if duty_bit(self.duty, self.duty_position) == 0 {
            return 0;
        }
        self.envelope.output() as i16
    }

    /// Whether the length counter is still running.
    pub fn is_active(&self) -> (r: bool)
        ensures
            r == (self.length_counter > 0),
    {
        self.length_counter > 0
    }

    /// The sweep's target period: the period plus or minus its shifted self,
    /// with the channel's negate correction.
    fn sweep_target_period(&self) -> (r: u16)
        ensures
            r == spec_sweep_target(*self),
    {
        let change = self.timer_period >> ((self.sweep_shift % 16) as u16);
        if self.sweep_negate {
            let sub = if change as u32 + self.negate_correction as u32 > 0xFFFF {
                0xFFFFu16
            } else {
                change + self.negate_correction
            };
            if self.timer_period >= sub {
                self.timer_period - sub
            } else {
                0
            }
        } else {
            if self.timer_period as u32 + change as u32 > 0xFFFF {
                0xFFFF
            } else {
                self.timer_period + change
            }
        }
    }

    /// The sweep mutes when the period is outside 8..=0x7FF or the target
    /// period would overflow 11 bits.
    fn sweep_mute(&self) -> (r: bool)
        ensures
            r == spec_sweep_mute(*self),
    {
        if self.timer_period < 8 || self.timer_period > 0x07FF {
            return true;
        }

        if self.sweep_enabled && self.sweep_shift > 0 {
            let change = self.timer_period >> ((self.sweep_shift % 16) as u16);
            if self.sweep_negate && change as u32 + self.negate_correction as u32
                > self.timer_period as u32 {
                return true;
            }
            return self.sweep_target_period() > 0x07FF;
        }

        false
    }

    fn reload_timer(&mut self)
        ensures
            *final(self) == (PulseChannel {
                timer_value: if old(self).timer_period == 0xFFFF {
                    0xFFFFu16
                } else {
                    (old(self).timer_period + 1) as u16
                },
                ..*old(self)
            }),
    {
        self.timer_value = if self.timer_period == 0xFFFF {
            0xFFFF
        } else {
            self.timer_period + 1
        };
    }
}

} // verus!
