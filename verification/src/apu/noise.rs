//! The noise channel: a 15-bit linear-feedback shift register with two
//! feedback taps, gated by the length counter and scaled by the envelope.

use vstd::prelude::*;

use crate::apu::LengthCounter;
use crate::apu::buffer::RingBuffer;
use crate::apu::envelope::Envelope;

verus! {

/// The period table for the sixteen noise rates.
pub fn noise_period_entry(index: u8) -> u16 {
    match index % 16 {
        0 => 4,
        1 => 8,
        2 => 16,
        3 => 32,
        4 => 64,
        5 => 96,
        6 => 128,
        7 => 160,
        8 => 202,
        9 => 254,
        10 => 380,
        11 => 508,
        12 => 762,
        13 => 1016,
        14 => 2034,
        _ => 4068,
    }
}

/// One LFSR step: feedback from bit 0 xor bit 1 (mode 0) or bit 0 xor bit 6
/// (mode 1), shifted right with the feedback placed in bit 14.
pub open spec fn spec_lfsr_step(reg: u16, mode: u8) -> u16 {
    let feedback = if mode == 1 {
        (reg & 1) ^ ((reg >> 6) & 1)
    } else {
        (reg & 1) ^ ((reg >> 1) & 1)
    };
    (reg >> 1) | (feedback << 14)
}

pub struct NoiseChannel {
    pub output_buffer: RingBuffer,
    pub edge_buffer: RingBuffer,
    pub last_edge: bool,
    pub envelope: Envelope,
    pub length_counter: LengthCounter,
    pub mode: u8,
    pub period_initial: u16,
    pub period_current: u16,
    pub shift_register: u16,
}

impl NoiseChannel {
    pub open spec fn wf(&self) -> bool {
        &&& self.output_buffer.wf()
        &&& self.edge_buffer.wf()
    }

    pub fn new() -> (r: NoiseChannel)
        ensures
            r.wf(),
            r.shift_register == 1,
            r.length_counter.length == 0,
    {
        NoiseChannel {
            output_buffer: RingBuffer::new(32768),
            edge_buffer: RingBuffer::new(32768),
            last_edge: false,
            envelope: Envelope::new(),
            length_counter: LengthCounter::new(),
            mode: 0,
            period_initial: noise_period_entry(0),
            period_current: noise_period_entry(0),
            shift_register: 1,
        }
    }

    /// One timer tick; on expiry the shift register steps per
    /// `spec_lfsr_step`.
    pub fn clock(&mut self)
        requires
            old(self).wf(),
        ensures
            final(self).wf(),
            old(self).period_current == 0 ==> final(self).shift_register == spec_lfsr_step(
                old(self).shift_register,
                old(self).mode,
            ),
            old(self).period_current != 0 ==> final(self).shift_register == old(
                self,
            ).shift_register,
            final(self).period_current == if old(self).period_current == 0 {
                if old(self).period_initial == 0 {
                    0int
                } else {
                    old(self).period_initial - 1
                }
            } else {
                old(self).period_current - 1
            },
            *final(self) == (NoiseChannel {
                period_current: final(self).period_current,
                shift_register: final(self).shift_register,
                last_edge: final(self).last_edge,
                ..*old(self)
            }),
            final(self).last_edge == (old(self).last_edge || old(self).period_current == 0),
    {
        if self.period_current == 0 {
            self.period_current = if self.period_initial == 0 {
                0
            } else {
                self.period_initial - 1
            };

            let mut feedback = self.shift_register & 1;
            if self.mode == 1 {
                feedback = feedback ^ ((self.shift_register >> 6u16) & 1);
            } else {
                feedback = feedback ^ ((self.shift_register >> 1u16) & 1);
            }
            self.shift_register = self.shift_register >> 1u16;
            self.shift_register = self.shift_register | (feedback << 14u16);
            self.last_edge = true;
        } else {
            self.period_current = self.period_current - 1;
        }
    }

    /// The channel sample: envelope volume gated by bit 0 of the register
    /// and the length counter.
    pub fn output(&self) -> (r: i16)
        ensures
            self.length_counter.length == 0 ==> r == 0,
            0 <= r <= 255,
    {
        if self.length_counter.length > 0 {
            if self.shift_register % 2 == 1 {
                self.envelope.output() as i16
            } else {
                0
            }
        } else {
            0
        }
    }

    /// Taps the current output into the debug ring.
    pub fn record_current_output(&mut self)
        requires
            old(self).wf(),
        ensures
            final(self).wf(),
    {
        let v = self.output();
        self.output_buffer.push(0 - v * 4);
        let edge: i16 = if self.last_edge {
            1
        } else {
            0
        };
        self.edge_buffer.push(edge);
        self.last_edge = false;
    }
}

} // verus!
