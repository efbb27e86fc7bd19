//! The triangle channel: a 32-step wave advanced only while both the length
//! counter and the linear counter are nonzero.

use vstd::prelude::*;

use crate::apu::LengthCounter;
use crate::apu::buffer::RingBuffer;

verus! {

/// The triangle wave value at a sequence position: 0..15 then back down.
pub open spec fn spec_triangle_wave(pos: int) -> int {
    let p = pos % 32;
    if p < 16 {
        p
    } else {
        31 - p
    }
}

pub struct TriangleChannel {
    pub output_buffer: RingBuffer,
    pub edge_buffer: RingBuffer,
    pub last_edge: bool,
    pub length_counter: LengthCounter,
    pub control_flag: bool,
    pub linear_reload_flag: bool,
    pub linear_counter_initial: u8,
    pub linear_counter_current: u8,
    pub sequence_counter: u8,
    pub period_initial: u16,
    pub period_current: u16,
}

impl TriangleChannel {
    pub open spec fn wf(&self) -> bool {
        &&& self.output_buffer.wf()
        &&& self.edge_buffer.wf()
        &&& self.sequence_counter < 32
    }

    pub fn new() -> (r: TriangleChannel)
        ensures
            r.wf(),
            r.length_counter.length == 0,
            r.linear_counter_current == 0,
            r.sequence_counter == 0,
    {
        TriangleChannel {
            output_buffer: RingBuffer::new(32768),
            edge_buffer: RingBuffer::new(32768),
            last_edge: false,
            length_counter: LengthCounter::new(),
            control_flag: false,
            linear_reload_flag: false,
            linear_counter_initial: 0,
            linear_counter_current: 0,
            sequence_counter: 0,
            period_initial: 0,
            period_current: 0,
        }
    }

    /// Quarter frame: reloads the linear counter while the reload flag is
    /// set, else decrements it; clearing control clears the reload flag.
    pub fn update_linear_counter(&mut self)
        requires
            old(self).wf(),
        ensures
            final(self).wf(),
            final(self).linear_counter_current == if old(self).linear_reload_flag {
                old(self).linear_counter_initial
            } else if old(self).linear_counter_current > 0 {
                (old(self).linear_counter_current - 1) as u8
            } else {
                0u8
            },
            final(self).linear_reload_flag == (old(self).linear_reload_flag && old(
                self,
            ).control_flag),
            final(self).length_counter == old(self).length_counter,
            *final(self) == (TriangleChannel {
                linear_counter_current: final(self).linear_counter_current,
                linear_reload_flag: final(self).linear_reload_flag,
                ..*old(self)
            }),
    {
        if self.linear_reload_flag {
            self.linear_counter_current = self.linear_counter_initial;
        } else if self.linear_counter_current > 0 {
            self.linear_counter_current = self.linear_counter_current - 1;
        }
        if !self.control_flag {
            self.linear_reload_flag = false;
        }
    }

    /// One CPU-rate timer tick; the wave position advances only while both
    /// counters run.
    pub fn clock(&mut self)
        requires
            old(self).wf(),
        ensures
            final(self).wf(),
            old(self).linear_counter_current == 0 || old(self).length_counter.length == 0
                ==> *final(self) == *old(self),
            old(self).linear_counter_current != 0 && old(self).length_counter.length > 0 && old(
                self,
            ).period_current == 0 ==> *final(self) == (TriangleChannel {
                period_current: old(self).period_initial,
                sequence_counter: if old(self).sequence_counter >= 31 {
                    0u8
                } else {
                    (old(self).sequence_counter + 1) as u8
                },
                last_edge: if old(self).sequence_counter >= 31 {
                    true
                } else {
                    old(self).last_edge
                },
                ..*old(self)
            }),
            old(self).linear_counter_current != 0 && old(self).length_counter.length > 0 && old(
                self,
            ).period_current > 0 ==> *final(self) == (TriangleChannel {
                period_current: (old(self).period_current - 1) as u16,
                ..*old(self)
            }),
    {
        if self.linear_counter_current != 0 && self.length_counter.length > 0 {
            if self.period_current == 0 {
                self.period_current = self.period_initial;
                if self.sequence_counter >= 31 {
                    self.sequence_counter = 0;
                    self.last_edge = true;
                } else {
                    self.sequence_counter = self.sequence_counter + 1;
                }
            } else {
                self.period_current = self.period_current - 1;
            }
        }
    }

    /// The wave sample; ultra-sonic periods flatten to a mid value.
    pub fn output(&self) -> (r: i16)
        requires
            self.wf(),
        ensures
            self.period_initial > 2 ==> r == spec_triangle_wave(self.sequence_counter as int),
            0 <= r <= 15,
    {
        if self.period_initial <= 2 {
            7
        } else {
            let p = self.sequence_counter % 32;
            if p < 16 {
                p as i16
            } else {
                31 - p as i16
            }
        }
    }

    /// Taps the current output into the debug ring.
    pub fn record_current_output(&mut self)
        requires
            old(self).wf(),
        ensures
            final(self).wf(),
    {
        let v = self.output();
        self.output_buffer.push(0 - v * 4);
        let edge: i16 = if self.last_edge {
            1
        } else {
            0
        };
        self.edge_buffer.push(edge);
        self.last_edge = false;
    }
}

} // verus!
