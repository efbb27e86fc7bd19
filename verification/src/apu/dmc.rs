//! The delta-modulation channel: plays 1-bit deltas from a sample buffer
//! the bus fills on request, stepping a 7-bit output level by two.

use vstd::prelude::*;
use vstd::wrapping::u16_specs;

use crate::apu::buffer::RingBuffer;

verus! {

/// The rate table for the sixteen DMC periods.
pub fn dmc_rate_entry(index: u8) -> u16 {
    match index % 16 {
        0 => 428,
        1 => 380,
        2 => 340,
        3 => 320,
        4 => 286,
        5 => 254,
        6 => 226,
        7 => 214,
        8 => 190,
        9 => 160,
        10 => 142,
        11 => 128,
        12 => 106,
        13 => 84,
        14 => 72,
        _ => 54,
    }
}

pub struct DmcChannel {
    pub output_buffer: RingBuffer,
    pub edge_buffer: RingBuffer,
    pub last_edge: bool,
    pub looping: bool,
    pub period_initial: u16,
    pub period_current: u16,
    pub output_level: u8,
    pub starting_address: u16,
    pub sample_length: u16,
    pub current_address: u16,
    pub sample_buffer: Option<u8>,
    pub shift_register: u8,
    pub bits_remaining: u8,
    pub bytes_remaining: u16,
    pub silence_flag: bool,
    pub interrupt_enabled: bool,
    pub interrupt_flag: bool,
    pub sample_fetch_pending: bool,
}

impl DmcChannel {
    pub open spec fn wf(&self) -> bool {
        &&& self.output_buffer.wf()
        &&& self.edge_buffer.wf()
    }

    pub fn new() -> (r: DmcChannel)
        ensures
            r.wf(),
            r.bytes_remaining == 0,
            r.output_level == 0,
            !r.interrupt_flag,
    {
        DmcChannel {
            output_buffer: RingBuffer::new(32768),
            edge_buffer: RingBuffer::new(32768),
            last_edge: false,
            looping: false,
            period_initial: dmc_rate_entry(0),
            period_current: dmc_rate_entry(0),
            output_level: 0,
            starting_address: 0,
            sample_length: 0,
            current_address: 0,
            sample_buffer: None,
            shift_register: 0,
            bits_remaining: 8,
            bytes_remaining: 0,
            silence_flag: false,
            interrupt_enabled: false,
            interrupt_flag: false,
            sample_fetch_pending: false,
        }
    }

    /// Starts a new 8-bit output cycle: loads the shift register from the
    /// sample buffer, or goes silent when the buffer is empty.
    pub fn begin_output_cycle(&mut self)
        requires
            old(self).wf(),
        ensures
            final(self).wf(),
            final(self).bits_remaining == 8,
            final(self).silence_flag == (old(self).sample_buffer is None),
            final(self).sample_fetch_pending == old(self).sample_fetch_pending,
            final(self).bytes_remaining == old(self).bytes_remaining,
            final(self).sample_buffer is None,
            old(self).sample_buffer matches Some(b) ==> final(self).shift_register == b,
            final(self).output_level == old(self).output_level,
            final(self).current_address == old(self).current_address,
    {
        self.bits_remaining = 8;
        match self.sample_buffer {
            None => {
                self.silence_flag = true;
            },
            Some(b) => {
                self.silence_flag = false;
                self.shift_register = b;
                self.sample_buffer = None;
            },
        }
    }

    /// Plays one delta bit: the output level steps by two toward 0 or 127,
    /// the shift register advances, and an exhausted bit count starts the
    /// next output cycle.
    pub fn update_output_unit(&mut self)
        requires
            old(self).wf(),
        ensures
            final(self).wf(),
            final(self).sample_fetch_pending == old(self).sample_fetch_pending,
            final(self).bytes_remaining == old(self).bytes_remaining,
            final(self).current_address == old(self).current_address,
            old(self).sample_buffer is None ==> final(self).sample_buffer is None,
            old(self).silence_flag ==> final(self).output_level == old(self).output_level,
            !old(self).silence_flag ==> final(self).output_level == (if old(self).shift_register
                & 1 == 0 {
                if old(self).output_level >= 2 {
                    (old(self).output_level - 2) as u8
                } else {
                    old(self).output_level
                }
            } else {
                if old(self).output_level <= 125 {
                    (old(self).output_level + 2) as u8
                } else {
                    old(self).output_level
                }
            }),
    {
        if !self.silence_flag {
            let mut target_output = self.output_level;
            if (self.shift_register & 1) == 0 {
                if self.output_level >= 2 {
                    target_output = target_output - 2;
                }
            } else {
                if self.output_level <= 125 {
                    target_output = target_output + 2;
                }
            }
            self.output_level = target_output;
        }
        self.shift_register = self.shift_register >> 1u8;
        if self.bits_remaining > 0 {
            self.bits_remaining = self.bits_remaining - 1;
        }
        if self.bits_remaining == 0 {
            self.begin_output_cycle();
        }
    }

    /// One CPU-rate tick of the rate timer. Returns the CPU address to fetch
    /// the next sample byte from when the buffer is empty and bytes remain.
    pub fn clock(&mut self) -> (r: Option<u16>)
        requires
            old(self).wf(),
        ensures
            final(self).wf(),
            r matches Some(a) ==> 0x8000 <= a && final(self).sample_fetch_pending,
            old(self).sample_fetch_pending || old(self).bytes_remaining == 0 ==> r is None,
            old(self).sample_buffer is None && !old(self).sample_fetch_pending && old(
                self,
            ).bytes_remaining > 0 ==> r is Some,
            r matches Some(a) ==> a == 0x8000 + (old(self).current_address % 0x8000),
    {
        if self.period_current == 0 {
            self.period_current = self.period_initial;
            self.update_output_unit();
        } else {
            self.period_current = self.period_current - 1;
        }

        if !self.sample_fetch_pending && matches!(self.sample_buffer, None) && self.bytes_remaining
            > 0 {
            self.sample_fetch_pending = true;
            Some(0x8000u16 + (self.current_address % 0x8000))
        } else {
            None
        }
    }

    /// Accepts the fetched sample byte: fills the buffer, advances the
    /// address and, when the last byte arrives, loops or latches the IRQ.
    pub fn provide_sample(&mut self, value: u8)
        requires
            old(self).wf(),
        ensures
            final(self).wf(),
            final(self).sample_buffer == Some(value),
            !final(self).sample_fetch_pending,
            old(self).bytes_remaining > 1 ==> final(self).bytes_remaining == old(
                self,
            ).bytes_remaining - 1,
            old(self).bytes_remaining <= 1 && old(self).looping ==> final(self).bytes_remaining
                == old(self).sample_length && final(self).current_address == old(
                self,
            ).starting_address,
            old(self).bytes_remaining > 1 ==> final(self).current_address == u16_specs::wrapping_add(
                old(self).current_address,
                1,
            ),
            old(self).bytes_remaining <= 1 && !old(self).looping ==> final(self).bytes_remaining
                == 0 && final(self).current_address == u16_specs::wrapping_add(
                old(self).current_address,
                1,
            ),
            final(self).interrupt_flag == (old(self).interrupt_flag || (old(self).bytes_remaining
                <= 1 && !old(self).looping && old(self).interrupt_enabled)),
    {
        self.sample_buffer = Some(value);
        self.sample_fetch_pending = false;
        self.current_address = self.current_address.wrapping_add(1);
        if self.bytes_remaining > 0 {
            self.bytes_remaining = self.bytes_remaining - 1;
        }
        if self.bytes_remaining == 0 {
            if self.looping {
                self.current_address = self.starting_address;
                self.bytes_remaining = self.sample_length;
                self.last_edge = true;
            } else if self.interrupt_enabled {
                self.interrupt_flag = true;
            }
        }
    }

    /// The 7-bit output level.
    pub fn output(&self) -> (r: i16)
        ensures
            r == self.output_level,
            r >= 0,
    {
        self.output_level as i16
    }

    /// Taps the current output into the debug ring.
    pub fn record_current_output(&mut self)
        requires
            old(self).wf(),
        ensures
            final(self).wf(),
    {
        let v = self.output();
        self.output_buffer.push(0 - v * 4);
        let edge: i16 = if self.last_edge {
            1
        } else {
            0
        };
        self.edge_buffer.push(edge);
        self.last_edge = false;
    }
}

} // verus!
