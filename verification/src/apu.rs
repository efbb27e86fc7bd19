//! The APU: five channels clocked by a frame sequencer, paced into a queue
//! of integer channel samples that the host mixes into audio.
//!
//! The frame sequencer is modeled by [`fs_step`], and
//! [`lemma_frame_irq_asserts_once`] proves that in 4-step mode with the IRQ
//! enabled, a 29830-cycle run from the start of the cadence raises the
//! frame IRQ line exactly once.

pub mod buffer;
pub mod dmc;
pub mod envelope;
pub mod noise;
pub mod pulse;
pub mod triangle;

use vstd::prelude::*;
use vstd::wrapping::u16_specs;
use vstd::wrapping::u64_specs;

use crate::apu::dmc::{DmcChannel, dmc_rate_entry};
use crate::apu::noise::{NoiseChannel, noise_period_entry};
use crate::apu::pulse::PulseChannel;
use crate::apu::triangle::TriangleChannel;

verus! {

pub const CPU_CLOCK_NTSC: u64 = 1789773;

/// The fixed 32-entry length table.
pub open spec fn spec_length_table(index: u8) -> u8 {
    let i = index % 32;
    if i == 0 {
        10
    } else if i == 1 {
        254
    } else if i == 2 {
        20
    } else if i == 3 {
        2
    } else if i == 4 {
        40
    } else if i == 5 {
        4
    } else if i == 6 {
        80
    } else if i == 7 {
        6
    } else if i == 8 {
        160
    } else if i == 9 {
        8
    } else if i == 10 {
        60
    } else if i == 11 {
        10
    } else if i == 12 {
        14
    } else if i == 13 {
        12
    } else if i == 14 {
        26
    } else if i == 15 {
        14
    } else if i == 16 {
        12
    } else if i == 17 {
        16
    } else if i == 18 {
        24
    } else if i == 19 {
        18
    } else if i == 20 {
        48
    } else if i == 21 {
        20
    } else if i == 22 {
        96
    } else if i == 23 {
        22
    } else if i == 24 {
        192
    } else if i == 25 {
        24
    } else if i == 26 {
        72
    } else if i == 27 {
        26
    } else if i == 28 {
        16
    } else if i == 29 {
        28
    } else if i == 30 {
        32
    } else {
        30
    }
}

/// The length table entry for a 5-bit index.
pub fn length_table_entry(index: u8) -> (r: u8)
    ensures
        r == spec_length_table(index),
{
    match index % 32 {
        0 => 10,
        1 => 254,
        2 => 20,
        3 => 2,
        4 => 40,
        5 => 4,
        6 => 80,
        7 => 6,
        8 => 160,
        9 => 8,
        10 => 60,
        11 => 10,
        12 => 14,
        13 => 12,
        14 => 26,
        15 => 14,
        16 => 12,
        17 => 16,
        18 => 24,
        19 => 18,
        20 => 48,
        21 => 20,
        22 => 96,
        23 => 22,
        24 => 192,
        25 => 24,
        26 => 72,
        27 => 26,
        28 => 16,
        29 => 28,
        30 => 32,
        _ => 30,
    }
}

/// The shared length counter: silences its channel at zero, counts down on
/// half-frame ticks unless halted, and loads from the table only while the
/// channel is enabled.
#[derive(Clone, Copy, PartialEq, Eq, Structural, Debug)]
pub struct LengthCounter {
    pub length: u8,
    pub halt_flag: bool,
    pub channel_enabled: bool,
}

impl LengthCounter {
    pub fn new() -> (r: LengthCounter)
        ensures
            r.length == 0,
            !r.halt_flag,
            !r.channel_enabled,
    {
        LengthCounter { length: 0, halt_flag: false, channel_enabled: false }
    }

    /// Half-frame tick: counts down unless halted or already zero.
    pub fn clock(&mut self)
        ensures
            final(self).length == if old(self).length > 0 && !old(self).halt_flag {
                (old(self).length - 1) as u8
            } else {
                old(self).length
            },
            final(self).halt_flag == old(self).halt_flag,
            final(self).channel_enabled == old(self).channel_enabled,
    {
        if self.length > 0 && !self.halt_flag {
            self.length = self.length - 1;
        }
    }

    /// Loads from the length table, only while the channel is enabled.
    pub fn set_length(&mut self, index: u8)
        ensures
            final(self).length == if old(self).channel_enabled {
                spec_length_table(if index > 31 {
                    31u8
                } else {
                    index
                })
            } else {
                old(self).length
            },
            final(self).halt_flag == old(self).halt_flag,
            final(self).channel_enabled == old(self).channel_enabled,
    {
        if self.channel_enabled {
            let idx = if index > 31 {
                31
            } else {
                index
            };
            self.length = length_table_entry(idx);
        }
    }
}

/// One channel-output sample: what each of the five channels put out when
/// the sample was taken. The host mixes these into audio.
#[derive(Clone, Copy, PartialEq, Eq, Structural, Debug)]
pub struct ApuSample {
    pub pulse1: u8,
    pub pulse2: u8,
    pub triangle: u8,
    pub noise: u8,
    pub dmc: u8,
}

/// The frame sequencer's own state, as the contracts see it.
#[derive(Clone, Copy, PartialEq, Eq, Structural, Debug)]
pub struct FsState {
    pub mode: u8,
    pub counter: u16,
    pub delay: u8,
    pub inhibit: bool,
    pub irq: bool,
}

/// One CPU cycle of the frame sequencer. In 4-step mode the cadence counter
/// runs 0..=29830; the IRQ line rises at 29828 unless inhibited, and the
/// counter wraps after 29830. In 5-step mode the cadence is 37282 and no IRQ
/// is raised. A pending reset delay zeroes the counter when it expires.
pub open spec fn fs_step(s: FsState) -> FsState {
    let delay1: u8 = if s.delay > 0 {
        (s.delay - 1) as u8
    } else {
        0
    };
    let counter1: u16 = if s.delay > 0 && delay1 == 0 {
        0
    } else {
        s.counter
    };
    if s.mode == 0 {
        let irq2 = if (counter1 == 29828 || counter1 == 29829 || counter1 == 29830) && !s.inhibit {
            true
        } else {
            s.irq
        };
        let counter2: u16 = if counter1 == 29830 {
            0
        } else {
            counter1
        };
        FsState {
            mode: s.mode,
            counter: u16_specs::wrapping_add(counter2, 1),
            delay: delay1,
            inhibit: s.inhibit,
            irq: irq2,
        }
    } else {
        let counter2: u16 = if counter1 == 37282 {
            0
        } else {
            counter1
        };
        FsState {
            mode: s.mode,
            counter: u16_specs::wrapping_add(counter2, 1),
            delay: delay1,
            inhibit: s.inhibit,
            irq: s.irq,
        }
    }
}

/// The sequencer state after `n` cycles.
pub open spec fn fs_iter(s: FsState, n: nat) -> FsState
    decreases n,
{
    if n == 0 {
        s
    } else {
        fs_step(fs_iter(s, (n - 1) as nat))
    }
}

/// In 4-step mode with the IRQ enabled, starting a cadence: the counter
/// tracks the cycle count and the IRQ line is low before cycle 29829 and
/// high from then on.
pub proof fn lemma_frame_irq_line(s: FsState, n: nat)
    requires
        s.mode == 0,
        s.counter == 0,
        s.delay == 0,
        !s.inhibit,
        !s.irq,
        n <= 29830,
    ensures
        fs_iter(s, n).mode == 0,
        fs_iter(s, n).delay == 0,
        !fs_iter(s, n).inhibit,
        fs_iter(s, n).counter == n,
        fs_iter(s, n).irq == (n >= 29829),
    decreases n,
{
    if n > 0 {
        lemma_frame_irq_line(s, (n - 1) as nat);
    }
}

/// Over a full 29830-cycle 4-step cadence with the IRQ enabled, the frame
/// IRQ line asserts exactly once: it is low through cycle 29828 and rises
/// there, staying high to the end of the cadence.
pub proof fn lemma_frame_irq_asserts_once(s: FsState)
    requires
        s.mode == 0,
        s.counter == 0,
        s.delay == 0,
        !s.inhibit,
        !s.irq,
    ensures
        forall|k: nat| k < 29829 ==> !#[trigger] fs_iter(s, k).irq,
        forall|k: nat| 29829 <= k <= 29830 ==> #[trigger] fs_iter(s, k).irq,
{
    assert forall|k: nat| k < 29829 implies !#[trigger] fs_iter(s, k).irq by {
        lemma_frame_irq_line(s, k);
    }
    assert forall|k: nat| 29829 <= k <= 29830 implies #[trigger] fs_iter(s, k).irq by {
        lemma_frame_irq_line(s, k);
    }
}

pub struct APU {
    pub current_cycle: u64,
    pub frame_sequencer_mode: u8,
    pub frame_sequencer: u16,
    pub frame_reset_delay: u8,
    pub quarter_frame_counter: u32,
    pub half_frame_counter: u32,
    pub frame_interrupt: bool,
    pub disable_interrupt: bool,
    pub pulse1: PulseChannel,
    pub pulse2: PulseChannel,
    pub triangle: TriangleChannel,
    pub noise: NoiseChannel,
    pub dmc: DmcChannel,
    pub sample_rate: u64,
    pub cpu_clock_rate: u64,
    pub generated_samples: u64,
    pub next_sample_at: u64,
    pub samples: Vec<ApuSample>,
    pub max_buffer_samples: usize,
}

impl APU {
    pub open spec fn wf(&self) -> bool {
        &&& self.triangle.wf()
        &&& self.noise.wf()
        &&& self.dmc.wf()
        &&& self.sample_rate >= 1
    }

    /// The sequencer fields of this APU, as one value.
    pub open spec fn fs_project(&self) -> FsState {
        FsState {
            mode: self.frame_sequencer_mode,
            counter: self.frame_sequencer,
            delay: self.frame_reset_delay,
            inhibit: self.disable_interrupt,
            irq: self.frame_interrupt,
        }
    }

    pub fn new(sample_rate: u32) -> (r: APU)
        ensures
            r.wf(),
            r.fs_project() == (FsState {
                mode: 0u8,
                counter: 0u16,
                delay: 0u8,
                inhibit: false,
                irq: false,
            }),
            r.samples@.len() == 0,
    {
        let rate: u64 = if sample_rate == 0 {
            1
        } else {
            sample_rate as u64
        };
        let max_samples_u64: u64 = if rate > 0xFFFFFFF {
            0xFFFFFFF * 4
        } else {
            rate * 4
        };
        APU {
            current_cycle: 0,
            frame_sequencer_mode: 0,
            frame_sequencer: 0,
            frame_reset_delay: 0,
            quarter_frame_counter: 0,
            half_frame_counter: 0,
            frame_interrupt: false,
            disable_interrupt: false,
            pulse1: PulseChannel::new(1),
            pulse2: PulseChannel::new(0),
            triangle: TriangleChannel::new(),
            noise: NoiseChannel::new(),
            dmc: DmcChannel::new(),
            sample_rate: rate,
            cpu_clock_rate: CPU_CLOCK_NTSC,
            generated_samples: 0,
            next_sample_at: 0,
            samples: Vec::new(),
            max_buffer_samples: max_samples_u64 as usize,
        }
    }

    pub fn set_sample_rate(&mut self, sample_rate: u32)
        requires
            old(self).wf(),
        ensures
            final(self).wf(),
            final(self).sample_rate == if sample_rate == 0 {
                1u64
            } else {
                sample_rate as u64
            },
    {
        self.sample_rate = if sample_rate == 0 {
            1
        } else {
            sample_rate as u64
        };
        let max_samples_u64: u64 = if self.sample_rate > 0xFFFFFFF {
            0xFFFFFFF * 4
        } else {
            self.sample_rate * 4
        };
        self.max_buffer_samples = max_samples_u64 as usize;
    }

    /// A write to one of the channel registers 0x4000-0x4013: the addressed
    /// channel takes the value, every other channel and the sequencer stay
    /// put, and a write outside the register file does nothing.
    pub fn write_register(&mut self, addr: u16, value: u8)
        requires
            old(self).wf(),
        ensures
            final(self).wf(),
            final(self).fs_project() == old(self).fs_project(),
            0x4000 <= addr <= 0x4003 ==> *final(self) == (APU {
                pulse1: final(self).pulse1,
                ..*old(self)
            }),
            0x4004 <= addr <= 0x4007 ==> *final(self) == (APU {
                pulse2: final(self).pulse2,
                ..*old(self)
            }),
            0x4008 <= addr <= 0x400B ==> *final(self) == (APU {
                triangle: final(self).triangle,
                ..*old(self)
            }),
            0x400C <= addr <= 0x400F ==> *final(self) == (APU {
                noise: final(self).noise,
                ..*old(self)
            }),
            0x4010 <= addr <= 0x4013 ==> *final(self) == (APU {
                dmc: final(self).dmc,
                ..*old(self)
            }),
            addr < 0x4000 || addr > 0x4013 || addr == 0x4009 || addr == 0x400D ==> *final(self)
                == *old(self),
            addr == 0x4002 ==> final(self).pulse1.timer_period == (old(self).pulse1.timer_period
                & 0xFF00) | value as u16,
            addr == 0x4003 ==> {
                &&& final(self).pulse1.timer_period == (old(self).pulse1.timer_period & 0x00FF) | ((
                (value & 0x07) as u16) << 8)
                &&& final(self).pulse1.length_counter == spec_length_table((value >> 3) & 0x1F)
                &&& final(self).pulse1.duty_position == 0
            },
            addr == 0x4000 ==> final(self).pulse1.envelope.volume == value & 0x0F,
            addr == 0x4006 ==> final(self).pulse2.timer_period == (old(self).pulse2.timer_period
                & 0xFF00) | value as u16,
            addr == 0x4007 ==> {
                &&& final(self).pulse2.timer_period == (old(self).pulse2.timer_period & 0x00FF) | ((
                (value & 0x07) as u16) << 8)
                &&& final(self).pulse2.length_counter == spec_length_table((value >> 3) & 0x1F)
                &&& final(self).pulse2.duty_position == 0
            },
            addr == 0x4004 ==> final(self).pulse2.envelope.volume == value & 0x0F,
            addr == 0x4008 ==> {
                &&& final(self).triangle.control_flag == ((value & 0x80) != 0)
                &&& final(self).triangle.length_counter.halt_flag == ((value & 0x80) != 0)
                &&& final(self).triangle.linear_counter_initial == value & 0x7F
            },
            addr == 0x400A ==> final(self).triangle.period_initial == (old(
                self,
            ).triangle.period_initial & 0xFF00) | value as u16 && final(self).triangle.period_current
                == final(self).triangle.period_initial,
            addr == 0x400B ==> {
                &&& final(self).triangle.period_initial == (old(self).triangle.period_initial
                    & 0x00FF) | (((value & 0x07) as u16) << 8)
                &&& final(self).triangle.period_current == final(self).triangle.period_initial
                &&& final(self).triangle.linear_reload_flag
                &&& final(self).triangle.length_counter.length == if old(
                    self,
                ).triangle.length_counter.channel_enabled {
                    spec_length_table((value >> 3) & 0x1F)
                } else {
                    old(self).triangle.length_counter.length
                }
            },
            addr == 0x400C ==> final(self).noise.length_counter.halt_flag == ((value & 0x20) != 0)
                && final(self).noise.envelope.volume == value & 0x0F,
            addr == 0x400E ==> final(self).noise.mode == (value >> 7) & 0x01 && final(self).noise.period_current == final(self).noise.period_initial,
            addr == 0x400F ==> final(self).noise.length_counter.length == (if old(
                self,
            ).noise.length_counter.channel_enabled {
                spec_length_table((value >> 3) & 0x1F)
            } else {
                old(self).noise.length_counter.length
            }) && final(self).noise.envelope.start_flag,
            addr == 0x4010 ==> {
                &&& final(self).dmc.looping == ((value & 0x40) != 0)
                &&& final(self).dmc.interrupt_enabled == ((value & 0x80) != 0)
                &&& ((value & 0x80) == 0 ==> !final(self).dmc.interrupt_flag)
            },
            addr == 0x4011 ==> final(self).dmc.output_level == value & 0x7F,
            addr == 0x4012 ==> final(self).dmc.starting_address == 0xC000 + (value as u16) * 64
                && final(self).dmc.current_address == final(self).dmc.starting_address,
            addr == 0x4013 ==> final(self).dmc.sample_length == (value as u16) * 16 + 1,
    {
        if addr >= 0x4000 && addr <= 0x4003 {
            self.pulse1.write_register((addr - 0x4000) as usize, value);
        } else if addr >= 0x4004 && addr <= 0x4007 {
            self.pulse2.write_register((addr - 0x4004) as usize, value);
        } else if addr == 0x4008 {
            self.triangle.control_flag = (value & 0x80) != 0;
            self.triangle.length_counter.halt_flag = self.triangle.control_flag;
            self.triangle.linear_counter_initial = value & 0x7F;
        } else if addr == 0x400A {
            self.triangle.period_initial = (self.triangle.period_initial & 0xFF00) | value as u16;
            self.triangle.period_current = self.triangle.period_initial;
        } else if addr == 0x400B {
            self.triangle.period_initial = (self.triangle.period_initial & 0x00FF) | (((value
                & 0x07) as u16) << 8u16);
            self.triangle.period_current = self.triangle.period_initial;
            proof {
                assert((value >> 3u8) & 0x1Fu8 <= 31u8) by (bit_vector);
            }
            self.triangle.length_counter.set_length((value >> 3u8) & 0x1F);
            self.triangle.linear_reload_flag = true;
        } else if addr == 0x400C {
            self.noise.length_counter.halt_flag = (value & 0x20) != 0;
            self.noise.envelope.write_control(value);
        } else if addr == 0x400E {
            self.noise.mode = (value >> 7u8) & 0x01;
            self.noise.period_initial = noise_period_entry(value & 0x0F);
            self.noise.period_current = self.noise.period_initial;
        } else if addr == 0x400F {
            proof {
                assert((value >> 3u8) & 0x1Fu8 <= 31u8) by (bit_vector);
            }
            self.noise.length_counter.set_length((value >> 3u8) & 0x1F);
            self.noise.envelope.restart();
        } else if addr == 0x4010 {
            self.dmc.looping = (value & 0x40) != 0;
            self.dmc.interrupt_enabled = (value & 0x80) != 0;
            if !self.dmc.interrupt_enabled {
                self.dmc.interrupt_flag = false;
            }
            self.dmc.period_initial = dmc_rate_entry(value & 0x0F);
            self.dmc.period_current = self.dmc.period_initial;
        } else if addr == 0x4011 {
            self.dmc.output_level = value & 0x7F;
        } else if addr == 0x4012 {
            self.dmc.starting_address = 0xC000 + (value as u16) * 64;
            self.dmc.current_address = self.dmc.starting_address;
        } else if addr == 0x4013 {
            self.dmc.sample_length = (value as u16) * 16 + 1;
        }
    }

    /// A 0x4015 write: enables or disables the channels; disabling clears a
    /// length counter, and a freshly enabled DMC restarts its sample.
    #[verifier::rlimit(100)]
    #[verifier::spinoff_prover]
    pub fn write_status(&mut self, value: u8)
        requires
            old(self).wf(),
        ensures
            final(self).wf(),
            final(self).fs_project() == old(self).fs_project(),
            !final(self).dmc.interrupt_flag,
            final(self).pulse1.enabled == ((value & 0x01) != 0),
            final(self).pulse2.enabled == ((value & 0x02) != 0),
            final(self).triangle.length_counter.channel_enabled == ((value & 0x04) != 0),
            final(self).noise.length_counter.channel_enabled == ((value & 0x08) != 0),
            (value & 0x01) == 0 ==> final(self).pulse1.length_counter == 0,
            (value & 0x01) != 0 ==> final(self).pulse1.length_counter == old(
                self,
            ).pulse1.length_counter,
            (value & 0x02) == 0 ==> final(self).pulse2.length_counter == 0,
            (value & 0x02) != 0 ==> final(self).pulse2.length_counter == old(
                self,
            ).pulse2.length_counter,
            (value & 0x04) == 0 ==> final(self).triangle.length_counter.length == 0,
            (value & 0x08) == 0 ==> final(self).noise.length_counter.length == 0,
            (value & 0x10) == 0 ==> final(self).dmc.bytes_remaining == 0,
            (value & 0x10) != 0 && old(self).dmc.bytes_remaining == 0 ==> final(self).dmc.bytes_remaining == old(self).dmc.sample_length && final(self).dmc.current_address
                == old(self).dmc.starting_address,
            (value & 0x10) != 0 && old(self).dmc.bytes_remaining > 0 ==> final(self).dmc.bytes_remaining == old(self).dmc.bytes_remaining,
    {
        self.pulse1.set_enabled((value & 0x01) != 0);
        self.pulse2.set_enabled((value & 0x02) != 0);
        self.triangle.length_counter.channel_enabled = (value & 0x04) != 0;
        self.noise.length_counter.channel_enabled = (value & 0x08) != 0;

        if !self.triangle.length_counter.channel_enabled {
            self.triangle.length_counter.length = 0;
        }
        if !self.noise.length_counter.channel_enabled {
            self.noise.length_counter.length = 0;
        }

        let dmc_enable = (value & 0x10) != 0;
        if !dmc_enable {
            self.dmc.bytes_remaining = 0;
        }
        if dmc_enable && self.dmc.bytes_remaining == 0 {
            self.dmc.current_address = self.dmc.starting_address;
            self.dmc.bytes_remaining = self.dmc.sample_length;
        }
        self.dmc.interrupt_flag = false;
    }

    /// The 0x4015 status byte: one bit per running channel plus the two IRQ
    /// flags.
    pub open spec fn spec_status_byte(&self) -> u8 {
        ((if self.pulse1.length_counter > 0 {
            1int
        } else {
            0int
        }) + (if self.pulse2.length_counter > 0 {
            2int
        } else {
            0int
        }) + (if self.triangle.length_counter.length > 0 {
            4int
        } else {
            0int
        }) + (if self.noise.length_counter.length > 0 {
            8int
        } else {
            0int
        }) + (if self.dmc.bytes_remaining > 0 {
            16int
        } else {
            0int
        }) + (if self.frame_interrupt {
            64int
        } else {
            0int
        }) + (if self.dmc.interrupt_flag {
            128int
        } else {
            0int
        })) as u8
    }

    /// A 0x4015 read: channel-active flags plus the two IRQ flags; reading
    /// acknowledges the frame IRQ, merely reports the DMC IRQ, and changes
    /// nothing else.
    #[verifier::rlimit(100)]
    #[verifier::spinoff_prover]
    pub fn read_status(&mut self) -> (r: u8)
        requires
            old(self).wf(),
        ensures
            final(self).wf(),
            !final(self).frame_interrupt,
            r == old(self).spec_status_byte(),
            *final(self) == (APU { frame_interrupt: false, ..*old(self) }),
            r % 2 == 1 <==> old(self).pulse1.length_counter > 0,
            (r / 0x02) % 2 == 1 <==> old(self).pulse2.length_counter > 0,
            (r / 0x04) % 2 == 1 <==> old(self).triangle.length_counter.length > 0,
            (r / 0x08) % 2 == 1 <==> old(self).noise.length_counter.length > 0,
            (r / 0x10) % 2 == 1 <==> old(self).dmc.bytes_remaining > 0,
            (r / 0x40) % 2 == 1 <==> old(self).frame_interrupt,
            r / 0x80 == 1 <==> old(self).dmc.interrupt_flag,
    {
        let mut status: u8 = 0;
        if self.pulse1.is_active() {
            status = status + 0x01;
        }
        if self.pulse2.is_active() {
            status = status + 0x02;
        }
        if self.triangle.length_counter.length > 0 {
            status = status + 0x04;
        }
        if self.noise.length_counter.length > 0 {
            status = status + 0x08;
        }
        if self.dmc.bytes_remaining > 0 {
            status = status + 0x10;
        }
        if self.frame_interrupt {
            status = status + 0x40;
        }
        if self.dmc.interrupt_flag {
            status = status + 0x80;
        }
        self.frame_interrupt = false;
        status
    }

    /// A 0x4017 write: sets the sequencer mode and IRQ inhibit, schedules a
    /// cadence reset in 3 or 4 cycles, and an inhibit acknowledges any
    /// pending frame IRQ.
    pub fn write_frame_counter(&mut self, value: u8)
        requires
            old(self).wf(),
        ensures
            final(self).wf(),
            final(self).frame_sequencer_mode == (value >> 7) & 0x01,
            final(self).disable_interrupt == ((value & 0x40) != 0),
            final(self).frame_reset_delay == if old(self).current_cycle % 2 == 1 {
                3u8
            } else {
                4u8
            },
            final(self).frame_interrupt == (old(self).frame_interrupt && (value & 0x40) == 0),
    {
        self.frame_sequencer_mode = (value >> 7u8) & 0x01;
        self.disable_interrupt = (value & 0x40) != 0;
        if self.current_cycle % 2 == 1 {
            self.frame_reset_delay = 3;
        } else {
            self.frame_reset_delay = 4;
        }
        if self.disable_interrupt {
            self.frame_interrupt = false;
        }
    }

    /// Hands the DMC its fetched sample byte; only the DMC changes, per
    /// `DmcChannel::provide_sample`.
    pub fn provide_dmc_sample(&mut self, value: u8)
        requires
            old(self).wf(),
        ensures
            final(self).wf(),
            final(self).dmc.sample_buffer == Some(value),
            !final(self).dmc.sample_fetch_pending,
            *final(self) == (APU { dmc: final(self).dmc, ..*old(self) }),
            old(self).dmc.bytes_remaining > 1 ==> final(self).dmc.bytes_remaining == old(
                self,
            ).dmc.bytes_remaining - 1 && final(self).dmc.current_address
                == u16_specs::wrapping_add(old(self).dmc.current_address, 1),
            old(self).dmc.bytes_remaining <= 1 && old(self).dmc.looping ==> final(self).dmc.bytes_remaining == old(self).dmc.sample_length && final(self).dmc.current_address
                == old(self).dmc.starting_address,
            old(self).dmc.bytes_remaining <= 1 && !old(self).dmc.looping ==> final(self).dmc.bytes_remaining == 0 && final(self).dmc.current_address
                == u16_specs::wrapping_add(old(self).dmc.current_address, 1),
            final(self).dmc.interrupt_flag == (old(self).dmc.interrupt_flag || (old(
                self,
            ).dmc.bytes_remaining <= 1 && !old(self).dmc.looping && old(
                self,
            ).dmc.interrupt_enabled)),
    {
        self.dmc.provide_sample(value);
    }

    /// The IRQ line: high while either the frame IRQ or the DMC IRQ is
    /// latched.
    pub fn poll_irq(&self) -> (r: Option<u8>)
        ensures
            r is Some <==> (self.frame_interrupt || self.dmc.interrupt_flag),
    {
        if self.frame_interrupt || self.dmc.interrupt_flag {
            Some(0)
        } else {
            None
        }
    }

    /// One CPU cycle: advances the frame sequencer by exactly one `fs_step`,
    /// ticks the channel timers, paces a channel sample into the queue when
    /// the cycle count reaches the next sampling point, and returns the
    /// address of a DMC fetch exactly when the DMC's buffer is empty with
    /// bytes still to play.
    pub fn clock(&mut self) -> (dma: Option<u16>)
        requires
            old(self).wf(),
        ensures
            final(self).wf(),
            final(self).fs_project() == fs_step(old(self).fs_project()),
            dma matches Some(a) ==> 0x8000 <= a,
            old(self).dmc.sample_buffer is None && !old(self).dmc.sample_fetch_pending && old(
                self,
            ).dmc.bytes_remaining > 0 ==> dma is Some,
            old(self).dmc.sample_fetch_pending || old(self).dmc.bytes_remaining == 0 ==> dma
                is None,
            dma matches Some(a) ==> a == 0x8000 + (old(self).dmc.current_address % 0x8000),
            final(self).current_cycle == u64_specs::wrapping_add(old(self).current_cycle, 1),
            old(self).current_cycle >= old(self).next_sample_at ==> {
                &&& final(self).samples@.len() >= 1
                &&& final(self).generated_samples == u64_specs::wrapping_add(
                    old(self).generated_samples,
                    1,
                )
                &&& final(self).next_sample_at == u64_specs::wrapping_mul(
                    u64_specs::wrapping_add(final(self).generated_samples, 1),
                    old(self).cpu_clock_rate,
                ) / old(self).sample_rate
            },
            old(self).current_cycle < old(self).next_sample_at ==> {
                &&& final(self).samples == old(self).samples
                &&& final(self).generated_samples == old(self).generated_samples
                &&& final(self).next_sample_at == old(self).next_sample_at
            },
    {
        self.clock_frame_sequencer();

        self.triangle.clock();

        let dma_request = self.dmc.clock();

        if self.current_cycle % 2 == 0 {
            self.pulse1.clock_timer();
            self.pulse2.clock_timer();
            self.noise.clock();
        }

        if self.current_cycle >= self.next_sample_at {
            let sample = ApuSample {
                pulse1: self.pulse1.output() as u8,
                pulse2: self.pulse2.output() as u8,
                triangle: self.triangle.output() as u8,
                noise: self.noise.output() as u8,
                dmc: self.dmc.output() as u8,
            };
            self.push_sample(sample);

            self.triangle.record_current_output();
            self.noise.record_current_output();
            self.dmc.record_current_output();

            self.generated_samples = self.generated_samples.wrapping_add(1);
            self.next_sample_at = self.generated_samples.wrapping_add(1).wrapping_mul(
                self.cpu_clock_rate,
            ) / self.sample_rate;
        }

        self.current_cycle = self.current_cycle.wrapping_add(1);
        dma_request
    }

    /// Appends a sample, dropping the oldest when the queue is at its bound.
    fn push_sample(&mut self, sample: ApuSample)
        requires
            old(self).wf(),
        ensures
            final(self).wf(),
            final(self).fs_project() == old(self).fs_project(),
            final(self).samples@.len() >= 1,
            final(self).samples@.last() == sample,
            *final(self) == (APU { samples: final(self).samples, ..*old(self) }),
    {
        if self.samples.len() >= self.max_buffer_samples && self.samples.len() > 0 {
            self.samples.remove(0);
        }
        self.samples.push(sample);
    }

    /// The number of queued samples.
    pub fn sample_count(&self) -> (r: usize)
        ensures
            r == self.samples@.len(),
    {
        self.samples.len()
    }

    /// Hands the queued samples to the host and clears the queue.
    pub fn take_samples(&mut self) -> (r: Vec<ApuSample>)
        requires
            old(self).wf(),
        ensures
            final(self).wf(),
            r == old(self).samples,
            final(self).samples@.len() == 0,
            final(self).fs_project() == old(self).fs_project(),
    {
        let mut out: Vec<ApuSample> = Vec::new();
        core::mem::swap(&mut out, &mut self.samples);
        out
    }

    /// One cycle of the frame sequencer, per `fs_step`: a pending reset
    /// zeroes the cadence (clocking both units immediately in 5-step mode),
    /// the cadence positions fire quarter and half frame ticks, and the
    /// 4-step cadence raises the frame IRQ at its end unless inhibited. A
    /// quarter tick steps the envelopes, a half tick steps the length
    /// counters, and a cycle with neither leaves every channel untouched.
    fn clock_frame_sequencer(&mut self)
        requires
            old(self).wf(),
        ensures
            final(self).wf(),
            final(self).fs_project() == fs_step(old(self).fs_project()),
            final(self).current_cycle == old(self).current_cycle,
            final(self).samples == old(self).samples,
            final(self).next_sample_at == old(self).next_sample_at,
            final(self).generated_samples == old(self).generated_samples,
            final(self).sample_rate == old(self).sample_rate,
            final(self).cpu_clock_rate == old(self).cpu_clock_rate,
            final(self).max_buffer_samples == old(self).max_buffer_samples,
            final(self).dmc == old(self).dmc,
            ({
                let s = old(self).fs_project();
                let c: u16 = if s.delay == 1 {
                    0u16
                } else {
                    s.counter
                };
                let extra = s.delay == 1 && s.mode == 1;
                let quarter = extra || (s.mode == 0 && (c == 7457 || c == 14913 || c == 22371 || c
                    == 29829)) || (s.mode != 0 && (c == 7457 || c == 14913 || c == 22371 || c
                    == 37281));
                let half = extra || (s.mode == 0 && (c == 14913 || c == 29829)) || (s.mode != 0 && (
                c == 14913 || c == 37281));
                &&& (!quarter && !half ==> final(self).pulse1 == old(self).pulse1 && final(self).pulse2 == old(self).pulse2 && final(self).triangle == old(self).triangle && final(self).noise == old(self).noise)
                &&& (quarter ==> final(self).pulse1.envelope
                    == crate::apu::envelope::spec_envelope_clock(old(self).pulse1.envelope) && final(self).pulse2.envelope == crate::apu::envelope::spec_envelope_clock(
                    old(self).pulse2.envelope,
                ) && final(self).noise.envelope == crate::apu::envelope::spec_envelope_clock(
                    old(self).noise.envelope,
                ))
                &&& (half ==> final(self).pulse1.length_counter == (if old(
                    self,
                ).pulse1.length_counter > 0 && !old(self).pulse1.length_halt {
                    (old(self).pulse1.length_counter - 1) as u8
                } else {
                    old(self).pulse1.length_counter
                }) && final(self).pulse2.length_counter == (if old(self).pulse2.length_counter > 0
                    && !old(self).pulse2.length_halt {
                    (old(self).pulse2.length_counter - 1) as u8
                } else {
                    old(self).pulse2.length_counter
                }) && final(self).triangle.length_counter.length == (if old(
                    self,
                ).triangle.length_counter.length > 0 && !old(
                    self,
                ).triangle.length_counter.halt_flag {
                    (old(self).triangle.length_counter.length - 1) as u8
                } else {
                    old(self).triangle.length_counter.length
                }) && final(self).noise.length_counter.length == (if old(
                    self,
                ).noise.length_counter.length > 0 && !old(self).noise.length_counter.halt_flag {
                    (old(self).noise.length_counter.length - 1) as u8
                } else {
                    old(self).noise.length_counter.length
                }))
            }),
    {
        if self.frame_reset_delay > 0 {
            self.frame_reset_delay = self.frame_reset_delay - 1;
            if self.frame_reset_delay == 0 {
                self.frame_sequencer = 0;
                if self.frame_sequencer_mode == 1 {
                    self.clock_quarter_frame();
                    self.clock_half_frame();
                }
            }
        }

        if self.frame_sequencer_mode == 0 {
            if self.frame_sequencer == 7457 {
                self.clock_quarter_frame();
            } else if self.frame_sequencer == 14913 {
                self.clock_quarter_frame();
                self.clock_half_frame();
            } else if self.frame_sequencer == 22371 {
                self.clock_quarter_frame();
            } else if self.frame_sequencer == 29828 {
                if !self.disable_interrupt {
                    self.frame_interrupt = true;
                }
            } else if self.frame_sequencer == 29829 {
                if !self.disable_interrupt {
                    self.frame_interrupt = true;
                }
                self.clock_quarter_frame();
                self.clock_half_frame();
            } else if self.frame_sequencer == 29830 {
                if !self.disable_interrupt {
                    self.frame_interrupt = true;
                }
                self.frame_sequencer = 0;
            }
        } else {
            if self.frame_sequencer == 7457 {
                self.clock_quarter_frame();
            } else if self.frame_sequencer == 14913 {
                self.clock_quarter_frame();
                self.clock_half_frame();
            } else if self.frame_sequencer == 22371 {
                self.clock_quarter_frame();
            } else if self.frame_sequencer == 37281 {
                self.clock_quarter_frame();
                self.clock_half_frame();
            } else if self.frame_sequencer == 37282 {
                self.frame_sequencer = 0;
            }
        }

        self.frame_sequencer = self.frame_sequencer.wrapping_add(1);
    }

    /// Quarter-frame tick: envelopes and the triangle's linear counter.
    fn clock_quarter_frame(&mut self)
        requires
            old(self).wf(),
        ensures
            final(self).wf(),
            final(self).fs_project() == old(self).fs_project(),
            final(self).current_cycle == old(self).current_cycle,
            final(self).samples == old(self).samples,
            final(self).next_sample_at == old(self).next_sample_at,
            final(self).generated_samples == old(self).generated_samples,
            final(self).sample_rate == old(self).sample_rate,
            final(self).cpu_clock_rate == old(self).cpu_clock_rate,
            final(self).max_buffer_samples == old(self).max_buffer_samples,
            final(self).dmc == old(self).dmc,
            final(self).pulse1.envelope == crate::apu::envelope::spec_envelope_clock(
                old(self).pulse1.envelope,
            ),
            final(self).pulse2.envelope == crate::apu::envelope::spec_envelope_clock(
                old(self).pulse2.envelope,
            ),
            final(self).noise.envelope == crate::apu::envelope::spec_envelope_clock(
                old(self).noise.envelope,
            ),
            final(self).pulse1.length_counter == old(self).pulse1.length_counter,
            final(self).pulse1.length_halt == old(self).pulse1.length_halt,
            final(self).pulse2.length_counter == old(self).pulse2.length_counter,
            final(self).pulse2.length_halt == old(self).pulse2.length_halt,
            final(self).triangle.length_counter == old(self).triangle.length_counter,
            final(self).noise.length_counter == old(self).noise.length_counter,
    {
        self.pulse1.clock_quarter_frame();
        self.pulse2.clock_quarter_frame();
        self.triangle.update_linear_counter();
        self.noise.envelope.clock();
        self.quarter_frame_counter = self.quarter_frame_counter.wrapping_add(1);
    }

    /// Half-frame tick: sweeps and length counters.
    fn clock_half_frame(&mut self)
        requires
            old(self).wf(),
        ensures
            final(self).wf(),
            final(self).fs_project() == old(self).fs_project(),
            final(self).current_cycle == old(self).current_cycle,
            final(self).samples == old(self).samples,
            final(self).next_sample_at == old(self).next_sample_at,
            final(self).generated_samples == old(self).generated_samples,
            final(self).sample_rate == old(self).sample_rate,
            final(self).cpu_clock_rate == old(self).cpu_clock_rate,
            final(self).max_buffer_samples == old(self).max_buffer_samples,
            final(self).dmc == old(self).dmc,
            final(self).pulse1.envelope == old(self).pulse1.envelope,
            final(self).pulse2.envelope == old(self).pulse2.envelope,
            final(self).noise.envelope == old(self).noise.envelope,
            final(self).pulse1.length_counter == if old(self).pulse1.length_counter > 0 && !old(
                self,
            ).pulse1.length_halt {
                (old(self).pulse1.length_counter - 1) as u8
            } else {
                old(self).pulse1.length_counter
            },
            final(self).pulse2.length_counter == if old(self).pulse2.length_counter > 0 && !old(
                self,
            ).pulse2.length_halt {
                (old(self).pulse2.length_counter - 1) as u8
            } else {
                old(self).pulse2.length_counter
            },
            final(self).triangle.length_counter.length == if old(
                self,
            ).triangle.length_counter.length > 0 && !old(self).triangle.length_counter.halt_flag {
                (old(self).triangle.length_counter.length - 1) as u8
            } else {
                old(self).triangle.length_counter.length
            },
            final(self).noise.length_counter.length == if old(self).noise.length_counter.length > 0
                && !old(self).noise.length_counter.halt_flag {
                (old(self).noise.length_counter.length - 1) as u8
            } else {
                old(self).noise.length_counter.length
            },
    {
        self.pulse1.clock_half_frame();
        self.pulse2.clock_half_frame();
        self.triangle.length_counter.clock();
        self.noise.length_counter.clock();
        self.half_frame_counter = self.half_frame_counter.wrapping_add(1);
    }
}

} // verus!
