//! The console: one CPU, one bus and the master clock tree. Each master
//! tick performs one PPU dot; every third tick also one CPU cycle and one
//! APU cycle, then the interrupt lines are polled, NMI before IRQ.

use vstd::prelude::*;

use crate::apu::APU;
use crate::bus::Bus;
use crate::cart::Cart;
use crate::cpu::CPU;
use crate::joypad::Joypad;
use crate::memory::Memory;

verus! {

/// What one master tick completed.
#[derive(Clone, Copy, PartialEq, Eq, Structural, Debug)]
pub struct ClockResult {
    pub frame_complete: bool,
    pub instruction_complete: bool,
}

pub struct Nes {
    pub cpu: CPU,
    pub bus: Bus,
    pub system_clock: u64,
}

impl Nes {
    pub open spec fn wf(&self) -> bool {
        &&& self.cpu.wf()
        &&& self.bus.wf()
    }

    pub fn new(cart: Cart, apu: APU) -> (r: Nes)
        requires
            cart.wf(),
            apu.wf(),
        ensures
            r.wf(),
    {
        Nes { cpu: CPU::new(), bus: Bus::new(cart, apu), system_clock: 0 }
    }

    /// Reinitializes the CPU from the reset vector: registers cleared,
    /// status exactly interrupt-disable, the program counter loaded from
    /// 0xFFFC/0xFFFD through the bus, and the whole bus — RAM included —
    /// untouched.
    pub fn reset(&mut self)
        requires
            old(self).wf(),
        ensures
            final(self).wf(),
            !final(self).cpu.halted,
            final(self).cpu.registers.sp == 0xFD,
            final(self).cpu.registers.a == 0,
            final(self).cpu.registers.x == 0,
            final(self).cpu.registers.y == 0,
            final(self).cpu.registers.status == crate::cpu::FLAG_INTERRUPT_DISABLE,
            final(self).cpu.registers.pc == old(self).bus.read_of(0xFFFC) + 0x100 * old(
                self,
            ).bus.read_of(0xFFFD),
            final(self).bus == old(self).bus,
            final(self).system_clock == old(self).system_clock,
    {
        self.cpu.reset(&mut self.bus);
    }

    /// One master tick: a PPU dot always; a CPU cycle and an APU cycle on
    /// every third tick; then the NMI and IRQ lines, in that order.
    pub fn clock(&mut self) -> (r: ClockResult)
        requires
            old(self).wf(),
        ensures
            final(self).wf(),
            final(self).system_clock == vstd::wrapping::u64_specs::wrapping_add(
                old(self).system_clock,
                1,
            ),
            r.frame_complete == (old(self).bus.ppu.cycle == 340 && old(self).bus.ppu.scanline
                == 261),
            old(self).system_clock % 3 != 0 ==> !r.instruction_complete,
            old(self).system_clock % 3 == 0 && old(self).cpu.dma_stall == 0 && old(
                self,
            ).cpu.halted ==> !r.instruction_complete,
            old(self).system_clock % 3 == 0 && old(self).cpu.dma_stall > 0
                ==> !r.instruction_complete,
            old(self).system_clock % 3 == 0 && old(self).cpu.dma_stall == 0 && !old(
                self,
            ).cpu.halted && old(self).cpu.cycles_wait > 0 ==> r.instruction_complete == (old(
                self,
            ).cpu.cycles_wait == 1),
    {
        let frame_complete = self.bus.ppu_clock();
        let mut instruction_complete = false;

        if self.system_clock % 3 == 0 {
            instruction_complete = self.cpu.clock(&mut self.bus);
            let stall = self.bus.take_dma_stall();
            if stall > 0 {
                self.cpu.dma_stall = stall;
            }
            self.bus.apu_clock();
        }

        if self.bus.poll_nmi() {
            self.cpu.nmi(&mut self.bus);
        }

        if self.bus.poll_irq() {
            self.cpu.irq(&mut self.bus);
        }

        self.system_clock = self.system_clock.wrapping_add(1);

        ClockResult { frame_complete, instruction_complete }
    }

    /// Runs master ticks until the PPU finishes the current frame. A frame
    /// is 262 scanlines of 341 dots, so the guard bound is never the one
    /// that stops the loop.
    pub fn step_frame(&mut self)
        requires
            old(self).wf(),
        ensures
            final(self).wf(),
    {
        let mut guard: u32 = 0;
        while guard < 300000
            invariant
                self.wf(),
            decreases 300000 - guard,
        {
            let r = self.clock();
            if r.frame_complete {
                break ;
            }
            guard = guard + 1;
        }
    }

    pub fn joypad(&self, index: usize) -> (r: Option<&Joypad>)
        ensures
            index < 2 <==> r is Some,
    {
        self.bus.joypad(index)
    }

    /// Presses or releases one button on a controller port; only the
    /// addressed pad's button byte changes.
    pub fn set_button_pressed(&mut self, index: usize, button: u8, pressed: bool)
        requires
            old(self).wf(),
        ensures
            final(self).wf(),
            index == 0 ==> final(self).bus.joypad1 == (Joypad {
                button_status: if pressed {
                    old(self).bus.joypad1.button_status | button
                } else {
                    old(self).bus.joypad1.button_status & !button
                },
                ..old(self).bus.joypad1
            }) && *final(self) == (Nes { bus: final(self).bus, ..*old(self) }) && final(self).bus
                == (Bus { joypad1: final(self).bus.joypad1, ..old(self).bus }),
            index == 1 ==> final(self).bus.joypad2 == (Joypad {
                button_status: if pressed {
                    old(self).bus.joypad2.button_status | button
                } else {
                    old(self).bus.joypad2.button_status & !button
                },
                ..old(self).bus.joypad2
            }) && *final(self) == (Nes { bus: final(self).bus, ..*old(self) }) && final(self).bus
                == (Bus { joypad2: final(self).bus.joypad2, ..old(self).bus }),
            index >= 2 ==> *final(self) == *old(self),
    {
        self.bus.set_button_pressed(index, button, pressed);
    }
}

} // verus!
