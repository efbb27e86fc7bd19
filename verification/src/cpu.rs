//! The 6502 CPU core: registers, flag arithmetic, the fetch/decode/execute
//! cycle with cycle counting, and interrupt entry.
//!
//! The contract on [`CPU::clock`] pins the timing law: when an opcode is
//! fetched, the pending-cycle counter is loaded with that opcode's base cycle
//! count plus the earned extras (at most 3), and the program counter advances
//! by the opcode's byte length unless the instruction itself wrote it.

use vstd::prelude::*;
use vstd::wrapping::u8_specs;
use vstd::wrapping::u16_specs;

use crate::memory::Memory;
use crate::opcodes::{AddressingMode, Mnemonic, Opcode, OpcodeMap, spec_opcode};

verus! {

pub const STACK_START: u16 = 0x0100;
pub const PRG_START: u16 = 0x8000;

pub const FLAG_CARRY: u8 = 0x01;
pub const FLAG_ZERO: u8 = 0x02;
pub const FLAG_INTERRUPT_DISABLE: u8 = 0x04;
pub const FLAG_DECIMAL_MODE: u8 = 0x08;
pub const FLAG_BREAK_COMMAND: u8 = 0x10;
pub const FLAG_UNUSED: u8 = 0x20;
pub const FLAG_OVERFLOW: u8 = 0x40;
pub const FLAG_NEGATIVE: u8 = 0x80;

#[derive(Clone, Copy, PartialEq, Eq, Structural, Debug)]
pub struct Registers {
    pub a: u8,
    pub x: u8,
    pub y: u8,
    pub status: u8,
    pub pc: u16,
    pub sp: u8,
}

#[derive(Clone, Copy, PartialEq, Eq, Structural, Debug)]
pub enum InterruptType {
    NMI,
    IRQ,
    BRK,
}

pub struct CPU {
    pub registers: Registers,
    pub extra_cycles: u8,
    pub cycles_wait: u8,
    pub halted: bool,
    pub dma_stall: u16,
    pub opcodes: OpcodeMap,
}

pub open spec fn flag_set(status: u8, flag: u8) -> bool {
    status & flag != 0
}

pub open spec fn spec_set_flag(status: u8, flag: u8, on: bool) -> u8 {
    if on {
        status | flag
    } else {
        status & !flag
    }
}

/// The status byte after loading a value: zero and negative track the value,
/// the other flags keep their state.
pub open spec fn spec_zn(status: u8, value: u8) -> u8 {
    spec_set_flag(spec_set_flag(status, FLAG_ZERO, value == 0), FLAG_NEGATIVE, value & 0x80 != 0)
}

/// The registers after an add-with-carry of `value` into the accumulator:
/// carry from the 9th bit, overflow from the sign rule, zero and negative
/// from the 8-bit result.
pub open spec fn spec_adc_regs(r: Registers, value: u8) -> Registers {
    let carry_in: int = if flag_set(r.status, FLAG_CARRY) {
        1
    } else {
        0
    };
    let sum: int = r.a + value + carry_in;
    let result: u8 = (sum % 256) as u8;
    let s1 = spec_set_flag(r.status, FLAG_CARRY, sum > 0xFF);
    let s2 = spec_set_flag(s1, FLAG_OVERFLOW, ((r.a ^ result) & (value ^ result) & 0x80) != 0);
    Registers { a: result, status: spec_zn(s2, result), ..r }
}

/// The registers after subtract-with-borrow, the one's-complement dual of
/// add-with-carry: carry set when no borrow was needed.
pub open spec fn spec_sbc_regs(r: Registers, value: u8) -> Registers {
    let borrow: int = if flag_set(r.status, FLAG_CARRY) {
        0
    } else {
        1
    };
    let diff: int = r.a - value - borrow;
    let result: u8 = (((diff + 256) % 256)) as u8;
    let s1 = spec_set_flag(r.status, FLAG_CARRY, diff >= 0);
    let s2 = spec_set_flag(s1, FLAG_OVERFLOW, ((r.a ^ result) & ((!value) ^ result) & 0x80) != 0);
    Registers { a: result, status: spec_zn(s2, result), ..r }
}

/// The status after comparing a register to a value: carry when the register
/// is at least the value, zero and negative from the wrapped difference.
pub open spec fn spec_compare_status(status: u8, reg: u8, value: u8) -> u8 {
    spec_zn(spec_set_flag(status, FLAG_CARRY, reg >= value), u8_specs::wrapping_sub(reg, value))
}

/// Mnemonics that may write the program counter themselves; for every other
/// instruction the program counter advances by the opcode's byte length.
pub open spec fn spec_writes_pc(m: Mnemonic) -> bool {
    ||| m == Mnemonic::BCC
    ||| m == Mnemonic::BCS
    ||| m == Mnemonic::BEQ
    ||| m == Mnemonic::BMI
    ||| m == Mnemonic::BNE
    ||| m == Mnemonic::BPL
    ||| m == Mnemonic::BVC
    ||| m == Mnemonic::BVS
    ||| m == Mnemonic::BRK
    ||| m == Mnemonic::JMP
    ||| m == Mnemonic::JSR
    ||| m == Mnemonic::RTS
    ||| m == Mnemonic::RTI
}

/// The register-only instructions: transfers, increments, decrements, flag
/// operations and NOP, which read no operand and touch no memory.
pub open spec fn spec_implied_op(m: Mnemonic) -> bool {
    ||| m == Mnemonic::TAX
    ||| m == Mnemonic::TAY
    ||| m == Mnemonic::TXA
    ||| m == Mnemonic::TYA
    ||| m == Mnemonic::TSX
    ||| m == Mnemonic::TXS
    ||| m == Mnemonic::INX
    ||| m == Mnemonic::INY
    ||| m == Mnemonic::DEX
    ||| m == Mnemonic::DEY
    ||| m == Mnemonic::CLC
    ||| m == Mnemonic::SEC
    ||| m == Mnemonic::CLI
    ||| m == Mnemonic::SEI
    ||| m == Mnemonic::CLD
    ||| m == Mnemonic::SED
    ||| m == Mnemonic::CLV
    ||| m == Mnemonic::NOP
}

/// What a register-only instruction does to the registers (the program
/// counter advance is stated separately).
pub open spec fn spec_implied_step(r: Registers, m: Mnemonic) -> Registers {
    if m == Mnemonic::TAX {
        Registers { x: r.a, status: spec_zn(r.status, r.a), ..r }
    } else if m == Mnemonic::TAY {
        Registers { y: r.a, status: spec_zn(r.status, r.a), ..r }
    } else if m == Mnemonic::TXA {
        Registers { a: r.x, status: spec_zn(r.status, r.x), ..r }
    } else if m == Mnemonic::TYA {
        Registers { a: r.y, status: spec_zn(r.status, r.y), ..r }
    } else if m == Mnemonic::TSX {
        Registers { x: r.sp, status: spec_zn(r.status, r.sp), ..r }
    } else if m == Mnemonic::TXS {
        Registers { sp: r.x, ..r }
    } else if m == Mnemonic::INX {
        Registers {
            x: u8_specs::wrapping_add(r.x, 1),
            status: spec_zn(r.status, u8_specs::wrapping_add(r.x, 1)),
            ..r
        }
    } else if m == Mnemonic::INY {
        Registers {
            y: u8_specs::wrapping_add(r.y, 1),
            status: spec_zn(r.status, u8_specs::wrapping_add(r.y, 1)),
            ..r
        }
    } else if m == Mnemonic::DEX {
        Registers {
            x: u8_specs::wrapping_sub(r.x, 1),
            status: spec_zn(r.status, u8_specs::wrapping_sub(r.x, 1)),
            ..r
        }
    } else if m == Mnemonic::DEY {
        Registers {
            y: u8_specs::wrapping_sub(r.y, 1),
            status: spec_zn(r.status, u8_specs::wrapping_sub(r.y, 1)),
            ..r
        }
    } else if m == Mnemonic::CLC {
        Registers { status: spec_set_flag(r.status, FLAG_CARRY, false), ..r }
    } else if m == Mnemonic::SEC {
        Registers { status: spec_set_flag(r.status, FLAG_CARRY, true), ..r }
    } else if m == Mnemonic::CLI {
        Registers { status: spec_set_flag(r.status, FLAG_INTERRUPT_DISABLE, false), ..r }
    } else if m == Mnemonic::SEI {
        Registers { status: spec_set_flag(r.status, FLAG_INTERRUPT_DISABLE, true), ..r }
    } else if m == Mnemonic::CLD {
        Registers { status: spec_set_flag(r.status, FLAG_DECIMAL_MODE, false), ..r }
    } else if m == Mnemonic::SED {
        Registers { status: spec_set_flag(r.status, FLAG_DECIMAL_MODE, true), ..r }
    } else if m == Mnemonic::CLV {
        Registers { status: spec_set_flag(r.status, FLAG_OVERFLOW, false), ..r }
    } else {
        r
    }
}

/// The eight relative branches.
pub open spec fn spec_branch_op(m: Mnemonic) -> bool {
    ||| m == Mnemonic::BCC
    ||| m == Mnemonic::BCS
    ||| m == Mnemonic::BEQ
    ||| m == Mnemonic::BNE
    ||| m == Mnemonic::BMI
    ||| m == Mnemonic::BPL
    ||| m == Mnemonic::BVC
    ||| m == Mnemonic::BVS
}

/// Whether a branch is taken, from the flags.
pub open spec fn spec_branch_taken(status: u8, m: Mnemonic) -> bool {
    if m == Mnemonic::BCC {
        status & FLAG_CARRY == 0
    } else if m == Mnemonic::BCS {
        status & FLAG_CARRY != 0
    } else if m == Mnemonic::BEQ {
        status & FLAG_ZERO != 0
    } else if m == Mnemonic::BNE {
        status & FLAG_ZERO == 0
    } else if m == Mnemonic::BMI {
        status & FLAG_NEGATIVE != 0
    } else if m == Mnemonic::BPL {
        status & FLAG_NEGATIVE == 0
    } else if m == Mnemonic::BVC {
        status & FLAG_OVERFLOW == 0
    } else {
        status & FLAG_OVERFLOW != 0
    }
}

/// The target of a relative branch whose operand sits at `pc`: the address
/// after the operand plus the signed offset.
pub open spec fn spec_branch_target(pc: u16, off: u8) -> u16 {
    let next = u16_specs::wrapping_add(pc, 1);
    if off < 0x80 {
        u16_specs::wrapping_add(next, off as u16)
    } else {
        u16_specs::wrapping_sub(u16_specs::wrapping_add(next, off as u16), 0x100)
    }
}

/// The extra cycles a branch earns: one when taken, one more when the target
/// lies on a different page than the instruction's end.
pub open spec fn spec_branch_extras(pc: u16, off: u8, taken: bool) -> int {
    if !taken {
        0
    } else {
        1 + (if (u16_specs::wrapping_add(pc, 1) & 0xFF00) != (spec_branch_target(pc, off)
            & 0xFF00) {
            1int
        } else {
            0int
        })
    }
}

/// The immediate-mode loads.
pub open spec fn spec_imm_load_op(m: Mnemonic) -> bool {
    ||| m == Mnemonic::LDA
    ||| m == Mnemonic::LDX
    ||| m == Mnemonic::LDY
}

/// What an immediate-mode load of operand `v` does to the registers.
pub open spec fn spec_imm_load_step(r: Registers, m: Mnemonic, v: u8) -> Registers {
    if m == Mnemonic::LDA {
        Registers { a: v, status: spec_zn(r.status, v), ..r }
    } else if m == Mnemonic::LDX {
        Registers { x: v, status: spec_zn(r.status, v), ..r }
    } else {
        Registers { y: v, status: spec_zn(r.status, v), ..r }
    }
}

/// The byte length minus one, saturating at zero.
pub open spec fn spec_operand_len(bytes: u8) -> u8 {
    if bytes == 0 {
        0
    } else {
        (bytes - 1) as u8
    }
}

/// Setting a bit by or really sets it.
pub proof fn lemma_flag_or(s: u8, f: u8)
    by (bit_vector)
    ensures
        f != 0 ==> ((s | f) & f != 0),
{
}

/// Fields no instruction handler touches.
pub open spec fn keeps_timing(pre: CPU, post: CPU) -> bool {
    &&& post.opcodes == pre.opcodes
    &&& post.halted == pre.halted
    &&& post.cycles_wait == pre.cycles_wait
    &&& post.dma_stall == pre.dma_stall
}

impl CPU {
    /// A well-formed CPU carries the full opcode table.
    pub open spec fn wf(&self) -> bool {
        self.opcodes.wf()
    }

    pub fn new() -> (r: CPU)
        ensures
            r.wf(),
            r.registers == (Registers {
                a: 0u8,
                x: 0u8,
                y: 0u8,
                status: 0x24u8,
                pc: PRG_START,
                sp: 0xFDu8,
            }),
            r.extra_cycles == 0,
            r.cycles_wait == 0,
            r.dma_stall == 0,
            !r.halted,
    {
        CPU {
            registers: Registers { a: 0, x: 0, y: 0, status: 0x24, pc: PRG_START, sp: 0xFD },
            extra_cycles: 0,
            cycles_wait: 0,
            halted: false,
            dma_stall: 0,
            opcodes: OpcodeMap::new(),
        }
    }

    /// One CPU cycle. While an instruction is pending this only counts down;
    /// when the counter is zero the next opcode is fetched and executed and
    /// the counter is loaded with its base cycles plus earned extras. Returns
    /// true exactly on the tick that completes an instruction.
    pub fn clock<M: Memory>(&mut self, memory: &mut M) -> (r: bool)
        requires
            old(memory).inv(),
            old(self).wf(),
        ensures
            final(memory).inv(),
            final(self).wf(),
            final(self).opcodes == old(self).opcodes,
            old(self).dma_stall > 0 ==> *final(self) == (CPU {
                dma_stall: (old(self).dma_stall - 1) as u16,
                ..*old(self)
            }) && r == false,
            old(self).dma_stall == 0 ==> final(self).dma_stall == 0,
            old(self).dma_stall == 0 && old(self).halted ==> *final(self) == *old(self) && r
                == false,
            old(self).dma_stall == 0 && !old(self).halted && old(self).cycles_wait > 0 ==> {
                &&& final(self).registers == old(self).registers
                &&& final(self).cycles_wait == old(self).cycles_wait - 1
                &&& final(self).halted == old(self).halted
                &&& r == (final(self).cycles_wait == 0)
            },
            old(self).dma_stall == 0 && !old(self).halted && old(self).cycles_wait == 0 && !final(self).halted ==> {
                &&& exists|w: (u8, u8)|
                    {
                        let op = #[trigger] spec_opcode(w.0);
                        &&& w.0 == old(memory).read_of(old(self).registers.pc)
                        &&& w.1 <= 3
                        &&& op.cycles + w.1 > 0
                        &&& final(self).cycles_wait == op.cycles + w.1 - 1
                        &&& op.mnemonic != Mnemonic::STP
                        &&& (!spec_writes_pc(op.mnemonic) ==> final(self).registers.pc
                            == u16_specs::wrapping_add(old(self).registers.pc, op.bytes as u16))
                    }
                &&& r == (final(self).cycles_wait == 0)
            },
            old(self).dma_stall == 0 && !old(self).halted && old(self).cycles_wait == 0 ==> final(self).halted == (spec_opcode(
                old(memory).read_of(old(self).registers.pc),
            ).mnemonic == Mnemonic::STP),
            old(self).dma_stall == 0 && !old(self).halted && old(self).cycles_wait == 0 && final(self).halted ==> r == false,
            old(self).dma_stall == 0 && !old(self).halted && old(self).cycles_wait == 0 && !final(self).halted ==> ({
                let op = spec_opcode(old(memory).read_of(old(self).registers.pc));
                &&& (spec_implied_op(op.mnemonic) ==> final(self).registers == (Registers {
                    pc: final(self).registers.pc,
                    ..spec_implied_step(old(self).registers, op.mnemonic)
                }))
                &&& (spec_implied_op(op.mnemonic) && op.mode == AddressingMode::Implied ==> final(self).cycles_wait == (if op.cycles > 0 {
                    op.cycles - 1
                } else {
                    0int
                }))
                &&& (old(memory).reads_pure(old(self).registers.pc) && spec_imm_load_op(op.mnemonic)
                    && op.mode == AddressingMode::Immediate ==> final(self).registers == (Registers {
                    pc: final(self).registers.pc,
                    ..spec_imm_load_step(
                        old(self).registers,
                        op.mnemonic,
                        old(memory).read_of(u16_specs::wrapping_add(old(self).registers.pc, 1)),
                    )
                }) && final(self).cycles_wait == (if op.cycles > 0 {
                    op.cycles - 1
                } else {
                    0int
                }))
                &&& (old(memory).reads_pure(old(self).registers.pc) && spec_branch_op(op.mnemonic)
                    && op.mode == AddressingMode::Relative ==> ({
                    let pc1 = u16_specs::wrapping_add(old(self).registers.pc, 1);
                    let off = old(memory).read_of(pc1);
                    let taken = spec_branch_taken(old(self).registers.status, op.mnemonic);
                    let target = spec_branch_target(pc1, off);
                    &&& final(self).registers == (Registers {
                        pc: final(self).registers.pc,
                        ..old(self).registers
                    })
                    &&& final(self).cycles_wait == (if op.cycles + spec_branch_extras(
                        pc1,
                        off,
                        taken,
                    ) > 0 {
                        op.cycles + spec_branch_extras(pc1, off, taken) - 1
                    } else {
                        0int
                    })
                    &&& (!taken ==> final(self).registers.pc == u16_specs::wrapping_add(pc1, 1))
                    &&& (taken && target != pc1 ==> final(self).registers.pc == target)
                }))
            }),
    {
        if self.dma_stall > 0 {
            self.dma_stall = self.dma_stall - 1;
            return false;
        }

        if self.halted {
            return false;
        }

        if self.cycles_wait == 0 {
            let opcode = memory.read(self.registers.pc);
            let ghost pc_at_fetch = self.registers.pc;
            self.registers.pc = self.registers.pc.wrapping_add(1);

            let opcode_info: Opcode = *self.opcodes.find_by_code(opcode).unwrap();

            self.extra_cycles = 0;
            self.execute_instruction(
                memory,
                opcode_info.bytes,
                opcode_info.mnemonic,
                opcode_info.mode,
            );
            if self.halted {
                return false;
            }
            self.cycles_wait = opcode_info.cycles + self.extra_cycles;
            let ghost earned = self.extra_cycles;
            self.extra_cycles = 0;

            if self.cycles_wait > 0 {
                self.cycles_wait = self.cycles_wait - 1;
            }
            proof {
                let w = (opcode, earned);
                assert({
                    let op = spec_opcode(w.0);
                    &&& w.1 <= 3
                    &&& op.cycles + w.1 > 0
                    &&& final(self).cycles_wait == op.cycles + w.1 - 1
                    &&& op.mnemonic != Mnemonic::STP
                    &&& (!spec_writes_pc(op.mnemonic) ==> final(self).registers.pc
                        == u16_specs::wrapping_add(old(self).registers.pc, op.bytes as u16))
                });
            }
            return self.cycles_wait == 0;
        }

        if self.cycles_wait > 0 {
            self.cycles_wait = self.cycles_wait - 1;
        }

        self.cycles_wait == 0
    }

    /// Pushes the return state and jumps through the NMI vector at 0xFFFA,
    /// charging two extra pending cycles.
    pub fn nmi<M: Memory>(&mut self, memory: &mut M)
        requires
            old(memory).inv(),
            old(self).wf(),
        ensures
            final(memory).inv(),
            final(self).wf(),
            final(self).opcodes == old(self).opcodes,
            final(self).registers.sp == u8_specs::wrapping_sub(old(self).registers.sp, 3),
            final(self).registers.a == old(self).registers.a,
            final(self).registers.x == old(self).registers.x,
            final(self).registers.y == old(self).registers.y,
            flag_set(final(self).registers.status, FLAG_INTERRUPT_DISABLE),
            final(self).cycles_wait == u8_specs::wrapping_add(old(self).cycles_wait, 2),
            final(self).halted == old(self).halted,
            interrupt_mem_ok(*old(memory), 0xFFFA) ==> {
                &&& final(memory).read_of((STACK_START + old(self).registers.sp) as u16) == (old(
                    self,
                ).registers.pc >> 8) as u8
                &&& final(memory).read_of(
                    (STACK_START + u8_specs::wrapping_sub(old(self).registers.sp, 1)) as u16,
                ) == (old(self).registers.pc & 0xFF) as u8
                &&& final(memory).read_of(
                    (STACK_START + u8_specs::wrapping_sub(old(self).registers.sp, 2)) as u16,
                ) == ((old(self).registers.status & !FLAG_BREAK_COMMAND) | FLAG_UNUSED)
                &&& final(self).registers.pc == old(memory).read_of(0xFFFA) + 0x100 * old(
                    memory,
                ).read_of(0xFFFB)
            },
    {
        self.interrupt(memory, 0xFFFA, 2);
        proof {
            lemma_flag_or(old(self).registers.status, FLAG_INTERRUPT_DISABLE);
        }
    }

    /// As `nmi` but through 0xFFFE, and ignored while interrupts are disabled.
    pub fn irq<M: Memory>(&mut self, memory: &mut M)
        requires
            old(memory).inv(),
            old(self).wf(),
        ensures
            final(memory).inv(),
            final(self).wf(),
            final(self).opcodes == old(self).opcodes,
            flag_set(old(self).registers.status, FLAG_INTERRUPT_DISABLE) ==> *final(self) == *old(
                self,
            ) && *final(memory) == *old(memory),
            !flag_set(old(self).registers.status, FLAG_INTERRUPT_DISABLE) ==> {
                &&& final(self).registers.sp == u8_specs::wrapping_sub(old(self).registers.sp, 3)
                &&& flag_set(final(self).registers.status, FLAG_INTERRUPT_DISABLE)
                &&& final(self).cycles_wait == u8_specs::wrapping_add(old(self).cycles_wait, 2)
                &&& final(self).halted == old(self).halted
            },
            !flag_set(old(self).registers.status, FLAG_INTERRUPT_DISABLE) && interrupt_mem_ok(
                *old(memory),
                0xFFFE,
            ) ==> {
                &&& final(memory).read_of((STACK_START + old(self).registers.sp) as u16) == (old(
                    self,
                ).registers.pc >> 8) as u8
                &&& final(memory).read_of(
                    (STACK_START + u8_specs::wrapping_sub(old(self).registers.sp, 1)) as u16,
                ) == (old(self).registers.pc & 0xFF) as u8
                &&& final(memory).read_of(
                    (STACK_START + u8_specs::wrapping_sub(old(self).registers.sp, 2)) as u16,
                ) == ((old(self).registers.status & !FLAG_BREAK_COMMAND) | FLAG_UNUSED)
                &&& final(self).registers.pc == old(memory).read_of(0xFFFE) + 0x100 * old(
                    memory,
                ).read_of(0xFFFF)
            },
    {
        if self.registers.status & FLAG_INTERRUPT_DISABLE == 0 {
            self.interrupt(memory, 0xFFFE, 2);
            proof {
                lemma_flag_or(old(self).registers.status, FLAG_INTERRUPT_DISABLE);
            }
        }
    }

    /// Clears the registers, sets interrupt-disable, restores the stack
    /// pointer and loads the program counter from the reset vector at 0xFFFC.
    pub fn reset<M: Memory>(&mut self, memory: &mut M)
        requires
            old(memory).inv(),
            old(self).wf(),
        ensures
            final(memory).inv(),
            final(self).wf(),
            final(self).opcodes == old(self).opcodes,
            final(self).registers.a == 0,
            final(self).registers.x == 0,
            final(self).registers.y == 0,
            final(self).registers.status == FLAG_INTERRUPT_DISABLE,
            final(self).registers.sp == 0xFD,
            !final(self).halted,
            final(self).cycles_wait == old(self).cycles_wait,
            final(self).extra_cycles == old(self).extra_cycles,
            old(memory).reads_pure(0xFFFC) && old(memory).reads_pure(0xFFFD) ==> {
                &&& *final(memory) == *old(memory)
                &&& final(self).registers.pc == old(memory).read_of(0xFFFC) + 0x100 * old(
                    memory,
                ).read_of(0xFFFD)
            },
    {
        self.registers.a = 0;
        self.registers.x = 0;
        self.registers.y = 0;
        self.registers.status = FLAG_INTERRUPT_DISABLE;
        self.registers.sp = 0xFD;
        self.registers.pc = memory.read_u16(0xFFFC);
        self.halted = false;
    }
}

/// The memory layout an interrupt entry relies on: the whole stack page is
/// plain RAM, and the vector lies outside it with side-effect-free reads.
pub open spec fn interrupt_mem_ok<M: Memory>(m: M, vector_addr: u16) -> bool {
    &&& forall|a: u16| 0x100 <= a < 0x200 ==> #[trigger] m.ram_addr(a)
    &&& m.reads_pure(vector_addr)
    &&& m.reads_pure(u16_specs::wrapping_add(vector_addr, 1))
    &&& !m.ram_addr(vector_addr)
    &&& !m.ram_addr(u16_specs::wrapping_add(vector_addr, 1))
}

/// Helpers
impl CPU {
    fn stack_addr(&self) -> (r: u16)
        ensures
            r == STACK_START + self.registers.sp,
    {
        STACK_START + self.registers.sp as u16
    }

    fn push_stack<M: Memory>(&mut self, memory: &mut M, v: u8)
        requires
            old(memory).inv(),
        ensures
            final(memory).inv(),
            final(self).registers == (Registers {
                sp: u8_specs::wrapping_sub(old(self).registers.sp, 1),
                ..old(self).registers
            }),
            keeps_timing(*old(self), *final(self)),
            final(self).extra_cycles == old(self).extra_cycles,
            old(memory).ram_addr((STACK_START + old(self).registers.sp) as u16) ==> {
                &&& forall|a: u16|
                    #[trigger] final(memory).read_of(a) == (if old(memory).ram_addr(a) && a % 0x800
                        == (STACK_START + old(self).registers.sp) as u16 % 0x800 {
                        v
                    } else {
                        old(memory).read_of(a)
                    })
                &&& forall|a: u16| #[trigger] final(memory).ram_addr(a) == old(memory).ram_addr(a)
                &&& forall|a: u16|
                    #[trigger] final(memory).reads_pure(a) == old(memory).reads_pure(a)
            },
    {
        let addr = self.stack_addr();
        memory.write(addr, v);
        self.registers.sp = self.registers.sp.wrapping_sub(1);
    }

    fn pull_stack<M: Memory>(&mut self, memory: &mut M) -> (r: u8)
        requires
            old(memory).inv(),
        ensures
            final(memory).inv(),
            final(self).registers == (Registers {
                sp: u8_specs::wrapping_add(old(self).registers.sp, 1),
                ..old(self).registers
            }),
            keeps_timing(*old(self), *final(self)),
            final(self).extra_cycles == old(self).extra_cycles,
    {
        self.registers.sp = self.registers.sp.wrapping_add(1);
        let addr = self.stack_addr();
        memory.read(addr)
    }

    fn push_stack_u16<M: Memory>(&mut self, memory: &mut M, v: u16)
        requires
            old(memory).inv(),
        ensures
            final(memory).inv(),
            final(self).registers == (Registers {
                sp: u8_specs::wrapping_sub(old(self).registers.sp, 2),
                ..old(self).registers
            }),
            keeps_timing(*old(self), *final(self)),
            final(self).extra_cycles == old(self).extra_cycles,
            old(memory).ram_addr((STACK_START + old(self).registers.sp) as u16) && old(
                memory,
            ).ram_addr(
                (STACK_START + u8_specs::wrapping_sub(old(self).registers.sp, 1)) as u16,
            ) ==> {
                &&& forall|a: u16|
                    #[trigger] final(memory).read_of(a) == (if old(memory).ram_addr(a) && a % 0x800
                        == (STACK_START + u8_specs::wrapping_sub(
                        old(self).registers.sp,
                        1,
                    )) as u16 % 0x800 {
                        (v & 0xFF) as u8
                    } else if old(memory).ram_addr(a) && a % 0x800 == (STACK_START + old(
                        self,
                    ).registers.sp) as u16 % 0x800 {
                        (v >> 8) as u8
                    } else {
                        old(memory).read_of(a)
                    })
                &&& forall|a: u16| #[trigger] final(memory).ram_addr(a) == old(memory).ram_addr(a)
                &&& forall|a: u16|
                    #[trigger] final(memory).reads_pure(a) == old(memory).reads_pure(a)
            },
    {
        self.push_stack(memory, (v >> 8u16) as u8);
        self.push_stack(memory, (v & 0xFF) as u8);
    }

    fn pull_stack_u16<M: Memory>(&mut self, memory: &mut M) -> (r: u16)
        requires
            old(memory).inv(),
        ensures
            final(memory).inv(),
            final(self).registers == (Registers {
                sp: u8_specs::wrapping_add(old(self).registers.sp, 2),
                ..old(self).registers
            }),
            keeps_timing(*old(self), *final(self)),
            final(self).extra_cycles == old(self).extra_cycles,
    {
        let lo = self.pull_stack(memory) as u16;
        let hi = self.pull_stack(memory) as u16;
        (hi << 8u16) | lo
    }

    /// Pushes the program counter and the status byte (with break clear and
    /// the unused bit set), disables interrupts, charges the entry cycles and
    /// jumps through the vector.
    fn interrupt<M: Memory>(&mut self, memory: &mut M, vector_addr: u16, cpu_cycles: u8)
        requires
            old(memory).inv(),
        ensures
            final(memory).inv(),
            final(self).opcodes == old(self).opcodes,
            final(self).halted == old(self).halted,
            final(self).registers.sp == u8_specs::wrapping_sub(old(self).registers.sp, 3),
            final(self).registers.a == old(self).registers.a,
            final(self).registers.x == old(self).registers.x,
            final(self).registers.y == old(self).registers.y,
            final(self).registers.status == (spec_set_flag(
                old(self).registers.status,
                FLAG_INTERRUPT_DISABLE,
                true,
            )),
            final(self).cycles_wait == u8_specs::wrapping_add(old(self).cycles_wait, cpu_cycles),
            final(self).extra_cycles == old(self).extra_cycles,
            final(self).dma_stall == old(self).dma_stall,
            interrupt_mem_ok(*old(memory), vector_addr) ==> {
                &&& final(memory).read_of((STACK_START + old(self).registers.sp) as u16) == (old(
                    self,
                ).registers.pc >> 8) as u8
                &&& final(memory).read_of(
                    (STACK_START + u8_specs::wrapping_sub(old(self).registers.sp, 1)) as u16,
                ) == (old(self).registers.pc & 0xFF) as u8
                &&& final(memory).read_of(
                    (STACK_START + u8_specs::wrapping_sub(old(self).registers.sp, 2)) as u16,
                ) == ((old(self).registers.status & !FLAG_BREAK_COMMAND) | FLAG_UNUSED)
                &&& final(self).registers.pc == old(memory).read_of(vector_addr) + 0x100 * old(
                    memory,
                ).read_of(u16_specs::wrapping_add(vector_addr, 1))
            },
    {
        let pc = self.registers.pc;
        self.push_stack_u16(memory, pc);
        let flag = (self.registers.status & !FLAG_BREAK_COMMAND) | FLAG_UNUSED;
        self.push_stack(memory, flag);
        self.registers.status = self.registers.status | FLAG_INTERRUPT_DISABLE;

        self.cycles_wait = self.cycles_wait.wrapping_add(cpu_cycles);
        self.registers.pc = memory.read_u16(vector_addr);
    }

    fn update_zero_and_negative_flags(&mut self, value: u8)
        ensures
            final(self).registers == (Registers {
                status: spec_zn(old(self).registers.status, value),
                ..old(self).registers
            }),
            keeps_timing(*old(self), *final(self)),
            final(self).extra_cycles == old(self).extra_cycles,
    {
        if value == 0 {
            self.registers.status = self.registers.status | FLAG_ZERO;
        } else {
            self.registers.status = self.registers.status & !FLAG_ZERO;
        }

        if value & 0x80 != 0 {
            self.registers.status = self.registers.status | FLAG_NEGATIVE;
        } else {
            self.registers.status = self.registers.status & !FLAG_NEGATIVE;
        }
    }

    fn set_flag(&mut self, flag: u8, on: bool)
        ensures
            final(self).registers == (Registers {
                status: spec_set_flag(old(self).registers.status, flag, on),
                ..old(self).registers
            }),
            keeps_timing(*old(self), *final(self)),
            final(self).extra_cycles == old(self).extra_cycles,
    {
        if on {
            self.registers.status = self.registers.status | flag;
        } else {
            self.registers.status = self.registers.status & !flag;
        }
    }

    /// Resolves the operand address for an addressing mode, reading operand
    /// bytes from memory; the second component reports a page crossing for
    /// the indexed modes that can earn an extra cycle. The CPU state itself
    /// is untouched.
    pub fn get_operand_address<M: Memory>(&mut self, memory: &mut M, mode: &AddressingMode) -> (r:
        (u16, bool))
        requires
            old(memory).inv(),
        ensures
            final(memory).inv(),
            *final(self) == *old(self),
            !(*mode == AddressingMode::AbsoluteX || *mode == AddressingMode::AbsoluteY || *mode
                == AddressingMode::IndirectY) ==> r.1 == false,
            *mode == AddressingMode::Immediate ==> r.0 == old(self).registers.pc && *final(memory)
                == *old(memory),
            *mode == AddressingMode::ZeroPage ==> r.0 == old(memory).read_of(
                old(self).registers.pc,
            ),
            *mode == AddressingMode::ZeroPageX ==> r.0 == u8_specs::wrapping_add(
                old(memory).read_of(old(self).registers.pc),
                old(self).registers.x,
            ),
            *mode == AddressingMode::ZeroPageY ==> r.0 == u8_specs::wrapping_add(
                old(memory).read_of(old(self).registers.pc),
                old(self).registers.y,
            ),
            *mode == AddressingMode::Relative ==> ({
                let off = old(memory).read_of(old(self).registers.pc);
                let next = u16_specs::wrapping_add(old(self).registers.pc, 1);
                r.0 == if off < 0x80 {
                    u16_specs::wrapping_add(next, off as u16)
                } else {
                    u16_specs::wrapping_sub(u16_specs::wrapping_add(next, off as u16), 0x100)
                }
            }),
            ({
                let pc = old(self).registers.pc;
                let pure2 = old(memory).reads_pure(pc) && old(memory).reads_pure(
                    u16_specs::wrapping_add(pc, 1),
                );
                let base = (old(memory).read_of(pc) + 0x100 * old(memory).read_of(
                    u16_specs::wrapping_add(pc, 1),
                )) as u16;
                &&& (*mode == AddressingMode::Absolute && pure2 ==> r.0 == base)
                &&& (*mode == AddressingMode::AbsoluteX && pure2 ==> r.0 == u16_specs::wrapping_add(
                    base,
                    old(self).registers.x as u16,
                ) && r.1 == ((base & 0xFF00) != (r.0 & 0xFF00)))
                &&& (*mode == AddressingMode::AbsoluteY && pure2 ==> r.0 == u16_specs::wrapping_add(
                    base,
                    old(self).registers.y as u16,
                ) && r.1 == ((base & 0xFF00) != (r.0 & 0xFF00)))
            }),
            ({
                let pc = old(self).registers.pc;
                let zp_pure = forall|a: u16| a < 0x100 ==> #[trigger] old(memory).reads_pure(a);
                let b = old(memory).read_of(pc);
                &&& (*mode == AddressingMode::IndirectY && old(memory).reads_pure(pc) && zp_pure
                    ==> ({
                    let lo = old(memory).read_of(b as u16);
                    let hi = old(memory).read_of(u8_specs::wrapping_add(b, 1) as u16);
                    let deref_base = (lo + 0x100 * hi) as u16;
                    &&& r.0 == u16_specs::wrapping_add(deref_base, old(self).registers.y as u16)
                    &&& r.1 == ((deref_base & 0xFF00) != (r.0 & 0xFF00))
                }))
                &&& (*mode == AddressingMode::IndirectX && old(memory).reads_pure(pc) && zp_pure
                    ==> ({
                    let ptr = u8_specs::wrapping_add(b, old(self).registers.x);
                    let lo = old(memory).read_of(ptr as u16);
                    let hi = old(memory).read_of(u8_specs::wrapping_add(ptr, 1) as u16);
                    r.0 == (lo + 0x100 * hi) as u16
                }))
            }),
            ({
                let pc = old(self).registers.pc;
                let pure2 = old(memory).reads_pure(pc) && old(memory).reads_pure(
                    u16_specs::wrapping_add(pc, 1),
                );
                let ptr = (old(memory).read_of(pc) + 0x100 * old(memory).read_of(
                    u16_specs::wrapping_add(pc, 1),
                )) as u16;
                let ptr_pure = old(memory).reads_pure(ptr) && old(memory).reads_pure(
                    u16_specs::wrapping_add(ptr, 1),
                ) && old(memory).reads_pure(ptr & 0xFF00);
                *mode == AddressingMode::Indirect && pure2 && ptr_pure ==> r.0 == (if ptr & 0x00FF
                    == 0x00FF {
                    (old(memory).read_of(ptr) + 0x100 * old(memory).read_of(ptr & 0xFF00)) as u16
                } else {
                    (old(memory).read_of(ptr) + 0x100 * old(memory).read_of(
                        u16_specs::wrapping_add(ptr, 1),
                    )) as u16
                })
            }),
    {
        match mode {
            AddressingMode::Immediate => (self.registers.pc, false),
            AddressingMode::ZeroPage => (memory.read(self.registers.pc) as u16, false),
            AddressingMode::Absolute => (memory.read_u16(self.registers.pc), false),
            AddressingMode::ZeroPageX => {
                let pos = memory.read(self.registers.pc);
                let addr = pos.wrapping_add(self.registers.x) as u16;
                (addr, false)
            },
            AddressingMode::ZeroPageY => {
                let pos = memory.read(self.registers.pc);
                let addr = pos.wrapping_add(self.registers.y) as u16;
                (addr, false)
            },
            AddressingMode::Relative => {
                let offset = memory.read(self.registers.pc);
                let next = self.registers.pc.wrapping_add(1);
                let target = if offset < 0x80 {
                    next.wrapping_add(offset as u16)
                } else {
                    next.wrapping_add(offset as u16).wrapping_sub(0x100)
                };
                (target, false)
            },
            AddressingMode::AbsoluteX => {
                let base = memory.read_u16(self.registers.pc);
                let addr = base.wrapping_add(self.registers.x as u16);
                let page_cross = (base & 0xFF00) != (addr & 0xFF00);
                (addr, page_cross)
            },
            AddressingMode::AbsoluteY => {
                let base = memory.read_u16(self.registers.pc);
                let addr = base.wrapping_add(self.registers.y as u16);
                let page_cross = (base & 0xFF00) != (addr & 0xFF00);
                (addr, page_cross)
            },
            AddressingMode::Indirect => {
                let addr = memory.read_u16(self.registers.pc);
                let indirect_ref = if addr & 0x00FF == 0x00FF {
                    let lo = memory.read(addr);
                    let hi = memory.read(addr & 0xFF00);
                    proof {
                        assert(((hi as u16) << 8u16) | (lo as u16) == (hi as u16) * 0x100 + (
                        lo as u16)) by (bit_vector);
                    }
                    ((hi as u16) << 8u16) | (lo as u16)
                } else {
                    memory.read_u16(addr)
                };
                (indirect_ref, false)
            },
            AddressingMode::IndirectX => {
                let base = memory.read(self.registers.pc);
                let ptr: u8 = base.wrapping_add(self.registers.x);
                let lo = memory.read(ptr as u16);
                let hi = memory.read(ptr.wrapping_add(1) as u16);
                proof {
                    assert(((hi as u16) << 8u16) | (lo as u16) == (hi as u16) * 0x100 + (
                    lo as u16)) by (bit_vector);
                }
                (((hi as u16) << 8u16) | (lo as u16), false)
            },
            AddressingMode::IndirectY => {
                let base = memory.read(self.registers.pc);
                let lo = memory.read(base as u16);
                let hi = memory.read(base.wrapping_add(1) as u16);
                proof {
                    assert(((hi as u16) << 8u16) | (lo as u16) == (hi as u16) * 0x100 + (
                    lo as u16)) by (bit_vector);
                }
                let deref_base = ((hi as u16) << 8u16) | (lo as u16);
                let deref = deref_base.wrapping_add(self.registers.y as u16);
                let page_cross = (deref_base & 0xFF00) != (deref & 0xFF00);
                (deref, page_cross)
            },
            AddressingMode::Implied | AddressingMode::Accumulator => {
                (memory.read(self.registers.pc.wrapping_add(1)) as u16, false)
            },
        }
    }
}

/// Registers equal except possibly the program counter.
pub open spec fn same_regs_but_pc(pre: Registers, post: Registers) -> bool {
    post == (Registers { pc: post.pc, ..pre })
}

/// Mnemonics handled by dispatch group 0.
pub open spec fn spec_group0(m: Mnemonic) -> bool {
    ||| m == Mnemonic::ADC
    ||| m == Mnemonic::AND
    ||| m == Mnemonic::ASL
    ||| m == Mnemonic::BCC
    ||| m == Mnemonic::BCS
    ||| m == Mnemonic::BEQ
    ||| m == Mnemonic::BIT
    ||| m == Mnemonic::BMI
    ||| m == Mnemonic::BNE
    ||| m == Mnemonic::BPL
    ||| m == Mnemonic::BRK
    ||| m == Mnemonic::BVC
    ||| m == Mnemonic::BVS
    ||| m == Mnemonic::CLC
    ||| m == Mnemonic::CLD
    ||| m == Mnemonic::CLI
    ||| m == Mnemonic::CLV
    ||| m == Mnemonic::CMP
    ||| m == Mnemonic::CPX
}

/// Mnemonics handled by dispatch group 1.
pub open spec fn spec_group1(m: Mnemonic) -> bool {
    ||| m == Mnemonic::CPY
    ||| m == Mnemonic::DEC
    ||| m == Mnemonic::DEX
    ||| m == Mnemonic::DEY
    ||| m == Mnemonic::EOR
    ||| m == Mnemonic::INC
    ||| m == Mnemonic::INX
    ||| m == Mnemonic::INY
    ||| m == Mnemonic::JMP
    ||| m == Mnemonic::JSR
    ||| m == Mnemonic::LDA
    ||| m == Mnemonic::LDX
    ||| m == Mnemonic::LDY
    ||| m == Mnemonic::LSR
    ||| m == Mnemonic::NOP
    ||| m == Mnemonic::ORA
    ||| m == Mnemonic::PHA
    ||| m == Mnemonic::PHP
    ||| m == Mnemonic::PLA
}

/// Mnemonics handled by dispatch group 2.
pub open spec fn spec_group2(m: Mnemonic) -> bool {
    ||| m == Mnemonic::PLP
    ||| m == Mnemonic::ROL
    ||| m == Mnemonic::ROR
    ||| m == Mnemonic::RTI
    ||| m == Mnemonic::RTS
    ||| m == Mnemonic::SBC
    ||| m == Mnemonic::SEC
    ||| m == Mnemonic::SED
    ||| m == Mnemonic::SEI
    ||| m == Mnemonic::STA
    ||| m == Mnemonic::STX
    ||| m == Mnemonic::STY
    ||| m == Mnemonic::TAX
    ||| m == Mnemonic::TAY
    ||| m == Mnemonic::TSX
    ||| m == Mnemonic::TXA
    ||| m == Mnemonic::TXS
    ||| m == Mnemonic::TYA
    ||| m == Mnemonic::AHX
}

/// Mnemonics handled by dispatch group 3.
pub open spec fn spec_group3(m: Mnemonic) -> bool {
    ||| m == Mnemonic::ALR
    ||| m == Mnemonic::ANC
    ||| m == Mnemonic::ARR
    ||| m == Mnemonic::AXS
    ||| m == Mnemonic::DCP
    ||| m == Mnemonic::ISC
    ||| m == Mnemonic::LAS
    ||| m == Mnemonic::LAX
    ||| m == Mnemonic::LXA
    ||| m == Mnemonic::RLA
    ||| m == Mnemonic::RRA
    ||| m == Mnemonic::SAX
    ||| m == Mnemonic::SHX
    ||| m == Mnemonic::SHY
    ||| m == Mnemonic::SLO
    ||| m == Mnemonic::SRE
    ||| m == Mnemonic::STP
    ||| m == Mnemonic::TAS
    ||| m == Mnemonic::XAA
}

impl CPU {
    /// Dispatches one decoded instruction. The extras counter ends at most 3,
    /// only STP halts, and unless the mnemonic is one that writes the program
    /// counter, it advances by the operand length.
    fn execute_instruction<M: Memory>(
        &mut self,
        memory: &mut M,
        bytes: u8,
        mnemonic: Mnemonic,
        mode: AddressingMode,
    )
        requires
            old(memory).inv(),
            old(self).extra_cycles == 0,
        ensures
            final(memory).inv(),
            final(self).opcodes == old(self).opcodes,
            final(self).dma_stall == old(self).dma_stall,
            final(self).extra_cycles <= 3,
            final(self).halted == (old(self).halted || mnemonic == Mnemonic::STP),
            mnemonic != Mnemonic::BRK ==> final(self).cycles_wait == old(self).cycles_wait,
            !spec_writes_pc(mnemonic) ==> final(self).registers.pc == u16_specs::wrapping_add(
                old(self).registers.pc,
                spec_operand_len(bytes) as u16,
            ),
            spec_implied_op(mnemonic) ==> final(self).registers == (Registers {
                pc: final(self).registers.pc,
                ..spec_implied_step(old(self).registers, mnemonic)
            }),
            spec_implied_op(mnemonic) && mode == AddressingMode::Implied ==> final(self).extra_cycles == 0,
            spec_imm_load_op(mnemonic) && mode == AddressingMode::Immediate ==> final(self).registers == (Registers {
                pc: final(self).registers.pc,
                ..spec_imm_load_step(
                    old(self).registers,
                    mnemonic,
                    old(memory).read_of(old(self).registers.pc),
                )
            }) && final(self).extra_cycles == 0,
            spec_branch_op(mnemonic) && mode == AddressingMode::Relative ==> ({
                let taken = spec_branch_taken(old(self).registers.status, mnemonic);
                let off = old(memory).read_of(old(self).registers.pc);
                let target = spec_branch_target(old(self).registers.pc, off);
                &&& final(self).registers == (Registers {
                    pc: final(self).registers.pc,
                    ..old(self).registers
                })
                &&& final(self).extra_cycles == spec_branch_extras(
                    old(self).registers.pc,
                    off,
                    taken,
                )
                &&& (!taken ==> final(self).registers.pc == u16_specs::wrapping_add(
                    old(self).registers.pc,
                    spec_operand_len(bytes) as u16,
                ))
                &&& (taken && target != old(self).registers.pc ==> final(self).registers.pc
                    == target)
            }),
    {
        let pc_state = self.registers.pc;

        match mnemonic {
            Mnemonic::ADC | Mnemonic::AND | Mnemonic::ASL | Mnemonic::BCC | Mnemonic::BCS | Mnemonic::BEQ | Mnemonic::BIT | Mnemonic::BMI | Mnemonic::BNE | Mnemonic::BPL | Mnemonic::BRK | Mnemonic::BVC | Mnemonic::BVS | Mnemonic::CLC | Mnemonic::CLD | Mnemonic::CLI | Mnemonic::CLV | Mnemonic::CMP | Mnemonic::CPX => self.exec_group0(memory, mnemonic, mode),
            Mnemonic::CPY | Mnemonic::DEC | Mnemonic::DEX | Mnemonic::DEY | Mnemonic::EOR | Mnemonic::INC | Mnemonic::INX | Mnemonic::INY | Mnemonic::JMP | Mnemonic::JSR | Mnemonic::LDA | Mnemonic::LDX | Mnemonic::LDY | Mnemonic::LSR | Mnemonic::NOP | Mnemonic::ORA | Mnemonic::PHA | Mnemonic::PHP | Mnemonic::PLA => self.exec_group1(memory, mnemonic, mode),
            Mnemonic::PLP | Mnemonic::ROL | Mnemonic::ROR | Mnemonic::RTI | Mnemonic::RTS | Mnemonic::SBC | Mnemonic::SEC | Mnemonic::SED | Mnemonic::SEI | Mnemonic::STA | Mnemonic::STX | Mnemonic::STY | Mnemonic::TAX | Mnemonic::TAY | Mnemonic::TSX | Mnemonic::TXA | Mnemonic::TXS | Mnemonic::TYA | Mnemonic::AHX => self.exec_group2(memory, mnemonic, mode),
            Mnemonic::ALR | Mnemonic::ANC | Mnemonic::ARR | Mnemonic::AXS | Mnemonic::DCP | Mnemonic::ISC | Mnemonic::LAS | Mnemonic::LAX | Mnemonic::LXA | Mnemonic::RLA | Mnemonic::RRA | Mnemonic::SAX | Mnemonic::SHX | Mnemonic::SHY | Mnemonic::SLO | Mnemonic::SRE | Mnemonic::STP | Mnemonic::TAS | Mnemonic::XAA => self.exec_group3(memory, mnemonic, mode),
        }

        if pc_state == self.registers.pc {
            let step: u16 = if bytes == 0 {
                0
            } else {
                (bytes - 1) as u16
            };
            self.registers.pc = self.registers.pc.wrapping_add(step);
        }
    }

    #[verifier::rlimit(100)]
    #[verifier::spinoff_prover]
    fn exec_group0<M: Memory>(
        &mut self,
        memory: &mut M,
        mnemonic: Mnemonic,
        mode: AddressingMode,
    )
        requires
            old(memory).inv(),
            old(self).extra_cycles == 0,
            spec_group0(mnemonic),
        ensures
            final(memory).inv(),
            final(self).opcodes == old(self).opcodes,
            final(self).dma_stall == old(self).dma_stall,
            final(self).extra_cycles <= 3,
            final(self).halted == old(self).halted,
            mnemonic != Mnemonic::BRK ==> final(self).cycles_wait == old(self).cycles_wait,
            !spec_writes_pc(mnemonic) ==> final(self).registers.pc == old(self).registers.pc,
            spec_implied_op(mnemonic) ==> final(self).registers == (Registers {
                pc: final(self).registers.pc,
                ..spec_implied_step(old(self).registers, mnemonic)
            }) && final(self).extra_cycles == 0,
            spec_branch_op(mnemonic) && mode == AddressingMode::Relative ==> ({
                let taken = spec_branch_taken(old(self).registers.status, mnemonic);
                let off = old(memory).read_of(old(self).registers.pc);
                &&& final(self).registers == (Registers {
                    pc: final(self).registers.pc,
                    ..old(self).registers
                })
                &&& final(self).extra_cycles == spec_branch_extras(
                    old(self).registers.pc,
                    off,
                    taken,
                )
                &&& (!taken ==> final(self).registers.pc == old(self).registers.pc)
                &&& (taken ==> final(self).registers.pc == spec_branch_target(
                    old(self).registers.pc,
                    off,
                ))
            }),
    {
        match mnemonic {
            Mnemonic::ADC => self.adc(memory, &mode),
            Mnemonic::AND => self.and(memory, &mode),
            Mnemonic::ASL => self.asl(memory, &mode),
            Mnemonic::BCC => self.bcc(memory, &mode),
            Mnemonic::BCS => self.bcs(memory, &mode),
            Mnemonic::BEQ => self.beq(memory, &mode),
            Mnemonic::BIT => self.bit(memory, &mode),
            Mnemonic::BMI => self.bmi(memory, &mode),
            Mnemonic::BNE => self.bne(memory, &mode),
            Mnemonic::BPL => self.bpl(memory, &mode),
            Mnemonic::BRK => self.brk(memory, &mode),
            Mnemonic::BVC => self.bvc(memory, &mode),
            Mnemonic::BVS => self.bvs(memory, &mode),
            Mnemonic::CLC => self.set_flag(FLAG_CARRY, false),
            Mnemonic::CLD => self.set_flag(FLAG_DECIMAL_MODE, false),
            Mnemonic::CLI => self.set_flag(FLAG_INTERRUPT_DISABLE, false),
            Mnemonic::CLV => self.set_flag(FLAG_OVERFLOW, false),
            Mnemonic::CMP => self.cmp(memory, &mode),
            Mnemonic::CPX => self.cpx(memory, &mode),
            _ => {
                proof {
                    assert(false);
                }
            },
        }
    }

    #[verifier::rlimit(100)]
    #[verifier::spinoff_prover]
    fn exec_group1<M: Memory>(
        &mut self,
        memory: &mut M,
        mnemonic: Mnemonic,
        mode: AddressingMode,
    )
        requires
            old(memory).inv(),
            old(self).extra_cycles == 0,
            spec_group1(mnemonic),
        ensures
            final(memory).inv(),
            final(self).opcodes == old(self).opcodes,
            final(self).dma_stall == old(self).dma_stall,
            final(self).extra_cycles <= 3,
            final(self).halted == old(self).halted,
            final(self).cycles_wait == old(self).cycles_wait,
            !spec_writes_pc(mnemonic) ==> final(self).registers.pc == old(self).registers.pc,
            spec_implied_op(mnemonic) ==> final(self).registers == (Registers {
                pc: final(self).registers.pc,
                ..spec_implied_step(old(self).registers, mnemonic)
            }),
            spec_implied_op(mnemonic) && mode == AddressingMode::Implied ==> final(self).extra_cycles == 0,
            spec_imm_load_op(mnemonic) && mode == AddressingMode::Immediate ==> final(self).registers == (Registers {
                pc: final(self).registers.pc,
                ..spec_imm_load_step(
                    old(self).registers,
                    mnemonic,
                    old(memory).read_of(old(self).registers.pc),
                )
            }) && final(self).extra_cycles == 0,
    {
        match mnemonic {
            Mnemonic::CPY => self.cpy(memory, &mode),
            Mnemonic::DEC => self.dec(memory, &mode),
            Mnemonic::DEX => self.dex(),
            Mnemonic::DEY => self.dey(),
            Mnemonic::EOR => self.eor(memory, &mode),
            Mnemonic::INC => self.inc(memory, &mode),
            Mnemonic::INX => self.inx(),
            Mnemonic::INY => self.iny(),
            Mnemonic::JMP => self.jmp(memory, &mode),
            Mnemonic::JSR => self.jsr(memory, &mode),
            Mnemonic::LDA => self.lda(memory, &mode),
            Mnemonic::LDX => self.ldx(memory, &mode),
            Mnemonic::LDY => self.ldy(memory, &mode),
            Mnemonic::LSR => self.lsr(memory, &mode),
            Mnemonic::NOP => self.nop(memory, &mode),
            Mnemonic::ORA => self.ora(memory, &mode),
            Mnemonic::PHA => self.pha(memory),
            Mnemonic::PHP => self.php(memory),
            Mnemonic::PLA => self.pla(memory),
            _ => {
                proof {
                    assert(false);
                }
            },
        }
    }

    #[verifier::rlimit(100)]
    #[verifier::spinoff_prover]
    fn exec_group2<M: Memory>(
        &mut self,
        memory: &mut M,
        mnemonic: Mnemonic,
        mode: AddressingMode,
    )
        requires
            old(memory).inv(),
            old(self).extra_cycles == 0,
            spec_group2(mnemonic),
        ensures
            final(memory).inv(),
            final(self).opcodes == old(self).opcodes,
            final(self).dma_stall == old(self).dma_stall,
            final(self).extra_cycles <= 3,
            final(self).halted == old(self).halted,
            final(self).cycles_wait == old(self).cycles_wait,
            !spec_writes_pc(mnemonic) ==> final(self).registers.pc == old(self).registers.pc,
            spec_implied_op(mnemonic) ==> final(self).registers == (Registers {
                pc: final(self).registers.pc,
                ..spec_implied_step(old(self).registers, mnemonic)
            }) && final(self).extra_cycles == 0,
    {
        match mnemonic {
            Mnemonic::PLP => self.plp(memory),
            Mnemonic::ROL => self.rol(memory, &mode),
            Mnemonic::ROR => self.ror(memory, &mode),
            Mnemonic::RTI => self.rti(memory),
            Mnemonic::RTS => self.rts(memory),
            Mnemonic::SBC => self.sbc(memory, &mode),
            Mnemonic::SEC => self.set_flag(FLAG_CARRY, true),
            Mnemonic::SED => self.set_flag(FLAG_DECIMAL_MODE, true),
            Mnemonic::SEI => self.set_flag(FLAG_INTERRUPT_DISABLE, true),
            Mnemonic::STA => self.sta(memory, &mode),
            Mnemonic::STX => self.stx(memory, &mode),
            Mnemonic::STY => self.sty(memory, &mode),
            Mnemonic::TAX => self.tax(),
            Mnemonic::TAY => self.tay(),
            Mnemonic::TSX => self.tsx(),
            Mnemonic::TXA => self.txa(),
            Mnemonic::TXS => self.txs(),
            Mnemonic::TYA => self.tya(),
            Mnemonic::AHX => self.ahx(memory, &mode),
            _ => {
                proof {
                    assert(false);
                }
            },
        }
    }

    #[verifier::rlimit(100)]
    #[verifier::spinoff_prover]
    fn exec_group3<M: Memory>(
        &mut self,
        memory: &mut M,
        mnemonic: Mnemonic,
        mode: AddressingMode,
    )
        requires
            old(memory).inv(),
            old(self).extra_cycles == 0,
            spec_group3(mnemonic),
        ensures
            final(memory).inv(),
            final(self).opcodes == old(self).opcodes,
            final(self).dma_stall == old(self).dma_stall,
            final(self).extra_cycles <= 3,
            final(self).halted == (old(self).halted || mnemonic == Mnemonic::STP),
            final(self).cycles_wait == old(self).cycles_wait,
            !spec_writes_pc(mnemonic) ==> final(self).registers.pc == old(self).registers.pc,
    {
        match mnemonic {
            Mnemonic::ALR => self.alr(memory, &mode),
            Mnemonic::ANC => self.anc(memory, &mode),
            Mnemonic::ARR => self.arr(memory, &mode),
            Mnemonic::AXS => self.axs(memory, &mode),
            Mnemonic::DCP => self.dcp(memory, &mode),
            Mnemonic::ISC => self.isc(memory, &mode),
            Mnemonic::LAS => self.las(memory, &mode),
            Mnemonic::LAX => self.lax(memory, &mode),
            Mnemonic::LXA => self.lxa(memory, &mode),
            Mnemonic::RLA => self.rla(memory, &mode),
            _ => self.exec_group3_tail(memory, mnemonic, mode),
        }
    }

    #[verifier::rlimit(100)]
    #[verifier::spinoff_prover]
    fn exec_group3_tail<M: Memory>(
        &mut self,
        memory: &mut M,
        mnemonic: Mnemonic,
        mode: AddressingMode,
    )
        requires
            old(memory).inv(),
            old(self).extra_cycles == 0,
            spec_group3(mnemonic),
        ensures
            final(memory).inv(),
            final(self).opcodes == old(self).opcodes,
            final(self).dma_stall == old(self).dma_stall,
            final(self).extra_cycles <= 3,
            final(self).halted == (old(self).halted || mnemonic == Mnemonic::STP),
            final(self).cycles_wait == old(self).cycles_wait,
            !spec_writes_pc(mnemonic) ==> final(self).registers.pc == old(self).registers.pc,
    {
        match mnemonic {
            Mnemonic::RRA => self.rra(memory, &mode),
            Mnemonic::SAX => self.sax(memory, &mode),
            Mnemonic::SHX => self.shx(memory, &mode),
            Mnemonic::SHY => self.shy(memory, &mode),
            Mnemonic::SLO => self.slo(memory, &mode),
            Mnemonic::SRE => self.sre(memory, &mode),
            Mnemonic::STP => self.stp(),
            Mnemonic::TAS => self.tas(memory, &mode),
            Mnemonic::XAA => self.xaa(memory, &mode),
            _ => {
            },
        }
    }

}

/// Instructions
impl CPU {
    fn adc<M: Memory>(&mut self, memory: &mut M, mode: &AddressingMode)
        requires
            old(memory).inv(),
            old(self).extra_cycles == 0,
        ensures
            final(memory).inv(),
            keeps_timing(*old(self), *final(self)),
            final(self).extra_cycles <= 1,
            final(self).registers.pc == old(self).registers.pc,
            exists|v: u8| final(self).registers == spec_adc_regs(old(self).registers, v),
    {
        let (addr, page_cross) = self.get_operand_address(memory, mode);
        if page_cross {
            self.extra_cycles = self.extra_cycles + 1;
        }
        let value = memory.read(addr);
        self.adc_value(value);
        proof {
            assert(self.registers == spec_adc_regs(old(self).registers, value));
        }
    }

    /// Add with carry into the accumulator, per `spec_adc_regs`.
    fn adc_value(&mut self, value: u8)
        ensures
            final(self).registers == spec_adc_regs(old(self).registers, value),
            keeps_timing(*old(self), *final(self)),
            final(self).extra_cycles == old(self).extra_cycles,
    {
        let carry_in: u16 = if self.registers.status & FLAG_CARRY != 0 {
            1
        } else {
            0
        };
        let sum: u16 = self.registers.a as u16 + value as u16 + carry_in;

        self.set_flag(FLAG_CARRY, sum > 0xFF);

        let result: u8 = (sum % 256) as u8;

        self.set_flag(FLAG_OVERFLOW, ((self.registers.a ^ result) & (value ^ result) & 0x80) != 0);

        self.registers.a = result;
        self.update_zero_and_negative_flags(result);
    }

    fn and<M: Memory>(&mut self, memory: &mut M, mode: &AddressingMode)
        requires
            old(memory).inv(),
            old(self).extra_cycles == 0,
        ensures
            final(memory).inv(),
            keeps_timing(*old(self), *final(self)),
            final(self).extra_cycles <= 1,
            final(self).registers.pc == old(self).registers.pc,
            final(self).registers.x == old(self).registers.x,
            final(self).registers.y == old(self).registers.y,
            final(self).registers.sp == old(self).registers.sp,
    {
        let (addr, page_cross) = self.get_operand_address(memory, mode);
        if page_cross {
            self.extra_cycles = self.extra_cycles + 1;
        }
        let value = memory.read(addr);
        self.registers.a = self.registers.a & value;
        let a = self.registers.a;
        self.update_zero_and_negative_flags(a);
    }

    fn asl<M: Memory>(&mut self, memory: &mut M, mode: &AddressingMode)
        requires
            old(memory).inv(),
        ensures
            final(memory).inv(),
            keeps_timing(*old(self), *final(self)),
            final(self).extra_cycles == old(self).extra_cycles,
            final(self).registers.pc == old(self).registers.pc,
    {
        if *mode == AddressingMode::Accumulator {
            let mut value = self.registers.a;
            self.set_flag(FLAG_CARRY, value & 0x80 != 0);
            value = (value as u16 * 2 % 256) as u8;
            self.registers.a = value;
            self.update_zero_and_negative_flags(value);
            return ;
        }
        let (addr, _) = self.get_operand_address(memory, mode);
        let mut value = memory.read(addr);
        self.set_flag(FLAG_CARRY, value & 0x80 != 0);
        value = (value as u16 * 2 % 256) as u8;
        memory.write(addr, value);
        self.update_zero_and_negative_flags(value);
    }

    /// A taken branch costs one extra cycle, and one more when the target
    /// lies on a different page than the instruction's end.
    fn branch_on<M: Memory>(&mut self, memory: &mut M, mode: &AddressingMode, taken: bool)
        requires
            old(memory).inv(),
            old(self).extra_cycles == 0,
        ensures
            final(memory).inv(),
            keeps_timing(*old(self), *final(self)),
            final(self).extra_cycles <= 3,
            same_regs_but_pc(old(self).registers, final(self).registers),
            !taken ==> final(self).registers.pc == old(self).registers.pc && final(self).extra_cycles == 0,
            taken ==> final(self).extra_cycles == 1 + (if (u16_specs::wrapping_add(
                old(self).registers.pc,
                1,
            ) & 0xFF00) != (final(self).registers.pc & 0xFF00) {
                1int
            } else {
                0int
            }),
            taken && *mode == AddressingMode::Relative ==> final(self).registers.pc
                == spec_branch_target(
                old(self).registers.pc,
                old(memory).read_of(old(self).registers.pc),
            ),
    {
        let base_pc = self.registers.pc.wrapping_add(1);
        let (addr, _) = self.get_operand_address(memory, mode);
        if taken {
            self.registers.pc = addr;
            self.extra_cycles = self.extra_cycles + 1;
            if (base_pc & 0xFF00) != (addr & 0xFF00) {
                self.extra_cycles = self.extra_cycles + 1;
            }
        }
    }

    fn bcc<M: Memory>(&mut self, memory: &mut M, mode: &AddressingMode)
        requires
            old(memory).inv(),
            old(self).extra_cycles == 0,
        ensures
            final(memory).inv(),
            keeps_timing(*old(self), *final(self)),
            final(self).extra_cycles <= 3,
            same_regs_but_pc(old(self).registers, final(self).registers),
            *mode == AddressingMode::Relative ==> ({
                let taken = spec_branch_taken(old(self).registers.status, Mnemonic::BCC);
                let off = old(memory).read_of(old(self).registers.pc);
                &&& final(self).extra_cycles == spec_branch_extras(
                    old(self).registers.pc,
                    off,
                    taken,
                )
                &&& (!taken ==> final(self).registers.pc == old(self).registers.pc)
                &&& (taken ==> final(self).registers.pc == spec_branch_target(
                    old(self).registers.pc,
                    off,
                ))
            }),
    {
        let taken = self.registers.status & FLAG_CARRY == 0;
        self.branch_on(memory, mode, taken);
    }

    fn bcs<M: Memory>(&mut self, memory: &mut M, mode: &AddressingMode)
        requires
            old(memory).inv(),
            old(self).extra_cycles == 0,
        ensures
            final(memory).inv(),
            keeps_timing(*old(self), *final(self)),
            final(self).extra_cycles <= 3,
            same_regs_but_pc(old(self).registers, final(self).registers),
            *mode == AddressingMode::Relative ==> ({
                let taken = spec_branch_taken(old(self).registers.status, Mnemonic::BCS);
                let off = old(memory).read_of(old(self).registers.pc);
                &&& final(self).extra_cycles == spec_branch_extras(
                    old(self).registers.pc,
                    off,
                    taken,
                )
                &&& (!taken ==> final(self).registers.pc == old(self).registers.pc)
                &&& (taken ==> final(self).registers.pc == spec_branch_target(
                    old(self).registers.pc,
                    off,
                ))
            }),
    {
        let taken = self.registers.status & FLAG_CARRY != 0;
        self.branch_on(memory, mode, taken);
    }

    fn beq<M: Memory>(&mut self, memory: &mut M, mode: &AddressingMode)
        requires
            old(memory).inv(),
            old(self).extra_cycles == 0,
        ensures
            final(memory).inv(),
            keeps_timing(*old(self), *final(self)),
            final(self).extra_cycles <= 3,
            same_regs_but_pc(old(self).registers, final(self).registers),
            *mode == AddressingMode::Relative ==> ({
                let taken = spec_branch_taken(old(self).registers.status, Mnemonic::BEQ);
                let off = old(memory).read_of(old(self).registers.pc);
                &&& final(self).extra_cycles == spec_branch_extras(
                    old(self).registers.pc,
                    off,
                    taken,
                )
                &&& (!taken ==> final(self).registers.pc == old(self).registers.pc)
                &&& (taken ==> final(self).registers.pc == spec_branch_target(
                    old(self).registers.pc,
                    off,
                ))
            }),
    {
        let taken = self.registers.status & FLAG_ZERO != 0;
        self.branch_on(memory, mode, taken);
    }

    fn bit<M: Memory>(&mut self, memory: &mut M, mode: &AddressingMode)
        requires
            old(memory).inv(),
        ensures
            final(memory).inv(),
            keeps_timing(*old(self), *final(self)),
            final(self).extra_cycles == old(self).extra_cycles,
            final(self).registers.pc == old(self).registers.pc,
            final(self).registers.a == old(self).registers.a,
    {
        let (addr, _) = self.get_operand_address(memory, mode);
        let value = memory.read(addr);
        let result = self.registers.a & value;
        self.set_flag(FLAG_ZERO, result == 0);
        self.set_flag(FLAG_OVERFLOW, value & 0x40 != 0);
        self.set_flag(FLAG_NEGATIVE, value & 0x80 != 0);
    }

    fn bmi<M: Memory>(&mut self, memory: &mut M, mode: &AddressingMode)
        requires
            old(memory).inv(),
            old(self).extra_cycles == 0,
        ensures
            final(memory).inv(),
            keeps_timing(*old(self), *final(self)),
            final(self).extra_cycles <= 3,
            same_regs_but_pc(old(self).registers, final(self).registers),
            *mode == AddressingMode::Relative ==> ({
                let taken = spec_branch_taken(old(self).registers.status, Mnemonic::BMI);
                let off = old(memory).read_of(old(self).registers.pc);
                &&& final(self).extra_cycles == spec_branch_extras(
                    old(self).registers.pc,
                    off,
                    taken,
                )
                &&& (!taken ==> final(self).registers.pc == old(self).registers.pc)
                &&& (taken ==> final(self).registers.pc == spec_branch_target(
                    old(self).registers.pc,
                    off,
                ))
            }),
    {
        let taken = self.registers.status & FLAG_NEGATIVE != 0;
        self.branch_on(memory, mode, taken);
    }

    fn bne<M: Memory>(&mut self, memory: &mut M, mode: &AddressingMode)
        requires
            old(memory).inv(),
            old(self).extra_cycles == 0,
        ensures
            final(memory).inv(),
            keeps_timing(*old(self), *final(self)),
            final(self).extra_cycles <= 3,
            same_regs_but_pc(old(self).registers, final(self).registers),
            *mode == AddressingMode::Relative ==> ({
                let taken = spec_branch_taken(old(self).registers.status, Mnemonic::BNE);
                let off = old(memory).read_of(old(self).registers.pc);
                &&& final(self).extra_cycles == spec_branch_extras(
                    old(self).registers.pc,
                    off,
                    taken,
                )
                &&& (!taken ==> final(self).registers.pc == old(self).registers.pc)
                &&& (taken ==> final(self).registers.pc == spec_branch_target(
                    old(self).registers.pc,
                    off,
                ))
            }),
    {
        let taken = self.registers.status & FLAG_ZERO == 0;
        self.branch_on(memory, mode, taken);
    }

    fn bpl<M: Memory>(&mut self, memory: &mut M, mode: &AddressingMode)
        requires
            old(memory).inv(),
            old(self).extra_cycles == 0,
        ensures
            final(memory).inv(),
            keeps_timing(*old(self), *final(self)),
            final(self).extra_cycles <= 3,
            same_regs_but_pc(old(self).registers, final(self).registers),
            *mode == AddressingMode::Relative ==> ({
                let taken = spec_branch_taken(old(self).registers.status, Mnemonic::BPL);
                let off = old(memory).read_of(old(self).registers.pc);
                &&& final(self).extra_cycles == spec_branch_extras(
                    old(self).registers.pc,
                    off,
                    taken,
                )
                &&& (!taken ==> final(self).registers.pc == old(self).registers.pc)
                &&& (taken ==> final(self).registers.pc == spec_branch_target(
                    old(self).registers.pc,
                    off,
                ))
            }),
    {
        let taken = self.registers.status & FLAG_NEGATIVE == 0;
        self.branch_on(memory, mode, taken);
    }

    fn brk<M: Memory>(&mut self, memory: &mut M, _mode: &AddressingMode)
        requires
            old(memory).inv(),
        ensures
            final(memory).inv(),
            final(self).opcodes == old(self).opcodes,
            final(self).halted == old(self).halted,
            final(self).extra_cycles == old(self).extra_cycles,
            final(self).dma_stall == old(self).dma_stall,
    {
        self.registers.pc = self.registers.pc.wrapping_add(1);
        if self.registers.status & FLAG_INTERRUPT_DISABLE == 0 {
            self.interrupt(memory, 0xFFFE, 1);
        }
    }

    fn bvc<M: Memory>(&mut self, memory: &mut M, mode: &AddressingMode)
        requires
            old(memory).inv(),
            old(self).extra_cycles == 0,
        ensures
            final(memory).inv(),
            keeps_timing(*old(self), *final(self)),
            final(self).extra_cycles <= 3,
            same_regs_but_pc(old(self).registers, final(self).registers),
            *mode == AddressingMode::Relative ==> ({
                let taken = spec_branch_taken(old(self).registers.status, Mnemonic::BVC);
                let off = old(memory).read_of(old(self).registers.pc);
                &&& final(self).extra_cycles == spec_branch_extras(
                    old(self).registers.pc,
                    off,
                    taken,
                )
                &&& (!taken ==> final(self).registers.pc == old(self).registers.pc)
                &&& (taken ==> final(self).registers.pc == spec_branch_target(
                    old(self).registers.pc,
                    off,
                ))
            }),
    {
        let taken = self.registers.status & FLAG_OVERFLOW == 0;
        self.branch_on(memory, mode, taken);
    }

    fn bvs<M: Memory>(&mut self, memory: &mut M, mode: &AddressingMode)
        requires
            old(memory).inv(),
            old(self).extra_cycles == 0,
        ensures
            final(memory).inv(),
            keeps_timing(*old(self), *final(self)),
            final(self).extra_cycles <= 3,
            same_regs_but_pc(old(self).registers, final(self).registers),
            *mode == AddressingMode::Relative ==> ({
                let taken = spec_branch_taken(old(self).registers.status, Mnemonic::BVS);
                let off = old(memory).read_of(old(self).registers.pc);
                &&& final(self).extra_cycles == spec_branch_extras(
                    old(self).registers.pc,
                    off,
                    taken,
                )
                &&& (!taken ==> final(self).registers.pc == old(self).registers.pc)
                &&& (taken ==> final(self).registers.pc == spec_branch_target(
                    old(self).registers.pc,
                    off,
                ))
            }),
    {
        let taken = self.registers.status & FLAG_OVERFLOW != 0;
        self.branch_on(memory, mode, taken);
    }

    fn cmp<M: Memory>(&mut self, memory: &mut M, mode: &AddressingMode)
        requires
            old(memory).inv(),
            old(self).extra_cycles == 0,
        ensures
            final(memory).inv(),
            keeps_timing(*old(self), *final(self)),
            final(self).extra_cycles <= 1,
            final(self).registers.pc == old(self).registers.pc,
            exists|v: u8|
                final(self).registers == (Registers {
                    status: #[trigger] spec_compare_status(
                        old(self).registers.status,
                        old(self).registers.a,
                        v,
                    ),
                    ..old(self).registers
                }),
    {
        let (addr, page_cross) = self.get_operand_address(memory, mode);
        if page_cross {
            self.extra_cycles = self.extra_cycles + 1;
        }
        let value = memory.read(addr);
        let result = self.registers.a.wrapping_sub(value);
        let ge = self.registers.a >= value;
        self.set_flag(FLAG_CARRY, ge);
        self.update_zero_and_negative_flags(result);
        proof {
            assert(self.registers == (Registers {
                status: spec_compare_status(old(self).registers.status, old(self).registers.a, value),
                ..old(self).registers
            }));
        }
    }

    fn cpx<M: Memory>(&mut self, memory: &mut M, mode: &AddressingMode)
        requires
            old(memory).inv(),
        ensures
            final(memory).inv(),
            keeps_timing(*old(self), *final(self)),
            final(self).extra_cycles == old(self).extra_cycles,
            final(self).registers.pc == old(self).registers.pc,
            exists|v: u8|
                final(self).registers == (Registers {
                    status: #[trigger] spec_compare_status(
                        old(self).registers.status,
                        old(self).registers.x,
                        v,
                    ),
                    ..old(self).registers
                }),
    {
        let (addr, _) = self.get_operand_address(memory, mode);
        let value = memory.read(addr);
        let result = self.registers.x.wrapping_sub(value);
        let ge = self.registers.x >= value;
        self.set_flag(FLAG_CARRY, ge);
        self.update_zero_and_negative_flags(result);
        proof {
            assert(self.registers == (Registers {
                status: spec_compare_status(old(self).registers.status, old(self).registers.x, value),
                ..old(self).registers
            }));
        }
    }

    fn cpy<M: Memory>(&mut self, memory: &mut M, mode: &AddressingMode)
        requires
            old(memory).inv(),
        ensures
            final(memory).inv(),
            keeps_timing(*old(self), *final(self)),
            final(self).extra_cycles == old(self).extra_cycles,
            final(self).registers.pc == old(self).registers.pc,
            exists|v: u8|
                final(self).registers == (Registers {
                    status: #[trigger] spec_compare_status(
                        old(self).registers.status,
                        old(self).registers.y,
                        v,
                    ),
                    ..old(self).registers
                }),
    {
        let (addr, _) = self.get_operand_address(memory, mode);
        let value = memory.read(addr);
        let result = self.registers.y.wrapping_sub(value);
        let ge = self.registers.y >= value;
        self.set_flag(FLAG_CARRY, ge);
        self.update_zero_and_negative_flags(result);
        proof {
            assert(self.registers == (Registers {
                status: spec_compare_status(old(self).registers.status, old(self).registers.y, value),
                ..old(self).registers
            }));
        }
    }

    fn dec<M: Memory>(&mut self, memory: &mut M, mode: &AddressingMode)
        requires
            old(memory).inv(),
        ensures
            final(memory).inv(),
            keeps_timing(*old(self), *final(self)),
            final(self).extra_cycles == old(self).extra_cycles,
            final(self).registers.pc == old(self).registers.pc,
            final(self).registers.a == old(self).registers.a,
    {
        let (addr, _) = self.get_operand_address(memory, mode);
        let value = memory.read(addr).wrapping_sub(1);
        memory.write(addr, value);
        self.update_zero_and_negative_flags(value);
    }

    fn dex(&mut self)
        ensures
            final(self).registers == (Registers {
                x: u8_specs::wrapping_sub(old(self).registers.x, 1),
                status: spec_zn(
                    old(self).registers.status,
                    u8_specs::wrapping_sub(old(self).registers.x, 1),
                ),
                ..old(self).registers
            }),
            keeps_timing(*old(self), *final(self)),
            final(self).extra_cycles == old(self).extra_cycles,
    {
        self.registers.x = self.registers.x.wrapping_sub(1);
        let x = self.registers.x;
        self.update_zero_and_negative_flags(x);
    }

    fn dey(&mut self)
        ensures
            final(self).registers == (Registers {
                y: u8_specs::wrapping_sub(old(self).registers.y, 1),
                status: spec_zn(
                    old(self).registers.status,
                    u8_specs::wrapping_sub(old(self).registers.y, 1),
                ),
                ..old(self).registers
            }),
            keeps_timing(*old(self), *final(self)),
            final(self).extra_cycles == old(self).extra_cycles,
    {
        self.registers.y = self.registers.y.wrapping_sub(1);
        let y = self.registers.y;
        self.update_zero_and_negative_flags(y);
    }

    fn eor<M: Memory>(&mut self, memory: &mut M, mode: &AddressingMode)
        requires
            old(memory).inv(),
            old(self).extra_cycles == 0,
        ensures
            final(memory).inv(),
            keeps_timing(*old(self), *final(self)),
            final(self).extra_cycles <= 1,
            final(self).registers.pc == old(self).registers.pc,
            final(self).registers.x == old(self).registers.x,
            final(self).registers.y == old(self).registers.y,
            final(self).registers.sp == old(self).registers.sp,
    {
        let (addr, page_cross) = self.get_operand_address(memory, mode);
        if page_cross {
            self.extra_cycles = self.extra_cycles + 1;
        }
        let value = memory.read(addr);
        self.registers.a = self.registers.a ^ value;
        let a = self.registers.a;
        self.update_zero_and_negative_flags(a);
    }

    fn inc<M: Memory>(&mut self, memory: &mut M, mode: &AddressingMode)
        requires
            old(memory).inv(),
        ensures
            final(memory).inv(),
            keeps_timing(*old(self), *final(self)),
            final(self).extra_cycles == old(self).extra_cycles,
            final(self).registers.pc == old(self).registers.pc,
            final(self).registers.a == old(self).registers.a,
    {
        let (addr, _) = self.get_operand_address(memory, mode);
        let value = memory.read(addr).wrapping_add(1);
        memory.write(addr, value);
        self.update_zero_and_negative_flags(value);
    }

    fn inx(&mut self)
        ensures
            final(self).registers == (Registers {
                x: u8_specs::wrapping_add(old(self).registers.x, 1),
                status: spec_zn(
                    old(self).registers.status,
                    u8_specs::wrapping_add(old(self).registers.x, 1),
                ),
                ..old(self).registers
            }),
            keeps_timing(*old(self), *final(self)),
            final(self).extra_cycles == old(self).extra_cycles,
    {
        self.registers.x = self.registers.x.wrapping_add(1);
        let x = self.registers.x;
        self.update_zero_and_negative_flags(x);
    }

    fn iny(&mut self)
        ensures
            final(self).registers == (Registers {
                y: u8_specs::wrapping_add(old(self).registers.y, 1),
                status: spec_zn(
                    old(self).registers.status,
                    u8_specs::wrapping_add(old(self).registers.y, 1),
                ),
                ..old(self).registers
            }),
            keeps_timing(*old(self), *final(self)),
            final(self).extra_cycles == old(self).extra_cycles,
    {
        self.registers.y = self.registers.y.wrapping_add(1);
        let y = self.registers.y;
        self.update_zero_and_negative_flags(y);
    }

    fn jmp<M: Memory>(&mut self, memory: &mut M, mode: &AddressingMode)
        requires
            old(memory).inv(),
        ensures
            final(memory).inv(),
            keeps_timing(*old(self), *final(self)),
            final(self).extra_cycles == old(self).extra_cycles,
            same_regs_but_pc(old(self).registers, final(self).registers),
    {
        let (addr, _) = self.get_operand_address(memory, mode);
        self.registers.pc = addr;
    }

    fn jsr<M: Memory>(&mut self, memory: &mut M, mode: &AddressingMode)
        requires
            old(memory).inv(),
        ensures
            final(memory).inv(),
            keeps_timing(*old(self), *final(self)),
            final(self).extra_cycles == old(self).extra_cycles,
            final(self).registers.sp == u8_specs::wrapping_sub(old(self).registers.sp, 2),
            final(self).registers.a == old(self).registers.a,
            final(self).registers.x == old(self).registers.x,
            final(self).registers.y == old(self).registers.y,
            final(self).registers.status == old(self).registers.status,
    {
        let (addr, _) = self.get_operand_address(memory, mode);
        let return_addr = self.registers.pc.wrapping_add(2).wrapping_sub(1);
        self.push_stack_u16(memory, return_addr);
        self.registers.pc = addr;
    }

    fn lda<M: Memory>(&mut self, memory: &mut M, mode: &AddressingMode)
        requires
            old(memory).inv(),
            old(self).extra_cycles == 0,
        ensures
            final(memory).inv(),
            keeps_timing(*old(self), *final(self)),
            final(self).extra_cycles <= 1,
            final(self).registers.pc == old(self).registers.pc,
            final(self).registers.x == old(self).registers.x,
            final(self).registers.y == old(self).registers.y,
            final(self).registers.sp == old(self).registers.sp,
            final(self).registers.status == spec_zn(
                old(self).registers.status,
                final(self).registers.a,
            ),
            *mode == AddressingMode::Immediate ==> final(self).registers.a == old(memory).read_of(
                old(self).registers.pc,
            ) && final(self).extra_cycles == old(self).extra_cycles,
    {
        let (addr, page_cross) = self.get_operand_address(memory, mode);
        if page_cross {
            self.extra_cycles = self.extra_cycles + 1;
        }
        let value = memory.read(addr);
        self.registers.a = value;
        self.update_zero_and_negative_flags(value);
    }

    fn ldx<M: Memory>(&mut self, memory: &mut M, mode: &AddressingMode)
        requires
            old(memory).inv(),
            old(self).extra_cycles == 0,
        ensures
            final(memory).inv(),
            keeps_timing(*old(self), *final(self)),
            final(self).extra_cycles <= 1,
            final(self).registers.pc == old(self).registers.pc,
            final(self).registers.a == old(self).registers.a,
            final(self).registers.y == old(self).registers.y,
            final(self).registers.sp == old(self).registers.sp,
            final(self).registers.status == spec_zn(
                old(self).registers.status,
                final(self).registers.x,
            ),
            *mode == AddressingMode::Immediate ==> final(self).registers.x == old(memory).read_of(
                old(self).registers.pc,
            ) && final(self).extra_cycles == old(self).extra_cycles,
    {
        let (addr, page_cross) = self.get_operand_address(memory, mode);
        if page_cross {
            self.extra_cycles = self.extra_cycles + 1;
        }
        let value = memory.read(addr);
        self.registers.x = value;
        self.update_zero_and_negative_flags(value);
    }

    fn ldy<M: Memory>(&mut self, memory: &mut M, mode: &AddressingMode)
        requires
            old(memory).inv(),
            old(self).extra_cycles == 0,
        ensures
            final(memory).inv(),
            keeps_timing(*old(self), *final(self)),
            final(self).extra_cycles <= 1,
            final(self).registers.pc == old(self).registers.pc,
            final(self).registers.a == old(self).registers.a,
            final(self).registers.x == old(self).registers.x,
            final(self).registers.sp == old(self).registers.sp,
            final(self).registers.status == spec_zn(
                old(self).registers.status,
                final(self).registers.y,
            ),
            *mode == AddressingMode::Immediate ==> final(self).registers.y == old(memory).read_of(
                old(self).registers.pc,
            ) && final(self).extra_cycles == old(self).extra_cycles,
    {
        let (addr, page_cross) = self.get_operand_address(memory, mode);
        if page_cross {
            self.extra_cycles = self.extra_cycles + 1;
        }
        let value = memory.read(addr);
        self.registers.y = value;
        self.update_zero_and_negative_flags(value);
    }

    fn lsr<M: Memory>(&mut self, memory: &mut M, mode: &AddressingMode)
        requires
            old(memory).inv(),
        ensures
            final(memory).inv(),
            keeps_timing(*old(self), *final(self)),
            final(self).extra_cycles == old(self).extra_cycles,
            final(self).registers.pc == old(self).registers.pc,
    {
        if *mode == AddressingMode::Accumulator {
            let mut value = self.registers.a;
            self.set_flag(FLAG_CARRY, value & 0x01 != 0);
            value = value / 2;
            self.registers.a = value;
            self.update_zero_and_negative_flags(value);
            return ;
        }
        let (addr, _) = self.get_operand_address(memory, mode);
        let mut value = memory.read(addr);
        self.set_flag(FLAG_CARRY, value & 0x01 != 0);
        value = value / 2;
        memory.write(addr, value);
        self.update_zero_and_negative_flags(value);
    }

    fn nop<M: Memory>(&mut self, memory: &mut M, mode: &AddressingMode)
        requires
            old(memory).inv(),
            old(self).extra_cycles == 0,
        ensures
            final(memory).inv(),
            keeps_timing(*old(self), *final(self)),
            final(self).extra_cycles <= 1,
            final(self).registers == old(self).registers,
            *mode == AddressingMode::Implied || *mode == AddressingMode::Accumulator ==> final(self).extra_cycles == old(self).extra_cycles,
    {
        if *mode == AddressingMode::Implied || *mode == AddressingMode::Accumulator {
            return ;
        }
        let (addr, page_cross) = self.get_operand_address(memory, mode);
        let _ = memory.read(addr);
        if page_cross {
            self.extra_cycles = self.extra_cycles + 1;
        }
    }

    fn ora<M: Memory>(&mut self, memory: &mut M, mode: &AddressingMode)
        requires
            old(memory).inv(),
            old(self).extra_cycles == 0,
        ensures
            final(memory).inv(),
            keeps_timing(*old(self), *final(self)),
            final(self).extra_cycles <= 1,
            final(self).registers.pc == old(self).registers.pc,
            final(self).registers.x == old(self).registers.x,
            final(self).registers.y == old(self).registers.y,
            final(self).registers.sp == old(self).registers.sp,
    {
        let (addr, page_cross) = self.get_operand_address(memory, mode);
        if page_cross {
            self.extra_cycles = self.extra_cycles + 1;
        }
        let value = memory.read(addr);
        self.registers.a = self.registers.a | value;
        let a = self.registers.a;
        self.update_zero_and_negative_flags(a);
    }

    fn pha<M: Memory>(&mut self, memory: &mut M)
        requires
            old(memory).inv(),
        ensures
            final(memory).inv(),
            keeps_timing(*old(self), *final(self)),
            final(self).extra_cycles == old(self).extra_cycles,
            final(self).registers == (Registers {
                sp: u8_specs::wrapping_sub(old(self).registers.sp, 1),
                ..old(self).registers
            }),
    {
        let a = self.registers.a;
        self.push_stack(memory, a);
    }

    fn php<M: Memory>(&mut self, memory: &mut M)
        requires
            old(memory).inv(),
        ensures
            final(memory).inv(),
            keeps_timing(*old(self), *final(self)),
            final(self).extra_cycles == old(self).extra_cycles,
            final(self).registers == (Registers {
                sp: u8_specs::wrapping_sub(old(self).registers.sp, 1),
                ..old(self).registers
            }),
    {
        let flags = self.registers.status | FLAG_BREAK_COMMAND | FLAG_UNUSED;
        self.push_stack(memory, flags);
    }

    fn pla<M: Memory>(&mut self, memory: &mut M)
        requires
            old(memory).inv(),
        ensures
            final(memory).inv(),
            keeps_timing(*old(self), *final(self)),
            final(self).extra_cycles == old(self).extra_cycles,
            final(self).registers.sp == u8_specs::wrapping_add(old(self).registers.sp, 1),
            final(self).registers.pc == old(self).registers.pc,
            final(self).registers.x == old(self).registers.x,
            final(self).registers.y == old(self).registers.y,
            final(self).registers.status == spec_zn(
                old(self).registers.status,
                final(self).registers.a,
            ),
    {
        let value = self.pull_stack(memory);
        self.registers.a = value;
        self.update_zero_and_negative_flags(value);
    }

    fn plp<M: Memory>(&mut self, memory: &mut M)
        requires
            old(memory).inv(),
        ensures
            final(memory).inv(),
            keeps_timing(*old(self), *final(self)),
            final(self).extra_cycles == old(self).extra_cycles,
            final(self).registers.sp == u8_specs::wrapping_add(old(self).registers.sp, 1),
            final(self).registers.pc == old(self).registers.pc,
            final(self).registers.a == old(self).registers.a,
            final(self).registers.x == old(self).registers.x,
            final(self).registers.y == old(self).registers.y,
    {
        let value = self.pull_stack(memory);
        self.registers.status = (value & !FLAG_BREAK_COMMAND) | FLAG_UNUSED;
    }

    fn rol<M: Memory>(&mut self, memory: &mut M, mode: &AddressingMode)
        requires
            old(memory).inv(),
        ensures
            final(memory).inv(),
            keeps_timing(*old(self), *final(self)),
            final(self).extra_cycles == old(self).extra_cycles,
            final(self).registers.pc == old(self).registers.pc,
    {
        let carry_in: u8 = if self.registers.status & FLAG_CARRY != 0 {
            1
        } else {
            0
        };
        if *mode == AddressingMode::Accumulator {
            let mut value = self.registers.a;
            self.set_flag(FLAG_CARRY, value & 0x80 != 0);
            value = ((value as u16 * 2 % 256) as u8) | carry_in;
            self.registers.a = value;
            self.update_zero_and_negative_flags(value);
            return ;
        }
        let (addr, _) = self.get_operand_address(memory, mode);
        let mut value = memory.read(addr);
        self.set_flag(FLAG_CARRY, value & 0x80 != 0);
        value = ((value as u16 * 2 % 256) as u8) | carry_in;
        memory.write(addr, value);
        self.update_zero_and_negative_flags(value);
    }

    fn ror<M: Memory>(&mut self, memory: &mut M, mode: &AddressingMode)
        requires
            old(memory).inv(),
        ensures
            final(memory).inv(),
            keeps_timing(*old(self), *final(self)),
            final(self).extra_cycles == old(self).extra_cycles,
            final(self).registers.pc == old(self).registers.pc,
    {
        let carry_in: u8 = if self.registers.status & FLAG_CARRY != 0 {
            0x80
        } else {
            0
        };
        if *mode == AddressingMode::Accumulator {
            let mut value = self.registers.a;
            self.set_flag(FLAG_CARRY, value & 0x01 != 0);
            value = (value / 2) | carry_in;
            self.registers.a = value;
            self.update_zero_and_negative_flags(value);
            return ;
        }
        let (addr, _) = self.get_operand_address(memory, mode);
        let mut value = memory.read(addr);
        self.set_flag(FLAG_CARRY, value & 0x01 != 0);
        value = (value / 2) | carry_in;
        memory.write(addr, value);
        self.update_zero_and_negative_flags(value);
    }

    fn rti<M: Memory>(&mut self, memory: &mut M)
        requires
            old(memory).inv(),
        ensures
            final(memory).inv(),
            keeps_timing(*old(self), *final(self)),
            final(self).extra_cycles == old(self).extra_cycles,
            final(self).registers.sp == u8_specs::wrapping_add(old(self).registers.sp, 3),
            final(self).registers.a == old(self).registers.a,
            final(self).registers.x == old(self).registers.x,
            final(self).registers.y == old(self).registers.y,
    {
        let status = self.pull_stack(memory);
        self.registers.status = (status & !FLAG_BREAK_COMMAND) | FLAG_UNUSED;
        self.registers.pc = self.pull_stack_u16(memory);
    }

    fn rts<M: Memory>(&mut self, memory: &mut M)
        requires
            old(memory).inv(),
        ensures
            final(memory).inv(),
            keeps_timing(*old(self), *final(self)),
            final(self).extra_cycles == old(self).extra_cycles,
            final(self).registers.sp == u8_specs::wrapping_add(old(self).registers.sp, 2),
            final(self).registers.a == old(self).registers.a,
            final(self).registers.x == old(self).registers.x,
            final(self).registers.y == old(self).registers.y,
            final(self).registers.status == old(self).registers.status,
    {
        let addr = self.pull_stack_u16(memory);
        self.registers.pc = addr.wrapping_add(1);
    }

    fn sbc<M: Memory>(&mut self, memory: &mut M, mode: &AddressingMode)
        requires
            old(memory).inv(),
            old(self).extra_cycles == 0,
        ensures
            final(memory).inv(),
            keeps_timing(*old(self), *final(self)),
            final(self).extra_cycles <= 1,
            final(self).registers.pc == old(self).registers.pc,
            exists|v: u8| final(self).registers == spec_sbc_regs(old(self).registers, v),
    {
        let (addr, page_cross) = self.get_operand_address(memory, mode);
        if page_cross {
            self.extra_cycles = self.extra_cycles + 1;
        }
        let value = memory.read(addr);
        self.sbc_value(value);
        proof {
            assert(self.registers == spec_sbc_regs(old(self).registers, value));
        }
    }

    /// Subtract with borrow from the accumulator, per `spec_sbc_regs`.
    fn sbc_value(&mut self, value: u8)
        ensures
            final(self).registers == spec_sbc_regs(old(self).registers, value),
            keeps_timing(*old(self), *final(self)),
            final(self).extra_cycles == old(self).extra_cycles,
    {
        let borrow: i16 = if self.registers.status & FLAG_CARRY != 0 {
            0
        } else {
            1
        };
        let diff: i16 = self.registers.a as i16 - value as i16 - borrow;

        self.set_flag(FLAG_CARRY, diff >= 0);

        let result: u8 = ((diff + 256) % 256) as u8;

        self.set_flag(
            FLAG_OVERFLOW,
            ((self.registers.a ^ result) & ((!value) ^ result) & 0x80) != 0,
        );

        self.registers.a = result;
        self.update_zero_and_negative_flags(result);
    }

    fn sta<M: Memory>(&mut self, memory: &mut M, mode: &AddressingMode)
        requires
            old(memory).inv(),
        ensures
            final(memory).inv(),
            keeps_timing(*old(self), *final(self)),
            final(self).extra_cycles == old(self).extra_cycles,
            final(self).registers == old(self).registers,
    {
        let (addr, _) = self.get_operand_address(memory, mode);
        let a = self.registers.a;
        memory.write(addr, a);
    }

    fn stx<M: Memory>(&mut self, memory: &mut M, mode: &AddressingMode)
        requires
            old(memory).inv(),
        ensures
            final(memory).inv(),
            keeps_timing(*old(self), *final(self)),
            final(self).extra_cycles == old(self).extra_cycles,
            final(self).registers == old(self).registers,
    {
        let (addr, _) = self.get_operand_address(memory, mode);
        let x = self.registers.x;
        memory.write(addr, x);
    }

    fn sty<M: Memory>(&mut self, memory: &mut M, mode: &AddressingMode)
        requires
            old(memory).inv(),
        ensures
            final(memory).inv(),
            keeps_timing(*old(self), *final(self)),
            final(self).extra_cycles == old(self).extra_cycles,
            final(self).registers == old(self).registers,
    {
        let (addr, _) = self.get_operand_address(memory, mode);
        let y = self.registers.y;
        memory.write(addr, y);
    }

    fn tax(&mut self)
        ensures
            final(self).registers == (Registers {
                x: old(self).registers.a,
                status: spec_zn(old(self).registers.status, old(self).registers.a),
                ..old(self).registers
            }),
            keeps_timing(*old(self), *final(self)),
            final(self).extra_cycles == old(self).extra_cycles,
    {
        self.registers.x = self.registers.a;
        let x = self.registers.x;
        self.update_zero_and_negative_flags(x);
    }

    fn tay(&mut self)
        ensures
            final(self).registers == (Registers {
                y: old(self).registers.a,
                status: spec_zn(old(self).registers.status, old(self).registers.a),
                ..old(self).registers
            }),
            keeps_timing(*old(self), *final(self)),
            final(self).extra_cycles == old(self).extra_cycles,
    {
        self.registers.y = self.registers.a;
        let y = self.registers.y;
        self.update_zero_and_negative_flags(y);
    }

    fn tsx(&mut self)
        ensures
            final(self).registers == (Registers {
                x: old(self).registers.sp,
                status: spec_zn(old(self).registers.status, old(self).registers.sp),
                ..old(self).registers
            }),
            keeps_timing(*old(self), *final(self)),
            final(self).extra_cycles == old(self).extra_cycles,
    {
        self.registers.x = self.registers.sp;
        let x = self.registers.x;
        self.update_zero_and_negative_flags(x);
    }

    fn txa(&mut self)
        ensures
            final(self).registers == (Registers {
                a: old(self).registers.x,
                status: spec_zn(old(self).registers.status, old(self).registers.x),
                ..old(self).registers
            }),
            keeps_timing(*old(self), *final(self)),
            final(self).extra_cycles == old(self).extra_cycles,
    {
        self.registers.a = self.registers.x;
        let a = self.registers.a;
        self.update_zero_and_negative_flags(a);
    }

    fn txs(&mut self)
        ensures
            final(self).registers == (Registers { sp: old(self).registers.x, ..old(self).registers }),
            keeps_timing(*old(self), *final(self)),
            final(self).extra_cycles == old(self).extra_cycles,
    {
        self.registers.sp = self.registers.x;
    }

    fn tya(&mut self)
        ensures
            final(self).registers == (Registers {
                a: old(self).registers.y,
                status: spec_zn(old(self).registers.status, old(self).registers.y),
                ..old(self).registers
            }),
            keeps_timing(*old(self), *final(self)),
            final(self).extra_cycles == old(self).extra_cycles,
    {
        self.registers.a = self.registers.y;
        let a = self.registers.a;
        self.update_zero_and_negative_flags(a);
    }

    // Unofficial instructions

    fn anc<M: Memory>(&mut self, memory: &mut M, mode: &AddressingMode)
        requires
            old(memory).inv(),
        ensures
            final(memory).inv(),
            keeps_timing(*old(self), *final(self)),
            final(self).extra_cycles == old(self).extra_cycles,
            final(self).registers.pc == old(self).registers.pc,
    {
        let (addr, _) = self.get_operand_address(memory, mode);
        let value = memory.read(addr);
        self.registers.a = self.registers.a & value;
        let a = self.registers.a;
        self.update_zero_and_negative_flags(a);
        self.set_flag(FLAG_CARRY, (a & 0x80) != 0);
    }

    fn alr<M: Memory>(&mut self, memory: &mut M, mode: &AddressingMode)
        requires
            old(memory).inv(),
        ensures
            final(memory).inv(),
            keeps_timing(*old(self), *final(self)),
            final(self).extra_cycles == old(self).extra_cycles,
            final(self).registers.pc == old(self).registers.pc,
    {
        let (addr, _) = self.get_operand_address(memory, mode);
        let value = memory.read(addr);
        let masked = self.registers.a & value;
        self.set_flag(FLAG_CARRY, (masked & 0x01) != 0);
        let result = masked / 2;
        self.registers.a = result;
        self.update_zero_and_negative_flags(result);
    }

    fn arr<M: Memory>(&mut self, memory: &mut M, mode: &AddressingMode)
        requires
            old(memory).inv(),
        ensures
            final(memory).inv(),
            keeps_timing(*old(self), *final(self)),
            final(self).extra_cycles == old(self).extra_cycles,
            final(self).registers.pc == old(self).registers.pc,
    {
        let (addr, _) = self.get_operand_address(memory, mode);
        let value = memory.read(addr);
        let masked = self.registers.a & value;
        let carry_in: u8 = if self.registers.status & FLAG_CARRY != 0 {
            0x80
        } else {
            0
        };
        let result = (masked / 2) | carry_in;
        self.registers.a = result;
        self.update_zero_and_negative_flags(result);
        self.set_flag(FLAG_CARRY, (result & 0x40) != 0);
        let bit6 = (result / 64) & 1;
        let bit5 = (result / 32) & 1;
        self.set_flag(FLAG_OVERFLOW, (bit6 ^ bit5) != 0);
    }

    fn axs<M: Memory>(&mut self, memory: &mut M, mode: &AddressingMode)
        requires
            old(memory).inv(),
        ensures
            final(memory).inv(),
            keeps_timing(*old(self), *final(self)),
            final(self).extra_cycles == old(self).extra_cycles,
            final(self).registers.pc == old(self).registers.pc,
    {
        let (addr, _) = self.get_operand_address(memory, mode);
        let value = memory.read(addr);
        let masked = self.registers.a & self.registers.x;
        let result = masked.wrapping_sub(value);
        self.set_flag(FLAG_CARRY, masked >= value);
        self.registers.x = result;
        self.update_zero_and_negative_flags(result);
    }

    fn slo<M: Memory>(&mut self, memory: &mut M, mode: &AddressingMode)
        requires
            old(memory).inv(),
        ensures
            final(memory).inv(),
            keeps_timing(*old(self), *final(self)),
            final(self).extra_cycles == old(self).extra_cycles,
            final(self).registers.pc == old(self).registers.pc,
    {
        let (addr, _) = self.get_operand_address(memory, mode);
        let mut value = memory.read(addr);
        self.set_flag(FLAG_CARRY, (value & 0x80) != 0);
        value = (value as u16 * 2 % 256) as u8;
        memory.write(addr, value);
        self.registers.a = self.registers.a | value;
        let a = self.registers.a;
        self.update_zero_and_negative_flags(a);
    }

    fn rla<M: Memory>(&mut self, memory: &mut M, mode: &AddressingMode)
        requires
            old(memory).inv(),
        ensures
            final(memory).inv(),
            keeps_timing(*old(self), *final(self)),
            final(self).extra_cycles == old(self).extra_cycles,
            final(self).registers.pc == old(self).registers.pc,
    {
        let (addr, _) = self.get_operand_address(memory, mode);
        let mut value = memory.read(addr);
        let carry_in: u8 = if self.registers.status & FLAG_CARRY != 0 {
            1
        } else {
            0
        };
        self.set_flag(FLAG_CARRY, (value & 0x80) != 0);
        value = ((value as u16 * 2 % 256) as u8) | carry_in;
        memory.write(addr, value);
        self.registers.a = self.registers.a & value;
        let a = self.registers.a;
        self.update_zero_and_negative_flags(a);
    }

    fn sre<M: Memory>(&mut self, memory: &mut M, mode: &AddressingMode)
        requires
            old(memory).inv(),
        ensures
            final(memory).inv(),
            keeps_timing(*old(self), *final(self)),
            final(self).extra_cycles == old(self).extra_cycles,
            final(self).registers.pc == old(self).registers.pc,
    {
        let (addr, _) = self.get_operand_address(memory, mode);
        let mut value = memory.read(addr);
        self.set_flag(FLAG_CARRY, (value & 0x01) != 0);
        value = value / 2;
        memory.write(addr, value);
        self.registers.a = self.registers.a ^ value;
        let a = self.registers.a;
        self.update_zero_and_negative_flags(a);
    }

    fn rra<M: Memory>(&mut self, memory: &mut M, mode: &AddressingMode)
        requires
            old(memory).inv(),
        ensures
            final(memory).inv(),
            keeps_timing(*old(self), *final(self)),
            final(self).extra_cycles == old(self).extra_cycles,
            final(self).registers.pc == old(self).registers.pc,
    {
        let (addr, _) = self.get_operand_address(memory, mode);
        let mut value = memory.read(addr);
        let carry_in: u8 = if self.registers.status & FLAG_CARRY != 0 {
            0x80
        } else {
            0
        };
        self.set_flag(FLAG_CARRY, (value & 0x01) != 0);
        value = (value / 2) | carry_in;
        memory.write(addr, value);
        self.adc_value(value);
    }

    fn dcp<M: Memory>(&mut self, memory: &mut M, mode: &AddressingMode)
        requires
            old(memory).inv(),
        ensures
            final(memory).inv(),
            keeps_timing(*old(self), *final(self)),
            final(self).extra_cycles == old(self).extra_cycles,
            final(self).registers.pc == old(self).registers.pc,
            final(self).registers.a == old(self).registers.a,
    {
        let (addr, _) = self.get_operand_address(memory, mode);
        let value = memory.read(addr).wrapping_sub(1);
        memory.write(addr, value);
        let ge = self.registers.a >= value;
        self.set_flag(FLAG_CARRY, ge);
        let result = self.registers.a.wrapping_sub(value);
        self.update_zero_and_negative_flags(result);
    }

    fn isc<M: Memory>(&mut self, memory: &mut M, mode: &AddressingMode)
        requires
            old(memory).inv(),
        ensures
            final(memory).inv(),
            keeps_timing(*old(self), *final(self)),
            final(self).extra_cycles == old(self).extra_cycles,
            final(self).registers.pc == old(self).registers.pc,
    {
        let (addr, _) = self.get_operand_address(memory, mode);
        let value = memory.read(addr).wrapping_add(1);
        memory.write(addr, value);
        self.sbc_value(value);
    }

    fn sax<M: Memory>(&mut self, memory: &mut M, mode: &AddressingMode)
        requires
            old(memory).inv(),
        ensures
            final(memory).inv(),
            keeps_timing(*old(self), *final(self)),
            final(self).extra_cycles == old(self).extra_cycles,
            final(self).registers == old(self).registers,
    {
        let (addr, _) = self.get_operand_address(memory, mode);
        let value = self.registers.a & self.registers.x;
        memory.write(addr, value);
    }

    fn lax<M: Memory>(&mut self, memory: &mut M, mode: &AddressingMode)
        requires
            old(memory).inv(),
            old(self).extra_cycles == 0,
        ensures
            final(memory).inv(),
            keeps_timing(*old(self), *final(self)),
            final(self).extra_cycles <= 1,
            final(self).registers.pc == old(self).registers.pc,
            final(self).registers.a == final(self).registers.x,
    {
        let (addr, page_cross) = self.get_operand_address(memory, mode);
        if page_cross {
            self.extra_cycles = self.extra_cycles + 1;
        }
        let value = memory.read(addr);
        self.registers.a = value;
        self.registers.x = value;
        self.update_zero_and_negative_flags(value);
    }

    fn lxa<M: Memory>(&mut self, memory: &mut M, mode: &AddressingMode)
        requires
            old(memory).inv(),
        ensures
            final(memory).inv(),
            keeps_timing(*old(self), *final(self)),
            final(self).extra_cycles == old(self).extra_cycles,
            final(self).registers.pc == old(self).registers.pc,
            final(self).registers.a == final(self).registers.x,
    {
        let (addr, _) = self.get_operand_address(memory, mode);
        let value = memory.read(addr);
        let result = (self.registers.a | 0xEE) & value;
        self.registers.a = result;
        self.registers.x = result;
        self.update_zero_and_negative_flags(result);
    }

    fn las<M: Memory>(&mut self, memory: &mut M, mode: &AddressingMode)
        requires
            old(memory).inv(),
            old(self).extra_cycles == 0,
        ensures
            final(memory).inv(),
            keeps_timing(*old(self), *final(self)),
            final(self).extra_cycles <= 1,
            final(self).registers.pc == old(self).registers.pc,
    {
        let (addr, page_cross) = self.get_operand_address(memory, mode);
        if page_cross {
            self.extra_cycles = self.extra_cycles + 1;
        }
        let value = memory.read(addr) & self.registers.sp;
        self.registers.sp = value;
        self.registers.a = value;
        self.registers.x = value;
        self.update_zero_and_negative_flags(value);
    }

    fn ahx<M: Memory>(&mut self, memory: &mut M, mode: &AddressingMode)
        requires
            old(memory).inv(),
        ensures
            final(memory).inv(),
            keeps_timing(*old(self), *final(self)),
            final(self).extra_cycles == old(self).extra_cycles,
            final(self).registers == old(self).registers,
    {
        let (addr, _) = self.get_operand_address(memory, mode);
        let high = ((addr >> 8u16) as u8).wrapping_add(1);
        let value = self.registers.a & self.registers.x & high;
        memory.write(addr, value);
    }

    fn shy<M: Memory>(&mut self, memory: &mut M, mode: &AddressingMode)
        requires
            old(memory).inv(),
        ensures
            final(memory).inv(),
            keeps_timing(*old(self), *final(self)),
            final(self).extra_cycles == old(self).extra_cycles,
            final(self).registers == old(self).registers,
    {
        let (addr, _) = self.get_operand_address(memory, mode);
        let high = ((addr >> 8u16) as u8).wrapping_add(1);
        let value = self.registers.y & high;
        memory.write(addr, value);
    }

    fn shx<M: Memory>(&mut self, memory: &mut M, mode: &AddressingMode)
        requires
            old(memory).inv(),
        ensures
            final(memory).inv(),
            keeps_timing(*old(self), *final(self)),
            final(self).extra_cycles == old(self).extra_cycles,
            final(self).registers == old(self).registers,
    {
        let (addr, _) = self.get_operand_address(memory, mode);
        let high = ((addr >> 8u16) as u8).wrapping_add(1);
        let value = self.registers.x & high;
        memory.write(addr, value);
    }

    fn tas<M: Memory>(&mut self, memory: &mut M, mode: &AddressingMode)
        requires
            old(memory).inv(),
        ensures
            final(memory).inv(),
            keeps_timing(*old(self), *final(self)),
            final(self).extra_cycles == old(self).extra_cycles,
            final(self).registers == (Registers {
                sp: old(self).registers.a & old(self).registers.x,
                ..old(self).registers
            }),
    {
        let mut masked = self.registers.a & self.registers.x;
        self.registers.sp = masked;
        let (addr, _) = self.get_operand_address(memory, mode);
        let high = ((addr >> 8u16) as u8).wrapping_add(1);
        masked = masked & high;
        memory.write(addr, masked);
    }

    fn xaa<M: Memory>(&mut self, memory: &mut M, mode: &AddressingMode)
        requires
            old(memory).inv(),
        ensures
            final(memory).inv(),
            keeps_timing(*old(self), *final(self)),
            final(self).extra_cycles == old(self).extra_cycles,
            final(self).registers.pc == old(self).registers.pc,
            final(self).registers.a == final(self).registers.x,
    {
        let (addr, _) = self.get_operand_address(memory, mode);
        let value = memory.read(addr);
        let result = (self.registers.x & (self.registers.a | 0xEE)) & value;
        self.registers.a = result;
        self.registers.x = result;
        self.update_zero_and_negative_flags(result);
    }

    fn stp(&mut self)
        ensures
            final(self).registers == old(self).registers,
            final(self).opcodes == old(self).opcodes,
            final(self).cycles_wait == old(self).cycles_wait,
            final(self).extra_cycles == old(self).extra_cycles,
            final(self).dma_stall == old(self).dma_stall,
            final(self).halted,
    {
        self.halted = true;
    }
}

} // verus!
