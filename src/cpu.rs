//! The fetch-decode-execute engine.

use vstd::prelude::*;
use crate::error::ExecutionError;
use crate::memory::Memory;
use crate::opcode::{decode_spec, instruction_spec, OpCode};
use crate::status::{lemma_zero_negative, Flag, ProcessorStatus};

verus! {

/// Where the program counter starts unless configured otherwise.
pub const DEFAULT_RESET_ADDRESS: u16 = 0xFF00;

/// Where the stack pointer starts unless configured otherwise: the top of its
/// page.
pub const DEFAULT_STACK_POINTER: u8 = 0xFF;

/// The page that the stack pointer indexes into.
pub const STACK_PAGE: u16 = 0x0100;

/// The register state that a processor starts from.
#[derive(Clone, Copy, Debug, PartialEq, Eq, Structural)]
pub struct CpuConfig {
    pub reset_address: u16,
    pub initial_sp: u8,
}

impl Default for CpuConfig {
    fn default() -> (r: CpuConfig)
        ensures
            r.reset_address == DEFAULT_RESET_ADDRESS,
            r.initial_sp == DEFAULT_STACK_POINTER,
    {
        CpuConfig { reset_address: DEFAULT_RESET_ADDRESS, initial_sp: DEFAULT_STACK_POINTER }
    }
}

/// The register file.
#[derive(Clone, Copy, Debug, PartialEq, Eq, Structural)]
pub struct CPU {
    /// Offset of the next free stack slot within the stack page.
    pub sp: u8,
    /// Address of the next byte to fetch.
    pub pc: u16,
    pub a: u8,
    pub x: u8,
    pub y: u8,
    pub status: ProcessorStatus,
}

/// `pc` moved on by `k` bytes, wrapping round the 16-bit address space.
pub open spec fn pc_plus(pc: u16, k: int) -> u16 {
    ((pc + k) % 0x10000) as u16
}

/// The little-endian address held in the two bytes at `lo` and `hi`.
pub open spec fn word_spec(lo: u8, hi: u8) -> u16 {
    (lo + 256 * hi) as u16
}

/// The registers after LDA puts `value` in the accumulator, with the program
/// counter at `pc`.
pub open spec fn lda_spec(c: CPU, pc: u16, value: u8) -> CPU {
    CPU { pc, a: value, status: c.status.zero_negative(value), ..c }
}

/// What one instruction does: the registers and memory after it, the cycles it
/// took, and whether it failed.
pub open spec fn step_spec(c: CPU, m: Seq<u8>) -> (CPU, Seq<u8>, u32, Result<(), ExecutionError>) {
    let operand = m[pc_plus(c.pc, 1) as int];
    let op = decode_spec(m[c.pc as int]);
    let cost = match instruction_spec(op) {
        Some(i) => i.cycles,
        None => 1,
    };
    match op {
        OpCode::LdaIm => (lda_spec(c, pc_plus(c.pc, 2), operand), m, cost, Ok(())),
        OpCode::LdaZp => (lda_spec(c, pc_plus(c.pc, 2), m[operand as int]), m, cost, Ok(())),
        OpCode::LdaZpX => (
            lda_spec(c, pc_plus(c.pc, 2), m[((operand + c.x) % 256) as int]),
            m,
            cost,
            Ok(()),
        ),
        OpCode::Jsr => {
            let target = word_spec(operand, m[pc_plus(c.pc, 2) as int]);
            if c.sp < 2 {
                (CPU { pc: pc_plus(c.pc, 3), ..c }, m, 4, Err(ExecutionError::StackOverflow))
            } else {
                // The return address is the program counter after the opcode
                // fetch, less one.
                let ret = pc_plus(pc_plus(c.pc, 1), -1);
                let m2 = m.update(STACK_PAGE + c.sp, (ret / 256) as u8).update(
                    STACK_PAGE + c.sp - 1,
                    (ret % 256) as u8,
                );
                (CPU { pc: target, sp: (c.sp - 2) as u8, ..c }, m2, cost, Ok(()))
            }
        },
        OpCode::Unimplemented(b) => (
            CPU { pc: pc_plus(c.pc, 1), ..c },
            m,
            cost,
            Err(ExecutionError::UnimplementedOpcode(b)),
        ),
    }
}

/// What `execute` does with a budget of `budget` cycles: the registers,
/// memory and budget after it, and how it ended.
pub open spec fn run(c: CPU, m: Seq<u8>, budget: u32) -> (
    CPU,
    Seq<u8>,
    u32,
    Result<(), ExecutionError>,
)
    decreases budget,
{
    if budget == 0 {
        (c, m, 0, Ok(()))
    } else {
        let (c2, m2, used, r) = step_spec(c, m);
        if used > budget {
            match r {
                Err(e) => (c2, m2, 0, Err(e)),
                Ok(()) => (c2, m2, 0, Err(ExecutionError::BudgetExhausted)),
            }
        } else {
            match r {
                Err(e) => (c2, m2, (budget - used) as u32, Err(e)),
                Ok(()) => run(c2, m2, (budget - used) as u32),
            }
        }
    }
}

impl CPU {
    /// A processor with the default configuration.
    pub fn new() -> (r: CPU)
        ensures
            r.pc == DEFAULT_RESET_ADDRESS,
            r.sp == DEFAULT_STACK_POINTER,
            r.a == 0,
            r.x == 0,
            r.y == 0,
            r.status.bits == 0,
    {
        CPU::with_config(CpuConfig::default())
    }

    /// A processor whose program counter and stack pointer come from `config`,
    /// with every other register and flag zero.
    pub fn with_config(config: CpuConfig) -> (r: CPU)
        ensures
            r.pc == config.reset_address,
            r.sp == config.initial_sp,
            r.a == 0,
            r.x == 0,
            r.y == 0,
            r.status.bits == 0,
    {
        CPU {
            sp: config.initial_sp,
            pc: config.reset_address,
            a: 0,
            x: 0,
            y: 0,
            status: ProcessorStatus::empty(),
        }
    }

    /// Reads the byte at the program counter and moves the counter on by one,
    /// charging one cycle to `used`.
    pub fn fetch(&mut self, used: &mut u32, memory: &Memory) -> (r: u8)
        requires
            memory.wf(),
            *old(used) < u32::MAX,
        ensures
            r == memory@[old(self).pc as int],
            *final(self) == (CPU { pc: pc_plus(old(self).pc, 1), ..*old(self) }),
            *final(used) == *old(used) + 1,
    {
        let data = memory.read(self.pc);
        self.pc = self.pc.wrapping_add(1);
        *used = *used + 1;
        data
    }

    /// Fetches two bytes, low byte first, and joins them into an address;
    /// joining them costs a cycle beyond the two fetches.
    pub fn fetch_word(&mut self, used: &mut u32, memory: &Memory) -> (r: u16)
        requires
            memory.wf(),
            *old(used) <= u32::MAX - 3,
        ensures
            r == word_spec(
                memory@[old(self).pc as int],
                memory@[pc_plus(old(self).pc, 1) as int],
            ),
            *final(self) == (CPU { pc: pc_plus(old(self).pc, 2), ..*old(self) }),
            *final(used) == *old(used) + 3,
    {
        let lo = self.fetch(used, memory);
        let hi = self.fetch(used, memory);
        let full_addr: u16 = (lo as u16) | ((hi as u16) << 8u16);
        assert(full_addr == lo + 256 * hi) by (bit_vector)
            requires
                full_addr == (lo as u16) | ((hi as u16) << 8u16),
        ;
        *used = *used + 1;
        proof {
            assert(pc_plus(pc_plus(old(self).pc, 1), 1) == pc_plus(old(self).pc, 2));
        }
        full_addr
    }

    /// Reads the byte at `addr`, charging one cycle.
    pub fn read(&self, addr: u16, used: &mut u32, memory: &Memory) -> (r: u8)
        requires
            memory.wf(),
            *old(used) < u32::MAX,
        ensures
            r == memory@[addr as int],
            *final(used) == *old(used) + 1,
    {
        *used = *used + 1;
        memory.read(addr)
    }

    /// Writes `value` at `addr`, charging one cycle.
    pub fn set(&self, addr: u16, value: u8, used: &mut u32, memory: &mut Memory)
        requires
            old(memory).wf(),
            *old(used) < u32::MAX,
        ensures
            final(memory).wf(),
            final(memory)@ == old(memory)@.update(addr as int, value),
            *final(used) == *old(used) + 1,
    {
        memory.store(addr, value);
        *used = *used + 1;
    }

    /// Recomputes Zero and Negative from the accumulator.
    pub fn set_lda_flags(&mut self)
        ensures
            *final(self) == (CPU { status: old(self).status.zero_negative(old(self).a), ..*old(self) }),
    {
        let a = self.a;
        self.status.recompute_zero_negative(a);
    }

    /// Loads `value` into the accumulator and recomputes the flags from it.
    fn load_accumulator(&mut self, value: u8)
        ensures
            *final(self) == lda_spec(*old(self), old(self).pc, value),
    {
        self.a = value;
        self.set_lda_flags();
    }

    /// Executes the instruction at the program counter, charging each cycle it
    /// takes to `used`.
    pub fn step(&mut self, used: &mut u32, memory: &mut Memory) -> (r: Result<(), ExecutionError>)
        requires
            old(memory).wf(),
            *old(used) == 0,
        ensures
            final(memory).wf(),
            (*final(self), final(memory)@, *final(used), r) == step_spec(*old(self), old(memory)@),
    {
        let opcode = self.fetch(used, memory);
        match OpCode::decode(opcode) {
            OpCode::LdaIm => {
                let value = self.fetch(used, memory);
                self.load_accumulator(value);
                Ok(())
            },
            OpCode::LdaZp => {
                let zp_addr = self.fetch(used, memory);
                let value = self.read(zp_addr as u16, used, memory);
                self.load_accumulator(value);
                Ok(())
            },
            OpCode::LdaZpX => {
                let zp_addr = self.fetch(used, memory);
                let zpx_addr = zp_addr.wrapping_add(self.x);
                *used = *used + 1;
                let value = self.read(zpx_addr as u16, used, memory);
                self.load_accumulator(value);
                Ok(())
            },
            OpCode::Jsr => {
                let return_address = self.pc.wrapping_sub(1);
                let target = self.fetch_word(used, memory);
                if self.sp < 2 {
                    return Err(ExecutionError::StackOverflow);
                }
                self.push(((return_address >> 8u16) as u8), used, memory);
                self.push((return_address as u8), used, memory);
                self.pc = target;
                proof {
                    assert((return_address >> 8u16) as u8 == (return_address / 256) as u8)
                        by (bit_vector);
                    assert(return_address as u8 == (return_address % 256) as u8) by (bit_vector);
                }
                Ok(())
            },
            OpCode::Unimplemented(b) => Err(ExecutionError::UnimplementedOpcode(b)),
        }
    }

    /// Writes `value` to the stack slot that the stack pointer names, then
    /// moves the stack pointer down one.
    fn push(&mut self, value: u8, used: &mut u32, memory: &mut Memory)
        requires
            old(memory).wf(),
            old(self).sp >= 1,
            *old(used) < u32::MAX,
        ensures
            final(memory).wf(),
            final(memory)@ == old(memory)@.update(STACK_PAGE + old(self).sp, value),
            *final(self) == (CPU { sp: (old(self).sp - 1) as u8, ..*old(self) }),
            *final(used) == *old(used) + 1,
    {
        let sp = self.sp;
        let addr: u16 = STACK_PAGE | (sp as u16);
        assert(addr == 0x0100u16 + sp) by (bit_vector)
            requires
                addr == 0x0100u16 | (sp as u16),
        ;
        self.set(addr, value, used, memory);
        self.sp = self.sp - 1;
    }

    /// Runs instructions while the budget lasts. Each instruction completes
    /// whole and its cycles are then taken from `cycles`; no opcode is fetched
    /// once `cycles` is zero. Returns `Ok` when the budget ran out exactly,
    /// `BudgetExhausted` when the last instruction needed more than was left
    /// (the budget then stands at zero), and the instruction's own error when
    /// one fails.
    pub fn execute(&mut self, cycles: &mut u32, memory: &mut Memory) -> (r: Result<(), ExecutionError>)
        requires
            old(memory).wf(),
        ensures
            final(memory).wf(),
            (*final(self), final(memory)@, *final(cycles), r) == run(
                *old(self),
                old(memory)@,
                *old(cycles),
            ),
    {
        while *cycles > 0
            invariant
                memory.wf(),
                run(*self, memory@, *cycles) == run(*old(self), old(memory)@, *old(cycles)),
            decreases *cycles,
        {
            let mut used: u32 = 0;
            let outcome = self.step(&mut used, memory);
            if used > *cycles {
                *cycles = 0;
                return match outcome {
                    Err(e) => Err(e),
                    Ok(()) => Err(ExecutionError::BudgetExhausted),
                };
            }
            *cycles = *cycles - used;
            if let Err(e) = outcome {
                return Err(e);
            }
        }
        Ok(())
    }
}

/// LDA Immediate takes exactly two cycles and loads the byte after the opcode:
/// with a budget of two the run ends cleanly with that byte in the accumulator
/// and the program counter past the operand.
pub proof fn lemma_lda_immediate(c: CPU, m: Seq<u8>)
    requires
        m.len() == 0x10000,
        m[c.pc as int] == 0xA9,
    ensures
        run(c, m, 2) == (lda_spec(c, pc_plus(c.pc, 2), m[pc_plus(c.pc, 1) as int]), m, 0u32, Ok::<(), ExecutionError>(())),
{
    reveal_with_fuel(run, 2);
}

/// LDA Zero Page takes exactly three cycles and loads the byte at the zero
/// page address that its operand names.
pub proof fn lemma_lda_zero_page(c: CPU, m: Seq<u8>)
    requires
        m.len() == 0x10000,
        m[c.pc as int] == 0xA5,
    ensures
        run(c, m, 3) == (
            lda_spec(c, pc_plus(c.pc, 2), m[m[pc_plus(c.pc, 1) as int] as int]),
            m,
            0u32,
            Ok::<(), ExecutionError>(()),
        ),
{
    reveal_with_fuel(run, 2);
}

/// LDA Zero Page,X takes exactly four cycles and loads the byte at the operand
/// plus X, wrapped within the zero page.
pub proof fn lemma_lda_zero_page_x(c: CPU, m: Seq<u8>)
    requires
        m.len() == 0x10000,
        m[c.pc as int] == 0xB5,
    ensures
        run(c, m, 4) == (
            lda_spec(c, pc_plus(c.pc, 2), m[((m[pc_plus(c.pc, 1) as int] + c.x) % 256) as int]),
            m,
            0u32,
            Ok::<(), ExecutionError>(()),
        ),
{
    reveal_with_fuel(run, 2);
}

/// JSR takes exactly six cycles: it pushes the program counter after the
/// opcode fetch, less one, high byte first, and jumps to the little-endian
/// address in its operand.
pub proof fn lemma_jsr(c: CPU, m: Seq<u8>)
    requires
        m.len() == 0x10000,
        m[c.pc as int] == 0x20,
        c.sp >= 2,
    ensures
        ({
            let ret = pc_plus(pc_plus(c.pc, 1), -1);
            run(c, m, 6) == (
                CPU {
                    pc: word_spec(m[pc_plus(c.pc, 1) as int], m[pc_plus(c.pc, 2) as int]),
                    sp: (c.sp - 2) as u8,
                    ..c
                },
                m.update(STACK_PAGE + c.sp, (ret / 256) as u8).update(
                    STACK_PAGE + c.sp - 1,
                    (ret % 256) as u8,
                ),
                0u32,
                Ok::<(), ExecutionError>(()),
            )
        }),
{
    reveal_with_fuel(run, 2);
}

/// Every LDA assigns both Zero and Negative from the value it loads: after it,
/// Zero holds exactly when the accumulator is 0 and Negative exactly when bit 7
/// of the accumulator is 1, whatever the flags were before.
pub proof fn lemma_lda_flags(c: CPU, m: Seq<u8>)
    requires
        m.len() == 0x10000,
        decode_spec(m[c.pc as int]) is LdaIm || decode_spec(m[c.pc as int]) is LdaZp
            || decode_spec(m[c.pc as int]) is LdaZpX,
    ensures
        step_spec(c, m).0.status.has(Flag::Zero) == (step_spec(c, m).0.a == 0),
        step_spec(c, m).0.status.has(Flag::Negative) == (step_spec(c, m).0.a >= 0x80),
{
    let v = step_spec(c, m).0.a;
    lemma_zero_negative(c.status, v);
}

/// A run never fetches an opcode once its budget is zero, and never takes the
/// budget below zero: with no budget nothing changes, and a run that no
/// instruction stopped ends with the budget at exactly zero.
pub proof fn lemma_budget_bounds_run(c: CPU, m: Seq<u8>, budget: u32)
    ensures
        run(c, m, 0) == (c, m, 0u32, Ok::<(), ExecutionError>(())),
        run(c, m, budget).3 is Ok || run(c, m, budget).3 == Err::<(), ExecutionError>(
            ExecutionError::BudgetExhausted,
        ) ==> run(c, m, budget).2 == 0,
        run(c, m, budget).2 <= budget,
    decreases budget,
{
    if budget > 0 {
        let (c2, m2, used, r) = step_spec(c, m);
        if used <= budget && r is Ok {
            lemma_budget_bounds_run(c2, m2, (budget - used) as u32);
        }
    }
}

} // verus!
