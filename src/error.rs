//! What can stop a run of the engine.

use vstd::prelude::*;

verus! {

/// Why `CPU::execute` stopped short of an ordinary end of its budget, or why a
/// memory access was refused.
#[derive(Clone, Copy, Debug, PartialEq, Eq, Structural)]
pub enum ExecutionError {
    /// A memory index beyond the 64 KiB address space.
    OutOfBoundsAddress(usize),
    /// The last instruction needed more cycles than the budget had left. It
    /// still completed; the budget stands at zero.
    BudgetExhausted,
    /// A push would take the stack pointer below zero.
    StackOverflow,
    /// A pull would take the stack pointer above the top of its page.
    StackUnderflow,
    /// The opcode byte has no handler.
    UnimplementedOpcode(u8),
}

} // verus!
