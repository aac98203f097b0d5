//! A minimal stack-based bytecode virtual machine.
//!
//! Functions are immutable sequences of instructions over a small
//! arithmetic and control opcode set.  An [`Engine`] owns registered
//! functions together with a reusable bounded value stack, executes a
//! function on caller-supplied parameters, and either copies the final
//! stack contents into a result buffer or reports a [`Trap`].
//!
//! Dispatch carries the conceptual top of stack in a register threaded
//! from each instruction to its successor, so that the common case never
//! touches the stack memory.  The meaning of every instruction, and of a
//! whole run, is given by the small-step machine in [`semantics`], and
//! the interpreter is verified against it.

mod context;
mod engine;
mod error;
mod function;
mod inst;
pub mod laws;
pub mod ops;
mod register;
pub mod semantics;
mod value_stack;

pub use context::ExecutionContext;
pub use engine::Engine;
pub use engine::Func;
pub use engine::execute_next_instruction;
pub use engine::execute_next_instruction_at;
pub use error::Trap;
pub use function::Function;
pub use function::FunctionBuilder;
pub use inst::Instruction;
pub use inst::Op;
pub use ops::Flow;
pub use ops::br_eqz;
pub use ops::drop;
pub use ops::dup;
pub use ops::i32_add;
pub use ops::i32_const;
pub use ops::i32_mul;
pub use ops::i32_sub;
pub use ops::ret;
pub use ops::ret_drop;
pub use register::Register;
pub use value_stack::STACK_CAPACITY;
pub use value_stack::ValueStack;

use vstd::prelude::*;

verus! {

/// Builds the counter-loop reference program: a function that takes one
/// parameter `n` and counts it down to zero before returning without
/// results.  The branch at index 4 sends a nonzero counter back to the
/// loop head at index 1 and skips to the tear-down at index 6 once the
/// counter reaches zero.
pub fn counter_loop() -> (r: Function)
    ensures
        r.len_params == 1,
        r.len_results == 0,
        r.len_locals == 0,
        laws::is_counter_program(r.instructions@),
{
    Function::build(1, 0, 0)
        .push_inst(Instruction::dup())
        .push_inst(Instruction::i32_const(1))
        .push_inst(Instruction::i32_sub())
        .push_inst(Instruction::dup())
        .push_inst(Instruction::br_eqz(1))
        .push_inst(Instruction::drop())
        .push_inst(Instruction::drop())
        .push_inst(Instruction::ret_drop())
        .finish()
}

/// Builds the add–mul reference program: a function that takes two
/// parameters `a` and `b` and returns `(a + b) * (a + b)` with 32-bit
/// wrap-around.
pub fn add_mul() -> (r: Function)
    ensures
        r.len_params == 2,
        r.len_results == 1,
        r.len_locals == 0,
        laws::is_add_mul_program(r.instructions@),
{
    Function::build(2, 1, 0)
        .push_inst(Instruction::i32_add())
        .push_inst(Instruction::dup())
        .push_inst(Instruction::i32_mul())
        .push_inst(Instruction::ret())
        .finish()
}

} // verus!
