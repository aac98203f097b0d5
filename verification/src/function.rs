use vstd::prelude::*;

use crate::inst::Instruction;

verus! {

/// An immutable function: an instruction stream addressed by 0-based
/// index, together with declared parameter, result and local counts.
/// `len_locals` is declared but unused by the current opcode set.
///
/// The stream is expected to end in a terminal opcode; the core does
/// not verify this, and the contracts of execution exclude malformed
/// programs instead.
#[derive(Debug)]
pub struct Function {
    pub instructions: Vec<Instruction>,
    pub len_params: usize,
    pub len_results: usize,
    pub len_locals: usize,
}

impl Function {
    /// Starts a builder for a function with the given arities.
    pub fn build(len_params: usize, len_results: usize, len_locals: usize) -> (r: FunctionBuilder)
        ensures
            r.function.instructions@ == Seq::<Instruction>::empty(),
            r.function.len_params == len_params,
            r.function.len_results == len_results,
            r.function.len_locals == len_locals,
    {
        FunctionBuilder {
            function: Function {
                instructions: Vec::new(),
                len_params,
                len_results,
                len_locals,
            },
        }
    }
}

/// Accumulates instructions in order and finalizes to an immutable
/// [`Function`].
#[derive(Debug)]
pub struct FunctionBuilder {
    pub function: Function,
}

impl FunctionBuilder {
    /// Appends one instruction.
    pub fn push_inst(self, inst: Instruction) -> (r: Self)
        ensures
            r.function.instructions@ == self.function.instructions@.push(inst),
            r.function.len_params == self.function.len_params,
            r.function.len_results == self.function.len_results,
            r.function.len_locals == self.function.len_locals,
    {
        let mut builder = self;
        builder.function.instructions.push(inst);
        builder
    }

    /// Finalizes the accumulated function.
    pub fn finish(self) -> (r: Function)
        ensures
            r == self.function,
    {
        self.function
    }
}

} // verus!
