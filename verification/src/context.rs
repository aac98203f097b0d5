use vstd::prelude::*;

use crate::inst::Instruction;

verus! {

/// The transient state of a single call: the program counter and a
/// read-only view of the active function's instruction stream.  The
/// engine creates one per call and drops it when the call ends.
pub struct ExecutionContext<'a> {
    /// Index of the next instruction to fetch.
    pub pc: usize,
    /// The active function's instructions.
    pub insts: &'a [Instruction],
}

impl<'a> ExecutionContext<'a> {
    /// Fetches the instruction at the program counter and advances past it.
    pub fn next_instruction(&mut self) -> (inst: Instruction)
        requires
            old(self).pc < old(self).insts@.len(),
        ensures
            inst == old(self).insts@[old(self).pc as int],
            final(self).insts@ == old(self).insts@,
            final(self).pc == old(self).pc + 1,
    {
        let inst = self.insts[self.pc];
        self.pc = self.pc + 1;
        inst
    }

    /// Redirects execution to the given instruction index.
    pub fn update_pc(&mut self, new_pc: usize)
        ensures
            final(self).insts@ == old(self).insts@,
            final(self).pc == new_pc,
    {
        self.pc = new_pc;
    }

    /// The current program counter.
    pub fn pc(&self) -> (r: usize)
        ensures
            r == self.pc,
    {
        self.pc
    }
}

} // verus!
