use vstd::prelude::*;

use crate::context::ExecutionContext;
use crate::error::Trap;
use crate::inst::Instruction;
use crate::inst::Op;
use crate::register::Register;
use crate::semantics::MachineState;
use crate::semantics::add_words;
use crate::semantics::branch_target;
use crate::semantics::mul_words;
use crate::semantics::step;
use crate::semantics::sub_words;
use crate::value_stack::STACK_CAPACITY;
use crate::value_stack::ValueStack;

verus! {

/// What an opcode body asks the dispatch loop to do next: carry a fresh
/// register to the following instruction, or stop because a terminal
/// opcode ended the run normally.
#[derive(Debug, Copy, Clone, PartialEq, Eq, Structural)]
pub enum Flow {
    /// Fetch the next instruction and hand it this carried register.
    Continue(Register),
    /// The run returned normally; the results stand on the stack.
    Return,
}

/// `ret`: pushes the carried register as the last result and ends the
/// run normally; a full stack traps instead of being written past.
pub fn ret(
    _ctx: &mut ExecutionContext,
    stack: &mut ValueStack,
    reg: Register,
    _aux: Register,
) -> (r: Result<Flow, Trap>)
    ensures
        final(_ctx).pc == old(_ctx).pc,
        final(_ctx).insts@ == old(_ctx).insts@,
        old(stack)@.len() < STACK_CAPACITY ==> r == Ok::<Flow, Trap>(Flow::Return)
            && final(stack)@ == old(stack)@.push(reg@),
        old(stack)@.len() >= STACK_CAPACITY ==> r == Err::<Flow, Trap>(Trap::StackOverflow) && final(stack)@
            == old(stack)@,
{
    if stack.len() < STACK_CAPACITY {
        stack.push(reg);
        Ok(Flow::Return)
    } else {
        Err(Trap::StackOverflow)
    }
}

/// `ret_drop`: ends the run normally, discarding the carried register.
pub fn ret_drop(
    _ctx: &mut ExecutionContext,
    _stack: &mut ValueStack,
    _reg: Register,
    _aux: Register,
) -> (r: Result<Flow, Trap>)
    ensures
        final(_ctx).pc == old(_ctx).pc,
        final(_ctx).insts@ == old(_ctx).insts@,
        final(_stack)@ == old(_stack)@,
        r == Ok::<Flow, Trap>(Flow::Return),
{
    Ok(Flow::Return)
}

/// `unreachable`: traps unconditionally, whatever the stack holds.
pub fn unreachable(
    _ctx: &mut ExecutionContext,
    _stack: &mut ValueStack,
    _reg: Register,
    _aux: Register,
) -> (r: Result<Flow, Trap>)
    ensures
        final(_ctx).pc == old(_ctx).pc,
        final(_ctx).insts@ == old(_ctx).insts@,
        final(_stack)@ == old(_stack)@,
        r == Err::<Flow, Trap>(Trap::Unreachable),
{
    Err(Trap::Unreachable)
}

/// `drop`: discards the carried register and reloads it by popping the
/// stack.
pub fn drop(
    _ctx: &mut ExecutionContext,
    stack: &mut ValueStack,
    _reg: Register,
    _aux: Register,
) -> (r: Result<Flow, Trap>)
    requires
        old(stack)@.len() > 0,
    ensures
        final(_ctx).pc == old(_ctx).pc,
        final(_ctx).insts@ == old(_ctx).insts@,
        final(stack)@ == old(stack)@.drop_last(),
        r matches Ok(f) && f matches Flow::Continue(c) && c@ == old(stack)@.last(),
{
    let popped = stack.pop();
    Ok(Flow::Continue(popped))
}

/// `dup`: pushes a copy of the carried register, which stays carried; a
/// full stack traps.
pub fn dup(
    _ctx: &mut ExecutionContext,
    stack: &mut ValueStack,
    reg: Register,
    _aux: Register,
) -> (r: Result<Flow, Trap>)
    ensures
        final(_ctx).pc == old(_ctx).pc,
        final(_ctx).insts@ == old(_ctx).insts@,
        old(stack)@.len() < STACK_CAPACITY ==> r == Ok::<Flow, Trap>(Flow::Continue(reg)) && final(stack)@
            == old(stack)@.push(reg@),
        old(stack)@.len() >= STACK_CAPACITY ==> r == Err::<Flow, Trap>(Trap::StackOverflow) && final(stack)@
            == old(stack)@,
{
    if stack.len() < STACK_CAPACITY {
        stack.push(reg);
        Ok(Flow::Continue(reg))
    } else {
        Err(Trap::StackOverflow)
    }
}

/// `i32_add`: pops the left operand, adds the carried register with
/// 32-bit wrap-around, and carries the sum.
pub fn i32_add(
    _ctx: &mut ExecutionContext,
    stack: &mut ValueStack,
    reg: Register,
    _aux: Register,
) -> (r: Result<Flow, Trap>)
    requires
        old(stack)@.len() > 0,
    ensures
        final(_ctx).pc == old(_ctx).pc,
        final(_ctx).insts@ == old(_ctx).insts@,
        final(stack)@ == old(stack)@.drop_last(),
        r matches Ok(f) && f matches Flow::Continue(c) && c@ == add_words(
            old(stack)@.last(),
            reg@,
        ),
{
    let lhs: i32 = stack.pop_as();
    let rhs: i32 = i32::from(reg);
    let result = lhs.wrapping_add(rhs);
    Ok(Flow::Continue(Register::from(result)))
}

/// `i32_sub`: pops the left operand, subtracts the carried register with
/// 32-bit wrap-around, and carries the difference.
pub fn i32_sub(
    _ctx: &mut ExecutionContext,
    stack: &mut ValueStack,
    reg: Register,
    _aux: Register,
) -> (r: Result<Flow, Trap>)
    requires
        old(stack)@.len() > 0,
    ensures
        final(_ctx).pc == old(_ctx).pc,
        final(_ctx).insts@ == old(_ctx).insts@,
        final(stack)@ == old(stack)@.drop_last(),
        r matches Ok(f) && f matches Flow::Continue(c) && c@ == sub_words(
            old(stack)@.last(),
            reg@,
        ),
{
    let lhs: i32 = stack.pop_as();
    let rhs: i32 = i32::from(reg);
    let result = lhs.wrapping_sub(rhs);
    Ok(Flow::Continue(Register::from(result)))
}

/// `i32_mul`: pops the left operand, multiplies by the carried register
/// with 32-bit wrap-around, and carries the product.
pub fn i32_mul(
    _ctx: &mut ExecutionContext,
    stack: &mut ValueStack,
    reg: Register,
    _aux: Register,
) -> (r: Result<Flow, Trap>)
    requires
        old(stack)@.len() > 0,
    ensures
        final(_ctx).pc == old(_ctx).pc,
        final(_ctx).insts@ == old(_ctx).insts@,
        final(stack)@ == old(stack)@.drop_last(),
        r matches Ok(f) && f matches Flow::Continue(c) && c@ == mul_words(
            old(stack)@.last(),
            reg@,
        ),
{
    let lhs: i32 = stack.pop_as();
    let rhs: i32 = i32::from(reg);
    let result = lhs.wrapping_mul(rhs);
    Ok(Flow::Continue(Register::from(result)))
}

/// `i32_const`: pushes the previously carried register and carries the
/// immediate, so that the carried register stays the conceptual top of
/// stack; a full stack traps.
pub fn i32_const(
    _ctx: &mut ExecutionContext,
    stack: &mut ValueStack,
    reg: Register,
    aux: Register,
) -> (r: Result<Flow, Trap>)
    ensures
        final(_ctx).pc == old(_ctx).pc,
        final(_ctx).insts@ == old(_ctx).insts@,
        old(stack)@.len() < STACK_CAPACITY ==> r == Ok::<Flow, Trap>(Flow::Continue(aux)) && final(stack)@
            == old(stack)@.push(reg@),
        old(stack)@.len() >= STACK_CAPACITY ==> r == Err::<Flow, Trap>(Trap::StackOverflow) && final(stack)@
            == old(stack)@,
{
    if stack.len() < STACK_CAPACITY {
        stack.push(reg);
        Ok(Flow::Continue(aux))
    } else {
        Err(Trap::StackOverflow)
    }
}

/// `br_eqz`: tests the carried register against the all-zero word.  A
/// nonzero register redirects execution to the instruction index in the
/// immediate; a zero register skips the instruction after the branch.
/// Either way the branch consumes its test and carries a fresh register
/// popped from the stack.
pub fn br_eqz(
    ctx: &mut ExecutionContext,
    stack: &mut ValueStack,
    reg: Register,
    aux: Register,
) -> (r: Result<Flow, Trap>)
    requires
        old(stack)@.len() > 0,
        old(ctx).pc < usize::MAX,
    ensures
        final(ctx).insts@ == old(ctx).insts@,
        final(ctx).pc == if reg@ == 0 {
            old(ctx).pc + 1
        } else {
            branch_target(aux@)
        },
        final(stack)@ == old(stack)@.drop_last(),
        r matches Ok(f) && f matches Flow::Continue(c) && c@ == old(stack)@.last(),
{
    let target: usize = if reg == Register::default() {
        ctx.pc() + 1
    } else {
        let encoded: i32 = i32::from(aux);
        #[verifier::truncate]
        (encoded as usize)
    };
    ctx.update_pc(target);
    let fresh = stack.pop();
    Ok(Flow::Continue(fresh))
}

impl Instruction {
    /// Runs this instruction's operation body once.  The instruction has
    /// just been fetched, so the context's program counter stands one
    /// past this instruction's index; the effect on the context, the
    /// stack and the carried register is exactly one [`step`] of the
    /// machine.
    pub fn execute(
        self,
        ctx: &mut ExecutionContext,
        stack: &mut ValueStack,
        reg: Register,
    ) -> (r: Result<Flow, Trap>)
        requires
            1 <= old(ctx).pc <= old(ctx).insts@.len(),
            old(ctx).insts@.len() < usize::MAX,
            old(ctx).insts@[old(ctx).pc - 1] == self,
            !(step(
                old(ctx).insts@,
                (MachineState::Executing { pc: old(ctx).pc - 1, stack: old(stack)@, reg: reg@ }),
            ) is Stuck),
        ensures
            final(ctx).insts@ == old(ctx).insts@,
            ({
                let s1 = step(
                    old(ctx).insts@,
                    (MachineState::Executing {
                        pc: old(ctx).pc - 1,
                        stack: old(stack)@,
                        reg: reg@,
                    }),
                );
                &&& (s1 matches MachineState::Executing { pc, stack: st, reg: rg } ==> (
                r matches Ok(f) && f matches Flow::Continue(c) && c@ == rg) && final(stack)@ == st
                    && final(ctx).pc == pc)
                &&& (s1 matches MachineState::Returned { stack: st } ==> r == Ok::<Flow, Trap>(Flow::Return)
                    && final(stack)@ == st)
                &&& (s1 matches MachineState::Trapped { trap } ==> r == Err::<Flow, Trap>(trap)
                    && final(stack)@ == old(stack)@)
            }),
    {
        match self.op {
            Op::Ret => ret(ctx, stack, reg, self.aux),
            Op::RetDrop => ret_drop(ctx, stack, reg, self.aux),
            Op::Unreachable => unreachable(ctx, stack, reg, self.aux),
            Op::DropTop => drop(ctx, stack, reg, self.aux),
            Op::Dup => dup(ctx, stack, reg, self.aux),
            Op::I32Add => i32_add(ctx, stack, reg, self.aux),
            Op::I32Sub => i32_sub(ctx, stack, reg, self.aux),
            Op::I32Mul => i32_mul(ctx, stack, reg, self.aux),
            Op::I32Const => i32_const(ctx, stack, reg, self.aux),
            Op::BrEqz => br_eqz(ctx, stack, reg, self.aux),
        }
    }
}

} // verus!
