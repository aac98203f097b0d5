use vstd::prelude::*;

use crate::register::Register;

verus! {

/// The dispatchable operation of an instruction, one identifier per
/// opcode of the closed set.
#[derive(Debug, Copy, Clone, PartialEq, Eq, Structural)]
pub enum Op {
    /// Push the carried register and end execution normally.
    Ret,
    /// End execution normally, discarding the carried register.
    RetDrop,
    /// Trap unconditionally.
    Unreachable,
    /// Discard the carried register and reload it by popping the stack.
    DropTop,
    /// Push a copy of the carried register.
    Dup,
    /// Pop the left operand and add the carried register, wrapping at 32 bits.
    I32Add,
    /// Pop the left operand and subtract the carried register, wrapping at 32 bits.
    I32Sub,
    /// Pop the left operand and multiply by the carried register, wrapping at 32 bits.
    I32Mul,
    /// Push the carried register and make the immediate the new carried register.
    I32Const,
    /// Pop a fresh carried register; jump to the immediate when the old
    /// carried register was nonzero, skip one instruction when it was zero.
    BrEqz,
}

/// A compact instruction: an operation together with a register-sized
/// immediate, zero whenever the opcode takes none.  Instructions are
/// copyable values without identity.
#[derive(Debug, Copy, Clone, PartialEq, Eq, Structural)]
pub struct Instruction {
    pub op: Op,
    pub aux: Register,
}

impl Instruction {
    /// An instruction whose opcode takes no immediate.
    pub fn from_op(op: Op) -> (r: Self)
        ensures
            r.op == op,
            r.aux@ == 0,
    {
        Instruction { op, aux: Register::default() }
    }

    /// An instruction carrying an immediate.
    pub fn new(op: Op, aux: Register) -> (r: Self)
        ensures
            r.op == op,
            r.aux == aux,
    {
        Instruction { op, aux }
    }

    pub fn ret() -> (r: Self)
        ensures
            r.op == Op::Ret,
            r.aux@ == 0,
    {
        Self::from_op(Op::Ret)
    }

    pub fn ret_drop() -> (r: Self)
        ensures
            r.op == Op::RetDrop,
            r.aux@ == 0,
    {
        Self::from_op(Op::RetDrop)
    }

    pub fn unreachable() -> (r: Self)
        ensures
            r.op == Op::Unreachable,
            r.aux@ == 0,
    {
        Self::from_op(Op::Unreachable)
    }

    pub fn drop() -> (r: Self)
        ensures
            r.op == Op::DropTop,
            r.aux@ == 0,
    {
        Self::from_op(Op::DropTop)
    }

    pub fn dup() -> (r: Self)
        ensures
            r.op == Op::Dup,
            r.aux@ == 0,
    {
        Self::from_op(Op::Dup)
    }

    pub fn i32_add() -> (r: Self)
        ensures
            r.op == Op::I32Add,
            r.aux@ == 0,
    {
        Self::from_op(Op::I32Add)
    }

    pub fn i32_sub() -> (r: Self)
        ensures
            r.op == Op::I32Sub,
            r.aux@ == 0,
    {
        Self::from_op(Op::I32Sub)
    }

    pub fn i32_mul() -> (r: Self)
        ensures
            r.op == Op::I32Mul,
            r.aux@ == 0,
    {
        Self::from_op(Op::I32Mul)
    }

    /// The constant instruction: its immediate is the sign-extended value.
    pub fn i32_const(value: i32) -> (r: Self)
        ensures
            r.op == Op::I32Const,
            r.aux@ == value as u64,
    {
        Self::new(Op::I32Const, Register::from(value))
    }

    /// The conditional branch: its immediate is the target instruction index.
    pub fn br_eqz(target: u32) -> (r: Self)
        ensures
            r.op == Op::BrEqz,
            r.aux@ == (target as i32) as u64,
    {
        let imm: i32 = #[verifier::truncate] (target as i32);
        Self::new(Op::BrEqz, Register::from(imm))
    }
}

} // verus!
