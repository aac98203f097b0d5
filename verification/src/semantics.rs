use vstd::prelude::*;

use crate::error::Trap;
use crate::inst::Instruction;
use crate::inst::Op;
use crate::register::Register;
use crate::value_stack::STACK_CAPACITY;

verus! {

/// The state of a single execution of the machine.
///
/// Execution starts in `Executing` with the program counter at zero and
/// moves under [`step`] until it reaches a terminal state: `Returned`
/// for a normal return, `Trapped` for a reported failure.  `Stuck`
/// stands for the undefined behaviour of a malformed program — reading
/// past the end of the instruction stream or popping an empty stack —
/// and is excluded by the contracts of the interpreter.
pub enum MachineState {
    /// About to execute the instruction at `pc`, with the live stack
    /// contents (bottom first) and the carried register.
    Executing { pc: int, stack: Seq<u64>, reg: u64 },
    /// Execution ended normally, leaving these stack contents.
    Returned { stack: Seq<u64> },
    /// Execution ended with the given trap.
    Trapped { trap: Trap },
    /// The machine read outside the program or popped an empty stack.
    Stuck,
}

/// The words of a sequence of registers.
pub open spec fn word_seq(regs: Seq<Register>) -> Seq<u64> {
    regs.map_values(|r: Register| r@)
}

/// 32-bit wrapping addition on words: both operands are read as `i32`,
/// the wrapped sum is sign-extended back to a word.
pub open spec fn add_words(lhs: u64, rhs: u64) -> u64 {
    (lhs as i32).wrapping_add(rhs as i32) as u64
}

/// 32-bit wrapping subtraction on words.
pub open spec fn sub_words(lhs: u64, rhs: u64) -> u64 {
    (lhs as i32).wrapping_sub(rhs as i32) as u64
}

/// 32-bit wrapping multiplication on words.
pub open spec fn mul_words(lhs: u64, rhs: u64) -> u64 {
    (lhs as i32).wrapping_mul(rhs as i32) as u64
}

/// The instruction index encoded in a branch immediate: the low 32 bits
/// of the word, read as a signed integer and converted to an index.
pub open spec fn branch_target(aux: u64) -> int {
    ((aux as i32) as usize) as int
}

/// One step of the machine: the meaning of the instruction at `pc`.
///
/// Every non-terminal opcode moves to the next `Executing` state; `ret`
/// and `ret_drop` end in `Returned`; `unreachable` ends in `Trapped`.
/// A push onto a full stack ends in `Trapped { StackOverflow }`.  The
/// conditional branch tests the carried register against the all-zero
/// word: a nonzero register jumps to the encoded target, a zero register
/// skips the instruction after the branch; either way the branch
/// consumes a fresh carried register from the stack.  Terminal states
/// step to themselves, and a malformed access gets `Stuck`.
pub open spec fn step(prog: Seq<Instruction>, s: MachineState) -> MachineState {
    match s {
        MachineState::Executing { pc, stack, reg } => {
            if !(0 <= pc < prog.len()) {
                MachineState::Stuck
            } else {
                let inst = prog[pc];
                match inst.op {
                    Op::Ret => {
                        if stack.len() < STACK_CAPACITY {
                            MachineState::Returned { stack: stack.push(reg) }
                        } else {
                            MachineState::Trapped { trap: Trap::StackOverflow }
                        }
                    },
                    Op::RetDrop => MachineState::Returned { stack },
                    Op::Unreachable => MachineState::Trapped { trap: Trap::Unreachable },
                    Op::DropTop => {
                        if stack.len() == 0 {
                            MachineState::Stuck
                        } else {
                            MachineState::Executing {
                                pc: pc + 1,
                                stack: stack.drop_last(),
                                reg: stack.last(),
                            }
                        }
                    },
                    Op::Dup => {
                        if stack.len() < STACK_CAPACITY {
                            MachineState::Executing { pc: pc + 1, stack: stack.push(reg), reg }
                        } else {
                            MachineState::Trapped { trap: Trap::StackOverflow }
                        }
                    },
                    Op::I32Add => {
                        if stack.len() == 0 {
                            MachineState::Stuck
                        } else {
                            MachineState::Executing {
                                pc: pc + 1,
                                stack: stack.drop_last(),
                                reg: add_words(stack.last(), reg),
                            }
                        }
                    },
                    Op::I32Sub => {
                        if stack.len() == 0 {
                            MachineState::Stuck
                        } else {
                            MachineState::Executing {
                                pc: pc + 1,
                                stack: stack.drop_last(),
                                reg: sub_words(stack.last(), reg),
                            }
                        }
                    },
                    Op::I32Mul => {
                        if stack.len() == 0 {
                            MachineState::Stuck
                        } else {
                            MachineState::Executing {
                                pc: pc + 1,
                                stack: stack.drop_last(),
                                reg: mul_words(stack.last(), reg),
                            }
                        }
                    },
                    Op::I32Const => {
                        if stack.len() < STACK_CAPACITY {
                            MachineState::Executing {
                                pc: pc + 1,
                                stack: stack.push(reg),
                                reg: inst.aux@,
                            }
                        } else {
                            MachineState::Trapped { trap: Trap::StackOverflow }
                        }
                    },
                    Op::BrEqz => {
                        if stack.len() == 0 {
                            MachineState::Stuck
                        } else {
                            MachineState::Executing {
                                pc: if reg == 0 {
                                    pc + 2
                                } else {
                                    branch_target(inst.aux@)
                                },
                                stack: stack.drop_last(),
                                reg: stack.last(),
                            }
                        }
                    },
                }
            }
        },
        _ => s,
    }
}

/// `n` steps of the machine.
pub open spec fn steps(prog: Seq<Instruction>, s: MachineState, n: nat) -> MachineState
    decreases n,
{
    if n == 0 {
        s
    } else {
        steps(prog, step(prog, s), (n - 1) as nat)
    }
}

/// A state in which execution has ended and been reported: a normal
/// return or a trap, but not the undefined `Stuck`.
pub open spec fn is_halted(s: MachineState) -> bool {
    s is Returned || s is Trapped
}

/// The state a call starts in: the parameters stand on the stack except
/// for the last one, which is pre-consumed into the carried register;
/// without parameters the carried register is the all-zero word.
pub open spec fn init_state(params: Seq<u64>) -> MachineState {
    if params.len() == 0 {
        MachineState::Executing { pc: 0, stack: Seq::empty(), reg: 0 }
    } else {
        MachineState::Executing { pc: 0, stack: params.drop_last(), reg: params.last() }
    }
}

/// Some number of steps from `s` reaches a halted state.
pub open spec fn halts_from(prog: Seq<Instruction>, s: MachineState) -> bool {
    exists|n: nat| is_halted(steps(prog, s, n))
}

/// The halted state a run from `s` reaches.  Meaningful only under
/// [`halts_from`]; unique by [`lemma_outcome_unique`].
pub open spec fn outcome_from(prog: Seq<Instruction>, s: MachineState) -> MachineState {
    steps(prog, s, choose|n: nat| is_halted(steps(prog, s, n)))
}

/// The run of `prog` on `params` reaches a halted state.
pub open spec fn halts(prog: Seq<Instruction>, params: Seq<u64>) -> bool {
    halts_from(prog, init_state(params))
}

/// The halted state the run of `prog` on `params` reaches.
pub open spec fn outcome(prog: Seq<Instruction>, params: Seq<u64>) -> MachineState {
    outcome_from(prog, init_state(params))
}

/// A call the engine may make: the program and the parameters respect
/// the machine limits, the run halts rather than getting stuck, and a
/// normal return leaves exactly the declared number of results.
pub open spec fn executes_cleanly(
    prog: Seq<Instruction>,
    params: Seq<u64>,
    n_results: int,
) -> bool {
    &&& prog.len() < usize::MAX
    &&& params.len() <= STACK_CAPACITY
    &&& halts(prog, params)
    &&& (outcome(prog, params) matches MachineState::Returned { stack } ==> stack.len()
        == n_results)
}

/// A state that is not executing never changes again.
pub proof fn lemma_settled(prog: Seq<Instruction>, s: MachineState, n: nat)
    requires
        !(s is Executing),
    ensures
        steps(prog, s, n) == s,
    decreases n,
{
    if n > 0 {
        assert(step(prog, s) == s);
        lemma_settled(prog, step(prog, s), (n - 1) as nat);
    }
}

/// Running `m + n` steps is running `m` steps, then `n` more.
pub proof fn lemma_steps_add(prog: Seq<Instruction>, s: MachineState, m: nat, n: nat)
    ensures
        steps(prog, s, m + n) == steps(prog, steps(prog, s, m), n),
    decreases m,
{
    if m > 0 {
        lemma_steps_add(prog, step(prog, s), (m - 1) as nat, n);
        assert((m + n - 1) as nat == (m - 1) as nat + n);
    }
}

/// One more step at the end of a run.
pub proof fn lemma_steps_succ(prog: Seq<Instruction>, s: MachineState, n: nat)
    ensures
        steps(prog, s, n + 1) == step(prog, steps(prog, s, n)),
{
    let t = steps(prog, s, n);
    lemma_steps_add(prog, s, n, 1);
    assert(steps(prog, t, 1) == steps(prog, step(prog, t), 0));
}

/// Sign extension into a word and truncation back round-trip.
pub proof fn lemma_word_roundtrip(v: i32)
    ensures
        ((v as u64) as i32) == v,
{
    assert(((v as u64) as i32) == v) by (bit_vector);
}

/// A sign-extended word is the all-zero word exactly when the value is
/// zero.
pub proof fn lemma_word_zero(v: i32)
    ensures
        (v as u64) == 0 <==> v == 0,
{
    assert((v as u64) == 0 <==> v == 0) by (bit_vector);
}

/// A halted state reached after any number of steps is the run's
/// outcome.
pub proof fn lemma_outcome_is(prog: Seq<Instruction>, s: MachineState, n: nat)
    requires
        is_halted(steps(prog, s, n)),
    ensures
        halts_from(prog, s),
        outcome_from(prog, s) == steps(prog, s, n),
{
    assert(halts_from(prog, s));
    let m = choose|m: nat| is_halted(steps(prog, s, m));
    assert(is_halted(steps(prog, s, m)));
    if m <= n {
        lemma_steps_add(prog, s, m, (n - m) as nat);
        lemma_settled(prog, steps(prog, s, m), (n - m) as nat);
        assert(m + (n - m) as nat == n);
    } else {
        lemma_steps_add(prog, s, n, (m - n) as nat);
        lemma_settled(prog, steps(prog, s, n), (m - n) as nat);
        assert(n + (m - n) as nat == m);
    }
}

/// The halted state a run reaches does not depend on the step count
/// that reaches it: execution is deterministic.
pub proof fn lemma_outcome_unique(prog: Seq<Instruction>, s: MachineState, m: nat, n: nat)
    requires
        is_halted(steps(prog, s, m)),
        is_halted(steps(prog, s, n)),
    ensures
        steps(prog, s, m) == steps(prog, s, n),
{
    lemma_outcome_is(prog, s, m);
    lemma_outcome_is(prog, s, n);
}

/// As long as the machine is still executing on a run that halts, the
/// halt lies ahead and the next step is defined rather than stuck.
pub proof fn lemma_executing_progress(prog: Seq<Instruction>, s: MachineState, k: nat, n: nat)
    requires
        is_halted(steps(prog, s, n)),
        steps(prog, s, k) is Executing,
    ensures
        k < n,
        !(step(prog, steps(prog, s, k)) is Stuck),
{
    if n <= k {
        lemma_steps_add(prog, s, n, (k - n) as nat);
        lemma_settled(prog, steps(prog, s, n), (k - n) as nat);
        assert(n + (k - n) as nat == k);
        assert(false);
    }
    if step(prog, steps(prog, s, k)) is Stuck {
        let t = steps(prog, s, k);
        lemma_steps_add(prog, s, k, 1);
        assert(steps(prog, t, 1) == steps(prog, step(prog, t), 0));
        assert(steps(prog, s, k + 1) == step(prog, t));
        lemma_steps_add(prog, s, (k + 1) as nat, (n - k - 1) as nat);
        lemma_settled(prog, steps(prog, s, (k + 1) as nat), (n - k - 1) as nat);
        assert((k + 1) as nat + (n - k - 1) as nat == n);
        assert(false);
    }
}

} // verus!
