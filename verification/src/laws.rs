use vstd::prelude::*;

use crate::error::Trap;
use crate::inst::Instruction;
use crate::inst::Op;
use crate::semantics::MachineState;
use crate::semantics::executes_cleanly;
use crate::semantics::halts_from;
use crate::semantics::init_state;
use crate::semantics::is_halted;
use crate::semantics::lemma_outcome_is;
use crate::semantics::lemma_outcome_unique;
use crate::semantics::lemma_steps_add;
use crate::semantics::lemma_steps_succ;
use crate::semantics::lemma_word_roundtrip;
use crate::semantics::lemma_word_zero;
use crate::semantics::outcome;
use crate::semantics::outcome_from;
use crate::semantics::step;
use crate::semantics::steps;
use crate::semantics::sub_words;

verus! {

/// The shape of the add–mul reference program: `(a + b) * (a + b)` over
/// two parameters, one result.
pub open spec fn is_add_mul_program(prog: Seq<Instruction>) -> bool {
    &&& prog.len() == 4
    &&& prog[0].op == Op::I32Add
    &&& prog[1].op == Op::Dup
    &&& prog[2].op == Op::I32Mul
    &&& prog[3].op == Op::Ret
}

/// The shape of the counter-loop reference program: counts its one
/// parameter down to zero, leaves no results.  The branch immediate
/// sends a nonzero counter back to the loop head at index 1; a zero
/// counter skips ahead to the tear-down at index 6.  The instruction at
/// index 5 is never reached.
pub open spec fn is_counter_program(prog: Seq<Instruction>) -> bool {
    &&& prog.len() == 8
    &&& prog[0].op == Op::Dup
    &&& prog[1].op == Op::I32Const
    &&& prog[1].aux@ == 1
    &&& prog[2].op == Op::I32Sub
    &&& prog[3].op == Op::Dup
    &&& prog[4].op == Op::BrEqz
    &&& prog[4].aux@ == 1
    &&& prog[5].op == Op::DropTop
    &&& prog[6].op == Op::DropTop
    &&& prog[7].op == Op::RetDrop
}

/// Law: any constant-then-return program halts, and the top of the
/// returned stack is exactly the constant.  The stack below the top
/// holds the materialized seed register, so a run started without
/// parameters returns two words: the all-zero seed, then the constant.
pub proof fn lemma_const_ret(prog: Seq<Instruction>, k: i32)
    requires
        prog.len() == 2,
        prog[0].op == Op::I32Const,
        prog[0].aux@ == k as u64,
        prog[1].op == Op::Ret,
    ensures
        executes_cleanly(prog, Seq::<u64>::empty(), 2),
        outcome(prog, Seq::<u64>::empty()) == (MachineState::Returned {
            stack: seq![0u64, k as u64],
        }),
{
    let s0 = init_state(Seq::<u64>::empty());
    let s1 = MachineState::Executing { pc: 1, stack: seq![0u64], reg: k as u64 };
    let s2 = MachineState::Returned { stack: seq![0u64, k as u64] };
    assert(Seq::<u64>::empty().push(0u64) =~= seq![0u64]);
    assert(step(prog, s0) == s1);
    assert(seq![0u64].push(k as u64) =~= seq![0u64, k as u64]);
    assert(step(prog, s1) == s2);
    assert(steps(prog, s0, 0) == s0);
    lemma_steps_succ(prog, s0, 0);
    lemma_steps_succ(prog, s0, 1);
    assert(steps(prog, s0, 2) == s2);
    lemma_outcome_is(prog, s0, 2);
}

/// Law: the add–mul round trip.  For all 32-bit `a` and `b`, running an
/// add–mul program on parameters `[a, b]` returns the single word
/// `(a + b) * (a + b)` with two's-complement wrap-around.
pub proof fn lemma_add_mul_result(prog: Seq<Instruction>, a: i32, b: i32)
    requires
        is_add_mul_program(prog),
    ensures
        executes_cleanly(prog, seq![a as u64, b as u64], 1),
        ({
            let s = a.wrapping_add(b).wrapping_mul(a.wrapping_add(b));
            outcome(prog, seq![a as u64, b as u64]) == (MachineState::Returned {
                stack: seq![s as u64],
            })
        }),
{
    let params = seq![a as u64, b as u64];
    let t = a.wrapping_add(b);
    let m = t.wrapping_mul(t);
    lemma_word_roundtrip(a);
    lemma_word_roundtrip(b);
    lemma_word_roundtrip(t);
    assert(params.drop_last() =~= seq![a as u64]);
    let s0 = init_state(params);
    assert(s0 == (MachineState::Executing { pc: 0, stack: seq![a as u64], reg: b as u64 }));
    let s1 = MachineState::Executing { pc: 1, stack: Seq::<u64>::empty(), reg: t as u64 };
    let s2 = MachineState::Executing { pc: 2, stack: seq![t as u64], reg: t as u64 };
    let s3 = MachineState::Executing { pc: 3, stack: Seq::<u64>::empty(), reg: m as u64 };
    let s4 = MachineState::Returned { stack: seq![m as u64] };
    assert(seq![a as u64].drop_last() =~= Seq::<u64>::empty());
    assert(step(prog, s0) == s1);
    assert(Seq::<u64>::empty().push(t as u64) =~= seq![t as u64]);
    assert(step(prog, s1) == s2);
    assert(seq![t as u64].drop_last() =~= Seq::<u64>::empty());
    assert(step(prog, s2) == s3);
    assert(Seq::<u64>::empty().push(m as u64) =~= seq![m as u64]);
    assert(step(prog, s3) == s4);
    assert(steps(prog, s0, 0) == s0);
    lemma_steps_succ(prog, s0, 0);
    lemma_steps_succ(prog, s0, 1);
    lemma_steps_succ(prog, s0, 2);
    lemma_steps_succ(prog, s0, 3);
    assert(steps(prog, s0, 4) == s4);
    lemma_outcome_is(prog, s0, 4);
}

/// Law: `unreachable` traps with `Trap::Unreachable` whatever the stack
/// and the carried register hold when it is reached.
pub proof fn lemma_unreachable_traps(prog: Seq<Instruction>, pc: int, stack: Seq<u64>, reg: u64)
    requires
        0 <= pc < prog.len(),
        prog[pc].op == Op::Unreachable,
    ensures
        halts_from(prog, (MachineState::Executing { pc, stack, reg })),
        outcome_from(prog, (MachineState::Executing { pc, stack, reg }))
            == (MachineState::Trapped { trap: Trap::Unreachable }),
{
    let s0 = MachineState::Executing { pc, stack, reg };
    assert(steps(prog, s0, 0) == s0);
    lemma_steps_succ(prog, s0, 0);
    assert(steps(prog, s0, 1) == (MachineState::Trapped { trap: Trap::Unreachable }));
    lemma_outcome_is(prog, s0, 1);
}

/// Law: execution is idempotent.  The halted state — and with it the
/// result of `Engine::execute`, the words copied out, and the emptied
/// stack — is a function of the program and the parameters alone, so
/// running the same function on the same engine twice yields identical
/// results, with the stack drained to empty between the runs.
pub proof fn lemma_execution_idempotent(prog: Seq<Instruction>, params: Seq<u64>, m: nat, n: nat)
    requires
        is_halted(steps(prog, init_state(params), m)),
        is_halted(steps(prog, init_state(params), n)),
    ensures
        steps(prog, init_state(params), m) == steps(prog, init_state(params), n),
        outcome(prog, params) == steps(prog, init_state(params), m),
{
    lemma_outcome_unique(prog, init_state(params), m, n);
    lemma_outcome_is(prog, init_state(params), m);
}

/// How many times the counter loop still has to decrement before the
/// counter reaches one: the distance from `c` down to 1 along the
/// wrapping 32-bit descent.
pub open spec fn counter_measure(c: i32) -> nat {
    if c >= 1 {
        (c - 1) as nat
    } else {
        (c + 0x1_0000_0000 - 1) as nat
    }
}

/// One trip around the counter loop: from the loop head at index 1 with
/// one word below the working registers, the run halts and returns with
/// an empty stack.
proof fn lemma_counter_loop_iter(prog: Seq<Instruction>, bottom: u64, c: i32)
    requires
        is_counter_program(prog),
    ensures
        halts_from(prog, (MachineState::Executing { pc: 1, stack: seq![bottom], reg: c as u64 })),
        outcome_from(prog, (MachineState::Executing { pc: 1, stack: seq![bottom], reg: c as u64 }))
            == (MachineState::Returned { stack: Seq::<u64>::empty() }),
    decreases counter_measure(c),
{
    let sl = MachineState::Executing { pc: 1, stack: seq![bottom], reg: c as u64 };
    let d = c.wrapping_sub(1);
    lemma_word_roundtrip(c);
    assert(sub_words(c as u64, 1u64) == d as u64);
    let s2 = MachineState::Executing { pc: 2, stack: seq![bottom, c as u64], reg: 1u64 };
    assert(seq![bottom].push(c as u64) =~= seq![bottom, c as u64]);
    assert(step(prog, sl) == s2);
    let s3 = MachineState::Executing { pc: 3, stack: seq![bottom], reg: d as u64 };
    assert(seq![bottom, c as u64].drop_last() =~= seq![bottom]);
    assert(step(prog, s2) == s3);
    let s4 = MachineState::Executing { pc: 4, stack: seq![bottom, d as u64], reg: d as u64 };
    assert(seq![bottom].push(d as u64) =~= seq![bottom, d as u64]);
    assert(step(prog, s3) == s4);
    lemma_word_zero(d);
    assert(seq![bottom, d as u64].drop_last() =~= seq![bottom]);
    assert(steps(prog, sl, 0) == sl);
    lemma_steps_succ(prog, sl, 0);
    lemma_steps_succ(prog, sl, 1);
    lemma_steps_succ(prog, sl, 2);
    lemma_steps_succ(prog, sl, 3);
    if d == 0 {
        // The decremented counter reached zero: skip to the tear-down.
        let s5 = MachineState::Executing { pc: 6, stack: seq![bottom], reg: d as u64 };
        assert(step(prog, s4) == s5);
        let s6 = MachineState::Executing { pc: 7, stack: Seq::<u64>::empty(), reg: bottom };
        assert(seq![bottom].drop_last() =~= Seq::<u64>::empty());
        assert(step(prog, s5) == s6);
        let s7 = MachineState::Returned { stack: Seq::<u64>::empty() };
        assert(step(prog, s6) == s7);
        lemma_steps_succ(prog, sl, 4);
        lemma_steps_succ(prog, sl, 5);
        assert(steps(prog, sl, 6) == s7);
        lemma_outcome_is(prog, sl, 6);
    } else {
        // The counter is still nonzero: branch back to the loop head.
        let s5 = MachineState::Executing { pc: 1, stack: seq![bottom], reg: d as u64 };
        assert(step(prog, s4) == s5);
        assert(steps(prog, sl, 4) == s5);
        assert(counter_measure(d) < counter_measure(c));
        lemma_counter_loop_iter(prog, bottom, d);
        let rest = choose|rest: nat| is_halted(steps(prog, s5, rest));
        lemma_outcome_is(prog, s5, rest);
        lemma_steps_add(prog, sl, 4, rest);
        lemma_outcome_is(prog, sl, 4 + rest);
    }
}

/// Law: the counter loop halts for every 32-bit starting value and
/// returns with an empty stack — execution never recurses on the host,
/// so the bound on its work is the wrapping descent of the counter, not
/// any host resource.
pub proof fn lemma_counter_loop_halts(prog: Seq<Instruction>, n: i32)
    requires
        is_counter_program(prog),
    ensures
        executes_cleanly(prog, seq![n as u64], 0),
        outcome(prog, seq![n as u64]) == (MachineState::Returned { stack: Seq::<u64>::empty() }),
{
    let params = seq![n as u64];
    assert(params.drop_last() =~= Seq::<u64>::empty());
    let s0 = init_state(params);
    assert(s0 == (MachineState::Executing { pc: 0, stack: Seq::<u64>::empty(), reg: n as u64 }));
    let s1 = MachineState::Executing { pc: 1, stack: seq![n as u64], reg: n as u64 };
    assert(Seq::<u64>::empty().push(n as u64) =~= seq![n as u64]);
    assert(step(prog, s0) == s1);
    assert(steps(prog, s0, 0) == s0);
    lemma_steps_succ(prog, s0, 0);
    assert(steps(prog, s0, 1) == s1);
    lemma_counter_loop_iter(prog, n as u64, n);
    let rest = choose|rest: nat| is_halted(steps(prog, s1, rest));
    lemma_outcome_is(prog, s1, rest);
    lemma_steps_add(prog, s0, 1, rest);
    lemma_outcome_is(prog, s0, 1 + rest);
}

} // verus!
