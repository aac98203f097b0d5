use vstd::prelude::*;

use crate::context::ExecutionContext;
use crate::error::Trap;
use crate::function::Function;
use crate::ops::Flow;
use crate::register::Register;
use crate::semantics::MachineState;
use crate::semantics::executes_cleanly;
use crate::semantics::halts_from;
use crate::semantics::init_state;
use crate::semantics::is_halted;
use crate::semantics::lemma_executing_progress;
use crate::semantics::lemma_outcome_is;
use crate::semantics::lemma_steps_add;
use crate::semantics::outcome;
use crate::semantics::outcome_from;
use crate::semantics::step;
use crate::semantics::steps;
use crate::semantics::word_seq;
use crate::value_stack::STACK_CAPACITY;
use crate::value_stack::ValueStack;

verus! {

/// Runs the dispatch chain from the context's current position until a
/// terminal opcode returns or a trap surfaces.
///
/// In the threaded-dispatch design every opcode body tail-invokes its
/// successor; to keep the host stack flat that chain is a driver loop that
/// fetches each instruction and carries the register it hands back.
/// The result and the final stack contents are exactly the machine's
/// halted state from the starting configuration.
#[verifier::loop_isolation(false)]
pub fn execute_next_instruction(
    ctx: &mut ExecutionContext,
    stack: &mut ValueStack,
    reg: Register,
) -> (r: Result<(), Trap>)
    requires
        old(ctx).insts@.len() < usize::MAX,
        halts_from(
            old(ctx).insts@,
            (MachineState::Executing { pc: old(ctx).pc as int, stack: old(stack)@, reg: reg@ }),
        ),
    ensures
        final(ctx).insts@ == old(ctx).insts@,
        ({
            let o = outcome_from(
                old(ctx).insts@,
                (MachineState::Executing {
                    pc: old(ctx).pc as int,
                    stack: old(stack)@,
                    reg: reg@,
                }),
            );
            &&& (o matches MachineState::Returned { stack: st } ==> r == Ok::<(), Trap>(())
                && final(stack)@ == st)
            &&& (o matches MachineState::Trapped { trap } ==> r == Err::<(), Trap>(trap))
            &&& (r is Ok ==> o is Returned)
        }),
{
    let ghost prog = ctx.insts@;
    let ghost s0 = MachineState::Executing { pc: ctx.pc as int, stack: stack@, reg: reg@ };
    let ghost n = choose|m: nat| is_halted(steps(prog, s0, m));
    let mut reg = reg;
    let ghost mut k: nat = 0;
    loop
        invariant
            ctx.insts@ == prog,
            prog.len() < usize::MAX,
            is_halted(steps(prog, s0, n)),
            k <= n,
            steps(prog, s0, k) == (MachineState::Executing {
                pc: ctx.pc as int,
                stack: stack@,
                reg: reg@,
            }),
        decreases n - k,
    {
        proof {
            lemma_executing_progress(prog, s0, k, n);
        }
        let inst = ctx.next_instruction();
        let outcome_of_step = inst.execute(ctx, stack, reg);
        proof {
            let t = steps(prog, s0, k);
            lemma_steps_add(prog, s0, k, 1);
            assert(steps(prog, t, 1) == steps(prog, step(prog, t), 0));
            assert(steps(prog, s0, k + 1) == step(prog, t));
        }
        match outcome_of_step {
            Ok(Flow::Continue(next_reg)) => {
                reg = next_reg;
                proof {
                    k = k + 1;
                    lemma_executing_progress(prog, s0, k, n);
                }
            },
            Ok(Flow::Return) => {
                proof {
                    lemma_outcome_is(prog, s0, k + 1);
                }
                return Ok(());
            },
            Err(trap) => {
                proof {
                    lemma_outcome_is(prog, s0, k + 1);
                }
                return Err(trap);
            },
        }
    }
}

/// Redirects execution to `new_pc` and runs the dispatch chain from
/// there, as the branch opcode does.
pub fn execute_next_instruction_at(
    ctx: &mut ExecutionContext,
    stack: &mut ValueStack,
    reg: Register,
    new_pc: usize,
) -> (r: Result<(), Trap>)
    requires
        old(ctx).insts@.len() < usize::MAX,
        halts_from(
            old(ctx).insts@,
            (MachineState::Executing { pc: new_pc as int, stack: old(stack)@, reg: reg@ }),
        ),
    ensures
        final(ctx).insts@ == old(ctx).insts@,
        ({
            let o = outcome_from(
                old(ctx).insts@,
                (MachineState::Executing { pc: new_pc as int, stack: old(stack)@, reg: reg@ }),
            );
            &&& (o matches MachineState::Returned { stack: st } ==> r == Ok::<(), Trap>(())
                && final(stack)@ == st)
            &&& (o matches MachineState::Trapped { trap } ==> r == Err::<(), Trap>(trap))
            &&& (r is Ok ==> o is Returned)
        }),
{
    ctx.update_pc(new_pc);
    execute_next_instruction(ctx, stack, reg)
}

/// An opaque handle to a function registered with an engine: an index
/// into that engine's function table.  Handles are valid for the
/// engine's lifetime and must not be used across engines.
#[derive(Debug, Copy, Clone)]
pub struct Func(usize);

impl View for Func {
    type V = int;

    closed spec fn view(&self) -> int {
        self.0 as int
    }
}

/// Owner of the registered functions and of the reusable value stack;
/// the entry point of every execution.
#[derive(Debug)]
pub struct Engine {
    functions: Vec<Function>,
    value_stack: ValueStack,
}

impl Default for Engine {
    /// An engine with no functions and an empty stack.
    fn default() -> (r: Self)
        ensures
            r.functions() == Seq::<Function>::empty(),
            r.stack() == Seq::<u64>::empty(),
    {
        Engine { functions: Vec::new(), value_stack: ValueStack::default() }
    }
}

impl Engine {
    /// The registered functions, in handle order.
    pub closed spec fn functions(&self) -> Seq<Function> {
        self.functions@
    }

    /// The words on the engine's value stack.
    pub closed spec fn stack(&self) -> Seq<u64> {
        self.value_stack@
    }

    /// Registers a function and hands back its handle.
    pub fn push_function(&mut self, func: Function) -> (r: Func)
        ensures
            final(self).functions() == old(self).functions().push(func),
            final(self).stack() == old(self).stack(),
            r@ == old(self).functions().len(),
    {
        let index = self.functions.len();
        self.functions.push(func);
        Func(index)
    }

    /// Executes a registered function on `params`, copying the final
    /// stack contents into `results` on a normal return.
    ///
    /// A parameter or result buffer whose length does not match the
    /// function's declared arity is rejected with
    /// [`Trap::UnmatchedSignature`] before anything is touched.
    /// Otherwise the parameters are pushed onto the cleared stack, the
    /// last one is pre-consumed into the carried register, and the run's
    /// result is the machine's halted state: on a normal return the
    /// stack is drained into `results` and left empty, on a trap the
    /// trap is propagated unchanged and `results` is not written.
    ///
    /// The caller vouches that the handle belongs to this engine and
    /// that the function is well formed: its run halts rather than
    /// getting stuck, and a normal return leaves exactly the declared
    /// number of results on the stack.
    pub fn execute(
        &mut self,
        func: Func,
        params: &[Register],
        results: &mut [Register],
    ) -> (r: Result<(), Trap>)
        requires
            0 <= func@ < old(self).functions().len(),
            ({
                let f = old(self).functions()[func@];
                params@.len() == f.len_params && old(results)@.len() == f.len_results
                    ==> executes_cleanly(
                    f.instructions@,
                    word_seq(params@),
                    f.len_results as int,
                )
            }),
        ensures
            final(self).functions() == old(self).functions(),
            final(results)@.len() == old(results)@.len(),
            ({
                let f = old(self).functions()[func@];
                if params@.len() != f.len_params || old(results)@.len() != f.len_results {
                    &&& r == Err::<(), Trap>(Trap::UnmatchedSignature)
                    &&& final(results)@ == old(results)@
                    &&& *final(self) == *old(self)
                } else {
                    let o = outcome(f.instructions@, word_seq(params@));
                    &&& (o matches MachineState::Returned { stack: st } ==> r == Ok::<(), Trap>(
                        ())
                        && word_seq(final(results)@) == st && final(self).stack() == Seq::<
                        u64,
                    >::empty())
                    &&& (o matches MachineState::Trapped { trap } ==> r == Err::<(), Trap>(trap)
                        && final(results)@ == old(results)@)
                    &&& (r is Ok <==> o is Returned)
                }
            }),
    {
        let func_index = func.0;
        let f = &self.functions[func_index];
        if params.len() != f.len_params || results.len() != f.len_results {
            return Err(Trap::UnmatchedSignature);
        }
        let ghost prog = f.instructions@;
        let ghost words = word_seq(params@);
        self.value_stack.clear();
        let num_params = params.len();
        let mut i: usize = 0;
        while i < num_params
            invariant
                i <= num_params,
                num_params == params@.len(),
                params@.len() <= STACK_CAPACITY,
                self.value_stack@ == word_seq(params@.take(i as int)),
                self.functions@ == old(self).functions(),
            decreases num_params - i,
        {
            proof {
                assert(self.value_stack@.len() == i) by {
                    assert(params@.take(i as int).len() == i);
                }
            }
            self.value_stack.push(params[i]);
            i = i + 1;
            proof {
                assert(self.value_stack@ =~= word_seq(params@.take(i as int)));
            }
        }
        proof {
            assert(params@.take(params@.len() as int) =~= params@);
            assert(self.value_stack@ == words);
        }
        let reg = match self.value_stack.try_pop() {
            Some(top) => top,
            None => Register::default(),
        };
        let f = &self.functions[func_index];
        let mut context = ExecutionContext { pc: 0, insts: f.instructions.as_slice() };
        proof {
            assert(words.len() == params@.len());
            if params@.len() == 0 {
                assert(words =~= Seq::<u64>::empty());
            }
            assert((MachineState::Executing {
                pc: 0,
                stack: self.value_stack@,
                reg: reg@,
            }) == init_state(words));
        }
        match execute_next_instruction(&mut context, &mut self.value_stack, reg) {
            Ok(()) => {},
            Err(trap) => {
                return Err(trap);
            },
        }
        let returned = self.value_stack.drain();
        let num_results = returned.len();
        let mut j: usize = 0;
        while j < num_results
            invariant
                j <= num_results,
                num_results == returned@.len(),
                returned@.len() == results@.len(),
                forall|t: int| 0 <= t < j ==> results@[t] == returned@[t],
                self.functions@ == old(self).functions(),
                self.value_stack@ == Seq::<u64>::empty(),
            decreases num_results - j,
        {
            let value = returned[j];
            results[j] = value;
            j = j + 1;
        }
        proof {
            assert(results@ =~= returned@);
            assert(word_seq(results@) =~= word_seq(returned@));
        }
        Ok(())
    }
}

} // verus!
