use stackvm::ExecutionContext;
use stackvm::Flow;
use stackvm::Instruction;
use stackvm::Op;
use stackvm::Register;
use stackvm::STACK_CAPACITY;
use stackvm::ValueStack;
use stackvm::ops;

#[test]
fn register_converts_to_and_from_i32() {
    assert_eq!(i32::from(Register::from(-5)), -5);
    assert_eq!(i32::from(Register::from(i32::MIN)), i32::MIN);
    assert_eq!(Register::default(), Register::from(0));
}

#[test]
fn stack_push_pop_round_trip() {
    let mut stack = ValueStack::default();
    assert_eq!(stack.len(), 0);
    stack.push(Register::from(1));
    stack.push(Register::from(2));
    assert_eq!(stack.len(), 2);
    assert_eq!(stack.pop(), Register::from(2));
    assert_eq!(stack.pop(), Register::from(1));
    assert_eq!(stack.len(), 0);
}

#[test]
fn stack_try_pop_on_empty_is_none() {
    let mut stack = ValueStack::default();
    assert_eq!(stack.try_pop(), None);
    stack.push(Register::from(9));
    assert_eq!(stack.try_pop(), Some(Register::from(9)));
    assert_eq!(stack.try_pop(), None);
}

#[test]
fn stack_peek_and_top_read_below_the_pointer() {
    let mut stack = ValueStack::default();
    stack.push(Register::from(10));
    stack.push(Register::from(20));
    stack.push(Register::from(30));
    assert_eq!(stack.top(), Register::from(30));
    assert_eq!(stack.peek(0), Register::from(30));
    assert_eq!(stack.peek(1), Register::from(20));
    assert_eq!(stack.peek(2), Register::from(10));
}

#[test]
fn stack_pop_as_converts_the_top() {
    let mut stack = ValueStack::default();
    stack.push(Register::from(-1));
    let v: i32 = stack.pop_as();
    assert_eq!(v, -1);
    assert_eq!(stack.len(), 0);
}

#[test]
fn stack_drain_yields_live_prefix_in_order() {
    let mut stack = ValueStack::default();
    stack.push(Register::from(1));
    stack.push(Register::from(2));
    stack.push(Register::from(3));
    let drained = stack.drain();
    assert_eq!(
        drained,
        vec![Register::from(1), Register::from(2), Register::from(3)]
    );
    assert_eq!(stack.len(), 0);
}

#[test]
fn stack_clear_resets_the_pointer() {
    let mut stack = ValueStack::default();
    stack.push(Register::from(7));
    stack.clear();
    assert_eq!(stack.len(), 0);
    assert_eq!(stack.try_pop(), None);
}

#[test]
fn capacity_is_fixed() {
    assert_eq!(STACK_CAPACITY, 1024);
}

#[test]
fn instruction_constructors_carry_their_immediates() {
    assert_eq!(Instruction::ret().op, Op::Ret);
    assert_eq!(Instruction::ret_drop().op, Op::RetDrop);
    assert_eq!(Instruction::unreachable().op, Op::Unreachable);
    assert_eq!(Instruction::drop().op, Op::DropTop);
    assert_eq!(Instruction::dup().op, Op::Dup);
    assert_eq!(Instruction::i32_add().op, Op::I32Add);
    assert_eq!(Instruction::i32_sub().op, Op::I32Sub);
    assert_eq!(Instruction::i32_mul().op, Op::I32Mul);
    assert_eq!(Instruction::ret().aux, Register::default());
    let konst = Instruction::i32_const(-7);
    assert_eq!(konst.op, Op::I32Const);
    assert_eq!(konst.aux, Register::from(-7));
    let branch = Instruction::br_eqz(3);
    assert_eq!(branch.op, Op::BrEqz);
    assert_eq!(branch.aux, Register::from(3));
}

#[test]
fn context_fetches_and_redirects() {
    let insts = [Instruction::dup(), Instruction::ret()];
    let mut ctx = ExecutionContext { pc: 0, insts: &insts };
    assert_eq!(ctx.pc(), 0);
    assert_eq!(ctx.next_instruction(), Instruction::dup());
    assert_eq!(ctx.pc(), 1);
    ctx.update_pc(0);
    assert_eq!(ctx.pc(), 0);
}

#[test]
fn op_bodies_follow_the_instruction_table() {
    let insts = [Instruction::i32_add(), Instruction::ret()];
    let mut ctx = ExecutionContext { pc: 1, insts: &insts };
    let mut stack = ValueStack::default();
    stack.push(Register::from(40));
    let r = ops::i32_add(&mut ctx, &mut stack, Register::from(2), Register::default());
    assert_eq!(r, Ok(Flow::Continue(Register::from(42))));
    assert_eq!(stack.len(), 0);

    stack.push(Register::from(10));
    let r = ops::i32_sub(&mut ctx, &mut stack, Register::from(4), Register::default());
    assert_eq!(r, Ok(Flow::Continue(Register::from(6))));

    stack.push(Register::from(6));
    let r = ops::i32_mul(&mut ctx, &mut stack, Register::from(7), Register::default());
    assert_eq!(r, Ok(Flow::Continue(Register::from(42))));

    let r = ops::dup(&mut ctx, &mut stack, Register::from(5), Register::default());
    assert_eq!(r, Ok(Flow::Continue(Register::from(5))));
    assert_eq!(stack.pop(), Register::from(5));

    stack.push(Register::from(8));
    let r = ops::drop(&mut ctx, &mut stack, Register::from(5), Register::default());
    assert_eq!(r, Ok(Flow::Continue(Register::from(8))));

    let r = ops::i32_const(&mut ctx, &mut stack, Register::from(1), Register::from(9));
    assert_eq!(r, Ok(Flow::Continue(Register::from(9))));
    assert_eq!(stack.pop(), Register::from(1));

    let r = ops::ret_drop(&mut ctx, &mut stack, Register::from(1), Register::default());
    assert_eq!(r, Ok(Flow::Return));

    let r = ops::unreachable(&mut ctx, &mut stack, Register::from(1), Register::default());
    assert_eq!(r, Err(stackvm::Trap::Unreachable));

    let r = ops::ret(&mut ctx, &mut stack, Register::from(33), Register::default());
    assert_eq!(r, Ok(Flow::Return));
    assert_eq!(stack.pop(), Register::from(33));
}

#[test]
fn br_eqz_jumps_on_nonzero_and_skips_on_zero() {
    let insts = [
        Instruction::dup(),
        Instruction::br_eqz(0),
        Instruction::ret_drop(),
    ];
    let mut ctx = ExecutionContext { pc: 2, insts: &insts };
    let mut stack = ValueStack::default();

    stack.push(Register::from(5));
    let r = ops::br_eqz(&mut ctx, &mut stack, Register::from(1), Register::from(0));
    assert_eq!(r, Ok(Flow::Continue(Register::from(5))));
    assert_eq!(ctx.pc(), 0);

    ctx.update_pc(2);
    stack.push(Register::from(5));
    let r = ops::br_eqz(&mut ctx, &mut stack, Register::from(0), Register::from(0));
    assert_eq!(r, Ok(Flow::Continue(Register::from(5))));
    assert_eq!(ctx.pc(), 3);
}

#[test]
fn builder_accumulates_in_order() {
    let f = stackvm::Function::build(2, 1, 3)
        .push_inst(Instruction::i32_add())
        .push_inst(Instruction::ret())
        .finish();
    assert_eq!(f.len_params, 2);
    assert_eq!(f.len_results, 1);
    assert_eq!(f.len_locals, 3);
    assert_eq!(f.instructions.len(), 2);
    assert_eq!(f.instructions[0], Instruction::i32_add());
    assert_eq!(f.instructions[1], Instruction::ret());
}
