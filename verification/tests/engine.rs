use stackvm::Engine;
use stackvm::Function;
use stackvm::Instruction;
use stackvm::Register;
use stackvm::Trap;
use stackvm::add_mul;
use stackvm::counter_loop;

#[test]
fn add_mul_works() {
    let mut engine = Engine::default();
    let add_mul = engine.push_function(add_mul());
    let mut results = [Register::default(); 1];
    engine
        .execute(
            add_mul,
            &[Register::from(2), Register::from(3)],
            &mut results,
        )
        .unwrap();
    assert_eq!(results[0], Register::from((2 + 3) * (2 + 3)));
}

#[test]
fn counter_loop_works() {
    let mut engine = Engine::default();
    let cl = engine.push_function(counter_loop());
    engine
        .execute(cl, &[Register::from(10_000)], &mut [])
        .unwrap();
}

#[test]
fn add_mul_negative_params() {
    let mut engine = Engine::default();
    let f = engine.push_function(add_mul());
    let mut results = [Register::default(); 1];
    engine
        .execute(f, &[Register::from(-4), Register::from(1)], &mut results)
        .unwrap();
    assert_eq!(results[0], Register::from(9));
}

#[test]
fn add_mul_wraps_on_overflow() {
    let mut engine = Engine::default();
    let f = engine.push_function(
        Function::build(2, 1, 0)
            .push_inst(Instruction::i32_add())
            .push_inst(Instruction::ret())
            .finish(),
    );
    let mut results = [Register::default(); 1];
    engine
        .execute(f, &[Register::from(i32::MAX), Register::from(1)], &mut results)
        .unwrap();
    assert_eq!(results[0], Register::from(i32::MIN));
}

#[test]
fn signature_mismatch_traps_without_touching_results() {
    let mut engine = Engine::default();
    let f = engine.push_function(counter_loop());
    let mut results = [Register::from(77); 2];
    let r = engine.execute(f, &[], &mut results);
    assert!(matches!(r, Err(Trap::UnmatchedSignature)));
    assert_eq!(results[0], Register::from(77));
    assert_eq!(results[1], Register::from(77));
}

#[test]
fn unreachable_traps() {
    let mut engine = Engine::default();
    let f = engine.push_function(
        Function::build(0, 0, 0)
            .push_inst(Instruction::unreachable())
            .finish(),
    );
    let r = engine.execute(f, &[], &mut []);
    assert!(matches!(r, Err(Trap::Unreachable)));
}

#[test]
fn unreachable_traps_whatever_precedes_it() {
    let mut engine = Engine::default();
    let f = engine.push_function(
        Function::build(2, 0, 0)
            .push_inst(Instruction::dup())
            .push_inst(Instruction::dup())
            .push_inst(Instruction::unreachable())
            .finish(),
    );
    let r = engine.execute(f, &[Register::from(5), Register::from(6)], &mut []);
    assert!(matches!(r, Err(Trap::Unreachable)));
}

#[test]
fn const_program_returns_its_constant_on_top() {
    let mut engine = Engine::default();
    let f = engine.push_function(
        Function::build(0, 2, 0)
            .push_inst(Instruction::i32_const(42))
            .push_inst(Instruction::ret())
            .finish(),
    );
    let mut results = [Register::default(); 2];
    engine.execute(f, &[], &mut results).unwrap();
    assert_eq!(results[0], Register::from(0));
    assert_eq!(results[1], Register::from(42));
}

#[test]
fn unbounded_pushing_traps_with_stack_overflow() {
    let mut engine = Engine::default();
    let f = engine.push_function(
        Function::build(1, 0, 0)
            .push_inst(Instruction::dup())
            .push_inst(Instruction::dup())
            .push_inst(Instruction::br_eqz(0))
            .finish(),
    );
    let r = engine.execute(f, &[Register::from(1)], &mut []);
    assert!(matches!(r, Err(Trap::StackOverflow)));
}

#[test]
fn repeated_runs_give_identical_results() {
    let mut engine = Engine::default();
    let f = engine.push_function(add_mul());
    let params = [Register::from(11), Register::from(-3)];
    let mut first = [Register::default(); 1];
    let mut second = [Register::default(); 1];
    engine.execute(f, &params, &mut first).unwrap();
    engine.execute(f, &params, &mut second).unwrap();
    assert_eq!(first[0], second[0]);
    assert_eq!(first[0], Register::from(64));
}

#[test]
fn counter_loop_runs_a_million() {
    let mut engine = Engine::default();
    let cl = engine.push_function(counter_loop());
    engine
        .execute(cl, &[Register::from(1_000_000)], &mut [])
        .unwrap();
}

#[test]
fn counter_loop_runs_from_one() {
    let mut engine = Engine::default();
    let cl = engine.push_function(counter_loop());
    engine.execute(cl, &[Register::from(1)], &mut []).unwrap();
}

#[test]
fn handles_address_functions_in_registration_order() {
    let mut engine = Engine::default();
    let first = engine.push_function(add_mul());
    let second = engine.push_function(
        Function::build(1, 1, 0).push_inst(Instruction::ret()).finish(),
    );
    let mut identity = [Register::default(); 1];
    engine
        .execute(second, &[Register::from(123)], &mut identity)
        .unwrap();
    assert_eq!(identity[0], Register::from(123));
    let mut squared = [Register::default(); 1];
    engine
        .execute(first, &[Register::from(1), Register::from(1)], &mut squared)
        .unwrap();
    assert_eq!(squared[0], Register::from(4));
}
