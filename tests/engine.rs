use vvm::{Fault, FloatOp, Instruction, Program, Step, Value, VM};

fn program(instructions: Vec<Instruction>, labels: Vec<(&str, usize)>) -> Program {
    Program {
        instructions,
        labels: labels.into_iter().map(|(n, a)| (n.to_string(), a)).collect(),
    }
}

fn fault_of(step: Step) -> Fault {
    match step {
        Step::Fault(f) => f,
        other => panic!("expected a fault, got {:?}", other),
    }
}

#[test]
fn division_by_zero_is_a_fault() {
    let mut vm = VM::new(program(
        vec![Instruction::PushInt(10), Instruction::PushInt(0), Instruction::Div],
        vec![],
    ));
    assert_eq!(fault_of(vm.run(100)), Fault::DivisionByZero);
    // the faulting instruction is still current and its operands are kept
    assert_eq!(vm.pointer(), 2);
    assert_eq!(vm.depth(), 2);
}

#[test]
fn uint_add_leaves_eight() {
    let mut vm = VM::new(program(
        vec![Instruction::PushUInt(3), Instruction::PushUInt(5), Instruction::Add],
        vec![],
    ));
    assert!(matches!(vm.run(100), Step::Halted));
    assert_eq!(vm.pop(), Ok(Value::UInt(8)));
}

#[test]
fn jump_sets_the_pointer_to_the_label() {
    let mut vm = VM::new(program(
        vec![Instruction::Jump("L".to_string()), Instruction::Pop, Instruction::Exit],
        vec![("L", 2)],
    ));
    assert!(matches!(vm.step(), Step::Continue));
    assert_eq!(vm.pointer(), 2);
}

#[test]
fn call_returns_after_the_call() {
    let mut vm = VM::new(program(
        vec![
            Instruction::Call("f".to_string()),
            Instruction::PushInt(2),
            Instruction::ExitImmediate(0),
            Instruction::PushInt(1),
            Instruction::Ret,
        ],
        vec![("f", 3)],
    ));
    assert!(matches!(vm.step(), Step::Continue));
    assert_eq!(vm.pointer(), 3);
    assert_eq!(vm.call_depth(), 1);
    assert!(matches!(vm.step(), Step::Continue));
    assert!(matches!(vm.step(), Step::Continue));
    assert_eq!(vm.pointer(), 1);
    assert_eq!(vm.call_depth(), 0);
    assert!(matches!(vm.run(10), Step::Exit(0)));
    assert_eq!(vm.pop(), Ok(Value::Int(2)));
    assert_eq!(vm.pop(), Ok(Value::Int(1)));
}

#[test]
fn pop_on_empty_stack_underflows() {
    let mut vm = VM::new(program(vec![Instruction::Pop], vec![]));
    assert_eq!(fault_of(vm.step()), Fault::StackUnderflow);
    assert_eq!(vm.pop(), Err(Fault::StackUnderflow));
    assert_eq!(vm.dup(), Err(Fault::StackUnderflow));
    vm.push(Value::Int(1));
    assert_eq!(vm.swap(), Err(Fault::StackUnderflow));
}

#[test]
fn ret_on_empty_call_stack_underflows() {
    let mut vm = VM::new(program(vec![Instruction::Ret], vec![]));
    assert_eq!(fault_of(vm.step()), Fault::CallStackUnderflow);
}

#[test]
fn cross_variant_equality_is_false() {
    let mut vm = VM::new(program(
        vec![Instruction::PushInt(1), Instruction::PushBool(true), Instruction::CmpEqual],
        vec![],
    ));
    assert!(matches!(vm.run(10), Step::Halted));
    assert_eq!(vm.pop(), Ok(Value::Bool(false)));
}

#[test]
fn cross_variant_ordering_is_a_type_mismatch() {
    let mut vm = VM::new(program(
        vec![Instruction::PushInt(1), Instruction::PushBool(true), Instruction::CmpGreaterThan],
        vec![],
    ));
    assert_eq!(fault_of(vm.run(10)), Fault::TypeMismatch);
}

#[test]
fn comparisons_and_inequality() {
    let mut vm = VM::new(program(
        vec![
            Instruction::PushInt(3),
            Instruction::PushInt(5),
            Instruction::CmpLessThan,
            Instruction::PushString("a".to_string()),
            Instruction::PushString("b".to_string()),
            Instruction::CmpNotEqual,
            Instruction::PushUInt(5),
            Instruction::PushUInt(5),
            Instruction::CmpGreaterEqual,
        ],
        vec![],
    ));
    assert!(matches!(vm.run(20), Step::Halted));
    assert_eq!(vm.pop(), Ok(Value::Bool(true)));
    assert_eq!(vm.pop(), Ok(Value::Bool(true)));
    assert_eq!(vm.pop(), Ok(Value::Bool(true)));
}

#[test]
fn variables_store_load_free() {
    let mut vm = VM::new(program(
        vec![
            Instruction::PushInt(7),
            Instruction::StoreImm("x".to_string()),
            Instruction::PushString("y".to_string()),
            Instruction::PushInt(9),
            Instruction::Store,
            Instruction::LoadImm("x".to_string()),
            Instruction::PushString("y".to_string()),
            Instruction::Load,
            Instruction::FreeImm("x".to_string()),
            Instruction::LoadImm("x".to_string()),
        ],
        vec![],
    ));
    assert_eq!(fault_of(vm.run(20)), Fault::UndefinedVariable);
    assert_eq!(vm.pointer(), 9);
    assert_eq!(vm.get_memory("y"), Some(&Value::Int(9)));
    assert_eq!(vm.get_memory("x"), None);
    assert_eq!(vm.pop(), Ok(Value::Int(9)));
    assert_eq!(vm.pop(), Ok(Value::Int(7)));
}

#[test]
fn memory_is_last_write_wins() {
    let mut vm = VM::new(program(vec![], vec![]));
    vm.set_memory("a", Value::Int(1));
    vm.set_memory("a", Value::Int(2));
    assert_eq!(vm.get_memory("a"), Some(&Value::Int(2)));
    vm.free_memory("a");
    vm.free_memory("a");
    assert_eq!(vm.get_memory("a"), None);
}

#[test]
fn load_of_a_non_string_name_is_a_type_mismatch() {
    let mut vm = VM::new(program(vec![Instruction::PushInt(1), Instruction::Load], vec![]));
    assert_eq!(fault_of(vm.run(10)), Fault::TypeMismatch);
}

#[test]
fn undefined_label_faults() {
    let mut vm = VM::new(program(vec![Instruction::Jump("nowhere".to_string())], vec![]));
    assert_eq!(fault_of(vm.step()), Fault::UndefinedLabel);
}

#[test]
fn jump_if_takes_a_bool() {
    let mut vm = VM::new(program(
        vec![
            Instruction::PushBool(false),
            Instruction::JumpIf("end".to_string()),
            Instruction::PushInt(1),
            Instruction::PushInt(1),
            Instruction::JumpIf("end".to_string()),
        ],
        vec![("end", 5)],
    ));
    assert_eq!(fault_of(vm.run(10)), Fault::TypeMismatch);
    assert_eq!(vm.pointer(), 4);
}

#[test]
fn native_handlers_are_reported() {
    let mut vm = VM::new(program(
        vec![Instruction::CallNative("print".to_string()), Instruction::CallNative("other".to_string())],
        vec![],
    ));
    vm.register_native_handler("print");
    assert!(vm.has_native_handler("print"));
    match vm.run(10) {
        Step::Native(name) => assert_eq!(name, "print"),
        other => panic!("unexpected {:?}", other),
    }
    assert_eq!(vm.pointer(), 1);
    assert_eq!(fault_of(vm.run(10)), Fault::UndefinedNativeHandler);
}

#[test]
fn exit_codes_are_cut_to_32_bits() {
    let mut vm = VM::new(program(vec![Instruction::PushUInt(0x1_0000_0005), Instruction::Exit], vec![]));
    assert!(matches!(vm.run(10), Step::Exit(5)));
    let mut vm = VM::new(program(vec![Instruction::PushInt(-1), Instruction::Exit], vec![]));
    assert!(matches!(vm.run(10), Step::Exit(-1)));
    let mut vm = VM::new(program(vec![Instruction::PushBool(true), Instruction::Exit], vec![]));
    assert_eq!(fault_of(vm.run(10)), Fault::TypeMismatch);
}

#[test]
fn float_work_goes_to_the_host() {
    let mut vm = VM::new(program(
        vec![Instruction::PushFloat(1.5f64.to_bits()), Instruction::AddF(2.0f64.to_bits()), Instruction::Pop],
        vec![],
    ));
    match vm.run(10) {
        Step::Float(FloatOp::Add, a, b) => {
            assert_eq!((f64::from_bits(a), f64::from_bits(b)), (1.5, 2.0));
            vm.push(Value::Float((f64::from_bits(a) + f64::from_bits(b)).to_bits()));
        }
        other => panic!("unexpected {:?}", other),
    }
    assert_eq!(vm.pointer(), 2);
    assert!(matches!(vm.run(10), Step::Halted));
    assert_eq!(vm.depth(), 0);
}

#[test]
fn run_stops_when_fuel_runs_out() {
    let mut vm = VM::new(program(vec![Instruction::Jump("top".to_string())], vec![("top", 0)]));
    assert!(matches!(vm.run(1000), Step::Continue));
    assert_eq!(vm.pointer(), 0);
}

#[test]
fn swap_and_dup() {
    let mut vm = VM::new(program(
        vec![Instruction::PushInt(1), Instruction::PushInt(2), Instruction::Swap, Instruction::Dup],
        vec![],
    ));
    assert!(matches!(vm.run(10), Step::Halted));
    assert_eq!(vm.pop(), Ok(Value::Int(1)));
    assert_eq!(vm.pop(), Ok(Value::Int(1)));
    assert_eq!(vm.pop(), Ok(Value::Int(2)));
}
