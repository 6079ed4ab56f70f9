use script_core::error::{Builtin, RuntimeError};
use script_core::function::Function;
use script_core::module::{construct, Module};
use script_core::runtime::{
    apply, bind_result, fn_args, fn_call, fn_const, fn_del, fn_exists, fn_fn, fn_let, fn_p, fn_pass,
    fn_print, fn_return, fn_yield, Outcome,
};
use script_core::scope::Runtime;
use script_core::value::{print_line, DataType, Value};

fn mem(scope: usize, name: &str) -> Value {
    Value::Memory { scope, name: name.to_string() }
}

fn num(n: i64) -> Value {
    Value::Number(n)
}

fn text(s: &str) -> Value {
    Value::String(s.to_string())
}

fn is_bound(rt: &Runtime, scope: usize, name: &str) -> bool {
    match fn_exists(rt, &vec![mem(scope, name)]) {
        Ok(Outcome::Done(Value::Boolean(b))) => b,
        other => panic!("unexpected {:?}", other),
    }
}

/// A runtime with a call scope over `args`, made from the global scope.
fn in_call(args: Vec<Value>) -> (Runtime, usize) {
    let mut rt = Runtime::new();
    let cs = rt.new_call(args, None, 0);
    (rt, cs)
}

#[test]
fn fn_binding_then_exists_then_del() {
    let mut rt = Runtime::new();
    assert!(!is_bound(&rt, 0, "f"));
    let r = fn_fn(&mut rt, &vec![mem(0, "f")], Some(Function::Block(3)));
    assert_eq!(r, Ok(Outcome::Done(Value::Nil)));
    assert!(is_bound(&rt, 0, "f"));
    assert_eq!(rt.get_function(0, "f"), Some(Function::Block(3)));
    assert_eq!(fn_del(&mut rt, &vec![mem(0, "f")]), Ok(Outcome::Done(Value::Nil)));
    assert!(!is_bound(&rt, 0, "f"));
    assert_eq!(fn_del(&mut rt, &vec![mem(0, "f")]), Ok(Outcome::Done(Value::Nil)));
    assert!(!is_bound(&rt, 0, "f"));
}

#[test]
fn let_with_block_binds_what_the_block_gives() {
    let mut rt = Runtime::new();
    let r = fn_let(&mut rt, &vec![mem(0, "x")], Some(Function::Block(9)), 0);
    let (block, scope, target, name, constant) = match r {
        Ok(Outcome::RunThenBind { block, scope, target, name, constant }) => (block, scope, target, name, constant),
        other => panic!("unexpected {:?}", other),
    };
    assert_eq!(block, 9);
    assert_eq!(target, 0);
    assert_eq!(name, "x");
    assert!(!constant);
    assert_eq!(rt.values(scope), Some(vec![]));
    assert!(!is_bound(&rt, 0, "x"));
    let done = bind_result(&mut rt, target, name, num(42), constant);
    assert_eq!(done, Ok(Outcome::Done(Value::Nil)));
    assert!(is_bound(&rt, 0, "x"));
    let got = fn_call(&mut rt, &vec![mem(0, "x")], None, 0);
    assert_eq!(got, Ok(Outcome::Done(num(42))));
}

#[test]
fn let_with_variable_block_binds_at_once() {
    let mut rt = Runtime::new();
    let block = Function::Variable { value: num(5), constant: false, name: "v".to_string() };
    let r = fn_let(&mut rt, &vec![mem(0, "x")], Some(block), 0);
    assert_eq!(r, Ok(Outcome::Done(Value::Nil)));
    assert_eq!(
        rt.get_function(0, "x"),
        Some(Function::Variable { value: num(5), constant: false, name: "x".to_string() })
    );
    assert!(is_bound(&rt, 0, "x"));
    let again = Function::Variable { value: num(6), constant: false, name: "v".to_string() };
    assert_eq!(fn_let(&mut rt, &vec![mem(0, "x")], Some(again), 0), Ok(Outcome::Done(Value::Nil)));
    assert_eq!(fn_call(&mut rt, &vec![mem(0, "x")], None, 0), Ok(Outcome::Done(num(6))));
}

#[test]
fn const_refuses_rebinding() {
    let mut rt = Runtime::new();
    let r = fn_const(&mut rt, &vec![mem(0, "k")], Some(Function::Block(1)), 0);
    let (target, name) = match r {
        Ok(Outcome::RunThenBind { target, name, constant: true, .. }) => (target, name),
        other => panic!("unexpected {:?}", other),
    };
    assert_eq!(bind_result(&mut rt, target, name, num(1), true), Ok(Outcome::Done(Value::Nil)));
    assert!(is_bound(&rt, 0, "k"));
    let viol = RuntimeError::ConstantViolation { name: "k".to_string() };
    assert_eq!(bind_result(&mut rt, 0, "k".to_string(), num(2), true), Err(RuntimeError::ConstantViolation { name: "k".to_string() }));
    assert_eq!(bind_result(&mut rt, 0, "k".to_string(), num(2), false), Err(RuntimeError::ConstantViolation { name: "k".to_string() }));
    assert_eq!(fn_fn(&mut rt, &vec![mem(0, "k")], Some(Function::Block(2))), Err(RuntimeError::ConstantViolation { name: "k".to_string() }));
    let v = Function::Variable { value: num(3), constant: true, name: "v".to_string() };
    assert_eq!(fn_const(&mut rt, &vec![mem(0, "k")], Some(v), 0), Err(viol));
    assert_eq!(fn_call(&mut rt, &vec![mem(0, "k")], None, 0), Ok(Outcome::Done(num(1))));
    assert_eq!(fn_del(&mut rt, &vec![mem(0, "k")]), Ok(Outcome::Done(Value::Nil)));
    assert!(!is_bound(&rt, 0, "k"));
}

#[test]
fn call_hands_over_the_arguments_after_the_slot() {
    let mut rt = Runtime::new();
    fn_fn(&mut rt, &vec![mem(0, "f")], Some(Function::Block(7))).unwrap();
    let r = fn_call(&mut rt, &vec![mem(0, "f"), num(10), text("b")], Some(Function::Block(8)), 0);
    let cs = match r {
        Ok(Outcome::Run { block: 7, scope }) => scope,
        other => panic!("unexpected {:?}", other),
    };
    assert_eq!(rt.values(cs), Some(vec![num(10), text("b")]));
    assert_eq!(fn_p(&rt, &vec![num(0)], cs), Ok(num(10)));
    assert_eq!(fn_p(&rt, &vec![num(1)], cs), Ok(text("b")));
    let list = match fn_args(&mut rt, cs) {
        Ok(Outcome::Done(Value::Scope(l))) => l,
        other => panic!("unexpected {:?}", other),
    };
    assert_eq!(rt.values(list), Some(vec![num(10), text("b")]));
}

#[test]
fn call_of_unknown_name_fails() {
    let mut rt = Runtime::new();
    let r = fn_call(&mut rt, &vec![mem(0, "nope")], None, 0);
    assert_eq!(r, Err(RuntimeError::UnknownName { name: "nope".to_string() }));
}

#[test]
fn p_reads_arguments_by_index() {
    let (rt, cs) = in_call(vec![num(1), num(2), num(3)]);
    assert_eq!(fn_p(&rt, &vec![num(0)], cs), Ok(num(1)));
    assert_eq!(fn_p(&rt, &vec![num(2)], cs), Ok(num(3)));
    assert_eq!(fn_p(&rt, &vec![num(5)], cs), Ok(Value::Nil));
    assert_eq!(fn_p(&rt, &vec![num(0), text("Number")], cs), Ok(num(1)));
    assert_eq!(fn_p(&rt, &vec![num(0), text("Any")], cs), Ok(num(1)));
}

#[test]
fn p_with_wrong_type_reports_both_types() {
    let (rt, cs) = in_call(vec![text("a")]);
    let r = fn_p(&rt, &vec![num(0), text("Number")], cs);
    assert_eq!(r, Err(RuntimeError::TypeMismatch { expected: DataType::Number, actual: DataType::String }));
}

#[test]
fn p_errors() {
    let (rt, cs) = in_call(vec![num(1)]);
    assert_eq!(fn_p(&rt, &vec![], cs), Err(RuntimeError::MissingArgument { op: Builtin::P }));
    assert_eq!(fn_p(&rt, &vec![text("0")], cs), Err(RuntimeError::ExpectedNumber { actual: DataType::String }));
    assert_eq!(
        fn_p(&rt, &vec![num(0), num(1)], cs),
        Err(RuntimeError::ExpectedTypeName { actual: DataType::Number })
    );
    assert_eq!(
        fn_p(&rt, &vec![num(0), text("Float")], cs),
        Err(RuntimeError::UnknownType { name: "Float".to_string() })
    );
    assert_eq!(fn_p(&rt, &vec![num(-1)], cs), Err(RuntimeError::NegativeIndex { index: -1 }));
    assert_eq!(fn_p(&rt, &vec![num(0)], 0), Err(RuntimeError::OutsideCall { op: Builtin::P }));
}

#[test]
fn p_inside_a_block_of_a_call_reads_the_call() {
    let (mut rt, cs) = in_call(vec![num(4)]);
    let b = rt.new_block(cs);
    assert_eq!(fn_p(&rt, &vec![num(0)], b), Ok(num(4)));
}

#[test]
fn binding_operators_need_a_memory() {
    let mut rt = Runtime::new();
    assert_eq!(
        fn_fn(&mut rt, &vec![num(1)], Some(Function::Block(0))),
        Err(RuntimeError::ExpectedMemory { op: Builtin::Fn, actual: DataType::Number })
    );
    assert_eq!(
        fn_let(&mut rt, &vec![text("x")], Some(Function::Block(0)), 0),
        Err(RuntimeError::ExpectedMemory { op: Builtin::Let, actual: DataType::String })
    );
    assert_eq!(
        fn_del(&mut rt, &vec![Value::Boolean(true)]),
        Err(RuntimeError::ExpectedMemory { op: Builtin::Del, actual: DataType::Boolean })
    );
    assert_eq!(
        fn_exists(&rt, &vec![Value::Nil]),
        Err(RuntimeError::ExpectedMemory { op: Builtin::Exists, actual: DataType::Nil })
    );
    assert_eq!(
        fn_call(&mut rt, &vec![Value::Scope(0)], None, 0),
        Err(RuntimeError::ExpectedMemory { op: Builtin::Call, actual: DataType::Scope })
    );
    assert_eq!(fn_call(&mut rt, &vec![], None, 0), Err(RuntimeError::MissingArgument { op: Builtin::Call }));
}

#[test]
fn definitions_need_a_block() {
    let mut rt = Runtime::new();
    assert_eq!(fn_fn(&mut rt, &vec![mem(0, "f")], None), Err(RuntimeError::MissingBlock { op: Builtin::Fn }));
    assert_eq!(fn_let(&mut rt, &vec![mem(0, "f")], None, 0), Err(RuntimeError::MissingBlock { op: Builtin::Let }));
    assert_eq!(
        fn_const(&mut rt, &vec![mem(0, "f")], None, 0),
        Err(RuntimeError::MissingBlock { op: Builtin::Const })
    );
    assert!(!is_bound(&rt, 0, "f"));
}

#[test]
fn yield_runs_the_block_where_it_was_attached() {
    let mut rt = Runtime::new();
    // the caller's scope binds `x`; the callee binds its own `x`
    let caller = rt.new_block(0);
    let outer = Function::Variable { value: num(100), constant: false, name: "x".to_string() };
    fn_let(&mut rt, &vec![mem(caller, "x")], Some(outer), caller).unwrap();
    fn_fn(&mut rt, &vec![mem(0, "f")], Some(Function::Block(1))).unwrap();
    let r = fn_call(&mut rt, &vec![mem(0, "f"), num(4)], Some(Function::Block(2)), caller);
    let callee = match r {
        Ok(Outcome::Run { block: 1, scope }) => scope,
        other => panic!("unexpected {:?}", other),
    };
    let inner = Function::Variable { value: num(-1), constant: false, name: "x".to_string() };
    fn_let(&mut rt, &vec![mem(callee, "x")], Some(inner), callee).unwrap();
    let x = fn_p(&rt, &vec![num(0)], callee).unwrap();
    let ys = match fn_yield(&mut rt, &vec![x], None, callee) {
        Ok(Outcome::Run { block: 2, scope }) => scope,
        other => panic!("unexpected {:?}", other),
    };
    // the block `{ |n| n + 1 }`, run by the evaluator
    let n = match fn_p(&rt, &vec![num(0)], ys) {
        Ok(Value::Number(n)) => n,
        other => panic!("unexpected {:?}", other),
    };
    assert_eq!(n + 1, 5);
    let seen = match fn_call(&mut rt, &vec![mem(ys, "x")], None, ys) {
        Ok(Outcome::Done(v)) => v,
        other => panic!("unexpected {:?}", other),
    };
    assert_eq!(seen, num(100));
}

#[test]
fn yield_errors() {
    let mut rt = Runtime::new();
    assert_eq!(fn_yield(&mut rt, &vec![], None, 0), Err(RuntimeError::OutsideCall { op: Builtin::Yield }));
    let cs = rt.new_call(vec![], None, 0);
    assert_eq!(fn_yield(&mut rt, &vec![num(1)], None, cs), Err(RuntimeError::MissingYield));
    assert_eq!(fn_args(&mut rt, 0), Err(RuntimeError::OutsideCall { op: Builtin::Args }));
}

#[test]
fn return_sets_the_result_and_stops_the_block() {
    let mut rt = Runtime::new();
    let b = rt.new_block(0);
    // statements: return(7); pass(8)
    let statements = vec![(Builtin::Return, vec![num(7)]), (Builtin::Pass, vec![num(8)])];
    let mut ran = 0;
    for (op, args) in statements {
        if rt.is_broken(b) {
            break;
        }
        apply(&mut rt, op, &args, None, b).unwrap();
        ran += 1;
    }
    assert_eq!(ran, 1);
    assert!(rt.is_broken(b));
    assert_eq!(rt.return_value(b), num(7));
}

#[test]
fn pass_sets_the_result_and_goes_on() {
    let mut rt = Runtime::new();
    let b = rt.new_block(0);
    let statements = vec![(Builtin::Pass, vec![num(7)]), (Builtin::Print, vec![num(1)])];
    let mut ran = 0;
    for (op, args) in statements {
        if rt.is_broken(b) {
            break;
        }
        apply(&mut rt, op, &args, None, b).unwrap();
        ran += 1;
    }
    assert_eq!(ran, 2);
    assert!(!rt.is_broken(b));
    assert_eq!(rt.return_value(b), num(7));
}

#[test]
fn return_outside_a_block_only_sets_the_slot() {
    let mut rt = Runtime::new();
    let cs = rt.new_call(vec![], None, 0);
    assert_eq!(fn_return(&mut rt, &vec![], cs), Outcome::Done(Value::Nil));
    assert!(!rt.is_broken(cs));
    assert_eq!(rt.return_value(cs), Value::Nil);
    assert_eq!(fn_pass(&mut rt, &vec![num(3)], cs), Outcome::Done(num(3)));
    assert_eq!(rt.return_value(cs), num(3));
}

#[test]
fn print_joins_with_spaces() {
    let r = fn_print(&vec![num(1), text("a"), Value::Boolean(true)]);
    assert_eq!(r, Outcome::Print { line: "1 a true\n".to_string() });
}

#[test]
fn rendering_of_every_variant() {
    let line = print_line(&vec![
        Value::Nil,
        Value::Boolean(false),
        num(-42),
        num(0),
        num(i64::MIN),
        mem(0, "x"),
        Value::Scope(3),
    ]);
    assert_eq!(line, "none false -42 0 -9223372036854775808 <x> <scope>\n");
    assert_eq!(print_line(&vec![]), "\n");
    assert_eq!(num(1234567890).render(), "1234567890");
}

#[test]
fn type_names() {
    assert_eq!(DataType::from_name("Number"), Some(DataType::Number));
    assert_eq!(DataType::from_name("None"), Some(DataType::Nil));
    assert_eq!(DataType::from_name("Any"), Some(DataType::Any));
    assert_eq!(DataType::from_name("number"), None);
    assert_eq!(DataType::Memory.name(), "Memory");
    assert!(DataType::Any.matches(&Value::Nil));
    assert!(!DataType::Boolean.matches(&num(1)));
}

#[test]
fn inner_binding_shadows_outer() {
    let mut rt = Runtime::new();
    let b = rt.new_block(0);
    let v1 = Function::Variable { value: num(1), constant: false, name: "v".to_string() };
    let v2 = Function::Variable { value: num(2), constant: false, name: "v".to_string() };
    fn_let(&mut rt, &vec![mem(0, "y")], Some(v1), 0).unwrap();
    assert!(is_bound(&rt, b, "y"));
    fn_let(&mut rt, &vec![mem(b, "y")], Some(v2), b).unwrap();
    assert_eq!(fn_call(&mut rt, &vec![mem(b, "y")], None, b), Ok(Outcome::Done(num(2))));
    assert_eq!(fn_call(&mut rt, &vec![mem(0, "y")], None, b), Ok(Outcome::Done(num(1))));
}

#[test]
fn construct_registers_every_operator() {
    let mut m = Module::new();
    construct(&mut m);
    let names: Vec<&str> = m.functions.iter().map(|e| e.name.as_str()).collect();
    assert_eq!(
        names,
        vec!["fn", "let", "const", "del", "call", "exists", "p", "args", "yield", "return", "pass", "print"]
    );
    assert_eq!(m.get("yield"), Some(Builtin::Yield));
    assert_eq!(m.get("print"), Some(Builtin::Print));
    assert_eq!(m.get("loop"), None);
}
