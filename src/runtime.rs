use vstd::prelude::*;
use crate::error::{Builtin, RuntimeError};
use crate::function::{Function, copy_option, is_constant, lookup};
use crate::scope::{
    Runtime, ScopeKind, ScopeRec, call_scope_of, copy_values, only_bindings_changed, resolve,
    values_of,
};
use crate::value::{DataType, Value, parse_tag, print_line, render_all, type_matches, type_of};

verus! {

/// What an operator leaves for the evaluator that runs blocks.
#[derive(Debug, PartialEq, Eq)]
pub enum Outcome {
    /// The operator is done and gives this value.
    Done(Value),
    /// Run `block` in the call scope `scope`; what it gives is the operator's value.
    Run { block: usize, scope: usize },
    /// Run `block` in the call scope `scope`, then bind what it gives to `name`
    /// in `target` with `bind_result`.
    RunThenBind { block: usize, scope: usize, target: usize, name: String, constant: bool },
    /// Write `line` to standard output; the operator's value is `None`.
    Print { line: String },
}

/// The slot that the first argument of `op` addresses, or why there is none.
pub open spec fn first_memory(args: Seq<Value>, op: Builtin) -> Result<(usize, String), RuntimeError> {
    if args.len() == 0 {
        Err(RuntimeError::MissingArgument { op })
    } else {
        match args[0] {
            Value::Memory { scope, name } => Ok((scope, name)),
            v => Err(RuntimeError::ExpectedMemory { op, actual: type_of(v) }),
        }
    }
}

/// The first argument, or `None` where there is none.
pub open spec fn first_or_nil(args: Seq<Value>) -> Value {
    if args.len() == 0 { Value::Nil } else { args[0] }
}

/// `name` is bound to a constant in `s` itself.
pub open spec fn bound_constant(scopes: Seq<ScopeRec>, s: int, name: Seq<char>) -> bool {
    lookup(scopes[s].bindings@, name) matches Some(f) && is_constant(f)
}

/// `b` is `a` with `name` bound to `f` in `s`, and nothing else changed.
pub open spec fn binds(a: Seq<ScopeRec>, b: Seq<ScopeRec>, s: int, name: Seq<char>, f: Function) -> bool {
    &&& only_bindings_changed(a, b, s)
    &&& forall|n: Seq<char>| #[trigger] lookup(b[s].bindings@, n)
        == if n == name { Some(f) } else { lookup(a[s].bindings@, n) }
}

/// `b` is `a` with the binding of `name` in `s` removed, and nothing else changed.
pub open spec fn unbinds(a: Seq<ScopeRec>, b: Seq<ScopeRec>, s: int, name: Seq<char>) -> bool {
    &&& only_bindings_changed(a, b, s)
    &&& forall|n: Seq<char>| #[trigger] lookup(b[s].bindings@, n)
        == if n == name { None } else { lookup(a[s].bindings@, n) }
}

/// `b` is `a` with one new call scope, holding `args` and `yield_fn`, made
/// from `from` and nested in it.
pub open spec fn call_pushed(
    a: Seq<ScopeRec>,
    b: Seq<ScopeRec>,
    args: Seq<Value>,
    yield_fn: Option<Function>,
    from: usize,
) -> bool {
    &&& b.len() == a.len() + 1
    &&& b.take(a.len() as int) == a
    &&& b.last().kind matches ScopeKind::Call { args: xs, yield_fn: y, from_scope: f }
        && xs@ == args && y == yield_fn && f == from
    &&& b.last().parent == Some(from)
    &&& b.last().bindings@.len() == 0
    &&& b.last().return_value == Value::Nil
}

/// What binding `name` in `s` to `f` does: refused where `name` is a
/// constant there, else done.
pub open spec fn bind_post(
    a: Runtime,
    b: Runtime,
    s: usize,
    name: String,
    f: Function,
    r: Result<(), RuntimeError>,
) -> bool {
    if bound_constant(a.scopes@, s as int, name@) {
        r == Err::<(), RuntimeError>(RuntimeError::ConstantViolation { name }) && b == a
    } else {
        r == Ok::<(), RuntimeError>(()) && binds(a.scopes@, b.scopes@, s as int, name@, f)
    }
}

/// What `fn` does.
pub open spec fn fn_post(
    a: Runtime,
    b: Runtime,
    args: Seq<Value>,
    yield_fn: Option<Function>,
    r: Result<Outcome, RuntimeError>,
) -> bool {
    match first_memory(args, Builtin::Fn) {
        Err(e) => r == Err::<Outcome, RuntimeError>(e) && b == a,
        Ok((ms, name)) => match yield_fn {
            None => r == Err::<Outcome, RuntimeError>(RuntimeError::MissingBlock { op: Builtin::Fn })
                && b == a,
            Some(f) => if bound_constant(a.scopes@, ms as int, name@) {
                r == Err::<Outcome, RuntimeError>(RuntimeError::ConstantViolation { name }) && b == a
            } else {
                r == Ok::<Outcome, RuntimeError>(Outcome::Done(Value::Nil))
                    && binds(a.scopes@, b.scopes@, ms as int, name@, f)
            },
        },
    }
}

/// What `let` (`constant` false) and `const` (`constant` true) do: the block
/// is run with no arguments from `scope`, and what it gives is bound.
pub open spec fn define_post(
    a: Runtime,
    b: Runtime,
    args: Seq<Value>,
    yield_fn: Option<Function>,
    scope: usize,
    op: Builtin,
    constant: bool,
    r: Result<Outcome, RuntimeError>,
) -> bool {
    match first_memory(args, op) {
        Err(e) => r == Err::<Outcome, RuntimeError>(e) && b == a,
        Ok((ms, name)) => match yield_fn {
            None => r == Err::<Outcome, RuntimeError>(RuntimeError::MissingBlock { op }) && b == a,
            Some(Function::Block(blk)) => {
                &&& r == Ok::<Outcome, RuntimeError>(
                    Outcome::RunThenBind { block: blk, scope: a.scopes@.len() as usize, target: ms, name, constant },
                )
                &&& call_pushed(a.scopes@, b.scopes@, Seq::empty(), None, scope)
            },
            Some(Function::Variable { value, .. }) => if bound_constant(a.scopes@, ms as int, name@) {
                r == Err::<Outcome, RuntimeError>(RuntimeError::ConstantViolation { name }) && b == a
            } else {
                r == Ok::<Outcome, RuntimeError>(Outcome::Done(Value::Nil)) && binds(
                    a.scopes@,
                    b.scopes@,
                    ms as int,
                    name@,
                    Function::Variable { value, constant, name },
                )
            },
        },
    }
}

/// What `del` does.
pub open spec fn del_post(a: Runtime, b: Runtime, args: Seq<Value>, r: Result<Outcome, RuntimeError>) -> bool {
    match first_memory(args, Builtin::Del) {
        Err(e) => r == Err::<Outcome, RuntimeError>(e) && b == a,
        Ok((ms, name)) => r == Ok::<Outcome, RuntimeError>(Outcome::Done(Value::Nil))
            && unbinds(a.scopes@, b.scopes@, ms as int, name@),
    }
}

/// What `exists` gives; it changes nothing.
pub open spec fn exists_result(a: Runtime, args: Seq<Value>) -> Result<Outcome, RuntimeError> {
    match first_memory(args, Builtin::Exists) {
        Err(e) => Err(e),
        Ok((ms, name)) => Ok(Outcome::Done(Value::Boolean(resolve(a.scopes@, ms as int, name@) is Some))),
    }
}

/// What `call` does: the callee is found from the addressed scope and given
/// the arguments after the first.
pub open spec fn call_post(
    a: Runtime,
    b: Runtime,
    args: Seq<Value>,
    yield_fn: Option<Function>,
    scope: usize,
    r: Result<Outcome, RuntimeError>,
) -> bool {
    match first_memory(args, Builtin::Call) {
        Err(e) => r == Err::<Outcome, RuntimeError>(e) && b == a,
        Ok((ms, name)) => match resolve(a.scopes@, ms as int, name@) {
            None => r == Err::<Outcome, RuntimeError>(RuntimeError::UnknownName { name }) && b == a,
            Some(Function::Variable { value, .. }) => r == Ok::<Outcome, RuntimeError>(Outcome::Done(value))
                && b == a,
            Some(Function::Block(blk)) => {
                &&& r == Ok::<Outcome, RuntimeError>(Outcome::Run { block: blk, scope: a.scopes@.len() as usize })
                &&& call_pushed(a.scopes@, b.scopes@, args.subrange(1, args.len() as int), yield_fn, scope)
            },
        },
    }
}

/// The runtime is well formed, and a first argument that addresses a slot
/// addresses one of its scopes.
pub open spec fn addressable(rt: Runtime, args: Seq<Value>) -> bool {
    &&& rt.wf()
    &&& args.len() > 0 ==> (args[0] matches Value::Memory { scope: ms, .. } ==> ms < rt.scopes@.len())
}

/// What every operator needs of the runtime: `args` is addressable, `scope`
/// is one of its scopes, and there is room for one more scope.
pub open spec fn ready(rt: Runtime, args: Seq<Value>, scope: usize) -> bool {
    &&& addressable(rt, args)
    &&& rt.valid(scope)
    &&& rt.scopes@.len() < usize::MAX
}

fn memory_arg(args: &Vec<Value>, op: Builtin) -> (r: Result<(usize, String), RuntimeError>)
    ensures
        r == first_memory(args@, op),
{
    if args.len() == 0 {
        return Err(RuntimeError::MissingArgument { op });
    }
    match &args[0] {
        Value::Memory { scope, name } => Ok((*scope, name.clone())),
        v => Err(RuntimeError::ExpectedMemory { op, actual: v.get_type() }),
    }
}

/// Binds `name` in `s` to `f`, unless `name` is a constant there.
pub fn bind(rt: &mut Runtime, s: usize, name: String, f: Function) -> (r: Result<(), RuntimeError>)
    requires
        old(rt).wf(),
        old(rt).valid(s),
    ensures
        final(rt).wf(),
        bind_post(*old(rt), *final(rt), s, name, f, r),
{
    let current = crate::function::find(&rt.scopes[s].bindings, name.as_str());
    if let Some(g) = current {
        if g.is_constant() {
            return Err(RuntimeError::ConstantViolation { name });
        }
    }
    rt.set_function(s, name.as_str(), f);
    Ok(())
}

/// `fn`: binds the slot that the first argument addresses to the block.
pub fn fn_fn(rt: &mut Runtime, args: &Vec<Value>, yield_fn: Option<Function>) -> (r: Result<Outcome, RuntimeError>)
    requires
        addressable(*old(rt), args@),
    ensures
        final(rt).wf(),
        fn_post(*old(rt), *final(rt), args@, yield_fn, r),
{
    let (ms, name) = match memory_arg(args, Builtin::Fn) {
        Ok(m) => m,
        Err(e) => return Err(e),
    };
    let f = match yield_fn {
        Some(f) => f,
        None => return Err(RuntimeError::MissingBlock { op: Builtin::Fn }),
    };
    match bind(rt, ms, name, f) {
        Ok(()) => Ok(Outcome::Done(Value::Nil)),
        Err(e) => Err(e),
    }
}

fn define(
    rt: &mut Runtime,
    args: &Vec<Value>,
    yield_fn: Option<Function>,
    scope: usize,
    op: Builtin,
    constant: bool,
) -> (r: Result<Outcome, RuntimeError>)
    requires
        ready(*old(rt), args@, scope),
    ensures
        final(rt).wf(),
        define_post(*old(rt), *final(rt), args@, yield_fn, scope, op, constant, r),
{
    let (ms, name) = match memory_arg(args, op) {
        Ok(m) => m,
        Err(e) => return Err(e),
    };
    match yield_fn {
        None => Err(RuntimeError::MissingBlock { op }),
        Some(Function::Block(blk)) => {
            let cs = rt.new_call(Vec::new(), None, scope);
            proof {
                assert(rt.scopes@.take(cs as int) =~= old(rt).scopes@);
            }
            Ok(Outcome::RunThenBind { block: blk, scope: cs, target: ms, name, constant })
        },
        Some(Function::Variable { value, .. }) => {
            let f = Function::Variable { value, constant, name: name.clone() };
            match bind(rt, ms, name, f) {
                Ok(()) => Ok(Outcome::Done(Value::Nil)),
                Err(e) => Err(e),
            }
        },
    }
}

/// `let`: binds the slot that the first argument addresses to a variable
/// holding what the block gives.
pub fn fn_let(rt: &mut Runtime, args: &Vec<Value>, yield_fn: Option<Function>, scope: usize) -> (r: Result<Outcome, RuntimeError>)
    requires
        ready(*old(rt), args@, scope),
    ensures
        final(rt).wf(),
        define_post(*old(rt), *final(rt), args@, yield_fn, scope, Builtin::Let, false, r),
{
    define(rt, args, yield_fn, scope, Builtin::Let, false)
}

/// `const`: as `let`, with the variable marked constant.
pub fn fn_const(rt: &mut Runtime, args: &Vec<Value>, yield_fn: Option<Function>, scope: usize) -> (r: Result<Outcome, RuntimeError>)
    requires
        ready(*old(rt), args@, scope),
    ensures
        final(rt).wf(),
        define_post(*old(rt), *final(rt), args@, yield_fn, scope, Builtin::Const, true, r),
{
    define(rt, args, yield_fn, scope, Builtin::Const, true)
}

/// Finishes a `let` or `const` whose block has run and given `value`.
pub fn bind_result(rt: &mut Runtime, target: usize, name: String, value: Value, constant: bool) -> (r: Result<Outcome, RuntimeError>)
    requires
        old(rt).wf(),
        old(rt).valid(target),
    ensures
        final(rt).wf(),
        bind_result_post(*old(rt), *final(rt), target, name, value, constant, r),
{
    let f = Function::Variable { value, constant, name: name.clone() };
    match bind(rt, target, name, f) {
        Ok(()) => Ok(Outcome::Done(Value::Nil)),
        Err(e) => Err(e),
    }
}

/// `del`: removes the binding of the addressed slot, if there is one.
pub fn fn_del(rt: &mut Runtime, args: &Vec<Value>) -> (r: Result<Outcome, RuntimeError>)
    requires
        addressable(*old(rt), args@),
    ensures
        final(rt).wf(),
        del_post(*old(rt), *final(rt), args@, r),
{
    let (ms, name) = match memory_arg(args, Builtin::Del) {
        Ok(m) => m,
        Err(e) => return Err(e),
    };
    rt.delete_function(ms, name.as_str());
    Ok(Outcome::Done(Value::Nil))
}

/// `exists`: whether the addressed slot is bound.
pub fn fn_exists(rt: &Runtime, args: &Vec<Value>) -> (r: Result<Outcome, RuntimeError>)
    requires
        addressable(*rt, args@),
    ensures
        r == exists_result(*rt, args@),
{
    let (ms, name) = match memory_arg(args, Builtin::Exists) {
        Ok(m) => m,
        Err(e) => return Err(e),
    };
    Ok(Outcome::Done(Value::Boolean(rt.has_function(ms, name.as_str()))))
}

/// `call`: invokes what the addressed slot is bound to with the remaining
/// arguments and the block given, from `scope`.
pub fn fn_call(rt: &mut Runtime, args: &Vec<Value>, yield_fn: Option<Function>, scope: usize) -> (r: Result<Outcome, RuntimeError>)
    requires
        ready(*old(rt), args@, scope),
    ensures
        final(rt).wf(),
        call_post(*old(rt), *final(rt), args@, yield_fn, scope, r),
{
    let (ms, name) = match memory_arg(args, Builtin::Call) {
        Ok(m) => m,
        Err(e) => return Err(e),
    };
    match rt.get_function(ms, name.as_str()) {
        None => Err(RuntimeError::UnknownName { name }),
        Some(Function::Variable { value, .. }) => Ok(Outcome::Done(value)),
        Some(Function::Block(blk)) => {
            let rest = copy_values(args, 1);
            let cs = rt.new_call(rest, yield_fn, scope);
            proof {
                assert(rt.scopes@.take(cs as int) =~= old(rt).scopes@);
            }
            Ok(Outcome::Run { block: blk, scope: cs })
        },
    }
}

/// The call scope that `call_scope_of` finds is a call scope of the runtime.
pub proof fn lemma_call_scope(scopes: Seq<ScopeRec>, s: int)
    requires
        call_scope_of(scopes, s) is Some,
    ensures
        0 <= call_scope_of(scopes, s)->0 < scopes.len(),
        scopes[call_scope_of(scopes, s)->0].kind is Call,
    decreases s,
{
    if !(scopes[s].kind is Call) {
        if let Some(p) = scopes[s].parent {
            if p < s {
                lemma_call_scope(scopes, p as int);
            }
        }
    }
}

/// What `p` gives: the argument at the index given of the current call, or
/// `None` past the last one, checked against the type named, if one is.
pub open spec fn p_result(a: Runtime, args: Seq<Value>, scope: usize) -> Result<Value, RuntimeError> {
    if args.len() == 0 {
        Err(RuntimeError::MissingArgument { op: Builtin::P })
    } else if !(args[0] is Number) {
        Err(RuntimeError::ExpectedNumber { actual: type_of(args[0]) })
    } else if args.len() > 1 && !(args[1] is String) {
        Err(RuntimeError::ExpectedTypeName { actual: type_of(args[1]) })
    } else if args.len() > 1 && parse_tag(args[1]->String_0@) is None {
        Err(RuntimeError::UnknownType { name: args[1]->String_0 })
    } else if args[0]->Number_0 < 0 {
        Err(RuntimeError::NegativeIndex { index: args[0]->Number_0 })
    } else {
        match call_scope_of(a.scopes@, scope as int) {
            None => Err(RuntimeError::OutsideCall { op: Builtin::P }),
            Some(c) => {
                let xs = values_of(a.scopes@[c].kind);
                let i = args[0]->Number_0 as int;
                let arg = if i < xs.len() { xs[i] } else { Value::Nil };
                let t = if args.len() > 1 { parse_tag(args[1]->String_0@)->0 } else { DataType::Any };
                if type_matches(t, arg) {
                    Ok(arg)
                } else {
                    Err(RuntimeError::TypeMismatch { expected: t, actual: type_of(arg) })
                }
            },
        }
    }
}

/// `p`: one argument of the current call, by index.
pub fn fn_p(rt: &Runtime, args: &Vec<Value>, scope: usize) -> (r: Result<Value, RuntimeError>)
    requires
        rt.wf(),
        rt.valid(scope),
    ensures
        r == p_result(*rt, args@, scope),
{
    if args.len() == 0 {
        return Err(RuntimeError::MissingArgument { op: Builtin::P });
    }
    let i: i64 = match &args[0] {
        Value::Number(i) => *i,
        v => return Err(RuntimeError::ExpectedNumber { actual: v.get_type() }),
    };
    let mut t = DataType::Any;
    if args.len() > 1 {
        match &args[1] {
            Value::String(name) => match DataType::from_name(name.as_str()) {
                Some(u) => {
                    t = u;
                },
                None => return Err(RuntimeError::UnknownType { name: name.clone() }),
            },
            v => return Err(RuntimeError::ExpectedTypeName { actual: v.get_type() }),
        }
    }
    if i < 0 {
        return Err(RuntimeError::NegativeIndex { index: i });
    }
    let c = match rt.get_call_scope(scope) {
        Some(c) => c,
        None => return Err(RuntimeError::OutsideCall { op: Builtin::P }),
    };
    proof {
        lemma_call_scope(rt.scopes@, scope as int);
    }
    let arg = match &rt.scopes[c].kind {
        ScopeKind::Call { args: xs, .. } => if (i as u64) < (xs.len() as u64) {
            xs[i as usize].copy()
        } else {
            Value::Nil
        },
        _ => Value::Nil,
    };
    if t.matches(&arg) {
        Ok(arg)
    } else {
        Err(RuntimeError::TypeMismatch { expected: t, actual: arg.get_type() })
    }
}

/// `args`: the arguments of the current call, as a new list scope.
pub fn fn_args(rt: &mut Runtime, scope: usize) -> (r: Result<Outcome, RuntimeError>)
    requires
        old(rt).wf(),
        old(rt).valid(scope),
        old(rt).scopes@.len() < usize::MAX,
    ensures
        final(rt).wf(),
        match call_scope_of(old(rt).scopes@, scope as int) {
            None => r == Err::<Outcome, RuntimeError>(RuntimeError::OutsideCall { op: Builtin::Args })
                && *final(rt) == *old(rt),
            Some(c) => {
                &&& r == Ok::<Outcome, RuntimeError>(Outcome::Done(Value::Scope(old(rt).scopes@.len() as usize)))
                &&& final(rt).scopes@.len() == old(rt).scopes@.len() + 1
                &&& final(rt).scopes@.take(old(rt).scopes@.len() as int) == old(rt).scopes@
                &&& final(rt).scopes@.last().kind is List
                &&& values_of(final(rt).scopes@.last().kind) == values_of(old(rt).scopes@[c].kind)
            },
        },
{
    let c = match rt.get_call_scope(scope) {
        Some(c) => c,
        None => return Err(RuntimeError::OutsideCall { op: Builtin::Args }),
    };
    proof {
        lemma_call_scope(rt.scopes@, scope as int);
    }
    let items = match &rt.scopes[c].kind {
        ScopeKind::Call { args: xs, .. } => copy_values(xs, 0),
        _ => Vec::new(),
    };
    proof {
        assert(items@ =~= values_of(rt.scopes@[c as int].kind));
    }
    let l = rt.new_list(items);
    proof {
        assert(rt.scopes@.take(l as int) =~= old(rt).scopes@);
    }
    Ok(Outcome::Done(Value::Scope(l)))
}

/// What `yield` does: the block attached to the current call is invoked with
/// the arguments given, from the scope where it was attached.
pub open spec fn yield_post(
    a: Runtime,
    b: Runtime,
    args: Seq<Value>,
    yield_fn: Option<Function>,
    scope: usize,
    r: Result<Outcome, RuntimeError>,
) -> bool {
    match call_scope_of(a.scopes@, scope as int) {
        None => r == Err::<Outcome, RuntimeError>(RuntimeError::OutsideCall { op: Builtin::Yield }) && b == a,
        Some(c) => match a.scopes@[c].kind {
            ScopeKind::Call { yield_fn: attached, from_scope, .. } => match attached {
                None => r == Err::<Outcome, RuntimeError>(RuntimeError::MissingYield) && b == a,
                Some(Function::Variable { value, .. }) => r == Ok::<Outcome, RuntimeError>(Outcome::Done(value))
                    && b == a,
                Some(Function::Block(blk)) => {
                    &&& r == Ok::<Outcome, RuntimeError>(Outcome::Run { block: blk, scope: a.scopes@.len() as usize })
                    &&& call_pushed(a.scopes@, b.scopes@, args, yield_fn, from_scope)
                },
            },
            _ => false,
        },
    }
}

/// `yield`: invokes the block attached to the current call.
pub fn fn_yield(rt: &mut Runtime, args: &Vec<Value>, yield_fn: Option<Function>, scope: usize) -> (r: Result<Outcome, RuntimeError>)
    requires
        old(rt).wf(),
        old(rt).valid(scope),
        old(rt).scopes@.len() < usize::MAX,
    ensures
        final(rt).wf(),
        yield_post(*old(rt), *final(rt), args@, yield_fn, scope, r),
{
    let c = match rt.get_call_scope(scope) {
        Some(c) => c,
        None => return Err(RuntimeError::OutsideCall { op: Builtin::Yield }),
    };
    proof {
        lemma_call_scope(rt.scopes@, scope as int);
    }
    let (attached, from) = match &rt.scopes[c].kind {
        ScopeKind::Call { yield_fn: attached, from_scope, .. } => (copy_option(attached), *from_scope),
        _ => (None, 0),
    };
    match attached {
        None => Err(RuntimeError::MissingYield),
        Some(Function::Variable { value, .. }) => Ok(Outcome::Done(value)),
        Some(Function::Block(blk)) => {
            let xs = copy_values(args, 0);
            proof {
                assert(xs@ =~= args@);
            }
            let cs = rt.new_call(xs, yield_fn, from);
            proof {
                assert(rt.scopes@.take(cs as int) =~= old(rt).scopes@);
            }
            Ok(Outcome::Run { block: blk, scope: cs })
        },
    }
}

/// `return`: writes the first argument, or `None`, into the return slot of
/// `scope`, and requests early exit where `scope` is a block.
pub fn fn_return(rt: &mut Runtime, args: &Vec<Value>, scope: usize) -> (r: Outcome)
    requires
        old(rt).wf(),
        old(rt).valid(scope),
    ensures
        final(rt).wf(),
        r == Outcome::Done(first_or_nil(args@)),
        final(rt).scopes@ == old(rt).scopes@.update(scope as int, ScopeRec {
            kind: if old(rt).scopes@[scope as int].kind is Block {
                ScopeKind::Block { broken: true }
            } else {
                old(rt).scopes@[scope as int].kind
            },
            return_value: first_or_nil(args@),
            ..old(rt).scopes@[scope as int]
        }),
{
    let v = if args.len() == 0 { Value::Nil } else { args[0].copy() };
    rt.set_return_value(scope, v.copy());
    let ghost mid = rt.scopes@;
    rt.break_self(scope);
    proof {
        assert(rt.scopes@ =~= old(rt).scopes@.update(scope as int, ScopeRec {
            kind: if old(rt).scopes@[scope as int].kind is Block {
                ScopeKind::Block { broken: true }
            } else {
                old(rt).scopes@[scope as int].kind
            },
            return_value: first_or_nil(args@),
            ..old(rt).scopes@[scope as int]
        }));
    }
    Outcome::Done(v)
}

/// `pass`: writes the first argument, or `None`, into the return slot of
/// `scope`, and requests nothing more.
pub fn fn_pass(rt: &mut Runtime, args: &Vec<Value>, scope: usize) -> (r: Outcome)
    requires
        old(rt).wf(),
        old(rt).valid(scope),
    ensures
        final(rt).wf(),
        r == Outcome::Done(first_or_nil(args@)),
        final(rt).scopes@ == old(rt).scopes@.update(scope as int, ScopeRec {
            return_value: first_or_nil(args@),
            ..old(rt).scopes@[scope as int]
        }),
{
    let v = if args.len() == 0 { Value::Nil } else { args[0].copy() };
    rt.set_return_value(scope, v.copy());
    proof {
        assert(rt.scopes@ =~= old(rt).scopes@.update(scope as int, ScopeRec {
            return_value: first_or_nil(args@),
            ..old(rt).scopes@[scope as int]
        }));
    }
    Outcome::Done(v)
}

/// `print`: the line to write, the texts of the arguments joined by spaces.
pub fn fn_print(args: &Vec<Value>) -> (r: Outcome)
    ensures
        r matches Outcome::Print { line } && line@ == render_all(args@) + seq!['\n'],
{
    Outcome::Print { line: print_line(args) }
}

/// What `bind_result` does.
pub open spec fn bind_result_post(
    a: Runtime,
    b: Runtime,
    target: usize,
    name: String,
    value: Value,
    constant: bool,
    r: Result<Outcome, RuntimeError>,
) -> bool {
    if bound_constant(a.scopes@, target as int, name@) {
        r == Err::<Outcome, RuntimeError>(RuntimeError::ConstantViolation { name }) && b == a
    } else {
        r == Ok::<Outcome, RuntimeError>(Outcome::Done(Value::Nil)) && binds(
            a.scopes@,
            b.scopes@,
            target as int,
            name@,
            Function::Variable { value, constant, name },
        )
    }
}

/// Runs the builtin `op` on `args`, with the block `yield_fn`, from `scope`.
pub fn apply(
    rt: &mut Runtime,
    op: Builtin,
    args: &Vec<Value>,
    yield_fn: Option<Function>,
    scope: usize,
) -> (r: Result<Outcome, RuntimeError>)
    requires
        ready(*old(rt), args@, scope),
    ensures
        final(rt).wf(),
        match op {
            Builtin::Fn => fn_post(*old(rt), *final(rt), args@, yield_fn, r),
            Builtin::Let => define_post(*old(rt), *final(rt), args@, yield_fn, scope, Builtin::Let, false, r),
            Builtin::Const => define_post(*old(rt), *final(rt), args@, yield_fn, scope, Builtin::Const, true, r),
            Builtin::Del => del_post(*old(rt), *final(rt), args@, r),
            Builtin::Call => call_post(*old(rt), *final(rt), args@, yield_fn, scope, r),
            Builtin::Exists => r == exists_result(*old(rt), args@) && *final(rt) == *old(rt),
            Builtin::P => *final(rt) == *old(rt) && match p_result(*old(rt), args@, scope) {
                Ok(v) => r == Ok::<Outcome, RuntimeError>(Outcome::Done(v)),
                Err(e) => r == Err::<Outcome, RuntimeError>(e),
            },
            Builtin::Args => match call_scope_of(old(rt).scopes@, scope as int) {
                None => r == Err::<Outcome, RuntimeError>(RuntimeError::OutsideCall { op: Builtin::Args })
                    && *final(rt) == *old(rt),
                Some(c) => {
                    &&& r == Ok::<Outcome, RuntimeError>(Outcome::Done(Value::Scope(old(rt).scopes@.len() as usize)))
                    &&& final(rt).scopes@.len() == old(rt).scopes@.len() + 1
                    &&& final(rt).scopes@.take(old(rt).scopes@.len() as int) == old(rt).scopes@
                    &&& final(rt).scopes@.last().kind is List
                    &&& values_of(final(rt).scopes@.last().kind) == values_of(old(rt).scopes@[c].kind)
                },
            },
            Builtin::Yield => yield_post(*old(rt), *final(rt), args@, yield_fn, scope, r),
            Builtin::Return => r == Ok::<Outcome, RuntimeError>(Outcome::Done(first_or_nil(args@)))
                && final(rt).scopes@ == old(rt).scopes@.update(scope as int, ScopeRec {
                    kind: if old(rt).scopes@[scope as int].kind is Block {
                        ScopeKind::Block { broken: true }
                    } else {
                        old(rt).scopes@[scope as int].kind
                    },
                    return_value: first_or_nil(args@),
                    ..old(rt).scopes@[scope as int]
                }),
            Builtin::Pass => r == Ok::<Outcome, RuntimeError>(Outcome::Done(first_or_nil(args@)))
                && final(rt).scopes@ == old(rt).scopes@.update(scope as int, ScopeRec {
                    return_value: first_or_nil(args@),
                    ..old(rt).scopes@[scope as int]
                }),
            Builtin::Print => *final(rt) == *old(rt)
                && (r matches Ok(Outcome::Print { line }) && line@ == render_all(args@) + seq!['\n']),
        },
{
    match op {
        Builtin::Fn => fn_fn(rt, args, yield_fn),
        Builtin::Let => fn_let(rt, args, yield_fn, scope),
        Builtin::Const => fn_const(rt, args, yield_fn, scope),
        Builtin::Del => fn_del(rt, args),
        Builtin::Call => fn_call(rt, args, yield_fn, scope),
        Builtin::Exists => fn_exists(rt, args),
        Builtin::P => match fn_p(rt, args, scope) {
            Ok(v) => Ok(Outcome::Done(v)),
            Err(e) => Err(e),
        },
        Builtin::Args => fn_args(rt, scope),
        Builtin::Yield => fn_yield(rt, args, yield_fn, scope),
        Builtin::Return => Ok(fn_return(rt, args, scope)),
        Builtin::Pass => Ok(fn_pass(rt, args, scope)),
        Builtin::Print => Ok(fn_print(args)),
    }
}

} // verus!
