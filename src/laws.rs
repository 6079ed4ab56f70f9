use vstd::prelude::*;
use crate::error::{Builtin, RuntimeError};
use crate::function::{Function, lookup};
use crate::runtime::{
    Outcome, bind_result_post, binds, call_post, define_post, del_post, exists_result, fn_post,
    lemma_call_scope, p_result, yield_post,
};
use crate::scope::{Runtime, ScopeKind, call_scope_of, lemma_resolve_push, resolve, values_of};
use crate::value::Value;

verus! {

/// Whatever binds `name` in `s`, the slot is then bound.
proof fn lemma_bound(b: Runtime, a: Runtime, s: usize, name: String, f: Function)
    requires
        s < a.scopes@.len(),
        binds(a.scopes@, b.scopes@, s as int, name@, f),
    ensures
        exists_result(b, seq![Value::Memory { scope: s, name }])
            == Ok::<Outcome, RuntimeError>(Outcome::Done(Value::Boolean(true))),
{
    assert(lookup(b.scopes@[s as int].bindings@, name@) == Some(f));
}

/// Once `fn` has bound a slot, `exists` finds it bound.
pub proof fn law_fn_then_exists(
    a: Runtime,
    b: Runtime,
    scope: usize,
    name: String,
    yield_fn: Option<Function>,
    r: Result<Outcome, RuntimeError>,
)
    requires
        scope < a.scopes@.len(),
        fn_post(a, b, seq![Value::Memory { scope, name }], yield_fn, r),
        r is Ok,
    ensures
        exists_result(b, seq![Value::Memory { scope, name }])
            == Ok::<Outcome, RuntimeError>(Outcome::Done(Value::Boolean(true))),
{
    lemma_bound(b, a, scope, name, yield_fn->0);
}

/// Once `let` or `const` has bound a slot to a value at once, `exists`
/// finds it bound.
pub proof fn law_define_then_exists(
    a: Runtime,
    b: Runtime,
    scope: usize,
    name: String,
    yield_fn: Option<Function>,
    from: usize,
    op: Builtin,
    constant: bool,
    r: Result<Outcome, RuntimeError>,
)
    requires
        scope < a.scopes@.len(),
        define_post(a, b, seq![Value::Memory { scope, name }], yield_fn, from, op, constant, r),
        r == Ok::<Outcome, RuntimeError>(Outcome::Done(Value::Nil)),
    ensures
        exists_result(b, seq![Value::Memory { scope, name }])
            == Ok::<Outcome, RuntimeError>(Outcome::Done(Value::Boolean(true))),
{
    let value = yield_fn->0->Variable_value;
    lemma_bound(b, a, scope, name, Function::Variable { value, constant, name });
}

/// Once `let` or `const` has bound a slot to what its block gave, `exists`
/// finds it bound.
pub proof fn law_bind_result_then_exists(
    a: Runtime,
    b: Runtime,
    target: usize,
    name: String,
    value: Value,
    constant: bool,
    r: Result<Outcome, RuntimeError>,
)
    requires
        target < a.scopes@.len(),
        bind_result_post(a, b, target, name, value, constant, r),
        r is Ok,
    ensures
        exists_result(b, seq![Value::Memory { scope: target, name }])
            == Ok::<Outcome, RuntimeError>(Outcome::Done(Value::Boolean(true))),
{
    lemma_bound(b, a, target, name, Function::Variable { value, constant, name });
}

/// After `del`, `exists` finds the slot unbound, where no scope that it is
/// nested in binds the name.
pub proof fn law_del_then_not_exists(
    a: Runtime,
    b: Runtime,
    scope: usize,
    name: String,
    r: Result<Outcome, RuntimeError>,
)
    requires
        scope < a.scopes@.len(),
        a.scopes@[scope as int].parent matches Some(p) ==> resolve(a.scopes@, p as int, name@) is None,
        del_post(a, b, seq![Value::Memory { scope, name }], r),
    ensures
        exists_result(b, seq![Value::Memory { scope, name }])
            == Ok::<Outcome, RuntimeError>(Outcome::Done(Value::Boolean(false))),
{
    assert(lookup(b.scopes@[scope as int].bindings@, name@) is None);
    if let Some(p) = a.scopes@[scope as int].parent {
        if p < scope {
            lemma_same_resolve_below(a, b, scope, p as int, name@);
        }
    }
}

/// Changing one scope changes nothing that an older scope resolves.
proof fn lemma_same_resolve_below(a: Runtime, b: Runtime, s: usize, t: int, name: Seq<char>)
    requires
        0 <= t < s < a.scopes@.len(),
        a.scopes@.len() == b.scopes@.len(),
        forall|i: int| 0 <= i < a.scopes@.len() && i != s ==> #[trigger] b.scopes@[i] == a.scopes@[i],
    ensures
        resolve(b.scopes@, t, name) == resolve(a.scopes@, t, name),
    decreases t,
{
    assert(b.scopes@[t] == a.scopes@[t]);
    if let Some(p) = a.scopes@[t].parent {
        if p < t {
            lemma_same_resolve_below(a, b, s, p as int, name);
        }
    }
}

/// A second `del` of the same slot changes no binding.
pub proof fn law_del_idempotent(
    a: Runtime,
    b: Runtime,
    c: Runtime,
    scope: usize,
    name: String,
    r1: Result<Outcome, RuntimeError>,
    r2: Result<Outcome, RuntimeError>,
)
    requires
        scope < a.scopes@.len(),
        del_post(a, b, seq![Value::Memory { scope, name }], r1),
        del_post(b, c, seq![Value::Memory { scope, name }], r2),
    ensures
        r2 == r1,
        forall|n: Seq<char>| #[trigger] lookup(c.scopes@[scope as int].bindings@, n)
            == lookup(b.scopes@[scope as int].bindings@, n),
        forall|n: Seq<char>| #[trigger] resolve(c.scopes@, scope as int, n) == resolve(b.scopes@, scope as int, n),
{
    assert forall|n: Seq<char>| #[trigger] resolve(c.scopes@, scope as int, n)
        == resolve(b.scopes@, scope as int, n) by {
        assert(lookup(c.scopes@[scope as int].bindings@, n) == lookup(b.scopes@[scope as int].bindings@, n));
        if let Some(p) = b.scopes@[scope as int].parent {
            if p < scope {
                lemma_same_resolve_below(b, c, scope, p as int, n);
            }
        }
    }
}

/// A name bound as a constant refuses to be bound again as a variable,
/// whatever the new value and flag; nothing changes.
pub proof fn law_const_refuses_rebind(
    a: Runtime,
    b: Runtime,
    c: Runtime,
    target: usize,
    name: String,
    first: Value,
    r1: Result<Outcome, RuntimeError>,
    second: Value,
    constant: bool,
    r2: Result<Outcome, RuntimeError>,
)
    requires
        target < a.scopes@.len(),
        bind_result_post(a, b, target, name, first, true, r1),
        r1 is Ok,
        bind_result_post(b, c, target, name, second, constant, r2),
    ensures
        r2 == Err::<Outcome, RuntimeError>(RuntimeError::ConstantViolation { name }),
        c == b,
{
    assert(lookup(b.scopes@[target as int].bindings@, name@)
        == Some(Function::Variable { value: first, constant: true, name }));
}

/// A name bound as a constant refuses to be bound again by `fn`; nothing
/// changes.
pub proof fn law_const_refuses_fn(
    a: Runtime,
    b: Runtime,
    c: Runtime,
    target: usize,
    name: String,
    first: Value,
    r1: Result<Outcome, RuntimeError>,
    f: Function,
    r2: Result<Outcome, RuntimeError>,
)
    requires
        target < a.scopes@.len(),
        bind_result_post(a, b, target, name, first, true, r1),
        r1 is Ok,
        fn_post(b, c, seq![Value::Memory { scope: target, name }], Some(f), r2),
    ensures
        r2 == Err::<Outcome, RuntimeError>(RuntimeError::ConstantViolation { name }),
        c == b,
{
    assert(lookup(b.scopes@[target as int].bindings@, name@)
        == Some(Function::Variable { value: first, constant: true, name }));
}

/// A block invoked through `call` sees as its arguments exactly those given
/// after the slot: `p(i)` inside it gives the `i`-th of them.
pub proof fn law_call_hands_rest(
    a: Runtime,
    b: Runtime,
    target: usize,
    name: String,
    rest: Seq<Value>,
    yield_fn: Option<Function>,
    scope: usize,
    r: Result<Outcome, RuntimeError>,
)
    requires
        a.scopes@.len() < usize::MAX,
        rest.len() < i64::MAX,
        call_post(a, b, seq![Value::Memory { scope: target, name }] + rest, yield_fn, scope, r),
        r matches Ok(Outcome::Run { .. }),
    ensures
        ({
            let cs = r->Ok_0->Run_scope as int;
            &&& call_scope_of(b.scopes@, cs) == Some(cs)
            &&& values_of(b.scopes@[cs].kind) == rest
            &&& forall|i: int| 0 <= i < rest.len() ==> #[trigger] p_result(b, seq![Value::Number(i as i64)], cs as usize)
                == Ok::<Value, RuntimeError>(rest[i])
        }),
{
    let args = seq![Value::Memory { scope: target, name }] + rest;
    assert(args.subrange(1, args.len() as int) =~= rest);
    let cs = r->Ok_0->Run_scope as int;
    assert(b.scopes@[cs] == b.scopes@.last());
}

/// The block that `yield` invokes resolves every name where it was
/// attached, whatever the callee binds, and gets the arguments of `yield`.
pub proof fn law_yield_resolves_where_attached(
    a: Runtime,
    b: Runtime,
    args: Seq<Value>,
    yield_fn: Option<Function>,
    scope: usize,
    r: Result<Outcome, RuntimeError>,
)
    requires
        a.wf(),
        a.valid(scope),
        a.scopes@.len() < usize::MAX,
        yield_post(a, b, args, yield_fn, scope, r),
        r matches Ok(Outcome::Run { .. }),
    ensures
        ({
            let ns = r->Ok_0->Run_scope as int;
            let c = call_scope_of(a.scopes@, scope as int)->0;
            &&& a.scopes@[c].kind matches ScopeKind::Call { from_scope, .. } && forall|n: Seq<char>|
                #[trigger] resolve(b.scopes@, ns, n) == resolve(a.scopes@, from_scope as int, n)
            &&& values_of(b.scopes@[ns].kind) == args
        }),
{
    lemma_call_scope(a.scopes@, scope as int);
    let c = call_scope_of(a.scopes@, scope as int)->0;
    let ns = r->Ok_0->Run_scope as int;
    let from = a.scopes@[c].kind->Call_from_scope;
    assert(b.scopes@ =~= a.scopes@.push(b.scopes@.last()));
    assert forall|n: Seq<char>| #[trigger] resolve(b.scopes@, ns, n) == resolve(a.scopes@, from as int, n) by {
        assert(lookup(b.scopes@[ns].bindings@, n) is None);
        lemma_resolve_push(a.scopes@, b.scopes@.last(), from as int, n);
    }
}

} // verus!
