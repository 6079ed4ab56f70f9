use vstd::prelude::*;
use crate::function::{Binding, Function, lookup, find, with, without};
use crate::value::Value;

verus! {

/// The shape of a scope, with what each shape holds beyond its bindings.
pub enum ScopeKind {
    /// The global scope of a program.
    Root,
    /// A sequence of statements; `broken` is set when early exit was requested.
    Block { broken: bool },
    /// The activation record of one call: its positional arguments, the
    /// block the caller attached, and the scope where that block was attached.
    Call { args: Vec<Value>, yield_fn: Option<Function>, from_scope: usize },
    /// A list-backed pseudo-scope over a sequence of values.
    List { items: Vec<Value> },
}

/// One scope: its shape, the scope it is nested in, its bindings and its
/// return slot.
pub struct ScopeRec {
    pub kind: ScopeKind,
    pub parent: Option<usize>,
    pub bindings: Vec<Binding>,
    pub return_value: Value,
}

/// All scopes of a running program, each named by its index.
///
/// A scope is only ever nested in one made before it, and a call only
/// captures a scope made before it, so every chain of scopes is finite.
pub struct Runtime {
    pub scopes: Vec<ScopeRec>,
}

/// What the scope `s` and the scopes it is nested in give for `name`; the
/// innermost binding wins.
pub open spec fn resolve(scopes: Seq<ScopeRec>, s: int, name: Seq<char>) -> Option<Function>
    decreases s,
{
    if 0 <= s < scopes.len() {
        match lookup(scopes[s].bindings@, name) {
            Some(f) => Some(f),
            None => match scopes[s].parent {
                Some(p) => if p < s { resolve(scopes, p as int, name) } else { None },
                None => None,
            },
        }
    } else {
        None
    }
}

/// The nearest call scope around `s`, `s` itself included.
pub open spec fn call_scope_of(scopes: Seq<ScopeRec>, s: int) -> Option<int>
    decreases s,
{
    if 0 <= s < scopes.len() {
        if scopes[s].kind is Call {
            Some(s)
        } else {
            match scopes[s].parent {
                Some(p) => if p < s { call_scope_of(scopes, p as int) } else { None },
                None => None,
            }
        }
    } else {
        None
    }
}

/// `b` is `a` with at most the scope `s` changed.
pub open spec fn others_unchanged(a: Seq<ScopeRec>, b: Seq<ScopeRec>, s: int) -> bool {
    &&& a.len() == b.len()
    &&& forall|i: int| 0 <= i < a.len() && i != s ==> #[trigger] b[i] == a[i]
}

/// `b` is `a` with the bindings of `s` alone changed.
pub open spec fn only_bindings_changed(a: Seq<ScopeRec>, b: Seq<ScopeRec>, s: int) -> bool {
    &&& others_unchanged(a, b, s)
    &&& b[s].kind == a[s].kind
    &&& b[s].parent == a[s].parent
    &&& b[s].return_value == a[s].return_value
}

impl Runtime {
    pub open spec fn wf(&self) -> bool {
        forall|i: int| 0 <= i < self.scopes@.len() ==> {
            &&& (#[trigger] self.scopes@[i]).parent matches Some(p) ==> p < i
            &&& self.scopes@[i].kind matches ScopeKind::Call { from_scope, .. } ==> from_scope < i
        }
    }

    pub open spec fn valid(&self, s: usize) -> bool {
        s < self.scopes@.len()
    }

    /// A runtime holding only the global scope, as scope 0.
    pub fn new() -> (r: Runtime)
        ensures
            r.wf(),
            r.scopes@.len() == 1,
            r.scopes@[0].kind is Root,
            r.scopes@[0].parent is None,
            r.scopes@[0].bindings@.len() == 0,
    {
        let mut scopes: Vec<ScopeRec> = Vec::new();
        scopes.push(ScopeRec { kind: ScopeKind::Root, parent: None, bindings: Vec::new(), return_value: Value::Nil });
        Runtime { scopes }
    }

    fn add(&mut self, rec: ScopeRec) -> (r: usize)
        requires
            old(self).wf(),
            rec.parent matches Some(p) ==> p < old(self).scopes@.len(),
            rec.kind matches ScopeKind::Call { from_scope, .. } ==> from_scope < old(self).scopes@.len(),
            old(self).scopes@.len() < usize::MAX,
        ensures
            final(self).wf(),
            r == old(self).scopes@.len(),
            final(self).scopes@ == old(self).scopes@.push(rec),
    {
        let r = self.scopes.len();
        self.scopes.push(rec);
        r
    }

    /// A new, empty block scope nested in `parent`.
    pub fn new_block(&mut self, parent: usize) -> (r: usize)
        requires
            old(self).wf(),
            old(self).valid(parent),
            old(self).scopes@.len() < usize::MAX,
        ensures
            final(self).wf(),
            r == old(self).scopes@.len(),
            final(self).scopes@ == old(self).scopes@.push(ScopeRec {
                kind: ScopeKind::Block { broken: false },
                parent: Some(parent),
                bindings: final(self).scopes@[r as int].bindings,
                return_value: Value::Nil,
            }),
            final(self).scopes@[r as int].bindings@.len() == 0,
    {
        self.add(ScopeRec {
            kind: ScopeKind::Block { broken: false },
            parent: Some(parent),
            bindings: Vec::new(),
            return_value: Value::Nil,
        })
    }

    /// A new call scope for a call made from `from`: it holds `args` and
    /// `yield_fn`, captures `from`, and is nested in it.
    pub fn new_call(&mut self, args: Vec<Value>, yield_fn: Option<Function>, from: usize) -> (r: usize)
        requires
            old(self).wf(),
            old(self).valid(from),
            old(self).scopes@.len() < usize::MAX,
        ensures
            final(self).wf(),
            r == old(self).scopes@.len(),
            final(self).scopes@ == old(self).scopes@.push(ScopeRec {
                kind: ScopeKind::Call { args, yield_fn, from_scope: from },
                parent: Some(from),
                bindings: final(self).scopes@[r as int].bindings,
                return_value: Value::Nil,
            }),
            final(self).scopes@[r as int].bindings@.len() == 0,
    {
        self.add(ScopeRec {
            kind: ScopeKind::Call { args, yield_fn, from_scope: from },
            parent: Some(from),
            bindings: Vec::new(),
            return_value: Value::Nil,
        })
    }

    /// What `s` and the scopes it is nested in give for `name`.
    pub fn get_function(&self, s: usize, name: &str) -> (r: Option<Function>)
        requires
            self.wf(),
            self.valid(s),
        ensures
            r == resolve(self.scopes@, s as int, name@),
    {
        let mut cur: usize = s;
        loop
            invariant
                self.wf(),
                self.valid(cur),
                resolve(self.scopes@, s as int, name@) == resolve(self.scopes@, cur as int, name@),
            decreases cur,
        {
            let found = find(&self.scopes[cur].bindings, name);
            if found.is_some() {
                return found;
            }
            match self.scopes[cur].parent {
                Some(p) => {
                    cur = p;
                },
                None => {
                    return None;
                },
            }
        }
    }

    /// Whether `name` is bound in `s` or a scope it is nested in.
    pub fn has_function(&self, s: usize, name: &str) -> (r: bool)
        requires
            self.wf(),
            self.valid(s),
        ensures
            r == resolve(self.scopes@, s as int, name@) is Some,
    {
        self.get_function(s, name).is_some()
    }

    /// Binds `name` in `s` itself to `f`, replacing what it held there.
    pub fn set_function(&mut self, s: usize, name: &str, f: Function)
        requires
            old(self).wf(),
            old(self).valid(s),
        ensures
            final(self).wf(),
            only_bindings_changed(old(self).scopes@, final(self).scopes@, s as int),
            forall|n: Seq<char>| #[trigger] lookup(final(self).scopes@[s as int].bindings@, n)
                == if n == name@ { Some(f) } else { lookup(old(self).scopes@[s as int].bindings@, n) },
    {
        let nb = with(&self.scopes[s].bindings, name, f);
        self.scopes[s].bindings = nb;
    }

    /// Removes the binding of `name` from `s` itself; nothing happens where
    /// there is none.
    pub fn delete_function(&mut self, s: usize, name: &str)
        requires
            old(self).wf(),
            old(self).valid(s),
        ensures
            final(self).wf(),
            only_bindings_changed(old(self).scopes@, final(self).scopes@, s as int),
            forall|n: Seq<char>| #[trigger] lookup(final(self).scopes@[s as int].bindings@, n)
                == if n == name@ { None } else { lookup(old(self).scopes@[s as int].bindings@, n) },
    {
        let nb = without(&self.scopes[s].bindings, name);
        self.scopes[s].bindings = nb;
    }

    /// A new list-backed scope over `items`, nested in no other.
    pub fn new_list(&mut self, items: Vec<Value>) -> (r: usize)
        requires
            old(self).wf(),
            old(self).scopes@.len() < usize::MAX,
        ensures
            final(self).wf(),
            r == old(self).scopes@.len(),
            final(self).scopes@ == old(self).scopes@.push(ScopeRec {
                kind: ScopeKind::List { items },
                parent: None,
                bindings: final(self).scopes@[r as int].bindings,
                return_value: Value::Nil,
            }),
            final(self).scopes@[r as int].bindings@.len() == 0,
    {
        self.add(ScopeRec {
            kind: ScopeKind::List { items },
            parent: None,
            bindings: Vec::new(),
            return_value: Value::Nil,
        })
    }

    /// The nearest call scope around `s`, `s` itself included.
    pub fn get_call_scope(&self, s: usize) -> (r: Option<usize>)
        requires
            self.wf(),
            self.valid(s),
        ensures
            r matches Some(c) ==> call_scope_of(self.scopes@, s as int) == Some(c as int),
            r is None ==> call_scope_of(self.scopes@, s as int) is None,
    {
        let mut cur: usize = s;
        loop
            invariant
                self.wf(),
                self.valid(cur),
                call_scope_of(self.scopes@, s as int) == call_scope_of(self.scopes@, cur as int),
            decreases cur,
        {
            if let ScopeKind::Call { .. } = &self.scopes[cur].kind {
                return Some(cur);
            }
            match self.scopes[cur].parent {
                Some(p) => {
                    cur = p;
                },
                None => {
                    return None;
                },
            }
        }
    }

    /// Writes `v` into the return slot of `s`.
    pub fn set_return_value(&mut self, s: usize, v: Value)
        requires
            old(self).wf(),
            old(self).valid(s),
        ensures
            final(self).wf(),
            others_unchanged(old(self).scopes@, final(self).scopes@, s as int),
            final(self).scopes@[s as int] == (ScopeRec { return_value: v, ..old(self).scopes@[s as int] }),
    {
        self.scopes[s].return_value = v;
    }

    /// Requests early exit of `s` where it is a block scope, and says
    /// whether it was one; any other scope is left as it is.
    pub fn break_self(&mut self, s: usize) -> (r: bool)
        requires
            old(self).wf(),
            old(self).valid(s),
        ensures
            final(self).wf(),
            r == old(self).scopes@[s as int].kind is Block,
            r ==> final(self).scopes@ == old(self).scopes@.update(s as int, ScopeRec {
                kind: ScopeKind::Block { broken: true },
                ..old(self).scopes@[s as int]
            }),
            !r ==> final(self).scopes@ == old(self).scopes@,
    {
        if let ScopeKind::Block { .. } = &self.scopes[s].kind {
            self.scopes[s].kind = ScopeKind::Block { broken: true };
            true
        } else {
            false
        }
    }

    /// Whether early exit of block scope `s` was requested.
    pub fn is_broken(&self, s: usize) -> (r: bool)
        requires
            self.valid(s),
        ensures
            r == (self.scopes@[s as int].kind matches ScopeKind::Block { broken } && broken),
    {
        match &self.scopes[s].kind {
            ScopeKind::Block { broken } => *broken,
            _ => false,
        }
    }

    /// The value in the return slot of `s`.
    pub fn return_value(&self, s: usize) -> (r: Value)
        requires
            self.valid(s),
        ensures
            r == self.scopes@[s as int].return_value,
    {
        self.scopes[s].return_value.copy()
    }

    /// The values that scope `s` holds as a call's arguments or as a list.
    pub fn values(&self, s: usize) -> (r: Option<Vec<Value>>)
        requires
            self.valid(s),
        ensures
            r matches Some(v) ==> v@ == values_of(self.scopes@[s as int].kind),
            r is None <==> !(self.scopes@[s as int].kind is Call || self.scopes@[s as int].kind is List),
    {
        match &self.scopes[s].kind {
            ScopeKind::Call { args, .. } => Some(copy_values(args, 0)),
            ScopeKind::List { items } => Some(copy_values(items, 0)),
            _ => None,
        }
    }
}

/// The values held by a call scope (its arguments) or a list scope.
pub open spec fn values_of(k: ScopeKind) -> Seq<Value> {
    match k {
        ScopeKind::Call { args, .. } => args@,
        ScopeKind::List { items } => items@,
        _ => Seq::empty(),
    }
}

/// A copy of `vs` from position `start` on.
pub fn copy_values(vs: &Vec<Value>, start: usize) -> (r: Vec<Value>)
    requires
        start <= vs@.len(),
    ensures
        r@ == vs@.subrange(start as int, vs@.len() as int),
{
    let mut out: Vec<Value> = Vec::new();
    let mut i: usize = start;
    while i < vs.len()
        invariant
            start <= i <= vs@.len(),
            out@ == vs@.subrange(start as int, i as int),
        decreases vs.len() - i,
    {
        out.push(vs[i].copy());
        assert(out@ =~= vs@.subrange(start as int, i + 1));
        i = i + 1;
    }
    out
}

/// Adding a scope changes nothing that an older scope resolves.
pub proof fn lemma_resolve_push(scopes: Seq<ScopeRec>, x: ScopeRec, s: int, name: Seq<char>)
    requires
        0 <= s < scopes.len(),
    ensures
        resolve(scopes.push(x), s, name) == resolve(scopes, s, name),
    decreases s,
{
    assert(scopes.push(x)[s] == scopes[s]);
    if let Some(p) = scopes[s].parent {
        if p < s {
            lemma_resolve_push(scopes, x, p as int, name);
        }
    }
}

} // verus!
