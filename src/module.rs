use vstd::prelude::*;
use crate::error::Builtin;

verus! {

/// One operator that a module exposes, under its name.
pub struct Entry {
    pub name: String,
    pub op: Builtin,
}

/// A table of named operators, in the order they were registered.
pub struct Module {
    pub functions: Vec<Entry>,
}

/// The name under which a script calls `op`.
pub open spec fn builtin_name(op: Builtin) -> Seq<char> {
    match op {
        Builtin::Fn => "fn"@,
        Builtin::Let => "let"@,
        Builtin::Const => "const"@,
        Builtin::Del => "del"@,
        Builtin::Call => "call"@,
        Builtin::Exists => "exists"@,
        Builtin::P => "p"@,
        Builtin::Args => "args"@,
        Builtin::Yield => "yield"@,
        Builtin::Return => "return"@,
        Builtin::Pass => "pass"@,
        Builtin::Print => "print"@,
    }
}

/// The operators of the runtime, in the order they are registered.
pub open spec fn runtime_builtins() -> Seq<Builtin> {
    seq![
        Builtin::Fn, Builtin::Let, Builtin::Const, Builtin::Del, Builtin::Call, Builtin::Exists,
        Builtin::P, Builtin::Args, Builtin::Yield, Builtin::Return, Builtin::Pass, Builtin::Print,
    ]
}

impl Module {
    pub fn new() -> (r: Module)
        ensures
            r.functions@.len() == 0,
    {
        Module { functions: Vec::new() }
    }

    /// Registers `op` under `name`, after the entries already there.
    pub fn function(&mut self, name: &str, op: Builtin)
        ensures
            final(self).functions@.len() == old(self).functions@.len() + 1,
            final(self).functions@.drop_last() == old(self).functions@,
            final(self).functions@.last().name@ == name@,
            final(self).functions@.last().op == op,
    {
        self.functions.push(Entry { name: name.to_owned(), op });
        assert(self.functions@.drop_last() =~= old(self).functions@);
    }

    /// The operator registered last under `name`, if any.
    pub fn get(&self, name: &str) -> (r: Option<Builtin>)
        ensures
            r matches Some(op) ==> exists|i: int| 0 <= i < self.functions@.len()
                && self.functions@[i].name@ == name@ && self.functions@[i].op == op,
            r is None ==> forall|i: int| 0 <= i < self.functions@.len() ==> self.functions@[i].name@ != name@,
    {
        let mut i: usize = self.functions.len();
        while i > 0
            invariant
                i <= self.functions@.len(),
                forall|j: int| i <= j < self.functions@.len() ==> self.functions@[j].name@ != name@,
            decreases i,
        {
            if self.functions[i - 1].name == name.to_owned() {
                return Some(self.functions[i - 1].op);
            }
            i = i - 1;
        }
        None
    }
}

/// Registers the runtime's operators in `module`, each under its name.
pub fn construct(module: &mut Module)
    ensures
        final(module).functions@.len() == old(module).functions@.len() + 12,
        final(module).functions@.take(old(module).functions@.len() as int) == old(module).functions@,
        forall|k: int| 0 <= k < 12 ==> {
            let e = #[trigger] final(module).functions@[old(module).functions@.len() + k];
            e.op == runtime_builtins()[k] && e.name@ == builtin_name(runtime_builtins()[k])
        },
{
    let ghost start = module.functions@;
    module.function("fn", Builtin::Fn);
    module.function("let", Builtin::Let);
    module.function("const", Builtin::Const);
    module.function("del", Builtin::Del);
    module.function("call", Builtin::Call);
    module.function("exists", Builtin::Exists);
    module.function("p", Builtin::P);
    module.function("args", Builtin::Args);
    module.function("yield", Builtin::Yield);
    module.function("return", Builtin::Return);
    module.function("pass", Builtin::Pass);
    module.function("print", Builtin::Print);
    assert(module.functions@.take(start.len() as int) =~= start);
}

} // verus!
