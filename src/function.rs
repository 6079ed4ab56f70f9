use vstd::prelude::*;
use crate::value::Value;

verus! {

/// A callable entity.
///
/// A `Variable` yields its value when called. A `Block` is an executable
/// unit supplied from outside (a parsed block of the language), named by its
/// handle; its body is run by the evaluator that owns it.
#[derive(Debug, PartialEq, Eq)]
pub enum Function {
    Variable { value: Value, constant: bool, name: String },
    Block(usize),
}

impl Function {
    /// A copy of the function, field for field.
    pub fn copy(&self) -> (r: Function)
        ensures
            r == *self,
    {
        match self {
            Function::Variable { value, constant, name } => Function::Variable {
                value: value.copy(),
                constant: *constant,
                name: name.clone(),
            },
            Function::Block(b) => Function::Block(*b),
        }
    }

    /// Whether this is a variable marked constant.
    pub fn is_constant(&self) -> (r: bool)
        ensures
            r == is_constant(*self),
    {
        match self {
            Function::Variable { constant, .. } => *constant,
            Function::Block(_) => false,
        }
    }
}

pub open spec fn is_constant(f: Function) -> bool {
    f matches Function::Variable { constant, .. } && constant
}

/// A copy of an optional function.
pub fn copy_option(f: &Option<Function>) -> (r: Option<Function>)
    ensures
        r == *f,
{
    match f {
        Some(g) => Some(g.copy()),
        None => None,
    }
}

/// One entry of a scope's binding table.
pub struct Binding {
    pub name: String,
    pub function: Function,
}

/// What a binding table gives for `name`: the latest entry under that name.
pub open spec fn lookup(bs: Seq<Binding>, name: Seq<char>) -> Option<Function>
    decreases bs.len(),
{
    if bs.len() == 0 {
        None
    } else if bs.last().name@ == name {
        Some(bs.last().function)
    } else {
        lookup(bs.drop_last(), name)
    }
}

/// The entry of `bs` for `name`, if any.
pub fn find(bs: &Vec<Binding>, name: &str) -> (r: Option<Function>)
    ensures
        r == lookup(bs@, name@),
{
    let mut i: usize = bs.len();
    assert(bs@.take(i as int) =~= bs@);
    while i > 0
        invariant
            i <= bs.len(),
            lookup(bs@, name@) == lookup(bs@.take(i as int), name@),
        decreases i,
    {
        assert(bs@.take(i as int).drop_last() =~= bs@.take(i - 1));
        if same_name(&bs[i - 1].name, name) {
            return Some(bs[i - 1].function.copy());
        }
        i = i - 1;
    }
    None
}

fn same_name(a: &String, b: &str) -> (r: bool)
    ensures
        r == (a@ == b@),
{
    *a == b.to_owned()
}

/// The table without any entry for `name`; the other entries keep their order.
pub fn without(bs: &Vec<Binding>, name: &str) -> (r: Vec<Binding>)
    ensures
        forall|n: Seq<char>| #[trigger] lookup(r@, n) == if n == name@ {
            None
        } else {
            lookup(bs@, n)
        },
{
    let mut out: Vec<Binding> = Vec::new();
    let mut i: usize = 0;
    while i < bs.len()
        invariant
            i <= bs.len(),
            forall|n: Seq<char>| #[trigger] lookup(out@, n) == if n == name@ {
                None
            } else {
                lookup(bs@.take(i as int), n)
            },
        decreases bs.len() - i,
    {
        let ghost before = out@;
        assert(bs@.take(i + 1).drop_last() =~= bs@.take(i as int));
        assert(bs@.take(i + 1).last() == bs@[i as int]);
        if !same_name(&bs[i].name, name) {
            out.push(Binding { name: bs[i].name.clone(), function: bs[i].function.copy() });
            assert(out@.drop_last() =~= before);
        }
        assert forall|n: Seq<char>| #[trigger] lookup(out@, n) == if n == name@ {
            None
        } else {
            lookup(bs@.take(i + 1), n)
        } by {
            if out@.len() > before.len() {
                assert(lookup(out@, n) == if out@.last().name@ == n {
                    Some(out@.last().function)
                } else {
                    lookup(before, n)
                });
            }
        }
        i = i + 1;
    }
    assert(bs@.take(bs.len() as int) =~= bs@);
    out
}

/// The table with `name` bound to `f`, in place of any earlier entry.
pub fn with(bs: &Vec<Binding>, name: &str, f: Function) -> (r: Vec<Binding>)
    ensures
        forall|n: Seq<char>| #[trigger] lookup(r@, n) == if n == name@ {
            Some(f)
        } else {
            lookup(bs@, n)
        },
{
    let mut out = without(bs, name);
    let ghost before = out@;
    out.push(Binding { name: name.to_owned(), function: f });
    assert(out@.drop_last() =~= before);
    assert forall|n: Seq<char>| #[trigger] lookup(out@, n) == if n == name@ {
        Some(f)
    } else {
        lookup(bs@, n)
    } by {
        assert(out@.last().name@ == name@);
        assert(lookup(before, n) == if n == name@ {
            None
        } else {
            lookup(bs@, n)
        });
        assert(lookup(out@, n) == if out@.last().name@ == n {
            Some(out@.last().function)
        } else {
            lookup(before, n)
        });
    }
    out
}

} // verus!
