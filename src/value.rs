use vstd::prelude::*;
use vstd::string::*;

verus! {

/// A runtime value of the scripting language.
///
/// `Memory` is not a stored value but a reference to one binding slot: the
/// scope (by its handle in the runtime) and the name inside it.
#[derive(Debug, PartialEq, Eq)]
pub enum Value {
    Nil,
    Boolean(bool),
    Number(i64),
    String(String),
    Memory { scope: usize, name: String },
    Scope(usize),
}

/// A classifier of values: one tag per variant of `Value`, and `Any`.
#[derive(Clone, Copy, Debug, PartialEq, Eq, Structural)]
pub enum DataType {
    Any,
    Nil,
    Boolean,
    Number,
    String,
    Memory,
    Scope,
}

/// The tag of the variant that `v` belongs to.
pub open spec fn type_of(v: Value) -> DataType {
    match v {
        Value::Nil => DataType::Nil,
        Value::Boolean(_) => DataType::Boolean,
        Value::Number(_) => DataType::Number,
        Value::String(_) => DataType::String,
        Value::Memory { .. } => DataType::Memory,
        Value::Scope(_) => DataType::Scope,
    }
}

/// `Any` matches every value, every other tag the values of its variant.
pub open spec fn type_matches(t: DataType, v: Value) -> bool {
    t == DataType::Any || t == type_of(v)
}

impl Value {
    /// A copy of the value, field for field.
    pub fn copy(&self) -> (r: Value)
        ensures
            r == *self,
    {
        match self {
            Value::Nil => Value::Nil,
            Value::Boolean(b) => Value::Boolean(*b),
            Value::Number(n) => Value::Number(*n),
            Value::String(s) => Value::String(s.clone()),
            Value::Memory { scope, name } => Value::Memory { scope: *scope, name: name.clone() },
            Value::Scope(s) => Value::Scope(*s),
        }
    }

    pub fn get_type(&self) -> (r: DataType)
        ensures
            r == type_of(*self),
    {
        match self {
            Value::Nil => DataType::Nil,
            Value::Boolean(_) => DataType::Boolean,
            Value::Number(_) => DataType::Number,
            Value::String(_) => DataType::String,
            Value::Memory { .. } => DataType::Memory,
            Value::Scope(_) => DataType::Scope,
        }
    }
}


/// The textual name of a tag, as written in a script.
pub open spec fn tag_name(t: DataType) -> Seq<char> {
    match t {
        DataType::Any => "Any"@,
        DataType::Nil => "None"@,
        DataType::Boolean => "Boolean"@,
        DataType::Number => "Number"@,
        DataType::String => "String"@,
        DataType::Memory => "Memory"@,
        DataType::Scope => "Scope"@,
    }
}

/// The tag named by `s`, if any.
pub open spec fn parse_tag(s: Seq<char>) -> Option<DataType> {
    if s == "Any"@ {
        Some(DataType::Any)
    } else if s == "None"@ {
        Some(DataType::Nil)
    } else if s == "Boolean"@ {
        Some(DataType::Boolean)
    } else if s == "Number"@ {
        Some(DataType::Number)
    } else if s == "String"@ {
        Some(DataType::String)
    } else if s == "Memory"@ {
        Some(DataType::Memory)
    } else if s == "Scope"@ {
        Some(DataType::Scope)
    } else {
        None
    }
}

/// Whether two texts hold the same characters.
pub fn same_text(a: &str, b: &str) -> (r: bool)
    ensures
        r == (a@ == b@),
{
    a.to_owned() == b.to_owned()
}

impl DataType {
    pub fn matches(&self, v: &Value) -> (r: bool)
        ensures
            r == type_matches(*self, *v),
    {
        match self {
            DataType::Any => true,
            _ => *self == v.get_type(),
        }
    }

    /// The textual name of the tag.
    pub fn name(&self) -> (r: &'static str)
        ensures
            r@ == tag_name(*self),
    {
        match self {
            DataType::Any => "Any",
            DataType::Nil => "None",
            DataType::Boolean => "Boolean",
            DataType::Number => "Number",
            DataType::String => "String",
            DataType::Memory => "Memory",
            DataType::Scope => "Scope",
        }
    }

    /// The tag whose textual name is `s`; `None` where no tag has that name.
    pub fn from_name(s: &str) -> (r: Option<DataType>)
        ensures
            r == parse_tag(s@),
            r matches Some(t) ==> tag_name(t) == s@,
            r is None ==> forall|t: DataType| tag_name(t) != s@,
    {
        proof {
            reveal_strlit("Any");
            reveal_strlit("None");
            reveal_strlit("Boolean");
            reveal_strlit("Number");
            reveal_strlit("String");
            reveal_strlit("Memory");
            reveal_strlit("Scope");
        }
        if same_text(s, "Any") {
            Some(DataType::Any)
        } else if same_text(s, "None") {
            Some(DataType::Nil)
        } else if same_text(s, "Boolean") {
            Some(DataType::Boolean)
        } else if same_text(s, "Number") {
            Some(DataType::Number)
        } else if same_text(s, "String") {
            Some(DataType::String)
        } else if same_text(s, "Memory") {
            Some(DataType::Memory)
        } else if same_text(s, "Scope") {
            Some(DataType::Scope)
        } else {
            assert forall|t: DataType| tag_name(t) != s@ by {
                match t {
                    DataType::Any => {},
                    DataType::Nil => {},
                    DataType::Boolean => {},
                    DataType::Number => {},
                    DataType::String => {},
                    DataType::Memory => {},
                    DataType::Scope => {},
                }
            }
            None
        }
    }
}

/// The character of a decimal digit.
pub open spec fn digit_char(d: nat) -> char {
    if d == 0 { '0' } else if d == 1 { '1' } else if d == 2 { '2' } else if d == 3 { '3' }
    else if d == 4 { '4' } else if d == 5 { '5' } else if d == 6 { '6' } else if d == 7 { '7' }
    else if d == 8 { '8' } else { '9' }
}

/// The decimal digits of `n`, most significant first, with no leading zero.
pub open spec fn decimal(n: nat) -> Seq<char>
    decreases n,
{
    if n < 10 {
        seq![digit_char(n)]
    } else {
        decimal(n / 10).push(digit_char(n % 10))
    }
}

/// The decimal form of a signed integer.
pub open spec fn number_text(n: int) -> Seq<char> {
    if n < 0 {
        seq!['-'] + decimal((-n) as nat)
    } else {
        decimal(n as nat)
    }
}

/// The canonical text of a value: every variant renders.
pub open spec fn render(v: Value) -> Seq<char> {
    match v {
        Value::Nil => "none"@,
        Value::Boolean(b) => if b { "true"@ } else { "false"@ },
        Value::Number(n) => number_text(n as int),
        Value::String(s) => s@,
        Value::Memory { name, .. } => seq!['<'] + name@ + seq!['>'],
        Value::Scope(_) => "<scope>"@,
    }
}

/// The texts of `vs`, in order, with one space between two of them.
pub open spec fn render_all(vs: Seq<Value>) -> Seq<char>
    decreases vs.len(),
{
    if vs.len() == 0 {
        Seq::empty()
    } else if vs.len() == 1 {
        render(vs[0])
    } else {
        render_all(vs.drop_last()) + seq![' '] + render(vs.last())
    }
}

fn digit_text(d: u64) -> (r: &'static str)
    requires
        d < 10,
    ensures
        r@ == seq![digit_char(d as nat)],
{
    proof {
        reveal_strlit("0");
        reveal_strlit("1");
        reveal_strlit("2");
        reveal_strlit("3");
        reveal_strlit("4");
        reveal_strlit("5");
        reveal_strlit("6");
        reveal_strlit("7");
        reveal_strlit("8");
        reveal_strlit("9");
    }
    if d == 0 { "0" } else if d == 1 { "1" } else if d == 2 { "2" } else if d == 3 { "3" }
    else if d == 4 { "4" } else if d == 5 { "5" } else if d == 6 { "6" } else if d == 7 { "7" }
    else if d == 8 { "8" } else { "9" }
}

fn decimal_text(n: u64) -> (r: String)
    ensures
        r@ == decimal(n as nat),
    decreases n,
{
    if n < 10 {
        String::from_str(digit_text(n))
    } else {
        let mut s = decimal_text(n / 10);
        s.append(digit_text(n % 10));
        s
    }
}

fn number_string(n: i64) -> (r: String)
    ensures
        r@ == number_text(n as int),
{
    if n < 0 {
        let m: u64 = ((-(n + 1)) as u64) + 1;
        assert(m as int == -(n as int));
        proof {
            reveal_strlit("-");
        }
        String::from_str("-").concat(decimal_text(m).as_str())
    } else {
        decimal_text(n as u64)
    }
}

impl Value {
    /// The canonical text of the value.
    pub fn render(&self) -> (r: String)
        ensures
            r@ == render(*self),
    {
        match self {
            Value::Nil => String::from_str("none"),
            Value::Boolean(b) => if *b { String::from_str("true") } else { String::from_str("false") },
            Value::Number(n) => number_string(*n),
            Value::String(s) => s.clone(),
            Value::Memory { name, .. } => {
                proof {
                    reveal_strlit("<");
                    reveal_strlit(">");
                }
                String::from_str("<").concat(name.as_str()).concat(">")
            },
            Value::Scope(_) => String::from_str("<scope>"),
        }
    }
}

/// The line that printing `vs` writes: their texts joined by single spaces,
/// and a line break.
pub fn print_line(vs: &Vec<Value>) -> (r: String)
    ensures
        r@ == render_all(vs@) + seq!['\n'],
{
    let mut s = String::new();
    let mut i: usize = 0;
    while i < vs.len()
        invariant
            i <= vs.len(),
            s@ == render_all(vs@.take(i as int)),
        decreases vs.len() - i,
    {
        proof {
            reveal_strlit(" ");
        }
        let piece = vs[i].render();
        if i > 0 {
            s.append(" ");
        }
        s.append(piece.as_str());
        assert(vs@.take(i + 1).drop_last() =~= vs@.take(i as int));
        i = i + 1;
    }
    assert(vs@.take(vs.len() as int) =~= vs@);
    proof {
        reveal_strlit("\n");
    }
    s.append("\n");
    s
}

} // verus!
