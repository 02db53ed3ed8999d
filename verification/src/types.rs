//! Runtime values: their mathematical model, equality, text form and typed
//! accessors.
use super::errors::{ErrType, Failure};
use vstd::prelude::*;

verus! {

/// What a function implementation returns.
pub type Res = Result<Val, ErrType<'static>>;

/// The evaluated arguments of a call, in order.
pub type Args = Vec<Val>;

/// A runtime value as a mathematical object.
pub enum Value {
    Int(int),
    Char(char),
    Bool(bool),
    List(Seq<Value>),
    Symbol(Seq<char>),
}

/// A runtime value.
#[derive(Debug)]
pub enum Val {
    Int(i64),
    Char(char),
    Bool(bool),
    List(Vec<Val>),
    Symbol(String),
}

/// The value that `v` stands for.
pub open spec fn value_of(v: Val) -> Value
    decreases v,
{
    match v {
        Val::Int(a) => Value::Int(a as int),
        Val::Char(a) => Value::Char(a),
        Val::Bool(a) => Value::Bool(a),
        Val::List(a) => Value::List(values_of(a@)),
        Val::Symbol(a) => Value::Symbol(a@),
    }
}

/// The values that the items stand for, in the same order.
pub open spec fn values_of(items: Seq<Val>) -> Seq<Value>
    decreases items,
{
    Seq::new(
        items.len(),
        |i: int|
            if 0 <= i < items.len() {
                value_of(items[i])
            } else {
                Value::Bool(false)
            },
    )
}

impl View for Val {
    type V = Value;

    open spec fn view(&self) -> Value {
        value_of(*self)
    }
}

/// What a call returned, as a mathematical object.
pub open spec fn outcome(r: Res) -> Result<Value, Failure> {
    match r {
        Ok(v) => Ok(v@),
        Err(e) => Err(e@),
    }
}

/// The failure of asking for a value of type `expected` where `found` is.
pub open spec fn wrong_type(expected: Seq<char>, found: Value) -> Failure {
    Failure::Type { expected, actual: tag_of(found) }
}

/// The type tag of `v`: the name of its variant.
pub open spec fn tag_of(v: Value) -> Seq<char> {
    match v {
        Value::Int(_) => "int"@,
        Value::Char(_) => "char"@,
        Value::Bool(_) => "bool"@,
        Value::List(_) => "list"@,
        Value::Symbol(_) => "symbol"@,
    }
}

/// The character of one decimal digit.
pub open spec fn digit_char(d: int) -> char {
    if d == 0 {
        '0'
    } else if d == 1 {
        '1'
    } else if d == 2 {
        '2'
    } else if d == 3 {
        '3'
    } else if d == 4 {
        '4'
    } else if d == 5 {
        '5'
    } else if d == 6 {
        '6'
    } else if d == 7 {
        '7'
    } else if d == 8 {
        '8'
    } else {
        '9'
    }
}

/// The decimal digits of `n`, most significant first, without leading zeros.
pub open spec fn digits(n: nat) -> Seq<char>
    decreases n,
{
    if n < 10 {
        seq![digit_char(n as int)]
    } else {
        digits(n / 10).push(digit_char((n % 10) as int))
    }
}

/// The decimal text of `n`, with a minus sign where it is negative.
pub open spec fn decimal(n: int) -> Seq<char> {
    if n < 0 {
        seq!['-'] + digits((-n) as nat)
    } else {
        digits(n as nat)
    }
}

/// The text form of `v`: integers, characters and booleans as they are
/// written, a symbol behind a quote mark, a list as its items between
/// parentheses, separated by a comma and a space.
pub open spec fn render(v: Value) -> Seq<char>
    decreases v, 0nat,
{
    match v {
        Value::Int(n) => decimal(n),
        Value::Char(c) => seq![c],
        Value::Bool(b) => if b {
            "true"@
        } else {
            "false"@
        },
        Value::Symbol(name) => seq!['\''] + name,
        Value::List(items) => seq!['('] + render_first(items, items.len()) + seq![')'],
    }
}

/// The text of the first `n` items of a list, with the separators between
/// them.
pub open spec fn render_first(items: Seq<Value>, n: nat) -> Seq<char>
    decreases items, n,
{
    if n == 0 || n > items.len() {
        Seq::empty()
    } else if n == 1 {
        render(items[0])
    } else {
        render_first(items, (n - 1) as nat) + ", "@ + render(items[n - 1])
    }
}

/// `String::push` of the standard library: the string afterwards is the
/// string before with the character appended.
pub assume_specification[ String::push ](s: &mut String, ch: char)
    ensures
        final(s)@ == old(s)@.push(ch),
;

/// The character of the decimal digit `d`.
fn digit(d: u64) -> (c: char)
    requires
        d < 10,
    ensures
        c == digit_char(d as int),
{
    if d == 0 {
        '0'
    } else if d == 1 {
        '1'
    } else if d == 2 {
        '2'
    } else if d == 3 {
        '3'
    } else if d == 4 {
        '4'
    } else if d == 5 {
        '5'
    } else if d == 6 {
        '6'
    } else if d == 7 {
        '7'
    } else if d == 8 {
        '8'
    } else {
        '9'
    }
}

/// Appends the decimal digits of `n`.
fn push_digits(out: &mut String, n: u64)
    ensures
        final(out)@ == old(out)@ + digits(n as nat),
    decreases n,
{
    if n >= 10 {
        push_digits(out, n / 10);
    }
    out.push(digit(n % 10));
}

/// Appends the decimal text of `n`.
fn push_decimal(out: &mut String, n: i64)
    ensures
        final(out)@ == old(out)@ + decimal(n as int),
{
    if n < 0 {
        out.push('-');
        let magnitude: u64 = (-(n + 1)) as u64 + 1;
        push_digits(out, magnitude);
    } else {
        push_digits(out, n as u64);
    }
}

impl Val {
    /// Appends the text form of this value to `out`.
    pub fn write_to(&self, out: &mut String)
        ensures
            final(out)@ == old(out)@ + render(self@),
        decreases self,
    {
        match self {
            Val::Int(a) => push_decimal(out, *a),
            Val::Char(a) => out.push(*a),
            Val::Bool(a) => {
                if *a {
                    out.append("true");
                } else {
                    out.append("false");
                }
            },
            Val::Symbol(a) => {
                out.push('\'');
                out.append(a.as_str());
            },
            Val::List(a) => {
                out.push('(');
                let ghost start = out@;
                let mut i: usize = 0;
                while i < a.len()
                    invariant
                        i <= a.len(),
                        out@ == start + render_first(values_of(a@), i as nat),
                        decreases_to!(*self => *a),
                    decreases a.len() - i,
                {
                    proof {
                        vstd::std_specs::vec::axiom_vec_index_decreases(*a, i as int);
                    }
                    if i > 0 {
                        out.append(", ");
                    }
                    a[i].write_to(out);
                    i += 1;
                }
                out.push(')');
            },
        }
    }

    /// The text form of this value.
    pub fn to_string(&self) -> (s: String)
        ensures
            s@ == render(self@),
    {
        let mut s = String::new();
        self.write_to(&mut s);
        s
    }
}

impl Val {
    /// Whether the two values are the same value: same variant and equal
    /// payloads, lists element by element.
    pub fn equals(&self, other: &Val) -> (r: bool)
        ensures
            r == (self@ == other@),
        decreases self,
    {
        match self {
            Val::Int(a) => match other {
                Val::Int(b) => *a == *b,
                _ => false,
            },
            Val::Char(a) => match other {
                Val::Char(b) => *a == *b,
                _ => false,
            },
            Val::Bool(a) => match other {
                Val::Bool(b) => *a == *b,
                _ => false,
            },
            Val::List(a) => match other {
                Val::List(b) => {
                    if a.len() != b.len() {
                        assert(values_of(a@).len() != values_of(b@).len());
                        return false;
                    }
                    let mut i: usize = 0;
                    while i < a.len()
                        invariant
                            i <= a.len(),
                            a.len() == b.len(),
                            *self == Val::List(*a),
                            *other == Val::List(*b),
                            forall|j: int| 0 <= j < i ==> a@[j]@ == b@[j]@,
                            decreases_to!(*self => *a),
                        decreases a.len() - i,
                    {
                        proof {
                            vstd::std_specs::vec::axiom_vec_index_decreases(*a, i as int);
                        }
                        if !a[i].equals(&b[i]) {
                            assert(values_of(a@)[i as int] != values_of(b@)[i as int]);
                            return false;
                        }
                        i += 1;
                    }
                    assert(values_of(a@) =~= values_of(b@));
                    true
                },
                _ => false,
            },
            Val::Symbol(a) => match other {
                Val::Symbol(b) => *a == *b,
                _ => false,
            },
        }
    }
}

impl PartialEq for Val {
    fn eq(&self, other: &Val) -> (r: bool) {
        self.equals(other)
    }
}

impl vstd::std_specs::cmp::PartialEqSpecImpl for Val {
    open spec fn obeys_eq_spec() -> bool {
        true
    }

    open spec fn eq_spec(&self, other: &Val) -> bool {
        self@ == other@
    }
}

impl Eq for Val {

}

impl Clone for Val {
    fn clone(&self) -> (r: Val)
        ensures
            r@ == self@,
        decreases self,
    {
        match self {
            Val::Int(a) => Val::Int(*a),
            Val::Char(a) => Val::Char(*a),
            Val::Bool(a) => Val::Bool(*a),
            Val::List(a) => {
                let mut items: Vec<Val> = Vec::new();
                let mut i: usize = 0;
                while i < a.len()
                    invariant
                        i <= a.len(),
                        items.len() == i,
                        forall|j: int| 0 <= j < i ==> items@[j]@ == a@[j]@,
                        decreases_to!(*self => *a),
                    decreases a.len() - i,
                {
                    proof {
                        vstd::std_specs::vec::axiom_vec_index_decreases(*a, i as int);
                    }
                    let item = a[i].clone();
                    items.push(item);
                    i += 1;
                }
                assert(values_of(items@) =~= values_of(a@));
                Val::List(items)
            },
            Val::Symbol(a) => Val::Symbol(a.clone()),
        }
    }
}

impl Val {
    /// The type tag of this value.
    pub fn val_type(&self) -> (t: &'static str)
        ensures
            t@ == tag_of(self@),
    {
        match self {
            Val::Int(_) => "int",
            Val::Char(_) => "char",
            Val::Bool(_) => "bool",
            Val::List(_) => "list",
            Val::Symbol(_) => "symbol",
        }
    }

    /// The integer that this value is, or the type failure that says what
    /// it is instead.
    pub fn unwrap_int(&self) -> (r: Result<&i64, ErrType<'static>>)
        ensures
            match r {
                Ok(a) => self@ == Value::Int(*a as int),
                Err(e) => self@ !is Int && e@ == wrong_type("int"@, self@),
            },
    {
        match self {
            Val::Int(a) => Ok(a),
            _ => Err(ErrType::type_error("int", self.val_type())),
        }
    }

    /// The character that this value is, or the type failure that says what
    /// it is instead.
    pub fn unwrap_char(&self) -> (r: Result<&char, ErrType<'static>>)
        ensures
            match r {
                Ok(a) => self@ == Value::Char(*a),
                Err(e) => self@ !is Char && e@ == wrong_type("char"@, self@),
            },
    {
        match self {
            Val::Char(a) => Ok(a),
            _ => Err(ErrType::type_error("char", self.val_type())),
        }
    }

    /// The boolean that this value is, or the type failure that says what
    /// it is instead.
    pub fn unwrap_bool(&self) -> (r: Result<&bool, ErrType<'static>>)
        ensures
            match r {
                Ok(a) => self@ == Value::Bool(*a),
                Err(e) => self@ !is Bool && e@ == wrong_type("bool"@, self@),
            },
    {
        match self {
            Val::Bool(a) => Ok(a),
            _ => Err(ErrType::type_error("bool", self.val_type())),
        }
    }

    /// The items of the list that this value is, or the type failure that
    /// says what it is instead.
    pub fn unwrap_list(&self) -> (r: Result<&Vec<Val>, ErrType<'static>>)
        ensures
            match r {
                Ok(a) => *self == Val::List(*a) && self@ == Value::List(values_of(a@)),
                Err(e) => self@ !is List && e@ == wrong_type("list"@, self@),
            },
    {
        match self {
            Val::List(a) => Ok(a),
            _ => Err(ErrType::type_error("list", self.val_type())),
        }
    }

    /// The name of the symbol that this value is, or the type failure that
    /// says what it is instead.
    pub fn unwrap_symbol(&self) -> (r: Result<&str, ErrType<'static>>)
        ensures
            match r {
                Ok(a) => self@ == Value::Symbol(a@),
                Err(e) => self@ !is Symbol && e@ == wrong_type("symbol"@, self@),
            },
    {
        match self {
            Val::Symbol(a) => Ok(a.as_str()),
            _ => Err(ErrType::type_error("symbol", self.val_type())),
        }
    }
}

} // verus!
