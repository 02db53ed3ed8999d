//! The built-in functions as values, and the root environment that binds
//! them.
use super::super::env::{Arity, Binding, Env};
use super::super::errors::Failure;
use super::super::types::{outcome, values_of, Args, Res, Value};
use super::list;
use super::math;
use super::math::Op;
use vstd::prelude::*;

verus! {

/// A built-in function. Function tables of the root environment hold these
/// as their implementations; `apply` makes the call.
#[derive(Clone, Copy, Debug, PartialEq, Eq, Structural)]
pub enum Primitive {
    Add0,
    Add2,
    AddVarargs,
    Sub0,
    Sub1,
    Sub2,
    SubVarargs,
    Mul0,
    Mul2,
    MulVarargs,
    Div0,
    Div2,
    DivVarargs,
    Car,
    Cdr,
    List,
}

impl Primitive {
    /// What this function returns for the given arguments; `None` where the
    /// call cannot be made.
    pub open spec fn result(self, args: Seq<Value>) -> Option<Result<Value, Failure>> {
        match self {
            Primitive::Add0 => Some(Ok(Value::Int(0))),
            Primitive::Add2 => math::binary(Op::Add, args),
            Primitive::AddVarargs => math::fold(Op::Add, 0, args),
            Primitive::Sub0 => Some(Ok(Value::Int(0))),
            Primitive::Sub1 => math::negation(args),
            Primitive::Sub2 => math::binary(Op::Sub, args),
            Primitive::SubVarargs => math::chain(Op::Sub, args),
            Primitive::Mul0 => Some(Ok(Value::Int(1))),
            Primitive::Mul2 => math::binary(Op::Mul, args),
            Primitive::MulVarargs => math::fold(Op::Mul, 1, args),
            Primitive::Div0 => Some(Ok(Value::Int(1))),
            Primitive::Div2 => math::binary(Op::Div, args),
            Primitive::DivVarargs => math::chain(Op::Div, args),
            Primitive::Car => list::head(args),
            Primitive::Cdr => list::tail(args),
            Primitive::List => Some(Ok(Value::List(args))),
        }
    }

    /// Whether this function can be called on the given arguments.
    pub fn accepts(&self, args: &Args) -> (b: bool)
        ensures
            b == self.result(values_of(args@)) is Some,
    {
        match self {
            Primitive::Add0 | Primitive::Sub0 | Primitive::Mul0 | Primitive::Div0 => true,
            Primitive::Add2 => math::binary_defined(Op::Add, args),
            Primitive::Sub2 => math::binary_defined(Op::Sub, args),
            Primitive::Mul2 => math::binary_defined(Op::Mul, args),
            Primitive::Div2 => math::binary_defined(Op::Div, args),
            Primitive::Sub1 => math::negation_defined(args),
            Primitive::AddVarargs => math::fold_defined(Op::Add, 0, args),
            Primitive::MulVarargs => math::fold_defined(Op::Mul, 1, args),
            Primitive::SubVarargs => math::chain_defined(Op::Sub, args),
            Primitive::DivVarargs => math::chain_defined(Op::Div, args),
            Primitive::Car | Primitive::Cdr => args.len() >= 1,
            Primitive::List => true,
        }
    }

    /// Calls this function on the given arguments.
    pub fn apply(&self, args: Args) -> (r: Res)
        requires
            self.result(values_of(args@)) is Some,
        ensures
            self.result(values_of(args@)) == Some(outcome(r)),
    {
        match self {
            Primitive::Add0 => math::add_0(args),
            Primitive::Add2 => math::add_2(args),
            Primitive::AddVarargs => math::add_varargs(args),
            Primitive::Sub0 => math::sub_0(args),
            Primitive::Sub1 => math::sub_1(args),
            Primitive::Sub2 => math::sub_2(args),
            Primitive::SubVarargs => math::sub_varargs(args),
            Primitive::Mul0 => math::mul_0(args),
            Primitive::Mul2 => math::mul_2(args),
            Primitive::MulVarargs => math::mul_varargs(args),
            Primitive::Div0 => math::div_0(args),
            Primitive::Div2 => math::div_2(args),
            Primitive::DivVarargs => math::div_varargs(args),
            Primitive::Car => list::car(args),
            Primitive::Cdr => list::cdr(args),
            Primitive::List => list::list(args),
        }
    }

    /// Calls this function on the given arguments where the call can be
    /// made, and returns `None` where it cannot.
    pub fn try_apply(&self, args: Args) -> (r: Option<Res>)
        ensures
            match r {
                Some(res) => self.result(values_of(args@)) == Some(outcome(res)),
                None => self.result(values_of(args@)) is None,
            },
    {
        if self.accepts(&args) {
            Some(self.apply(args))
        } else {
            None
        }
    }
}

/// The arity table of an arithmetic operator: its implementations for no
/// argument, for two, and for any number.
pub open spec fn operator(none: Primitive, two: Primitive, any: Primitive) -> Binding<Primitive> {
    Binding::Func(
        Map::<Arity, Primitive>::empty().insert(Arity::NoArgs, none).insert(
            Arity::SomeArgs(2),
            two,
        ).insert(Arity::VarArgs, any),
    )
}

/// The arity table of a function with one implementation.
pub open spec fn single(arity: Arity, f: Primitive) -> Binding<Primitive> {
    Binding::Func(Map::<Arity, Primitive>::empty().insert(arity, f))
}

/// The bindings of the root environment.
pub open spec fn core_bindings() -> Map<Seq<char>, Binding<Primitive>> {
    Map::<Seq<char>, Binding<Primitive>>::empty().insert(
        "+"@,
        operator(Primitive::Add0, Primitive::Add2, Primitive::AddVarargs),
    ).insert(
        "-"@,
        Binding::Func(
            Map::<Arity, Primitive>::empty().insert(Arity::NoArgs, Primitive::Sub0).insert(
                Arity::SomeArgs(1),
                Primitive::Sub1,
            ).insert(Arity::SomeArgs(2), Primitive::Sub2).insert(
                Arity::VarArgs,
                Primitive::SubVarargs,
            ),
        ),
    ).insert("*"@, operator(Primitive::Mul0, Primitive::Mul2, Primitive::MulVarargs)).insert(
        "/"@,
        operator(Primitive::Div0, Primitive::Div2, Primitive::DivVarargs),
    ).insert("car"@, single(Arity::SomeArgs(1), Primitive::Car)).insert(
        "cdr"@,
        single(Arity::SomeArgs(1), Primitive::Cdr),
    ).insert("list"@, single(Arity::VarArgs, Primitive::List))
}

/// No two names of the root environment are the same.
proof fn lemma_names_differ()
    ensures
        "+"@ != "-"@,
        "+"@ != "*"@,
        "+"@ != "/"@,
        "-"@ != "*"@,
        "-"@ != "/"@,
        "*"@ != "/"@,
        "car"@ != "cdr"@,
        "+"@.len() == 1,
        "-"@.len() == 1,
        "*"@.len() == 1,
        "/"@.len() == 1,
        "car"@.len() == 3,
        "cdr"@.len() == 3,
        "list"@.len() == 4,
{
    reveal_strlit("+");
    reveal_strlit("-");
    reveal_strlit("*");
    reveal_strlit("/");
    reveal_strlit("car");
    reveal_strlit("cdr");
    reveal_strlit("list");
    assert("+"@[0] == '+');
    assert("-"@[0] == '-');
    assert("*"@[0] == '*');
    assert("/"@[0] == '/');
    assert("car"@[1] == 'a');
    assert("cdr"@[1] == 'd');
}

/// The root environment: the built-in functions under their names, each
/// under the arities it is declared for.
pub fn core_env() -> (e: Env<'static, Primitive>)
    ensures
        e.outer() is None,
        e.local() == core_bindings(),
{
    proof {
        lemma_names_differ();
    }
    let mut e = Env::new(None);
    e.register_func("+", Arity::NoArgs, Primitive::Add0);
    e.register_func("+", Arity::SomeArgs(2), Primitive::Add2);
    e.register_func("+", Arity::VarArgs, Primitive::AddVarargs);
    e.register_func("-", Arity::NoArgs, Primitive::Sub0);
    e.register_func("-", Arity::SomeArgs(1), Primitive::Sub1);
    e.register_func("-", Arity::SomeArgs(2), Primitive::Sub2);
    e.register_func("-", Arity::VarArgs, Primitive::SubVarargs);
    e.register_func("*", Arity::NoArgs, Primitive::Mul0);
    e.register_func("*", Arity::SomeArgs(2), Primitive::Mul2);
    e.register_func("*", Arity::VarArgs, Primitive::MulVarargs);
    e.register_func("/", Arity::NoArgs, Primitive::Div0);
    e.register_func("/", Arity::SomeArgs(2), Primitive::Div2);
    e.register_func("/", Arity::VarArgs, Primitive::DivVarargs);
    e.register_func("car", Arity::SomeArgs(1), Primitive::Car);
    e.register_func("cdr", Arity::SomeArgs(1), Primitive::Cdr);
    e.register_func("list", Arity::VarArgs, Primitive::List);
    e
}

} // verus!
