//! Integer arithmetic primitives.
//!
//! Each takes the evaluated arguments of a call. What it returns is given by
//! a specification function of the same arguments, which is `None` where the
//! call cannot be made: an argument that the function reads is missing, a
//! result does not fit in 64 bits, or a divisor is zero. An argument that is
//! no integer is reported as a type failure, the first such argument first.
use super::super::errors::Failure;
use super::super::types::{outcome, values_of, wrong_type, Args, Res, Val, Value};
use vstd::prelude::*;

verus! {

/// An integer operation of two operands.
#[derive(Clone, Copy, Debug, PartialEq, Eq, Structural)]
pub enum Op {
    Add,
    Sub,
    Mul,
    Div,
}

/// The quotient of `a` by `b`, rounded toward zero.
pub open spec fn quotient(a: int, b: int) -> int {
    if a >= 0 && b > 0 {
        a / b
    } else if a < 0 && b < 0 {
        (-a) / (-b)
    } else if a < 0 {
        -((-a) / b)
    } else {
        -(a / (-b))
    }
}

/// The result of `op` on `a` and `b`; `None` where the divisor is zero or the
/// result does not fit in 64 bits.
pub open spec fn combine(op: Op, a: int, b: int) -> Option<int> {
    let r = match op {
        Op::Add => a + b,
        Op::Sub => a - b,
        Op::Mul => a * b,
        Op::Div => quotient(a, b),
    };
    if (op == Op::Div && b == 0) || r < i64::MIN || r > i64::MAX {
        None
    } else {
        Some(r)
    }
}

/// The result of a call that applies `op` to its first two arguments.
pub open spec fn binary(op: Op, args: Seq<Value>) -> Option<Result<Value, Failure>> {
    if args.len() < 1 {
        None
    } else {
        match args[0] {
            Value::Int(a) => if args.len() < 2 {
                None
            } else {
                match args[1] {
                    Value::Int(b) => match combine(op, a, b) {
                        Some(r) => Some(Ok(Value::Int(r))),
                        None => None,
                    },
                    other => Some(Err(wrong_type("int"@, other))),
                }
            },
            other => Some(Err(wrong_type("int"@, other))),
        }
    }
}

/// The result of a call that negates its first argument.
pub open spec fn negation(args: Seq<Value>) -> Option<Result<Value, Failure>> {
    if args.len() < 1 {
        None
    } else {
        match args[0] {
            Value::Int(a) => match combine(Op::Mul, a, -1) {
                Some(r) => Some(Ok(Value::Int(r))),
                None => None,
            },
            other => Some(Err(wrong_type("int"@, other))),
        }
    }
}

/// The result of applying `op` to `acc` and each of `rest` in turn, from the
/// left.
pub open spec fn fold(op: Op, acc: int, rest: Seq<Value>) -> Option<Result<Value, Failure>>
    decreases rest.len(),
{
    if rest.len() == 0 {
        Some(Ok(Value::Int(acc)))
    } else {
        match rest[0] {
            Value::Int(x) => match combine(op, acc, x) {
                Some(r) => fold(op, r, rest.drop_first()),
                None => None,
            },
            other => Some(Err(wrong_type("int"@, other))),
        }
    }
}

/// The result of a call that starts from its first argument and applies `op`
/// to it and each further argument in turn; zero where there is no argument.
pub open spec fn chain(op: Op, args: Seq<Value>) -> Option<Result<Value, Failure>> {
    if args.len() == 0 {
        Some(Ok(Value::Int(0)))
    } else {
        match args[0] {
            Value::Int(a) => fold(op, a, args.drop_first()),
            other => Some(Err(wrong_type("int"@, other))),
        }
    }
}

/// One step of a fold over the arguments from position `i`: what the fold
/// gives from there is decided by argument `i`.
proof fn lemma_fold_step(op: Op, acc: int, args: Seq<Val>, i: int)
    requires
        0 <= i < args.len(),
    ensures
        fold(op, acc, values_of(args).skip(i)) == match args[i]@ {
            Value::Int(x) => match combine(op, acc, x) {
                Some(r) => fold(op, r, values_of(args).skip(i + 1)),
                None => None,
            },
            other => Some(Err(wrong_type("int"@, other))),
        },
{
    let rest = values_of(args).skip(i);
    assert(rest.drop_first() =~= values_of(args).skip(i + 1));
}

/// `+` of no argument: zero.
pub fn add_0(_args: Args) -> (r: Res)
    ensures
        outcome(r) == Ok::<Value, Failure>(Value::Int(0)),
{
    Ok(Val::Int(0))
}

/// `+` of two arguments: their sum.
pub fn add_2(args: Args) -> (r: Res)
    requires
        binary(Op::Add, values_of(args@)) is Some,
    ensures
        binary(Op::Add, values_of(args@)) == Some(outcome(r)),
{
    let a = args[0].unwrap_int()?;
    let b = args[1].unwrap_int()?;
    Ok(Val::Int(*a + *b))
}

/// `+` of any number of arguments: their sum, from zero.
pub fn add_varargs(args: Args) -> (r: Res)
    requires
        fold(Op::Add, 0, values_of(args@)) is Some,
    ensures
        fold(Op::Add, 0, values_of(args@)) == Some(outcome(r)),
{
    let mut acc: i64 = 0;
    let mut i: usize = 0;
    assert(values_of(args@).skip(0) =~= values_of(args@));
    while i < args.len()
        invariant
            i <= args.len(),
            fold(Op::Add, 0, values_of(args@)) is Some,
            fold(Op::Add, acc as int, values_of(args@).skip(i as int)) == fold(
                Op::Add,
                0,
                values_of(args@),
            ),
        decreases args.len() - i,
    {
        proof {
            lemma_fold_step(Op::Add, acc as int, args@, i as int);
        }
        let x = args[i].unwrap_int()?;
        acc = acc + *x;
        i += 1;
    }
    Ok(Val::Int(acc))
}

/// `-` of no argument: zero.
pub fn sub_0(_args: Args) -> (r: Res)
    ensures
        outcome(r) == Ok::<Value, Failure>(Value::Int(0)),
{
    Ok(Val::Int(0))
}

/// `-` of one argument: its negation.
pub fn sub_1(args: Args) -> (r: Res)
    requires
        negation(values_of(args@)) is Some,
    ensures
        negation(values_of(args@)) == Some(outcome(r)),
{
    let a = args[0].unwrap_int()?;
    Ok(Val::Int(*a * -1))
}

/// `-` of two arguments: the first less the second.
pub fn sub_2(args: Args) -> (r: Res)
    requires
        binary(Op::Sub, values_of(args@)) is Some,
    ensures
        binary(Op::Sub, values_of(args@)) == Some(outcome(r)),
{
    let a = args[0].unwrap_int()?;
    let b = args[1].unwrap_int()?;
    Ok(Val::Int(*a - *b))
}

/// `-` of any number of arguments: the first less each of the others; zero
/// where there is none.
pub fn sub_varargs(args: Args) -> (r: Res)
    requires
        chain(Op::Sub, values_of(args@)) is Some,
    ensures
        chain(Op::Sub, values_of(args@)) == Some(outcome(r)),
{
    let mut val: i64 = 0;
    let mut i: usize = 0;
    while i < args.len()
        invariant
            i <= args.len(),
            chain(Op::Sub, values_of(args@)) is Some,
            i == 0 ==> val == 0,
            i > 0 ==> fold(Op::Sub, val as int, values_of(args@).skip(i as int)) == chain(
                Op::Sub,
                values_of(args@),
            ),
        decreases args.len() - i,
    {
        proof {
            lemma_fold_step(Op::Sub, val as int, args@, i as int);
        }
        let v = args[i].unwrap_int()?;
        if i == 0 {
            val = *v;
        } else {
            val = val - *v;
        }
        i += 1;
    }
    Ok(Val::Int(val))
}

/// `*` of no argument: one.
pub fn mul_0(_args: Args) -> (r: Res)
    ensures
        outcome(r) == Ok::<Value, Failure>(Value::Int(1)),
{
    Ok(Val::Int(1))
}

/// `*` of two arguments: their product.
pub fn mul_2(args: Args) -> (r: Res)
    requires
        binary(Op::Mul, values_of(args@)) is Some,
    ensures
        binary(Op::Mul, values_of(args@)) == Some(outcome(r)),
{
    let a = args[0].unwrap_int()?;
    let b = args[1].unwrap_int()?;
    Ok(Val::Int(*a * *b))
}

/// `*` of any number of arguments: their product, from one.
pub fn mul_varargs(args: Args) -> (r: Res)
    requires
        fold(Op::Mul, 1, values_of(args@)) is Some,
    ensures
        fold(Op::Mul, 1, values_of(args@)) == Some(outcome(r)),
{
    let mut acc: i64 = 1;
    let mut i: usize = 0;
    assert(values_of(args@).skip(0) =~= values_of(args@));
    while i < args.len()
        invariant
            i <= args.len(),
            fold(Op::Mul, 1, values_of(args@)) is Some,
            fold(Op::Mul, acc as int, values_of(args@).skip(i as int)) == fold(
                Op::Mul,
                1,
                values_of(args@),
            ),
        decreases args.len() - i,
    {
        proof {
            lemma_fold_step(Op::Mul, acc as int, args@, i as int);
        }
        let x = args[i].unwrap_int()?;
        acc = acc * *x;
        i += 1;
    }
    Ok(Val::Int(acc))
}

/// The quotient of two integers, rounded toward zero.
fn divide(a: i64, b: i64) -> (q: i64)
    requires
        combine(Op::Div, a as int, b as int) is Some,
    ensures
        combine(Op::Div, a as int, b as int) == Some(q as int),
{
    match a.checked_div(b) {
        Some(q) => q,
        None => vstd::pervasive::unreached(),
    }
}

/// `/` of no argument: one.
pub fn div_0(_args: Args) -> (r: Res)
    ensures
        outcome(r) == Ok::<Value, Failure>(Value::Int(1)),
{
    Ok(Val::Int(1))
}

/// `/` of two arguments: the first divided by the second, rounded toward
/// zero.
pub fn div_2(args: Args) -> (r: Res)
    requires
        binary(Op::Div, values_of(args@)) is Some,
    ensures
        binary(Op::Div, values_of(args@)) == Some(outcome(r)),
{
    let a = args[0].unwrap_int()?;
    let b = args[1].unwrap_int()?;
    Ok(Val::Int(divide(*a, *b)))
}

/// `/` of any number of arguments: the first divided by each of the others in
/// turn, each quotient rounded toward zero; zero where there is none.
pub fn div_varargs(args: Args) -> (r: Res)
    requires
        chain(Op::Div, values_of(args@)) is Some,
    ensures
        chain(Op::Div, values_of(args@)) == Some(outcome(r)),
{
    let mut val: i64 = 0;
    let mut i: usize = 0;
    while i < args.len()
        invariant
            i <= args.len(),
            chain(Op::Div, values_of(args@)) is Some,
            i == 0 ==> val == 0,
            i > 0 ==> fold(Op::Div, val as int, values_of(args@).skip(i as int)) == chain(
                Op::Div,
                values_of(args@),
            ),
        decreases args.len() - i,
    {
        proof {
            lemma_fold_step(Op::Div, val as int, args@, i as int);
        }
        let v = args[i].unwrap_int()?;
        if i == 0 {
            val = *v;
        } else {
            val = divide(val, *v);
        }
        i += 1;
    }
    Ok(Val::Int(val))
}

/// The result of `op` on two integers, where it has one.
pub fn combine_checked(op: Op, a: i64, b: i64) -> (r: Option<i64>)
    ensures
        match r {
            Some(x) => combine(op, a as int, b as int) == Some(x as int),
            None => combine(op, a as int, b as int) is None,
        },
{
    match op {
        Op::Add => a.checked_add(b),
        Op::Sub => a.checked_sub(b),
        Op::Mul => a.checked_mul(b),
        Op::Div => a.checked_div(b),
    }
}

/// Whether a call that applies `op` to its first two arguments can be made.
pub fn binary_defined(op: Op, args: &Args) -> (b: bool)
    ensures
        b == binary(op, values_of(args@)) is Some,
{
    if args.len() < 1 {
        return false;
    }
    match &args[0] {
        Val::Int(a) => {
            if args.len() < 2 {
                return false;
            }
            match &args[1] {
                Val::Int(b) => combine_checked(op, *a, *b).is_some(),
                _ => true,
            }
        },
        _ => true,
    }
}

/// Whether a call that negates its first argument can be made.
pub fn negation_defined(args: &Args) -> (b: bool)
    ensures
        b == negation(values_of(args@)) is Some,
{
    if args.len() < 1 {
        return false;
    }
    match &args[0] {
        Val::Int(a) => combine_checked(Op::Mul, *a, -1).is_some(),
        _ => true,
    }
}

/// Whether `op` can be applied to `init` and each argument from position
/// `from` on in turn.
fn fold_defined_from(op: Op, init: i64, args: &Args, from: usize) -> (b: bool)
    requires
        from <= args.len(),
    ensures
        b == fold(op, init as int, values_of(args@).skip(from as int)) is Some,
{
    let mut acc: i64 = init;
    let mut i: usize = from;
    while i < args.len()
        invariant
            from <= i <= args.len(),
            fold(op, acc as int, values_of(args@).skip(i as int)) is Some == fold(
                op,
                init as int,
                values_of(args@).skip(from as int),
            ) is Some,
        decreases args.len() - i,
    {
        proof {
            lemma_fold_step(op, acc as int, args@, i as int);
        }
        match &args[i] {
            Val::Int(x) => match combine_checked(op, acc, *x) {
                Some(r) => {
                    acc = r;
                },
                None => {
                    return false;
                },
            },
            _ => {
                return true;
            },
        }
        i += 1;
    }
    true
}

/// Whether a call that applies `op` to `init` and each argument in turn can
/// be made.
pub fn fold_defined(op: Op, init: i64, args: &Args) -> (b: bool)
    ensures
        b == fold(op, init as int, values_of(args@)) is Some,
{
    assert(values_of(args@).skip(0) =~= values_of(args@));
    fold_defined_from(op, init, args, 0)
}

/// Whether a call that starts from its first argument and applies `op` to
/// it and each further argument in turn can be made.
pub fn chain_defined(op: Op, args: &Args) -> (b: bool)
    ensures
        b == chain(op, values_of(args@)) is Some,
{
    if args.len() == 0 {
        return true;
    }
    match &args[0] {
        Val::Int(a) => fold_defined_from(op, *a, args, 1),
        _ => true,
    }
}

} // verus!
