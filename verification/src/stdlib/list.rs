//! List primitives.
//!
//! Each takes the evaluated arguments of a call. What it returns is given by
//! a specification function of the same arguments, which is `None` where the
//! call has too few arguments to be made at all.
use super::super::errors::Failure;
use super::super::types::{outcome, values_of, wrong_type, Args, Res, Val, Value};
use vstd::prelude::*;

verus! {

/// The first item of the list that is the first argument; the empty list
/// where that list is empty.
pub open spec fn head(args: Seq<Value>) -> Option<Result<Value, Failure>> {
    if args.len() < 1 {
        None
    } else {
        match args[0] {
            Value::List(items) => Some(
                Ok(
                    if items.len() > 0 {
                        items[0]
                    } else {
                        Value::List(Seq::empty())
                    },
                ),
            ),
            other => Some(Err(wrong_type("list"@, other))),
        }
    }
}

/// The list that is the first argument without its first item; the empty
/// list where it has at most one item.
pub open spec fn tail(args: Seq<Value>) -> Option<Result<Value, Failure>> {
    if args.len() < 1 {
        None
    } else {
        match args[0] {
            Value::List(items) => Some(
                Ok(
                    Value::List(
                        if items.len() > 1 {
                            items.skip(1)
                        } else {
                            Seq::empty()
                        },
                    ),
                ),
            ),
            other => Some(Err(wrong_type("list"@, other))),
        }
    }
}

/// `car`: the first item of a list, and the empty list for the empty list.
pub fn car(args: Args) -> (r: Res)
    requires
        head(values_of(args@)) is Some,
    ensures
        head(values_of(args@)) == Some(outcome(r)),
{
    let l = args[0].unwrap_list()?;
    if l.len() > 0 {
        Ok(l[0].clone())
    } else {
        let empty = Val::List(Vec::new());
        assert(empty@->List_0 =~= Seq::<Value>::empty());
        Ok(empty)
    }
}

/// `cdr`: a list without its first item, and the empty list for a list of at
/// most one item.
pub fn cdr(args: Args) -> (r: Res)
    requires
        tail(values_of(args@)) is Some,
    ensures
        tail(values_of(args@)) == Some(outcome(r)),
{
    let l = args[0].unwrap_list()?;
    let mut l2: Vec<Val> = Vec::new();
    if l.len() > 1 {
        let mut i: usize = 1;
        while i < l.len()
            invariant
                1 <= i <= l.len(),
                l2.len() == i - 1,
                forall|j: int| 0 <= j < l2.len() ==> l2@[j]@ == l@[j + 1]@,
            decreases l.len() - i,
        {
            l2.push(l[i].clone());
            i += 1;
        }
        assert(values_of(l2@) =~= values_of(l@).skip(1));
    } else {
        assert(values_of(l2@) =~= Seq::<Value>::empty());
    }
    Ok(Val::List(l2))
}

/// `list`: the list of the arguments.
pub fn list(args: Args) -> (r: Res)
    ensures
        outcome(r) == Ok::<Value, Failure>(Value::List(values_of(args@))),
{
    Ok(Val::List(args))
}

} // verus!
