use lisp::errors::ErrType;
use lisp::stdlib::math::{
    add_0, add_2, add_varargs, binary_defined, chain_defined, combine_checked, div_0, div_2,
    div_varargs, fold_defined, mul_0, mul_2, mul_varargs, negation_defined, sub_0, sub_1, sub_2,
    sub_varargs, Op,
};
use lisp::stdlib::root::Primitive;
use lisp::types::Val;

fn ints(values: &[i64]) -> Vec<Val> {
    values.iter().map(|n| Val::Int(*n)).collect()
}

#[test]
fn test_add_2() -> Result<(), ErrType<'static>> {
    let res = add_2(vec![Val::Int(1), Val::Int(2)])?;
    assert_eq!(res, Val::Int(3));
    Ok(())
}

#[test]
fn test_add_varargs() -> Result<(), ErrType<'static>> {
    let args = vec![Val::Int(1), Val::Int(2), Val::Int(3)];
    let res = add_varargs(args)?;
    assert_eq!(res, Val::Int(6));
    Ok(())
}

#[test]
fn test_sub_1() -> Result<(), ErrType<'static>> {
    let args = vec![Val::Int(1)];
    let res = sub_1(args)?;
    assert_eq!(res, Val::Int(-1));
    Ok(())
}

#[test]
fn test_sub_2() -> Result<(), ErrType<'static>> {
    let args = vec![Val::Int(3), Val::Int(1)];
    let res = sub_2(args)?;
    assert_eq!(res, Val::Int(2));
    Ok(())
}

#[test]
fn test_sub_varargs() -> Result<(), ErrType<'static>> {
    let args = vec![Val::Int(10), Val::Int(5), Val::Int(2)];
    let res = sub_varargs(args)?;
    assert_eq!(res, Val::Int(3));
    Ok(())
}

#[test]
fn test_mul_2() -> Result<(), ErrType<'static>> {
    let args = vec![Val::Int(2), Val::Int(3)];
    let res = mul_2(args)?;
    assert_eq!(res, Val::Int(6));
    Ok(())
}

#[test]
fn test_mul_varargs() -> Result<(), ErrType<'static>> {
    let args = vec![Val::Int(2), Val::Int(3), Val::Int(4)];
    let res = mul_varargs(args)?;
    assert_eq!(res, Val::Int(24));
    Ok(())
}

#[test]
fn test_div_2() -> Result<(), ErrType<'static>> {
    let args = vec![Val::Int(6), Val::Int(2)];
    let res = div_2(args)?;
    assert_eq!(res, Val::Int(3));
    Ok(())
}

#[test]
fn test_div_varargs() -> Result<(), ErrType<'static>> {
    let args = vec![Val::Int(12), Val::Int(2), Val::Int(3)];
    let res = div_varargs(args)?;
    assert_eq!(res, Val::Int(2));
    Ok(())
}

#[test]
fn the_identities_ignore_their_arguments() {
    assert_eq!(add_0(Vec::new()), Ok(Val::Int(0)));
    assert_eq!(sub_0(Vec::new()), Ok(Val::Int(0)));
    assert_eq!(mul_0(Vec::new()), Ok(Val::Int(1)));
    assert_eq!(div_0(Vec::new()), Ok(Val::Int(1)));
    assert_eq!(add_0(vec![Val::Char('x')]), Ok(Val::Int(0)));
    assert_eq!(mul_0(ints(&[5, 6])), Ok(Val::Int(1)));
}

#[test]
fn varargs_of_no_argument() {
    assert_eq!(add_varargs(Vec::new()), Ok(Val::Int(0)));
    assert_eq!(mul_varargs(Vec::new()), Ok(Val::Int(1)));
    assert_eq!(sub_varargs(Vec::new()), Ok(Val::Int(0)));
    assert_eq!(div_varargs(Vec::new()), Ok(Val::Int(0)));
}

#[test]
fn varargs_of_one_argument() {
    assert_eq!(add_varargs(ints(&[7])), Ok(Val::Int(7)));
    assert_eq!(mul_varargs(ints(&[7])), Ok(Val::Int(7)));
    assert_eq!(sub_varargs(ints(&[7])), Ok(Val::Int(7)));
    assert_eq!(div_varargs(ints(&[7])), Ok(Val::Int(7)));
    assert_eq!(div_varargs(ints(&[0])), Ok(Val::Int(0)));
}

#[test]
fn division_rounds_toward_zero() {
    assert_eq!(div_2(ints(&[7, 2])), Ok(Val::Int(3)));
    assert_eq!(div_2(ints(&[-7, 2])), Ok(Val::Int(-3)));
    assert_eq!(div_2(ints(&[7, -2])), Ok(Val::Int(-3)));
    assert_eq!(div_2(ints(&[-7, -2])), Ok(Val::Int(3)));
    assert_eq!(div_2(ints(&[0, -5])), Ok(Val::Int(0)));
    assert_eq!(div_2(ints(&[1, 2])), Ok(Val::Int(0)));
    assert_eq!(div_2(ints(&[i64::MIN, 1])), Ok(Val::Int(i64::MIN)));
    assert_eq!(div_2(ints(&[i64::MAX, -1])), Ok(Val::Int(-i64::MAX)));
    assert_eq!(div_2(ints(&[i64::MIN, 2])), Ok(Val::Int(i64::MIN / 2)));
    assert_eq!(div_varargs(ints(&[-100, 7, -3])), Ok(Val::Int(4)));
}

#[test]
fn arithmetic_at_the_limits() {
    assert_eq!(add_2(ints(&[i64::MAX, 0])), Ok(Val::Int(i64::MAX)));
    assert_eq!(add_2(ints(&[i64::MAX, i64::MIN])), Ok(Val::Int(-1)));
    assert_eq!(sub_2(ints(&[i64::MIN, -1])), Ok(Val::Int(i64::MIN + 1)));
    assert_eq!(sub_2(ints(&[-1, i64::MAX])), Ok(Val::Int(i64::MIN)));
    assert_eq!(sub_1(ints(&[i64::MAX])), Ok(Val::Int(-i64::MAX)));
    assert_eq!(sub_1(ints(&[0])), Ok(Val::Int(0)));
    assert_eq!(sub_1(ints(&[-5])), Ok(Val::Int(5)));
    assert_eq!(mul_2(ints(&[i64::MIN, 1])), Ok(Val::Int(i64::MIN)));
    assert_eq!(mul_2(ints(&[-3, 4])), Ok(Val::Int(-12)));
    assert_eq!(
        add_varargs(ints(&[i64::MAX, -1, 1, i64::MIN])),
        Ok(Val::Int(-1))
    );
    assert_eq!(mul_varargs(ints(&[-1, i64::MAX, -1])), Ok(Val::Int(i64::MAX)));
    assert_eq!(sub_varargs(ints(&[0, i64::MAX, 1])), Ok(Val::Int(i64::MIN)));
}

#[test]
fn two_argument_functions_ignore_further_arguments() {
    assert_eq!(add_2(ints(&[1, 2, 100])), Ok(Val::Int(3)));
    assert_eq!(sub_2(ints(&[1, 2, 100])), Ok(Val::Int(-1)));
    assert_eq!(mul_2(ints(&[3, 2, 100])), Ok(Val::Int(6)));
    assert_eq!(div_2(ints(&[9, 2, 0])), Ok(Val::Int(4)));
    assert_eq!(sub_1(ints(&[9, 2])), Ok(Val::Int(-9)));
}

#[test]
fn an_argument_that_is_no_integer_is_a_type_error() {
    let c = || Val::Char('c');
    assert_eq!(add_2(vec![c(), Val::Int(1)]), Err(ErrType::type_error("int", "char")));
    assert_eq!(
        add_2(vec![Val::Int(1), Val::Bool(true)]),
        Err(ErrType::type_error("int", "bool"))
    );
    assert_eq!(add_2(vec![c()]), Err(ErrType::type_error("int", "char")));
    assert_eq!(
        sub_1(vec![Val::List(Vec::new())]),
        Err(ErrType::type_error("int", "list"))
    );
    assert_eq!(
        sub_2(vec![Val::Int(1), Val::Symbol(String::from("s"))]),
        Err(ErrType::type_error("int", "symbol"))
    );
    assert_eq!(mul_2(vec![c(), c()]), Err(ErrType::type_error("int", "char")));
    assert_eq!(
        div_2(vec![Val::Int(1), Val::List(vec![Val::Int(0)])]),
        Err(ErrType::type_error("int", "list"))
    );
}

#[test]
fn varargs_report_the_first_argument_that_is_no_integer() {
    assert_eq!(
        add_varargs(vec![Val::Int(1), Val::Char('a')]),
        Err(ErrType::type_error("int", "char"))
    );
    assert_eq!(
        add_varargs(vec![Val::Int(1), Val::Bool(true), Val::Char('a'), Val::Int(2)]),
        Err(ErrType::type_error("int", "bool"))
    );
    assert_eq!(
        mul_varargs(vec![Val::Symbol(String::from("x")), Val::Int(2)]),
        Err(ErrType::type_error("int", "symbol"))
    );
    assert_eq!(
        sub_varargs(vec![Val::List(Vec::new())]),
        Err(ErrType::type_error("int", "list"))
    );
    assert_eq!(
        sub_varargs(vec![Val::Int(3), Val::Int(1), Val::Char('z'), Val::Bool(false)]),
        Err(ErrType::type_error("int", "char"))
    );
    assert_eq!(
        div_varargs(vec![Val::Int(8), Val::Int(2), Val::Bool(false)]),
        Err(ErrType::type_error("int", "bool"))
    );
    assert_eq!(
        div_varargs(vec![Val::Int(8), Val::Char('0'), Val::Int(0)]),
        Err(ErrType::type_error("int", "char"))
    );
}

#[test]
fn primitives_apply_as_their_functions_do() {
    assert_eq!(Primitive::Add0.apply(Vec::new()), Ok(Val::Int(0)));
    assert_eq!(Primitive::Add2.apply(ints(&[4, 5])), Ok(Val::Int(9)));
    assert_eq!(Primitive::AddVarargs.apply(ints(&[4, 5, 6])), Ok(Val::Int(15)));
    assert_eq!(Primitive::Sub0.apply(Vec::new()), Ok(Val::Int(0)));
    assert_eq!(Primitive::Sub1.apply(ints(&[4])), Ok(Val::Int(-4)));
    assert_eq!(Primitive::Sub2.apply(ints(&[4, 5])), Ok(Val::Int(-1)));
    assert_eq!(Primitive::SubVarargs.apply(ints(&[4, 5, 6])), Ok(Val::Int(-7)));
    assert_eq!(Primitive::Mul0.apply(Vec::new()), Ok(Val::Int(1)));
    assert_eq!(Primitive::Mul2.apply(ints(&[4, 5])), Ok(Val::Int(20)));
    assert_eq!(Primitive::MulVarargs.apply(ints(&[4, 5, 6])), Ok(Val::Int(120)));
    assert_eq!(Primitive::Div0.apply(Vec::new()), Ok(Val::Int(1)));
    assert_eq!(Primitive::Div2.apply(ints(&[40, 5])), Ok(Val::Int(8)));
    assert_eq!(Primitive::DivVarargs.apply(ints(&[40, 5, 3])), Ok(Val::Int(2)));
    let l = Val::List(ints(&[1, 2, 3]));
    assert_eq!(Primitive::Car.apply(vec![l.clone()]), Ok(Val::Int(1)));
    assert_eq!(Primitive::Cdr.apply(vec![l]), Ok(Val::List(ints(&[2, 3]))));
    assert_eq!(Primitive::List.apply(ints(&[1, 2])), Ok(Val::List(ints(&[1, 2]))));
    assert_eq!(
        Primitive::Car.apply(ints(&[1])),
        Err(ErrType::type_error("list", "int"))
    );
}

#[test]
fn combine_checked_gives_the_result_where_it_fits() {
    assert_eq!(combine_checked(Op::Add, 2, 3), Some(5));
    assert_eq!(combine_checked(Op::Sub, 2, 3), Some(-1));
    assert_eq!(combine_checked(Op::Mul, 2, 3), Some(6));
    assert_eq!(combine_checked(Op::Div, -7, 2), Some(-3));
    assert_eq!(combine_checked(Op::Add, i64::MAX, 1), None);
    assert_eq!(combine_checked(Op::Sub, i64::MIN, 1), None);
    assert_eq!(combine_checked(Op::Mul, i64::MIN, -1), None);
    assert_eq!(combine_checked(Op::Div, i64::MIN, -1), None);
    assert_eq!(combine_checked(Op::Div, 1, 0), None);
    assert_eq!(combine_checked(Op::Div, 0, 0), None);
}

#[test]
fn a_call_that_cannot_be_made_is_not_accepted() {
    assert!(!Primitive::Add2.accepts(&ints(&[i64::MAX, 1])));
    assert!(!Primitive::Add2.accepts(&ints(&[1])));
    assert!(!Primitive::Add2.accepts(&Vec::new()));
    assert!(!Primitive::Sub2.accepts(&ints(&[i64::MIN, 1])));
    assert!(!Primitive::Mul2.accepts(&ints(&[i64::MAX, 2])));
    assert!(!Primitive::Div2.accepts(&ints(&[1, 0])));
    assert!(!Primitive::Div2.accepts(&ints(&[i64::MIN, -1])));
    assert!(!Primitive::Sub1.accepts(&ints(&[i64::MIN])));
    assert!(!Primitive::Sub1.accepts(&Vec::new()));
    assert!(!Primitive::AddVarargs.accepts(&ints(&[i64::MAX, 1, -1])));
    assert!(!Primitive::MulVarargs.accepts(&ints(&[i64::MAX, 2, 0])));
    assert!(!Primitive::SubVarargs.accepts(&ints(&[i64::MIN, 1])));
    assert!(!Primitive::DivVarargs.accepts(&ints(&[8, 2, 0])));
    assert!(!Primitive::Car.accepts(&Vec::new()));
    assert!(!Primitive::Cdr.accepts(&Vec::new()));
    assert_eq!(Primitive::Add2.try_apply(ints(&[i64::MAX, 1])), None);
    assert_eq!(Primitive::DivVarargs.try_apply(ints(&[8, 0])), None);
    assert_eq!(Primitive::Car.try_apply(Vec::new()), None);
}

#[test]
fn a_call_that_can_be_made_is_accepted() {
    assert!(Primitive::Add0.accepts(&Vec::new()));
    assert!(Primitive::Add2.accepts(&ints(&[i64::MAX, 0])));
    assert!(Primitive::Add2.accepts(&vec![Val::Char('c')]));
    assert!(Primitive::Add2.accepts(&vec![Val::Int(i64::MAX), Val::Char('c')]));
    assert!(Primitive::Sub1.accepts(&ints(&[i64::MAX])));
    assert!(Primitive::Sub1.accepts(&vec![Val::Bool(true)]));
    assert!(Primitive::AddVarargs.accepts(&Vec::new()));
    assert!(Primitive::AddVarargs.accepts(&ints(&[i64::MAX, -1, 1])));
    assert!(Primitive::AddVarargs.accepts(&vec![
        Val::Int(i64::MAX),
        Val::Char('c'),
        Val::Int(1)
    ]));
    assert!(Primitive::SubVarargs.accepts(&Vec::new()));
    assert!(Primitive::SubVarargs.accepts(&ints(&[i64::MIN])));
    assert!(Primitive::DivVarargs.accepts(&ints(&[0])));
    assert!(Primitive::DivVarargs.accepts(&vec![Val::Symbol(String::from("s")), Val::Int(0)]));
    assert!(Primitive::Car.accepts(&ints(&[1])));
    assert!(Primitive::List.accepts(&Vec::new()));
    assert_eq!(
        Primitive::AddVarargs.try_apply(ints(&[i64::MAX, -1, 1])),
        Some(Ok(Val::Int(i64::MAX)))
    );
    assert_eq!(
        Primitive::Add2.try_apply(vec![Val::Int(i64::MAX), Val::Char('c')]),
        Some(Err(ErrType::type_error("int", "char")))
    );
    assert_eq!(
        Primitive::Cdr.try_apply(vec![Val::List(ints(&[1, 2]))]),
        Some(Ok(Val::List(ints(&[2]))))
    );
}

#[test]
fn the_checks_agree_with_the_primitives() {
    let cases = [
        ints(&[]),
        ints(&[5]),
        ints(&[5, 0]),
        ints(&[i64::MAX, 1]),
        ints(&[i64::MIN, -1]),
        ints(&[i64::MIN, 1, 1]),
        ints(&[3, 4, 5]),
        vec![Val::Int(1), Val::Char('c'), Val::Int(0)],
    ];
    for args in cases {
        assert_eq!(binary_defined(Op::Add, &args), Primitive::Add2.accepts(&args));
        assert_eq!(binary_defined(Op::Sub, &args), Primitive::Sub2.accepts(&args));
        assert_eq!(binary_defined(Op::Mul, &args), Primitive::Mul2.accepts(&args));
        assert_eq!(binary_defined(Op::Div, &args), Primitive::Div2.accepts(&args));
        assert_eq!(negation_defined(&args), Primitive::Sub1.accepts(&args));
        assert_eq!(fold_defined(Op::Add, 0, &args), Primitive::AddVarargs.accepts(&args));
        assert_eq!(fold_defined(Op::Mul, 1, &args), Primitive::MulVarargs.accepts(&args));
        assert_eq!(chain_defined(Op::Sub, &args), Primitive::SubVarargs.accepts(&args));
        assert_eq!(chain_defined(Op::Div, &args), Primitive::DivVarargs.accepts(&args));
    }
    assert!(fold_defined(Op::Add, i64::MAX, &ints(&[])));
    assert!(!fold_defined(Op::Add, i64::MAX, &ints(&[1, -2])));
    assert!(fold_defined(Op::Sub, i64::MIN, &ints(&[-1, 1])));
    assert!(!fold_defined(Op::Div, 1, &ints(&[2, 0])));
}
