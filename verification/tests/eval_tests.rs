use expr_eval::context::{Details, Element, NoneContext, VecContext};
use expr_eval::error::ExprError;
use expr_eval::eval::Evaluator;
use expr_eval::value::{Primitive, Value};
use expr_eval::wire::{Const, ConstItem, ConstValue, ExprItem, ExprUnit, NameOrId, Variable};

fn unit(item: ExprItem) -> ExprUnit {
    ExprUnit { item: Some(item) }
}

fn konst(item: ConstItem) -> ExprUnit {
    unit(ExprItem::Const(Const {
        value: Some(ConstValue { item: Some(item) }),
    }))
}

fn c_i64(x: i64) -> ExprUnit {
    konst(ConstItem::I64(x))
}

fn c_f64(x: f64) -> ExprUnit {
    konst(ConstItem::F64(x.to_bits()))
}

fn c_bool(x: bool) -> ExprUnit {
    konst(ConstItem::Boolean(x))
}

fn arith(code: i32) -> ExprUnit {
    unit(ExprItem::Arith(code))
}

fn logical(code: i32) -> ExprUnit {
    unit(ExprItem::Logical(code))
}

const ADD: i32 = 0;
const SUB: i32 = 1;
const MUL: i32 = 2;
const DIV: i32 = 3;
const EXP: i32 = 4;
const MOD: i32 = 5;

const EQ: i32 = 0;
const LT: i32 = 2;
const LE: i32 = 3;
const GT: i32 = 4;
const GE: i32 = 5;
const AND: i32 = 6;
const OR: i32 = 7;
const NOT: i32 = 8;

fn run(units: Vec<ExprUnit>) -> Result<Value, ExprError> {
    let mut ev = Evaluator::from_pb(units).unwrap();
    ev.eval::<NoneContext>(None)
}

fn eval_ok(units: Vec<ExprUnit>) -> Value {
    run(units).unwrap()
}

fn i64_val(x: i64) -> Value {
    Value::Primitive(Primitive::I64(x))
}

fn f64_val(x: f64) -> Value {
    Value::Primitive(Primitive::F64(x.to_bits()))
}

#[test]
fn test_eval_simple() {
    // 7 + 3
    assert_eq!(eval_ok(vec![c_i64(7), c_i64(3), arith(ADD)]), i64_val(10));
    // 7.0 + 3
    assert_eq!(eval_ok(vec![c_f64(7.0), c_i64(3), arith(ADD)]), f64_val(10.0));
    // 7 * 3
    assert_eq!(eval_ok(vec![c_i64(7), c_i64(3), arith(MUL)]), i64_val(21));
    // 7 / 3
    assert_eq!(eval_ok(vec![c_i64(7), c_i64(3), arith(DIV)]), i64_val(2));
    // 7 ^ 3
    assert_eq!(eval_ok(vec![c_i64(7), c_i64(3), arith(EXP)]), i64_val(343));
    // 7 ^ -3
    assert_eq!(
        eval_ok(vec![c_i64(7), c_i64(-3), arith(EXP)]),
        f64_val(1.0 / 343.0)
    );
    // 7 % 3
    assert_eq!(eval_ok(vec![c_i64(7), c_i64(3), arith(MOD)]), i64_val(1));
    // 7 - 3
    assert_eq!(eval_ok(vec![c_i64(7), c_i64(3), arith(SUB)]), i64_val(4));
    // -3 + 7
    assert_eq!(eval_ok(vec![c_i64(-3), c_i64(7), arith(ADD)]), i64_val(4));
    // -3
    assert_eq!(eval_ok(vec![c_i64(-3)]), i64_val(-3));
    // -3.0
    assert_eq!(eval_ok(vec![c_f64(-3.0)]), f64_val(-3.0));
    // false
    assert_eq!(eval_ok(vec![c_bool(false)]), Value::Bool(false));
    // !true
    assert_eq!(eval_ok(vec![c_bool(true), logical(NOT)]), Value::Bool(false));
    // !10
    assert_eq!(eval_ok(vec![c_i64(10), logical(NOT)]), Value::Bool(false));
    // !0
    assert_eq!(eval_ok(vec![c_i64(0), logical(NOT)]), Value::Bool(true));
    // true || true
    assert_eq!(
        eval_ok(vec![c_bool(true), c_bool(true), logical(OR)]),
        Value::Bool(true)
    );
    // true || false
    assert_eq!(
        eval_ok(vec![c_bool(true), c_bool(false), logical(OR)]),
        Value::Bool(true)
    );
    // false || false
    assert_eq!(
        eval_ok(vec![c_bool(false), c_bool(false), logical(OR)]),
        Value::Bool(false)
    );
    // true && true
    assert_eq!(
        eval_ok(vec![c_bool(true), c_bool(true), logical(AND)]),
        Value::Bool(true)
    );
    // true && false
    assert_eq!(
        eval_ok(vec![c_bool(true), c_bool(false), logical(AND)]),
        Value::Bool(false)
    );
    // 1 > 2
    assert_eq!(
        eval_ok(vec![c_i64(1), c_i64(2), logical(GT)]),
        Value::Bool(false)
    );
    // 1 < 2
    assert_eq!(
        eval_ok(vec![c_i64(1), c_i64(2), logical(LT)]),
        Value::Bool(true)
    );
    // 1 >= 2
    assert_eq!(
        eval_ok(vec![c_i64(1), c_i64(2), logical(GE)]),
        Value::Bool(false)
    );
    // 2 <= 2
    assert_eq!(
        eval_ok(vec![c_i64(2), c_i64(2), logical(LE)]),
        Value::Bool(true)
    );
    // 2 == 2
    assert_eq!(
        eval_ok(vec![c_i64(2), c_i64(2), logical(EQ)]),
        Value::Bool(true)
    );
    // 1.0 > 2.0
    assert_eq!(
        eval_ok(vec![c_f64(1.0), c_f64(2.0), logical(GT)]),
        Value::Bool(false)
    );
}

#[test]
fn test_eval_complex() {
    // (-10)
    assert_eq!(eval_ok(vec![c_i64(-10)]), i64_val(-10));
    // 2 * 2 - 3
    assert_eq!(
        eval_ok(vec![c_i64(2), c_i64(2), arith(MUL), c_i64(3), arith(SUB)]),
        i64_val(1)
    );
    // 2 * (2 - 3)
    assert_eq!(
        eval_ok(vec![c_i64(2), c_i64(2), c_i64(3), arith(SUB), arith(MUL)]),
        i64_val(-2)
    );
    // 6 / 2 - 3
    assert_eq!(
        eval_ok(vec![c_i64(6), c_i64(2), arith(DIV), c_i64(3), arith(SUB)]),
        i64_val(0)
    );
    // 6 / (2 - 3)
    assert_eq!(
        eval_ok(vec![c_i64(6), c_i64(2), c_i64(3), arith(SUB), arith(DIV)]),
        i64_val(-6)
    );
    // 2 * 1e-3
    assert_eq!(
        eval_ok(vec![c_i64(2), c_f64(1e-3), arith(MUL)]),
        f64_val(0.002)
    );
    // 1 > 2 && 1 < 3
    assert_eq!(
        eval_ok(vec![
            c_i64(1),
            c_i64(2),
            logical(GT),
            c_i64(1),
            c_i64(3),
            logical(LT),
            logical(AND),
        ]),
        Value::Bool(false)
    );
    // 1 > 2 || 1 < 3
    assert_eq!(
        eval_ok(vec![
            c_i64(1),
            c_i64(2),
            logical(GT),
            c_i64(1),
            c_i64(3),
            logical(LT),
            logical(OR),
        ]),
        Value::Bool(true)
    );
    // 2 ^ 10 > 10
    assert_eq!(
        eval_ok(vec![c_i64(2), c_i64(10), arith(EXP), c_i64(10), logical(GT)]),
        Value::Bool(true)
    );
    // 2 / 5 ^ 2
    assert_eq!(
        eval_ok(vec![c_i64(2), c_i64(5), c_i64(2), arith(EXP), arith(DIV)]),
        i64_val(0)
    );
    // 2.0 / 5 ^ 2
    assert_eq!(
        eval_ok(vec![c_f64(2.0), c_i64(5), c_i64(2), arith(EXP), arith(DIV)]),
        f64_val(2.0 / 25.0)
    );
    // ((1 + 2) * 3) / (7 * 8) + 12.5 / 10.1
    let lhs = vec![
        c_i64(1),
        c_i64(2),
        arith(ADD),
        c_i64(3),
        arith(MUL),
        c_i64(7),
        c_i64(8),
        arith(MUL),
        arith(DIV),
        c_f64(12.5),
        c_f64(10.1),
        arith(DIV),
        arith(ADD),
    ];
    assert_eq!(eval_ok(lhs.clone()), f64_val(1.2376237623762376));
    // ((1 + 2) * 3) / 7 * 8 + 12.5 / 10.1
    let rhs = vec![
        c_i64(1),
        c_i64(2),
        arith(ADD),
        c_i64(3),
        arith(MUL),
        c_i64(7),
        arith(DIV),
        c_i64(8),
        arith(MUL),
        c_f64(12.5),
        c_f64(10.1),
        arith(DIV),
        arith(ADD),
    ];
    assert_eq!(eval_ok(rhs.clone()), f64_val(9.237623762376238));
    // the two sides compared for equality
    let mut combined = rhs;
    combined.extend(lhs);
    combined.push(logical(EQ));
    assert_eq!(eval_ok(combined), Value::Bool(false));
}

#[test]
fn fast_and_general_paths_agree_on_quotient() {
    // The same quotient through the three-unit fast path and through a
    // longer program that takes the stack walk.
    let fast = eval_ok(vec![c_i64(7), c_i64(3), arith(DIV)]);
    let walk = eval_ok(vec![c_i64(7), c_i64(3), arith(DIV), c_i64(1), arith(MUL)]);
    assert_eq!(fast, i64_val(2));
    assert_eq!(walk, i64_val(2));
}

#[test]
fn evaluation_is_deterministic_and_reusable() {
    let units = vec![c_i64(2), c_i64(2), arith(MUL), c_i64(3), arith(SUB)];
    let mut ev = Evaluator::from_pb(units).unwrap();
    let first = ev.eval::<NoneContext>(None).unwrap();
    let second = ev.eval::<NoneContext>(None).unwrap();
    assert_eq!(first, second);
    ev.reset();
    let third = ev.eval::<NoneContext>(None).unwrap();
    assert_eq!(first, third);
}

#[test]
fn evaluator_stays_usable_after_an_error() {
    // Division by zero fails the evaluation; the same evaluator then answers
    // a fresh evaluation as if nothing had happened.
    let mut ev = Evaluator::from_pb(vec![
        c_i64(7),
        c_i64(0),
        arith(DIV),
        c_i64(1),
        arith(ADD),
    ])
    .unwrap();
    assert!(matches!(
        ev.eval::<NoneContext>(None),
        Err(ExprError::DivisionByZero)
    ));
    let mut ok = Evaluator::from_pb(vec![c_i64(7), c_i64(3), arith(ADD)]).unwrap();
    assert_eq!(ok.eval::<NoneContext>(None).unwrap(), i64_val(10));
}

#[test]
fn rebuilding_from_an_equal_wire_form_behaves_identically() {
    // An independent re-encoding of the wire form: each unit is rebuilt from
    // scratch out of its parts.  The rebuilt program evaluates identically.
    let make = || {
        vec![
            c_i64(2),
            c_i64(5),
            c_i64(2),
            arith(EXP),
            arith(DIV),
        ]
    };
    let mut first = Evaluator::from_pb(make()).unwrap();
    let mut second = Evaluator::from_pb(make()).unwrap();
    assert_eq!(
        first.eval::<NoneContext>(None).unwrap(),
        second.eval::<NoneContext>(None).unwrap()
    );
}

#[test]
fn variable_scenario_with_property() {
    // @a.age > 30 with a bound to an element whose age property is 42.
    let program = vec![
        unit(ExprItem::Var(Variable {
            tag: Some(NameOrId::Str("a".to_string())),
            property: Some(NameOrId::Str("age".to_string())),
        })),
        c_i64(30),
        logical(GT),
    ];
    let ctx = VecContext {
        entries: vec![(
            NameOrId::Str("a".to_string()),
            Element {
                value: i64_val(1),
                details: Some(Details {
                    props: vec![(NameOrId::Str("age".to_string()), i64_val(42))],
                }),
            },
        )],
    };
    let mut ev = Evaluator::from_pb(program.clone()).unwrap();
    assert_eq!(ev.eval(Some(&ctx)).unwrap(), Value::Bool(true));

    // The same program with no context at all: missing context.
    let mut ev = Evaluator::from_pb(program.clone()).unwrap();
    assert!(matches!(
        ev.eval::<NoneContext>(None),
        Err(ExprError::MissingContext(_))
    ));

    // A context that does not bind the tag: missing context as well.
    let empty = VecContext { entries: vec![] };
    let mut ev = Evaluator::from_pb(program.clone()).unwrap();
    assert!(matches!(ev.eval(Some(&empty)), Err(ExprError::MissingContext(_))));

    // Binding present but the age property absent: an absent operand.
    let no_age = VecContext {
        entries: vec![(
            NameOrId::Str("a".to_string()),
            Element {
                value: i64_val(1),
                details: Some(Details { props: vec![] }),
            },
        )],
    };
    let mut ev = Evaluator::from_pb(program.clone()).unwrap();
    assert!(matches!(ev.eval(Some(&no_age)), Err(ExprError::NoneOperand)));

    // Binding present but the element has no property bag at all: the same.
    let no_bag = VecContext {
        entries: vec![(
            NameOrId::Str("a".to_string()),
            Element {
                value: i64_val(1),
                details: None,
            },
        )],
    };
    let mut ev = Evaluator::from_pb(program).unwrap();
    assert!(matches!(ev.eval(Some(&no_bag)), Err(ExprError::NoneOperand)));
}

#[test]
fn variable_without_property_key_yields_element_value() {
    let program = vec![
        unit(ExprItem::Var(Variable {
            tag: Some(NameOrId::Id(4)),
            property: None,
        })),
        c_i64(2),
        arith(MUL),
    ];
    let ctx = VecContext {
        entries: vec![(
            NameOrId::Id(4),
            Element {
                value: i64_val(21),
                details: None,
            },
        )],
    };
    let mut ev = Evaluator::from_pb(program).unwrap();
    assert_eq!(ev.eval(Some(&ctx)).unwrap(), i64_val(42));
}
