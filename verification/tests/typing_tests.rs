use expr_eval::context::{Details, Element, NoneContext, VecContext};
use expr_eval::error::{ExprError, ParsePbError};
use expr_eval::eval::Evaluator;
use expr_eval::value::{Primitive, Value};
use expr_eval::wire::{Const, ConstItem, ConstValue, ExprItem, ExprUnit, NameOrId, Variable};

fn unit(item: ExprItem) -> ExprUnit {
    ExprUnit { item: Some(item) }
}

fn konst(item: ConstItem) -> ExprUnit {
    unit(ExprItem::Const(Const {
        value: Some(ConstValue { item: Some(item) }),
    }))
}

fn c_i64(x: i64) -> ExprUnit {
    konst(ConstItem::I64(x))
}

fn c_i32(x: i32) -> ExprUnit {
    konst(ConstItem::I32(x))
}

fn c_f64(x: f64) -> ExprUnit {
    konst(ConstItem::F64(x.to_bits()))
}

fn c_bool(x: bool) -> ExprUnit {
    konst(ConstItem::Boolean(x))
}

fn c_str(s: &str) -> ExprUnit {
    konst(ConstItem::Str(s.to_string()))
}

fn c_blob(b: &[u8]) -> ExprUnit {
    konst(ConstItem::Blob(b.to_vec()))
}

fn c_null() -> ExprUnit {
    konst(ConstItem::Null)
}

fn arith(code: i32) -> ExprUnit {
    unit(ExprItem::Arith(code))
}

fn logical(code: i32) -> ExprUnit {
    unit(ExprItem::Logical(code))
}

const ADD: i32 = 0;
const SUB: i32 = 1;
const MUL: i32 = 2;
const DIV: i32 = 3;
const EXP: i32 = 4;
const MOD: i32 = 5;

const EQ: i32 = 0;
const NE: i32 = 1;
const LT: i32 = 2;
const LE: i32 = 3;
const GT: i32 = 4;
const GE: i32 = 5;
const NOT: i32 = 8;
const WITHIN: i32 = 9;

fn run(units: Vec<ExprUnit>) -> Result<Value, ExprError> {
    let mut ev = Evaluator::from_pb(units).unwrap();
    ev.eval::<NoneContext>(None)
}

fn eval_ok(units: Vec<ExprUnit>) -> Value {
    run(units).unwrap()
}

fn i64_val(x: i64) -> Value {
    Value::Primitive(Primitive::I64(x))
}

fn f64_val(x: f64) -> Value {
    Value::Primitive(Primitive::F64(x.to_bits()))
}

#[test]
fn arithmetic_on_booleans_fails() {
    assert!(matches!(
        run(vec![c_bool(true), c_i64(3), arith(ADD)]),
        Err(ExprError::TypeMismatch(_))
    ));
    assert!(matches!(
        run(vec![c_i64(3), c_bool(false), arith(MUL)]),
        Err(ExprError::TypeMismatch(_))
    ));
}

#[test]
fn arithmetic_on_strings_fails() {
    assert!(matches!(
        run(vec![c_str("two"), c_i64(3), arith(ADD)]),
        Err(ExprError::TypeMismatch(_))
    ));
}

#[test]
fn cross_type_comparison_fails() {
    assert!(matches!(
        run(vec![c_str("two"), c_i64(3), logical(LT)]),
        Err(ExprError::TypeMismatch(_))
    ));
    assert!(matches!(
        run(vec![c_bool(true), c_i64(1), logical(EQ)]),
        Err(ExprError::TypeMismatch(_))
    ));
}

#[test]
fn ordering_operators_agree_on_integers() {
    assert_eq!(eval_ok(vec![c_i64(1), c_i64(2), logical(LT)]), Value::Bool(true));
    assert_eq!(eval_ok(vec![c_i64(2), c_i64(1), logical(GT)]), Value::Bool(true));
    assert_eq!(eval_ok(vec![c_i64(1), c_i64(2), logical(LE)]), Value::Bool(true));
    assert_eq!(eval_ok(vec![c_i64(1), c_i64(2), logical(GE)]), Value::Bool(false));
    assert_eq!(eval_ok(vec![c_i64(1), c_i64(2), logical(NE)]), Value::Bool(true));
}

#[test]
fn strings_compare_lexicographically() {
    assert_eq!(
        eval_ok(vec![c_str("abc"), c_str("abd"), logical(LT)]),
        Value::Bool(true)
    );
    assert_eq!(
        eval_ok(vec![c_str("abc"), c_str("abc"), logical(EQ)]),
        Value::Bool(true)
    );
    assert_eq!(
        eval_ok(vec![c_str("abcd"), c_str("abc"), logical(GT)]),
        Value::Bool(true)
    );
}

#[test]
fn blobs_compare_lexicographically() {
    assert_eq!(
        eval_ok(vec![c_blob(&[1, 2]), c_blob(&[1, 3]), logical(LT)]),
        Value::Bool(true)
    );
    assert_eq!(
        eval_ok(vec![c_blob(&[1, 2]), c_blob(&[1, 2]), logical(EQ)]),
        Value::Bool(true)
    );
}

#[test]
fn booleans_order_false_below_true() {
    assert_eq!(
        eval_ok(vec![c_bool(false), c_bool(true), logical(LT)]),
        Value::Bool(true)
    );
}

#[test]
fn null_never_equals_anything() {
    // A null that reaches an operator comes from an element value, not from
    // a constant (a null literal is an absent operand instead).
    let program = vec![
        unit(ExprItem::Var(Variable {
            tag: Some(NameOrId::Id(1)),
            property: None,
        })),
        c_i64(3),
        logical(EQ),
    ];
    let ctx = VecContext {
        entries: vec![(
            NameOrId::Id(1),
            Element { value: Value::Null, details: None },
        )],
    };
    let mut ev = Evaluator::from_pb(program.clone()).unwrap();
    assert_eq!(ev.eval(Some(&ctx)).unwrap(), Value::Bool(false));

    // The same with Ne: always true.
    let mut ne_program = program;
    ne_program.pop();
    ne_program.push(logical(NE));
    let mut ev = Evaluator::from_pb(ne_program).unwrap();
    assert_eq!(ev.eval(Some(&ctx)).unwrap(), Value::Bool(true));
}

#[test]
fn null_ordering_fails() {
    let program = vec![
        unit(ExprItem::Var(Variable {
            tag: Some(NameOrId::Id(1)),
            property: None,
        })),
        c_i64(3),
        logical(LT),
    ];
    let ctx = VecContext {
        entries: vec![(
            NameOrId::Id(1),
            Element { value: Value::Null, details: None },
        )],
    };
    let mut ev = Evaluator::from_pb(program).unwrap();
    assert!(matches!(ev.eval(Some(&ctx)), Err(ExprError::TypeMismatch(_))));
}

#[test]
fn null_literal_is_an_absent_operand() {
    assert!(matches!(
        run(vec![c_null(), c_i64(3), arith(ADD)]),
        Err(ExprError::NoneOperand)
    ));
    assert!(matches!(run(vec![c_null()]), Err(ExprError::NoneOperand)));
}

#[test]
fn empty_program_is_its_own_error() {
    assert!(matches!(run(vec![]), Err(ExprError::EmptyExpression)));
}

#[test]
fn operator_underflow_is_missing_operands() {
    // Long enough for the general path: the third Add finds one operand.
    assert!(matches!(
        run(vec![c_i64(1), c_i64(2), arith(ADD), arith(ADD), arith(ADD)]),
        Err(ExprError::MissingOperands)
    ));
}

#[test]
fn leftover_operands_are_an_invalid_expression() {
    // Fast path: two bare operands.
    assert!(matches!(
        run(vec![c_i64(1), c_i64(2)]),
        Err(ExprError::InvalidExpression(_))
    ));
    // General path: four bare operands.
    assert!(matches!(
        run(vec![c_i64(1), c_i64(2), c_i64(3), c_i64(4)]),
        Err(ExprError::InvalidExpression(_))
    ));
    // A lone operator.
    assert!(matches!(
        run(vec![arith(ADD)]),
        Err(ExprError::InvalidExpression(_))
    ));
}

#[test]
fn within_is_unimplemented() {
    assert!(matches!(
        run(vec![c_i64(1), c_i64(2), logical(WITHIN)]),
        Err(ExprError::Unimplemented(_))
    ));
}

#[test]
fn division_and_modulo_by_zero_fail() {
    assert!(matches!(
        run(vec![c_i64(7), c_i64(0), arith(DIV)]),
        Err(ExprError::DivisionByZero)
    ));
    assert!(matches!(
        run(vec![c_i64(7), c_i64(0), arith(MOD)]),
        Err(ExprError::DivisionByZero)
    ));
    assert!(matches!(
        run(vec![c_f64(7.5), c_f64(0.0), arith(DIV)]),
        Err(ExprError::DivisionByZero)
    ));
}

#[test]
fn float_exponent_is_rejected() {
    assert!(matches!(
        run(vec![c_i64(2), c_f64(0.5), arith(EXP)]),
        Err(ExprError::TypeMismatch(_))
    ));
}

#[test]
fn float_remainder_keeps_dividend_sign() {
    assert_eq!(
        eval_ok(vec![c_f64(7.5), c_f64(2.0), arith(MOD)]),
        f64_val(1.5)
    );
    assert_eq!(
        eval_ok(vec![c_f64(-7.5), c_f64(2.0), arith(MOD)]),
        f64_val(-1.5)
    );
}

#[test]
fn float_subtraction_promotes() {
    assert_eq!(eval_ok(vec![c_f64(7.0), c_i64(3), arith(SUB)]), f64_val(4.0));
}

#[test]
fn i32_operands_stay_i32() {
    assert_eq!(
        eval_ok(vec![c_i32(7), c_i32(3), arith(EXP)]),
        Value::Primitive(Primitive::I32(343))
    );
    assert_eq!(
        eval_ok(vec![c_i32(7), c_i64(3), arith(ADD)]),
        i64_val(10)
    );
}

#[test]
fn u64_operands_promote_two_s_complement() {
    let var = unit(ExprItem::Var(Variable {
        tag: Some(NameOrId::Id(9)),
        property: None,
    }));
    let ctx = VecContext {
        entries: vec![(
            NameOrId::Id(9),
            Element {
                value: Value::Primitive(Primitive::U64(5)),
                details: None,
            },
        )],
    };
    // -1 + U64(5) wraps to u64 and back: 2^64 - 1 + 5 modulo 2^64 = 4.
    let mut ev = Evaluator::from_pb(vec![c_i64(-1), var.clone(), arith(ADD)]).unwrap();
    assert_eq!(
        ev.eval(Some(&ctx)).unwrap(),
        Value::Primitive(Primitive::U64(4))
    );
    // Comparison against a negative integer goes by mathematical value.
    let mut ev = Evaluator::from_pb(vec![c_i64(-1), var.clone(), logical(LT)]).unwrap();
    assert_eq!(ev.eval(Some(&ctx)).unwrap(), Value::Bool(true));
    // A u64 in a float operation converts to a double.
    let mut ev = Evaluator::from_pb(vec![var, c_f64(2.5), arith(MUL)]).unwrap();
    assert_eq!(ev.eval(Some(&ctx)).unwrap(), f64_val(12.5));
}

#[test]
fn not_coerces_numbers_by_the_nonzero_rule() {
    assert_eq!(eval_ok(vec![c_f64(0.0), logical(NOT)]), Value::Bool(true));
    assert_eq!(eval_ok(vec![c_f64(0.5), logical(NOT)]), Value::Bool(false));
    assert!(matches!(
        run(vec![c_str("x"), logical(NOT)]),
        Err(ExprError::TypeMismatch(_))
    ));
}

#[test]
fn unknown_operator_codes_are_rejected() {
    assert!(matches!(
        Evaluator::from_pb(vec![c_i64(1), c_i64(2), logical(11)]),
        Err(ParsePbError::InvalidPb(_))
    ));
    assert!(matches!(
        Evaluator::from_pb(vec![c_i64(1), c_i64(2), arith(6)]),
        Err(ParsePbError::InvalidPb(_))
    ));
}

#[test]
fn malformed_wire_units_are_rejected() {
    // An empty unit.
    assert!(matches!(
        Evaluator::from_pb(vec![ExprUnit { item: None }]),
        Err(ParsePbError::InvalidPb(_))
    ));
    // A constant with no value.
    assert!(matches!(
        Evaluator::from_pb(vec![unit(ExprItem::Const(Const { value: None }))]),
        Err(ParsePbError::InvalidPb(_))
    ));
    // A constant with an empty value.
    assert!(matches!(
        Evaluator::from_pb(vec![unit(ExprItem::Const(Const {
            value: Some(ConstValue { item: None }),
        }))]),
        Err(ParsePbError::InvalidPb(_))
    ));
    // An array constant.
    assert!(matches!(
        Evaluator::from_pb(vec![konst(ConstItem::I32Array(vec![1, 2]))]),
        Err(ParsePbError::InvalidPb(_))
    ));
    // A variable without a tag.
    assert!(matches!(
        Evaluator::from_pb(vec![unit(ExprItem::Var(Variable {
            tag: None,
            property: Some(NameOrId::Id(1)),
        }))]),
        Err(ParsePbError::InvalidPb(_))
    ));
}

#[test]
fn property_lookup_takes_the_first_binding() {
    let program = vec![unit(ExprItem::Var(Variable {
        tag: Some(NameOrId::Id(1)),
        property: Some(NameOrId::Str("k".to_string())),
    }))];
    let ctx = VecContext {
        entries: vec![(
            NameOrId::Id(1),
            Element {
                value: i64_val(0),
                details: Some(Details {
                    props: vec![
                        (NameOrId::Str("k".to_string()), i64_val(10)),
                        (NameOrId::Str("k".to_string()), i64_val(20)),
                    ],
                }),
            },
        )],
    };
    let mut ev = Evaluator::from_pb(program).unwrap();
    assert_eq!(ev.eval(Some(&ctx)).unwrap(), i64_val(10));
}

#[test]
fn later_context_bindings_override_earlier_ones() {
    let program = vec![unit(ExprItem::Var(Variable {
        tag: Some(NameOrId::Id(1)),
        property: None,
    }))];
    let ctx = VecContext {
        entries: vec![
            (NameOrId::Id(1), Element { value: i64_val(10), details: None }),
            (NameOrId::Id(1), Element { value: i64_val(20), details: None }),
        ],
    };
    let mut ev = Evaluator::from_pb(program).unwrap();
    assert_eq!(ev.eval(Some(&ctx)).unwrap(), i64_val(20));
}
