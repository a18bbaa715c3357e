//! Operator kinds and their application to values: mixed-subtype arithmetic
//! with promotion, and comparisons and boolean connectives.
//!
//! Integer arithmetic wraps modulo the promoted subtype's range, division
//! truncates toward zero, and division or remainder by a numeric zero is an
//! error.  An operation with a double on either side is promoted to IEEE-754
//! binary64 arithmetic (see `crate::float`).

use vstd::prelude::*;
use crate::error::{ErrorKind, ExprError};
use crate::float::{
    CmpResult, spec_f64_add, spec_f64_sub, spec_f64_mul, spec_f64_div, spec_f64_fmod,
    spec_f64_cmp, spec_f64_of_i64, spec_f64_of_u64, f64_add, f64_sub, f64_mul, f64_div,
    f64_fmod, f64_cmp, f64_of_i64, f64_of_u64,
};
use crate::value::{
    Primitive, Value, ValueV, spec_as_primitive, spec_as_bool, spec_prim_nonzero,
};

verus! {

/// Arithmetic operators; all binary.
#[derive(Clone, Copy, PartialEq, Eq, Structural, Debug)]
pub enum ArithOp {
    Add,
    Sub,
    Mul,
    Div,
    Mod,
    Exp,
}

/// Logical operators; binary except `Not`.  `Within` and `Without` are
/// recognized but unimplemented: applying one fails cleanly.
#[derive(Clone, Copy, PartialEq, Eq, Structural, Debug)]
pub enum LogicalOp {
    Eq,
    Ne,
    Lt,
    Le,
    Gt,
    Ge,
    And,
    Or,
    Not,
    Within,
    Without,
}

/// The bit pattern of IEEE-754 binary64 `1.0`, the seed of a power loop.
pub const F64_ONE_BITS: u64 = 0x3FF0_0000_0000_0000;

/// Two's-complement reinterpretation of a signed 64-bit value.
pub open spec fn spec_i64_as_u64(x: i64) -> u64 {
    if x >= 0 {
        x as u64
    } else {
        (x + 0x1_0000_0000_0000_0000) as u64
    }
}

fn i64_as_u64(x: i64) -> (r: u64)
    ensures
        r == spec_i64_as_u64(x),
{
    0u64.wrapping_add_signed(x)
}

/// The mathematical value of an integer primitive (doubles excluded).
pub open spec fn int_val(p: Primitive) -> int {
    match p {
        Primitive::I32(x) => x as int,
        Primitive::I64(x) => x as int,
        Primitive::U64(x) => x as int,
        Primitive::F64(_) => 0,
    }
}

/// An integer primitive widened to signed 64 bits (I32 and I64 only).
pub open spec fn spec_prim_i64(p: Primitive) -> i64 {
    match p {
        Primitive::I32(x) => x as i64,
        Primitive::I64(x) => x,
        _ => 0,
    }
}

/// An integer primitive reinterpreted as unsigned 64 bits, two's complement.
pub open spec fn spec_prim_u64(p: Primitive) -> u64 {
    match p {
        Primitive::I32(x) => spec_i64_as_u64(x as i64),
        Primitive::I64(x) => spec_i64_as_u64(x),
        Primitive::U64(x) => x,
        _ => 0,
    }
}

/// A primitive promoted to a double, as its bit pattern.
pub open spec fn spec_prim_f64_bits(p: Primitive) -> u64 {
    match p {
        Primitive::I32(x) => spec_f64_of_i64(x as i64),
        Primitive::I64(x) => spec_f64_of_i64(x),
        Primitive::U64(x) => spec_f64_of_u64(x),
        Primitive::F64(b) => b,
    }
}

fn prim_f64_bits(p: &Primitive) -> (r: u64)
    ensures
        r == spec_prim_f64_bits(*p),
{
    match p {
        Primitive::I32(x) => f64_of_i64(*x as i64),
        Primitive::I64(x) => f64_of_i64(*x),
        Primitive::U64(x) => f64_of_u64(*x),
        Primitive::F64(b) => *b,
    }
}

/// Iterated wrapping multiplication: `x` to the power `e` modulo 2^32.
pub open spec fn spec_pow_wrap_i32(x: i32, e: nat) -> i32
    decreases e,
{
    if e == 0 {
        1
    } else {
        spec_pow_wrap_i32(x, (e - 1) as nat).wrapping_mul(x)
    }
}

/// Iterated wrapping multiplication: `x` to the power `e` modulo 2^64.
pub open spec fn spec_pow_wrap_i64(x: i64, e: nat) -> i64
    decreases e,
{
    if e == 0 {
        1
    } else {
        spec_pow_wrap_i64(x, (e - 1) as nat).wrapping_mul(x)
    }
}

/// Iterated wrapping multiplication: `x` to the power `e` modulo 2^64.
pub open spec fn spec_pow_wrap_u64(x: u64, e: nat) -> u64
    decreases e,
{
    if e == 0 {
        1
    } else {
        spec_pow_wrap_u64(x, (e - 1) as nat).wrapping_mul(x)
    }
}

/// Iterated IEEE-754 multiplication: `base` to the power `e`, one rounding
/// per step, starting from `1.0`.
pub open spec fn spec_fpow(base: u64, e: nat) -> u64
    decreases e,
{
    if e == 0 {
        F64_ONE_BITS
    } else {
        spec_f64_mul(spec_fpow(base, (e - 1) as nat), base)
    }
}

/// A double raised to a signed integer power: a negative exponent takes the
/// reciprocal of the positive power.
pub open spec fn spec_fpow_signed(base: u64, e: int) -> u64 {
    if e >= 0 {
        spec_fpow(base, e as nat)
    } else {
        spec_f64_div(F64_ONE_BITS, spec_fpow(base, (-e) as nat))
    }
}

/// Arithmetic in the I32 subtype (both operands I32).  `Exp` is handled
/// separately and never reaches this function.
pub open spec fn spec_arith_i32(op: ArithOp, x: i32, y: i32) -> Result<Primitive, ErrorKind> {
    match op {
        ArithOp::Add => Ok(Primitive::I32(x.wrapping_add(y))),
        ArithOp::Sub => Ok(Primitive::I32(x.wrapping_sub(y))),
        ArithOp::Mul => Ok(Primitive::I32(x.wrapping_mul(y))),
        ArithOp::Div => if y == 0 {
            Err(ErrorKind::DivisionByZero)
        } else {
            match x.checked_div(y) {
                Some(q) => Ok(Primitive::I32(q)),
                None => Ok(Primitive::I32(i32::MIN)),
            }
        },
        ArithOp::Mod => if y == 0 {
            Err(ErrorKind::DivisionByZero)
        } else {
            match x.checked_rem(y) {
                Some(m) => Ok(Primitive::I32(m)),
                None => Ok(Primitive::I32(0)),
            }
        },
        ArithOp::Exp => Err(ErrorKind::InvalidExpression),
    }
}

/// Arithmetic in the I64 subtype (operands I32/I64, at least one I64).
pub open spec fn spec_arith_i64(op: ArithOp, x: i64, y: i64) -> Result<Primitive, ErrorKind> {
    match op {
        ArithOp::Add => Ok(Primitive::I64(x.wrapping_add(y))),
        ArithOp::Sub => Ok(Primitive::I64(x.wrapping_sub(y))),
        ArithOp::Mul => Ok(Primitive::I64(x.wrapping_mul(y))),
        ArithOp::Div => if y == 0 {
            Err(ErrorKind::DivisionByZero)
        } else {
            match x.checked_div(y) {
                Some(q) => Ok(Primitive::I64(q)),
                None => Ok(Primitive::I64(i64::MIN)),
            }
        },
        ArithOp::Mod => if y == 0 {
            Err(ErrorKind::DivisionByZero)
        } else {
            match x.checked_rem(y) {
                Some(m) => Ok(Primitive::I64(m)),
                None => Ok(Primitive::I64(0)),
            }
        },
        ArithOp::Exp => Err(ErrorKind::InvalidExpression),
    }
}

/// Arithmetic in the U64 subtype (at least one U64 operand; a signed operand
/// is reinterpreted two's complement).
pub open spec fn spec_arith_u64(op: ArithOp, x: u64, y: u64) -> Result<Primitive, ErrorKind> {
    match op {
        ArithOp::Add => Ok(Primitive::U64(x.wrapping_add(y))),
        ArithOp::Sub => Ok(Primitive::U64(x.wrapping_sub(y))),
        ArithOp::Mul => Ok(Primitive::U64(x.wrapping_mul(y))),
        ArithOp::Div => if y == 0 {
            Err(ErrorKind::DivisionByZero)
        } else {
            Ok(Primitive::U64(x / y))
        },
        ArithOp::Mod => if y == 0 {
            Err(ErrorKind::DivisionByZero)
        } else {
            Ok(Primitive::U64(x % y))
        },
        ArithOp::Exp => Err(ErrorKind::InvalidExpression),
    }
}

/// Arithmetic promoted to doubles (either operand F64).  Division and
/// remainder by a zero divisor are an error; otherwise IEEE-754 semantics.
pub open spec fn spec_arith_f64(op: ArithOp, a: u64, b: u64) -> Result<Primitive, ErrorKind> {
    match op {
        ArithOp::Add => Ok(Primitive::F64(spec_f64_add(a, b))),
        ArithOp::Sub => Ok(Primitive::F64(spec_f64_sub(a, b))),
        ArithOp::Mul => Ok(Primitive::F64(spec_f64_mul(a, b))),
        ArithOp::Div => if spec_f64_cmp(b, 0) == Some(CmpResult::Equal) {
            Err(ErrorKind::DivisionByZero)
        } else {
            Ok(Primitive::F64(spec_f64_div(a, b)))
        },
        ArithOp::Mod => if spec_f64_cmp(b, 0) == Some(CmpResult::Equal) {
            Err(ErrorKind::DivisionByZero)
        } else {
            Ok(Primitive::F64(spec_f64_fmod(a, b)))
        },
        ArithOp::Exp => Err(ErrorKind::InvalidExpression),
    }
}

/// Exponentiation.  A double exponent is rejected; an integer exponent keeps
/// integer-preserving semantics when non-negative and the base is an integer,
/// and promotes to a double power otherwise.  A negative exponent yields the
/// reciprocal of the positive power.
pub open spec fn spec_exp_prim(a: Primitive, b: Primitive) -> Result<Primitive, ErrorKind> {
    if b is F64 {
        Err(ErrorKind::TypeMismatch)
    } else {
        let e = int_val(b);
        if a is F64 {
            Ok(Primitive::F64(spec_fpow_signed(spec_prim_f64_bits(a), e)))
        } else if e < 0 {
            Ok(Primitive::F64(spec_fpow_signed(spec_prim_f64_bits(a), e)))
        } else if a is U64 || b is U64 {
            Ok(Primitive::U64(spec_pow_wrap_u64(spec_prim_u64(a), e as nat)))
        } else if a is I64 || b is I64 {
            Ok(Primitive::I64(spec_pow_wrap_i64(spec_prim_i64(a), e as nat)))
        } else {
            Ok(Primitive::I32(spec_pow_wrap_i32(spec_prim_i32(a), e as nat)))
        }
    }
}

/// The I32 payload of an I32 primitive.
pub open spec fn spec_prim_i32(p: Primitive) -> i32 {
    match p {
        Primitive::I32(x) => x,
        _ => 0,
    }
}

/// Arithmetic on primitives after promotion along I32 < I64 < U64 < F64.
pub open spec fn spec_arith_prim(op: ArithOp, a: Primitive, b: Primitive) -> Result<
    Primitive,
    ErrorKind,
> {
    if op is Exp {
        spec_exp_prim(a, b)
    } else if a is F64 || b is F64 {
        spec_arith_f64(op, spec_prim_f64_bits(a), spec_prim_f64_bits(b))
    } else if a is U64 || b is U64 {
        spec_arith_u64(op, spec_prim_u64(a), spec_prim_u64(b))
    } else if a is I64 || b is I64 {
        spec_arith_i64(op, spec_prim_i64(a), spec_prim_i64(b))
    } else {
        spec_arith_i32(op, spec_prim_i32(a), spec_prim_i32(b))
    }
}

/// Arithmetic application to two values: both operands must be numeric
/// primitives (the left one is checked first), then `spec_arith_prim`.
pub open spec fn spec_apply_arith(op: ArithOp, a: ValueV, b: ValueV) -> Result<
    ValueV,
    ErrorKind,
> {
    match (spec_as_primitive(a), spec_as_primitive(b)) {
        (Ok(x), Ok(y)) => match spec_arith_prim(op, x, y) {
            Ok(p) => Ok(ValueV::Prim(p)),
            Err(k) => Err(k),
        },
        (Err(k), _) => Err(k),
        (_, Err(k)) => Err(k),
    }
}

/// Comparison of two primitives: integers compare by mathematical value,
/// anything involving a double compares by IEEE-754 rules (so a NaN is
/// unordered and yields `None`).
pub open spec fn spec_cmp_prim(a: Primitive, b: Primitive) -> Option<CmpResult> {
    if a is F64 || b is F64 {
        spec_f64_cmp(spec_prim_f64_bits(a), spec_prim_f64_bits(b))
    } else {
        let x = int_val(a);
        let y = int_val(b);
        if x < y {
            Some(CmpResult::Less)
        } else if x == y {
            Some(CmpResult::Equal)
        } else {
            Some(CmpResult::Greater)
        }
    }
}

/// Lexicographic comparison of two character sequences.
pub open spec fn spec_lex_chars(a: Seq<char>, b: Seq<char>) -> CmpResult
    decreases a.len(),
{
    if a.len() == 0 && b.len() == 0 {
        CmpResult::Equal
    } else if a.len() == 0 {
        CmpResult::Less
    } else if b.len() == 0 {
        CmpResult::Greater
    } else if (a[0] as u32) < (b[0] as u32) {
        CmpResult::Less
    } else if (a[0] as u32) > (b[0] as u32) {
        CmpResult::Greater
    } else {
        spec_lex_chars(a.subrange(1, a.len() as int), b.subrange(1, b.len() as int))
    }
}

/// Lexicographic comparison of two byte sequences.
pub open spec fn spec_lex_bytes(a: Seq<u8>, b: Seq<u8>) -> CmpResult
    decreases a.len(),
{
    if a.len() == 0 && b.len() == 0 {
        CmpResult::Equal
    } else if a.len() == 0 {
        CmpResult::Less
    } else if b.len() == 0 {
        CmpResult::Greater
    } else if a[0] < b[0] {
        CmpResult::Less
    } else if a[0] > b[0] {
        CmpResult::Greater
    } else {
        spec_lex_bytes(a.subrange(1, a.len() as int), b.subrange(1, b.len() as int))
    }
}

/// Ordering of two values.  Numbers compare after promotion, booleans with
/// false below true, strings and blobs lexicographically; any cross-kind
/// pair (null included) is a type mismatch.
pub open spec fn spec_compare(a: ValueV, b: ValueV) -> Result<Option<CmpResult>, ErrorKind> {
    match (a, b) {
        (ValueV::Prim(x), ValueV::Prim(y)) => Ok(spec_cmp_prim(x, y)),
        (ValueV::Bool(x), ValueV::Bool(y)) => Ok(
            if x == y {
                Some(CmpResult::Equal)
            } else if !x {
                Some(CmpResult::Less)
            } else {
                Some(CmpResult::Greater)
            },
        ),
        (ValueV::Str(x), ValueV::Str(y)) => Ok(Some(spec_lex_chars(x, y))),
        (ValueV::Blob(x), ValueV::Blob(y)) => Ok(Some(spec_lex_bytes(x, y))),
        _ => Err(ErrorKind::TypeMismatch),
    }
}

/// Logical `Not`: the operand coerced to a boolean, negated.
pub open spec fn spec_apply_not(a: ValueV) -> Result<ValueV, ErrorKind> {
    match spec_as_bool(a) {
        Ok(x) => Ok(ValueV::Bool(!x)),
        Err(k) => Err(k),
    }
}

/// Binary logical application.  Comparisons follow `spec_compare`; equality
/// with a null on either side is never true (and inequality always is);
/// `And`/`Or` coerce both sides to booleans, left side first; `Within` and
/// `Without` are unimplemented.  `Not` is unary and never reaches here.
pub open spec fn spec_apply_logical(op: LogicalOp, a: ValueV, b: ValueV) -> Result<
    ValueV,
    ErrorKind,
> {
    match op {
        LogicalOp::Eq => if a is Null || b is Null {
            Ok(ValueV::Bool(false))
        } else {
            match spec_compare(a, b) {
                Ok(c) => Ok(ValueV::Bool(c == Some(CmpResult::Equal))),
                Err(k) => Err(k),
            }
        },
        LogicalOp::Ne => if a is Null || b is Null {
            Ok(ValueV::Bool(true))
        } else {
            match spec_compare(a, b) {
                Ok(c) => Ok(ValueV::Bool(c != Some(CmpResult::Equal))),
                Err(k) => Err(k),
            }
        },
        LogicalOp::Lt => match spec_compare(a, b) {
            Ok(c) => Ok(ValueV::Bool(c == Some(CmpResult::Less))),
            Err(k) => Err(k),
        },
        LogicalOp::Le => match spec_compare(a, b) {
            Ok(c) => Ok(ValueV::Bool(c == Some(CmpResult::Less) || c == Some(CmpResult::Equal))),
            Err(k) => Err(k),
        },
        LogicalOp::Gt => match spec_compare(a, b) {
            Ok(c) => Ok(ValueV::Bool(c == Some(CmpResult::Greater))),
            Err(k) => Err(k),
        },
        LogicalOp::Ge => match spec_compare(a, b) {
            Ok(c) => Ok(
                ValueV::Bool(c == Some(CmpResult::Greater) || c == Some(CmpResult::Equal)),
            ),
            Err(k) => Err(k),
        },
        LogicalOp::And => match (spec_as_bool(a), spec_as_bool(b)) {
            (Ok(x), Ok(y)) => Ok(ValueV::Bool(x && y)),
            (Err(k), _) => Err(k),
            (_, Err(k)) => Err(k),
        },
        LogicalOp::Or => match (spec_as_bool(a), spec_as_bool(b)) {
            (Ok(x), Ok(y)) => Ok(ValueV::Bool(x || y)),
            (Err(k), _) => Err(k),
            (_, Err(k)) => Err(k),
        },
        LogicalOp::Within | LogicalOp::Without => Err(ErrorKind::Unimplemented),
        LogicalOp::Not => Err(ErrorKind::InvalidExpression),
    }
}

fn prim_is_f64(p: &Primitive) -> (r: bool)
    ensures
        r == (*p is F64),
{
    matches!(p, Primitive::F64(_))
}

fn prim_is_u64(p: &Primitive) -> (r: bool)
    ensures
        r == (*p is U64),
{
    matches!(p, Primitive::U64(_))
}

fn prim_is_i64(p: &Primitive) -> (r: bool)
    ensures
        r == (*p is I64),
{
    matches!(p, Primitive::I64(_))
}

fn prim_i64(p: &Primitive) -> (r: i64)
    ensures
        r == spec_prim_i64(*p),
{
    match p {
        Primitive::I32(x) => *x as i64,
        Primitive::I64(x) => *x,
        _ => 0,
    }
}

fn prim_u64(p: &Primitive) -> (r: u64)
    ensures
        r == spec_prim_u64(*p),
{
    match p {
        Primitive::I32(x) => i64_as_u64(*x as i64),
        Primitive::I64(x) => i64_as_u64(*x),
        Primitive::U64(x) => *x,
        _ => 0,
    }
}

fn prim_i32(p: &Primitive) -> (r: i32)
    ensures
        r == spec_prim_i32(*p),
{
    match p {
        Primitive::I32(x) => *x,
        _ => 0,
    }
}

fn pow_wrap_i32(x: i32, e: u64) -> (r: i32)
    ensures
        r == spec_pow_wrap_i32(x, e as nat),
{
    let mut acc: i32 = 1;
    let mut i: u64 = 0;
    while i < e
        invariant
            i <= e,
            acc == spec_pow_wrap_i32(x, i as nat),
        decreases e - i,
    {
        acc = acc.wrapping_mul(x);
        i = i + 1;
    }
    acc
}

fn pow_wrap_i64(x: i64, e: u64) -> (r: i64)
    ensures
        r == spec_pow_wrap_i64(x, e as nat),
{
    let mut acc: i64 = 1;
    let mut i: u64 = 0;
    while i < e
        invariant
            i <= e,
            acc == spec_pow_wrap_i64(x, i as nat),
        decreases e - i,
    {
        acc = acc.wrapping_mul(x);
        i = i + 1;
    }
    acc
}

fn pow_wrap_u64(x: u64, e: u64) -> (r: u64)
    ensures
        r == spec_pow_wrap_u64(x, e as nat),
{
    let mut acc: u64 = 1;
    let mut i: u64 = 0;
    while i < e
        invariant
            i <= e,
            acc == spec_pow_wrap_u64(x, i as nat),
        decreases e - i,
    {
        acc = acc.wrapping_mul(x);
        i = i + 1;
    }
    acc
}

fn fpow(base: u64, e: u64) -> (r: u64)
    ensures
        r == spec_fpow(base, e as nat),
{
    let mut acc: u64 = F64_ONE_BITS;
    let mut i: u64 = 0;
    while i < e
        invariant
            i <= e,
            acc == spec_fpow(base, i as nat),
        decreases e - i,
    {
        acc = f64_mul(acc, base);
        i = i + 1;
    }
    acc
}

fn fpow_signed(base: u64, neg: bool, m: u64) -> (r: u64)
    requires
        neg ==> m > 0,
    ensures
        r == spec_fpow_signed(base, if neg { -(m as int) } else { m as int }),
{
    let p = fpow(base, m);
    if neg {
        f64_div(F64_ONE_BITS, p)
    } else {
        p
    }
}

/// Exponentiation on primitives; see `spec_exp_prim`.
fn exp_prim(a: &Primitive, b: &Primitive) -> (r: Result<Primitive, ExprError>)
    ensures
        (r matches Ok(p) ==> spec_exp_prim(*a, *b) == Ok::<Primitive, ErrorKind>(p)),
        (r matches Err(e) ==> spec_exp_prim(*a, *b) == Err::<Primitive, ErrorKind>(e.kind())),
{
    if prim_is_f64(b) {
        return Err(ExprError::TypeMismatch(String::from_str("exponent must be an integer")));
    }
    let neg: bool;
    let m: u64;
    match b {
        Primitive::I32(y) => {
            if *y >= 0 {
                neg = false;
                m = *y as u64;
            } else {
                neg = true;
                m = (-(*y as i64)) as u64;
            }
        },
        Primitive::I64(y) => {
            if *y >= 0 {
                neg = false;
                m = *y as u64;
            } else {
                neg = true;
                m = ((-(*y + 1)) as u64) + 1;
            }
        },
        Primitive::U64(y) => {
            neg = false;
            m = *y;
        },
        Primitive::F64(_) => {
            neg = false;
            m = 0;
        },
    }
    proof {
        assert(neg == (int_val(*b) < 0));
        assert(m as int == if int_val(*b) < 0 {
            -int_val(*b)
        } else {
            int_val(*b)
        });
    }
    if prim_is_f64(a) || neg {
        let base = prim_f64_bits(a);
        Ok(Primitive::F64(fpow_signed(base, neg, m)))
    } else if prim_is_u64(a) || prim_is_u64(b) {
        Ok(Primitive::U64(pow_wrap_u64(prim_u64(a), m)))
    } else if prim_is_i64(a) || prim_is_i64(b) {
        Ok(Primitive::I64(pow_wrap_i64(prim_i64(a), m)))
    } else {
        Ok(Primitive::I32(pow_wrap_i32(prim_i32(a), m)))
    }
}

fn arith_f64(op: &ArithOp, x: u64, y: u64) -> (r: Result<Primitive, ExprError>)
    ensures
        (r matches Ok(p) ==> spec_arith_f64(*op, x, y) == Ok::<Primitive, ErrorKind>(p)),
        (r matches Err(e) ==> spec_arith_f64(*op, x, y) == Err::<Primitive, ErrorKind>(e.kind())),
{
    match op {
        ArithOp::Add => Ok(Primitive::F64(f64_add(x, y))),
        ArithOp::Sub => Ok(Primitive::F64(f64_sub(x, y))),
        ArithOp::Mul => Ok(Primitive::F64(f64_mul(x, y))),
        ArithOp::Div => match f64_cmp(y, 0) {
            Some(CmpResult::Equal) => Err(ExprError::DivisionByZero),
            _ => Ok(Primitive::F64(f64_div(x, y))),
        },
        ArithOp::Mod => match f64_cmp(y, 0) {
            Some(CmpResult::Equal) => Err(ExprError::DivisionByZero),
            _ => Ok(Primitive::F64(f64_fmod(x, y))),
        },
        ArithOp::Exp => Err(ExprError::InvalidExpression(String::from_str("unexpected operator"))),
    }
}

fn arith_u64(op: &ArithOp, x: u64, y: u64) -> (r: Result<Primitive, ExprError>)
    ensures
        (r matches Ok(p) ==> spec_arith_u64(*op, x, y) == Ok::<Primitive, ErrorKind>(p)),
        (r matches Err(e) ==> spec_arith_u64(*op, x, y) == Err::<Primitive, ErrorKind>(e.kind())),
{
    match op {
        ArithOp::Add => Ok(Primitive::U64(x.wrapping_add(y))),
        ArithOp::Sub => Ok(Primitive::U64(x.wrapping_sub(y))),
        ArithOp::Mul => Ok(Primitive::U64(x.wrapping_mul(y))),
        ArithOp::Div => if y == 0 {
            Err(ExprError::DivisionByZero)
        } else {
            Ok(Primitive::U64(x / y))
        },
        ArithOp::Mod => if y == 0 {
            Err(ExprError::DivisionByZero)
        } else {
            Ok(Primitive::U64(x % y))
        },
        ArithOp::Exp => Err(ExprError::InvalidExpression(String::from_str("unexpected operator"))),
    }
}

fn arith_i64(op: &ArithOp, x: i64, y: i64) -> (r: Result<Primitive, ExprError>)
    ensures
        (r matches Ok(p) ==> spec_arith_i64(*op, x, y) == Ok::<Primitive, ErrorKind>(p)),
        (r matches Err(e) ==> spec_arith_i64(*op, x, y) == Err::<Primitive, ErrorKind>(e.kind())),
{
    match op {
        ArithOp::Add => Ok(Primitive::I64(x.wrapping_add(y))),
        ArithOp::Sub => Ok(Primitive::I64(x.wrapping_sub(y))),
        ArithOp::Mul => Ok(Primitive::I64(x.wrapping_mul(y))),
        ArithOp::Div => if y == 0 {
            Err(ExprError::DivisionByZero)
        } else {
            match x.checked_div(y) {
                Some(q) => Ok(Primitive::I64(q)),
                None => Ok(Primitive::I64(i64::MIN)),
            }
        },
        ArithOp::Mod => if y == 0 {
            Err(ExprError::DivisionByZero)
        } else {
            match x.checked_rem(y) {
                Some(md) => Ok(Primitive::I64(md)),
                None => Ok(Primitive::I64(0)),
            }
        },
        ArithOp::Exp => Err(ExprError::InvalidExpression(String::from_str("unexpected operator"))),
    }
}

fn arith_i32(op: &ArithOp, x: i32, y: i32) -> (r: Result<Primitive, ExprError>)
    ensures
        (r matches Ok(p) ==> spec_arith_i32(*op, x, y) == Ok::<Primitive, ErrorKind>(p)),
        (r matches Err(e) ==> spec_arith_i32(*op, x, y) == Err::<Primitive, ErrorKind>(e.kind())),
{
    match op {
        ArithOp::Add => Ok(Primitive::I32(x.wrapping_add(y))),
        ArithOp::Sub => Ok(Primitive::I32(x.wrapping_sub(y))),
        ArithOp::Mul => Ok(Primitive::I32(x.wrapping_mul(y))),
        ArithOp::Div => if y == 0 {
            Err(ExprError::DivisionByZero)
        } else {
            match x.checked_div(y) {
                Some(q) => Ok(Primitive::I32(q)),
                None => Ok(Primitive::I32(i32::MIN)),
            }
        },
        ArithOp::Mod => if y == 0 {
            Err(ExprError::DivisionByZero)
        } else {
            match x.checked_rem(y) {
                Some(md) => Ok(Primitive::I32(md)),
                None => Ok(Primitive::I32(0)),
            }
        },
        ArithOp::Exp => Err(ExprError::InvalidExpression(String::from_str("unexpected operator"))),
    }
}

/// Arithmetic on primitives after promotion; see `spec_arith_prim`.
pub fn apply_arith_prim(op: &ArithOp, a: &Primitive, b: &Primitive) -> (r: Result<
    Primitive,
    ExprError,
>)
    ensures
        (r matches Ok(p) ==> spec_arith_prim(*op, *a, *b) == Ok::<Primitive, ErrorKind>(p)),
        (r matches Err(e) ==> spec_arith_prim(*op, *a, *b) == Err::<Primitive, ErrorKind>(
            e.kind(),
        )),
{
    if matches!(op, ArithOp::Exp) {
        exp_prim(a, b)
    } else if prim_is_f64(a) || prim_is_f64(b) {
        let x = prim_f64_bits(a);
        let y = prim_f64_bits(b);
        arith_f64(op, x, y)
    } else if prim_is_u64(a) || prim_is_u64(b) {
        arith_u64(op, prim_u64(a), prim_u64(b))
    } else if prim_is_i64(a) || prim_is_i64(b) {
        arith_i64(op, prim_i64(a), prim_i64(b))
    } else {
        arith_i32(op, prim_i32(a), prim_i32(b))
    }
}

/// Arithmetic application to two values; see `spec_apply_arith`.
pub fn apply_arith(op: &ArithOp, a: &Value, b: &Value) -> (r: Result<Value, ExprError>)
    ensures
        (r matches Ok(v) ==> spec_apply_arith(*op, a@, b@) == Ok::<ValueV, ErrorKind>(v@)),
        (r matches Err(e) ==> spec_apply_arith(*op, a@, b@) == Err::<ValueV, ErrorKind>(e.kind())),
{
    let x = match a.as_primitive() {
        Ok(x) => x,
        Err(e) => {
            return Err(e);
        },
    };
    let y = match b.as_primitive() {
        Ok(y) => y,
        Err(e) => {
            return Err(e);
        },
    };
    match apply_arith_prim(op, &x, &y) {
        Ok(p) => Ok(Value::Primitive(p)),
        Err(e) => Err(e),
    }
}

/// Comparison of two primitives; see `spec_cmp_prim`.
pub fn cmp_prim(a: &Primitive, b: &Primitive) -> (r: Option<CmpResult>)
    ensures
        r == spec_cmp_prim(*a, *b),
{
    if prim_is_f64(a) || prim_is_f64(b) {
        let x = prim_f64_bits(a);
        let y = prim_f64_bits(b);
        f64_cmp(x, y)
    } else {
        match (a, b) {
            (Primitive::U64(x), Primitive::U64(y)) => Some(cmp_u64(*x, *y)),
            (Primitive::U64(x), _) => {
                let y = prim_i64(b);
                if y < 0 {
                    Some(CmpResult::Greater)
                } else {
                    Some(cmp_u64(*x, y as u64))
                }
            },
            (_, Primitive::U64(y)) => {
                let x = prim_i64(a);
                if x < 0 {
                    Some(CmpResult::Less)
                } else {
                    Some(cmp_u64(x as u64, *y))
                }
            },
            _ => Some(cmp_i64(prim_i64(a), prim_i64(b))),
        }
    }
}

fn cmp_u64(x: u64, y: u64) -> (r: CmpResult)
    ensures
        r == (if x < y {
            CmpResult::Less
        } else if x == y {
            CmpResult::Equal
        } else {
            CmpResult::Greater
        }),
{
    if x < y {
        CmpResult::Less
    } else if x == y {
        CmpResult::Equal
    } else {
        CmpResult::Greater
    }
}

fn cmp_i64(x: i64, y: i64) -> (r: CmpResult)
    ensures
        r == (if x < y {
            CmpResult::Less
        } else if x == y {
            CmpResult::Equal
        } else {
            CmpResult::Greater
        }),
{
    if x < y {
        CmpResult::Less
    } else if x == y {
        CmpResult::Equal
    } else {
        CmpResult::Greater
    }
}

/// A lexicographic comparison is unchanged by dropping an equal prefix.
proof fn lemma_lex_chars_skip(a: Seq<char>, b: Seq<char>, i: int)
    requires
        0 <= i <= a.len(),
        i <= b.len(),
        forall|j: int| 0 <= j < i ==> a[j] == b[j],
    ensures
        spec_lex_chars(a, b) == spec_lex_chars(
            a.subrange(i, a.len() as int),
            b.subrange(i, b.len() as int),
        ),
    decreases i,
{
    if i == 0 {
        assert(a.subrange(0, a.len() as int) =~= a);
        assert(b.subrange(0, b.len() as int) =~= b);
    } else {
        let a1 = a.subrange(1, a.len() as int);
        let b1 = b.subrange(1, b.len() as int);
        assert(forall|j: int| 0 <= j < i - 1 ==> a1[j] == b1[j]);
        lemma_lex_chars_skip(a1, b1, i - 1);
        assert(a1.subrange(i - 1, a1.len() as int) =~= a.subrange(i, a.len() as int));
        assert(b1.subrange(i - 1, b1.len() as int) =~= b.subrange(i, b.len() as int));
    }
}

/// A lexicographic comparison is unchanged by dropping an equal prefix.
proof fn lemma_lex_bytes_skip(a: Seq<u8>, b: Seq<u8>, i: int)
    requires
        0 <= i <= a.len(),
        i <= b.len(),
        forall|j: int| 0 <= j < i ==> a[j] == b[j],
    ensures
        spec_lex_bytes(a, b) == spec_lex_bytes(
            a.subrange(i, a.len() as int),
            b.subrange(i, b.len() as int),
        ),
    decreases i,
{
    if i == 0 {
        assert(a.subrange(0, a.len() as int) =~= a);
        assert(b.subrange(0, b.len() as int) =~= b);
    } else {
        let a1 = a.subrange(1, a.len() as int);
        let b1 = b.subrange(1, b.len() as int);
        assert(forall|j: int| 0 <= j < i - 1 ==> a1[j] == b1[j]);
        lemma_lex_bytes_skip(a1, b1, i - 1);
        assert(a1.subrange(i - 1, a1.len() as int) =~= a.subrange(i, a.len() as int));
        assert(b1.subrange(i - 1, b1.len() as int) =~= b.subrange(i, b.len() as int));
    }
}

fn lex_str(a: &str, b: &str) -> (r: CmpResult)
    ensures
        r == spec_lex_chars(a@, b@),
{
    let an = a.unicode_len();
    let bn = b.unicode_len();
    let mut i: usize = 0;
    while i < an && i < bn
        invariant
            i <= an,
            i <= bn,
            an == a@.len(),
            bn == b@.len(),
            forall|j: int| 0 <= j < i ==> a@[j] == b@[j],
        decreases an - i,
    {
        let ca = a.get_char(i);
        let cb = b.get_char(i);
        if (ca as u32) < (cb as u32) {
            proof {
                lemma_lex_chars_skip(a@, b@, i as int);
            }
            return CmpResult::Less;
        }
        if (ca as u32) > (cb as u32) {
            proof {
                lemma_lex_chars_skip(a@, b@, i as int);
            }
            return CmpResult::Greater;
        }
        proof {
            assert(a@[i as int] == b@[i as int]);
        }
        i = i + 1;
    }
    proof {
        lemma_lex_chars_skip(a@, b@, i as int);
    }
    if an < bn {
        CmpResult::Less
    } else if an > bn {
        CmpResult::Greater
    } else {
        CmpResult::Equal
    }
}

fn lex_bytes(a: &Vec<u8>, b: &Vec<u8>) -> (r: CmpResult)
    ensures
        r == spec_lex_bytes(a@, b@),
{
    let an = a.len();
    let bn = b.len();
    let mut i: usize = 0;
    while i < an && i < bn
        invariant
            i <= an,
            i <= bn,
            an == a@.len(),
            bn == b@.len(),
            forall|j: int| 0 <= j < i ==> a@[j] == b@[j],
        decreases an - i,
    {
        let ca = a[i];
        let cb = b[i];
        if ca < cb {
            proof {
                lemma_lex_bytes_skip(a@, b@, i as int);
            }
            return CmpResult::Less;
        }
        if ca > cb {
            proof {
                lemma_lex_bytes_skip(a@, b@, i as int);
            }
            return CmpResult::Greater;
        }
        i = i + 1;
    }
    proof {
        lemma_lex_bytes_skip(a@, b@, i as int);
    }
    if an < bn {
        CmpResult::Less
    } else if an > bn {
        CmpResult::Greater
    } else {
        CmpResult::Equal
    }
}

/// Ordering of two values; see `spec_compare`.
pub fn compare_values(a: &Value, b: &Value) -> (r: Result<Option<CmpResult>, ExprError>)
    ensures
        (r matches Ok(c) ==> spec_compare(a@, b@) == Ok::<Option<CmpResult>, ErrorKind>(c)),
        (r matches Err(e) ==> spec_compare(a@, b@) == Err::<Option<CmpResult>, ErrorKind>(
            e.kind(),
        )),
{
    match (a, b) {
        (Value::Primitive(x), Value::Primitive(y)) => Ok(cmp_prim(x, y)),
        (Value::Bool(x), Value::Bool(y)) => Ok(
            Some(
                if *x == *y {
                    CmpResult::Equal
                } else if !*x {
                    CmpResult::Less
                } else {
                    CmpResult::Greater
                },
            ),
        ),
        (Value::Str(x), Value::Str(y)) => Ok(Some(lex_str(x.as_str(), y.as_str()))),
        (Value::Blob(x), Value::Blob(y)) => Ok(Some(lex_bytes(x, y))),
        _ => Err(ExprError::TypeMismatch(String::from_str("operands are not comparable"))),
    }
}

/// Logical `Not`; see `spec_apply_not`.
pub fn apply_not(a: &Value) -> (r: Result<Value, ExprError>)
    ensures
        (r matches Ok(v) ==> spec_apply_not(a@) == Ok::<ValueV, ErrorKind>(v@)),
        (r matches Err(e) ==> spec_apply_not(a@) == Err::<ValueV, ErrorKind>(e.kind())),
{
    match a.as_bool() {
        Ok(x) => Ok(Value::Bool(!x)),
        Err(e) => Err(e),
    }
}

fn cmp_is(c: Option<CmpResult>, want: CmpResult) -> (r: bool)
    ensures
        r == (c == Some(want)),
{
    match c {
        Some(g) => matches!(
            (g, want),
            (CmpResult::Less, CmpResult::Less)
            | (CmpResult::Equal, CmpResult::Equal)
            | (CmpResult::Greater, CmpResult::Greater)
        ),
        None => false,
    }
}

/// Binary logical application; see `spec_apply_logical`.
pub fn apply_logical_binary(op: &LogicalOp, a: &Value, b: &Value) -> (r: Result<Value, ExprError>)
    ensures
        (r matches Ok(v) ==> spec_apply_logical(*op, a@, b@) == Ok::<ValueV, ErrorKind>(v@)),
        (r matches Err(e) ==> spec_apply_logical(*op, a@, b@) == Err::<ValueV, ErrorKind>(
            e.kind(),
        )),
{
    match op {
        LogicalOp::Eq | LogicalOp::Ne => {
            let neq = matches!(op, LogicalOp::Ne);
            if matches!(a, Value::Null) || matches!(b, Value::Null) {
                return Ok(Value::Bool(neq));
            }
            match compare_values(a, b) {
                Ok(c) => {
                    let eq = cmp_is(c, CmpResult::Equal);
                    Ok(Value::Bool(if neq {
                        !eq
                    } else {
                        eq
                    }))
                },
                Err(e) => Err(e),
            }
        },
        LogicalOp::Lt => match compare_values(a, b) {
            Ok(c) => Ok(Value::Bool(cmp_is(c, CmpResult::Less))),
            Err(e) => Err(e),
        },
        LogicalOp::Le => match compare_values(a, b) {
            Ok(c) => Ok(
                Value::Bool(cmp_is(c, CmpResult::Less) || cmp_is(c, CmpResult::Equal)),
            ),
            Err(e) => Err(e),
        },
        LogicalOp::Gt => match compare_values(a, b) {
            Ok(c) => Ok(Value::Bool(cmp_is(c, CmpResult::Greater))),
            Err(e) => Err(e),
        },
        LogicalOp::Ge => match compare_values(a, b) {
            Ok(c) => Ok(
                Value::Bool(cmp_is(c, CmpResult::Greater) || cmp_is(c, CmpResult::Equal)),
            ),
            Err(e) => Err(e),
        },
        LogicalOp::And => match a.as_bool() {
            Ok(x) => match b.as_bool() {
                Ok(y) => Ok(Value::Bool(x && y)),
                Err(e) => Err(e),
            },
            Err(e) => Err(e),
        },
        LogicalOp::Or => match a.as_bool() {
            Ok(x) => match b.as_bool() {
                Ok(y) => Ok(Value::Bool(x || y)),
                Err(e) => Err(e),
            },
            Err(e) => Err(e),
        },
        LogicalOp::Within | LogicalOp::Without => Err(
            ExprError::Unimplemented(String::from_str("within/without are not implemented")),
        ),
        LogicalOp::Not => Err(
            ExprError::InvalidExpression(String::from_str("unary operator in binary position")),
        ),
    }
}

/// Law: arithmetic on a boolean operand always fails with a type mismatch,
/// whatever the operator and the other operand.
pub proof fn lemma_arith_rejects_bool(op: ArithOp, a: ValueV, b: ValueV)
    requires
        a is Bool || b is Bool,
    ensures
        spec_apply_arith(op, a, b) == Err::<ValueV, ErrorKind>(ErrorKind::TypeMismatch),
{
}

/// Law: logical `Not` on a number follows the `n != 0` rule: it returns
/// the negation of the number's comparison against zero.
pub proof fn lemma_not_on_number(p: Primitive)
    ensures
        spec_apply_not(ValueV::Prim(p)) == Ok::<ValueV, ErrorKind>(
            ValueV::Bool(!spec_prim_nonzero(p)),
        ),
{
}

/// Law: the ordering operators agree, on integer primitives.  When `a < b`
/// holds, then `b > a`, `a <= b`, `a != b` hold and `a >= b` does not.
/// Doubles are excluded: their comparison is an opaque IEEE-754 fact.
pub proof fn lemma_ordering_coherent(a: Primitive, b: Primitive)
    requires
        !(a is F64),
        !(b is F64),
        spec_apply_logical(LogicalOp::Lt, ValueV::Prim(a), ValueV::Prim(b)) == Ok::<
            ValueV,
            ErrorKind,
        >(ValueV::Bool(true)),
    ensures
        spec_apply_logical(LogicalOp::Gt, ValueV::Prim(b), ValueV::Prim(a)) == Ok::<
            ValueV,
            ErrorKind,
        >(ValueV::Bool(true)),
        spec_apply_logical(LogicalOp::Le, ValueV::Prim(a), ValueV::Prim(b)) == Ok::<
            ValueV,
            ErrorKind,
        >(ValueV::Bool(true)),
        spec_apply_logical(LogicalOp::Ge, ValueV::Prim(a), ValueV::Prim(b)) == Ok::<
            ValueV,
            ErrorKind,
        >(ValueV::Bool(false)),
        spec_apply_logical(LogicalOp::Ne, ValueV::Prim(a), ValueV::Prim(b)) == Ok::<
            ValueV,
            ErrorKind,
        >(ValueV::Bool(true)),
{
}

} // verus!
