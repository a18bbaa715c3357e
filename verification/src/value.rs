//! The dynamically typed value model: a tagged value with numeric subtypes,
//! booleans, strings, blobs and an explicit null.

use vstd::prelude::*;
use crate::error::{ErrorKind, ExprError};
use crate::float::{CmpResult, spec_f64_cmp, f64_cmp};

verus! {

/// A numeric value.  The subtype is the narrowest one the producer chose;
/// arithmetic promotes along I32 < I64 < U64 < F64.  A double travels as the
/// `u64` bit pattern that encodes it (see `crate::float`).
#[derive(Clone, Copy, PartialEq, Eq, Structural, Debug)]
pub enum Primitive {
    I32(i32),
    I64(i64),
    U64(u64),
    F64(u64),
}

/// The mathematical view of a value.  Strings and blobs are sequences;
/// numeric primitives are plain enough to stand as they are.
pub enum ValueV {
    Null,
    Bool(bool),
    Prim(Primitive),
    Str(Seq<char>),
    Blob(Seq<u8>),
}

/// A dynamically typed value.
#[derive(Debug, PartialEq)]
pub enum Value {
    /// Absence of a value; distinct from boolean false.
    Null,
    Bool(bool),
    Primitive(Primitive),
    /// Owned immutable text.
    Str(String),
    /// Owned immutable byte sequence.
    Blob(Vec<u8>),
}

impl View for Value {
    type V = ValueV;

    open spec fn view(&self) -> ValueV {
        match self {
            Value::Null => ValueV::Null,
            Value::Bool(b) => ValueV::Bool(*b),
            Value::Primitive(p) => ValueV::Prim(*p),
            Value::Str(s) => ValueV::Str(s@),
            Value::Blob(b) => ValueV::Blob(b@),
        }
    }
}

/// Interpreting a value as a numeric primitive: only a primitive qualifies.
/// Booleans are deliberately not coerced to numbers, and null, strings and
/// blobs are rejected as well.
pub open spec fn spec_as_primitive(v: ValueV) -> Result<Primitive, ErrorKind> {
    match v {
        ValueV::Prim(p) => Ok(p),
        _ => Err(ErrorKind::TypeMismatch),
    }
}

/// Whether a primitive is numerically non-zero.  For a double this is the
/// IEEE-754 comparison against `+0.0`, whose bit pattern is the zero word;
/// a NaN is unequal to zero.
pub open spec fn spec_prim_nonzero(p: Primitive) -> bool {
    match p {
        Primitive::I32(x) => x != 0,
        Primitive::I64(x) => x != 0,
        Primitive::U64(x) => x != 0,
        Primitive::F64(bits) => spec_f64_cmp(bits, 0) != Some(CmpResult::Equal),
    }
}

/// Interpreting a value as a boolean: a boolean is itself, a number is
/// compared against zero, everything else is rejected.
pub open spec fn spec_as_bool(v: ValueV) -> Result<bool, ErrorKind> {
    match v {
        ValueV::Bool(b) => Ok(b),
        ValueV::Prim(p) => Ok(spec_prim_nonzero(p)),
        _ => Err(ErrorKind::TypeMismatch),
    }
}

fn clone_bytes(b: &Vec<u8>) -> (r: Vec<u8>)
    ensures
        r@ == b@,
{
    let mut r: Vec<u8> = Vec::new();
    let n = b.len();
    for i in 0..n
        invariant
            n == b.len(),
            r@ == b@.subrange(0, i as int),
    {
        r.push(b[i]);
        proof {
            assert(r@ =~= b@.subrange(0, i + 1 as int));
        }
    }
    proof {
        assert(r@ =~= b@);
    }
    r
}

impl Value {
    /// A copy of the value; string and blob bodies are copied in full.
    pub fn dup(&self) -> (r: Value)
        ensures
            r@ == self@,
    {
        match self {
            Value::Null => Value::Null,
            Value::Bool(b) => Value::Bool(*b),
            Value::Primitive(p) => Value::Primitive(*p),
            Value::Str(s) => Value::Str(s.clone()),
            Value::Blob(b) => Value::Blob(clone_bytes(b)),
        }
    }

    /// Interpret the value as a numeric primitive; see `spec_as_primitive`.
    pub fn as_primitive(&self) -> (r: Result<Primitive, ExprError>)
        ensures
            (r matches Ok(p) ==> spec_as_primitive(self@) == Ok::<Primitive, ErrorKind>(p)),
            (r matches Err(e) ==> spec_as_primitive(self@) == Err::<Primitive, ErrorKind>(e.kind())),
    {
        match self {
            Value::Primitive(p) => Ok(*p),
            _ => Err(ExprError::TypeMismatch(String::from_str("expected a numeric operand"))),
        }
    }

    /// Interpret the value as a boolean; see `spec_as_bool`.
    pub fn as_bool(&self) -> (r: Result<bool, ExprError>)
        ensures
            (r matches Ok(b) ==> spec_as_bool(self@) == Ok::<bool, ErrorKind>(b)),
            (r matches Err(e) ==> spec_as_bool(self@) == Err::<bool, ErrorKind>(e.kind())),
    {
        match self {
            Value::Bool(b) => Ok(*b),
            Value::Primitive(p) => Ok(prim_nonzero(p)),
            _ => Err(ExprError::TypeMismatch(String::from_str("expected a boolean operand"))),
        }
    }
}

/// Whether a primitive is numerically non-zero; see `spec_prim_nonzero`.
pub fn prim_nonzero(p: &Primitive) -> (r: bool)
    ensures
        r == spec_prim_nonzero(*p),
{
    match p {
        Primitive::I32(x) => *x != 0,
        Primitive::I64(x) => *x != 0,
        Primitive::U64(x) => *x != 0,
        Primitive::F64(bits) => match f64_cmp(*bits, 0) {
            Some(CmpResult::Equal) => false,
            _ => true,
        },
    }
}

} // verus!
