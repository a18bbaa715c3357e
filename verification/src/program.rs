//! Program representation: the units a postfix program is made of, and the
//! reading of a wire-form program into them, total up to the rejected units.

use vstd::prelude::*;
use crate::context::{Context, ElemV, spec_lookup};
use crate::error::{ErrorKind, ExprError, ParsePbError};
use crate::ops::{ArithOp, LogicalOp};
use crate::value::{Primitive, Value, ValueV};
use crate::wire::{Const, ConstItem, ConstItemV, ExprItemV, ExprUnit, NameOrId, NameOrIdV, PropKey};

verus! {

/// One unit of a compiled program: an operand (constant or variable
/// reference) or an operator.
#[derive(Debug)]
pub enum InnerOpr {
    Logical(LogicalOp),
    Arith(ArithOp),
    /// A literal; `None` carries an explicit null literal.
    Const(Option<Value>),
    /// Dereference the element bound to `tag`; with a key return that
    /// property, without one return the element's own value.
    Var { tag: NameOrId, prop_key: Option<PropKey> },
}

/// The view of a program unit.
pub enum UnitV {
    Logical(LogicalOp),
    Arith(ArithOp),
    Const(Option<ValueV>),
    Var { tag: NameOrIdV, prop: Option<NameOrIdV> },
}

impl View for InnerOpr {
    type V = UnitV;

    open spec fn view(&self) -> UnitV {
        match self {
            InnerOpr::Logical(op) => UnitV::Logical(*op),
            InnerOpr::Arith(op) => UnitV::Arith(*op),
            InnerOpr::Const(c) => UnitV::Const(
                match c {
                    Some(v) => Some(v@),
                    None => None,
                },
            ),
            InnerOpr::Var { tag, prop_key } => UnitV::Var {
                tag: tag@,
                prop: match prop_key {
                    Some(k) => Some(k@),
                    None => None,
                },
            },
        }
    }
}

/// The logical operator a wire code denotes, if any.
pub open spec fn spec_logical_of_code(c: i32) -> Option<LogicalOp> {
    if c == 0 {
        Some(LogicalOp::Eq)
    } else if c == 1 {
        Some(LogicalOp::Ne)
    } else if c == 2 {
        Some(LogicalOp::Lt)
    } else if c == 3 {
        Some(LogicalOp::Le)
    } else if c == 4 {
        Some(LogicalOp::Gt)
    } else if c == 5 {
        Some(LogicalOp::Ge)
    } else if c == 6 {
        Some(LogicalOp::And)
    } else if c == 7 {
        Some(LogicalOp::Or)
    } else if c == 8 {
        Some(LogicalOp::Not)
    } else if c == 9 {
        Some(LogicalOp::Within)
    } else if c == 10 {
        Some(LogicalOp::Without)
    } else {
        None
    }
}

/// The arithmetic operator a wire code denotes, if any.
pub open spec fn spec_arith_of_code(c: i32) -> Option<ArithOp> {
    if c == 0 {
        Some(ArithOp::Add)
    } else if c == 1 {
        Some(ArithOp::Sub)
    } else if c == 2 {
        Some(ArithOp::Mul)
    } else if c == 3 {
        Some(ArithOp::Div)
    } else if c == 4 {
        Some(ArithOp::Exp)
    } else if c == 5 {
        Some(ArithOp::Mod)
    } else {
        None
    }
}

/// Translation of a constant wire value: `None` marks a rejected constant
/// (an absent payload or an array), `Some(None)` an explicit null literal.
pub open spec fn spec_const_to_value(c: Option<Option<ConstItemV>>) -> Option<Option<ValueV>> {
    match c {
        None => None,
        Some(None) => None,
        Some(Some(item)) => match item {
            ConstItemV::Boolean(b) => Some(Some(ValueV::Bool(b))),
            ConstItemV::I32(x) => Some(Some(ValueV::Prim(Primitive::I32(x)))),
            ConstItemV::I64(x) => Some(Some(ValueV::Prim(Primitive::I64(x)))),
            ConstItemV::F64(x) => Some(Some(ValueV::Prim(Primitive::F64(x)))),
            ConstItemV::Str(s) => Some(Some(ValueV::Str(s))),
            ConstItemV::Blob(b) => Some(Some(ValueV::Blob(b))),
            ConstItemV::Null => Some(None),
            ConstItemV::I32Array(_) => None,
            ConstItemV::I64Array(_) => None,
            ConstItemV::F64Array(_) => None,
            ConstItemV::StrArray(_) => None,
        },
    }
}

/// Translation of one wire unit; `None` marks a rejected unit.
pub open spec fn spec_unit_from_pb(u: Option<ExprItemV>) -> Option<UnitV> {
    match u {
        None => None,
        Some(ExprItemV::Logical(c)) => match spec_logical_of_code(c) {
            Some(op) => Some(UnitV::Logical(op)),
            None => None,
        },
        Some(ExprItemV::Arith(c)) => match spec_arith_of_code(c) {
            Some(op) => Some(UnitV::Arith(op)),
            None => None,
        },
        Some(ExprItemV::Const(c)) => match spec_const_to_value(c) {
            Some(v) => Some(UnitV::Const(v)),
            None => None,
        },
        Some(ExprItemV::Var(v)) => match v.tag {
            Some(t) => Some(UnitV::Var { tag: t, prop: v.property }),
            None => None,
        },
    }
}

/// Translation of a whole wire program: total up to the rejected units.
pub open spec fn spec_units_from_pb(ws: Seq<Option<ExprItemV>>) -> Option<Seq<UnitV>>
    decreases ws.len(),
{
    if ws.len() == 0 {
        Some(Seq::empty())
    } else {
        match spec_units_from_pb(ws.drop_last()) {
            None => None,
            Some(rest) => match spec_unit_from_pb(ws.last()) {
                None => None,
                Some(u) => Some(rest.push(u)),
            },
        }
    }
}

fn logical_of_code(c: i32) -> (r: Result<LogicalOp, ParsePbError>)
    ensures
        (r matches Ok(op) ==> spec_logical_of_code(c) == Some(op)),
        (r matches Err(_) ==> spec_logical_of_code(c) is None),
{
    if c == 0 {
        Ok(LogicalOp::Eq)
    } else if c == 1 {
        Ok(LogicalOp::Ne)
    } else if c == 2 {
        Ok(LogicalOp::Lt)
    } else if c == 3 {
        Ok(LogicalOp::Le)
    } else if c == 4 {
        Ok(LogicalOp::Gt)
    } else if c == 5 {
        Ok(LogicalOp::Ge)
    } else if c == 6 {
        Ok(LogicalOp::And)
    } else if c == 7 {
        Ok(LogicalOp::Or)
    } else if c == 8 {
        Ok(LogicalOp::Not)
    } else if c == 9 {
        Ok(LogicalOp::Within)
    } else if c == 10 {
        Ok(LogicalOp::Without)
    } else {
        Err(ParsePbError::InvalidPb(String::from_str("unknown logical operator code")))
    }
}

fn arith_of_code(c: i32) -> (r: Result<ArithOp, ParsePbError>)
    ensures
        (r matches Ok(op) ==> spec_arith_of_code(c) == Some(op)),
        (r matches Err(_) ==> spec_arith_of_code(c) is None),
{
    if c == 0 {
        Ok(ArithOp::Add)
    } else if c == 1 {
        Ok(ArithOp::Sub)
    } else if c == 2 {
        Ok(ArithOp::Mul)
    } else if c == 3 {
        Ok(ArithOp::Div)
    } else if c == 4 {
        Ok(ArithOp::Exp)
    } else if c == 5 {
        Ok(ArithOp::Mod)
    } else {
        Err(ParsePbError::InvalidPb(String::from_str("unknown arithmetic operator code")))
    }
}

impl Const {
    /// Translate a constant wire value into an optional evaluator value;
    /// see `spec_const_to_value`.
    pub fn into_object(self) -> (r: Result<Option<Value>, ParsePbError>)
        ensures
            (r matches Ok(v) ==> spec_const_to_value(self@) == Some(
                match v {
                    Some(w) => Some(w@),
                    None => None,
                },
            )),
            (r matches Err(_) ==> spec_const_to_value(self@) is None),
    {
        match self.value {
            Some(cv) => match cv.item {
                Some(item) => match item {
                    ConstItem::Boolean(b) => Ok(Some(Value::Bool(b))),
                    ConstItem::I32(x) => Ok(
                        Some(Value::Primitive(Primitive::I32(x))),
                    ),
                    ConstItem::I64(x) => Ok(
                        Some(Value::Primitive(Primitive::I64(x))),
                    ),
                    ConstItem::F64(x) => Ok(
                        Some(Value::Primitive(Primitive::F64(x))),
                    ),
                    ConstItem::Str(s) => Ok(Some(Value::Str(s))),
                    ConstItem::Blob(b) => Ok(Some(Value::Blob(b))),
                    ConstItem::Null => Ok(None),
                    _ => Err(
                        ParsePbError::InvalidPb(
                            String::from_str("array constants are unsupported"),
                        ),
                    ),
                },
                None => Err(ParsePbError::InvalidPb(String::from_str("empty value provided"))),
            },
            None => Err(ParsePbError::InvalidPb(String::from_str("empty value provided"))),
        }
    }
}

impl InnerOpr {
    /// Translate one wire unit; see `spec_unit_from_pb`.
    pub fn from_pb(unit: ExprUnit) -> (r: Result<InnerOpr, ParsePbError>)
        ensures
            (r matches Ok(o) ==> spec_unit_from_pb(unit@) == Some(o@)),
            (r matches Err(_) ==> spec_unit_from_pb(unit@) is None),
    {
        match unit.item {
            None => Err(ParsePbError::InvalidPb(String::from_str("empty unit provided"))),
            Some(item) => match item {
                crate::wire::ExprItem::Logical(c) => match logical_of_code(c) {
                    Ok(op) => Ok(InnerOpr::Logical(op)),
                    Err(e) => Err(e),
                },
                crate::wire::ExprItem::Arith(c) => match arith_of_code(c) {
                    Ok(op) => Ok(InnerOpr::Arith(op)),
                    Err(e) => Err(e),
                },
                crate::wire::ExprItem::Const(c) => match c.into_object() {
                    Ok(v) => Ok(InnerOpr::Const(v)),
                    Err(e) => Err(e),
                },
                crate::wire::ExprItem::Var(v) => match v.tag {
                    Some(tag) => Ok(InnerOpr::Var { tag, prop_key: v.property }),
                    None => Err(
                        ParsePbError::InvalidPb(String::from_str("missing tag on a variable")),
                    ),
                },
            },
        }
    }

    /// Whether this unit is an operand (constant or variable reference)
    /// rather than an operator.
    pub fn is_operand(&self) -> (r: bool)
        ensures
            r == (self@ is Const || self@ is Var),
    {
        matches!(self, InnerOpr::Const(_) | InnerOpr::Var { .. })
    }
}

/// The optional context under which variables resolve, as a binding.
pub open spec fn spec_ctx_view<C: Context>(c: Option<&C>) -> Option<Map<NameOrIdV, ElemV>> {
    match c {
        Some(cc) => Some(cc.ctx_view()),
        None => None,
    }
}

/// Resolution of one unit to an operand.  A constant resolves to its value,
/// with both forms of the null literal resolving to no operand; a variable
/// resolves through the context: an unbound tag (or no context at all) is a
/// missing-context error, while a bound element without the requested
/// property (or without a property bag) resolves to no operand.  An operator
/// resolves to no operand.
pub open spec fn spec_resolve(u: UnitV, ctx: Option<Map<NameOrIdV, ElemV>>) -> Result<
    Option<ValueV>,
    ErrorKind,
> {
    match u {
        UnitV::Const(copt) => match copt {
            Some(v) => if v is Null {
                Ok(None)
            } else {
                Ok(Some(v))
            },
            None => Ok(None),
        },
        UnitV::Var { tag, prop } => match ctx {
            None => Err(ErrorKind::MissingContext),
            Some(m) => if !m.contains_key(tag) {
                Err(ErrorKind::MissingContext)
            } else {
                let e = m[tag];
                match prop {
                    None => Ok(Some(e.value)),
                    Some(k) => match e.props {
                        None => Ok(None),
                        Some(ps) => Ok(spec_lookup(ps, k)),
                    },
                }
            },
        },
        UnitV::Logical(_) => Ok(None),
        UnitV::Arith(_) => Ok(None),
    }
}

impl InnerOpr {
    /// Resolve this unit to an operand value under the optional context;
    /// see `spec_resolve`.
    pub fn eval_as_borrow_object<C: Context>(&self, context: Option<&C>) -> (r: Result<
        Option<Value>,
        ExprError,
    >)
        ensures
            (r matches Ok(v) ==> spec_resolve(self@, spec_ctx_view(context)) == Ok::<
                Option<ValueV>,
                ErrorKind,
            >(
                match v {
                    Some(w) => Some(w@),
                    None => None,
                },
            )),
            (r matches Err(e) ==> spec_resolve(self@, spec_ctx_view(context)) == Err::<
                Option<ValueV>,
                ErrorKind,
            >(e.kind())),
    {
        match self {
            InnerOpr::Const(copt) => match copt {
                Some(v) => if matches!(v, Value::Null) {
                    Ok(None)
                } else {
                    Ok(Some(v.dup()))
                },
                None => Ok(None),
            },
            InnerOpr::Var { tag, prop_key } => match context {
                None => Err(
                    ExprError::MissingContext(
                        String::from_str("missing context for evaluating variables"),
                    ),
                ),
                Some(ctxt) => match ctxt.get(tag) {
                    None => Err(
                        ExprError::MissingContext(
                            String::from_str("the tag is not bound in the context"),
                        ),
                    ),
                    Some(element) => match prop_key {
                        None => Ok(Some(element.as_borrow_object())),
                        Some(key) => match element.details() {
                            None => Ok(None),
                            Some(d) => Ok(d.get(key)),
                        },
                    },
                },
            },
            _ => Ok(None),
        }
    }
}

} // verus!
