//! The wire form of a compiled program: plain data mirroring the upstream
//! compiler's serialized units, consumed by `Evaluator::from_pb`.
//!
//! Each unit carries exactly one item: a logical or arithmetic operator code,
//! a constant, or a variable reference.  A double constant is carried as the
//! `u64` bit pattern of the IEEE-754 binary64 value.

use vstd::prelude::*;

verus! {

/// A tag or property key: a name or a small integer id.
#[derive(Debug, Clone, PartialEq, Eq, Hash)]
pub enum NameOrId {
    Str(String),
    Id(i32),
}

/// The view of a `NameOrId`.
pub enum NameOrIdV {
    Str(Seq<char>),
    Id(i32),
}

impl View for NameOrId {
    type V = NameOrIdV;

    open spec fn view(&self) -> NameOrIdV {
        match self {
            NameOrId::Str(s) => NameOrIdV::Str(s@),
            NameOrId::Id(i) => NameOrIdV::Id(*i),
        }
    }
}

impl NameOrId {
    /// Whether two identifiers denote the same tag or key.
    pub fn key_eq(&self, other: &NameOrId) -> (r: bool)
        ensures
            r == (self@ == other@),
    {
        match (self, other) {
            (NameOrId::Str(a), NameOrId::Str(b)) => *a == *b,
            (NameOrId::Id(a), NameOrId::Id(b)) => *a == *b,
            _ => false,
        }
    }

    /// A copy of the identifier.
    pub fn dup(&self) -> (r: NameOrId)
        ensures
            r@ == self@,
    {
        match self {
            NameOrId::Str(s) => NameOrId::Str(s.clone()),
            NameOrId::Id(i) => NameOrId::Id(*i),
        }
    }
}

/// A property key on a graph element; opaque to the evaluator.
pub type PropKey = NameOrId;

/// The payload of a constant wire value.  Array payloads are recognized but
/// not supported by the evaluator.
#[derive(Debug, Clone, PartialEq)]
pub enum ConstItem {
    Boolean(bool),
    I32(i32),
    I64(i64),
    /// An IEEE-754 binary64 constant, as its bit pattern.
    F64(u64),
    Str(String),
    Blob(Vec<u8>),
    Null,
    I32Array(Vec<i32>),
    I64Array(Vec<i64>),
    F64Array(Vec<u64>),
    StrArray(Vec<String>),
}

/// The view of a `ConstItem`.
pub enum ConstItemV {
    Boolean(bool),
    I32(i32),
    I64(i64),
    F64(u64),
    Str(Seq<char>),
    Blob(Seq<u8>),
    Null,
    I32Array(Seq<i32>),
    I64Array(Seq<i64>),
    F64Array(Seq<u64>),
    StrArray(Seq<Seq<char>>),
}

impl View for ConstItem {
    type V = ConstItemV;

    open spec fn view(&self) -> ConstItemV {
        match self {
            ConstItem::Boolean(b) => ConstItemV::Boolean(*b),
            ConstItem::I32(x) => ConstItemV::I32(*x),
            ConstItem::I64(x) => ConstItemV::I64(*x),
            ConstItem::F64(x) => ConstItemV::F64(*x),
            ConstItem::Str(s) => ConstItemV::Str(s@),
            ConstItem::Blob(b) => ConstItemV::Blob(b@),
            ConstItem::Null => ConstItemV::Null,
            ConstItem::I32Array(v) => ConstItemV::I32Array(v@),
            ConstItem::I64Array(v) => ConstItemV::I64Array(v@),
            ConstItem::F64Array(v) => ConstItemV::F64Array(v@),
            ConstItem::StrArray(v) => ConstItemV::StrArray(
                v@.map_values(|s: String| s@),
            ),
        }
    }
}

/// A constant wire value; the inner levels mirror the wire's optional fields.
#[derive(Debug, Clone, PartialEq)]
pub struct ConstValue {
    pub item: Option<ConstItem>,
}

impl View for ConstValue {
    type V = Option<ConstItemV>;

    open spec fn view(&self) -> Option<ConstItemV> {
        match &self.item {
            Some(it) => Some(it@),
            None => None,
        }
    }
}

/// A constant unit of the wire program.
#[derive(Debug, Clone, PartialEq)]
pub struct Const {
    pub value: Option<ConstValue>,
}

impl View for Const {
    type V = Option<Option<ConstItemV>>;

    open spec fn view(&self) -> Option<Option<ConstItemV>> {
        match &self.value {
            Some(v) => Some(v@),
            None => None,
        }
    }
}

/// A variable unit of the wire program: a tag, and optionally a property key.
#[derive(Debug, Clone, PartialEq)]
pub struct Variable {
    pub tag: Option<NameOrId>,
    pub property: Option<PropKey>,
}

/// The view of a `Variable`.
pub struct VariableV {
    pub tag: Option<NameOrIdV>,
    pub property: Option<NameOrIdV>,
}

impl View for Variable {
    type V = VariableV;

    open spec fn view(&self) -> VariableV {
        VariableV {
            tag: match &self.tag {
                Some(t) => Some(t@),
                None => None,
            },
            property: match &self.property {
                Some(p) => Some(p@),
                None => None,
            },
        }
    }
}

/// The single item a wire unit carries.
#[derive(Debug, Clone, PartialEq)]
pub enum ExprItem {
    Logical(i32),
    Arith(i32),
    Const(Const),
    Var(Variable),
}

/// The view of an `ExprItem`.
pub enum ExprItemV {
    Logical(i32),
    Arith(i32),
    Const(Option<Option<ConstItemV>>),
    Var(VariableV),
}

impl View for ExprItem {
    type V = ExprItemV;

    open spec fn view(&self) -> ExprItemV {
        match self {
            ExprItem::Logical(c) => ExprItemV::Logical(*c),
            ExprItem::Arith(c) => ExprItemV::Arith(*c),
            ExprItem::Const(c) => ExprItemV::Const(c@),
            ExprItem::Var(v) => ExprItemV::Var(v@),
        }
    }
}

/// One unit of the wire program.
#[derive(Debug, Clone, PartialEq)]
pub struct ExprUnit {
    pub item: Option<ExprItem>,
}

impl View for ExprUnit {
    type V = Option<ExprItemV>;

    open spec fn view(&self) -> Option<ExprItemV> {
        match &self.item {
            Some(it) => Some(it@),
            None => None,
        }
    }
}

} // verus!
