//! Error taxonomy: construction-time errors for the wire translation and
//! run-time errors for evaluation.

use vstd::prelude::*;

verus! {

/// The kind of a run-time evaluation error, with the human-readable
/// message stripped.  Contracts speak of kinds; messages are advisory.
#[derive(Clone, Copy, PartialEq, Eq, Structural, Debug)]
pub enum ErrorKind {
    EmptyExpression,
    NoneOperand,
    MissingOperands,
    MissingContext,
    TypeMismatch,
    DivisionByZero,
    Unimplemented,
    InvalidExpression,
}

/// An error raised while translating a wire-form program.
/// The program is never partially built: the first offending unit aborts
/// the translation.
#[derive(Debug, PartialEq)]
pub enum ParsePbError {
    InvalidPb(String),
}

pub type ParsePbResult<T> = Result<T, ParsePbError>;

/// An error raised while evaluating an expression.  Kinds follow the
/// evaluator's edge policies; the payload, where present, names what was
/// expected.
#[derive(Debug)]
pub enum ExprError {
    EmptyExpression,
    NoneOperand,
    MissingOperands,
    MissingContext(String),
    TypeMismatch(String),
    DivisionByZero,
    Unimplemented(String),
    InvalidExpression(String),
}

pub type ExprResult<T> = Result<T, ExprError>;

impl ExprError {
    /// The kind of this error, for use in contracts.
    pub open spec fn kind(&self) -> ErrorKind {
        match self {
            ExprError::EmptyExpression => ErrorKind::EmptyExpression,
            ExprError::NoneOperand => ErrorKind::NoneOperand,
            ExprError::MissingOperands => ErrorKind::MissingOperands,
            ExprError::MissingContext(_) => ErrorKind::MissingContext,
            ExprError::TypeMismatch(_) => ErrorKind::TypeMismatch,
            ExprError::DivisionByZero => ErrorKind::DivisionByZero,
            ExprError::Unimplemented(_) => ErrorKind::Unimplemented,
            ExprError::InvalidExpression(_) => ErrorKind::InvalidExpression,
        }
    }
}

} // verus!
