//! The ways in which compiling or evaluating a formula can fail.

use vstd::prelude::*;
use vstd::string::StringExecFns;

verus! {

/// The kinds of failure.
#[derive(Clone, Copy, Debug, PartialEq, Eq, Structural)]
pub enum ErrorKind {
    /// The formula holds no token.
    EmptyExpression,
    /// A parenthesis has no partner.
    UnbalancedParentheses,
    /// A token is no operator and no number, and the table has no column of
    /// that name.
    UnknownColumn,
    /// An operator found fewer operands on the stack than it consumes.
    ArityMismatch,
    /// Evaluation ended with no column on the stack, or with more than one.
    IllFormedExpression,
    /// The data engine could not apply an operator to its operands.
    OperatorFailed,
}

impl ErrorKind {
    /// The kind in words.
    pub open spec fn text(self) -> Seq<char> {
        match self {
            ErrorKind::EmptyExpression => "the formula is empty"@,
            ErrorKind::UnbalancedParentheses => "the formula's parentheses are not balanced"@,
            ErrorKind::UnknownColumn => "the formula names a column that the table does not have"@,
            ErrorKind::ArityMismatch => "an operator of the formula lacks an operand"@,
            ErrorKind::IllFormedExpression => "the formula does not reduce to one column"@,
            ErrorKind::OperatorFailed => "an operator could not be applied to its operands"@,
        }
    }

    /// The kind in words.
    pub fn message(&self) -> (words: String)
        ensures
            words@ == self.text(),
    {
        match self {
            ErrorKind::EmptyExpression => String::from_str("the formula is empty"),
            ErrorKind::UnbalancedParentheses => String::from_str(
                "the formula's parentheses are not balanced",
            ),
            ErrorKind::UnknownColumn => String::from_str(
                "the formula names a column that the table does not have",
            ),
            ErrorKind::ArityMismatch => String::from_str(
                "an operator of the formula lacks an operand",
            ),
            ErrorKind::IllFormedExpression => String::from_str(
                "the formula does not reduce to one column",
            ),
            ErrorKind::OperatorFailed => String::from_str(
                "an operator could not be applied to its operands",
            ),
        }
    }
}

/// Why a formula could not be compiled or evaluated: the kind of the failure,
/// and what it was met at. The detail is the name of the column that is
/// missing, or why an operator could not take its operands; it is empty where
/// the kind says all.
#[derive(Clone, Debug, PartialEq, Eq)]
pub struct ExprError {
    /// The kind of the failure.
    pub kind: ErrorKind,
    /// What the failure was met at.
    pub detail: String,
}

impl ExprError {
    /// An error of the given kind without detail.
    pub fn of(kind: ErrorKind) -> (error: Self)
        ensures
            error.kind == kind,
            error.detail@ == Seq::<char>::empty(),
    {
        ExprError { kind, detail: String::new() }
    }

    /// An error of the given kind met at `detail`.
    pub fn at(kind: ErrorKind, detail: &str) -> (error: Self)
        ensures
            error.kind == kind,
            error.detail@ == detail@,
    {
        ExprError { kind, detail: String::from_str(detail) }
    }

    /// The error in words: the kind, and the detail after a colon where there
    /// is one.
    pub open spec fn text(self) -> Seq<char> {
        if self.detail@.len() == 0 {
            self.kind.text()
        } else {
            self.kind.text() + ": "@ + self.detail@
        }
    }

    /// The error in words.
    pub fn message(&self) -> (words: String)
        ensures
            words@ == self.text(),
    {
        let mut words = self.kind.message();
        if self.detail.as_str().unicode_len() > 0 {
            words.append(": ");
            words.append(self.detail.as_str());
        }
        words
    }
}

/// A result with its error taken by its kind.
pub open spec fn kind_of<T>(r: Result<T, ExprError>) -> Result<T, ErrorKind> {
    match r {
        Ok(value) => Ok(value),
        Err(e) => Err(e.kind),
    }
}

} // verus!
