//! Formulas as trees, and what compiling and evaluating owe to the tree.
//!
//! A well-formed formula is written so that its operators group the way the
//! tree groups them: a looser operator never stands unparenthesised under a
//! tighter one, and operators of one level lean to the left. For such a
//! formula the compiler hands out the tree's postfix order, and evaluating
//! that order applies each operator directly to the values of its operands.

use vstd::prelude::*;
use polars::prelude::DataFrame;
use polars::prelude::Series;
use crate::engine::literal_series;
use crate::engine::series_average_rank;
use crate::engine::series_difference;
use crate::engine::series_is_numeric;
use crate::engine::series_product;
use crate::engine::series_quotient;
use crate::engine::series_rolling_mean;
use crate::engine::series_rolling_std;
use crate::engine::series_sum;
use crate::engine::table_columns;
use crate::error::ErrorKind;
use crate::lexer::is_lexeme;
use crate::operators::combinable;
use crate::operators::window_length;
use crate::rpn::is_operator_token;
use crate::rpn::precedence_of;

pub mod compiling;
pub mod consequences;
pub mod evaluating;

verus! {

/// A formula as a tree.
pub enum Formula {
    /// A number or the name of a column.
    Operand { token: Seq<char> },
    /// `left symbol right` with one of `+ - * /`.
    Infix { symbol: Seq<char>, left: Box<Formula>, right: Box<Formula> },
    /// `( inner )`.
    Group { inner: Box<Formula> },
    /// `name ( argument )`.
    Function1 { name: Seq<char>, argument: Box<Formula> },
    /// `name ( first , second )`.
    Function2 { name: Seq<char>, first: Box<Formula>, second: Box<Formula> },
}

/// Whether `symbol` is one of `+ - * /`.
pub open spec fn is_arithmetic(symbol: Seq<char>) -> bool {
    symbol == "+"@ || symbol == "-"@ || symbol == "*"@ || symbol == "/"@
}

/// Whether `token` can stand for an operand: it is a token, and it is no
/// operator, no parenthesis and no comma.
pub open spec fn is_operand(token: Seq<char>) -> bool {
    &&& is_lexeme(token)
    &&& !is_operator_token(token)
    &&& token != "("@
    &&& token != ")"@
    &&& token != ","@
}

/// How tightly the outermost construct of a formula holds together: the
/// precedence of an infix operator, 3 for a function, 4 for an operand and for
/// a parenthesised formula.
pub open spec fn level(formula: Formula) -> int {
    match formula {
        Formula::Operand { .. } => 4,
        Formula::Infix { symbol, .. } => precedence_of(symbol),
        Formula::Group { .. } => 4,
        Formula::Function1 { .. } => 3,
        Formula::Function2 { .. } => 3,
    }
}

/// Whether a formula, written without further parentheses, is read back as
/// the same tree.
pub open spec fn well_formed(formula: Formula) -> bool
    decreases formula,
{
    match formula {
        Formula::Operand { token } => is_operand(token),
        Formula::Infix { symbol, left, right } => {
            &&& is_arithmetic(symbol)
            &&& well_formed(*left)
            &&& well_formed(*right)
            &&& level(*left) >= precedence_of(symbol)
            &&& level(*right) > precedence_of(symbol)
        },
        Formula::Group { inner } => well_formed(*inner),
        Formula::Function1 { name, argument } => name == "RANK"@ && well_formed(*argument),
        Formula::Function2 { name, first, second } => {
            &&& name == "MA"@ || name == "STD"@
            &&& well_formed(*first)
            &&& well_formed(*second)
        },
    }
}

/// The tokens of a formula as it is written.
pub open spec fn written(formula: Formula) -> Seq<Seq<char>>
    decreases formula,
{
    match formula {
        Formula::Operand { token } => seq![token],
        Formula::Infix { symbol, left, right } => written(*left) + seq![symbol] + written(*right),
        Formula::Group { inner } => seq!["("@] + written(*inner) + seq![")"@],
        Formula::Function1 { name, argument } => seq![name, "("@] + written(*argument) + seq![
            ")"@,
        ],
        Formula::Function2 { name, first, second } => seq![name, "("@] + written(*first) + seq![
            ","@,
        ] + written(*second) + seq![")"@],
    }
}

/// The postfix order of a formula: each operator after its operands, the left
/// operand before the right one.
pub open spec fn postfix(formula: Formula) -> Seq<Seq<char>>
    decreases formula,
{
    match formula {
        Formula::Operand { token } => seq![token],
        Formula::Infix { symbol, left, right } => postfix(*left) + postfix(*right) + seq![symbol],
        Formula::Group { inner } => postfix(*inner),
        Formula::Function1 { name, argument } => postfix(*argument) + seq![name],
        Formula::Function2 { name, first, second } => postfix(*first) + postfix(*second) + seq![
            name,
        ],
    }
}

/// What an infix operator makes of two columns: what the engine makes of
/// them, where both are numeric and their rows agree, and else
/// `OperatorFailed`.
pub open spec fn infix_value(symbol: Seq<char>, left: Series, right: Series) -> Result<
    Series,
    ErrorKind,
> {
    if !combinable(left, right) {
        Err(ErrorKind::OperatorFailed)
    } else if symbol == "+"@ {
        Ok(series_sum(left, right))
    } else if symbol == "-"@ {
        Ok(series_difference(left, right))
    } else if symbol == "*"@ {
        Ok(series_product(left, right))
    } else {
        Ok(series_quotient(left, right))
    }
}

/// What a function of two arguments makes of them: the rolling mean or the
/// rolling deviation of the first over as many rows as the second says, where
/// the first is numeric and the second is a window, and else `OperatorFailed`.
pub open spec fn function2_value(name: Seq<char>, values: Series, length: Series) -> Result<
    Series,
    ErrorKind,
> {
    match window_length(length) {
        Some(window) => if !series_is_numeric(values) {
            Err(ErrorKind::OperatorFailed)
        } else if name == "MA"@ {
            Ok(series_rolling_mean(values, window, window))
        } else {
            Ok(series_rolling_std(values, window, window))
        },
        None => Err(ErrorKind::OperatorFailed),
    }
}

/// What `RANK` makes of a column.
pub open spec fn rank_value(values: Series) -> Result<Series, ErrorKind> {
    if series_is_numeric(values) {
        Ok(series_average_rank(values, false))
    } else {
        Err(ErrorKind::OperatorFailed)
    }
}

/// The value of a formula by direct application: the operands are looked up,
/// and each operator is applied to the values of its own operands, the left
/// one first. The first failure on the way is the result.
pub open spec fn direct_value(table: DataFrame, formula: Formula) -> Result<Series, ErrorKind>
    decreases formula,
{
    match formula {
        Formula::Operand { token } => match literal_series(token) {
            Some(column) => Ok(column),
            None => if table_columns(table).contains_key(token) {
                Ok(table_columns(table)[token])
            } else {
                Err(ErrorKind::UnknownColumn)
            },
        },
        Formula::Infix { symbol, left, right } => match direct_value(table, *left) {
            Ok(a) => match direct_value(table, *right) {
                Ok(b) => infix_value(symbol, a, b),
                Err(e) => Err(e),
            },
            Err(e) => Err(e),
        },
        Formula::Group { inner } => direct_value(table, *inner),
        Formula::Function1 { name, argument } => match direct_value(table, *argument) {
            Ok(a) => rank_value(a),
            Err(e) => Err(e),
        },
        Formula::Function2 { name, first, second } => match direct_value(table, *first) {
            Ok(a) => match direct_value(table, *second) {
                Ok(b) => function2_value(name, a, b),
                Err(e) => Err(e),
            },
            Err(e) => Err(e),
        },
    }
}

} // verus!
