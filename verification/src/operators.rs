//! The operators of the formula language.
//!
//! An operator receives its operands in the order in which the formula names
//! them: `args[0]` is the left operand of an infix operator and the first
//! argument of a function. The evaluator pushes the left operand first, so the
//! operands are the top of its stack read from the bottom up.

use vstd::prelude::*;
use polars::prelude::DataFrame;
use polars::prelude::PolarsError;
use polars::prelude::Series;
use crate::engine::add_columns;
use crate::engine::average_rank;
use crate::engine::cast_to_integers;
use crate::engine::column_len;
use crate::engine::divide_columns;
use crate::engine::error_text;
use crate::engine::integer_at;
use crate::engine::is_numeric;
use crate::engine::multiply_columns;
use crate::engine::null_in_window;
use crate::engine::nulls_propagate;
use crate::engine::nulls_roll;
use crate::engine::rolling_mean;
use crate::engine::rolling_std;
use crate::engine::rows_agree;
use crate::engine::series_as_integers;
use crate::engine::series_average_rank;
use crate::engine::series_difference;
use crate::engine::series_integer_at;
use crate::engine::series_is_numeric;
use crate::engine::series_nulls;
use crate::engine::series_product;
use crate::engine::series_quotient;
use crate::engine::series_rolling_mean;
use crate::engine::series_rolling_std;
use crate::engine::series_sum;
use crate::engine::subtract_columns;
use crate::error::ErrorKind;
use crate::error::ExprError;
use crate::error::kind_of;

verus! {

/// An operator: a fixed number of operands and a rule that makes one column
/// of them.
pub trait Operator: Send + Sync {
    /// The number of operands that the operator consumes.
    spec fn operands(&self) -> nat;

    /// What the operator makes of its operands.
    spec fn outcome(&self, table: DataFrame, args: Seq<Series>) -> Result<Series, ErrorKind>;

    /// Applies the operator to its operands, the left one first. The column
    /// that it returns has one row, or as many rows as one of the operands.
    fn evaluate(&self, df: &DataFrame, args: &[Series]) -> (r: Result<Series, ExprError>)
        requires
            args@.len() == self.operands(),
        ensures
            kind_of(r) == self.outcome(*df, args@),
            r matches Ok(column) ==> shaped_like(args@, column),
    ;

    /// The number of operands that the operator consumes.
    fn arity(&self) -> (n: usize)
        ensures
            n == self.operands(),
    ;
}

/// The number of rows of a column.
pub open spec fn rows(column: Series) -> nat {
    series_nulls(column).len()
}

/// Whether a column has one row, or as many rows as one of the operands.
pub open spec fn shaped_like(args: Seq<Series>, result: Series) -> bool {
    rows(result) == 1 || exists|i: int|
        0 <= i < args.len() && rows(result) == rows(#[trigger] args[i])
}

/// What an engine result becomes: the column, or `OperatorFailed`.
pub open spec fn engine_outcome(made: Option<Series>) -> Result<Series, ErrorKind> {
    match made {
        Some(column) => Ok(column),
        None => Err(ErrorKind::OperatorFailed),
    }
}

/// Hands on the column that the engine made, and reports `OperatorFailed`
/// with the engine's words where it made none.
pub fn engine_result(made: Result<Series, PolarsError>) -> (r: Result<Series, ExprError>)
    ensures
        kind_of(r) == engine_outcome(made.ok()),
{
    match made {
        Ok(column) => Ok(column),
        Err(e) => Err(ExprError::at(ErrorKind::OperatorFailed, error_text(&e).as_str())),
    }
}

/// Whether two columns can be combined element by element: both are numeric,
/// and their rows agree.
pub open spec fn combinable(lhs: Series, rhs: Series) -> bool {
    &&& series_is_numeric(lhs)
    &&& series_is_numeric(rhs)
    &&& rows_agree(series_nulls(lhs), series_nulls(rhs))
}

/// What holds of every element-wise result: it is numeric, it has the rows of
/// the longer operand, and a row is null wherever it is null in an operand.
pub open spec fn elementwise(lhs: Series, rhs: Series, result: Series) -> bool {
    series_is_numeric(result) && nulls_propagate(
        series_nulls(lhs),
        series_nulls(rhs),
        series_nulls(result),
    )
}

/// What an element-wise operator makes of two columns, given what the engine
/// makes of them: that, where they can be combined, and else `OperatorFailed`.
pub open spec fn elementwise_outcome(lhs: Series, rhs: Series, made: Series) -> Result<
    Series,
    ErrorKind,
> {
    if combinable(lhs, rhs) {
        Ok(made)
    } else {
        Err(ErrorKind::OperatorFailed)
    }
}

/// Whether two numbers of rows agree: they are equal, or one of them is 1.
pub fn lengths_agree(lhs: usize, rhs: usize) -> (agree: bool)
    ensures
        agree == (lhs == rhs || lhs == 1 || rhs == 1),
{
    lhs == rhs || lhs == 1 || rhs == 1
}

/// Whether two columns can be combined element by element.
fn can_combine(lhs: &Series, rhs: &Series) -> (b: bool)
    ensures
        b == combinable(*lhs, *rhs),
{
    is_numeric(lhs) && is_numeric(rhs) && lengths_agree(column_len(lhs), column_len(rhs))
}

/// What holds of every rolling result: it has the rows of the operand, and a
/// row is null exactly where fewer than `window` rows end with it or one of
/// them is null.
pub open spec fn rolled(values: Series, window: int, result: Series) -> bool {
    nulls_roll(series_nulls(values), window, series_nulls(result))
}

/// A rolling result over a column without nulls begins with exactly
/// `window - 1` nulls, or is null throughout where the column is shorter.
pub proof fn theorem_leading_nulls(values: Seq<bool>, window: int, result: Seq<bool>)
    requires
        window >= 1,
        nulls_roll(values, window, result),
        forall|k: int| 0 <= k < values.len() ==> !values[k],
    ensures
        result.len() == values.len(),
        forall|row: int| 0 <= row < result.len() ==> (result[row] <==> row < window - 1),
{
    assert forall|row: int| 0 <= row < result.len() implies (result[row] <==> row < window - 1) by {
        assert(!null_in_window(values, window, row));
    }
}

/// The window length that an integer stands for: itself, where there is one
/// that is at least 1 and fits the machine's word.
pub open spec fn usable_window(first: Option<i64>) -> Option<usize> {
    match first {
        Some(rows) => if 1 <= rows <= usize::MAX {
            Some(rows as usize)
        } else {
            None
        },
        None => None,
    }
}

/// The window length that a column stands for: the first value of a numeric
/// column, cast to a 64-bit integer, where the column has a row and that value
/// is a usable window.
pub open spec fn window_length(length: Series) -> Option<usize> {
    if series_is_numeric(length) && rows(series_as_integers(length)) > 0 {
        usable_window(series_integer_at(series_as_integers(length), 0))
    } else {
        None
    }
}

/// The window length that an integer stands for.
pub fn window_from(first: Option<i64>) -> (window: Option<usize>)
    ensures
        window == usable_window(first),
{
    match first {
        Some(rows) => {
            if rows < 1 {
                None
            } else {
                let wide: u64 = rows as u64;
                if wide > usize::MAX as u64 {
                    None
                } else {
                    Some(wide as usize)
                }
            }
        },
        None => None,
    }
}

/// Reads the window length off a column.
fn window_of(length: &Series) -> (window: Option<usize>)
    ensures
        window == window_length(*length),
{
    if !is_numeric(length) {
        return None;
    }
    match cast_to_integers(length) {
        Ok(integers) => {
            if column_len(&integers) > 0 {
                window_from(integer_at(&integers, 0))
            } else {
                None
            }
        },
        Err(_) => None,
    }
}

/// `a + b`, element by element, of numeric columns.
#[derive(Clone, Copy, Debug)]
pub struct AddOperator;

impl Operator for AddOperator {
    open spec fn operands(&self) -> nat {
        2
    }

    open spec fn outcome(&self, table: DataFrame, args: Seq<Series>) -> Result<Series, ErrorKind> {
        elementwise_outcome(args[0], args[1], series_sum(args[0], args[1]))
    }

    fn evaluate(&self, _df: &DataFrame, args: &[Series]) -> (r: Result<Series, ExprError>)
        ensures
            r is Ok <==> combinable(args@[0], args@[1]),
            r matches Ok(column) ==> elementwise(args@[0], args@[1], column),
    {
        if can_combine(&args[0], &args[1]) {
            engine_result(add_columns(&args[0], &args[1]))
        } else {
            Err(
                ExprError::at(
                    ErrorKind::OperatorFailed,
                    "the operands are not numeric columns whose rows agree",
                ),
            )
        }
    }

    fn arity(&self) -> (n: usize) {
        2
    }
}

/// `a - b`, element by element, of numeric columns.
#[derive(Clone, Copy, Debug)]
pub struct SubOperator;

impl Operator for SubOperator {
    open spec fn operands(&self) -> nat {
        2
    }

    open spec fn outcome(&self, table: DataFrame, args: Seq<Series>) -> Result<Series, ErrorKind> {
        elementwise_outcome(args[0], args[1], series_difference(args[0], args[1]))
    }

    fn evaluate(&self, _df: &DataFrame, args: &[Series]) -> (r: Result<Series, ExprError>)
        ensures
            r is Ok <==> combinable(args@[0], args@[1]),
            r matches Ok(column) ==> elementwise(args@[0], args@[1], column),
    {
        if can_combine(&args[0], &args[1]) {
            engine_result(subtract_columns(&args[0], &args[1]))
        } else {
            Err(
                ExprError::at(
                    ErrorKind::OperatorFailed,
                    "the operands are not numeric columns whose rows agree",
                ),
            )
        }
    }

    fn arity(&self) -> (n: usize) {
        2
    }
}

/// `a * b`, element by element, of numeric columns.
#[derive(Clone, Copy, Debug)]
pub struct MulOperator;

impl Operator for MulOperator {
    open spec fn operands(&self) -> nat {
        2
    }

    open spec fn outcome(&self, table: DataFrame, args: Seq<Series>) -> Result<Series, ErrorKind> {
        elementwise_outcome(args[0], args[1], series_product(args[0], args[1]))
    }

    fn evaluate(&self, _df: &DataFrame, args: &[Series]) -> (r: Result<Series, ExprError>)
        ensures
            r is Ok <==> combinable(args@[0], args@[1]),
            r matches Ok(column) ==> elementwise(args@[0], args@[1], column),
    {
        if can_combine(&args[0], &args[1]) {
            engine_result(multiply_columns(&args[0], &args[1]))
        } else {
            Err(
                ExprError::at(
                    ErrorKind::OperatorFailed,
                    "the operands are not numeric columns whose rows agree",
                ),
            )
        }
    }

    fn arity(&self) -> (n: usize) {
        2
    }
}

/// `a / b`, element by element, of numeric columns.
#[derive(Clone, Copy, Debug)]
pub struct DivOperator;

impl Operator for DivOperator {
    open spec fn operands(&self) -> nat {
        2
    }

    open spec fn outcome(&self, table: DataFrame, args: Seq<Series>) -> Result<Series, ErrorKind> {
        elementwise_outcome(args[0], args[1], series_quotient(args[0], args[1]))
    }

    fn evaluate(&self, _df: &DataFrame, args: &[Series]) -> (r: Result<Series, ExprError>)
        ensures
            r is Ok <==> combinable(args@[0], args@[1]),
            r matches Ok(column) ==> elementwise(args@[0], args@[1], column),
    {
        if can_combine(&args[0], &args[1]) {
            engine_result(divide_columns(&args[0], &args[1]))
        } else {
            Err(
                ExprError::at(
                    ErrorKind::OperatorFailed,
                    "the operands are not numeric columns whose rows agree",
                ),
            )
        }
    }

    fn arity(&self) -> (n: usize) {
        2
    }
}

/// `MA(values, n)`: the mean of each row of a numeric column and the `n - 1`
/// rows before it. The rows that have fewer than `n - 1` rows before them hold
/// null, and so do the rows whose window holds a null.
#[derive(Clone, Copy, Debug)]
pub struct MAOperator;

impl Operator for MAOperator {
    open spec fn operands(&self) -> nat {
        2
    }

    open spec fn outcome(&self, table: DataFrame, args: Seq<Series>) -> Result<Series, ErrorKind> {
        match window_length(args[1]) {
            Some(window) => if series_is_numeric(args[0]) {
                Ok(series_rolling_mean(args[0], window, window))
            } else {
                Err(ErrorKind::OperatorFailed)
            },
            None => Err(ErrorKind::OperatorFailed),
        }
    }

    fn evaluate(&self, _df: &DataFrame, args: &[Series]) -> (r: Result<Series, ExprError>)
        ensures
            r is Ok <==> series_is_numeric(args@[0]) && window_length(args@[1]) is Some,
            r matches Ok(column) ==> series_is_numeric(column) && rolled(
                args@[0],
                window_length(args@[1])->Some_0 as int,
                column,
            ),
    {
        if !is_numeric(&args[0]) {
            return Err(
                ExprError::at(ErrorKind::OperatorFailed, "the first operand is not numeric"),
            );
        }
        match window_of(&args[1]) {
            Some(window) => engine_result(rolling_mean(&args[0], window, window)),
            None => Err(
                ExprError::at(ErrorKind::OperatorFailed, "the second operand is no window length"),
            ),
        }
    }

    fn arity(&self) -> (n: usize) {
        2
    }
}

/// `STD(values, n)`: the sample standard deviation of each row of a numeric
/// column and the `n - 1` rows before it, with null where `MA` has null. One
/// row has no sample deviation: `STD(values, 1)` is null in every row.
#[derive(Clone, Copy, Debug)]
pub struct StdOperator;

impl Operator for StdOperator {
    open spec fn operands(&self) -> nat {
        2
    }

    open spec fn outcome(&self, table: DataFrame, args: Seq<Series>) -> Result<Series, ErrorKind> {
        match window_length(args[1]) {
            Some(window) => if series_is_numeric(args[0]) {
                Ok(series_rolling_std(args[0], window, window))
            } else {
                Err(ErrorKind::OperatorFailed)
            },
            None => Err(ErrorKind::OperatorFailed),
        }
    }

    fn evaluate(&self, _df: &DataFrame, args: &[Series]) -> (r: Result<Series, ExprError>)
        ensures
            r is Ok <==> series_is_numeric(args@[0]) && window_length(args@[1]) is Some,
            r matches Ok(column) ==> series_is_numeric(column) && (window_length(
                args@[1],
            )->Some_0 >= 2 ==> rolled(args@[0], window_length(args@[1])->Some_0 as int, column)),
    {
        if !is_numeric(&args[0]) {
            return Err(
                ExprError::at(ErrorKind::OperatorFailed, "the first operand is not numeric"),
            );
        }
        match window_of(&args[1]) {
            Some(window) => engine_result(rolling_std(&args[0], window, window)),
            None => Err(
                ExprError::at(ErrorKind::OperatorFailed, "the second operand is no window length"),
            ),
        }
    }

    fn arity(&self) -> (n: usize) {
        2
    }
}

/// `RANK(values)`: the rank of each value within its column, the smallest
/// first, equal values sharing the mean of their ranks.
#[derive(Clone, Copy, Debug)]
pub struct RankOperator;

impl Operator for RankOperator {
    open spec fn operands(&self) -> nat {
        1
    }

    open spec fn outcome(&self, table: DataFrame, args: Seq<Series>) -> Result<Series, ErrorKind> {
        if series_is_numeric(args[0]) {
            Ok(series_average_rank(args[0], false))
        } else {
            Err(ErrorKind::OperatorFailed)
        }
    }

    fn evaluate(&self, _df: &DataFrame, args: &[Series]) -> (r: Result<Series, ExprError>)
        ensures
            r is Ok <==> series_is_numeric(args@[0]),
            r matches Ok(column) ==> series_is_numeric(column) && series_nulls(column)
                == series_nulls(args@[0]),
    {
        if is_numeric(&args[0]) {
            Ok(average_rank(&args[0], false))
        } else {
            Err(ExprError::at(ErrorKind::OperatorFailed, "the operand is not numeric"))
        }
    }

    fn arity(&self) -> (n: usize) {
        1
    }
}

/// One of the built-in operators.
#[derive(Clone, Copy, Debug, PartialEq, Eq, Structural)]
pub enum BuiltinOperator {
    /// `+`
    Add,
    /// `-`
    Sub,
    /// `*`
    Mul,
    /// `/`
    Div,
    /// `MA`
    MA,
    /// `STD`
    Std,
    /// `RANK`
    Rank,
}

impl Operator for BuiltinOperator {
    open spec fn operands(&self) -> nat {
        match self {
            BuiltinOperator::Add => AddOperator.operands(),
            BuiltinOperator::Sub => SubOperator.operands(),
            BuiltinOperator::Mul => MulOperator.operands(),
            BuiltinOperator::Div => DivOperator.operands(),
            BuiltinOperator::MA => MAOperator.operands(),
            BuiltinOperator::Std => StdOperator.operands(),
            BuiltinOperator::Rank => RankOperator.operands(),
        }
    }

    open spec fn outcome(&self, table: DataFrame, args: Seq<Series>) -> Result<Series, ErrorKind> {
        match self {
            BuiltinOperator::Add => AddOperator.outcome(table, args),
            BuiltinOperator::Sub => SubOperator.outcome(table, args),
            BuiltinOperator::Mul => MulOperator.outcome(table, args),
            BuiltinOperator::Div => DivOperator.outcome(table, args),
            BuiltinOperator::MA => MAOperator.outcome(table, args),
            BuiltinOperator::Std => StdOperator.outcome(table, args),
            BuiltinOperator::Rank => RankOperator.outcome(table, args),
        }
    }

    fn evaluate(&self, df: &DataFrame, args: &[Series]) -> (r: Result<Series, ExprError>) {
        match self {
            BuiltinOperator::Add => AddOperator.evaluate(df, args),
            BuiltinOperator::Sub => SubOperator.evaluate(df, args),
            BuiltinOperator::Mul => MulOperator.evaluate(df, args),
            BuiltinOperator::Div => DivOperator.evaluate(df, args),
            BuiltinOperator::MA => MAOperator.evaluate(df, args),
            BuiltinOperator::Std => StdOperator.evaluate(df, args),
            BuiltinOperator::Rank => RankOperator.evaluate(df, args),
        }
    }

    fn arity(&self) -> (n: usize) {
        match self {
            BuiltinOperator::Add => AddOperator.arity(),
            BuiltinOperator::Sub => SubOperator.arity(),
            BuiltinOperator::Mul => MulOperator.arity(),
            BuiltinOperator::Div => DivOperator.arity(),
            BuiltinOperator::MA => MAOperator.arity(),
            BuiltinOperator::Std => StdOperator.arity(),
            BuiltinOperator::Rank => RankOperator.arity(),
        }
    }
}

/// A map of operators with the built-in ones put under their symbols, in
/// place of what stood there.
pub open spec fn with_builtins(base: Map<Seq<char>, BuiltinOperator>) -> Map<
    Seq<char>,
    BuiltinOperator,
> {
    base.insert("+"@, BuiltinOperator::Add).insert("-"@, BuiltinOperator::Sub).insert(
        "*"@,
        BuiltinOperator::Mul,
    ).insert("/"@, BuiltinOperator::Div).insert("MA"@, BuiltinOperator::MA).insert(
        "STD"@,
        BuiltinOperator::Std,
    ).insert("RANK"@, BuiltinOperator::Rank)
}

/// The built-in operators under their symbols.
pub open spec fn builtin_operators() -> Map<Seq<char>, BuiltinOperator> {
    with_builtins(Map::empty())
}

/// A built-in operator fails with `OperatorFailed` only.
pub proof fn lemma_builtin_failures(operator: BuiltinOperator, table: DataFrame, args: Seq<Series>)
    ensures
        operator.outcome(table, args) matches Err(e) ==> e == ErrorKind::OperatorFailed,
{
}

} // verus!
