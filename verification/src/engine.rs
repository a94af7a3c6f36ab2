//! The columnar data engine, polars, as the evaluator sees it.
//!
//! Nothing in this file is proved. Each function below makes one call into
//! polars, and its contract states what that call is taken to do. A result
//! that would take pages to describe is given a name instead: a function of the
//! call's arguments whose value only polars computes. A column is a value to
//! these names as a number is: what a call returns depends on the columns that
//! it is given, by their names, data types and values, and on nothing else.
//!
//! Of the values in a column the contracts say nothing; they say which rows
//! are null, and which columns are numeric.
//!
//! polars turns an error whose message it builds into a panic while the
//! environment variable `POLARS_PANIC_ON_ERR` is set to `1`. Each function
//! below therefore asks for arguments on which polars builds no error, and
//! the verified callers test for them before the call.

use vstd::prelude::*;
use polars::prelude::AnyValue;
use polars::prelude::Column;
use polars::prelude::DataFrame;
use polars::prelude::DataType;
use polars::prelude::Float64Chunked;
use polars::prelude::IntoSeries;
use polars::prelude::NewChunkedArray;
use polars::prelude::PlSmallStr;
use polars::prelude::PolarsError;
use polars::prelude::RankMethod;
use polars::prelude::RankOptions;
use polars::prelude::RollingOptionsFixedWindow;
use polars::prelude::Series;
use polars::prelude::SeriesOpsTime;
use polars::prelude::SeriesRank;

verus! {

/// A column of polars: a name, a data type and a sequence of nullable values.
#[verifier::external_type_specification]
#[verifier::external_body]
pub struct ExSeries(Series);

/// A table of polars: named columns of one height.
#[verifier::external_type_specification]
#[verifier::external_body]
pub struct ExDataFrame(DataFrame);

/// A column as a polars table holds it. It is declared because the table's
/// indexing operators hand it out; nothing here calls them.
#[verifier::external_type_specification]
#[verifier::external_body]
pub struct ExColumn(Column);

/// The error of polars.
#[verifier::external_type_specification]
#[verifier::external_body]
pub struct ExPolarsError(PolarsError);

/// Which rows of a column hold null, row by row.
pub uninterp spec fn series_nulls(values: Series) -> Seq<bool>;

/// Whether `row` is null in a column that stands for itself, or for as many
/// rows as are needed where it has one row only.
pub open spec fn null_at(nulls: Seq<bool>, row: int) -> bool {
    if nulls.len() == 1 {
        nulls[0]
    } else {
        nulls[row]
    }
}

/// Whether two columns can be combined row by row: they have as many rows as
/// each other, or one of them has one row, which then stands for all.
pub open spec fn rows_agree(lhs: Seq<bool>, rhs: Seq<bool>) -> bool {
    lhs.len() == rhs.len() || lhs.len() == 1 || rhs.len() == 1
}

/// The nulls of an element-wise result: it has the rows of the longer
/// operand, and a row is null wherever it is null in an operand.
pub open spec fn nulls_propagate(lhs: Seq<bool>, rhs: Seq<bool>, result: Seq<bool>) -> bool {
    &&& result.len() == if lhs.len() == 1 {
        rhs.len()
    } else {
        lhs.len()
    }
    &&& forall|row: int|
        0 <= row < result.len() && (null_at(lhs, row) || null_at(rhs, row)) ==> #[trigger] result[row]
}

/// Whether one of the `window` rows that end with `row` is null.
pub open spec fn null_in_window(values: Seq<bool>, window: int, row: int) -> bool {
    exists|k: int| row - window < k <= row && 0 <= k < values.len() && #[trigger] values[k]
}

/// The nulls of a rolling result over full windows only: it has the rows of
/// the operand, and a row is null exactly where fewer than `window` rows end
/// with it or one of them is null.
pub open spec fn nulls_roll(values: Seq<bool>, window: int, result: Seq<bool>) -> bool {
    &&& result.len() == values.len()
    &&& forall|row: int|
        0 <= row < result.len() ==> (#[trigger] result[row] <==> row + 1 < window
            || null_in_window(values, window, row))
}

/// The columns of a table, by name.
pub uninterp spec fn table_columns(table: DataFrame) -> Map<Seq<char>, Series>;

/// The number of rows of a table.
pub uninterp spec fn table_height(table: DataFrame) -> nat;

/// The one-row column that stands for a numeric literal, where `token` is one.
pub uninterp spec fn literal_series(token: Seq<char>) -> Option<Series>;

/// The element-wise sum of two numeric columns whose rows agree.
pub uninterp spec fn series_sum(lhs: Series, rhs: Series) -> Series;

/// The element-wise difference of two numeric columns whose rows agree.
pub uninterp spec fn series_difference(lhs: Series, rhs: Series) -> Series;

/// The element-wise product of two numeric columns whose rows agree.
pub uninterp spec fn series_product(lhs: Series, rhs: Series) -> Series;

/// The element-wise quotient of two numeric columns whose rows agree.
pub uninterp spec fn series_quotient(lhs: Series, rhs: Series) -> Series;

/// The rolling mean of a numeric column.
pub uninterp spec fn series_rolling_mean(values: Series, window: usize, min_periods: usize)
    -> Series;

/// The rolling sample standard deviation of a numeric column.
pub uninterp spec fn series_rolling_std(values: Series, window: usize, min_periods: usize)
    -> Series;

/// Whether the values of a column are integers or floating-point numbers.
pub uninterp spec fn series_is_numeric(values: Series) -> bool;

/// The ranks of the values of a column, ties sharing the mean of their ranks.
pub uninterp spec fn series_average_rank(values: Series, descending: bool) -> Series;

/// A numeric column cast to 64-bit integers.
pub uninterp spec fn series_as_integers(values: Series) -> Series;

/// The value of a column in one row, where the column has that row and holds
/// a 64-bit integer there.
pub uninterp spec fn series_integer_at(values: Series, row: usize) -> Option<i64>;

/// `DataFrame::get_column_index`, `DataFrame::select_at_idx` at the index
/// found, and a clone of the column's series.
///
/// Claims that the result is the column that the table holds under `name`, and
/// `None` exactly where the table holds none of that name; and that the
/// column has as many rows as the table.
#[verifier::external_body]
pub(crate) fn lookup_column(table: &DataFrame, name: &str) -> (found: Option<Series>)
    ensures
        found == (if table_columns(*table).contains_key(name@) {
            Some(table_columns(*table)[name@])
        } else {
            None
        }),
        found matches Some(s) ==> series_nulls(s).len() == table_height(*table),
{
    match table.get_column_index(name) {
        Some(index) => match table.select_at_idx(index) {
            Some(column) => Some(column.as_materialized_series().clone()),
            None => None,
        },
        None => None,
    }
}

/// `str::parse` to a 64-bit floating-point number, and `ChunkedArray::from_slice`
/// on the one value parsed.
///
/// Claims that the result depends on the characters of `token` alone, and
/// that it is a numeric column of one row that is not null.
#[verifier::external_body]
pub(crate) fn literal_column(token: &str) -> (made: Option<Series>)
    ensures
        made == literal_series(token@),
        made matches Some(s) ==> series_is_numeric(s) && series_nulls(s) == seq![false],
{
    match token.parse() {
        Ok(value) => Some(Float64Chunked::from_slice(PlSmallStr::EMPTY, &[value]).into_series()),
        Err(_) => None,
    }
}

/// `Series::len`.
///
/// Claims that the result is the number of rows of the column.
#[verifier::external_body]
pub(crate) fn column_len(values: &Series) -> (rows: usize)
    ensures
        rows == series_nulls(*values).len(),
{
    values.len()
}

/// `&Series + &Series`.
///
/// Claims that there is a result, that it depends on the two columns alone,
/// and that it is numeric, and null in each row in which an operand is null.
/// Asks for numeric columns whose rows agree: on a column of lists polars
/// panics, on rows that do not agree it builds an error, and of other columns
/// nothing here is claimed.
#[verifier::external_body]
pub(crate) fn add_columns(lhs: &Series, rhs: &Series) -> (r: Result<Series, PolarsError>)
    requires
        series_is_numeric(*lhs),
        series_is_numeric(*rhs),
        rows_agree(series_nulls(*lhs), series_nulls(*rhs)),
    ensures
        r.is_ok(),
        r matches Ok(s) ==> s == series_sum(*lhs, *rhs),
        r matches Ok(s) ==> series_is_numeric(s) && nulls_propagate(
            series_nulls(*lhs),
            series_nulls(*rhs),
            series_nulls(s),
        ),
{
    lhs + rhs
}

/// `&Series - &Series`.
///
/// Claims that there is a result, that it depends on the two columns alone,
/// and that it is numeric, and null in each row in which an operand is null.
/// Asks for numeric columns whose rows agree: on a column of lists polars
/// panics, on rows that do not agree it builds an error, and of other columns
/// nothing here is claimed.
#[verifier::external_body]
pub(crate) fn subtract_columns(lhs: &Series, rhs: &Series) -> (r: Result<Series, PolarsError>)
    requires
        series_is_numeric(*lhs),
        series_is_numeric(*rhs),
        rows_agree(series_nulls(*lhs), series_nulls(*rhs)),
    ensures
        r.is_ok(),
        r matches Ok(s) ==> s == series_difference(*lhs, *rhs),
        r matches Ok(s) ==> series_is_numeric(s) && nulls_propagate(
            series_nulls(*lhs),
            series_nulls(*rhs),
            series_nulls(s),
        ),
{
    lhs - rhs
}

/// `&Series * &Series`.
///
/// Claims that there is a result, that it depends on the two columns alone,
/// and that it is numeric, and null in each row in which an operand is null.
/// Asks for numeric columns whose rows agree: on a column of lists polars
/// panics, on rows that do not agree it builds an error, and of other columns
/// nothing here is claimed.
#[verifier::external_body]
pub(crate) fn multiply_columns(lhs: &Series, rhs: &Series) -> (r: Result<Series, PolarsError>)
    requires
        series_is_numeric(*lhs),
        series_is_numeric(*rhs),
        rows_agree(series_nulls(*lhs), series_nulls(*rhs)),
    ensures
        r.is_ok(),
        r matches Ok(s) ==> s == series_product(*lhs, *rhs),
        r matches Ok(s) ==> series_is_numeric(s) && nulls_propagate(
            series_nulls(*lhs),
            series_nulls(*rhs),
            series_nulls(s),
        ),
{
    lhs * rhs
}

/// `&Series / &Series`.
///
/// Claims that there is a result, that it depends on the two columns alone,
/// and that it is numeric, and null in each row in which an operand is null.
/// Asks for numeric columns whose rows agree: on a column of lists polars
/// panics, on rows that do not agree it builds an error, and of other columns
/// nothing here is claimed.
#[verifier::external_body]
pub(crate) fn divide_columns(lhs: &Series, rhs: &Series) -> (r: Result<Series, PolarsError>)
    requires
        series_is_numeric(*lhs),
        series_is_numeric(*rhs),
        rows_agree(series_nulls(*lhs), series_nulls(*rhs)),
    ensures
        r.is_ok(),
        r matches Ok(s) ==> s == series_quotient(*lhs, *rhs),
        r matches Ok(s) ==> series_is_numeric(s) && nulls_propagate(
            series_nulls(*lhs),
            series_nulls(*rhs),
            series_nulls(s),
        ),
{
    lhs / rhs
}

/// `SeriesOpsTime::rolling_mean` over a fixed window, without weights and without
/// centring.
///
/// Claims that there is a result, that it depends on the column and the two
/// numbers alone, that it is numeric and has the rows of the column, and, with
/// `min_periods` equal to `window`, that it
/// is null exactly in the rows whose window is not full or holds a null.
/// Asks for a numeric column, a window of one row or more and `min_periods` of
/// at most the window: of other arguments nothing here is claimed.
#[verifier::external_body]
pub(crate) fn rolling_mean(values: &Series, window: usize, min_periods: usize) -> (r: Result<
    Series,
    PolarsError,
>)
    requires
        series_is_numeric(*values),
        window >= 1,
        min_periods <= window,
    ensures
        r.is_ok(),
        r matches Ok(s) ==> s == series_rolling_mean(*values, window, min_periods),
        r matches Ok(s) ==> series_is_numeric(s) && series_nulls(s).len() == series_nulls(
            *values,
        ).len(),
        r matches Ok(s) ==> (min_periods == window ==> nulls_roll(
            series_nulls(*values),
            window as int,
            series_nulls(s),
        )),
{
    values.rolling_mean(
        RollingOptionsFixedWindow {
            window_size: window,
            min_periods,
            weights: None,
            center: false,
            fn_params: None,
        },
    )
}

/// `SeriesOpsTime::rolling_std` over a fixed window, without weights and without
/// centring.
///
/// Claims that there is a result, that it depends on the column and the two
/// numbers alone, that it is numeric and has the rows of the column, and, with
/// `min_periods` equal to `window` and a window of two rows or more, that it
/// is null exactly in the rows whose window is not full or holds a null. (Over one row polars has no sample deviation,
/// and gives null.)
/// Asks for a numeric column, a window of one row or more and `min_periods` of
/// at most the window: of other arguments nothing here is claimed.
#[verifier::external_body]
pub(crate) fn rolling_std(values: &Series, window: usize, min_periods: usize) -> (r: Result<
    Series,
    PolarsError,
>)
    requires
        series_is_numeric(*values),
        window >= 1,
        min_periods <= window,
    ensures
        r.is_ok(),
        r matches Ok(s) ==> s == series_rolling_std(*values, window, min_periods),
        r matches Ok(s) ==> series_is_numeric(s) && series_nulls(s).len() == series_nulls(
            *values,
        ).len(),
        r matches Ok(s) ==> (min_periods == window && window >= 2 ==> nulls_roll(
            series_nulls(*values),
            window as int,
            series_nulls(s),
        )),
{
    values.rolling_std(
        RollingOptionsFixedWindow {
            window_size: window,
            min_periods,
            weights: None,
            center: false,
            fn_params: None,
        },
    )
}

/// `DataType::is_primitive_numeric` on the column's data type.
///
/// Claims only that the answer depends on the column alone.
#[verifier::external_body]
pub(crate) fn is_numeric(values: &Series) -> (b: bool)
    ensures
        b == series_is_numeric(*values),
{
    values.dtype().is_primitive_numeric()
}

/// `SeriesRank::rank` with the method `Average` and no seed.
///
/// Claims that the result depends on the column and the direction alone, that
/// it is numeric, and that it is null in the rows in which the column is.
/// Asks for a numeric column: polars sorts and compares the values, and
/// panics on a data type that it cannot sort.
#[verifier::external_body]
pub(crate) fn average_rank(values: &Series, descending: bool) -> (ranks: Series)
    requires
        series_is_numeric(*values),
    ensures
        ranks == series_average_rank(*values, descending),
        series_is_numeric(ranks),
        series_nulls(ranks) == series_nulls(*values),
{
    values.rank(RankOptions { method: RankMethod::Average, descending }, None)
}

/// `Series::cast` to `DataType::Int64`.
///
/// Claims that there is a result, and that it depends on the column alone.
/// Asks for a numeric column: of a column of lists, for one, polars builds an
/// error.
#[verifier::external_body]
pub(crate) fn cast_to_integers(values: &Series) -> (r: Result<Series, PolarsError>)
    requires
        series_is_numeric(*values),
    ensures
        r.is_ok(),
        r matches Ok(s) ==> s == series_as_integers(*values),
{
    values.cast(&DataType::Int64)
}

/// `Series::get`.
///
/// Claims only that the result depends on the column and the row alone. It is
/// `None` where the value there is null or no 64-bit integer. Asks for a row
/// that the column has: of any other polars builds an error.
#[verifier::external_body]
pub(crate) fn integer_at(values: &Series, row: usize) -> (found: Option<i64>)
    requires
        row < series_nulls(*values).len(),
    ensures
        found == series_integer_at(*values, row),
{
    match values.get(row) {
        Ok(AnyValue::Int64(value)) => Some(value),
        _ => None,
    }
}

/// `ToString::to_string` on an error of polars: the error in the engine's
/// words. Nothing is claimed of them.
#[verifier::external_body]
pub(crate) fn error_text(error: &PolarsError) -> String {
    error.to_string()
}

} // verus!
