//! What follows for well-formed formulas: which errors they can meet, what a
//! missing column does, and when parentheses make no difference.

use vstd::prelude::*;
use polars::prelude::DataFrame;
use polars::prelude::Series;
use crate::engine::literal_series;
use crate::engine::table_columns;
use crate::error::ErrorKind;
use crate::formula::direct_value;
use crate::formula::evaluating::theorem_evaluation_is_direct_application;
use crate::formula::evaluating::theorem_written_formula_evaluates_directly;
use crate::formula::Formula;
use crate::formula::well_formed;
use crate::formula::written;
use crate::formula_value;
use crate::lexer::spaced;
use crate::lexer::tokens_of;

verus! {

/// A formula's direct value fails with `UnknownColumn` or `OperatorFailed`
/// only.
pub proof fn lemma_direct_failures(table: DataFrame, formula: Formula)
    ensures
        direct_value(table, formula) matches Err(e) ==> e == ErrorKind::UnknownColumn || e
            == ErrorKind::OperatorFailed,
    decreases formula,
{
    match formula {
        Formula::Operand { .. } => {},
        Formula::Infix { left, right, .. } => {
            lemma_direct_failures(table, *left);
            lemma_direct_failures(table, *right);
        },
        Formula::Group { inner } => {
            lemma_direct_failures(table, *inner);
        },
        Formula::Function1 { argument, .. } => {
            lemma_direct_failures(table, *argument);
        },
        Formula::Function2 { first, second, .. } => {
            lemma_direct_failures(table, *first);
            lemma_direct_failures(table, *second);
        },
    }
}

/// A well-formed formula is compiled to a sequence that the evaluator can
/// run: it leaves one column, unless a column is missing or an operator
/// fails. No other error comes of it.
pub proof fn theorem_well_formed_runs(table: DataFrame, text: Seq<char>, formula: Formula)
    requires
        well_formed(formula),
        tokens_of(text) == written(formula),
    ensures
        formula_value(table, text) matches Err(e) ==> e == ErrorKind::UnknownColumn || e
            == ErrorKind::OperatorFailed,
{
    theorem_evaluation_is_direct_application(table, text, formula);
    lemma_direct_failures(table, formula);
}

/// Whether a token is a number or names a column of the table.
pub open spec fn is_known(table: DataFrame, token: Seq<char>) -> bool {
    literal_series(token) is Some || table_columns(table).contains_key(token)
}

/// Whether `token` is one of the operands of a formula.
pub open spec fn has_operand(formula: Formula, token: Seq<char>) -> bool
    decreases formula,
{
    match formula {
        Formula::Operand { token: own } => own == token,
        Formula::Infix { left, right, .. } => has_operand(*left, token) || has_operand(
            *right,
            token,
        ),
        Formula::Group { inner } => has_operand(*inner, token),
        Formula::Function1 { argument, .. } => has_operand(*argument, token),
        Formula::Function2 { first, second, .. } => has_operand(*first, token) || has_operand(
            *second,
            token,
        ),
    }
}

/// The operand that a formula begins with.
pub open spec fn first_operand(formula: Formula) -> Seq<char>
    decreases formula,
{
    match formula {
        Formula::Operand { token } => token,
        Formula::Infix { left, .. } => first_operand(*left),
        Formula::Group { inner } => first_operand(*inner),
        Formula::Function1 { argument, .. } => first_operand(*argument),
        Formula::Function2 { first, .. } => first_operand(*first),
    }
}

/// A formula with an operand that is no number and names no column has no
/// value.
pub proof fn lemma_unknown_operand(table: DataFrame, formula: Formula, token: Seq<char>)
    requires
        has_operand(formula, token),
        !is_known(table, token),
    ensures
        direct_value(table, formula) is Err,
    decreases formula,
{
    match formula {
        Formula::Operand { .. } => {},
        Formula::Infix { left, right, .. } => {
            if has_operand(*left, token) {
                lemma_unknown_operand(table, *left, token);
            } else {
                lemma_unknown_operand(table, *right, token);
            }
        },
        Formula::Group { inner } => {
            lemma_unknown_operand(table, *inner, token);
        },
        Formula::Function1 { argument, .. } => {
            lemma_unknown_operand(table, *argument, token);
        },
        Formula::Function2 { first, second, .. } => {
            if has_operand(*first, token) {
                lemma_unknown_operand(table, *first, token);
            } else {
                lemma_unknown_operand(table, *second, token);
            }
        },
    }
}

/// A formula that begins with an operand that is no number and names no
/// column fails with `UnknownColumn`.
pub proof fn lemma_unknown_first_operand(table: DataFrame, formula: Formula)
    requires
        !is_known(table, first_operand(formula)),
    ensures
        direct_value(table, formula) == Err::<Series, ErrorKind>(ErrorKind::UnknownColumn),
    decreases formula,
{
    match formula {
        Formula::Operand { .. } => {},
        Formula::Infix { left, .. } => {
            lemma_unknown_first_operand(table, *left);
        },
        Formula::Group { inner } => {
            lemma_unknown_first_operand(table, *inner);
        },
        Formula::Function1 { argument, .. } => {
            lemma_unknown_first_operand(table, *argument);
        },
        Formula::Function2 { first, .. } => {
            lemma_unknown_first_operand(table, *first);
        },
    }
}

/// A missing column is an error: a well-formed formula with an operand that
/// is no number and names no column of the table evaluates to no column, and
/// to `UnknownColumn` where that operand is the one it begins with.
pub proof fn theorem_missing_column_fails(
    table: DataFrame,
    text: Seq<char>,
    formula: Formula,
    token: Seq<char>,
)
    requires
        well_formed(formula),
        tokens_of(text) == written(formula),
        has_operand(formula, token),
        !is_known(table, token),
    ensures
        formula_value(table, text) is Err,
        token == first_operand(formula) ==> formula_value(table, text) == Err::<
            Series,
            ErrorKind,
        >(ErrorKind::UnknownColumn),
{
    theorem_evaluation_is_direct_application(table, text, formula);
    lemma_unknown_operand(table, formula, token);
    if token == first_operand(formula) {
        lemma_unknown_first_operand(table, formula);
    }
}

/// A formula without its parentheses: the same tree, no `Group` in it.
pub open spec fn bare(formula: Formula) -> Formula
    decreases formula,
{
    match formula {
        Formula::Operand { token } => formula,
        Formula::Infix { symbol, left, right } => Formula::Infix {
            symbol,
            left: Box::new(bare(*left)),
            right: Box::new(bare(*right)),
        },
        Formula::Group { inner } => bare(*inner),
        Formula::Function1 { name, argument } => Formula::Function1 {
            name,
            argument: Box::new(bare(*argument)),
        },
        Formula::Function2 { name, first, second } => Formula::Function2 {
            name,
            first: Box::new(bare(*first)),
            second: Box::new(bare(*second)),
        },
    }
}

/// Parentheses have no value of their own: a tree and the same tree without
/// its `Group` nodes have the same direct value.
pub proof fn lemma_bare_value(table: DataFrame, formula: Formula)
    ensures
        direct_value(table, bare(formula)) == direct_value(table, formula),
    decreases formula,
{
    match formula {
        Formula::Operand { .. } => {},
        Formula::Infix { left, right, .. } => {
            lemma_bare_value(table, *left);
            lemma_bare_value(table, *right);
        },
        Formula::Group { inner } => {
            lemma_bare_value(table, *inner);
        },
        Formula::Function1 { argument, .. } => {
            lemma_bare_value(table, *argument);
        },
        Formula::Function2 { first, second, .. } => {
            lemma_bare_value(table, *first);
            lemma_bare_value(table, *second);
        },
    }
}

/// Parentheses change a result only where they change the grouping: where a
/// formula is still well formed without its parentheses, it evaluates with
/// them to what it evaluates to without them.
pub proof fn theorem_redundant_parentheses(table: DataFrame, formula: Formula)
    requires
        well_formed(formula),
        well_formed(bare(formula)),
    ensures
        formula_value(table, spaced(written(formula))) == formula_value(
            table,
            spaced(written(bare(formula))),
        ),
{
    theorem_written_formula_evaluates_directly(table, formula);
    theorem_written_formula_evaluates_directly(table, bare(formula));
    lemma_bare_value(table, formula);
}

} // verus!
