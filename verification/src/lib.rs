//! A small formula language over the columns of a table.
//!
//! A formula such as `( close - MA(close, 5) ) / STD(close, 5)` is split into
//! tokens, put in postfix order and evaluated on a stack against a table. The
//! columns and the arithmetic on them are those of polars.
//!
//! # The language
//!
//! Tokens are separated by white space. Parentheses and commas need none: they
//! are tokens wherever they stand. The operators are `+` and `-`, which bind
//! least, `*` and `/`, and the functions `MA`, `STD` and `RANK`, which bind
//! most. Operators of one level group from the left. Every other token is an
//! operand: a number where it reads as one, and else the name of a column. A
//! number is a column of one row that counts in every row of the column that
//! it is combined with. The operators work on numeric columns; on any other
//! column they fail with `OperatorFailed`.
//!
//! A function stands before its arguments, which are written in parentheses. A
//! comma ends the argument before it, so that each argument may be a formula
//! of its own. Between arguments of one token each the comma can be left out.
//!
//! # The parts
//!
//! - [`lexer`] splits a formula into tokens.
//! - [`rpn`] puts the tokens in postfix order and evaluates a postfix sequence.
//! - [`operators`] holds the operators, [`registry`] the table of them.
//! - [`engine`] is the border to polars: what is taken on trust of it.
//! - [`factor`] binds a formula to an engine.
//! - [`error`] holds the kinds of failure, and the error with its detail.
//! - [`formula`], [`parentheses`] and [`conservation`] prove what the compiler
//!   and the evaluator owe to a formula.

use vstd::prelude::*;
use polars::prelude::DataFrame;
use polars::prelude::Series;
use crate::error::ErrorKind;
use crate::error::ExprError;
use crate::error::kind_of;
use crate::lexer::tokens_of;
use crate::operators::builtin_operators;
use crate::operators::BuiltinOperator;
use crate::operators::lemma_builtin_failures;
use crate::operators::Operator;
use crate::operators::with_builtins;
use crate::parentheses::theorem_compiles_iff_balanced;
use crate::registry::OperatorRegistry;
use crate::rpn::fits;
use crate::rpn::names_nothing;
use crate::rpn::reported_by_operators;
use crate::rpn::to_postfix;
use crate::rpn::value_of;

pub mod conservation;
pub mod engine;
pub mod error;
pub mod factor;
pub mod formula;
pub mod lexer;
pub mod operators;
pub mod parentheses;
pub mod registry;
pub mod rpn;

verus! {

/// The column that a formula evaluates to against a table, with the built-in
/// operators: the value of its postfix order, or the error that compiling or
/// evaluating it meets first.
///
/// A number in the formula is a column of one row. It counts in every row of
/// the column that it is combined with; a formula of numbers alone evaluates
/// to a column of one row, not to one of the table's height.
pub open spec fn formula_value(table: DataFrame, formula: Seq<char>) -> Result<Series, ErrorKind> {
    match to_postfix(tokens_of(formula)) {
        Ok(postfix) => value_of(table, builtin_operators(), postfix),
        Err(e) => Err(e),
    }
}

/// Whether `token` is an operand of the formula, as compiled, that is no
/// number and names no column of the table.
pub open spec fn missing(table: DataFrame, formula: Seq<char>, token: Seq<char>) -> bool {
    to_postfix(tokens_of(formula)) matches Ok(postfix) && names_nothing(
        table,
        builtin_operators(),
        postfix,
        token,
    )
}

/// Compiles and evaluates formulas with the built-in operators.
#[derive(Debug)]
pub struct ExprEngine {
    operators: OperatorRegistry<BuiltinOperator>,
}

impl View for ExprEngine {
    type V = Map<Seq<char>, BuiltinOperator>;

    /// The operators that the engine knows, by symbol.
    closed spec fn view(&self) -> Map<Seq<char>, BuiltinOperator> {
        self.operators@
    }
}

impl ExprEngine {
    #[verifier::type_invariant]
    spec fn holds_builtins(self) -> bool {
        self.operators@ == builtin_operators()
    }

    /// An engine that knows the built-in operators, and no others.
    pub fn new() -> (engine: Self)
        ensures
            engine@ == builtin_operators(),
    {
        let mut operators = OperatorRegistry::new();
        Self::register_default_operators(&mut operators);
        ExprEngine { operators }
    }

    /// Compiles `expr` and evaluates it against `df`.
    pub fn evaluate(&self, df: &DataFrame, expr: &str) -> (r: Result<Series, ExprError>)
        ensures
            kind_of(r) == formula_value(*df, expr@),
            r matches Ok(column) ==> fits(*df, column),
            r matches Err(e) ==> (e.kind == ErrorKind::UnknownColumn ==> missing(
                *df,
                expr@,
                e.detail@,
            )),
    {
        proof {
            use_type_invariant(self);
            assert forall|symbol: Seq<char>, args: Seq<Series>|
                builtin_operators().contains_key(symbol) implies (
            #[trigger] builtin_operators()[symbol].outcome(*df, args)) != Err::<Series, ErrorKind>(
                ErrorKind::UnknownColumn,
            ) by {
                lemma_builtin_failures(builtin_operators()[symbol], *df, args);
            }
            assert(!reported_by_operators(*df, builtin_operators(), ErrorKind::UnknownColumn));
            theorem_compiles_iff_balanced(tokens_of(expr@));
        }
        match rpn::parse_expression(expr) {
            Ok(tokens) => rpn::evaluate_rpn(df, tokens.as_slice(), &self.operators),
            Err(e) => Err(e),
        }
    }

    /// Puts the built-in operators into a registry, each under its symbol.
    fn register_default_operators(operators: &mut OperatorRegistry<BuiltinOperator>)
        ensures
            final(operators)@ == with_builtins(old(operators)@),
    {
        operators.register("+", BuiltinOperator::Add);
        operators.register("-", BuiltinOperator::Sub);
        operators.register("*", BuiltinOperator::Mul);
        operators.register("/", BuiltinOperator::Div);

        operators.register("MA", BuiltinOperator::MA);
        operators.register("STD", BuiltinOperator::Std);
        operators.register("RANK", BuiltinOperator::Rank);
    }
}

} // verus!
