//! Evaluating a well-formed formula is applying its operators directly.

use vstd::prelude::*;
use polars::prelude::DataFrame;
use polars::prelude::Series;
use crate::error::ErrorKind;
use crate::formula::compiling::theorem_compiles_to_postfix;
use crate::formula::direct_value;
use crate::formula::Formula;
use crate::formula::postfix;
use crate::formula::well_formed;
use crate::formula::written;
use crate::formula_value;
use crate::lexer::is_lexeme;
use crate::lexer::spaced;
use crate::lexer::theorem_spaced_tokens_read_back;
use crate::lexer::tokens_of;
use crate::operators::builtin_operators;
use crate::operators::BuiltinOperator;
use crate::operators::Operator;
use crate::rpn::apply_token;
use crate::rpn::is_operator_token;
use crate::rpn::lemma_symbols;
use crate::rpn::run;
use crate::rpn::value_of;

verus! {

/// The registry of built-in operators holds the compiler's operator symbols,
/// each with its own operator.
pub proof fn lemma_builtin_operators()
    ensures
        forall|token: Seq<char>| #[trigger]
            builtin_operators().contains_key(token) <==> is_operator_token(token),
        builtin_operators()["+"@] == BuiltinOperator::Add,
        builtin_operators()["-"@] == BuiltinOperator::Sub,
        builtin_operators()["*"@] == BuiltinOperator::Mul,
        builtin_operators()["/"@] == BuiltinOperator::Div,
        builtin_operators()["MA"@] == BuiltinOperator::MA,
        builtin_operators()["STD"@] == BuiltinOperator::Std,
        builtin_operators()["RANK"@] == BuiltinOperator::Rank,
{
    lemma_symbols();
}

/// Evaluating `head` and then `tail` is evaluating `head + tail`.
pub proof fn lemma_run_concat<O: Operator>(
    table: DataFrame,
    operators: Map<Seq<char>, O>,
    stack: Seq<Series>,
    head: Seq<Seq<char>>,
    tail: Seq<Seq<char>>,
)
    ensures
        run(table, operators, stack, head + tail) == match run(table, operators, stack, head) {
            Ok(next) => run(table, operators, next, tail),
            Err(e) => Err(e),
        },
    decreases head.len(),
{
    if head.len() == 0 {
        assert(head + tail =~= tail);
    } else {
        assert((head + tail).first() == head.first());
        assert((head + tail).drop_first() =~= head.drop_first() + tail);
        match apply_token(table, operators, stack, head.first()) {
            Ok(next) => {
                lemma_run_concat(table, operators, next, head.drop_first(), tail);
            },
            Err(e) => {},
        }
    }
}

/// Evaluating one token is one application.
pub proof fn lemma_run_one<O: Operator>(
    table: DataFrame,
    operators: Map<Seq<char>, O>,
    stack: Seq<Series>,
    token: Seq<char>,
)
    ensures
        run(table, operators, stack, seq![token]) == apply_token(table, operators, stack, token),
{
    let tokens = seq![token];
    assert(tokens.first() == token);
    assert(tokens.drop_first() =~= Seq::<Seq<char>>::empty());
    match apply_token(table, operators, stack, token) {
        Ok(next) => {
            assert(run(table, operators, next, tokens.drop_first()) == Ok::<
                Seq<Series>,
                ErrorKind,
            >(next));
        },
        Err(e) => {},
    }
}

/// What evaluating the postfix order of a formula does to a stack.
pub open spec fn pushed(stack: Seq<Series>, value: Result<Series, ErrorKind>) -> Result<
    Seq<Series>,
    ErrorKind,
> {
    match value {
        Ok(column) => Ok(stack.push(column)),
        Err(e) => Err(e),
    }
}

/// Evaluating the postfix order of a well-formed formula pushes the formula's
/// direct value, whatever the stack holds below.
pub proof fn lemma_run_formula(table: DataFrame, formula: Formula, stack: Seq<Series>)
    requires
        well_formed(formula),
    ensures
        run(table, builtin_operators(), stack, postfix(formula)) == pushed(
            stack,
            direct_value(table, formula),
        ),
    decreases formula,
{
    lemma_symbols();
    lemma_builtin_operators();
    let ops = builtin_operators();
    match formula {
        Formula::Operand { token } => {
            lemma_run_one(table, ops, stack, token);
        },
        Formula::Infix { symbol, left, right } => {
            lemma_run_formula(table, *left, stack);
            lemma_run_concat(table, ops, stack, postfix(*left), postfix(*right));
            lemma_run_concat(table, ops, stack, postfix(*left) + postfix(*right), seq![symbol]);
            if let Ok(a) = direct_value(table, *left) {
                lemma_run_formula(table, *right, stack.push(a));
                if let Ok(b) = direct_value(table, *right) {
                    let full = stack.push(a).push(b);
                    lemma_run_one(table, ops, full, symbol);
                    assert(full.skip(full.len() - 2) =~= seq![a, b]);
                    assert(full.take(full.len() - 2) =~= stack);
                }
            }
        },
        Formula::Group { inner } => {
            lemma_run_formula(table, *inner, stack);
        },
        Formula::Function1 { name, argument } => {
            lemma_run_formula(table, *argument, stack);
            lemma_run_concat(table, ops, stack, postfix(*argument), seq![name]);
            if let Ok(a) = direct_value(table, *argument) {
                let full = stack.push(a);
                lemma_run_one(table, ops, full, name);
                assert(full.skip(full.len() - 1) =~= seq![a]);
                assert(full.take(full.len() - 1) =~= stack);
            }
        },
        Formula::Function2 { name, first, second } => {
            lemma_run_formula(table, *first, stack);
            lemma_run_concat(table, ops, stack, postfix(*first), postfix(*second));
            lemma_run_concat(table, ops, stack, postfix(*first) + postfix(*second), seq![name]);
            if let Ok(a) = direct_value(table, *first) {
                lemma_run_formula(table, *second, stack.push(a));
                if let Ok(b) = direct_value(table, *second) {
                    let full = stack.push(a).push(b);
                    lemma_run_one(table, ops, full, name);
                    assert(full.skip(full.len() - 2) =~= seq![a, b]);
                    assert(full.take(full.len() - 2) =~= stack);
                }
            }
        },
    }
}

/// Evaluating the postfix order of a well-formed formula gives the formula's
/// direct value.
pub proof fn theorem_postfix_evaluates_directly(table: DataFrame, formula: Formula)
    requires
        well_formed(formula),
    ensures
        value_of(table, builtin_operators(), postfix(formula)) == direct_value(table, formula),
{
    lemma_run_formula(table, formula, Seq::empty());
}

/// Evaluation is direct application: a text whose tokens are those of a
/// well-formed formula evaluates to the value that the formula's tree gives,
/// each operator applied to the values of its own operands in the order and
/// the grouping that precedence, left association and parentheses fix.
pub proof fn theorem_evaluation_is_direct_application(
    table: DataFrame,
    text: Seq<char>,
    formula: Formula,
)
    requires
        well_formed(formula),
        tokens_of(text) == written(formula),
    ensures
        formula_value(table, text) == direct_value(table, formula),
{
    theorem_compiles_to_postfix(formula);
    theorem_postfix_evaluates_directly(table, formula);
}

/// The ten symbols of the language are tokens.
pub proof fn lemma_symbols_are_lexemes()
    ensures
        is_lexeme("("@),
        is_lexeme(")"@),
        is_lexeme(","@),
        forall|token: Seq<char>| is_operator_token(token) ==> is_lexeme(token),
{
    reveal_strlit("(");
    reveal_strlit(")");
    reveal_strlit(",");
    reveal_strlit("+");
    reveal_strlit("-");
    reveal_strlit("*");
    reveal_strlit("/");
    reveal_strlit("MA");
    reveal_strlit("STD");
    reveal_strlit("RANK");
    assert(is_lexeme("+"@));
    assert(is_lexeme("-"@));
    assert(is_lexeme("*"@));
    assert(is_lexeme("/"@));
    assert(is_lexeme("MA"@));
    assert(is_lexeme("STD"@));
    assert(is_lexeme("RANK"@));
}

/// Whether every token of a sequence is a lexeme.
pub open spec fn all_lexemes(tokens: Seq<Seq<char>>) -> bool {
    forall|i: int| 0 <= i < tokens.len() ==> is_lexeme(#[trigger] tokens[i])
}

/// Sequences of lexemes, joined, are a sequence of lexemes.
pub proof fn lemma_all_lexemes_concat(head: Seq<Seq<char>>, tail: Seq<Seq<char>>)
    requires
        all_lexemes(head),
        all_lexemes(tail),
    ensures
        all_lexemes(head + tail),
{
    assert forall|i: int| 0 <= i < (head + tail).len() implies is_lexeme(
        #[trigger] (head + tail)[i],
    ) by {
        if i < head.len() {
            assert((head + tail)[i] == head[i]);
        } else {
            assert((head + tail)[i] == tail[i - head.len()]);
        }
    }
}

/// A well-formed formula is written in lexemes.
pub proof fn lemma_written_in_lexemes(formula: Formula)
    requires
        well_formed(formula),
    ensures
        all_lexemes(written(formula)),
    decreases formula,
{
    lemma_symbols_are_lexemes();
    match formula {
        Formula::Operand { token } => {
            assert(all_lexemes(seq![token]));
        },
        Formula::Infix { symbol, left, right } => {
            lemma_written_in_lexemes(*left);
            lemma_written_in_lexemes(*right);
            assert(all_lexemes(seq![symbol]));
            lemma_all_lexemes_concat(written(*left), seq![symbol]);
            lemma_all_lexemes_concat(written(*left) + seq![symbol], written(*right));
        },
        Formula::Group { inner } => {
            lemma_written_in_lexemes(*inner);
            assert(all_lexemes(seq!["("@]));
            assert(all_lexemes(seq![")"@]));
            lemma_all_lexemes_concat(seq!["("@], written(*inner));
            lemma_all_lexemes_concat(seq!["("@] + written(*inner), seq![")"@]);
        },
        Formula::Function1 { name, argument } => {
            lemma_written_in_lexemes(*argument);
            assert(all_lexemes(seq![name, "("@]));
            assert(all_lexemes(seq![")"@]));
            lemma_all_lexemes_concat(seq![name, "("@], written(*argument));
            lemma_all_lexemes_concat(seq![name, "("@] + written(*argument), seq![")"@]);
        },
        Formula::Function2 { name, first, second } => {
            lemma_written_in_lexemes(*first);
            lemma_written_in_lexemes(*second);
            assert(all_lexemes(seq![name, "("@]));
            assert(all_lexemes(seq![","@]));
            assert(all_lexemes(seq![")"@]));
            lemma_all_lexemes_concat(seq![name, "("@], written(*first));
            lemma_all_lexemes_concat(seq![name, "("@] + written(*first), seq![","@]);
            lemma_all_lexemes_concat(
                seq![name, "("@] + written(*first) + seq![","@],
                written(*second),
            );
            lemma_all_lexemes_concat(
                seq![name, "("@] + written(*first) + seq![","@] + written(*second),
                seq![")"@],
            );
        },
    }
}

/// A well-formed formula, written out with a space after each token,
/// evaluates to its direct value.
pub proof fn theorem_written_formula_evaluates_directly(table: DataFrame, formula: Formula)
    requires
        well_formed(formula),
    ensures
        formula_value(table, spaced(written(formula))) == direct_value(table, formula),
{
    lemma_written_in_lexemes(formula);
    theorem_spaced_tokens_read_back(written(formula));
    theorem_evaluation_is_direct_application(table, spaced(written(formula)), formula);
}

} // verus!
