//! Compiling a formula to postfix order, and evaluating the postfix sequence.

use vstd::prelude::*;
use polars::prelude::DataFrame;
use polars::prelude::Series;
use std::collections::VecDeque;
use crate::engine::literal_column;
use crate::engine::literal_series;
use crate::engine::lookup_column;
use crate::engine::table_columns;
use crate::engine::table_height;
use crate::error::ErrorKind;
use crate::error::ExprError;
use crate::error::kind_of;
use crate::lexer::push_token;
use crate::lexer::same_text;
use crate::lexer::tokenize;
use crate::lexer::tokens_of;
use crate::operators::Operator;
use crate::operators::rows;
use crate::registry::OperatorRegistry;

verus! {

/// The symbols that the compiler treats as operators.
pub open spec fn is_operator_token(token: Seq<char>) -> bool {
    ||| token == "+"@
    ||| token == "-"@
    ||| token == "*"@
    ||| token == "/"@
    ||| token == "MA"@
    ||| token == "STD"@
    ||| token == "RANK"@
}

/// How tightly an operator binds: 1 for `+ -`, 2 for `* /`, 3 for the named
/// functions, and 0 for every other token.
pub open spec fn precedence_of(token: Seq<char>) -> int {
    if token == "+"@ || token == "-"@ {
        1
    } else if token == "*"@ || token == "/"@ {
        2
    } else if token == "MA"@ || token == "STD"@ || token == "RANK"@ {
        3
    } else {
        0
    }
}

/// The state of the compiler between two tokens.
pub struct Yard {
    /// The tokens already in postfix order.
    pub output: Seq<Seq<char>>,
    /// The operators and open parentheses that wait for their operands, the
    /// most recent last.
    pub waiting: Seq<Seq<char>>,
}

/// Whether a waiting `entry` leaves the stack when `incoming` arrives.
///
/// A closing parenthesis and a comma send every operator back to the nearest
/// open parenthesis. An operator sends the operators that bind at least as
/// tightly as itself, which makes operators of one level associate to the left.
pub open spec fn gives_way(entry: Seq<char>, incoming: Seq<char>) -> bool {
    if incoming == ")"@ || incoming == ","@ {
        entry != "("@
    } else {
        is_operator_token(entry) && precedence_of(entry) >= precedence_of(incoming)
    }
}

/// How many entries leave the top of `waiting` when `incoming` arrives.
pub open spec fn leaving(waiting: Seq<Seq<char>>, incoming: Seq<char>) -> nat
    decreases waiting.len(),
{
    if waiting.len() > 0 && gives_way(waiting.last(), incoming) {
        1 + leaving(waiting.drop_last(), incoming)
    } else {
        0
    }
}

/// The topmost `count` entries of `waiting`, the most recent first.
pub open spec fn unwound(waiting: Seq<Seq<char>>, count: nat) -> Seq<Seq<char>> {
    waiting.subrange(waiting.len() - count, waiting.len() as int).reverse()
}

/// The state after one more token.
pub open spec fn step(yard: Yard, token: Seq<char>) -> Result<Yard, ErrorKind> {
    let count = leaving(yard.waiting, token);
    let kept = yard.waiting.take(yard.waiting.len() - count);
    let flushed = yard.output + unwound(yard.waiting, count);
    if token == "("@ {
        Ok(Yard { output: yard.output, waiting: yard.waiting.push(token) })
    } else if token == ")"@ {
        if kept.len() == 0 {
            Err(ErrorKind::UnbalancedParentheses)
        } else {
            Ok(Yard { output: flushed, waiting: kept.drop_last() })
        }
    } else if token == ","@ {
        Ok(Yard { output: flushed, waiting: kept })
    } else if is_operator_token(token) {
        Ok(Yard { output: flushed, waiting: kept.push(token) })
    } else {
        Ok(Yard { output: yard.output.push(token), waiting: yard.waiting })
    }
}

/// The state after the tokens of `tokens`, read from `yard` on.
pub open spec fn feed(yard: Yard, tokens: Seq<Seq<char>>) -> Result<Yard, ErrorKind>
    decreases tokens.len(),
{
    if tokens.len() == 0 {
        Ok(yard)
    } else {
        match step(yard, tokens.first()) {
            Ok(next) => feed(next, tokens.drop_first()),
            Err(e) => Err(e),
        }
    }
}

/// What is handed out at the end of the input: the output, followed by the
/// waiting operators, the most recent first.
pub open spec fn finish(yard: Yard) -> Result<Seq<Seq<char>>, ErrorKind> {
    if yard.waiting.contains("("@) {
        Err(ErrorKind::UnbalancedParentheses)
    } else {
        Ok(yard.output + yard.waiting.reverse())
    }
}

/// The postfix order of an infix token sequence.
pub open spec fn to_postfix(tokens: Seq<Seq<char>>) -> Result<Seq<Seq<char>>, ErrorKind> {
    if tokens.len() == 0 {
        Err(ErrorKind::EmptyExpression)
    } else {
        match feed(Yard { output: Seq::empty(), waiting: Seq::empty() }, tokens) {
            Ok(yard) => finish(yard),
            Err(e) => Err(e),
        }
    }
}

/// The ten symbols of the language are ten different strings.
pub proof fn lemma_symbols()
    ensures
        "("@ != ")"@,
        "("@ != ","@,
        ")"@ != ","@,
        !is_operator_token("("@),
        !is_operator_token(")"@),
        !is_operator_token(","@),
        precedence_of("+"@) == 1,
        precedence_of("-"@) == 1,
        precedence_of("*"@) == 2,
        precedence_of("/"@) == 2,
        precedence_of("MA"@) == 3,
        precedence_of("STD"@) == 3,
        precedence_of("RANK"@) == 3,
        "+"@ != "-"@,
        "+"@ != "*"@,
        "+"@ != "/"@,
        "-"@ != "*"@,
        "-"@ != "/"@,
        "*"@ != "/"@,
        "MA"@ != "STD"@,
        "MA"@ != "RANK"@,
        "STD"@ != "RANK"@,
{
    reveal_strlit("(");
    reveal_strlit(")");
    reveal_strlit(",");
    reveal_strlit("+");
    reveal_strlit("-");
    reveal_strlit("*");
    reveal_strlit("/");
    reveal_strlit("MA");
    reveal_strlit("STD");
    reveal_strlit("RANK");
    assert("("@[0] == '(');
    assert(")"@[0] == ')');
    assert(","@[0] == ',');
    assert("+"@[0] == '+');
    assert("-"@[0] == '-');
    assert("*"@[0] == '*');
    assert("/"@[0] == '/');
    assert("MA"@.len() == 2);
    assert("STD"@.len() == 3);
    assert("RANK"@.len() == 4);
}

/// What a compilation returned, the postfix tokens taken by their characters.
pub open spec fn compiled(r: Result<Vec<String>, ExprError>) -> Result<Seq<Seq<char>>, ErrorKind> {
    match r {
        Ok(postfix) => Ok(postfix.deep_view()),
        Err(e) => Err(e.kind),
    }
}

/// Whether `token` is one of the operator symbols.
pub fn is_operator(token: &str) -> (b: bool)
    ensures
        b == is_operator_token(token@),
{
    same_text(token, "+") || same_text(token, "-") || same_text(token, "*") || same_text(
        token,
        "/",
    ) || same_text(token, "MA") || same_text(token, "STD") || same_text(token, "RANK")
}

/// The precedence of `op`, 0 where it is no operator.
pub fn precedence(op: &str) -> (level: i32)
    ensures
        level == precedence_of(op@),
{
    if same_text(op, "+") || same_text(op, "-") {
        1
    } else if same_text(op, "*") || same_text(op, "/") {
        2
    } else if same_text(op, "MA") || same_text(op, "STD") || same_text(op, "RANK") {
        3
    } else {
        0
    }
}

/// Whether the waiting `entry` leaves the stack when `incoming` arrives.
fn yields(entry: &str, incoming: &str) -> (b: bool)
    ensures
        b == gives_way(entry@, incoming@),
{
    if same_text(incoming, ")") || same_text(incoming, ",") {
        !same_text(entry, "(")
    } else {
        is_operator(entry) && precedence(entry) >= precedence(incoming)
    }
}

/// Removes the last token of a list.
fn pop_token(tokens: &mut Vec<String>) -> (top: Option<String>)
    ensures
        match top {
            Some(t) => {
                &&& old(tokens).len() > 0
                &&& t@ == old(tokens).deep_view().last()
                &&& final(tokens).deep_view() == old(tokens).deep_view().drop_last()
            },
            None => {
                &&& old(tokens).len() == 0
                &&& final(tokens).deep_view() == old(tokens).deep_view()
            },
        },
{
    let top = tokens.pop();
    assert(old(tokens).len() > 0 ==> tokens.deep_view() =~= old(tokens).deep_view().drop_last());
    assert(old(tokens).len() == 0 ==> tokens.deep_view() =~= old(tokens).deep_view());
    top
}

/// Moves to `output` the entries of `waiting` that leave when `incoming`
/// arrives.
fn unwind(output: &mut Vec<String>, waiting: &mut Vec<String>, incoming: &str)
    ensures
        final(output).deep_view() == old(output).deep_view() + unwound(
            old(waiting).deep_view(),
            leaving(old(waiting).deep_view(), incoming@),
        ),
        final(waiting).deep_view() == old(waiting).deep_view().take(
            old(waiting).len() - leaving(old(waiting).deep_view(), incoming@),
        ),
{
    let ghost before = waiting.deep_view();
    let ghost sent: nat = 0;
    assert(output.deep_view() =~= old(output).deep_view() + unwound(before, 0));
    assert(waiting.deep_view() =~= before.take(before.len() - 0));
    loop
        invariant
            before == old(waiting).deep_view(),
            sent <= before.len(),
            waiting.deep_view() == before.take(before.len() - sent),
            output.deep_view() == old(output).deep_view() + unwound(before, sent),
            leaving(before, incoming@) == sent + leaving(waiting.deep_view(), incoming@),
        ensures
            sent == leaving(before, incoming@),
        decreases waiting.len(),
    {
        let n: usize = waiting.len();
        if n == 0 {
            break ;
        }
        if !yields(waiting[n - 1].as_str(), incoming) {
            assert(waiting.deep_view().last() == waiting[n - 1]@);
            break ;
        }
        assert(waiting.deep_view().last() == waiting[n - 1]@);
        let top = pop_token(waiting);
        match top {
            Some(t) => {
                push_token(output, t.as_str());
                proof {
                    assert(t@ == before[before.len() - sent - 1]);
                    assert(unwound(before, sent + 1) =~= unwound(before, sent).push(t@));
                    assert(waiting.deep_view() =~= before.take(before.len() - (sent + 1)));
                    sent = sent + 1;
                }
            },
            None => {},
        }
    }
}

/// Hands out the output followed by the waiting operators, the most recent
/// first, unless an open parenthesis is still waiting.
fn drain(done: Vec<String>, left: Vec<String>) -> (r: Result<Vec<String>, ExprError>)
    ensures
        compiled(r) == finish(Yard { output: done.deep_view(), waiting: left.deep_view() }),
{
    let mut output = done;
    let mut waiting = left;
    let ghost start = Yard { output: output.deep_view(), waiting: waiting.deep_view() };
    loop
        invariant
            start == (Yard { output: done.deep_view(), waiting: left.deep_view() }),
            finish(Yard { output: output.deep_view(), waiting: waiting.deep_view() }) == finish(
                start,
            ),
        ensures
            waiting.len() == 0,
        decreases waiting.len(),
    {
        let ghost yard = Yard { output: output.deep_view(), waiting: waiting.deep_view() };
        match pop_token(&mut waiting) {
            None => {
                break ;
            },
            Some(top) => {
                if same_text(top.as_str(), "(") {
                    assert(yard.waiting.contains("("@)) by {
                        assert(yard.waiting[yard.waiting.len() - 1] == "("@);
                    }
                    return Err(ExprError::of(ErrorKind::UnbalancedParentheses));
                }
                push_token(&mut output, top.as_str());
                proof {
                    let next = Yard { output: output.deep_view(), waiting: waiting.deep_view() };
                    assert(yard.waiting =~= next.waiting.push(top@));
                    assert(next.waiting.contains("("@) == yard.waiting.contains("("@)) by {
                        if next.waiting.contains("("@) {
                            let k = choose|k: int|
                                0 <= k < next.waiting.len() && next.waiting[k] == "("@;
                            assert(yard.waiting[k] == "("@);
                        }
                        if yard.waiting.contains("("@) {
                            let k = choose|k: int|
                                0 <= k < yard.waiting.len() && yard.waiting[k] == "("@;
                            assert(next.waiting[k] == "("@);
                        }
                    }
                    assert(yard.waiting.reverse() =~= seq![top@] + next.waiting.reverse());
                    assert(next.output + next.waiting.reverse() =~= yard.output
                        + yard.waiting.reverse());
                }
            },
        }
    }
    proof {
        let last = Yard { output: output.deep_view(), waiting: waiting.deep_view() };
        assert(last.waiting =~= Seq::<Seq<char>>::empty());
        assert(!last.waiting.contains("("@));
        assert(last.output + last.waiting.reverse() =~= last.output);
    }
    Ok(output)
}

/// Compiles a formula: splits it into tokens and puts them in postfix order.
///
/// Fails with `EmptyExpression` where the formula holds no token, and with
/// `UnbalancedParentheses` where a parenthesis has no partner.
pub fn parse_expression(expr: &str) -> (r: Result<Vec<String>, ExprError>)
    ensures
        compiled(r) == to_postfix(tokens_of(expr@)),
{
    let tokens = tokenize(expr);
    if tokens.len() == 0 {
        return Err(ExprError::of(ErrorKind::EmptyExpression));
    }
    let mut output: Vec<String> = Vec::new();
    let mut operator_stack: Vec<String> = Vec::new();
    let ghost all = tokens.deep_view();
    let ghost target = feed(Yard { output: Seq::empty(), waiting: Seq::empty() }, all);
    let mut i: usize = 0;
    assert(output.deep_view() =~= Seq::<Seq<char>>::empty());
    assert(operator_stack.deep_view() =~= Seq::<Seq<char>>::empty());
    assert(all.skip(0) =~= all);
    while i < tokens.len()
        invariant
            i <= tokens.len(),
            all == tokens.deep_view(),
            all == tokens_of(expr@),
            all.len() > 0,
            target == feed(Yard { output: Seq::empty(), waiting: Seq::empty() }, all),
            target == feed(
                Yard { output: output.deep_view(), waiting: operator_stack.deep_view() },
                all.skip(i as int),
            ),
        decreases tokens.len() - i,
    {
        let token = tokens[i].as_str();
        let ghost yard = Yard { output: output.deep_view(), waiting: operator_stack.deep_view() };
        proof {
            assert(all.skip(i as int).first() == token@);
            assert(all.skip(i as int).drop_first() =~= all.skip(i + 1));
        }
        if same_text(token, "(") {
            push_token(&mut operator_stack, token);
        } else if same_text(token, ")") {
            unwind(&mut output, &mut operator_stack, token);
            match pop_token(&mut operator_stack) {
                None => {
                    assert(step(yard, token@) is Err);
                    return Err(ExprError::of(ErrorKind::UnbalancedParentheses));
                },
                Some(_) => {},
            }
        } else if same_text(token, ",") {
            unwind(&mut output, &mut operator_stack, token);
        } else if is_operator(token) {
            unwind(&mut output, &mut operator_stack, token);
            push_token(&mut operator_stack, token);
        } else {
            push_token(&mut output, token);
        }
        assert(step(yard, token@) == Ok::<Yard, ErrorKind>(
            Yard { output: output.deep_view(), waiting: operator_stack.deep_view() },
        ));
        i = i + 1;
    }
    assert(all.skip(i as int) =~= Seq::<Seq<char>>::empty());
    drain(output, operator_stack)
}

/// Compiling is deterministic: whatever two calls of `parse_expression` return
/// for one formula, they return the same postfix sequence or the same error.
pub proof fn theorem_compiling_twice(
    expr: &str,
    first: Result<Vec<String>, ExprError>,
    second: Result<Vec<String>, ExprError>,
)
    requires
        call_ensures(parse_expression, (expr,), first),
        call_ensures(parse_expression, (expr,), second),
    ensures
        compiled(first) == compiled(second),
{
}

/// The evaluation stack after one more postfix token.
///
/// An operator takes its operands off the top of the stack, the left one being
/// the deepest, and leaves its result there. A token that is no operator is a
/// number where the engine reads it as one, and else the name of a column. A
/// number is pushed as a column of one row.
pub open spec fn apply_token<O: Operator>(
    table: DataFrame,
    operators: Map<Seq<char>, O>,
    stack: Seq<Series>,
    token: Seq<char>,
) -> Result<Seq<Series>, ErrorKind> {
    if operators.contains_key(token) {
        let operator = operators[token];
        let rest = stack.len() - operator.operands();
        if rest < 0 {
            Err(ErrorKind::ArityMismatch)
        } else {
            match operator.outcome(table, stack.skip(rest)) {
                Ok(column) => Ok(stack.take(rest).push(column)),
                Err(e) => Err(e),
            }
        }
    } else {
        match literal_series(token) {
            Some(column) => Ok(stack.push(column)),
            None => if table_columns(table).contains_key(token) {
                Ok(stack.push(table_columns(table)[token]))
            } else {
                Err(ErrorKind::UnknownColumn)
            },
        }
    }
}

/// The evaluation stack after the tokens of `tokens`, read from `stack` on.
pub open spec fn run<O: Operator>(
    table: DataFrame,
    operators: Map<Seq<char>, O>,
    stack: Seq<Series>,
    tokens: Seq<Seq<char>>,
) -> Result<Seq<Series>, ErrorKind>
    decreases tokens.len(),
{
    if tokens.len() == 0 {
        Ok(stack)
    } else {
        match apply_token(table, operators, stack, tokens.first()) {
            Ok(next) => run(table, operators, next, tokens.drop_first()),
            Err(e) => Err(e),
        }
    }
}

/// The column that a postfix sequence evaluates to: the one column left on
/// the stack at the end.
pub open spec fn value_of<O: Operator>(
    table: DataFrame,
    operators: Map<Seq<char>, O>,
    tokens: Seq<Seq<char>>,
) -> Result<Series, ErrorKind> {
    match run(table, operators, Seq::empty(), tokens) {
        Ok(stack) => if stack.len() == 1 {
            Ok(stack[0])
        } else {
            Err(ErrorKind::IllFormedExpression)
        },
        Err(e) => Err(e),
    }
}

/// Whether a column fits a table: it has as many rows as the table, or one
/// row, which then stands for all.
pub open spec fn fits(table: DataFrame, column: Series) -> bool {
    rows(column) == table_height(table) || rows(column) == 1
}

/// Takes the topmost `count` operands off the stack, in the order in which
/// they were pushed: the left operand first. The top of the stack is the
/// front of the queue. Fails with `ArityMismatch`, and leaves the stack as it
/// is, where it holds fewer.
pub fn take_operands<T>(stack: &mut VecDeque<T>, count: usize) -> (r: Result<Vec<T>, ExprError>)
    ensures
        match r {
            Ok(operands) => {
                &&& count <= old(stack)@.len()
                &&& operands@ == old(stack)@.take(count as int).reverse()
                &&& final(stack)@ == old(stack)@.skip(count as int)
            },
            Err(e) => {
                &&& e.kind == ErrorKind::ArityMismatch
                &&& old(stack)@.len() < count
                &&& final(stack)@ == old(stack)@
            },
        },
{
    if stack.len() < count {
        return Err(ExprError::of(ErrorKind::ArityMismatch));
    }
    let ghost before = stack@;
    let mut operands: Vec<T> = Vec::new();
    let mut taken: usize = 0;
    assert(operands@ =~= before.take(0).reverse());
    assert(stack@ =~= before.skip(0));
    while taken < count
        invariant
            taken <= count <= before.len(),
            operands@ == before.take(taken as int).reverse(),
            stack@ == before.skip(taken as int),
        decreases count - taken,
    {
        match stack.pop_front() {
            Some(operand) => {
                assert(operand == before[taken as int]);
                operands.insert(0, operand);
                assert(operands@ =~= before.take(taken + 1).reverse());
                assert(stack@ =~= before.skip(taken + 1));
            },
            None => {},
        }
        taken = taken + 1;
    }
    Ok(operands)
}

/// The result of an evaluation: the one value that is left on the stack.
/// Fails with `IllFormedExpression` where none is left, or more than one.
pub fn sole_result<T>(stack: VecDeque<T>) -> (r: Result<T, ExprError>)
    ensures
        kind_of(r) == if stack@.len() == 1 {
            Ok::<T, ErrorKind>(stack@[0])
        } else {
            Err::<T, ErrorKind>(ErrorKind::IllFormedExpression)
        },
{
    let mut stack = stack;
    if stack.len() != 1 {
        return Err(ExprError::of(ErrorKind::IllFormedExpression));
    }
    match stack.pop_front() {
        Some(value) => Ok(value),
        None => Err(ExprError::of(ErrorKind::IllFormedExpression)),
    }
}

/// Whether `token` is a token of the sequence that is no operator and no
/// number and names no column of the table.
pub open spec fn names_nothing<O: Operator>(
    table: DataFrame,
    operators: Map<Seq<char>, O>,
    tokens: Seq<Seq<char>>,
    token: Seq<char>,
) -> bool {
    &&& tokens.contains(token)
    &&& !operators.contains_key(token)
    &&& literal_series(token) is None
    &&& !table_columns(table).contains_key(token)
}

/// Whether an operator of the registry fails with errors of the given kind.
pub open spec fn reported_by_operators<O: Operator>(
    table: DataFrame,
    operators: Map<Seq<char>, O>,
    kind: ErrorKind,
) -> bool {
    exists|symbol: Seq<char>, args: Seq<Series>|
        operators.contains_key(symbol) && #[trigger] operators[symbol].outcome(table, args)
            == Err::<Series, ErrorKind>(kind)
}

/// Evaluates a postfix sequence against a table.
///
/// A number stands for a column of one row, whatever the height of the table.
/// Next to a column of the table it counts in every row; a sequence of numbers
/// alone, such as `2.5` or `1 2 +`, evaluates to a column of one row. No
/// result has another number of rows than the table's, or one.
///
/// Fails with `UnknownColumn` at a token that is no operator and no number and
/// names no column of the table, and hands that token out as the error's
/// detail (an operator that fails with `UnknownColumn` itself hands out its
/// own); fails with `ArityMismatch` at an operator that
/// finds too few operands, with the operator's error where the operator
/// fails, and with `IllFormedExpression` where the tokens leave no column or
/// more than one.
pub fn evaluate_rpn<O: Operator>(
    df: &DataFrame,
    tokens: &[String],
    operators: &OperatorRegistry<O>,
) -> (r: Result<Series, ExprError>)
    ensures
        kind_of(r) == value_of(*df, operators@, tokens.deep_view()),
        r matches Ok(column) ==> fits(*df, column),
        r matches Err(e) ==> (e.kind == ErrorKind::UnknownColumn && !reported_by_operators(
            *df,
            operators@,
            e.kind,
        ) ==> names_nothing(*df, operators@, tokens.deep_view(), e.detail@)),
{
    let mut stack: VecDeque<Series> = VecDeque::new();
    let ghost all = tokens.deep_view();
    let mut i: usize = 0;
    assert(all.skip(0) =~= all);
    assert(stack@.reverse() =~= Seq::<Series>::empty());
    while i < tokens.len()
        invariant
            i <= tokens.len(),
            all == tokens.deep_view(),
            run(*df, operators@, Seq::empty(), all) == run(
                *df,
                operators@,
                stack@.reverse(),
                all.skip(i as int),
            ),
            forall|k: int| 0 <= k < stack@.len() ==> fits(*df, #[trigger] stack@[k]),
        decreases tokens.len() - i,
    {
        let token = tokens[i].as_str();
        let ghost queue = stack@;
        let ghost before = stack@.reverse();
        proof {
            assert(all.skip(i as int).first() == token@);
            assert(all.skip(i as int).drop_first() =~= all.skip(i + 1));
        }
        match operators.get(token) {
            Some(operator) => {
                let args = match take_operands(&mut stack, operator.arity()) {
                    Ok(args) => args,
                    Err(e) => {
                        return Err(e);
                    },
                };
                let ghost rest = before.len() - args@.len();
                assert(args@ =~= before.skip(rest));
                assert(stack@.reverse() =~= before.take(rest));
                match operator.evaluate(df, args.as_slice()) {
                    Ok(column) => {
                        assert(fits(*df, column)) by {
                            if rows(column) != 1 {
                                let j = choose|j: int|
                                    0 <= j < args@.len() && rows(column) == rows(
                                        #[trigger] args@[j],
                                    );
                                assert(args@[j] == queue[args@.len() - 1 - j]);
                            }
                        }
                        let ghost kept = stack@;
                        stack.push_front(column);
                        assert(stack@.reverse() =~= before.take(rest).push(column));
                        assert forall|k: int| 0 <= k < stack@.len() implies fits(
                            *df,
                            #[trigger] stack@[k],
                        ) by {
                            if k > 0 {
                                assert(stack@[k] == kept[k - 1]);
                                assert(kept[k - 1] == queue[k - 1 + args@.len()]);
                            }
                        }
                    },
                    Err(e) => {
                        assert(operators@[token@].outcome(*df, args@) == Err::<
                            Series,
                            ErrorKind,
                        >(e.kind));
                        return Err(e);
                    },
                }
            },
            None => {
                let column = match literal_column(token) {
                    Some(column) => column,
                    None => match lookup_column(df, token) {
                        Some(column) => column,
                        None => {
                            assert(all[i as int] == token@);
                            return Err(ExprError::at(ErrorKind::UnknownColumn, token));
                        },
                    },
                };
                stack.push_front(column);
                assert(stack@.reverse() =~= before.push(column));
                assert forall|k: int| 0 <= k < stack@.len() implies fits(
                    *df,
                    #[trigger] stack@[k],
                ) by {
                    if k > 0 {
                        assert(stack@[k] == queue[k - 1]);
                    }
                }
            },
        }
        assert(apply_token(*df, operators@, before, token@) == Ok::<Seq<Series>, ErrorKind>(
            stack@.reverse(),
        ));
        i = i + 1;
    }
    assert(all.skip(i as int) =~= Seq::<Seq<char>>::empty());
    proof {
        if stack@.len() == 1 {
            assert(stack@.reverse()[0] == stack@[0]);
        }
    }
    sole_result(stack)
}

} // verus!
