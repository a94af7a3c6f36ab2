//! When compiling succeeds: exactly on the token sequences that are not empty
//! and whose parentheses are balanced.

use vstd::prelude::*;
use crate::error::ErrorKind;
use crate::rpn::feed;
use crate::rpn::gives_way;
use crate::rpn::is_operator_token;
use crate::rpn::leaving;
use crate::rpn::lemma_symbols;
use crate::rpn::step;
use crate::rpn::to_postfix;
use crate::rpn::Yard;

verus! {

/// The number of parentheses that are open after `tokens`, where `depth` were
/// open before, and `None` where a closing parenthesis finds none open.
pub open spec fn nesting(depth: nat, tokens: Seq<Seq<char>>) -> Option<nat>
    decreases tokens.len(),
{
    if tokens.len() == 0 {
        Some(depth)
    } else if tokens.first() == "("@ {
        nesting(depth + 1, tokens.drop_first())
    } else if tokens.first() == ")"@ {
        if depth == 0 {
            None
        } else {
            nesting((depth - 1) as nat, tokens.drop_first())
        }
    } else {
        nesting(depth, tokens.drop_first())
    }
}

/// Whether every parenthesis of `tokens` has its partner.
pub open spec fn balanced(tokens: Seq<Seq<char>>) -> bool {
    nesting(0, tokens) == Some(0nat)
}

/// The number of open parentheses among the waiting entries.
pub open spec fn open_count(waiting: Seq<Seq<char>>) -> nat
    decreases waiting.len(),
{
    if waiting.len() == 0 {
        0
    } else if waiting.last() == "("@ {
        open_count(waiting.drop_last()) + 1
    } else {
        open_count(waiting.drop_last())
    }
}

/// An open parenthesis waits exactly where the count is not zero.
pub proof fn lemma_open_count_zero(waiting: Seq<Seq<char>>)
    ensures
        open_count(waiting) > 0 <==> waiting.contains("("@),
    decreases waiting.len(),
{
    if waiting.len() > 0 {
        lemma_open_count_zero(waiting.drop_last());
        if waiting.last() == "("@ {
            assert(waiting[waiting.len() - 1] == "("@);
        } else {
            if waiting.contains("("@) {
                let k = choose|k: int| 0 <= k < waiting.len() && waiting[k] == "("@;
                assert(waiting.drop_last()[k] == "("@);
            }
            if waiting.drop_last().contains("("@) {
                let k = choose|k: int|
                    0 <= k < waiting.drop_last().len() && waiting.drop_last()[k] == "("@;
                assert(waiting[k] == "("@);
            }
        }
    }
}

/// The entries that leave the stack are never open parentheses; and what a
/// closing parenthesis or a comma leaves on top is an open parenthesis.
pub proof fn lemma_leaving_keeps_opens(waiting: Seq<Seq<char>>, incoming: Seq<char>)
    ensures
        leaving(waiting, incoming) <= waiting.len(),
        open_count(waiting.take(waiting.len() - leaving(waiting, incoming))) == open_count(
            waiting,
        ),
        (incoming == ")"@ || incoming == ","@) && leaving(waiting, incoming) < waiting.len()
            ==> waiting[waiting.len() - leaving(waiting, incoming) - 1] == "("@,
    decreases waiting.len(),
{
    lemma_symbols();
    if waiting.len() > 0 && gives_way(waiting.last(), incoming) {
        let below = waiting.drop_last();
        lemma_leaving_keeps_opens(below, incoming);
        assert(waiting.take(waiting.len() - leaving(waiting, incoming)) =~= below.take(
            below.len() - leaving(below, incoming),
        ));
    } else {
        assert(waiting.take(waiting.len() as int) =~= waiting);
    }
}

/// Reading tokens keeps as many open parentheses waiting as are open in the
/// text, and fails exactly where a closing parenthesis finds none open.
pub proof fn lemma_feed_nesting(yard: Yard, tokens: Seq<Seq<char>>)
    ensures
        match feed(yard, tokens) {
            Ok(next) => nesting(open_count(yard.waiting), tokens) == Some(
                open_count(next.waiting),
            ),
            Err(e) => e == ErrorKind::UnbalancedParentheses && nesting(
                open_count(yard.waiting),
                tokens,
            ) is None,
        },
    decreases tokens.len(),
{
    lemma_symbols();
    if tokens.len() > 0 {
        let token = tokens.first();
        let waiting = yard.waiting;
        let count = leaving(waiting, token);
        let kept = waiting.take(waiting.len() - count);
        lemma_leaving_keeps_opens(waiting, token);
        if token == "("@ {
            assert(waiting.push(token).drop_last() =~= waiting);
        } else if token == ")"@ {
            if kept.len() > 0 {
                assert(kept.last() == "("@);
            }
        } else if token == ","@ {
        } else if is_operator_token(token) {
            assert(kept.push(token).drop_last() =~= kept);
        }
        match step(yard, token) {
            Ok(next) => {
                lemma_feed_nesting(next, tokens.drop_first());
            },
            Err(e) => {},
        }
    }
}

/// Compiling fails with `EmptyExpression` on no tokens, fails with
/// `UnbalancedParentheses` on tokens whose parentheses are not balanced, and
/// succeeds on all others.
pub proof fn theorem_compiles_iff_balanced(tokens: Seq<Seq<char>>)
    ensures
        to_postfix(tokens) == Err::<Seq<Seq<char>>, ErrorKind>(ErrorKind::EmptyExpression)
            <==> tokens.len() == 0,
        to_postfix(tokens) == Err::<Seq<Seq<char>>, ErrorKind>(
            ErrorKind::UnbalancedParentheses,
        ) <==> tokens.len() > 0 && !balanced(tokens),
        to_postfix(tokens) is Ok <==> tokens.len() > 0 && balanced(tokens),
{
    let start = Yard { output: Seq::empty(), waiting: Seq::empty() };
    lemma_feed_nesting(start, tokens);
    match feed(start, tokens) {
        Ok(yard) => {
            lemma_open_count_zero(yard.waiting);
        },
        Err(e) => {},
    }
}

} // verus!
