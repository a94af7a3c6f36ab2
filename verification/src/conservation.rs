//! What compiling keeps: every operand and every operator of the formula, as
//! often as the formula has it, and no parenthesis and no comma.

use vstd::prelude::*;
use crate::parentheses::lemma_leaving_keeps_opens;
use crate::rpn::feed;
use crate::rpn::gives_way;
use crate::rpn::is_operator_token;
use crate::rpn::leaving;
use crate::rpn::lemma_symbols;
use crate::rpn::step;
use crate::rpn::to_postfix;
use crate::rpn::unwound;
use crate::rpn::Yard;

verus! {

/// Whether `token` is a parenthesis or a comma.
pub open spec fn is_mark(token: Seq<char>) -> bool {
    token == "("@ || token == ")"@ || token == ","@
}

/// How often `token` occurs in `tokens`.
pub open spec fn occurrences(tokens: Seq<Seq<char>>, token: Seq<char>) -> nat
    decreases tokens.len(),
{
    if tokens.len() == 0 {
        0
    } else if tokens.last() == token {
        occurrences(tokens.drop_last(), token) + 1
    } else {
        occurrences(tokens.drop_last(), token)
    }
}

/// Occurrences add up over concatenation.
pub proof fn lemma_occurrences_concat(head: Seq<Seq<char>>, tail: Seq<Seq<char>>, token: Seq<char>)
    ensures
        occurrences(head + tail, token) == occurrences(head, token) + occurrences(tail, token),
    decreases tail.len(),
{
    if tail.len() == 0 {
        assert(head + tail =~= head);
    } else {
        assert((head + tail).last() == tail.last());
        assert((head + tail).drop_last() =~= head + tail.drop_last());
        lemma_occurrences_concat(head, tail.drop_last(), token);
    }
}

/// One token occurs once in itself, and no other token occurs in it.
pub proof fn lemma_occurrences_one(only: Seq<char>, token: Seq<char>)
    ensures
        occurrences(seq![only], token) == if only == token {
            1nat
        } else {
            0nat
        },
{
    reveal_with_fuel(occurrences, 2);
    assert(seq![only].drop_last() =~= Seq::<Seq<char>>::empty());
    assert(seq![only].last() == only);
}

/// Reversing keeps the occurrences.
pub proof fn lemma_occurrences_reverse(tokens: Seq<Seq<char>>, token: Seq<char>)
    ensures
        occurrences(tokens.reverse(), token) == occurrences(tokens, token),
    decreases tokens.len(),
{
    if tokens.len() > 0 {
        let last = tokens.last();
        assert(tokens.reverse() =~= seq![last] + tokens.drop_last().reverse());
        lemma_occurrences_concat(seq![last], tokens.drop_last().reverse(), token);
        lemma_occurrences_one(last, token);
        lemma_occurrences_reverse(tokens.drop_last(), token);
    } else {
        assert(tokens.reverse() =~= tokens);
    }
}

/// A token that does not occur is not contained, and the other way round.
pub proof fn lemma_occurrences_zero(tokens: Seq<Seq<char>>, token: Seq<char>)
    ensures
        occurrences(tokens, token) == 0 <==> !tokens.contains(token),
    decreases tokens.len(),
{
    if tokens.len() > 0 {
        lemma_occurrences_zero(tokens.drop_last(), token);
        if tokens.last() == token {
            assert(tokens[tokens.len() - 1] == token);
        } else {
            if tokens.contains(token) {
                let k = choose|k: int| 0 <= k < tokens.len() && tokens[k] == token;
                assert(tokens.drop_last()[k] == token);
            }
            if tokens.drop_last().contains(token) {
                let k = choose|k: int|
                    0 <= k < tokens.drop_last().len() && tokens.drop_last()[k] == token;
                assert(tokens[k] == token);
            }
        }
    }
}

/// The entries that leave the stack and the entries that stay are together
/// the entries that waited, and no open parenthesis leaves.
pub proof fn lemma_unwinding_keeps(waiting: Seq<Seq<char>>, incoming: Seq<char>, token: Seq<char>)
    ensures
        leaving(waiting, incoming) <= waiting.len(),
        occurrences(waiting.take(waiting.len() - leaving(waiting, incoming)), token) + occurrences(
            unwound(waiting, leaving(waiting, incoming)),
            token,
        ) == occurrences(waiting, token),
        occurrences(unwound(waiting, leaving(waiting, incoming)), "("@) == 0,
    decreases waiting.len(),
{
    lemma_symbols();
    let count = leaving(waiting, incoming);
    if waiting.len() > 0 && gives_way(waiting.last(), incoming) {
        let below = waiting.drop_last();
        let top = waiting.last();
        lemma_unwinding_keeps(below, incoming, token);
        let fewer = leaving(below, incoming);
        assert(waiting.take(waiting.len() - count) =~= below.take(below.len() - fewer));
        assert(unwound(waiting, count) =~= seq![top] + unwound(below, fewer));
        lemma_occurrences_concat(seq![top], unwound(below, fewer), token);
        lemma_occurrences_concat(seq![top], unwound(below, fewer), "("@);
        lemma_occurrences_one(top, token);
        lemma_occurrences_one(top, "("@);
    } else {
        assert(waiting.take(waiting.len() as int) =~= waiting);
        assert(unwound(waiting, 0) =~= Seq::<Seq<char>>::empty());
    }
}

/// How often `token` occurs in a state of the compiler, handed out or waiting.
pub open spec fn held(yard: Yard, token: Seq<char>) -> nat {
    occurrences(yard.output, token) + occurrences(yard.waiting, token)
}

/// One step takes in the token it reads, unless that is a closing parenthesis
/// or a comma, gives up one open parenthesis at a closing one, and hands out
/// no open parenthesis.
pub proof fn lemma_step_keeps(yard: Yard, incoming: Seq<char>, token: Seq<char>)
    requires
        step(yard, incoming) is Ok,
    ensures
        token != "("@ ==> held(step(yard, incoming)->Ok_0, token) == held(yard, token) + if incoming
            == token && incoming != ")"@ && incoming != ","@ {
            1nat
        } else {
            0nat
        },
        occurrences(step(yard, incoming)->Ok_0.output, "("@) == occurrences(yard.output, "("@),
{
    lemma_symbols();
    let next = step(yard, incoming)->Ok_0;
    let count = leaving(yard.waiting, incoming);
    let kept = yard.waiting.take(yard.waiting.len() - count);
    let sent = unwound(yard.waiting, count);
    lemma_unwinding_keeps(yard.waiting, incoming, token);
    lemma_occurrences_concat(yard.output, sent, token);
    lemma_occurrences_concat(yard.output, sent, "("@);
    if incoming == "("@ {
        assert(yard.waiting.push(incoming) =~= yard.waiting + seq![incoming]);
        lemma_occurrences_concat(yard.waiting, seq![incoming], token);
        lemma_occurrences_one(incoming, token);
    } else if incoming == ")"@ {
        lemma_leaving_keeps_opens(yard.waiting, incoming);
        assert(kept.last() == "("@);
        assert(kept =~= kept.drop_last() + seq![kept.last()]);
        lemma_occurrences_concat(kept.drop_last(), seq![kept.last()], token);
        lemma_occurrences_one(kept.last(), token);
    } else if incoming == ","@ {
    } else if is_operator_token(incoming) {
        assert(kept.push(incoming) =~= kept + seq![incoming]);
        lemma_occurrences_concat(kept, seq![incoming], token);
        lemma_occurrences_one(incoming, token);
    } else {
        assert(yard.output.push(incoming) =~= yard.output + seq![incoming]);
        lemma_occurrences_concat(yard.output, seq![incoming], token);
        lemma_occurrences_concat(yard.output, seq![incoming], "("@);
        lemma_occurrences_one(incoming, token);
        lemma_occurrences_one(incoming, "("@);
    }
}

/// How often `token` is taken in from `tokens`: as often as it occurs, unless
/// it is a parenthesis or a comma.
pub open spec fn taken(tokens: Seq<Seq<char>>, token: Seq<char>) -> nat {
    if is_mark(token) {
        0
    } else {
        occurrences(tokens, token)
    }
}

/// Reading tokens takes each of them in once, but for the parentheses and
/// the commas.
pub proof fn lemma_feed_keeps(yard: Yard, tokens: Seq<Seq<char>>, token: Seq<char>)
    requires
        feed(yard, tokens) is Ok,
    ensures
        token != "("@ ==> held(feed(yard, tokens)->Ok_0, token) == held(yard, token) + taken(
            tokens,
            token,
        ),
        occurrences(feed(yard, tokens)->Ok_0.output, "("@) == occurrences(yard.output, "("@),
    decreases tokens.len(),
{
    lemma_symbols();
    if tokens.len() > 0 {
        let first = tokens.first();
        let rest = tokens.drop_first();
        let next = step(yard, first)->Ok_0;
        lemma_step_keeps(yard, first, token);
        lemma_feed_keeps(next, rest, token);
        assert(tokens =~= seq![first] + rest);
        lemma_occurrences_concat(seq![first], rest, token);
        lemma_occurrences_one(first, token);
    }
}

/// Compiling rearranges and drops nothing but marks: a token that is no
/// parenthesis and no comma occurs in the postfix order as often as in the
/// formula, and no parenthesis and no comma occurs in it.
pub proof fn theorem_postfix_keeps_the_tokens(tokens: Seq<Seq<char>>, token: Seq<char>)
    requires
        to_postfix(tokens) is Ok,
    ensures
        occurrences(to_postfix(tokens)->Ok_0, token) == taken(tokens, token),
{
    lemma_symbols();
    let start = Yard { output: Seq::empty(), waiting: Seq::empty() };
    let end = feed(start, tokens)->Ok_0;
    lemma_feed_keeps(start, tokens, token);
    lemma_occurrences_concat(end.output, end.waiting.reverse(), token);
    lemma_occurrences_reverse(end.waiting, token);
    lemma_occurrences_zero(end.waiting, "("@);
}

} // verus!
