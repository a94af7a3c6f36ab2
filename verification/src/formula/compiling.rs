//! The compiler hands out the postfix order of every well-formed formula.

use vstd::prelude::*;
use crate::error::ErrorKind;
use crate::formula::Formula;
use crate::formula::level;
use crate::formula::postfix;
use crate::formula::well_formed;
use crate::formula::written;
use crate::rpn::feed;
use crate::rpn::gives_way;
use crate::rpn::is_operator_token;
use crate::rpn::leaving;
use crate::rpn::lemma_symbols;
use crate::rpn::precedence_of;
use crate::rpn::step;
use crate::rpn::to_postfix;
use crate::rpn::unwound;
use crate::rpn::Yard;

verus! {

/// The operators of a formula that still wait on the compiler's stack when
/// the formula has been read, the most recent last.
pub open spec fn pending(formula: Formula) -> Seq<Seq<char>>
    decreases formula,
{
    match formula {
        Formula::Operand { .. } => Seq::empty(),
        Formula::Infix { symbol, left, right } => seq![symbol] + pending(*right),
        Formula::Group { .. } => Seq::empty(),
        Formula::Function1 { name, .. } => seq![name],
        Formula::Function2 { name, .. } => seq![name],
    }
}

/// The part of a formula's postfix order that the compiler has handed out
/// when the formula has been read.
pub open spec fn emitted(formula: Formula) -> Seq<Seq<char>>
    decreases formula,
{
    match formula {
        Formula::Operand { token } => seq![token],
        Formula::Infix { symbol, left, right } => postfix(*left) + emitted(*right),
        Formula::Group { inner } => postfix(*inner),
        Formula::Function1 { name, argument } => postfix(*argument),
        Formula::Function2 { name, first, second } => postfix(*first) + postfix(*second),
    }
}

/// Whether a formula of the given level can be read on top of `waiting`
/// without disturbing it: the top of the stack, if there is one, is an open
/// parenthesis or an operator that binds less tightly.
pub open spec fn clear(waiting: Seq<Seq<char>>, level: int) -> bool {
    waiting.len() > 0 ==> waiting.last() == "("@ || (is_operator_token(waiting.last())
        && precedence_of(waiting.last()) < level)
}

/// The waiting operators of a well-formed formula bind at least as tightly as
/// the formula itself, and the postfix order is what has been handed out
/// followed by the waiting operators, the most recent first.
pub proof fn lemma_pending(formula: Formula)
    requires
        well_formed(formula),
    ensures
        forall|i: int|
            0 <= i < pending(formula).len() ==> is_operator_token(#[trigger] pending(formula)[i])
                && precedence_of(pending(formula)[i]) >= level(formula),
        emitted(formula) + pending(formula).reverse() == postfix(formula),
        1 <= level(formula) <= 4,
    decreases formula,
{
    lemma_symbols();
    match formula {
        Formula::Operand { token } => {
            assert(emitted(formula) + pending(formula).reverse() =~= postfix(formula));
        },
        Formula::Infix { symbol, left, right } => {
            lemma_pending(*left);
            lemma_pending(*right);
            assert((seq![symbol] + pending(*right)).reverse() =~= pending(*right).reverse()
                + seq![symbol]);
            assert(emitted(formula) + pending(formula).reverse() =~= postfix(formula));
            assert forall|i: int| 0 <= i < pending(formula).len() implies is_operator_token(
                #[trigger] pending(formula)[i],
            ) && precedence_of(pending(formula)[i]) >= level(formula) by {
                if i > 0 {
                    assert(pending(formula)[i] == pending(*right)[i - 1]);
                }
            }
        },
        Formula::Group { inner } => {
            lemma_pending(*inner);
            assert(emitted(formula) + pending(formula).reverse() =~= postfix(formula));
        },
        Formula::Function1 { name, argument } => {
            assert(seq![name].reverse() =~= seq![name]);
            assert(emitted(formula) + pending(formula).reverse() =~= postfix(formula));
        },
        Formula::Function2 { name, first, second } => {
            assert(seq![name].reverse() =~= seq![name]);
            assert(emitted(formula) + pending(formula).reverse() =~= postfix(formula));
        },
    }
}

/// Reading `head` and then `tail` is reading `head + tail`.
pub proof fn lemma_feed_concat(yard: Yard, head: Seq<Seq<char>>, tail: Seq<Seq<char>>)
    ensures
        feed(yard, head + tail) == match feed(yard, head) {
            Ok(next) => feed(next, tail),
            Err(e) => Err(e),
        },
    decreases head.len(),
{
    if head.len() == 0 {
        assert(head + tail =~= tail);
    } else {
        assert((head + tail).first() == head.first());
        assert((head + tail).drop_first() =~= head.drop_first() + tail);
        match step(yard, head.first()) {
            Ok(next) => {
                lemma_feed_concat(next, head.drop_first(), tail);
            },
            Err(e) => {},
        }
    }
}

/// Reading one token is one step.
pub proof fn lemma_feed_one(yard: Yard, token: Seq<char>)
    ensures
        feed(yard, seq![token]) == step(yard, token),
{
    let tokens = seq![token];
    assert(tokens.first() == token);
    assert(tokens.drop_first() =~= Seq::<Seq<char>>::empty());
    match step(yard, token) {
        Ok(next) => {
            assert(feed(next, tokens.drop_first()) == Ok::<Yard, ErrorKind>(next));
        },
        Err(e) => {},
    }
}

/// Where everything in `above` gives way to `incoming` and the top of `base`
/// does not, exactly `above` leaves the stack `base + above`.
pub proof fn lemma_leaving(base: Seq<Seq<char>>, above: Seq<Seq<char>>, incoming: Seq<char>)
    requires
        forall|i: int| 0 <= i < above.len() ==> gives_way(#[trigger] above[i], incoming),
        base.len() > 0 ==> !gives_way(base.last(), incoming),
    ensures
        leaving(base + above, incoming) == above.len(),
        (base + above).take((base + above).len() - above.len()) == base,
        unwound(base + above, above.len()) == above.reverse(),
    decreases above.len(),
{
    let all = base + above;
    if above.len() == 0 {
        assert(all =~= base);
    } else {
        assert(all.last() == above.last());
        assert(all.drop_last() =~= base + above.drop_last());
        lemma_leaving(base, above.drop_last(), incoming);
    }
    assert(all.take(all.len() - above.len()) =~= base);
    assert(unwound(all, above.len()) =~= above.reverse());
}

/// Reading a well-formed formula on top of a stack that it does not disturb
/// hands out `emitted` and leaves `pending` on the stack.
pub proof fn lemma_feed_formula(formula: Formula, yard: Yard)
    requires
        well_formed(formula),
        clear(yard.waiting, level(formula)),
    ensures
        feed(yard, written(formula)) == Ok::<Yard, ErrorKind>(
            Yard {
                output: yard.output + emitted(formula),
                waiting: yard.waiting + pending(formula),
            },
        ),
    decreases formula,
{
    lemma_symbols();
    lemma_pending(formula);
    let out = yard.output;
    let stack = yard.waiting;
    let none = Seq::<Seq<char>>::empty();
    match formula {
        Formula::Operand { token } => {
            lemma_feed_one(yard, token);
            assert(out.push(token) =~= out + emitted(formula));
            assert(stack =~= stack + pending(formula));
        },
        Formula::Infix { symbol, left, right } => {
            lemma_pending(*left);
            lemma_pending(*right);
            let y1 = Yard { output: out + emitted(*left), waiting: stack + pending(*left) };
            let y2 = Yard { output: out + postfix(*left), waiting: stack.push(symbol) };
            let y3 = Yard {
                output: y2.output + emitted(*right),
                waiting: y2.waiting + pending(*right),
            };
            lemma_feed_formula(*left, yard);
            assert(step(y1, symbol) == Ok::<Yard, ErrorKind>(y2)) by {
                lemma_leaving(stack, pending(*left), symbol);
                assert(out + emitted(*left) + pending(*left).reverse() =~= out + postfix(*left));
            }
            lemma_feed_formula(*right, y2);
            lemma_feed_one(y1, symbol);
            lemma_feed_concat(yard, written(*left), seq![symbol]);
            lemma_feed_concat(yard, written(*left) + seq![symbol], written(*right));
            assert(y3.output =~= out + emitted(formula));
            assert(y3.waiting =~= stack + pending(formula));
        },
        Formula::Group { inner } => {
            lemma_pending(*inner);
            let y1 = Yard { output: out, waiting: stack.push("("@) };
            let y2 = Yard {
                output: out + emitted(*inner),
                waiting: y1.waiting + pending(*inner),
            };
            let y3 = Yard { output: out + postfix(*inner), waiting: stack };
            lemma_feed_one(yard, "("@);
            lemma_feed_formula(*inner, y1);
            assert(step(y2, ")"@) == Ok::<Yard, ErrorKind>(y3)) by {
                lemma_leaving(y1.waiting, pending(*inner), ")"@);
                assert(y1.waiting.drop_last() =~= stack);
                assert(out + emitted(*inner) + pending(*inner).reverse() =~= out + postfix(
                    *inner,
                ));
            }
            lemma_feed_one(y2, ")"@);
            lemma_feed_concat(yard, seq!["("@], written(*inner));
            lemma_feed_concat(yard, seq!["("@] + written(*inner), seq![")"@]);
            assert(y3.output =~= out + emitted(formula));
            assert(y3.waiting =~= stack + pending(formula));
        },
        Formula::Function1 { name, argument } => {
            lemma_pending(*argument);
            let y0 = Yard { output: out, waiting: stack.push(name) };
            let y1 = Yard { output: out, waiting: y0.waiting.push("("@) };
            let y2 = Yard {
                output: out + emitted(*argument),
                waiting: y1.waiting + pending(*argument),
            };
            let y3 = Yard { output: out + postfix(*argument), waiting: y0.waiting };
            assert(step(yard, name) == Ok::<Yard, ErrorKind>(y0)) by {
                lemma_leaving(stack, none, name);
                assert(stack + none =~= stack);
                assert(out + none.reverse() =~= out);
            }
            lemma_feed_formula(*argument, y1);
            assert(step(y2, ")"@) == Ok::<Yard, ErrorKind>(y3)) by {
                lemma_leaving(y1.waiting, pending(*argument), ")"@);
                assert(y1.waiting.drop_last() =~= y0.waiting);
                assert(out + emitted(*argument) + pending(*argument).reverse() =~= out + postfix(
                    *argument,
                ));
            }
            lemma_feed_one(yard, name);
            lemma_feed_one(y0, "("@);
            lemma_feed_one(y2, ")"@);
            assert(seq![name, "("@] =~= seq![name] + seq!["("@]);
            lemma_feed_concat(yard, seq![name], seq!["("@]);
            lemma_feed_concat(yard, seq![name, "("@], written(*argument));
            lemma_feed_concat(yard, seq![name, "("@] + written(*argument), seq![")"@]);
            assert(y3.output =~= out + emitted(formula));
            assert(y3.waiting =~= stack + pending(formula));
        },
        Formula::Function2 { name, first, second } => {
            lemma_pending(*first);
            lemma_pending(*second);
            let y0 = Yard { output: out, waiting: stack.push(name) };
            let y1 = Yard { output: out, waiting: y0.waiting.push("("@) };
            let y2 = Yard {
                output: out + emitted(*first),
                waiting: y1.waiting + pending(*first),
            };
            let y3 = Yard { output: out + postfix(*first), waiting: y1.waiting };
            let y4 = Yard {
                output: y3.output + emitted(*second),
                waiting: y1.waiting + pending(*second),
            };
            let y5 = Yard {
                output: out + postfix(*first) + postfix(*second),
                waiting: y0.waiting,
            };
            assert(step(yard, name) == Ok::<Yard, ErrorKind>(y0)) by {
                lemma_leaving(stack, none, name);
                assert(stack + none =~= stack);
                assert(out + none.reverse() =~= out);
            }
            lemma_feed_formula(*first, y1);
            assert(step(y2, ","@) == Ok::<Yard, ErrorKind>(y3)) by {
                lemma_leaving(y1.waiting, pending(*first), ","@);
                assert(out + emitted(*first) + pending(*first).reverse() =~= out + postfix(
                    *first,
                ));
            }
            lemma_feed_formula(*second, y3);
            assert(step(y4, ")"@) == Ok::<Yard, ErrorKind>(y5)) by {
                lemma_leaving(y1.waiting, pending(*second), ")"@);
                assert(y1.waiting.drop_last() =~= y0.waiting);
                assert(y3.output + emitted(*second) + pending(*second).reverse() =~= out
                    + postfix(*first) + postfix(*second));
            }
            lemma_feed_one(yard, name);
            lemma_feed_one(y0, "("@);
            lemma_feed_one(y2, ","@);
            lemma_feed_one(y4, ")"@);
            assert(seq![name, "("@] =~= seq![name] + seq!["("@]);
            lemma_feed_concat(yard, seq![name], seq!["("@]);
            lemma_feed_concat(yard, seq![name, "("@], written(*first));
            lemma_feed_concat(yard, seq![name, "("@] + written(*first), seq![","@]);
            lemma_feed_concat(
                yard,
                seq![name, "("@] + written(*first) + seq![","@],
                written(*second),
            );
            lemma_feed_concat(
                yard,
                seq![name, "("@] + written(*first) + seq![","@] + written(*second),
                seq![")"@],
            );
            assert(y5.output =~= out + emitted(formula));
            assert(y5.waiting =~= stack + pending(formula));
        },
    }
}

/// The compiler hands out the postfix order of every well-formed formula.
pub proof fn theorem_compiles_to_postfix(formula: Formula)
    requires
        well_formed(formula),
    ensures
        to_postfix(written(formula)) == Ok::<Seq<Seq<char>>, ErrorKind>(postfix(formula)),
{
    lemma_symbols();
    lemma_pending(formula);
    let start = Yard { output: Seq::empty(), waiting: Seq::empty() };
    lemma_feed_formula(formula, start);
    lemma_written_nonempty(formula);
    let end = Yard { output: start.output + emitted(formula), waiting: start.waiting + pending(formula) };
    assert(end.waiting =~= pending(formula));
    assert(end.output =~= emitted(formula));
    assert(!end.waiting.contains("("@)) by {
        if end.waiting.contains("("@) {
            let k = choose|k: int| 0 <= k < end.waiting.len() && end.waiting[k] == "("@;
            assert(is_operator_token(pending(formula)[k]));
        }
    }
}

/// A formula is written with at least one token.
pub proof fn lemma_written_nonempty(formula: Formula)
    ensures
        written(formula).len() > 0,
{
}

} // verus!
