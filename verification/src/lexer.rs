//! Splitting a formula into raw text tokens.
//!
//! Parentheses and commas always stand alone as one-character tokens. Every
//! other token is a maximal run of characters that holds no white space, no
//! parenthesis and no comma.

use vstd::prelude::*;
use vstd::std_specs::iter::IteratorSpec;
use vstd::string::StringExecFns;
use vstd::string::StrSliceExecFns;

verus! {

/// The characters with the Unicode property `White_Space`.
pub open spec fn is_space(c: char) -> bool {
    let u = c as u32;
    ||| 0x09 <= u <= 0x0D
    ||| u == 0x20
    ||| u == 0x85
    ||| u == 0xA0
    ||| u == 0x1680
    ||| 0x2000 <= u <= 0x200A
    ||| u == 0x2028
    ||| u == 0x2029
    ||| u == 0x202F
    ||| u == 0x205F
    ||| u == 0x3000
}

/// The characters that form a token of their own wherever they stand.
pub open spec fn is_punctuation(c: char) -> bool {
    c == '(' || c == ')' || c == ','
}

/// The characters that words are made of.
pub open spec fn is_word_char(c: char) -> bool {
    !is_space(c) && !is_punctuation(c)
}

/// The first position at or after `from` that holds no word character, or the
/// length of `s` where there is none.
pub open spec fn word_end(s: Seq<char>, from: int) -> int
    decreases s.len() - from,
{
    if 0 <= from < s.len() && is_word_char(s[from]) {
        word_end(s, from + 1)
    } else {
        from
    }
}

/// `word_end` lies within the text, past word characters only, and at a
/// character that is none.
pub proof fn lemma_word_end(s: Seq<char>, from: int)
    requires
        0 <= from <= s.len(),
    ensures
        from <= word_end(s, from) <= s.len(),
        forall|k: int| from <= k < word_end(s, from) ==> is_word_char(#[trigger] s[k]),
        word_end(s, from) < s.len() ==> !is_word_char(s[word_end(s, from)]),
    decreases s.len() - from,
{
    if from < s.len() && is_word_char(s[from]) {
        lemma_word_end(s, from + 1);
    }
}

/// The tokens of `s` that begin at or after position `from`.
pub open spec fn tokens_from(s: Seq<char>, from: int) -> Seq<Seq<char>>
    decreases s.len() - from,
{
    if from < 0 || from >= s.len() {
        Seq::empty()
    } else if is_space(s[from]) {
        tokens_from(s, from + 1)
    } else if is_punctuation(s[from]) {
        seq![seq![s[from]]] + tokens_from(s, from + 1)
    } else {
        let end = word_end(s, from + 1);
        proof {
            lemma_word_end(s, from + 1);
        }
        seq![s.subrange(from, end)] + tokens_from(s, end)
    }
}

/// The tokens of a formula, in the order in which they are written.
pub open spec fn tokens_of(s: Seq<char>) -> Seq<Seq<char>> {
    tokens_from(s, 0)
}

/// Whether `c` is white space.
pub fn is_whitespace(c: char) -> (b: bool)
    ensures
        b == is_space(c),
{
    let u: u32 = c as u32;
    (0x09 <= u && u <= 0x0D) || u == 0x20 || u == 0x85 || u == 0xA0 || u == 0x1680 || (0x2000 <= u
        && u <= 0x200A) || u == 0x2028 || u == 0x2029 || u == 0x202F || u == 0x205F || u == 0x3000
}

/// Whether `c` is a parenthesis or a comma.
pub fn is_separator(c: char) -> (b: bool)
    ensures
        b == is_punctuation(c),
{
    c == '(' || c == ')' || c == ','
}

/// A word that ends where the next separator or white space begins is the
/// first token from its first character on.
pub proof fn lemma_word_token(s: Seq<char>, start: int, end: int)
    requires
        0 <= start < end <= s.len(),
        forall|k: int| start <= k < end ==> is_word_char(#[trigger] s[k]),
        end < s.len() ==> !is_word_char(s[end]),
    ensures
        tokens_from(s, start) == seq![s.subrange(start, end)] + tokens_from(s, end),
{
    lemma_word_end_is(s, start + 1, end);
}

/// `word_end` is the one position that ends a run of word characters.
pub proof fn lemma_word_end_is(s: Seq<char>, from: int, end: int)
    requires
        0 <= from <= end <= s.len(),
        forall|k: int| from <= k < end ==> is_word_char(#[trigger] s[k]),
        end < s.len() ==> !is_word_char(s[end]),
    ensures
        word_end(s, from) == end,
    decreases end - from,
{
    if from < end {
        lemma_word_end_is(s, from + 1, end);
    }
}

/// Splits a formula into its tokens.
pub fn tokenize(expr: &str) -> (tokens: Vec<String>)
    ensures
        tokens.deep_view() == tokens_of(expr@),
{
    let mut out: Vec<String> = Vec::new();
    let total: usize = expr.unicode_len();
    let mut chars = expr.chars();
    let mut pos: usize = 0;
    let mut start: usize = 0;
    assert(out.deep_view() =~= Seq::<Seq<char>>::empty());
    loop
        invariant
            total == expr@.len(),
            start <= pos <= total,
            chars.remaining() == expr@.skip(pos as int),
            tokens_of(expr@) == out.deep_view() + tokens_from(expr@, start as int),
            forall|k: int| start <= k < pos ==> is_word_char(#[trigger] expr@[k]),
        ensures
            pos == total,
        decreases total - pos,
    {
        let next = chars.next();
        match next {
            None => {
                break ;
            },
            Some(c) => {
                assert(c == expr@[pos as int]);
                if is_whitespace(c) || is_separator(c) {
                    if start < pos {
                        let word = expr.substring_char(start, pos);
                        proof {
                            lemma_word_token(expr@, start as int, pos as int);
                        }
                        push_token(&mut out, word);
                    }
                    if is_separator(c) {
                        let mark = expr.substring_char(pos, pos + 1);
                        assert(mark@ =~= seq![c]);
                        push_token(&mut out, mark);
                    }
                    start = pos + 1;
                }
                pos = pos + 1;
            },
        }
    }
    if start < pos {
        let word = expr.substring_char(start, pos);
        proof {
            lemma_word_token(expr@, start as int, pos as int);
        }
        push_token(&mut out, word);
    }
    out
}

/// Appends one token to a token list.
pub(crate) fn push_token(tokens: &mut Vec<String>, text: &str)
    ensures
        final(tokens).deep_view() == old(tokens).deep_view().push(text@),
{
    tokens.push(String::from_str(text));
    assert(tokens.deep_view() =~= old(tokens).deep_view().push(text@));
}

/// Whether two strings hold the same characters.
pub fn same_text(a: &str, b: &str) -> (same: bool)
    ensures
        same == (a@ == b@),
{
    let mut left = a.chars();
    let mut right = b.chars();
    let ghost mut seen: int = 0;
    loop
        invariant
            0 <= seen <= a@.len(),
            seen <= b@.len(),
            left.remaining() == a@.skip(seen),
            right.remaining() == b@.skip(seen),
            a@.take(seen) == b@.take(seen),
        decreases a@.len() - seen,
    {
        let x = left.next();
        let y = right.next();
        match (x, y) {
            (None, None) => {
                assert(a@ =~= a@.take(seen));
                assert(b@ =~= b@.take(seen));
                return true;
            },
            (Some(p), Some(q)) => {
                if p != q {
                    assert(a@[seen] != b@[seen]);
                    return false;
                }
                proof {
                    assert(a@.take(seen + 1) =~= a@.take(seen).push(p));
                    assert(b@.take(seen + 1) =~= b@.take(seen).push(q));
                    seen = seen + 1;
                }
            },
            _ => {
                assert(a@.len() != b@.len());
                return false;
            },
        }
    }
}

/// What a token looks like: a parenthesis or a comma alone, or a word of
/// one character or more.
pub open spec fn is_lexeme(token: Seq<char>) -> bool {
    ||| token.len() == 1 && is_punctuation(token[0])
    ||| token.len() > 0 && forall|i: int| 0 <= i < token.len() ==> is_word_char(#[trigger] token[i])
}

/// The tokens written one after the other, a space after each.
pub open spec fn spaced(tokens: Seq<Seq<char>>) -> Seq<char>
    decreases tokens.len(),
{
    if tokens.len() == 0 {
        Seq::empty()
    } else {
        tokens.first() + seq![' '] + spaced(tokens.drop_first())
    }
}

/// Where a word ends depends only on what follows its beginning.
pub proof fn lemma_word_end_suffix(s: Seq<char>, cut: int, from: int)
    requires
        0 <= cut <= from <= s.len(),
    ensures
        word_end(s, from) == cut + word_end(s.skip(cut), from - cut),
    decreases s.len() - from,
{
    if from < s.len() && is_word_char(s[from]) {
        lemma_word_end_suffix(s, cut, from + 1);
    }
}

/// The tokens from a position on are the tokens of the text from there on.
pub proof fn lemma_tokens_suffix(s: Seq<char>, cut: int, from: int)
    requires
        0 <= cut <= from <= s.len(),
    ensures
        tokens_from(s, from) == tokens_from(s.skip(cut), from - cut),
    decreases s.len() - from,
{
    let t = s.skip(cut);
    if from < s.len() {
        if is_space(s[from]) || is_punctuation(s[from]) {
            lemma_tokens_suffix(s, cut, from + 1);
        } else {
            let end = word_end(s, from + 1);
            lemma_word_end(s, from + 1);
            lemma_word_end_suffix(s, cut, from + 1);
            lemma_tokens_suffix(s, cut, end);
            assert(s.subrange(from, end) =~= t.subrange(from - cut, end - cut));
        }
    }
}

/// The tokens from a position on are lexemes.
pub proof fn lemma_tokens_from_are_lexemes(s: Seq<char>, from: int)
    requires
        0 <= from <= s.len(),
    ensures
        forall|i: int|
            0 <= i < tokens_from(s, from).len() ==> is_lexeme(#[trigger] tokens_from(s, from)[i]),
    decreases s.len() - from,
{
    if from < s.len() {
        if is_space(s[from]) {
            lemma_tokens_from_are_lexemes(s, from + 1);
            assert(tokens_from(s, from) == tokens_from(s, from + 1));
        } else if is_punctuation(s[from]) {
            lemma_tokens_from_are_lexemes(s, from + 1);
            let rest = tokens_from(s, from + 1);
            assert forall|i: int| 0 <= i < tokens_from(s, from).len() implies is_lexeme(
                #[trigger] tokens_from(s, from)[i],
            ) by {
                if i > 0 {
                    assert(tokens_from(s, from)[i] == rest[i - 1]);
                } else {
                    let mark = tokens_from(s, from)[0];
                    assert(mark == seq![s[from]]);
                    assert(mark.len() == 1 && mark[0] == s[from]);
                }
            }
        } else {
            let end = word_end(s, from + 1);
            lemma_word_end(s, from + 1);
            lemma_tokens_from_are_lexemes(s, end);
            let rest = tokens_from(s, end);
            assert forall|i: int| 0 <= i < tokens_from(s, from).len() implies is_lexeme(
                #[trigger] tokens_from(s, from)[i],
            ) by {
                if i > 0 {
                    assert(tokens_from(s, from)[i] == rest[i - 1]);
                } else {
                    let word = tokens_from(s, from)[0];
                    assert(word == s.subrange(from, end));
                    assert forall|k: int| 0 <= k < word.len() implies is_word_char(
                        #[trigger] word[k],
                    ) by {
                        assert(word[k] == s[from + k]);
                    }
                }
            }
        }
    } else {
        assert(tokens_from(s, from).len() == 0);
    }
}

/// Every token is a lexeme: it is not empty, it holds no white space, and a
/// parenthesis or a comma stands in it alone.
pub proof fn theorem_tokens_are_lexemes(s: Seq<char>)
    ensures
        forall|i: int| 0 <= i < tokens_of(s).len() ==> is_lexeme(#[trigger] tokens_of(s)[i]),
{
    lemma_tokens_from_are_lexemes(s, 0);
}

/// Whether a character is kept in a token.
pub open spec fn is_kept(c: char) -> bool {
    !is_space(c)
}

/// A run of characters that are all kept is kept whole.
pub proof fn lemma_kept_whole(run: Seq<char>)
    requires
        forall|k: int| 0 <= k < run.len() ==> is_kept(#[trigger] run[k]),
    ensures
        run.filter(|c: char| is_kept(c)) == run,
    decreases run.len(),
{
    reveal(Seq::filter);
    if run.len() > 0 {
        lemma_kept_whole(run.drop_last());
        assert(run.drop_last().push(run.last()) =~= run);
    }
}

/// The tokens from a position on, joined, are the text from there on without
/// its white space.
pub proof fn lemma_tokens_from_joined(s: Seq<char>, from: int)
    requires
        0 <= from <= s.len(),
    ensures
        tokens_from(s, from).flatten() == s.skip(from).filter(|c: char| is_kept(c)),
    decreases s.len() - from,
{
    let keep = |c: char| is_kept(c);
    reveal(Seq::filter);
    if from < s.len() {
        if is_space(s[from]) || is_punctuation(s[from]) {
            let head = seq![s[from]];
            lemma_tokens_from_joined(s, from + 1);
            assert(s.skip(from) =~= head + s.skip(from + 1));
            Seq::filter_distributes_over_add(head, s.skip(from + 1), keep);
            assert(head.drop_last() =~= Seq::<char>::empty());
            assert(head.drop_last().filter(keep) =~= Seq::<char>::empty());
            assert(head.last() == s[from]);
            assert(keep(head.last()) == is_kept(s[from]));
            if is_space(s[from]) {
                assert(head.filter(keep) =~= Seq::<char>::empty());
                assert(head.filter(keep) + s.skip(from + 1).filter(keep) =~= s.skip(
                    from + 1,
                ).filter(keep));
            } else {
                let tokens = tokens_from(s, from);
                assert(head.filter(keep) =~= head);
                assert(tokens.first() == head);
                assert(tokens.drop_first() =~= tokens_from(s, from + 1));
            }
        } else {
            let end = word_end(s, from + 1);
            lemma_word_end(s, from + 1);
            let word = s.subrange(from, end);
            let tokens = tokens_from(s, from);
            lemma_tokens_from_joined(s, end);
            assert(s.skip(from) =~= word + s.skip(end));
            Seq::filter_distributes_over_add(word, s.skip(end), keep);
            assert forall|k: int| 0 <= k < word.len() implies is_kept(#[trigger] word[k]) by {
                assert(word[k] == s[from + k]);
                assert(is_word_char(s[from + k]));
            }
            lemma_kept_whole(word);
            assert(tokens.first() == word);
            assert(tokens.drop_first() =~= tokens_from(s, end));
        }
    } else {
        assert(s.skip(from) =~= Seq::<char>::empty());
    }
}

/// Splitting loses white space and nothing else: the tokens, joined, are the
/// text without its white space.
pub proof fn theorem_tokens_keep_the_text(s: Seq<char>)
    ensures
        tokens_of(s).flatten() == s.filter(|c: char| is_kept(c)),
{
    lemma_tokens_from_joined(s, 0);
    assert(s.skip(0) =~= s);
}

/// Tokens that are written with a space after each are read back as they
/// were.
pub proof fn theorem_spaced_tokens_read_back(tokens: Seq<Seq<char>>)
    requires
        forall|i: int| 0 <= i < tokens.len() ==> is_lexeme(#[trigger] tokens[i]),
    ensures
        tokens_of(spaced(tokens)) == tokens,
    decreases tokens.len(),
{
    if tokens.len() > 0 {
        let first = tokens.first();
        let rest = tokens.drop_first();
        let text = spaced(tokens);
        let n = first.len() as int;
        assert(is_lexeme(tokens[0]));
        assert forall|i: int| 0 <= i < rest.len() implies is_lexeme(#[trigger] rest[i]) by {
            assert(rest[i] == tokens[i + 1]);
        }
        theorem_spaced_tokens_read_back(rest);
        assert(text.skip(n + 1) =~= spaced(rest));
        assert(text[n] == ' ');
        assert(text.subrange(0, n) =~= first);
        lemma_tokens_suffix(text, n + 1, n + 1);
        assert(tokens_from(text, n + 1) == rest);
        assert(tokens_from(text, n) == rest);
        if is_punctuation(first[0]) {
            assert(n == 1) by {
                if n > 1 {
                    assert(is_word_char(first[0]));
                }
            }
            assert(text[0] == first[0]);
            assert(seq![text[0]] =~= first);
        } else {
            assert forall|k: int| 0 <= k < n implies is_word_char(#[trigger] text[k]) by {
                assert(text[k] == first[k]);
            }
            lemma_word_token(text, 0, n);
        }
        assert(seq![first] + rest =~= tokens);
    } else {
        assert(tokens =~= Seq::<Seq<char>>::empty());
    }
}

} // verus!
