use kkexpr::error::ErrorKind;
use kkexpr::error::ExprError;
use kkexpr::lexer::tokenize;
use kkexpr::rpn::parse_expression;

fn words(tokens: &[&str]) -> Vec<String> {
    tokens.iter().map(|t| t.to_string()).collect()
}

#[test]
fn tokenize_isolates_parentheses() {
    assert_eq!(tokenize("MA(close 3)"), words(&["MA", "(", "close", "3", ")"]));
    assert_eq!(tokenize("(a+b)"), words(&["(", "a+b", ")"]));
    assert_eq!(tokenize("((x))"), words(&["(", "(", "x", ")", ")"]));
    assert_eq!(tokenize(")("), words(&[")", "("]));
}

#[test]
fn tokenize_isolates_commas() {
    assert_eq!(tokenize("MA(close, 3)"), words(&["MA", "(", "close", ",", "3", ")"]));
    assert_eq!(tokenize("a,b"), words(&["a", ",", "b"]));
    assert_eq!(tokenize(",,"), words(&[",", ","]));
}

#[test]
fn tokenize_splits_at_white_space() {
    assert_eq!(tokenize("  a   +\tb\n"), words(&["a", "+", "b"]));
    assert_eq!(tokenize("a\u{00A0}b\u{3000}c\u{2003}d"), words(&["a", "b", "c", "d"]));
    assert_eq!(tokenize("a+b"), words(&["a+b"]));
}

#[test]
fn tokenize_of_nothing_is_nothing() {
    assert_eq!(tokenize(""), words(&[]));
    assert_eq!(tokenize(" \t\r\n"), words(&[]));
}

#[test]
fn tokenize_keeps_other_characters() {
    assert_eq!(tokenize("größe * 2"), words(&["größe", "*", "2"]));
    assert_eq!(tokenize("a.b [c] {d}"), words(&["a.b", "[c]", "{d}"]));
}

#[test]
fn compile_respects_precedence() {
    assert_eq!(parse_expression("a + b * c"), Ok(words(&["a", "b", "c", "*", "+"])));
    assert_eq!(parse_expression("a * b + c"), Ok(words(&["a", "b", "*", "c", "+"])));
    assert_eq!(parse_expression("( a + b ) * c"), Ok(words(&["a", "b", "+", "c", "*"])));
}

#[test]
fn compile_associates_to_the_left() {
    assert_eq!(parse_expression("a - b - c"), Ok(words(&["a", "b", "-", "c", "-"])));
    assert_eq!(parse_expression("a / b * c"), Ok(words(&["a", "b", "/", "c", "*"])));
    assert_eq!(parse_expression("a - b + c"), Ok(words(&["a", "b", "-", "c", "+"])));
}

#[test]
fn compile_places_functions_after_their_arguments() {
    assert_eq!(parse_expression("MA(close, 3)"), Ok(words(&["close", "3", "MA"])));
    assert_eq!(parse_expression("RANK(close)"), Ok(words(&["close", "RANK"])));
    assert_eq!(parse_expression("STD(a + b, 5)"), Ok(words(&["a", "b", "+", "5", "STD"])));
    assert_eq!(
        parse_expression("MA(RANK(close), 3)"),
        Ok(words(&["close", "RANK", "3", "MA"]))
    );
    assert_eq!(
        parse_expression("1 + MA(close, 3) * 2"),
        Ok(words(&["1", "close", "3", "MA", "2", "*", "+"]))
    );
}

#[test]
fn compile_emits_no_commas_and_no_parentheses() {
    let postfix = parse_expression("MA((a + b) * c, (3))").unwrap();
    assert_eq!(postfix, words(&["a", "b", "+", "c", "*", "3", "MA"]));
}

#[test]
fn compile_reads_a_comma_outside_parentheses_as_a_break() {
    assert_eq!(parse_expression("a + b , c"), Ok(words(&["a", "b", "+", "c"])));
}

#[test]
fn compile_rejects_empty_and_unbalanced() {
    assert_eq!(parse_expression(""), Err(ExprError::of(ErrorKind::EmptyExpression)));
    assert_eq!(parse_expression("   "), Err(ExprError::of(ErrorKind::EmptyExpression)));
    assert_eq!(parse_expression("MA(close, 3"), Err(ExprError::of(ErrorKind::UnbalancedParentheses)));
    assert_eq!(parse_expression("a + b )"), Err(ExprError::of(ErrorKind::UnbalancedParentheses)));
    assert_eq!(parse_expression("("), Err(ExprError::of(ErrorKind::UnbalancedParentheses)));
    assert_eq!(parse_expression(")"), Err(ExprError::of(ErrorKind::UnbalancedParentheses)));
    assert_eq!(parse_expression("( a ) )"), Err(ExprError::of(ErrorKind::UnbalancedParentheses)));
    assert_eq!(parse_expression("( ( a )"), Err(ExprError::of(ErrorKind::UnbalancedParentheses)));
}

#[test]
fn compile_accepts_what_it_cannot_evaluate() {
    assert_eq!(parse_expression("a b"), Ok(words(&["a", "b"])));
    assert_eq!(parse_expression("+"), Ok(words(&["+"])));
    assert_eq!(parse_expression("( )"), Ok(words(&[])));
}

#[test]
fn compiling_twice_gives_the_same_postfix() {
    for formula in ["a + b * c", "MA(close, 3) / STD(close, 3)", "((", "", "RANK(x) - 1"] {
        assert_eq!(parse_expression(formula), parse_expression(formula));
    }
}

const FORMULAS: [&str; 12] = [
    "a + b * c",
    "( a + b ) * c",
    "MA(close, 3) / STD(close, 3)",
    "MA(RANK(close) - 1, 2)",
    "a , b",
    "+ + +",
    "RANK RANK",
    "( ( a ) )",
    " x ",
    "a*b",
    "1 - 2 - 3 - 4",
    "MA ( a * ( b + c ) , 2 ) - d / e",
];

#[test]
fn tokens_joined_are_the_text_without_white_space() {
    for formula in FORMULAS.iter().chain(["", "  ", "a\u{2003}b", "((", ") , ("].iter()) {
        let joined: String = tokenize(formula).concat();
        let kept: String = formula.chars().filter(|c| !c.is_whitespace()).collect();
        assert_eq!(joined, kept);
    }
}

#[test]
fn tokens_are_never_empty_and_hold_no_white_space() {
    for formula in FORMULAS.iter().chain(["", "  ", "a\u{2003}b", "((", ") , ("].iter()) {
        for token in tokenize(formula) {
            assert!(!token.is_empty());
            assert!(!token.chars().any(|c| c.is_whitespace()));
            if token.chars().any(|c| c == '(' || c == ')' || c == ',') {
                assert_eq!(token.chars().count(), 1);
            }
        }
    }
}

#[test]
fn tokens_written_with_spaces_are_read_back() {
    for formula in FORMULAS {
        let tokens = tokenize(formula);
        let spaced: String = tokens.iter().map(|t| format!("{} ", t)).collect();
        assert_eq!(tokenize(&spaced), tokens);
    }
}

#[test]
fn postfix_holds_the_operands_and_operators_of_the_formula() {
    for formula in FORMULAS {
        let mut expected: Vec<String> = tokenize(formula)
            .into_iter()
            .filter(|t| t != "(" && t != ")" && t != ",")
            .collect();
        let mut postfix = parse_expression(formula).unwrap();
        expected.sort();
        postfix.sort();
        assert_eq!(postfix, expected);
    }
}

fn balanced(tokens: &[String]) -> bool {
    let mut depth = 0usize;
    for token in tokens {
        if token == "(" {
            depth += 1;
        } else if token == ")" {
            if depth == 0 {
                return false;
            }
            depth -= 1;
        }
    }
    depth == 0
}

#[test]
fn compiling_succeeds_exactly_on_balanced_formulas() {
    let pieces = ["(", ")", "a", "+", ","];
    for first in pieces {
        for second in pieces {
            for third in pieces {
                for fourth in pieces {
                    let formula = format!("{} {} {} {}", first, second, third, fourth);
                    let tokens = tokenize(&formula);
                    match parse_expression(&formula) {
                        Ok(_) => assert!(balanced(&tokens)),
                        Err(e) => {
                            assert_eq!(e, ExprError::of(ErrorKind::UnbalancedParentheses));
                            assert!(!balanced(&tokens));
                        }
                    }
                }
            }
        }
    }
}
