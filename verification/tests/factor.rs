use kkexpr::error::ErrorKind;
use kkexpr::factor::Factor;
use kkexpr::ExprEngine;
use polars::prelude::Column;
use polars::prelude::DataFrame;
use polars::prelude::NamedFrom;
use polars::prelude::Series;

fn create_test_df() -> DataFrame {
    DataFrame::new_infer_height(vec![
        Column::new("close".into(), &[100.0, 101.0, 99.0, 102.0, 98.0]),
        Column::new("volume".into(), &[1000.0, 2000.0, 1500.0, 3000.0, 1200.0]),
    ])
    .unwrap()
}

fn abc() -> DataFrame {
    DataFrame::new_infer_height(vec![
        Column::new("a".into(), &[1.0, 1.0]),
        Column::new("b".into(), &[2.0, 2.0]),
        Column::new("c".into(), &[3.0, 3.0]),
    ])
    .unwrap()
}

fn cells(column: &Series) -> Vec<Option<f64>> {
    let values = column.f64().unwrap();
    (0..values.len()).map(|i| values.get(i)).collect()
}

fn numbers(column: &Series) -> Vec<f64> {
    cells(column).into_iter().map(|cell| cell.unwrap()).collect()
}

#[test]
fn test_simple_arithmetic() {
    let df = create_test_df();
    let factor = Factor::new("close + 1");
    let result = factor.compute(&df).unwrap();

    let expected = df.column("close").unwrap() + 1.0;
    assert_eq!(result, *expected.as_materialized_series());
}

#[test]
fn test_moving_average() {
    let df = create_test_df();
    let factor = Factor::new("MA(close, 3)");
    let result = factor.compute(&df).unwrap();

    // First two values will be null due to window size
    assert!(result.get(0).unwrap().is_null());
    assert!(result.get(1).unwrap().is_null());

    // Check the rest
    let expected = vec![100.0, 100.67, 99.67];
    for (i, &exp) in expected.iter().enumerate() {
        let val = result.get(i + 2).unwrap().try_extract::<f64>().unwrap();
        assert!((val - exp).abs() < 0.01);
    }
}

#[test]
fn end_to_end_close_plus_one() {
    let result = Factor::new("close + 1").compute(&create_test_df()).unwrap();
    assert_eq!(numbers(&result), vec![101.0, 102.0, 100.0, 103.0, 99.0]);
}

#[test]
fn multiplication_binds_tighter_than_addition() {
    let df = abc();
    assert_eq!(numbers(&Factor::new("a + b * c").compute(&df).unwrap()), vec![7.0, 7.0]);
    assert_eq!(numbers(&Factor::new("a * b + c").compute(&df).unwrap()), vec![5.0, 5.0]);
}

#[test]
fn parentheses_change_the_grouping() {
    let df = abc();
    assert_eq!(numbers(&Factor::new("(a + b) * c").compute(&df).unwrap()), vec![9.0, 9.0]);
    assert_eq!(numbers(&Factor::new("a + (b * c)").compute(&df).unwrap()), vec![7.0, 7.0]);
    assert_eq!(numbers(&Factor::new("c / (a + b)").compute(&df).unwrap()), vec![1.0, 1.0]);
}

#[test]
fn the_left_operand_stays_on_the_left() {
    let df = abc();
    assert_eq!(numbers(&Factor::new("a - b").compute(&df).unwrap()), vec![-1.0, -1.0]);
    assert_eq!(numbers(&Factor::new("b - a").compute(&df).unwrap()), vec![1.0, 1.0]);
    assert_eq!(numbers(&Factor::new("c / b").compute(&df).unwrap()), vec![1.5, 1.5]);
    assert_eq!(numbers(&Factor::new("10 - c").compute(&df).unwrap()), vec![7.0, 7.0]);
    assert_eq!(numbers(&Factor::new("c - 10").compute(&df).unwrap()), vec![-7.0, -7.0]);
}

#[test]
fn equal_levels_associate_to_the_left() {
    let df = abc();
    assert_eq!(numbers(&Factor::new("c - b - a").compute(&df).unwrap()), vec![0.0, 0.0]);
    assert_eq!(numbers(&Factor::new("c - (b - a)").compute(&df).unwrap()), vec![2.0, 2.0]);
    assert_eq!(numbers(&Factor::new("c / b * b").compute(&df).unwrap()), vec![3.0, 3.0]);
}

#[test]
fn numbers_are_read_as_the_standard_library_reads_them() {
    let df = abc();
    assert_eq!(numbers(&Factor::new("a * 1e2").compute(&df).unwrap()), vec![100.0, 100.0]);
    assert_eq!(numbers(&Factor::new("a + .5").compute(&df).unwrap()), vec![1.5, 1.5]);
    assert_eq!(numbers(&Factor::new("a * -2").compute(&df).unwrap()), vec![-2.0, -2.0]);
    assert_eq!(Factor::new("a + 1e").compute(&df).err().map(|e| e.kind), Some(ErrorKind::UnknownColumn));
}

#[test]
fn a_number_alone_is_a_column_of_one_row() {
    let result = Factor::new("2.5").compute(&abc()).unwrap();
    assert_eq!(numbers(&result), vec![2.5]);
}

#[test]
fn division_by_zero_is_no_error() {
    let result = Factor::new("a / 0").compute(&abc()).unwrap();
    assert_eq!(numbers(&result), vec![f64::INFINITY, f64::INFINITY]);
}

#[test]
fn nulls_propagate_through_arithmetic() {
    let df = DataFrame::new_infer_height(vec![
        Column::new("x".into(), &[Some(1.0), None, Some(3.0)]),
        Column::new("y".into(), &[Some(1.0), Some(2.0), None]),
    ])
    .unwrap();
    let result = Factor::new("x + y").compute(&df).unwrap();
    assert_eq!(cells(&result), vec![Some(2.0), None, None]);
}

#[test]
fn missing_column_is_reported() {
    let result = Factor::new("missing_col + 1").compute(&create_test_df());
    assert_eq!(result.err().map(|e| e.kind), Some(ErrorKind::UnknownColumn));
}

#[test]
fn unbalanced_parentheses_are_reported() {
    let df = create_test_df();
    assert_eq!(
        Factor::new("MA(close, 3").compute(&df).err().map(|e| e.kind),
        Some(ErrorKind::UnbalancedParentheses)
    );
    assert_eq!(
        Factor::new("close + 1)").compute(&df).err().map(|e| e.kind),
        Some(ErrorKind::UnbalancedParentheses)
    );
}

#[test]
fn empty_formula_is_reported() {
    let df = create_test_df();
    assert_eq!(Factor::new("").compute(&df).err().map(|e| e.kind), Some(ErrorKind::EmptyExpression));
    assert_eq!(Factor::new(" \t ").compute(&df).err().map(|e| e.kind), Some(ErrorKind::EmptyExpression));
}

#[test]
fn too_few_operands_are_reported() {
    let df = create_test_df();
    assert_eq!(Factor::new("close +").compute(&df).err().map(|e| e.kind), Some(ErrorKind::ArityMismatch));
    assert_eq!(Factor::new("RANK").compute(&df).err().map(|e| e.kind), Some(ErrorKind::ArityMismatch));
}

#[test]
fn leftover_columns_are_reported() {
    let df = create_test_df();
    assert_eq!(
        Factor::new("close volume").compute(&df).err().map(|e| e.kind),
        Some(ErrorKind::IllFormedExpression)
    );
    assert_eq!(Factor::new("( )").compute(&df).err().map(|e| e.kind), Some(ErrorKind::IllFormedExpression));
}

#[test]
fn construction_never_fails() {
    let factor = Factor::new("((((");
    assert_eq!(
        factor.compute(&create_test_df()).err().map(|e| e.kind),
        Some(ErrorKind::UnbalancedParentheses)
    );
}

#[test]
fn a_factor_can_be_computed_again() {
    let factor = Factor::new("close - volume");
    let df = create_test_df();
    let first = factor.compute(&df).unwrap();
    let second = factor.compute(&df).unwrap();
    assert_eq!(numbers(&first), numbers(&second));
    assert_eq!(numbers(&first), vec![-900.0, -1899.0, -1401.0, -2898.0, -1102.0]);
}

#[test]
fn engine_evaluates_like_a_factor() {
    let df = create_test_df();
    let engine = ExprEngine::new();
    let direct = engine.evaluate(&df, "close * 2").unwrap();
    assert_eq!(numbers(&direct), vec![200.0, 202.0, 198.0, 204.0, 196.0]);
    assert_eq!(engine.evaluate(&df, "nothing").err().map(|e| e.kind), Some(ErrorKind::UnknownColumn));
}

#[test]
fn moving_average_has_leading_nulls_and_matches_a_direct_mean() {
    let df = create_test_df();
    let close = [100.0, 101.0, 99.0, 102.0, 98.0];
    for n in 1..=5usize {
        let result = Factor::new(&format!("MA(close, {})", n)).compute(&df).unwrap();
        let got = cells(&result);
        assert_eq!(got.len(), 5);
        for i in 0..5 {
            if i + 1 < n {
                assert_eq!(got[i], None);
            } else {
                let window = &close[i + 1 - n..=i];
                let mean = window.iter().sum::<f64>() / n as f64;
                assert!((got[i].unwrap() - mean).abs() < 1e-9);
            }
        }
    }
}

#[test]
fn standard_deviation_has_leading_nulls_and_matches_a_direct_computation() {
    let df = create_test_df();
    let close = [100.0, 101.0, 99.0, 102.0, 98.0];
    for n in 2..=5usize {
        let result = Factor::new(&format!("STD(close, {})", n)).compute(&df).unwrap();
        let got = cells(&result);
        assert_eq!(got.len(), 5);
        for i in 0..5 {
            if i + 1 < n {
                assert_eq!(got[i], None);
            } else {
                let window = &close[i + 1 - n..=i];
                let mean = window.iter().sum::<f64>() / n as f64;
                let squares = window.iter().map(|v| (v - mean) * (v - mean)).sum::<f64>();
                let deviation = (squares / (n as f64 - 1.0)).sqrt();
                assert!((got[i].unwrap() - deviation).abs() < 1e-9);
            }
        }
    }
}

#[test]
fn a_window_longer_than_the_table_gives_only_nulls() {
    let result = Factor::new("MA(close, 6)").compute(&create_test_df()).unwrap();
    assert_eq!(cells(&result), vec![None, None, None, None, None]);
}

#[test]
fn a_window_below_one_is_refused() {
    let df = create_test_df();
    assert_eq!(Factor::new("MA(close, 0)").compute(&df).err().map(|e| e.kind), Some(ErrorKind::OperatorFailed));
    assert_eq!(Factor::new("MA(close, -3)").compute(&df).err().map(|e| e.kind), Some(ErrorKind::OperatorFailed));
    assert_eq!(Factor::new("STD(close, 0)").compute(&df).err().map(|e| e.kind), Some(ErrorKind::OperatorFailed));
}

#[test]
fn the_window_is_the_integer_part_of_its_operand() {
    let df = create_test_df();
    let whole = Factor::new("MA(close, 2)").compute(&df).unwrap();
    let fraction = Factor::new("MA(close, 2.9)").compute(&df).unwrap();
    assert_eq!(cells(&whole), cells(&fraction));
    assert_eq!(cells(&whole), vec![None, Some(100.5), Some(100.0), Some(100.5), Some(100.0)]);
}

#[test]
fn the_window_may_come_from_a_column() {
    let df = DataFrame::new_infer_height(vec![
        Column::new("v".into(), &[1.0, 3.0, 5.0]),
        Column::new("n".into(), &[2i64, 9, 9]),
    ])
    .unwrap();
    let result = Factor::new("MA(v, n)").compute(&df).unwrap();
    assert_eq!(cells(&result), vec![None, Some(2.0), Some(4.0)]);
}

#[test]
fn rank_averages_ties() {
    let df = DataFrame::new_infer_height(vec![Column::new(
        "x".into(),
        &[10.0, 20.0, 10.0, 30.0],
    )])
    .unwrap();
    let result = Factor::new("RANK(x)").compute(&df).unwrap();
    assert_eq!(numbers(&result), vec![1.5, 3.0, 1.5, 4.0]);
}

#[test]
fn rank_is_ascending() {
    let result = Factor::new("RANK(close)").compute(&create_test_df()).unwrap();
    assert_eq!(numbers(&result), vec![3.0, 4.0, 2.0, 5.0, 1.0]);
}

#[test]
fn rank_is_unchanged_by_an_increasing_transform() {
    let df = create_test_df();
    let plain = Factor::new("RANK(close)").compute(&df).unwrap();
    let scaled = Factor::new("RANK(close * 2 + 7)").compute(&df).unwrap();
    let shifted = Factor::new("RANK(close - 1000)").compute(&df).unwrap();
    assert_eq!(numbers(&plain), numbers(&scaled));
    assert_eq!(numbers(&plain), numbers(&shifted));
}

#[test]
fn rank_of_text_is_refused() {
    let df = DataFrame::new_infer_height(vec![Column::new("name".into(), &["b", "a", "c"])])
        .unwrap();
    assert_eq!(Factor::new("RANK(name)").compute(&df).err().map(|e| e.kind), Some(ErrorKind::OperatorFailed));
}

#[test]
fn rank_of_integers_is_accepted() {
    let df = DataFrame::new_infer_height(vec![Column::new("k".into(), &[3i64, 1, 2])]).unwrap();
    let result = Factor::new("RANK(k)").compute(&df).unwrap();
    assert_eq!(numbers(&result), vec![3.0, 1.0, 2.0]);
}

#[test]
fn functions_take_whole_expressions_as_arguments() {
    let df = create_test_df();
    let nested = Factor::new("MA(close + 1, 2)").compute(&df).unwrap();
    assert_eq!(cells(&nested), vec![None, Some(101.5), Some(101.0), Some(101.5), Some(101.0)]);
    let ranked = Factor::new("MA(RANK(close), 2)").compute(&df).unwrap();
    assert_eq!(cells(&ranked), vec![None, Some(3.5), Some(3.0), Some(3.5), Some(3.0)]);
}

#[test]
fn functions_combine_with_arithmetic() {
    let df = create_test_df();
    let after = Factor::new("MA(close, 2) + 1").compute(&df).unwrap();
    assert_eq!(cells(&after), vec![None, Some(101.5), Some(101.0), Some(101.5), Some(101.0)]);
    let before = Factor::new("2 * MA(close, 2)").compute(&df).unwrap();
    assert_eq!(cells(&before), vec![None, Some(201.0), Some(200.0), Some(201.0), Some(200.0)]);
    let both = Factor::new("close - MA(close, 2)").compute(&df).unwrap();
    assert_eq!(cells(&both), vec![None, Some(0.5), Some(-1.0), Some(1.5), Some(-2.0)]);
}

#[test]
fn the_comma_is_optional_between_arguments() {
    let df = create_test_df();
    let with = Factor::new("MA(close, 3)").compute(&df).unwrap();
    let without = Factor::new("MA(close 3)").compute(&df).unwrap();
    let tight = Factor::new("MA(close,3)").compute(&df).unwrap();
    assert_eq!(cells(&with), cells(&without));
    assert_eq!(cells(&with), cells(&tight));
}

#[test]
fn arithmetic_on_text_and_numbers_is_refused() {
    let df = DataFrame::new_infer_height(vec![
        Column::new("name".into(), &["b", "a", "c"]),
        Column::new("x".into(), &[1.0, 2.0, 3.0]),
    ])
    .unwrap();
    assert_eq!(Factor::new("name * x").compute(&df).err().map(|e| e.kind), Some(ErrorKind::OperatorFailed));
}

#[test]
fn a_null_in_the_window_makes_the_row_null() {
    let df = DataFrame::new_infer_height(vec![Column::new(
        "x".into(),
        &[Some(1.0), None, Some(3.0), Some(4.0), Some(6.0)],
    )])
    .unwrap();
    let mean = Factor::new("MA(x, 2)").compute(&df).unwrap();
    assert_eq!(cells(&mean), vec![None, None, None, Some(3.5), Some(5.0)]);
    let deviation = cells(&Factor::new("STD(x, 2)").compute(&df).unwrap());
    assert_eq!(deviation[..3], [None, None, None]);
    assert!((deviation[3].unwrap() - 0.5f64.sqrt()).abs() < 1e-9);
    assert!((deviation[4].unwrap() - 2.0f64.sqrt()).abs() < 1e-9);
}

#[test]
fn a_window_of_one_row_copies_the_column_and_has_no_deviation() {
    let df = create_test_df();
    let mean = Factor::new("MA(close, 1)").compute(&df).unwrap();
    assert_eq!(numbers(&mean), vec![100.0, 101.0, 99.0, 102.0, 98.0]);
    let deviation = Factor::new("STD(close, 1)").compute(&df).unwrap();
    assert_eq!(cells(&deviation), vec![None, None, None, None, None]);
}

#[test]
fn windows_roll_over_integers() {
    let df = DataFrame::new_infer_height(vec![Column::new("k".into(), &[1i64, 2, 6])]).unwrap();
    let mean = Factor::new("MA(k, 2)").compute(&df).unwrap();
    assert_eq!(cells(&mean), vec![None, Some(1.5), Some(4.0)]);
}

#[test]
fn rank_leaves_nulls_in_place() {
    let df = DataFrame::new_infer_height(vec![Column::new(
        "x".into(),
        &[Some(3.0), None, Some(1.0)],
    )])
    .unwrap();
    let result = Factor::new("RANK(x)").compute(&df).unwrap();
    assert_eq!(cells(&result), vec![Some(2.0), None, Some(1.0)]);
}

#[test]
fn a_null_operand_of_one_row_makes_every_row_null() {
    let df = create_test_df();
    let engine = ExprEngine::new();
    let result = engine.evaluate(&df, "close * (1 / MA(1, 2))").unwrap();
    assert_eq!(cells(&result), vec![None, None, None, None, None]);
}

#[test]
fn integers_and_numbers_combine() {
    let df = DataFrame::new_infer_height(vec![Column::new(
        "k".into(),
        &[Some(1i64), None, Some(3)],
    )])
    .unwrap();
    let result = Factor::new("k + 0.5").compute(&df).unwrap();
    assert_eq!(cells(&result), vec![Some(1.5), None, Some(3.5)]);
}

#[test]
fn parentheses_that_keep_the_grouping_keep_the_result() {
    let df = abc();
    let pairs = [
        ("( a * b ) + c", "a * b + c"),
        ("a + ( b * c )", "a + b * c"),
        ("( a - b ) - c", "a - b - c"),
        ("( ( a ) ) / ( b )", "a / b"),
        ("MA(( a + b ), ( 2 ))", "MA(a + b, 2)"),
    ];
    for (with, without) in pairs {
        let left = Factor::new(with).compute(&df).unwrap();
        let right = Factor::new(without).compute(&df).unwrap();
        assert_eq!(cells(&left), cells(&right));
    }
}

#[test]
fn a_missing_column_fails_wherever_it_stands() {
    let df = create_test_df();
    for formula in ["nothing", "close + nothing", "MA(nothing, 2)", "RANK(close) * ( 1 - nothing )"] {
        assert_eq!(Factor::new(formula).compute(&df).err().map(|e| e.kind), Some(ErrorKind::UnknownColumn));
    }
}

fn lists() -> Series {
    let inner = [Series::new("".into(), &[1.0, 2.0]), Series::new("".into(), &[3.0])];
    Series::new("a".into(), &inner)
}

#[test]
fn operators_refuse_a_column_of_lists() {
    let df = DataFrame::new_infer_height(vec![
        lists().into(),
        Column::new("x".into(), &[1.0, 2.0]),
    ])
    .unwrap();
    let formulas = [
        "a + 1", "1 + a", "a - x", "x - a", "a * a", "2 * a", "a / x", "x / a", "MA(a, 2)",
        "STD(a, 2)", "RANK(a)", "MA(x, a)", "x + a * 2",
    ];
    for formula in formulas {
        assert_eq!(Factor::new(formula).compute(&df).err().map(|e| e.kind), Some(ErrorKind::OperatorFailed));
    }
}

#[test]
fn operators_refuse_a_column_of_text() {
    let df = DataFrame::new_infer_height(vec![
        Column::new("name".into(), &["b", "a"]),
        Column::new("x".into(), &[1.0, 2.0]),
    ])
    .unwrap();
    let formulas = [
        "name + 1", "1 + name", "name + name", "name - x", "x * name", "name / 2", "MA(name, 2)",
        "STD(name, 2)", "RANK(name)", "MA(x, name)",
    ];
    for formula in formulas {
        assert_eq!(Factor::new(formula).compute(&df).err().map(|e| e.kind), Some(ErrorKind::OperatorFailed));
    }
}

#[test]
fn operators_refuse_a_column_of_truth_values() {
    let df = DataFrame::new_infer_height(vec![
        Column::new("flag".into(), &[true, false]),
        Column::new("x".into(), &[1.0, 2.0]),
    ])
    .unwrap();
    for formula in ["flag + x", "x * flag", "MA(flag, 1)", "RANK(flag)"] {
        assert_eq!(Factor::new(formula).compute(&df).err().map(|e| e.kind), Some(ErrorKind::OperatorFailed));
    }
}

#[test]
fn a_column_that_is_only_named_is_handed_out_as_it_is() {
    let df = DataFrame::new_infer_height(vec![lists().into()]).unwrap();
    let result = Factor::new("a").compute(&df).unwrap();
    assert_eq!(result.len(), 2);
    assert!(result.dtype().is_list());
}

#[test]
fn results_have_the_rows_of_the_table_or_one() {
    for height in [0usize, 1, 2, 5] {
        let df = DataFrame::new_infer_height(vec![
            Column::new("x".into(), vec![1.5; height]),
            Column::new("k".into(), vec![2i64; height]),
        ])
        .unwrap();
        let with_columns = ["x", "x + 1", "1 - x", "x * k", "MA(x, 2)", "STD(k, 2)", "RANK(x / k)"];
        for formula in with_columns {
            let result = Factor::new(formula).compute(&df).unwrap();
            assert_eq!(result.len(), height);
        }
        for formula in ["2.5", "1 + 2", "MA(3, 1)", "RANK(7) * 2"] {
            let result = Factor::new(formula).compute(&df).unwrap();
            assert_eq!(result.len(), 1);
        }
    }
}

#[test]
fn a_missing_column_is_named_in_the_error() {
    let df = create_test_df();
    let error = Factor::new("close + missing_col * 2").compute(&df).unwrap_err();
    assert_eq!(error.kind, ErrorKind::UnknownColumn);
    assert_eq!(error.detail, "missing_col");
    assert_eq!(
        error.message(),
        "the formula names a column that the table does not have: missing_col"
    );
}

#[test]
fn a_failed_operator_says_why() {
    let df = create_test_df();
    let long = Series::new("x".into(), &[1.0, 2.0, 3.0]);
    let short = Series::new("y".into(), &[1.0, 2.0]);
    let error =
        kkexpr::operators::Operator::evaluate(&kkexpr::operators::AddOperator, &df, &[long, short])
            .unwrap_err();
    assert_eq!(error.kind, ErrorKind::OperatorFailed);
    assert_eq!(error.detail, "the operands are not numeric columns whose rows agree");
    assert_eq!(
        error.message(),
        "an operator could not be applied to its operands: \
         the operands are not numeric columns whose rows agree"
    );
    let error = Factor::new("MA(close, 0)").compute(&df).unwrap_err();
    assert_eq!(error.detail, "the second operand is no window length");
}

#[test]
fn an_error_without_detail_is_its_kind_in_words() {
    let error = Factor::new("").compute(&create_test_df()).unwrap_err();
    assert_eq!(error.kind, ErrorKind::EmptyExpression);
    assert_eq!(error.detail, "");
    assert_eq!(error.message(), "the formula is empty");
}
