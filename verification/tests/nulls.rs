use kkexpr::operators::AddOperator;
use kkexpr::operators::DivOperator;
use kkexpr::operators::MAOperator;
use kkexpr::operators::MulOperator;
use kkexpr::operators::Operator;
use kkexpr::operators::RankOperator;
use kkexpr::operators::StdOperator;
use kkexpr::operators::SubOperator;
use polars::prelude::DataFrame;
use polars::prelude::NamedFrom;
use polars::prelude::Series;

/// Every pattern of nulls over `rows` rows.
fn patterns(rows: usize) -> Vec<Vec<bool>> {
    (0..1usize << rows).map(|bits| (0..rows).map(|row| bits >> row & 1 == 1).collect()).collect()
}

fn floats(nulls: &[bool]) -> Series {
    let cells: Vec<Option<f64>> = nulls
        .iter()
        .enumerate()
        .map(|(row, null)| if *null { None } else { Some(row as f64 * 1.5 - 2.0) })
        .collect();
    Series::new("x".into(), cells)
}

fn integers(nulls: &[bool]) -> Series {
    let cells: Vec<Option<i64>> = nulls
        .iter()
        .enumerate()
        .map(|(row, null)| if *null { None } else { Some(row as i64 - 1) })
        .collect();
    Series::new("k".into(), cells)
}

fn nulls_of(column: &Series) -> Vec<bool> {
    (0..column.len()).map(|row| column.get(row).unwrap().is_null()).collect()
}

fn null_at(nulls: &[bool], row: usize) -> bool {
    if nulls.len() == 1 {
        nulls[0]
    } else {
        nulls[row]
    }
}

fn check_propagation(lhs: &Series, rhs: &Series) {
    let table = DataFrame::empty();
    let left = nulls_of(lhs);
    let right = nulls_of(rhs);
    let rows = if left.len() == 1 { right.len() } else { left.len() };
    let args = [lhs.clone(), rhs.clone()];
    let results = [
        AddOperator.evaluate(&table, &args).unwrap(),
        SubOperator.evaluate(&table, &args).unwrap(),
        MulOperator.evaluate(&table, &args).unwrap(),
        DivOperator.evaluate(&table, &args).unwrap(),
    ];
    for result in results {
        assert!(result.dtype().is_primitive_numeric());
        let got = nulls_of(&result);
        assert_eq!(got.len(), rows);
        for row in 0..rows {
            if null_at(&left, row) || null_at(&right, row) {
                assert!(got[row]);
            }
        }
    }
}

#[test]
fn arithmetic_is_null_where_an_operand_is() {
    for rows in 0..=4usize {
        for left in patterns(rows) {
            for right in patterns(rows) {
                check_propagation(&floats(&left), &floats(&right));
                check_propagation(&integers(&left), &floats(&right));
                check_propagation(&floats(&left), &integers(&right));
                check_propagation(&integers(&left), &integers(&right));
            }
        }
    }
}

#[test]
fn arithmetic_with_one_row_is_null_where_an_operand_is() {
    for rows in 0..=4usize {
        for many in patterns(rows) {
            for one in patterns(1) {
                check_propagation(&floats(&many), &floats(&one));
                check_propagation(&floats(&one), &floats(&many));
                check_propagation(&integers(&many), &floats(&one));
                check_propagation(&integers(&one), &integers(&many));
            }
        }
    }
}

fn expected_roll(values: &[bool], window: usize) -> Vec<bool> {
    (0..values.len())
        .map(|row| row + 1 < window || (row + 1 - window..=row).any(|k| values[k]))
        .collect()
}

#[test]
fn moving_average_is_null_exactly_where_the_window_is_short_or_holds_a_null() {
    let table = DataFrame::empty();
    for rows in 0..=6usize {
        for values in patterns(rows) {
            for window in 1..=7usize {
                let length = Series::new("".into(), &[window as i64]);
                for column in [floats(&values), integers(&values)] {
                    let result = MAOperator.evaluate(&table, &[column, length.clone()]).unwrap();
                    assert!(result.dtype().is_primitive_numeric());
                    assert_eq!(nulls_of(&result), expected_roll(&values, window));
                }
            }
        }
    }
}

#[test]
fn deviation_is_null_exactly_where_the_window_is_short_or_holds_a_null() {
    let table = DataFrame::empty();
    for rows in 0..=6usize {
        for values in patterns(rows) {
            for window in 2..=7usize {
                let length = Series::new("".into(), &[window as i64]);
                for column in [floats(&values), integers(&values)] {
                    let result = StdOperator.evaluate(&table, &[column, length.clone()]).unwrap();
                    assert!(result.dtype().is_primitive_numeric());
                    assert_eq!(nulls_of(&result), expected_roll(&values, window));
                }
            }
        }
    }
}

#[test]
fn rank_is_null_exactly_where_the_column_is() {
    let table = DataFrame::empty();
    for rows in 0..=6usize {
        for values in patterns(rows) {
            for column in [floats(&values), integers(&values)] {
                let result = RankOperator.evaluate(&table, &[column]).unwrap();
                assert!(result.dtype().is_primitive_numeric());
                assert_eq!(nulls_of(&result), values);
            }
        }
    }
}

#[test]
fn windows_roll_over_values_that_are_no_numbers() {
    let table = DataFrame::empty();
    let column = Series::new("x".into(), &[1.0, f64::NAN, f64::INFINITY, 2.0, 3.0]);
    let two = Series::new("".into(), &[2i64]);
    let mean = MAOperator.evaluate(&table, &[column.clone(), two.clone()]).unwrap();
    assert_eq!(nulls_of(&mean), vec![true, false, false, false, false]);
    let deviation = StdOperator.evaluate(&table, &[column, two]).unwrap();
    assert_eq!(nulls_of(&deviation), vec![true, false, false, false, false]);
}
