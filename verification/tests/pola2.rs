use nal_pola::{
    column_to_vector, table_to_matrix, Column, ColumnValues, ConversionError, Table, NAN_BITS,
    ONE_BITS, ZERO_BITS,
};

fn numeric_column(name: &str, values: &[Option<f64>]) -> Column {
    Column {
        name: name.to_string(),
        values: ColumnValues::Numeric(values.iter().map(|v| v.map(f64::to_bits)).collect()),
    }
}

fn boolean_column(name: &str, values: &[Option<bool>]) -> Column {
    Column {
        name: name.to_string(),
        values: ColumnValues::Boolean(values.to_vec()),
    }
}

fn unsupported_column(name: &str, dtype_name: &str, len: usize) -> Column {
    Column {
        name: name.to_string(),
        values: ColumnValues::Unsupported {
            dtype_name: dtype_name.to_string(),
            len,
        },
    }
}

fn bits_of(values: &[f64]) -> Vec<u64> {
    values.iter().map(|v| v.to_bits()).collect()
}

#[test]
fn test_numeric_series_to_dvector() {
    let column = numeric_column("numeric", &[Some(1.0), Some(2.0), Some(3.0)]);
    let result = column_to_vector(&column).unwrap();
    assert_eq!(result.data, bits_of(&[1.0, 2.0, 3.0]));
}

#[test]
fn test_boolean_series_to_dvector() {
    let column = boolean_column("boolean", &[Some(true), Some(false), Some(true)]);
    let result = column_to_vector(&column).unwrap();
    assert_eq!(result.data, bits_of(&[1.0, 0.0, 1.0]));
}

#[test]
fn test_series_with_nulls_to_dvector() {
    let column = numeric_column("nulls", &[Some(1.0), None, Some(3.0)]);
    let result = column_to_vector(&column).unwrap();
    for (a, b) in result
        .data
        .iter()
        .map(|bits| f64::from_bits(*bits))
        .zip(vec![1.0, f64::NAN, 3.0].iter())
    {
        if a.is_nan() || b.is_nan() {
            assert!(a.is_nan() && b.is_nan());
        } else {
            assert_eq!(a, *b);
        }
    }
}

#[test]
fn test_empty_series_to_dvector() {
    let column = numeric_column("empty", &[]);
    let result = column_to_vector(&column).unwrap();
    assert!(result.data.is_empty());
}

#[test]
fn test_dataframe_to_dmatrix() {
    let table = Table {
        columns: vec![
            numeric_column("numeric", &[Some(1.0), Some(2.0), Some(3.0)]),
            boolean_column("boolean", &[Some(true), Some(false), Some(true)]),
        ],
    };
    let result = table_to_matrix(&table).unwrap();
    assert_eq!(result.nrows, 3);
    assert_eq!(result.ncols, 2);
    let expected_row_wise: Vec<f64> = vec![1.0, 1.0, 2.0, 0.0, 3.0, 1.0];
    for r in 0..3 {
        for c in 0..2 {
            assert_eq!(result.get(r, c), expected_row_wise[r * 2 + c].to_bits());
        }
    }
}

#[test]
fn test_empty_dataframe_to_dmatrix() {
    let table = Table { columns: vec![] };
    let result = table_to_matrix(&table);
    assert!(result.is_err());
}

#[test]
#[should_panic(expected = "str")]
fn test_non_numeric_series_to_dvector() {
    let column = unsupported_column("non_numeric", "str", 3);
    let _ = column_to_vector(&column).unwrap();
}

#[test]
#[should_panic(expected = "str")]
fn test_dataframe_with_non_numeric_column_to_dmatrix() {
    let table = Table {
        columns: vec![
            numeric_column("numeric", &[Some(1.0), Some(2.0), Some(3.0)]),
            unsupported_column("non_numeric", "str", 3),
        ],
    };
    let _ = table_to_matrix(&table).unwrap();
}

#[test]
fn test_marker_bit_patterns() {
    assert!(f64::from_bits(NAN_BITS).is_nan());
    assert_eq!(ONE_BITS, 1.0f64.to_bits());
    assert_eq!(ZERO_BITS, 0.0f64.to_bits());
}

#[test]
fn test_missing_cell_position_is_irrelevant() {
    for missing_at in 0..3 {
        let cells: Vec<Option<f64>> = (0..3)
            .map(|i| if i == missing_at { None } else { Some(i as f64) })
            .collect();
        let column = numeric_column("nulls", &cells);
        let result = column_to_vector(&column).unwrap();
        assert_eq!(result.data.len(), 3);
        for i in 0..3 {
            let value = f64::from_bits(result.data[i]);
            if i == missing_at {
                assert!(value.is_nan());
            } else {
                assert_eq!(value, i as f64);
            }
        }
    }
}

#[test]
fn test_missing_boolean_cell_is_nan() {
    let column = boolean_column("bools", &[Some(true), None, Some(false)]);
    let result = column_to_vector(&column).unwrap();
    assert_eq!(result.data[0], ONE_BITS);
    assert!(f64::from_bits(result.data[1]).is_nan());
    assert_eq!(result.data[2], ZERO_BITS);
}

#[test]
fn test_numeric_values_unchanged() {
    let values = [Some(-2.5), Some(0.0), Some(1e300), Some(-0.0)];
    let column = numeric_column("numeric", &values);
    let result = column_to_vector(&column).unwrap();
    assert_eq!(result.data, bits_of(&[-2.5, 0.0, 1e300, -0.0]));
}

#[test]
fn test_column_type_mismatch_carries_name() {
    let column = unsupported_column("dates", "date", 2);
    let result = column_to_vector(&column);
    assert_eq!(result, Err(ConversionError::TypeMismatch("date".to_string())));
}

#[test]
fn test_zero_columns_is_empty_input() {
    let table = Table { columns: vec![] };
    assert_eq!(table_to_matrix(&table), Err(ConversionError::EmptyInput));
}

#[test]
fn test_zero_rows_is_empty_input() {
    let table = Table {
        columns: vec![numeric_column("numeric", &[])],
    };
    assert_eq!(table_to_matrix(&table), Err(ConversionError::EmptyInput));
}

#[test]
fn test_first_ineligible_column_is_reported() {
    let table = Table {
        columns: vec![
            numeric_column("numeric", &[Some(1.0)]),
            unsupported_column("cats", "cat", 1),
            unsupported_column("texts", "str", 1),
        ],
    };
    assert_eq!(
        table_to_matrix(&table),
        Err(ConversionError::TypeMismatch("cat".to_string()))
    );
}

#[test]
fn test_matrix_buffer_is_column_major() {
    let table = Table {
        columns: vec![
            numeric_column("a", &[Some(1.0), Some(2.0), Some(3.0)]),
            numeric_column("b", &[Some(4.0), Some(5.0), Some(6.0)]),
        ],
    };
    let result = table_to_matrix(&table).unwrap();
    assert_eq!(result.data, bits_of(&[1.0, 2.0, 3.0, 4.0, 5.0, 6.0]));
}

#[test]
fn test_matrix_elements_match_column_conversions() {
    let columns = vec![
        numeric_column("a", &[Some(1.5), None]),
        boolean_column("b", &[None, Some(true)]),
    ];
    let table = Table {
        columns: columns.clone(),
    };
    let matrix = table_to_matrix(&table).unwrap();
    for (c, column) in columns.iter().enumerate() {
        let vector = column_to_vector(column).unwrap();
        for r in 0..2 {
            assert_eq!(matrix.get(r, c), vector.data[r]);
        }
    }
}

#[test]
fn test_single_cell_table() {
    let table = Table {
        columns: vec![boolean_column("flag", &[Some(false)])],
    };
    let result = table_to_matrix(&table).unwrap();
    assert_eq!(result.nrows, 1);
    assert_eq!(result.ncols, 1);
    assert_eq!(result.data, vec![ZERO_BITS]);
}
