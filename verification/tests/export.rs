use tabular_export::export::{
    append_encoded, array_value_to_string, export_bytes, first_unsupported, header_fields,
    plan_export, push_record, row_fields, write_to_csv, ExportError,
};
use tabular_export::table::{Batch, Column, ColumnType, Field, ResultSet, TimeUnit};

fn field(name: &str, data_type: ColumnType) -> Field {
    Field { name: name.to_string(), data_type }
}

fn text(value: &str) -> Option<String> {
    Some(value.to_string())
}

fn fares() -> ResultSet {
    let schema = vec![
        field("VendorID", ColumnType::Int64),
        field("AvgFareAmount", ColumnType::Float64),
    ];
    let columns = vec![
        Column::Int64(vec![Some(1), Some(2)]),
        Column::Float64(vec![Some(12.5f64.to_string()), Some(9.75f64.to_string())]),
    ];
    let batch = Batch::new(columns, 2).expect("columns of two rows");
    ResultSet::new(schema, vec![batch]).expect("batch fits the schema")
}

fn as_text(bytes: Vec<u8>) -> String {
    String::from_utf8(bytes).expect("utf-8 output")
}

#[test]
fn vendor_fares_export_as_three_lines() {
    let file = write_to_csv(&fares(), "out", "report.csv").expect("export succeeds");
    let contents = as_text(file.contents);
    assert_eq!(contents, "VendorID,AvgFareAmount\n1,12.5\n2,9.75\n");
    let lines: Vec<&str> = contents.lines().collect();
    assert_eq!(lines, vec!["VendorID,AvgFareAmount", "1,12.5", "2,9.75"]);
    assert_eq!(std::path::Path::new(&file.path), std::path::Path::new("out").join("report.csv"));
    assert_eq!(file.directory, "out");
}

#[test]
fn no_batches_give_an_empty_file() {
    let schema = vec![field("a", ColumnType::Utf8), field("b", ColumnType::Int32)];
    let result = ResultSet::new(schema, vec![]).expect("no batches always fit");
    assert_eq!(export_bytes(&result), Ok(vec![]));
    let file = write_to_csv(&result, "out", "empty.csv").expect("export succeeds");
    assert!(file.contents.is_empty());
}

#[test]
fn no_batches_give_an_empty_file_even_with_an_unsupported_column() {
    let schema = vec![field("flag", ColumnType::Other("Boolean".to_string()))];
    let result = ResultSet::new(schema, vec![]).expect("no batches always fit");
    assert_eq!(export_bytes(&result), Ok(vec![]));
}

#[test]
fn header_is_the_first_line_in_schema_order() {
    let schema = vec![
        field("zeta", ColumnType::Utf8),
        field("alpha", ColumnType::Int32),
        field("mid", ColumnType::Int64),
    ];
    let columns = vec![
        Column::Utf8(vec![text("x")]),
        Column::Int32(vec![Some(7)]),
        Column::Int64(vec![Some(-8)]),
    ];
    let batch = Batch::new(columns, 1).unwrap();
    let result = ResultSet::new(schema, vec![batch]).unwrap();
    let contents = as_text(export_bytes(&result).unwrap());
    assert_eq!(contents.lines().next(), Some("zeta,alpha,mid"));
    assert_eq!(contents, "zeta,alpha,mid\nx,7,-8\n");
}

#[test]
fn header_only_for_a_batch_without_rows() {
    let schema = vec![field("a", ColumnType::Utf8), field("b", ColumnType::Float64)];
    let batch = Batch::new(vec![Column::Utf8(vec![]), Column::Float64(vec![])], 0).unwrap();
    let result = ResultSet::new(schema, vec![batch]).unwrap();
    assert_eq!(as_text(export_bytes(&result).unwrap()), "a,b\n");
}

#[test]
fn names_and_values_are_quoted_where_needed() {
    let schema = vec![field("last, first", ColumnType::Utf8), field("say \"hi\"", ColumnType::Utf8)];
    let columns = vec![
        Column::Utf8(vec![text("Doe, Jane"), text("plain")]),
        Column::Utf8(vec![text("line\nbreak"), text("a \"quoted\" word")]),
    ];
    let batch = Batch::new(columns, 2).unwrap();
    let result = ResultSet::new(schema, vec![batch]).unwrap();
    assert_eq!(
        as_text(export_bytes(&result).unwrap()),
        "\"last, first\",\"say \"\"hi\"\"\"\n\"Doe, Jane\",\"line\nbreak\"\nplain,\"a \"\"quoted\"\" word\"\n"
    );
}

#[test]
fn rows_come_batch_after_batch() {
    let schema = vec![field("n", ColumnType::Int32), field("s", ColumnType::Utf8)];
    let first = Batch::new(
        vec![Column::Int32(vec![Some(1), Some(2)]), Column::Utf8(vec![text("a"), text("b")])],
        2,
    )
    .unwrap();
    let second = Batch::new(vec![Column::Int32(vec![]), Column::Utf8(vec![])], 0).unwrap();
    let third =
        Batch::new(vec![Column::Int32(vec![Some(3)]), Column::Utf8(vec![text("c")])], 1).unwrap();
    let result = ResultSet::new(schema, vec![first, second, third]).unwrap();
    assert_eq!(as_text(export_bytes(&result).unwrap()), "n,s\n1,a\n2,b\n3,c\n");
}

#[test]
fn nulls_export_as_empty_fields() {
    let columns = vec![
        Column::Utf8(vec![None]),
        Column::Int32(vec![None]),
        Column::Int64(vec![None]),
        Column::Float64(vec![None]),
        Column::Timestamp(TimeUnit::Second, vec![None]),
        Column::Timestamp(TimeUnit::Millisecond, vec![None]),
        Column::Timestamp(TimeUnit::Microsecond, vec![None]),
        Column::Timestamp(TimeUnit::Nanosecond, vec![None]),
    ];
    for column in &columns {
        assert_eq!(array_value_to_string(column, 0), Ok(String::new()));
    }
    let batch = Batch::new(columns, 1).unwrap();
    assert_eq!(row_fields(&batch, 0), Ok(vec![String::new(); 8]));
}

#[test]
fn a_row_of_nulls_is_a_line_of_delimiters() {
    let schema = vec![field("a", ColumnType::Utf8), field("b", ColumnType::Int64)];
    let batch = Batch::new(vec![Column::Utf8(vec![None]), Column::Int64(vec![None])], 1).unwrap();
    let result = ResultSet::new(schema, vec![batch]).unwrap();
    assert_eq!(as_text(export_bytes(&result).unwrap()), "a,b\n,\n");
}

#[test]
fn a_single_null_column_is_written_as_a_quoted_empty_field() {
    let schema = vec![field("only", ColumnType::Utf8)];
    let batch = Batch::new(vec![Column::Utf8(vec![None, text("x")])], 2).unwrap();
    let result = ResultSet::new(schema, vec![batch]).unwrap();
    assert_eq!(as_text(export_bytes(&result).unwrap()), "only\n\"\"\nx\n");
}

#[test]
fn timestamps_export_as_tick_counts_at_every_resolution() {
    let ticks = 1704067200000000000i64;
    let units =
        [TimeUnit::Second, TimeUnit::Millisecond, TimeUnit::Microsecond, TimeUnit::Nanosecond];
    for unit in units {
        let column = Column::Timestamp(unit, vec![Some(ticks), Some(-1), Some(0)]);
        assert_eq!(array_value_to_string(&column, 0), Ok("1704067200000000000".to_string()));
        assert_eq!(array_value_to_string(&column, 1), Ok("-1".to_string()));
        assert_eq!(array_value_to_string(&column, 2), Ok("0".to_string()));
    }
}

#[test]
fn nanosecond_timestamp_exports_as_literal_ticks() {
    let column = Column::Timestamp(TimeUnit::Nanosecond, vec![Some(1704067200000000000)]);
    assert_eq!(array_value_to_string(&column, 0), Ok("1704067200000000000".to_string()));
}

#[test]
fn integers_round_trip_through_their_parser() {
    let wide = [0i64, 1, -1, 9, 10, -10, 99, 100, 1234567890, i64::MAX, i64::MIN];
    let column = Column::Int64(wide.iter().map(|v| Some(*v)).collect());
    for (row, value) in wide.iter().enumerate() {
        let exported = array_value_to_string(&column, row).unwrap();
        assert_eq!(exported, value.to_string());
        assert_eq!(exported.parse::<i64>(), Ok(*value));
    }
    let narrow = [0i32, 7, -7, 1000, i32::MAX, i32::MIN];
    let column = Column::Int32(narrow.iter().map(|v| Some(*v)).collect());
    for (row, value) in narrow.iter().enumerate() {
        let exported = array_value_to_string(&column, row).unwrap();
        assert_eq!(exported, value.to_string());
        assert_eq!(exported.parse::<i32>(), Ok(*value));
    }
}

#[test]
fn integer_extremes_have_their_exact_text() {
    let column = Column::Int64(vec![Some(i64::MIN), Some(i64::MAX)]);
    assert_eq!(array_value_to_string(&column, 0), Ok("-9223372036854775808".to_string()));
    assert_eq!(array_value_to_string(&column, 1), Ok("9223372036854775807".to_string()));
    let column = Column::Int32(vec![Some(i32::MIN), Some(i32::MAX)]);
    assert_eq!(array_value_to_string(&column, 0), Ok("-2147483648".to_string()));
    assert_eq!(array_value_to_string(&column, 1), Ok("2147483647".to_string()));
}

#[test]
fn text_and_floats_round_trip() {
    let column = Column::Utf8(vec![text("hello, world"), text("")]);
    assert_eq!(array_value_to_string(&column, 0), Ok("hello, world".to_string()));
    assert_eq!(array_value_to_string(&column, 1), Ok(String::new()));
    let values = [12.5f64, 9.75, -0.1, 1e21, 0.0];
    let column = Column::Float64(values.iter().map(|v| Some(v.to_string())).collect());
    for (row, value) in values.iter().enumerate() {
        let exported = array_value_to_string(&column, row).unwrap();
        assert_eq!(exported.parse::<f64>(), Ok(*value));
    }
    let expected = ["12.5", "9.75", "-0.1", "1000000000000000000000", "0"];
    for (row, text) in expected.iter().enumerate() {
        assert_eq!(array_value_to_string(&column, row), Ok(text.to_string()));
    }
}

#[test]
fn one_line_per_row_after_the_header() {
    let schema = vec![field("n", ColumnType::Int64)];
    let sizes = [3usize, 0, 2, 5];
    let batches: Vec<Batch> = sizes
        .iter()
        .map(|rows| Batch::new(vec![Column::Int64(vec![Some(4); *rows])], *rows).unwrap())
        .collect();
    let result = ResultSet::new(schema, batches).unwrap();
    let contents = as_text(export_bytes(&result).unwrap());
    assert_eq!(contents.lines().count(), 1 + 10);
    assert!(contents.lines().skip(1).all(|line| line == "4"));
}

#[test]
fn an_unsupported_column_fails_the_whole_export() {
    let schema = vec![
        field("id", ColumnType::Int64),
        field("flag", ColumnType::Other("Boolean".to_string())),
        field("blob", ColumnType::Other("Binary".to_string())),
    ];
    let columns = vec![
        Column::Int64(vec![Some(1), Some(2)]),
        Column::Other("Boolean".to_string(), 2),
        Column::Other("Binary".to_string(), 2),
    ];
    let batch = Batch::new(columns, 2).unwrap();
    let result = ResultSet::new(schema, vec![batch]).unwrap();
    let expected = ExportError::UnsupportedType("Boolean".to_string());
    assert_eq!(export_bytes(&result), Err(expected.clone()));
    assert_eq!(write_to_csv(&result, "out", "flags.csv"), Err(expected.clone()));
    assert_eq!(first_unsupported(&result.schema), Some("Boolean".to_string()));
    assert_eq!(row_fields(&result.batches[0], 0), Err(expected));
}

#[test]
fn an_unsupported_column_fails_even_without_rows() {
    let schema = vec![field("flag", ColumnType::Other("Boolean".to_string()))];
    let batch = Batch::new(vec![Column::Other("Boolean".to_string(), 0)], 0).unwrap();
    let result = ResultSet::new(schema, vec![batch]).unwrap();
    assert_eq!(
        export_bytes(&result),
        Err(ExportError::UnsupportedType("Boolean".to_string()))
    );
}

#[test]
fn an_unsupported_cell_names_its_type() {
    let column = Column::Other("Decimal128(10, 2)".to_string(), 4);
    assert_eq!(
        array_value_to_string(&column, 3),
        Err(ExportError::UnsupportedType("Decimal128(10, 2)".to_string()))
    );
}

#[test]
fn a_path_without_a_parent_is_invalid() {
    assert_eq!(write_to_csv(&fares(), "", ""), Err(ExportError::InvalidPath));
    assert_eq!(write_to_csv(&fares(), "/", ""), Err(ExportError::InvalidPath));
    assert_eq!(
        plan_export(&fares(), "report.csv".to_string(), None),
        Err(ExportError::InvalidPath)
    );
}

#[test]
fn an_invalid_path_comes_before_an_unsupported_type() {
    let schema = vec![field("flag", ColumnType::Other("Boolean".to_string()))];
    let batch = Batch::new(vec![Column::Other("Boolean".to_string(), 1)], 1).unwrap();
    let result = ResultSet::new(schema, vec![batch]).unwrap();
    assert_eq!(plan_export(&result, String::new(), None), Err(ExportError::InvalidPath));
}

#[test]
fn a_bare_file_name_has_the_empty_parent() {
    let file = write_to_csv(&fares(), "", "report.csv").expect("export succeeds");
    assert_eq!(file.path, "report.csv");
    assert_eq!(file.directory, "");
}

#[test]
fn plan_carries_path_directory_and_contents() {
    let file = plan_export(&fares(), "a/b/c.csv".to_string(), Some("a/b".to_string())).unwrap();
    assert_eq!(file.path, "a/b/c.csv");
    assert_eq!(file.directory, "a/b");
    assert_eq!(as_text(file.contents), "VendorID,AvgFareAmount\n1,12.5\n2,9.75\n");
}

#[test]
fn header_fields_are_the_names() {
    let schema = vec![field("x", ColumnType::Utf8), field("y", ColumnType::Int32)];
    assert_eq!(header_fields(&schema), vec!["x".to_string(), "y".to_string()]);
    assert_eq!(header_fields(&vec![]), Vec::<String>::new());
}

#[test]
fn push_record_appends_one_encoded_line() {
    let mut out = b"kept\n".to_vec();
    let fields = vec!["a".to_string(), "b,c".to_string(), String::new()];
    assert_eq!(push_record(&mut out, &fields), Ok(()));
    assert_eq!(as_text(out), "kept\na,\"b,c\",\n");
}

#[test]
fn append_encoded_extends_or_reports() {
    let mut out = b"x\n".to_vec();
    assert_eq!(append_encoded(&mut out, Ok(b"y\n".to_vec())), Ok(()));
    assert_eq!(out, b"x\ny\n".to_vec());
    assert_eq!(
        append_encoded(&mut out, Err("disk full".to_string())),
        Err(ExportError::FileSystem("disk full".to_string()))
    );
    assert_eq!(out, b"x\ny\n".to_vec());
}

#[test]
fn messages_describe_each_error() {
    assert_eq!(ExportError::InvalidPath.message(), "Invalid file path");
    assert_eq!(
        ExportError::UnsupportedType("Boolean".to_string()).message(),
        "Unsupported data type: Boolean"
    );
    assert_eq!(ExportError::FileSystem("disk full".to_string()).message(), "disk full");
}

#[test]
fn batches_must_have_columns_of_equal_length() {
    let ragged = vec![Column::Int32(vec![Some(1)]), Column::Utf8(vec![])];
    assert_eq!(Batch::new(ragged, 1), None);
    assert_eq!(Batch::new(vec![Column::Other("Boolean".to_string(), 2)], 3), None);
    let even = Batch::new(vec![Column::Other("Boolean".to_string(), 3)], 3).unwrap();
    assert!(even.is_well_formed());
    assert!(Batch::new(vec![], 5).is_some());
}

#[test]
fn result_sets_must_agree_with_their_schema() {
    let schema = vec![field("n", ColumnType::Int32)];
    let wrong_type = Batch::new(vec![Column::Int64(vec![Some(1)])], 1).unwrap();
    assert_eq!(ResultSet::new(schema.clone(), vec![wrong_type]), None);
    let wrong_width = Batch::new(vec![], 1).unwrap();
    assert_eq!(ResultSet::new(schema.clone(), vec![wrong_width]), None);
    let ragged = Batch { columns: vec![Column::Int32(vec![])], num_rows: 2 };
    assert_eq!(ResultSet::new(schema.clone(), vec![ragged]), None);
    let stamps = vec![field("t", ColumnType::Timestamp(TimeUnit::Second))];
    let other_unit = Batch::new(vec![Column::Timestamp(TimeUnit::Nanosecond, vec![])], 0).unwrap();
    assert_eq!(ResultSet::new(stamps.clone(), vec![other_unit]), None);
    let same_unit = Batch::new(vec![Column::Timestamp(TimeUnit::Second, vec![])], 0).unwrap();
    assert!(ResultSet::new(stamps, vec![same_unit]).is_some());
}

#[test]
fn columns_know_their_type_and_length() {
    assert!(Column::Float64(vec![]).has_type(&ColumnType::Float64));
    assert!(!Column::Int32(vec![]).has_type(&ColumnType::Int64));
    let flags = Column::Other("Boolean".to_string(), 9);
    assert!(flags.has_type(&ColumnType::Other("Boolean".to_string())));
    assert!(!flags.has_type(&ColumnType::Other("Binary".to_string())));
    assert_eq!(flags.num_rows(), 9);
    let stamps = Column::Timestamp(TimeUnit::Millisecond, vec![None, Some(5)]);
    assert!(stamps.has_type(&ColumnType::Timestamp(TimeUnit::Millisecond)));
    assert!(!stamps.has_type(&ColumnType::Timestamp(TimeUnit::Second)));
    assert_eq!(stamps.num_rows(), 2);
}

#[test]
fn a_result_set_without_columns_writes_empty_records() {
    let batch = Batch::new(vec![], 2).unwrap();
    let result = ResultSet::new(vec![], vec![batch]).unwrap();
    assert_eq!(as_text(export_bytes(&result).unwrap()), "\"\"\n\"\"\n\"\"\n");
}

#[test]
fn push_record_succeeds_on_awkward_fields() {
    let mut out = Vec::new();
    assert_eq!(push_record(&mut out, &vec![]), Ok(()));
    assert_eq!(push_record(&mut out, &vec![String::new()]), Ok(()));
    assert_eq!(push_record(&mut out, &vec!["\r\n,\"".to_string(), "\u{e9}".to_string()]), Ok(()));
    assert_eq!(push_record(&mut out, &vec!["a".to_string(); 5]), Ok(()));
    assert_eq!(as_text(out), "\"\"\n\"\"\n\"\r\n,\"\"\",\u{e9}\na,a,a,a,a\n");
}

#[test]
fn a_supported_result_set_always_exports() {
    let schema = vec![field("a,b", ColumnType::Utf8), field("n", ColumnType::Int64)];
    let batch =
        Batch::new(vec![Column::Utf8(vec![text("x\"y")]), Column::Int64(vec![Some(-3)])], 1).unwrap();
    let result = ResultSet::new(schema, vec![batch]).unwrap();
    let file = write_to_csv(&result, "out", "q.csv").expect("export succeeds");
    assert_eq!(as_text(file.contents), "\"a,b\",n\n\"x\"\"y\",-3\n");
}
