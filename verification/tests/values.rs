use quackmire::table::{create_table, Batch};
use quackmire::value::Value;

fn shown(v: Value) -> String {
    v.format()
}

#[test]
fn null_is_empty_text() {
    assert_eq!(shown(Value::Null), "");
}

#[test]
fn truth_values() {
    assert_eq!(shown(Value::Boolean(true)), "true");
    assert_eq!(shown(Value::Boolean(false)), "false");
}

#[test]
fn integers_in_base_ten() {
    assert_eq!(shown(Value::Int(0)), "0");
    assert_eq!(shown(Value::Int(7)), "7");
    assert_eq!(shown(Value::Int(-42)), "-42");
    assert_eq!(shown(Value::Int(1000)), "1000");
    assert_eq!(shown(Value::Int(i64::MAX)), "9223372036854775807");
    assert_eq!(shown(Value::Int(i64::MIN)), "-9223372036854775808");
    assert_eq!(shown(Value::UInt(0)), "0");
    assert_eq!(shown(Value::UInt(10)), "10");
    assert_eq!(shown(Value::UInt(u64::MAX)), "18446744073709551615");
}

#[test]
fn floating_point_keeps_its_rendering() {
    assert_eq!(shown(Value::Decimal(1.5f64.to_string())), "1.5");
    assert_eq!(shown(Value::Decimal(0.1f64.to_string())), "0.1");
}

#[test]
fn dates_as_year_month_day() {
    assert_eq!(shown(Value::Date { year: 2024, month: 3, day: 7 }), "2024-03-07");
    assert_eq!(shown(Value::Date { year: 987, month: 12, day: 31 }), "0987-12-31");
    assert_eq!(shown(Value::Date { year: 0, month: 1, day: 1 }), "0000-01-01");
    assert_eq!(shown(Value::Date { year: -44, month: 3, day: 15 }), "-0044-03-15");
    assert_eq!(shown(Value::Date { year: 12345, month: 10, day: 9 }), "12345-10-09");
}

#[test]
fn text_stands_as_it_is() {
    assert_eq!(shown(Value::Text("a \"b\"\tc".to_string())), "a \"b\"\tc");
    assert_eq!(shown(Value::Text(String::new())), "");
}

#[test]
fn unsupported_type_shows_its_name() {
    assert_eq!(shown(Value::Other("Blob".to_string())), "<Blob>");
}

#[test]
fn batch_becomes_a_grid() {
    let batch = Batch {
        headers: vec!["id".to_string(), "name".to_string(), "ok".to_string()],
        rows: vec![
            vec![Value::Int(1), Value::Text("ann".to_string()), Value::Boolean(true)],
            vec![Value::Int(-20), Value::Null],
        ],
    };
    let t = create_table(batch);
    assert_eq!(t.headers, vec!["id", "name", "ok"]);
    assert_eq!(t.rows, vec![vec!["1", "ann", "true"], vec!["-20", ""]]);
    assert_eq!(t.widths, vec![3, 4, 4]);
}

#[test]
fn batch_without_rows_or_headers() {
    let t = create_table(Batch { headers: vec![], rows: vec![] });
    assert!(t.is_empty());
    let t = create_table(Batch { headers: vec!["only".to_string()], rows: vec![] });
    assert_eq!(t.widths, vec![4]);
    assert!(t.rows.is_empty());
}
