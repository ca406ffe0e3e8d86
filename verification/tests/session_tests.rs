use bulk_loader::row::Row;
use bulk_loader::schema::ColumnType;
use bulk_loader::session::{load_rows, BulkSession, SessionError};
use bulk_loader::values::{Date, DateTime, Decimal, SqlValue, Time};

fn bit_row(b: Option<bool>) -> Row {
    let mut r = Row::new();
    r.push(SqlValue::Bit(b));
    r
}

#[test]
fn finalize_on_empty_session_reports_zero() {
    let mut s = BulkSession::open(String::from("random_bit"), vec![ColumnType::Bit]);
    assert_eq!(s.finalize(), Ok(0));
    assert!(s.finalized());
}

#[test]
fn send_after_finalize_fails_fast() {
    let mut s = BulkSession::open(String::from("random_bit"), vec![ColumnType::Bit]);
    assert_eq!(s.send(&bit_row(Some(true))), Ok(()));
    assert_eq!(s.finalize(), Ok(1));
    assert_eq!(s.send(&bit_row(Some(false))), Err(SessionError::SessionFinalized));
    assert_eq!(s.rows_sent(), 1);
}

#[test]
fn finalize_twice_fails_fast() {
    let mut s = BulkSession::open(String::from("random_bit"), vec![ColumnType::Bit]);
    assert_eq!(s.finalize(), Ok(0));
    assert_eq!(s.finalize(), Err(SessionError::SessionFinalized));
}

#[test]
fn hundred_thousand_alternating_bits_count_exactly() {
    let mut rows: Vec<Row> = Vec::new();
    for i in 0..100000u32 {
        let bit = match i % 2 {
            0 => Some(false),
            _ => Some(true),
        };
        rows.push(bit_row(bit));
    }
    let result = load_rows(String::from("random_bit"), vec![ColumnType::Bit], &rows);
    assert_eq!(result, Ok(100000));
}

#[test]
fn arity_mismatch_is_reported_and_changes_nothing() {
    let mut s = BulkSession::open(
        String::from("random_integer"),
        vec![ColumnType::TinyInt, ColumnType::SmallInt, ColumnType::Int, ColumnType::BigInt],
    );
    let mut short = Row::new();
    short.push(SqlValue::TinyInt(Some(7)));
    assert_eq!(
        s.send(&short),
        Err(SessionError::ColumnCountMismatch { expected: 4, found: 1 })
    );
    assert_eq!(s.rows_sent(), 0);
    assert!(!s.finalized());
}

#[test]
fn first_mismatching_column_is_named() {
    let mut s = BulkSession::open(
        String::from("random_integer"),
        vec![ColumnType::TinyInt, ColumnType::SmallInt, ColumnType::Int, ColumnType::BigInt],
    );
    let mut row = Row::new();
    row.push(SqlValue::TinyInt(Some(1)));
    row.push(SqlValue::SmallInt(Some(2)));
    row.push(SqlValue::BigInt(Some(3)));
    row.push(SqlValue::BigInt(Some(4)));
    assert_eq!(s.send(&row), Err(SessionError::ColumnTypeMismatch { column: 2 }));
    assert_eq!(s.rows_sent(), 0);
}

#[test]
fn accepted_rows_count_up_in_order() {
    let mut s = BulkSession::open(
        String::from("random_integer"),
        vec![ColumnType::TinyInt, ColumnType::SmallInt, ColumnType::Int, ColumnType::BigInt],
    );
    for i in 0..1000u32 {
        let mut row = Row::with_capacity(4);
        row.push(SqlValue::TinyInt(Some(i as u8)));
        row.push(SqlValue::SmallInt(Some(i as i16)));
        row.push(SqlValue::Int(Some(i as i32)));
        row.push(SqlValue::BigInt(Some(i as i64)));
        assert_eq!(s.send(&row), Ok(()));
        assert_eq!(s.rows_sent(), (i + 1) as u64);
    }
    assert_eq!(s.finalize(), Ok(1000));
}

#[test]
fn load_rows_stops_at_first_refused_row() {
    let mut rows: Vec<Row> = Vec::new();
    rows.push(bit_row(Some(true)));
    rows.push(bit_row(None));
    let mut wrong = Row::new();
    wrong.push(SqlValue::Int(Some(3)));
    rows.push(wrong);
    rows.push(bit_row(Some(false)));
    let result = load_rows(String::from("random_bit"), vec![ColumnType::Bit], &rows);
    assert_eq!(result, Err(SessionError::ColumnTypeMismatch { column: 0 }));
}

#[test]
fn mixed_column_row_is_accepted_whole() {
    let columns = vec![
        ColumnType::Bit,
        ColumnType::Float,
        ColumnType::TinyInt,
        ColumnType::SmallInt,
        ColumnType::Int,
        ColumnType::BigInt,
        ColumnType::Decimal { precision: 38, scale: 0 },
        ColumnType::Decimal { precision: 38, scale: 0 },
        ColumnType::Char { length: 40 },
        ColumnType::NChar { length: 40 },
        ColumnType::VarChar { limit: Some(40) },
        ColumnType::NVarChar { limit: Some(40) },
        ColumnType::Binary { length: 4 },
        ColumnType::VarBinary { limit: Some(4) },
        ColumnType::Guid,
        ColumnType::DateTimeOffset,
    ];
    let mut rows: Vec<Row> = Vec::new();
    for i in 0..100u32 {
        let mut row = Row::with_capacity(16);
        row.push(SqlValue::Bit(Some(i % 3 == 0)));
        row.push(SqlValue::Float(Some(((i + 1) as f64).to_bits())));
        row.push(SqlValue::TinyInt(Some(i as u8)));
        row.push(SqlValue::SmallInt(Some(-1)));
        row.push(SqlValue::Int(Some((i + 4) as i32)));
        row.push(SqlValue::BigInt(Some((i + 5) as i64)));
        row.push(SqlValue::Decimal(Some(Decimal { mantissa: 30024, scale: 0 })));
        row.push(SqlValue::Decimal(Some(Decimal { mantissa: 29540577, scale: 0 })));
        row.push(SqlValue::Text(Some(format!("{0} strawberry", i))));
        row.push(SqlValue::Text(Some(format!("{0} blueberry \u{1FAD0}", i))));
        row.push(SqlValue::Text(Some(format!("{0} kiwi", i))));
        row.push(SqlValue::Text(Some(format!("{0} tangerine \u{1F34A}", i))));
        row.push(SqlValue::Binary(Some((i as i32).to_le_bytes().to_vec())));
        row.push(SqlValue::Binary(Some((i as i32).to_le_bytes().to_vec())));
        row.push(SqlValue::Guid(Some(i as u128)));
        let dt = DateTime::new(
            Date::new(2023, 10, 1).unwrap(),
            Time::new((i % 60) as u32, 0).unwrap(),
        );
        row.push(SqlValue::DateTimeOffset(
            bulk_loader::values::DateTimeOffset::new(dt, 0),
        ));
        rows.push(row);
    }
    let result = load_rows(String::from("random_data_several_columns"), columns, &rows);
    assert_eq!(result, Ok(100));
}

#[test]
fn every_supported_type_round_trips_through_a_row() {
    let date = Date::new(2022, 8, 1).unwrap();
    let time = Time::new(59, 123456789).unwrap();
    let dt = DateTime::new(date, time);
    let dto = bulk_loader::values::DateTimeOffset::new(dt, -330).unwrap();
    let values = vec![
        SqlValue::Bit(Some(true)),
        SqlValue::TinyInt(Some(255)),
        SqlValue::SmallInt(Some(-32768)),
        SqlValue::Int(Some(-2147483648)),
        SqlValue::BigInt(Some(i64::MIN)),
        SqlValue::Real(Some(1.5f32.to_bits())),
        SqlValue::Float(Some(701321588.2505f64.to_bits())),
        SqlValue::Decimal(Some(Decimal { mantissa: -1690601, scale: 6 })),
        SqlValue::Text(Some(String::from("CD \u{1F4BF}: 0"))),
        SqlValue::Binary(Some(vec![0, 255, 10])),
        SqlValue::Guid(Some(0xbf3ba35b44de49dc86eaf1b5c69bcc8e)),
        SqlValue::Date(Some(date)),
        SqlValue::Time(Some(time)),
        SqlValue::DateTime(Some(dt)),
        SqlValue::DateTimeOffset(Some(dto)),
        SqlValue::Xml(Some(String::from("<a>1</a>"))),
        SqlValue::Text(None),
    ];
    let mut row = Row::new();
    for v in &values {
        row.push(v.clone());
    }
    assert_eq!(row.len(), values.len());
    for (i, v) in values.iter().enumerate() {
        assert_eq!(row.get(i), v);
    }
    assert_eq!(1.5f32, f32::from_bits(1.5f32.to_bits()));
    assert_eq!(701321588.2505f64, f64::from_bits(701321588.2505f64.to_bits()));
}

#[test]
fn a_row_can_be_checked_before_it_is_sent() {
    let columns = vec![ColumnType::Bit, ColumnType::Int];
    let mut good = Row::new();
    good.push(SqlValue::Bit(None));
    good.push(SqlValue::Int(Some(-7)));
    assert!(good.matches_columns(&columns));
    let mut short = Row::new();
    short.push(SqlValue::Bit(Some(true)));
    assert!(!short.matches_columns(&columns));
    let mut wrong = Row::new();
    wrong.push(SqlValue::Bit(Some(true)));
    wrong.push(SqlValue::BigInt(Some(3)));
    assert!(!wrong.matches_columns(&columns));
}

#[test]
fn rows_hand_back_pushed_values_unchanged() {
    let mut row = Row::new();
    let guid: u128 = 0xbf3ba35b44de49dc86eaf1b5c69bcc8e;
    row.push(SqlValue::Guid(Some(guid ^ 17)));
    row.push(SqlValue::Binary(Some(vec![1, 5])));
    assert_eq!(row.len(), 2);
    assert_eq!(row.get(0), &SqlValue::Guid(Some(guid ^ 17)));
    assert_eq!(row.get(1), &SqlValue::Binary(Some(vec![1, 5])));
}
