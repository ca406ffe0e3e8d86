use bulk_loader::statement::ScalarStatement;
use bulk_loader::values::SqlValue;

#[test]
fn money_statement_binds_two_positional_parameters() {
    let mut stmt = ScalarStatement::new(String::from(
        "INSERT INTO random_money (a_smallmoney_column, a_money_column) VALUES (@P1, @P2)",
    ));
    stmt.bind(SqlValue::Int(Some(1316)));
    stmt.bind(SqlValue::Float(Some(701321588.2505f64.to_bits())));
    assert_eq!(stmt.param_count(), 2);
    assert_eq!(stmt.param_at(0), &SqlValue::Int(Some(1316)));
    assert_eq!(
        stmt.param_at(1),
        &SqlValue::Float(Some(701321588.2505f64.to_bits()))
    );
    assert_eq!(
        stmt.sql_text(),
        "INSERT INTO random_money (a_smallmoney_column, a_money_column) VALUES (@P1, @P2)"
    );
}

#[test]
fn parameters_keep_their_positional_order() {
    let mut stmt = ScalarStatement::new(String::from(
        "INSERT INTO random_text_image (a_text_column, a_ntext_column, a_image_column) VALUES (@P1, @P2, @P3)",
    ));
    stmt.bind(SqlValue::Text(Some(String::from("There is text data in the row"))));
    stmt.bind(SqlValue::Text(Some(String::from("There is ntext data in the row"))));
    stmt.bind(SqlValue::Binary(Some(vec![1, 5])));
    assert_eq!(stmt.param_count(), 3);
    assert_eq!(
        stmt.param_at(0),
        &SqlValue::Text(Some(String::from("There is text data in the row")))
    );
    assert_eq!(
        stmt.param_at(2),
        &SqlValue::Binary(Some(vec![1, 5]))
    );
}

#[test]
fn unicode_text_is_kept_byte_for_byte() {
    let original = String::from("SSD \u{1F5C4}\u{FE0F}: 0 and CD \u{1F4BF}");
    let mut stmt = ScalarStatement::new(String::from(
        "INSERT INTO random_string (a_nvarchar_column) VALUES (@P1)",
    ));
    stmt.bind(SqlValue::Text(Some(original.clone())));
    match stmt.param_at(0) {
        SqlValue::Text(Some(t)) => {
            assert_eq!(t, &original);
            assert_eq!(t.as_bytes(), original.as_bytes());
        },
        other => panic!("unexpected parameter: {:?}", other),
    }

    let mut row = bulk_loader::row::Row::new();
    row.push(SqlValue::Text(Some(original.clone())));
    match row.get(0) {
        SqlValue::Text(Some(t)) => {
            assert_eq!(t, &original);
            assert_eq!(t.as_bytes(), original.as_bytes());
        },
        other => panic!("unexpected value: {:?}", other),
    }
}

#[test]
fn xml_payload_round_trips_through_a_row() {
    let xml = String::from(
        "<calculator>\n    <hex base=\"16\">163</hex>\n    <dec base=\"10\">355</dec>\n</calculator>",
    );
    let mut row = bulk_loader::row::Row::new();
    row.push(SqlValue::Xml(Some(xml.clone())));
    assert_eq!(row.get(0), &SqlValue::Xml(Some(xml)));
}
