use zonaris::id::{HasId, Id};
use zonaris::mapping::row::{ColumnValuePair, SqlValue, Table};
use zonaris::model::instrument::Instrument;
use zonaris::model::oceancolor::OceanColorMapping;
use zonaris::repository::RepositoryError;
use zonaris::sql::Statements;

#[test]
fn select_statements() {
    let statements = Statements::new("satellite");
    let one = statements.get(Id::new(4));
    assert_eq!(one.text, "SELECT * FROM satellite WHERE id = $1 LIMIT 1");
    assert_eq!(one.params, vec![SqlValue::Integer(4)]);
    let all = statements.get_all();
    assert_eq!(all.text, "SELECT * FROM satellite");
    assert!(all.params.is_empty());
}

#[test]
fn insert_statement_numbers_one_placeholder_per_column() {
    let statements = Statements::new("ocean_color_mapping");
    let statement = statements.add(&OceanColorMapping::new(Id::new(3), 8, 1102).flatten());
    assert_eq!(
        statement.text,
        "INSERT INTO ocean_color_mapping (satellite_instrument_id, sensor_id, data_id) VALUES ($1, $2, $3) RETURNING id"
    );
    assert_eq!(
        statement.params,
        vec![SqlValue::Integer(3), SqlValue::Integer(8), SqlValue::Integer(1102)]
    );
    let statement = Statements::new("instrument").add(&Instrument::new("MODIS").flatten());
    assert_eq!(statement.text, "INSERT INTO instrument (name) VALUES ($1) RETURNING id");
    assert_eq!(statement.params, vec![SqlValue::Text(String::from("MODIS"))]);
}

#[test]
fn update_statement_puts_the_identifier_last() {
    let statements = Statements::new("ocean_color_mapping");
    let statement =
        statements.update(&OceanColorMapping::new(Id::new(3), 8, 1102).flatten(), Id::new(12));
    assert_eq!(
        statement.text,
        "UPDATE ocean_color_mapping SET satellite_instrument_id = $1, sensor_id = $2, data_id = $3 WHERE id = $4"
    );
    assert_eq!(
        statement.params,
        vec![
            SqlValue::Integer(3),
            SqlValue::Integer(8),
            SqlValue::Integer(1102),
            SqlValue::Integer(12)
        ]
    );
}

#[test]
fn delete_statement() {
    let statement = Statements::new("instrument_data").delete(Id::new(-2));
    assert_eq!(statement.text, "DELETE FROM instrument_data WHERE id = $1");
    assert_eq!(statement.params, vec![SqlValue::Integer(-2)]);
}

#[test]
fn statements_without_columns_and_with_many() {
    let statements = Statements::new("t");
    assert_eq!(statements.add(&vec![]).text, "INSERT INTO t () VALUES () RETURNING id");
    assert_eq!(statements.update(&vec![], Id::new(1)).text, "UPDATE t SET  WHERE id = $1");
    let cells: Vec<ColumnValuePair> =
        (0..12).map(|i| ColumnValuePair::new(&format!("c{}", i), SqlValue::Null)).collect();
    let text = statements.add(&cells).text;
    assert!(text.ends_with("VALUES ($1, $2, $3, $4, $5, $6, $7, $8, $9, $10, $11, $12) RETURNING id"));
    assert!(statements.update(&cells, Id::new(1)).text.ends_with("c11 = $12 WHERE id = $13"));
}

#[test]
fn update_of_an_entity_needs_its_id() {
    let statements = Statements::new("instrument");
    let mut instrument = Instrument::new("MODIS");
    assert_eq!(statements.update_of(&instrument).unwrap_err(), RepositoryError::MissingId);
    instrument.set_id(Id::new(7));
    let statement = statements.update_of(&instrument).unwrap();
    assert_eq!(statement.text, "UPDATE instrument SET name = $1 WHERE id = $2");
    assert_eq!(
        statement.params,
        vec![SqlValue::Text(String::from("MODIS")), SqlValue::Integer(7)]
    );
    let mut mapping = OceanColorMapping::new(Id::new(3), 8, 1102);
    mapping.set_id(Id::new(-1));
    let statement = Statements::new("ocean_color_mapping").update_of(&mapping).unwrap();
    assert_eq!(
        statement.text,
        "UPDATE ocean_color_mapping SET satellite_instrument_id = $1, sensor_id = $2, data_id = $3 WHERE id = $4"
    );
    assert_eq!(statement.params[3], SqlValue::Integer(-1));
}
