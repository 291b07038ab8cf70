use zonaris::id::Id;
use zonaris::mapping::directive::DeriveInput;
use zonaris::mapping::property::{impl_property_macro, AccessorMode};
use zonaris::mapping::row::{ColumnValuePair, Table};
use zonaris::mapping::table::impl_table_macro;
use zonaris::model::instrument::Instrument;
use zonaris::model::instrument_data::InstrumentData;
use zonaris::model::oceancolor::OceanColorMapping;
use zonaris::model::satellite::Satellite;
use zonaris::model::satellite_instrument::SatelliteInstrument;

fn columns(cells: &Vec<ColumnValuePair>) -> Vec<String> {
    cells.iter().map(|cell| String::from(cell.column())).collect()
}

fn accessors(input: &DeriveInput) -> Vec<(String, AccessorMode)> {
    impl_property_macro(input)
        .unwrap()
        .accessors
        .iter()
        .map(|accessor| (accessor.name.clone(), accessor.mode))
        .collect()
}

fn by_value(name: &str) -> (String, AccessorMode) {
    (String::from(name), AccessorMode::GetByValue)
}

fn by_reference(name: &str) -> (String, AccessorMode) {
    (String::from(name), AccessorMode::GetByReference)
}

fn setter(name: &str) -> (String, AccessorMode) {
    (String::from(name), AccessorMode::Assign)
}

#[test]
fn instrument_mapping_follows_its_declaration() {
    let declaration = Instrument::declaration();
    let plan = impl_table_macro(&declaration).unwrap();
    assert_eq!(plan.target, "Instrument");
    assert_eq!(plan.identity, Some(String::from("id")));
    assert_eq!(plan.hydrate_columns, vec!["id", "name"]);
    assert_eq!(plan.flatten_columns, columns(&Instrument::new("MODIS").flatten()));
    assert_eq!(accessors(&declaration), vec![by_reference("get_name"), setter("set_name")]);
}

#[test]
fn satellite_mapping_follows_its_declaration() {
    let declaration = Satellite::declaration();
    let plan = impl_table_macro(&declaration).unwrap();
    assert_eq!(plan.target, "Satellite");
    assert_eq!(plan.identity, Some(String::from("id")));
    assert_eq!(plan.hydrate_columns, vec!["id", "name", "catnr", "tle1", "tle2"]);
    let satellite = Satellite::new("TERRA", "1 25994U", "2 25994").unwrap();
    assert_eq!(plan.flatten_columns, columns(&satellite.flatten()));
    assert_eq!(
        accessors(&declaration),
        vec![
            by_value("get_id"),
            setter("set_id"),
            by_reference("get_name"),
            setter("set_name"),
            by_value("get_catnr"),
            setter("set_catnr"),
            by_reference("get_tle1"),
            setter("set_tle1"),
            by_reference("get_tle2"),
            setter("set_tle2"),
        ]
    );
}

#[test]
fn satellite_instrument_mapping_follows_its_declaration() {
    let declaration = SatelliteInstrument::declaration();
    let plan = impl_table_macro(&declaration).unwrap();
    assert_eq!(plan.target, "SatelliteInstrument");
    assert_eq!(plan.identity, Some(String::from("id")));
    assert_eq!(plan.hydrate_columns, vec!["id", "satellite_id", "instrument_id"]);
    let pairing = SatelliteInstrument::new(Id::new(1), Id::new(2));
    assert_eq!(plan.flatten_columns, columns(&pairing.flatten()));
    assert_eq!(
        accessors(&declaration),
        vec![
            by_value("get_satellite_id"),
            setter("set_satellite_id"),
            by_value("get_instrument_id"),
            setter("set_instrument_id"),
        ]
    );
}

#[test]
fn instrument_data_mapping_follows_its_declaration() {
    let declaration = InstrumentData::declaration();
    let plan = impl_table_macro(&declaration).unwrap();
    assert_eq!(plan.target, "InstrumentData");
    assert_eq!(plan.identity, Some(String::from("id")));
    assert_eq!(plan.hydrate_columns, vec!["id", "satellite_instrument_id", "path"]);
    let data = InstrumentData::new(Id::new(1), String::from("p"));
    assert_eq!(plan.flatten_columns, columns(&data.flatten()));
    assert_eq!(
        accessors(&declaration),
        vec![
            by_value("get_satellite_instrument_id"),
            setter("set_satellite_instrument_id"),
            by_reference("get_path"),
            setter("set_path"),
        ]
    );
}

#[test]
fn ocean_color_mapping_follows_its_declaration() {
    let declaration = OceanColorMapping::declaration();
    let plan = impl_table_macro(&declaration).unwrap();
    assert_eq!(plan.target, "OceanColorMapping");
    assert_eq!(plan.identity, Some(String::from("id")));
    assert_eq!(
        plan.hydrate_columns,
        vec!["id", "satellite_instrument_id", "sensor_id", "data_id"]
    );
    let mapping = OceanColorMapping::new(Id::new(1), 8, 1102);
    assert_eq!(plan.flatten_columns, columns(&mapping.flatten()));
    assert_eq!(
        accessors(&declaration),
        vec![
            by_value("get_satellite_instrument_id"),
            setter("set_satellite_instrument_id"),
            by_value("get_sensor_id"),
            setter("set_sensor_id"),
            by_value("get_data_id"),
            setter("set_data_id"),
        ]
    );
}
