use zonaris::celestrak::{CelestrakServiceDefault, Query};
use zonaris::dto::{
    GetAssetRequest, GetBySatelliteIdRequest, InstrumentDataResponse, SatelliteResponse,
};
use zonaris::id::{HasId, Id};
use zonaris::model::instrument_data::InstrumentData;
use zonaris::model::oceancolor::OceanColorMapping;
use zonaris::model::satellite::Satellite;
use zonaris::model::satellite_data::SatelliteData;
use zonaris::model::satellite_instrument::SatelliteInstrument;
use zonaris::oceancolor::service::OceanColorServiceDefault;
use zonaris::repository::{InMemoryRepository, Repository, RepositoryError};
use zonaris::service::{
    instrument_data_of_satellite, satellite_data_of_satellite, InstrumentDataService,
    InstrumentDataServiceDefault, SatelliteDataService, SatelliteDataServiceDefault,
    SatelliteService, SatelliteServiceDefault,
};
use zonaris::sql::schema_statements;
use zonaris::time::Timestamp;

fn pairing(id: i32, satellite: i32, instrument: i32) -> SatelliteInstrument {
    let mut pairing = SatelliteInstrument::new(Id::new(satellite), Id::new(instrument));
    pairing.set_id(Id::new(id));
    pairing
}

fn data(pairing: i32, path: &str) -> InstrumentData {
    InstrumentData::new(Id::new(pairing), String::from(path))
}

fn paths(found: &Vec<InstrumentData>) -> Vec<String> {
    found.iter().map(|d| d.get_path().clone()).collect()
}

#[test]
fn data_of_a_satellite_is_what_its_pairings_are_tied_to() {
    let pairings = vec![pairing(10, 1, 100), pairing(11, 2, 100), pairing(12, 1, 101)];
    let all = vec![data(10, "a"), data(11, "b"), data(12, "c"), data(10, "d"), data(99, "e")];
    assert_eq!(paths(&instrument_data_of_satellite(&pairings, &all, Id::new(1))), vec!["a", "c", "d"]);
    assert_eq!(paths(&instrument_data_of_satellite(&pairings, &all, Id::new(2))), vec!["b"]);
    assert!(instrument_data_of_satellite(&pairings, &all, Id::new(3)).is_empty());
    assert!(instrument_data_of_satellite(&vec![], &all, Id::new(1)).is_empty());
    assert!(instrument_data_of_satellite(&pairings, &vec![], Id::new(1)).is_empty());
}

#[test]
fn data_of_a_satellite_is_listed_once_however_often_its_pairing_is() {
    let pairings = vec![pairing(10, 1, 100), pairing(10, 1, 100), pairing(-3, 1, 101)];
    let all = vec![data(-3, "a"), data(10, "b"), data(3, "c")];
    assert_eq!(paths(&instrument_data_of_satellite(&pairings, &all, Id::new(1))), vec!["a", "b"]);
}

#[test]
fn pairings_that_are_not_stored_tie_nothing() {
    let unstored = SatelliteInstrument::new(Id::new(1), Id::new(100));
    let all = vec![data(0, "a")];
    assert!(instrument_data_of_satellite(&vec![unstored], &all, Id::new(1)).is_empty());
}

#[test]
fn assets_of_a_satellite() {
    let all = vec![
        SatelliteData::new(1, String::from("a")),
        SatelliteData::new(2, String::from("b")),
        SatelliteData::new(1, String::from("c")),
    ];
    let found: Vec<String> =
        satellite_data_of_satellite(&all, 1).iter().map(|d| d.path().clone()).collect();
    assert_eq!(found, vec!["a", "c"]);
    assert!(satellite_data_of_satellite(&all, 3).is_empty());
}

#[test]
fn instrument_data_service_over_repositories() {
    let mut pairings = InMemoryRepository::<SatelliteInstrument>::new();
    let terra_modis = pairings.add(SatelliteInstrument::new(Id::new(1), Id::new(100))).unwrap();
    let aqua_modis = pairings.add(SatelliteInstrument::new(Id::new(2), Id::new(100))).unwrap();
    let mut service =
        InstrumentDataServiceDefault::new(pairings, InMemoryRepository::<InstrumentData>::new());
    assert_eq!(service.add_data(data(terra_modis.value(), "a")), Ok(true));
    assert_eq!(service.add_data(data(aqua_modis.value(), "b")), Ok(true));
    assert_eq!(service.add_data(data(terra_modis.value(), "c")), Ok(true));

    let stored = service.get_by_id(Id::new(1)).unwrap().unwrap();
    assert_eq!(stored.get_path(), "b");
    assert_eq!(stored.get_id(), Some(Id::new(1)));
    assert!(service.get_by_id(Id::new(7)).unwrap().is_none());

    let mut found = paths(&service.get_by_satellite_id(Id::new(1)).unwrap());
    found.sort();
    assert_eq!(found, vec!["a", "c"]);
    assert!(service.get_by_satellite_id(Id::new(9)).unwrap().is_empty());
}

#[test]
fn satellite_services_over_repositories() {
    let mut satellites = InMemoryRepository::<Satellite>::new();
    satellites.add(Satellite::new("TERRA", "1 25994U", "2 25994").unwrap()).unwrap();
    let service = SatelliteServiceDefault::new(satellites);
    let all = service.get_all().unwrap();
    assert_eq!(all.len(), 1);
    assert_eq!(all[0].get_name(), "TERRA");

    let mut service = SatelliteDataServiceDefault::new(InMemoryRepository::<SatelliteData>::new());
    assert!(service.add_data(SatelliteData::new(1, String::from("a"))));
    assert!(service.add_data(SatelliteData::new(2, String::from("b"))));
    let mut clash = SatelliteData::new(1, String::from("c"));
    clash.set_id(Id::new(0));
    assert!(!service.add_data(clash));
    let found = service.get_by_satellite_id(1).unwrap();
    assert_eq!(found.len(), 1);
    assert_eq!(found[0].path(), "a");
}

#[test]
fn answers_show_stored_entities() {
    let mut satellite = Satellite::new("TERRA", "1 25994U", "2 25994").unwrap();
    satellite.set_id(Id::new(4));
    assert_eq!(
        SatelliteResponse::from(satellite),
        SatelliteResponse {
            id: Id::new(4),
            name: String::from("TERRA"),
            tle1: String::from("1 25994U"),
            tle2: String::from("2 25994"),
        }
    );
    let mut stored = data(1, "a");
    stored.set_id(Id::new(8));
    assert_eq!(InstrumentDataResponse::from(stored), InstrumentDataResponse { id: Id::new(8) });
}

#[test]
fn requests_carry_an_id() {
    let mut request = GetBySatelliteIdRequest::new(Id::new(1));
    assert_eq!(request.get_id(), Id::new(1));
    request.set_id(Id::new(2));
    assert_eq!(request.get_id(), Id::new(2));
    let mut request = GetAssetRequest::new(Id::new(3));
    assert_eq!(request.get_id(), Id::new(3));
    request.set_id(Id::new(4));
    assert_eq!(request.get_id(), Id::new(4));
}

#[test]
fn catalogue_service_names_its_endpoint_and_reads_answers() {
    let service = CelestrakServiceDefault::new();
    assert_eq!(service.endpoint(), "https://celestrak.org/NORAD/elements/gp.php");
    let params = service.request(&Query::CATNR(41335));
    assert_eq!(params[0], (String::from("CATNR"), String::from("41335")));
    assert_eq!(params[1], (String::from("FORMAT"), String::from("TLE")));
    assert_eq!(service.read("S3A\n1 41335U\n2 41335").unwrap().len(), 1);
    assert!(service.read("No GP data found").unwrap().is_empty());
}

#[test]
fn provider_service_names_its_endpoints_and_credential() {
    let service = OceanColorServiceDefault::new("dXNlcjpwYXNz");
    assert_eq!(service.search_endpoint(), "https://oceandata.sci.gsfc.nasa.gov/api/file_search");
    assert_eq!(service.download_endpoint(), "https://oceandata.sci.gsfc.nasa.gov/cgi/getfile/");
    assert_eq!(service.variable(), "sst4");
    assert_eq!(service.authorization(), "Basic dXNlcjpwYXNz");
    let t = Timestamp::from_secs(0).unwrap();
    let request = service.search(t, t, &OceanColorMapping::new(Id::new(1), 7, 1062));
    assert_eq!((request.sensor_id, request.data_id), (7, 1062));
    assert_eq!(request.sdate, t);
    assert_eq!(service.read_search("a\nb").len(), 2);
    assert!(service.read_search("No Results Found").is_empty());
}

#[test]
fn schema_creates_every_table_once() {
    let statements = schema_statements();
    assert_eq!(statements.len(), 5);
    for (statement, table) in statements.iter().zip([
        "satellite",
        "instrument",
        "satellite_instrument",
        "ocean_color_mapping",
        "instrument_data",
    ]) {
        assert!(statement.starts_with(&format!("CREATE TABLE IF NOT EXISTS {} (id SERIAL PRIMARY KEY", table)));
        assert!(statement.ends_with(");"));
    }
    assert!(statements[0].contains("catnr BIGINT"));
    assert!(statements[2].contains("satellite_id INTEGER NOT NULL REFERENCES satellite,"));
    assert!(statements[4].contains("path VARCHAR NOT NULL"));
}

#[test]
fn asset_is_taken_exactly_when_the_stored_assets_allow_it() {
    let mut service = SatelliteDataServiceDefault::new(
        InMemoryRepository::<SatelliteData>::starting_at(i32::MAX),
    );
    // one identifier is left
    assert!(service.add_data(SatelliteData::new(1, String::from("a"))));
    // none is left
    assert!(!service.add_data(SatelliteData::new(1, String::from("b"))));
    // a free identifier the asset brings along is honoured
    let mut preset = SatelliteData::new(1, String::from("c"));
    preset.set_id(Id::new(5));
    assert!(service.add_data(preset));
    // a taken one is not
    let mut clash = SatelliteData::new(2, String::from("d"));
    clash.set_id(Id::new(5));
    assert!(!service.add_data(clash));
    let mut found: Vec<String> =
        service.get_by_satellite_id(1).unwrap().iter().map(|d| d.path().clone()).collect();
    found.sort();
    assert_eq!(found, vec!["a", "c"]);
    assert!(service.get_by_satellite_id(2).unwrap().is_empty());
}

#[test]
fn services_over_memory_do_not_fail_on_reads_and_free_ids() {
    let mut service = InstrumentDataServiceDefault::new(
        InMemoryRepository::<SatelliteInstrument>::new(),
        InMemoryRepository::<InstrumentData>::starting_at(i32::MAX),
    );
    assert!(service.get_by_id(Id::new(0)).unwrap().is_none());
    assert!(service.get_by_satellite_id(Id::new(0)).unwrap().is_empty());
    assert_eq!(service.add_data(data(1, "a")), Ok(true));
    // no identifier is left
    assert_eq!(service.add_data(data(1, "b")), Err(RepositoryError::BackendFailure));
    let mut clash = data(1, "c");
    clash.set_id(Id::new(i32::MAX));
    assert_eq!(service.add_data(clash), Err(RepositoryError::Conflict));
    assert_eq!(service.get_by_id(Id::new(i32::MAX)).unwrap().unwrap().get_path(), "a");
}
