use zonaris::celestrak::{
    apply_refresh, parse_gp_response, query_params, refresh_query, satellite_from_answer,
    AnswerError, CelestrakError, Query, RefreshError, TleError, TLE,
};
use zonaris::id::{HasId, Id};
use zonaris::model::satellite::Satellite;

const TLE1: &str = "1 25994U 99068A   24065.50000000  .00000500  00000-0  11500-3 0  9991";
const TLE2: &str = "2 25994  98.0600 130.0000 0001000  90.0000 270.0000 14.57000000283000";

fn pair(name: &str, value: &str) -> (String, String) {
    (String::from(name), String::from(value))
}

#[test]
fn catalog_number_is_read_from_columns_three_to_seven() {
    assert_eq!(TLE::new("TERRA", TLE1, TLE2).get_catnr(), Ok(25994));
    assert_eq!(TLE::new("x", "1 00005U", "").get_catnr(), Ok(5));
    assert_eq!(TLE::new("x", "1 +1234", "").get_catnr(), Ok(1234));
    assert_eq!(TLE::new("x", "1 99999", "").get_catnr(), Ok(99999));
}

#[test]
fn catalog_number_must_be_digits() {
    for line in ["", "1 2599", "1     5U", "1 2599AU", "1 -1234", "1 12 34", "1 +    "] {
        assert_eq!(TLE::new("x", line, "").get_catnr(), Err(TleError::BadCatalogNumber), "{}", line);
    }
}

#[test]
fn catalog_number_is_counted_in_bytes() {
    // One character of two bytes, then the field.
    assert_eq!(TLE::new("x", "\u{e9}1234567", "").get_catnr(), Ok(12345));
    // One character of four bytes reaches into the field.
    assert_eq!(TLE::new("x", "\u{1f6f0}00042", "").get_catnr(), Err(TleError::BadCatalogNumber));
    let satellite = Satellite::new("x", "\u{e9}1234567", "").unwrap();
    assert_eq!(satellite.get_catnr(), Some(12345));
    assert_eq!(satellite.get_tle1(), "\u{e9}1234567");
    let one = satellite_from_answer(vec![TLE::new("x", "\u{e9}0004267", "2")]).unwrap();
    assert_eq!(one.get_catnr(), Some(42));
}

#[test]
fn catalog_number_needs_five_bytes_of_its_own() {
    for line in [
        // The field starts within a character.
        "1\u{e9}345678",
        // The field ends within a character.
        "1 2345\u{e9}",
        // A character of more than one byte stands in the field.
        "1 12\u{e9}45",
        "1 \u{ff11}\u{ff12}",
        // Seven bytes, but not one digit.
        "\u{e9}\u{e9}\u{e9}1",
        // Six bytes hold no field.
        "1 2345",
    ] {
        assert_eq!(TLE::new("x", line, "").get_catnr(), Err(TleError::BadCatalogNumber), "{}", line);
        assert_eq!(Satellite::new("x", line, "").unwrap_err(), TleError::BadCatalogNumber);
    }
}

#[test]
fn satellite_is_made_from_an_element_set() {
    let satellite = Satellite::new("TERRA", TLE1, TLE2).unwrap();
    assert_eq!(satellite.get_id(), None);
    assert_eq!(satellite.get_name(), "TERRA");
    assert_eq!(satellite.get_catnr(), Some(25994));
    assert_eq!(satellite.get_tle1(), TLE1);
    assert_eq!(satellite.get_tle2(), TLE2);
    let satellite = Satellite::try_from(TLE::new("AQUA", "1 27424U", "2 27424")).unwrap();
    assert_eq!(satellite.get_catnr(), Some(27424));
    assert_eq!(Satellite::new("x", "garbage", "").unwrap_err(), TleError::BadCatalogNumber);
}

#[test]
fn query_params_name_the_query_and_ask_for_element_sets() {
    assert_eq!(query_params(&Query::CATNR(25994)), vec![pair("CATNR", "25994"), pair("FORMAT", "TLE")]);
    assert_eq!(query_params(&Query::CATNR(0)), vec![pair("CATNR", "0"), pair("FORMAT", "TLE")]);
    assert_eq!(
        query_params(&Query::CATNR(u32::MAX)),
        vec![pair("CATNR", "4294967295"), pair("FORMAT", "TLE")]
    );
    assert_eq!(
        query_params(&Query::INTDES(String::from("1999-068"))),
        vec![pair("INTDES", "1999-068"), pair("FORMAT", "TLE")]
    );
    assert_eq!(
        query_params(&Query::GROUP(String::from("weather"))),
        vec![pair("GROUP", "weather"), pair("FORMAT", "TLE")]
    );
    assert_eq!(
        query_params(&Query::NAME(String::from("TERRA"))),
        vec![pair("NAME", "TERRA"), pair("FORMAT", "TLE")]
    );
    assert_eq!(
        query_params(&Query::SPECIAL(String::from("gpz"))),
        vec![pair("SPECIAL", "gpz"), pair("FORMAT", "TLE")]
    );
}

#[test]
fn answer_of_element_sets_is_read_in_groups_of_three() {
    let text = format!("TERRA   \r\n{}\r\n{}\r\nAQUA\n1 27424U\n2 27424\n", TLE1, TLE2);
    let tles = parse_gp_response(&text).unwrap();
    assert_eq!(tles.len(), 2);
    assert_eq!(tles[0].name, "TERRA   ");
    assert_eq!(tles[0].tle1, TLE1);
    assert_eq!(tles[0].tle2, TLE2);
    assert_eq!(tles[1].name, "AQUA");
    assert_eq!(tles[1].tle1, "1 27424U");
    assert_eq!(tles[1].tle2, "2 27424");
}

#[test]
fn no_data_answer_is_an_empty_list() {
    assert!(parse_gp_response("No GP data found").unwrap().is_empty());
    assert!(parse_gp_response("No GP data found\n").unwrap().is_empty());
    assert!(parse_gp_response("No GP data found\r\n").unwrap().is_empty());
    assert!(parse_gp_response("").unwrap().is_empty());
}

#[test]
fn invalid_query_answer_is_told_apart() {
    assert_eq!(
        parse_gp_response("Invalid query: \"\"").unwrap_err(),
        CelestrakError::InvalidQuery
    );
    assert_eq!(
        parse_gp_response("Invalid query: \"\"\n").unwrap_err(),
        CelestrakError::InvalidQuery
    );
}

#[test]
fn other_answers_must_come_in_groups_of_three() {
    assert_eq!(
        parse_gp_response("no gp data found").unwrap_err(),
        CelestrakError::InvalidOutputFormat
    );
    assert_eq!(
        parse_gp_response("Invalid query: \"x\"").unwrap_err(),
        CelestrakError::InvalidOutputFormat
    );
    assert_eq!(parse_gp_response("a\nb").unwrap_err(), CelestrakError::InvalidOutputFormat);
    assert_eq!(parse_gp_response("a\nb\nc\nd").unwrap_err(), CelestrakError::InvalidOutputFormat);
    assert_eq!(
        parse_gp_response("No GP data found\nNo GP data found").unwrap_err(),
        CelestrakError::InvalidOutputFormat
    );
    let three = parse_gp_response("No GP data found\nb\nc").unwrap();
    assert_eq!(three.len(), 1);
    assert_eq!(three[0].name, "No GP data found");
}

#[test]
fn error_messages() {
    assert_eq!(CelestrakError::InvalidQuery.message(), "invalid query");
    assert_eq!(CelestrakError::InvalidOutputFormat.message(), "invalid output format");
}

#[test]
fn refresh_asks_by_catalog_number() {
    let mut satellite = Satellite::new("TERRA", TLE1, TLE2).unwrap();
    assert_eq!(refresh_query(&satellite), Err(RefreshError::MissingId));
    satellite.set_id(Id::new(1));
    assert_eq!(refresh_query(&satellite), Ok(Some(Query::CATNR(25994))));
    satellite.set_catnr(None);
    assert_eq!(refresh_query(&satellite), Ok(None));
    satellite.set_catnr(Some(-1));
    assert_eq!(refresh_query(&satellite), Err(RefreshError::CatalogNumberOutOfRange));
    satellite.set_catnr(Some(u32::MAX as i64 + 1));
    assert_eq!(refresh_query(&satellite), Err(RefreshError::CatalogNumberOutOfRange));
    satellite.set_catnr(Some(u32::MAX as i64));
    assert_eq!(refresh_query(&satellite), Ok(Some(Query::CATNR(u32::MAX))));
}

#[test]
fn refresh_takes_the_lines_of_exactly_one_element_set() {
    let mut satellite = Satellite::new("TERRA", TLE1, TLE2).unwrap();
    satellite.set_id(Id::new(1));
    let refreshed =
        apply_refresh(satellite.clone(), vec![TLE::new("other name", "new 1", "new 2")]).unwrap();
    assert_eq!(refreshed.get_id(), Some(Id::new(1)));
    assert_eq!(refreshed.get_name(), "TERRA");
    assert_eq!(refreshed.get_catnr(), Some(25994));
    assert_eq!(refreshed.get_tle1(), "new 1");
    assert_eq!(refreshed.get_tle2(), "new 2");

    assert_eq!(apply_refresh(satellite.clone(), vec![]).unwrap_err(), RefreshError::NotExactlyOne);
    assert_eq!(
        apply_refresh(satellite, vec![TLE::new("a", "b", "c"), TLE::new("d", "e", "f")])
            .unwrap_err(),
        RefreshError::NotExactlyOne
    );
}

#[test]
fn answer_of_exactly_one_element_set_gives_a_satellite() {
    let satellite = satellite_from_answer(vec![TLE::new("TERRA", TLE1, TLE2)]).unwrap();
    assert_eq!(satellite.get_id(), None);
    assert_eq!(satellite.get_name(), "TERRA");
    assert_eq!(satellite.get_catnr(), Some(25994));
    assert_eq!(satellite.get_tle1(), TLE1);
    assert_eq!(satellite.get_tle2(), TLE2);
    assert_eq!(satellite_from_answer(vec![]).unwrap_err(), AnswerError::NotExactlyOne);
    assert_eq!(
        satellite_from_answer(vec![TLE::new("a", TLE1, TLE2), TLE::new("b", TLE1, TLE2)])
            .unwrap_err(),
        AnswerError::NotExactlyOne
    );
    assert_eq!(
        satellite_from_answer(vec![TLE::new("a", "short", "")]).unwrap_err(),
        AnswerError::BadCatalogNumber
    );
}
