use zonaris::id::Id;
use zonaris::model::oceancolor::OceanColorMapping;
use zonaris::oceancolor::download::{authorization_value, file_name};
use zonaris::oceancolor::search::{
    parse_search_response, SearchItem, SearchItemError, SearchRequest,
};
use zonaris::time::{
    parse_timestamp, TimeError, TimeLayout, Timestamp, FIRST_SECOND, LAST_SECOND,
};

fn pair(name: &str, value: &str) -> (String, String) {
    (String::from(name), String::from(value))
}

#[test]
fn form_params_of_a_search() {
    let sdate = Timestamp::from_secs(1709642096 - 86400).unwrap();
    let edate = Timestamp::from_secs(1709642096).unwrap();
    let request = SearchRequest::new(sdate, edate, &OceanColorMapping::new(Id::new(1), 8, 1102));
    assert_eq!(
        request.form_params(),
        vec![
            pair("results_as_file", "1"),
            pair("sensor_id", "8"),
            pair("dtid", "1102"),
            pair("sdate", "2024-03-04 12:34:56"),
            pair("edate", "2024-03-05 12:34:56"),
            pair("subType", "1"),
        ]
    );
    let request = SearchRequest { sdate, edate, sensor_id: -29, data_id: i32::MIN };
    let params = request.form_params();
    assert_eq!(params[1], pair("sensor_id", "-29"));
    assert_eq!(params[2], pair("dtid", "-2147483648"));
}

#[test]
fn search_answer_lists_one_product_per_line() {
    let items = parse_search_response("A2024065.L2.nc\nA2024066.L2.nc\r\nA2024067.L2.nc");
    let names: Vec<&str> = items.iter().map(|i| i.name().as_str()).collect();
    assert_eq!(names, vec!["A2024065.L2.nc", "A2024066.L2.nc", "A2024067.L2.nc"]);
}

#[test]
fn no_results_answer_is_an_empty_list() {
    assert!(parse_search_response("No Results Found").is_empty());
    assert!(parse_search_response("No Results Found\n").is_empty());
    assert!(parse_search_response("").is_empty());
    // only the one-line answer is the sentinel
    assert_eq!(parse_search_response("No Results Found\nx").len(), 2);
    assert_eq!(parse_search_response("no results found").len(), 1);
    assert_eq!(parse_search_response("\n").len(), 1);
}

#[test]
fn acquisition_time_is_the_second_component_of_the_name() {
    let item = SearchItem::new(String::from("AQUA_MODIS.20240305T123456.L2.SST4.NRT.nc"));
    assert_eq!(item.get_time().unwrap().secs(), 1709642096);
    let item = SearchItem::new(String::from("x.20230102T030405"));
    assert_eq!(item.get_time().unwrap().secs(), 1672628645);
}

#[test]
fn acquisition_time_needs_a_second_component_that_is_a_stamp() {
    let item = SearchItem::new(String::from("A2024065123456"));
    assert_eq!(item.get_time().unwrap_err(), SearchItemError::BadFormat);
    let item = SearchItem::new(String::from(""));
    assert_eq!(item.get_time().unwrap_err(), SearchItemError::BadFormat);
    let item = SearchItem::new(String::from("A.L2.20240305T123456"));
    assert_eq!(item.get_time().unwrap_err(), SearchItemError::BadTimestamp(TimeError::Unreadable));
    let item = SearchItem::new(String::from("A."));
    assert_eq!(item.get_time().unwrap_err(), SearchItemError::BadTimestamp(TimeError::Unreadable));
    let item = SearchItem::new(String::from("A.20241305T123456.nc"));
    assert_eq!(item.get_time().unwrap_err(), SearchItemError::BadTimestamp(TimeError::Unreadable));
}

#[test]
fn search_item_keeps_its_name() {
    let item = SearchItem::new(String::from("a.b"));
    assert_eq!(item.name(), "a.b");
    assert_eq!(item.clone(), item);
}

#[test]
fn timestamps_are_written_in_every_layout() {
    let t = Timestamp::from_secs(1709642096).unwrap();
    assert_eq!(t.format(TimeLayout::Day), "20240305");
    assert_eq!(t.format(TimeLayout::Clock), "123456");
    assert_eq!(t.format(TimeLayout::DayAndClock), "2024-03-05 12:34:56");
    assert_eq!(t.format(TimeLayout::ProductStamp), "20240305T123456");
    let epoch = Timestamp::from_secs(0).unwrap();
    assert_eq!(epoch.format(TimeLayout::DayAndClock), "1970-01-01 00:00:00");
    let before = Timestamp::from_secs(-1).unwrap();
    assert_eq!(before.format(TimeLayout::DayAndClock), "1969-12-31 23:59:59");
    assert_eq!(TimeLayout::Day.as_str(), "%Y%m%d");
    assert_eq!(TimeLayout::Clock.as_str(), "%H%M%S");
    assert_eq!(TimeLayout::DayAndClock.as_str(), "%Y-%m-%d %H:%M:%S");
    assert_eq!(TimeLayout::ProductStamp.as_str(), "%Y%m%dT%H%M%S");
}

#[test]
fn timestamps_are_read_back() {
    let t = parse_timestamp("2024-03-05 12:34:56", TimeLayout::DayAndClock).unwrap();
    assert_eq!(t.secs(), 1709642096);
    assert!(t.same(&Timestamp::from_secs(1709642096).unwrap()));
    assert_eq!(
        parse_timestamp("2024-03-05", TimeLayout::DayAndClock).unwrap_err(),
        TimeError::Unreadable
    );
    assert_eq!(
        parse_timestamp("2024-02-30 00:00:00", TimeLayout::DayAndClock).unwrap_err(),
        TimeError::Unreadable
    );
}

#[test]
fn timestamps_keep_their_nanoseconds() {
    let t = Timestamp::new(1709642096, 123_456_789).unwrap();
    assert_eq!((t.secs(), t.subsec_nanos()), (1709642096, 123_456_789));
    assert_eq!(t.format(TimeLayout::DayAndClock), "2024-03-05 12:34:56");
    let earlier = t.minus_seconds(86400).unwrap();
    assert_eq!((earlier.secs(), earlier.subsec_nanos()), (1709642096 - 86400, 123_456_789));
    assert!(!t.same(&Timestamp::from_secs(1709642096).unwrap()));
    assert_ne!(t, Timestamp::from_secs(1709642096).unwrap());
    assert!(t.same(&Timestamp::new(1709642096, 123_456_789).unwrap()));
    assert_eq!(Timestamp::from_secs(5).unwrap().subsec_nanos(), 0);
    // a second has a thousand million nanoseconds; more is a leap second at best
    assert!(Timestamp::new(0, 2_000_000_000).is_none());
    assert!(Timestamp::new(0, 1_500_000_000).is_none());
    assert!(Timestamp::new(59, 1_500_000_000).is_some());
}

#[test]
fn timestamps_cover_the_calendar_only() {
    assert!(Timestamp::from_secs(i64::MAX).is_none());
    assert!(Timestamp::from_secs(i64::MIN).is_none());
    let t = Timestamp::from_secs(1000).unwrap();
    assert_eq!(t.minus_seconds(1000).unwrap().secs(), 0);
    assert_eq!(t.minus_seconds(-1000).unwrap().secs(), 2000);
    assert!(t.minus_seconds(i64::MAX).is_none());
    assert!(t.minus_seconds(i64::MIN).is_none());
}

#[test]
fn credential_header_value() {
    assert_eq!(authorization_value("dXNlcjpwYXNz"), "Basic dXNlcjpwYXNz");
    assert_eq!(authorization_value(""), "Basic ");
}

#[test]
fn file_name_is_the_last_segment_of_the_path() {
    assert_eq!(file_name("/cgi/getfile/A2024065.L2.nc"), Some(String::from("A2024065.L2.nc")));
    assert_eq!(file_name("/a"), Some(String::from("a")));
    assert_eq!(file_name("/cgi/getfile/"), None);
    assert_eq!(file_name("/"), None);
    assert_eq!(file_name(""), None);
    assert_eq!(file_name("text/plain,Hello"), None);
    assert_eq!(file_name("a"), None);
}

#[test]
fn calendar_reaches_from_its_first_second_to_its_last() {
    assert_eq!(FIRST_SECOND, -8_334_601_228_800);
    assert_eq!(LAST_SECOND, 8_210_266_876_799);
    let first = Timestamp::new(FIRST_SECOND, 0).unwrap();
    assert_eq!(first.format(TimeLayout::DayAndClock), "-262143-01-01 00:00:00");
    assert!(Timestamp::new(FIRST_SECOND - 1, 0).is_none());
    assert!(Timestamp::new(FIRST_SECOND - 1, 999_999_999).is_none());
    let last = Timestamp::new(LAST_SECOND, 999_999_999).unwrap();
    assert_eq!(last.format(TimeLayout::DayAndClock), "+262142-12-31 23:59:59");
    assert!(Timestamp::new(LAST_SECOND + 1, 0).is_none());
    assert!(first.minus_seconds(1).is_none());
    assert!(last.minus_seconds(-1).is_none());
    assert_eq!(last.minus_seconds(LAST_SECOND - FIRST_SECOND).unwrap().secs(), FIRST_SECOND);
}

#[test]
fn nanoseconds_of_a_second_and_more_stand_in_the_last_second_of_a_minute_only() {
    for secs in [59, 119, -1, -61, LAST_SECOND, FIRST_SECOND + 59] {
        assert!(Timestamp::new(secs, 1_000_000_000).is_some(), "{}", secs);
        assert!(Timestamp::new(secs, 1_999_999_999).is_some(), "{}", secs);
        assert!(Timestamp::new(secs, 2_000_000_000).is_none(), "{}", secs);
        assert!(Timestamp::new(secs, u32::MAX).is_none(), "{}", secs);
    }
    for secs in [0, 1, 58, 60, -2, -60, -59, FIRST_SECOND, LAST_SECOND - 1] {
        assert!(Timestamp::new(secs, 999_999_999).is_some(), "{}", secs);
        assert!(Timestamp::new(secs, 1_000_000_000).is_none(), "{}", secs);
    }
    // a leap second keeps its place only a whole number of minutes back
    let leap = Timestamp::new(59, 1_500_000_000).unwrap();
    assert!(leap.minus_seconds(60).is_some());
    assert!(leap.minus_seconds(1).is_none());
}
