use zonaris::id::{HasId, Id};
use zonaris::model::instrument_data::InstrumentData;
use zonaris::model::oceancolor::OceanColorMapping;
use zonaris::oceancolor::job::{
    image_folder, image_path, Action, Directive, Event, Failure, OceanColorJob, Phase,
};
use zonaris::oceancolor::search::SearchItem;
use zonaris::repository::{InMemoryRepository, Repository};
use zonaris::time::Timestamp;

const DAY: i64 = 24 * 60 * 60;

// 2024-03-05 12:34:56 UTC
fn noon() -> Timestamp {
    Timestamp::from_secs(1709642096).unwrap()
}

fn item(name: &str) -> SearchItem {
    SearchItem::new(String::from(name))
}

fn expect_fetch(directive: Directive, item_name: &str, folder: &str, path: &str) {
    match directive.action {
        Action::Fetch(request) => {
            assert_eq!(request.item.name(), item_name);
            assert_eq!(request.folder, folder);
            assert_eq!(request.path, path);
        }
        other => panic!("expected a fetch, got {:?}", other),
    }
}

fn insert(directive: Directive, rows: &mut InMemoryRepository<InstrumentData>) -> Event {
    match directive.action {
        Action::Insert(row) => {
            rows.add(row).unwrap();
            Event::RowInserted { accepted: true }
        }
        other => panic!("expected an insert, got {:?}", other),
    }
}

#[test]
fn first_tick_with_two_items_stores_two_rows_and_moves_the_watermark() {
    let mut rows = InMemoryRepository::<InstrumentData>::new();
    let mut job = OceanColorJob::new(DAY);
    assert_eq!(job.last_date(), None);
    assert_eq!(job.phase(), Phase::Idle);

    let directive = job.step(Event::Tick { now: noon() });
    assert!(matches!(directive.action, Action::LoadMappings));
    assert_eq!(directive.report, None);
    // the watermark moves before any work is done
    assert_eq!(job.last_date(), Some(noon()));
    assert_eq!(job.phase(), Phase::LoadingMappings);
    let window = job.window().unwrap();
    assert_eq!(window.sdate.secs(), 1709642096 - DAY);
    assert_eq!(window.edate, noon());

    let mapping = OceanColorMapping::new(Id::new(7), 8, 1102);
    let directive = job.step(Event::MappingsLoaded { mappings: vec![mapping] });
    assert_eq!(directive.report, None);
    match directive.action {
        Action::Search(request) => {
            assert_eq!(request.sdate.secs(), 1709642096 - DAY);
            assert_eq!(request.edate, noon());
            assert_eq!(request.sensor_id, 8);
            assert_eq!(request.data_id, 1102);
        }
        other => panic!("expected a search, got {:?}", other),
    }

    let directive = job.step(Event::SearchCompleted {
        items: vec![item("T2024065.L2.SST4.nc"), item("T2024066.L2.SST4.nc")],
        at: noon(),
    });
    assert_eq!(directive.report, None);
    expect_fetch(
        directive,
        "T2024065.L2.SST4.nc",
        "images/20240305",
        "images/20240305/123456_0.png",
    );
    let directive = job.step(Event::ItemStored);
    assert_eq!(directive.report, None);
    let event = insert(directive, &mut rows);
    let directive = job.step(event);
    assert_eq!(directive.report, None);
    expect_fetch(
        directive,
        "T2024066.L2.SST4.nc",
        "images/20240305",
        "images/20240305/123456_1.png",
    );
    let directive = job.step(Event::ItemStored);
    let event = insert(directive, &mut rows);
    let directive = job.step(event);
    assert!(matches!(directive.action, Action::Finish));
    assert_eq!(directive.report, None);

    assert_eq!(job.phase(), Phase::Idle);
    assert_eq!(job.last_date(), Some(noon()));
    let mut stored: Vec<(i32, String)> = rows
        .get_all()
        .unwrap()
        .iter()
        .map(|row| {
            assert!(row.get_id().is_some());
            (row.get_satellite_instrument_id().id().value(), row.get_path().clone())
        })
        .collect();
    stored.sort();
    assert_eq!(
        stored,
        vec![
            (7, String::from("images/20240305/123456_0.png")),
            (7, String::from("images/20240305/123456_1.png")),
        ]
    );
}

#[test]
fn failed_second_download_stores_one_row_and_the_window_is_not_retried() {
    let mut rows = InMemoryRepository::<InstrumentData>::new();
    let mut job = OceanColorJob::new(DAY);
    job.step(Event::Tick { now: noon() });
    job.step(Event::MappingsLoaded { mappings: vec![OceanColorMapping::new(Id::new(7), 8, 1102)] });
    job.step(Event::SearchCompleted { items: vec![item("a.nc"), item("b.nc")], at: noon() });
    let directive = job.step(Event::ItemStored);
    let event = insert(directive, &mut rows);
    let directive = job.step(event);
    assert!(matches!(directive.action, Action::Fetch(_)));

    let directive = job.step(Event::ItemFailed);
    assert_eq!(directive.report, Some(Failure::ItemFailed { mapping: 0, item: 1 }));
    assert!(matches!(directive.action, Action::Finish));
    assert_eq!(job.phase(), Phase::Idle);
    assert_eq!(rows.get_all().unwrap().len(), 1);
    assert_eq!(job.last_date(), Some(noon()));

    // the next tick searches from the watermark on
    let later = Timestamp::from_secs(1709642096 + 600).unwrap();
    let directive = job.step(Event::Tick { now: later });
    assert!(matches!(directive.action, Action::LoadMappings));
    let directive =
        job.step(Event::MappingsLoaded { mappings: vec![OceanColorMapping::new(Id::new(7), 8, 1102)] });
    match directive.action {
        Action::Search(request) => {
            assert_eq!(request.sdate, noon());
            assert_eq!(request.edate, later);
        }
        other => panic!("expected a search, got {:?}", other),
    }
    assert_eq!(job.last_date(), Some(later));
}

#[test]
fn failure_ends_one_mapping_and_the_others_go_on() {
    let mut job = OceanColorJob::new(DAY);
    job.step(Event::Tick { now: noon() });
    let mappings = vec![
        OceanColorMapping::new(Id::new(1), 8, 1102),
        OceanColorMapping::new(Id::new(2), 7, 1062),
        OceanColorMapping::new(Id::new(3), 29, 1267),
    ];
    let directive = job.step(Event::MappingsLoaded { mappings });
    assert!(matches!(directive.action, Action::Search(r) if r.sensor_id == 8));

    // the search of the first mapping fails
    let directive = job.step(Event::SearchFailed);
    assert_eq!(directive.report, Some(Failure::SearchFailed { mapping: 0 }));
    assert!(matches!(directive.action, Action::Search(r) if r.sensor_id == 7 && r.data_id == 1062));

    // the first of three items of the second mapping fails: the other two are left out
    let directive = job.step(Event::SearchCompleted {
        items: vec![item("a"), item("b"), item("c")],
        at: noon(),
    });
    assert!(matches!(directive.action, Action::Fetch(_)));
    let directive = job.step(Event::ItemFailed);
    assert_eq!(directive.report, Some(Failure::ItemFailed { mapping: 1, item: 0 }));
    assert!(matches!(directive.action, Action::Search(r) if r.sensor_id == 29));

    // the insert of the row of the third mapping's only item fails
    let directive = job.step(Event::SearchCompleted { items: vec![item("d")], at: noon() });
    assert!(matches!(directive.action, Action::Fetch(_)));
    let directive = job.step(Event::ItemStored);
    match &directive.action {
        Action::Insert(row) => {
            assert_eq!(row.get_satellite_instrument_id().id(), Id::new(3));
            assert_eq!(row.get_path(), "images/20240305/123456_0.png");
            assert_eq!(row.get_id(), None);
        }
        other => panic!("expected an insert, got {:?}", other),
    }
    let directive = job.step(Event::RowFailed);
    assert_eq!(directive.report, Some(Failure::RowFailed { mapping: 2, item: 0 }));
    assert!(matches!(directive.action, Action::Finish));
    assert_eq!(job.phase(), Phase::Idle);
}

#[test]
fn empty_search_result_is_no_error() {
    let mut job = OceanColorJob::new(DAY);
    job.step(Event::Tick { now: noon() });
    job.step(Event::MappingsLoaded {
        mappings: vec![
            OceanColorMapping::new(Id::new(1), 8, 1102),
            OceanColorMapping::new(Id::new(2), 7, 1062),
        ],
    });
    let directive = job.step(Event::SearchCompleted { items: vec![], at: noon() });
    assert_eq!(directive.report, None);
    assert!(matches!(directive.action, Action::Search(r) if r.sensor_id == 7));
    let directive = job.step(Event::SearchCompleted { items: vec![], at: noon() });
    assert_eq!(directive.report, None);
    assert!(matches!(directive.action, Action::Finish));
}

#[test]
fn tick_without_mappings_finishes_at_once() {
    let mut job = OceanColorJob::new(DAY);
    job.step(Event::Tick { now: noon() });
    let directive = job.step(Event::MappingsLoaded { mappings: vec![] });
    assert!(matches!(directive.action, Action::Finish));
    assert_eq!(directive.report, None);
    assert_eq!(job.last_date(), Some(noon()));
}

#[test]
fn unavailable_mappings_end_the_tick_but_keep_the_new_watermark() {
    let mut job = OceanColorJob::new(DAY);
    job.step(Event::Tick { now: noon() });
    let directive = job.step(Event::MappingsFailed);
    assert_eq!(directive.report, Some(Failure::MappingsUnavailable));
    assert!(matches!(directive.action, Action::Finish));
    assert_eq!(job.phase(), Phase::Idle);
    assert_eq!(job.last_date(), Some(noon()));
    assert!(job.window().is_none());
}

#[test]
fn rejected_row_is_reported_and_the_next_item_is_taken_up() {
    let mut job = OceanColorJob::new(DAY);
    job.step(Event::Tick { now: noon() });
    job.step(Event::MappingsLoaded { mappings: vec![OceanColorMapping::new(Id::new(7), 8, 1102)] });
    job.step(Event::SearchCompleted { items: vec![item("a"), item("b")], at: noon() });
    job.step(Event::ItemStored);
    let directive = job.step(Event::RowInserted { accepted: false });
    assert_eq!(directive.report, Some(Failure::RowRejected { mapping: 0, item: 0 }));
    expect_fetch(directive, "b", "images/20240305", "images/20240305/123456_1.png");
}

#[test]
fn events_out_of_turn_change_nothing() {
    let mut job = OceanColorJob::new(DAY);
    for event in [
        Event::MappingsFailed,
        Event::SearchFailed,
        Event::ItemStored,
        Event::ItemFailed,
        Event::RowFailed,
        Event::RowInserted { accepted: true },
        Event::MappingsLoaded { mappings: vec![] },
        Event::SearchCompleted { items: vec![], at: noon() },
    ] {
        let directive = job.step(event);
        assert_eq!(directive.report, Some(Failure::OutOfTurn));
        assert!(matches!(directive.action, Action::Ignore));
        assert_eq!(job.phase(), Phase::Idle);
        assert_eq!(job.last_date(), None);
    }
    job.step(Event::Tick { now: noon() });
    // a second tick while the first is in work is not taken up
    let later = Timestamp::from_secs(1709642096 + 60).unwrap();
    let directive = job.step(Event::Tick { now: later });
    assert_eq!(directive.report, Some(Failure::OutOfTurn));
    assert!(matches!(directive.action, Action::Ignore));
    assert_eq!(job.phase(), Phase::LoadingMappings);
    assert_eq!(job.last_date(), Some(noon()));
}

#[test]
fn window_start_out_of_range_leaves_the_job_untouched() {
    let mut job = OceanColorJob::new(i64::MAX);
    let directive = job.step(Event::Tick { now: noon() });
    assert_eq!(directive.report, Some(Failure::ClockOutOfRange));
    assert!(matches!(directive.action, Action::Finish));
    assert_eq!(job.last_date(), None);
    assert_eq!(job.phase(), Phase::Idle);

    let mut job = OceanColorJob::new(i64::MIN);
    let directive = job.step(Event::Tick { now: noon() });
    assert_eq!(directive.report, Some(Failure::ClockOutOfRange));
    assert_eq!(job.last_date(), None);
}

#[test]
fn watermark_keeps_the_instant_of_the_tick_to_the_nanosecond() {
    let now = Timestamp::new(1709642096, 999_999_999).unwrap();
    let mut job = OceanColorJob::new(DAY);
    job.step(Event::Tick { now });
    assert_eq!(job.last_date(), Some(now));
    let window = job.window().unwrap();
    assert_eq!((window.sdate.secs(), window.sdate.subsec_nanos()), (1709642096 - DAY, 999_999_999));
    assert_eq!(window.edate, now);
}

#[test]
fn image_paths_follow_the_layout() {
    assert_eq!(image_folder("20240305"), "images/20240305");
    assert_eq!(image_path("images/20240305", "123456", 0), "images/20240305/123456_0.png");
    assert_eq!(image_path("images/20240305", "000001", 12), "images/20240305/000001_12.png");
    assert_eq!(image_path("f", "t", 1234567), "f/t_1234567.png");
}
