//! The ingestion job as a state machine.
//!
//! The job keeps one watermark: the instant up to which the provider has been
//! searched. A tick moves the watermark to the present before any work is
//! done, then walks through the mappings: one search per mapping, and for
//! every product found a download that is rendered and written to disk,
//! followed by the insert of its row. The machine decides what is done next;
//! its caller does the work and reports how it went.

use crate::model::instrument_data::{InstrumentData, InstrumentDataView};
use crate::model::oceancolor::OceanColorMapping;
use crate::oceancolor::search::{SearchItem, SearchRequest};
use crate::text::{decimal, decimal_string};
use crate::time::{utc_text, TimeLayout, Timestamp, FIRST_SECOND, LAST_SECOND};
use vstd::prelude::*;

verus! {

/// The folder that holds the images of one day.
pub open spec fn folder_text(day: Seq<char>) -> Seq<char> {
    "images/"@ + day
}

/// The path of the image with a given index among those of one search.
pub open spec fn image_path_text(folder: Seq<char>, fileset: Seq<char>, index: nat) -> Seq<char> {
    folder + "/"@ + fileset + "_"@ + decimal(index) + ".png"@
}

/// The folder of the images stored at `at`.
pub open spec fn folder_at(at: Timestamp) -> Seq<char> {
    folder_text(utc_text(at.seconds(), at.nanoseconds(), TimeLayout::Day.pattern()))
}

/// The path of the image with a given index among those stored at `at`.
pub open spec fn path_at(at: Timestamp, index: nat) -> Seq<char> {
    image_path_text(
        folder_at(at),
        utc_text(at.seconds(), at.nanoseconds(), TimeLayout::Clock.pattern()),
        index,
    )
}

/// The folder that holds the images of the day written as `day`.
pub fn image_folder(day: &str) -> (folder: String)
    ensures
        folder@ == folder_text(day@),
{
    String::from_str("images/").concat(day)
}

/// The path of an image: in `folder`, named by the time of day `fileset` and
/// its index.
pub fn image_path(folder: &str, fileset: &str, index: usize) -> (path: String)
    ensures
        path@ == image_path_text(folder@, fileset@, index as nat),
{
    let number = decimal_string(index as u64);
    String::from_str(folder).concat("/").concat(fileset).concat("_").concat(
        number.as_str(),
    ).concat(".png")
}

/// The stretch of time one tick searches.
#[derive(Clone, Copy, Debug)]
pub struct Window {
    pub sdate: Timestamp,
    pub edate: Timestamp,
}

/// What the job is waiting for.
#[derive(Clone, Copy, PartialEq, Eq, Structural, Debug)]
pub enum Phase {
    /// The next tick.
    Idle,
    /// The mappings.
    LoadingMappings,
    /// The search result of the mapping in work.
    Searching,
    /// The image of the item in work to be fetched, rendered and written.
    Fetching,
    /// The row of the item in work to be inserted.
    Storing,
}

/// What went wrong, for the log.
#[derive(Clone, Copy, PartialEq, Eq, Structural, Debug)]
pub enum Failure {
    /// The start of the window cannot be computed: it lies outside the range of
    /// calendar dates.
    ClockOutOfRange,
    /// The mappings could not be loaded.
    MappingsUnavailable,
    /// The search for a mapping failed.
    SearchFailed { mapping: usize },
    /// An item could not be fetched, decoded, rendered or written.
    ItemFailed { mapping: usize, item: usize },
    /// The storage did not take the row of an item.
    RowRejected { mapping: usize, item: usize },
    /// The insert of the row of an item failed.
    RowFailed { mapping: usize, item: usize },
    /// An event arrived that the job was not waiting for.
    OutOfTurn,
}

/// What the caller reports to the job.
#[derive(Debug)]
pub enum Event {
    /// The timer fired at `now`.
    Tick { now: Timestamp },
    /// The mappings were loaded.
    MappingsLoaded { mappings: Vec<OceanColorMapping> },
    /// The mappings could not be loaded.
    MappingsFailed,
    /// The search returned at `at` with these items, in the service's order.
    SearchCompleted { items: Vec<SearchItem>, at: Timestamp },
    /// The search failed.
    SearchFailed,
    /// The image of the item in work was fetched, rendered and written.
    ItemStored,
    /// The item in work could not be fetched, decoded, rendered or written.
    ItemFailed,
    /// The insert of the row returned; `accepted` tells whether the storage
    /// took the row.
    RowInserted { accepted: bool },
    /// The insert of the row failed.
    RowFailed,
}

/// One image to fetch: the product, the folder to make sure of, and the path
/// to write the rendered image to.
#[derive(Debug)]
pub struct FetchRequest {
    pub item: SearchItem,
    pub folder: String,
    pub path: String,
}

/// What the caller is to do next.
#[derive(Debug)]
pub enum Action {
    /// Nothing until the next tick.
    Finish,
    /// Nothing new: the event was not waited for.
    Ignore,
    /// Load all mappings.
    LoadMappings,
    /// Search the provider.
    Search(SearchRequest),
    /// Fetch a product, render it and write the image.
    Fetch(FetchRequest),
    /// Insert the row of a stored image.
    Insert(InstrumentData),
}

/// Mathematical value of an [`Action`].
pub enum ActionView {
    Finish,
    Ignore,
    LoadMappings,
    Search(SearchRequest),
    Fetch { item: Seq<char>, folder: Seq<char>, path: Seq<char> },
    Insert(InstrumentDataView),
}

impl View for Action {
    type V = ActionView;

    open spec fn view(&self) -> ActionView {
        match self {
            Action::Finish => ActionView::Finish,
            Action::Ignore => ActionView::Ignore,
            Action::LoadMappings => ActionView::LoadMappings,
            Action::Search(request) => ActionView::Search(*request),
            Action::Fetch(request) => ActionView::Fetch {
                item: request.item@,
                folder: request.folder@,
                path: request.path@,
            },
            Action::Insert(row) => ActionView::Insert(row@),
        }
    }
}

/// The answer of the job to an event: what to log, if anything, and what to
/// do next.
#[derive(Debug)]
pub struct Directive {
    pub report: Option<Failure>,
    pub action: Action,
}

/// Mathematical value of a [`Directive`].
pub struct DirectiveView {
    pub report: Option<Failure>,
    pub action: ActionView,
}

impl View for Directive {
    type V = DirectiveView;

    open spec fn view(&self) -> DirectiveView {
        DirectiveView { report: self.report, action: self.action@ }
    }
}

/// The ingestion job: its settings, its watermark, and how far the tick in
/// work has come.
#[derive(Debug)]
pub struct OceanColorJob {
    not_found_duration: i64,
    last_date: Option<Timestamp>,
    phase: Phase,
    window: Option<Window>,
    mappings: Vec<OceanColorMapping>,
    current: usize,
    items: Vec<SearchItem>,
    next_item: usize,
    found_at: Option<Timestamp>,
}

/// Mathematical value of an [`OceanColorJob`].
#[verifier::ext_equal]
pub struct JobView {
    /// How far back, in seconds, the first tick searches.
    pub lookback: int,
    /// The instant up to which the provider has been searched.
    pub watermark: Option<Timestamp>,
    pub phase: Phase,
    /// The window of the tick in work.
    pub window: Option<Window>,
    /// The mappings of the tick in work.
    pub mappings: Seq<OceanColorMapping>,
    /// Index of the mapping in work.
    pub current: int,
    /// The items found for the mapping in work.
    pub items: Seq<SearchItem>,
    /// Index of the item in work.
    pub next_item: int,
    /// When the search for the mapping in work returned.
    pub found_at: Option<Timestamp>,
}

impl JobView {
    /// What holds of the job in each phase: a tick in work has its window, a
    /// mapping in work is one of the mappings, and an item in work is one of
    /// the items found, with the instant they were found at.
    pub open spec fn wf(self) -> bool {
        &&& self.phase != Phase::Idle ==> self.window is Some
        &&& (self.phase == Phase::Searching || self.phase == Phase::Fetching || self.phase
            == Phase::Storing) ==> 0 <= self.current < self.mappings.len()
        &&& (self.phase == Phase::Fetching || self.phase == Phase::Storing) ==> 0
            <= self.next_item < self.items.len() && self.found_at is Some
    }

    /// The job at rest, with its settings and watermark kept.
    pub open spec fn at_rest(self) -> JobView {
        JobView {
            lookback: self.lookback,
            watermark: self.watermark,
            phase: Phase::Idle,
            window: None,
            mappings: Seq::empty(),
            current: 0,
            items: Seq::empty(),
            next_item: 0,
            found_at: None,
        }
    }

    /// Where the window of a tick at `now` starts: at the watermark, or, where
    /// there is none yet, the lookback before `now`.
    pub open spec fn window_start(self, now: Timestamp) -> Option<Timestamp> {
        match self.watermark {
            Some(watermark) => Some(watermark),
            None => now.earlier(self.lookback),
        }
    }

    /// Takes up the mapping at `index`, or comes to rest where the mappings
    /// are used up.
    pub open spec fn begin_mapping(self, index: int, report: Option<Failure>) -> (
        JobView,
        DirectiveView,
    ) {
        if 0 <= index < self.mappings.len() {
            (
                JobView {
                    phase: Phase::Searching,
                    current: index,
                    items: Seq::empty(),
                    next_item: 0,
                    found_at: None,
                    ..self
                },
                DirectiveView {
                    report,
                    action: ActionView::Search(
                        SearchRequest {
                            sdate: self.window->0.sdate,
                            edate: self.window->0.edate,
                            sensor_id: self.mappings[index]@.sensor_id,
                            data_id: self.mappings[index]@.data_id,
                        },
                    ),
                },
            )
        } else {
            (self.at_rest(), DirectiveView { report, action: ActionView::Finish })
        }
    }

    /// Takes up the item at `index`, or the next mapping where the items are
    /// used up.
    pub open spec fn begin_item(self, index: int, report: Option<Failure>) -> (
        JobView,
        DirectiveView,
    ) {
        if 0 <= index < self.items.len() {
            (
                JobView { phase: Phase::Fetching, next_item: index, ..self },
                DirectiveView {
                    report,
                    action: ActionView::Fetch {
                        item: self.items[index]@,
                        folder: folder_at(self.found_at->0),
                        path: path_at(self.found_at->0, index as nat),
                    },
                },
            )
        } else {
            self.begin_mapping(self.current + 1, report)
        }
    }

    /// The row of the item in work: it belongs to the pairing of the mapping
    /// in work and lies at the path the image was written to.
    pub open spec fn row_in_work(self) -> InstrumentDataView {
        InstrumentDataView {
            id: None,
            satellite_instrument_id: self.mappings[self.current]@.satellite_instrument_id,
            path: path_at(self.found_at->0, self.next_item as nat),
        }
    }

    /// The transition of the job: the state after an event, and the answer to
    /// it.
    ///
    /// A tick moves the watermark to `now` at once and asks for the mappings.
    /// A failure while one mapping is in work ends the work on that mapping
    /// only: the job goes on with the next one. An event the job was not
    /// waiting for changes nothing.
    pub open spec fn step(self, event: Event) -> (JobView, DirectiveView) {
        match (self.phase, event) {
            (Phase::Idle, Event::Tick { now }) => match self.window_start(now) {
                None => (
                    self,
                    DirectiveView {
                        report: Some(Failure::ClockOutOfRange),
                        action: ActionView::Finish,
                    },
                ),
                Some(sdate) => (
                    JobView {
                        watermark: Some(now),
                        phase: Phase::LoadingMappings,
                        window: Some(Window { sdate, edate: now }),
                        ..self.at_rest()
                    },
                    DirectiveView { report: None, action: ActionView::LoadMappings },
                ),
            },
            (Phase::LoadingMappings, Event::MappingsLoaded { mappings }) => JobView {
                mappings: mappings@,
                ..self
            }.begin_mapping(0, None),
            (Phase::LoadingMappings, Event::MappingsFailed) => (
                self.at_rest(),
                DirectiveView {
                    report: Some(Failure::MappingsUnavailable),
                    action: ActionView::Finish,
                },
            ),
            (Phase::Searching, Event::SearchCompleted { items, at }) => JobView {
                items: items@,
                found_at: Some(at),
                ..self
            }.begin_item(0, None),
            (Phase::Searching, Event::SearchFailed) => self.begin_mapping(
                self.current + 1,
                Some(Failure::SearchFailed { mapping: self.current as usize }),
            ),
            (Phase::Fetching, Event::ItemStored) => (
                JobView { phase: Phase::Storing, ..self },
                DirectiveView { report: None, action: ActionView::Insert(self.row_in_work()) },
            ),
            (Phase::Fetching, Event::ItemFailed) => self.begin_mapping(
                self.current + 1,
                Some(
                    Failure::ItemFailed {
                        mapping: self.current as usize,
                        item: self.next_item as usize,
                    },
                ),
            ),
            (Phase::Storing, Event::RowInserted { accepted }) => self.begin_item(
                self.next_item + 1,
                if accepted {
                    None
                } else {
                    Some(
                        Failure::RowRejected {
                            mapping: self.current as usize,
                            item: self.next_item as usize,
                        },
                    )
                },
            ),
            (Phase::Storing, Event::RowFailed) => self.begin_mapping(
                self.current + 1,
                Some(
                    Failure::RowFailed {
                        mapping: self.current as usize,
                        item: self.next_item as usize,
                    },
                ),
            ),
            _ => (
                self,
                DirectiveView { report: Some(Failure::OutOfTurn), action: ActionView::Ignore },
            ),
        }
    }
}

impl View for OceanColorJob {
    type V = JobView;

    closed spec fn view(&self) -> JobView {
        JobView {
            lookback: self.not_found_duration as int,
            watermark: self.last_date,
            phase: self.phase,
            window: self.window,
            mappings: self.mappings@,
            current: self.current as int,
            items: self.items@,
            next_item: self.next_item as int,
            found_at: self.found_at,
        }
    }
}

impl OceanColorJob {
    #[verifier::type_invariant]
    spec fn sound(self) -> bool {
        self@.wf()
    }

    /// A job at rest that has never run. The first tick searches
    /// `not_found_duration` seconds back.
    pub fn new(not_found_duration: i64) -> (job: Self)
        ensures
            job@.wf(),
            job@ == (JobView {
                lookback: not_found_duration as int,
                watermark: None,
                phase: Phase::Idle,
                window: None,
                mappings: Seq::empty(),
                current: 0,
                items: Seq::empty(),
                next_item: 0,
                found_at: None,
            }),
    {
        Self {
            not_found_duration,
            last_date: None,
            phase: Phase::Idle,
            window: None,
            mappings: Vec::new(),
            current: 0,
            items: Vec::new(),
            next_item: 0,
            found_at: None,
        }
    }

    /// The instant up to which the provider has been searched.
    pub fn last_date(&self) -> (watermark: Option<Timestamp>)
        ensures
            watermark == self@.watermark,
    {
        self.last_date
    }

    /// What the job is waiting for.
    pub fn phase(&self) -> (phase: Phase)
        ensures
            phase == self@.phase,
    {
        self.phase
    }

    /// The window of the tick in work.
    pub fn window(&self) -> (window: Option<Window>)
        ensures
            window == self@.window,
    {
        self.window
    }

    fn rest(&mut self)
        ensures
            final(self)@ == old(self)@.at_rest(),
    {
        self.phase = Phase::Idle;
        self.window = None;
        self.mappings = Vec::new();
        self.current = 0;
        self.items = Vec::new();
        self.next_item = 0;
        self.found_at = None;
    }

    fn begin_mapping(&mut self, index: usize, report: Option<Failure>) -> (directive: Directive)
        requires
            old(self)@.window is Some,
        ensures
            final(self)@ == old(self)@.begin_mapping(index as int, report).0,
            directive@ == old(self)@.begin_mapping(index as int, report).1,
            final(self)@.wf(),
    {
        if index < self.mappings.len() {
            let window = self.window.unwrap();
            let request = SearchRequest::new(window.sdate, window.edate, &self.mappings[index]);
            self.phase = Phase::Idle;
            self.current = index;
            self.items = Vec::new();
            self.next_item = 0;
            self.found_at = None;
            self.phase = Phase::Searching;
            Directive { report, action: Action::Search(request) }
        } else {
            self.rest();
            Directive { report, action: Action::Finish }
        }
    }

    fn begin_item(&mut self, index: usize, report: Option<Failure>) -> (directive: Directive)
        requires
            old(self)@.window is Some,
            old(self)@.found_at is Some,
            0 <= old(self)@.current < old(self)@.mappings.len(),
        ensures
            final(self)@ == old(self)@.begin_item(index as int, report).0,
            directive@ == old(self)@.begin_item(index as int, report).1,
            final(self)@.wf(),
    {
        if index < self.items.len() {
            let at = self.found_at.unwrap();
            let day = at.format(TimeLayout::Day);
            let fileset = at.format(TimeLayout::Clock);
            let folder = image_folder(day.as_str());
            let path = image_path(folder.as_str(), fileset.as_str(), index);
            let item = self.items[index].clone();
            self.next_item = index;
            self.phase = Phase::Fetching;
            Directive { report, action: Action::Fetch(FetchRequest { item, folder, path }) }
        } else {
            let total = self.mappings.len();
                assert(self.current < total);
                let next = self.current + 1;
            self.begin_mapping(next, report)
        }
    }

    /// Takes an event and answers with what to log and what to do next.
    pub fn step(&mut self, event: Event) -> (directive: Directive)
        ensures
            final(self)@.wf(),
            final(self)@ == old(self)@.step(event).0,
            directive@ == old(self)@.step(event).1,
    {
        proof {
            use_type_invariant(&*self);
        }
        match (self.phase, event) {
            (Phase::Idle, Event::Tick { now }) => {
                let sdate = match self.last_date {
                    Some(watermark) => Some(watermark),
                    None => now.minus_seconds(self.not_found_duration),
                };
                match sdate {
                    None => Directive {
                        report: Some(Failure::ClockOutOfRange),
                        action: Action::Finish,
                    },
                    Some(sdate) => {
                        self.rest();
                        self.last_date = Some(now);
                        self.window = Some(Window { sdate, edate: now });
                        self.phase = Phase::LoadingMappings;
                        Directive { report: None, action: Action::LoadMappings }
                    },
                }
            },
            (Phase::LoadingMappings, Event::MappingsLoaded { mappings }) => {
                self.mappings = mappings;
                self.begin_mapping(0, None)
            },
            (Phase::LoadingMappings, Event::MappingsFailed) => {
                self.rest();
                Directive { report: Some(Failure::MappingsUnavailable), action: Action::Finish }
            },
            (Phase::Searching, Event::SearchCompleted { items, at }) => {
                self.items = items;
                self.found_at = Some(at);
                self.begin_item(0, None)
            },
            (Phase::Searching, Event::SearchFailed) => {
                let report = Some(Failure::SearchFailed { mapping: self.current });
                let total = self.mappings.len();
                assert(self.current < total);
                let next = self.current + 1;
                self.begin_mapping(next, report)
            },
            (Phase::Fetching, Event::ItemStored) => {
                let at = self.found_at.unwrap();
                let day = at.format(TimeLayout::Day);
                let fileset = at.format(TimeLayout::Clock);
                let folder = image_folder(day.as_str());
                let path = image_path(folder.as_str(), fileset.as_str(), self.next_item);
                let pairing = self.mappings[self.current].get_satellite_instrument_id().id();
                self.phase = Phase::Storing;
                let row = InstrumentData::new(pairing, path);
                Directive { report: None, action: Action::Insert(row) }
            },
            (Phase::Fetching, Event::ItemFailed) => {
                let report = Some(
                    Failure::ItemFailed { mapping: self.current, item: self.next_item },
                );
                let total = self.mappings.len();
                assert(self.current < total);
                let next = self.current + 1;
                self.begin_mapping(next, report)
            },
            (Phase::Storing, Event::RowInserted { accepted }) => {
                let report = if accepted {
                    None
                } else {
                    Some(Failure::RowRejected { mapping: self.current, item: self.next_item })
                };
                let found = self.items.len();
                assert(self.next_item < found);
                let next = self.next_item + 1;
                self.begin_item(next, report)
            },
            (Phase::Storing, Event::RowFailed) => {
                let report = Some(
                    Failure::RowFailed { mapping: self.current, item: self.next_item },
                );
                let total = self.mappings.len();
                assert(self.current < total);
                let next = self.current + 1;
                self.begin_mapping(next, report)
            },
            _ => Directive { report: Some(Failure::OutOfTurn), action: Action::Ignore },
        }
    }
}

/// Only a tick moves the watermark: whatever is reported of the work of a
/// tick, failures included, leaves the watermark where the tick has put it.
pub proof fn lemma_only_ticks_move_watermark(job: JobView, event: Event)
    requires
        !(event is Tick),
    ensures
        job.step(event).0.watermark == job.watermark,
{
}

/// The job after a sequence of events.
pub open spec fn after(job: JobView, events: Seq<Event>) -> JobView
    decreases events.len(),
{
    if events.len() == 0 {
        job
    } else {
        after(job, events.drop_last()).step(events.last()).0
    }
}

/// Whatever happens between two ticks, the watermark stays where the first
/// tick has put it: a window whose work failed is not searched again.
pub proof fn lemma_watermark_survives_the_work(job: JobView, events: Seq<Event>)
    requires
        forall|i: int| 0 <= i < events.len() ==> !(#[trigger] events[i] is Tick),
    ensures
        after(job, events).watermark == job.watermark,
    decreases events.len(),
{
    if events.len() > 0 {
        lemma_watermark_survives_the_work(job, events.drop_last());
        assert(!(events[events.len() - 1] is Tick));
        lemma_only_ticks_move_watermark(after(job, events.drop_last()), events.last());
    }
}

/// The job stays sound whatever it is told.
pub proof fn lemma_steps_keep_the_job_sound(job: JobView, events: Seq<Event>)
    requires
        job.wf(),
    ensures
        after(job, events).wf(),
    decreases events.len(),
{
    if events.len() > 0 {
        lemma_steps_keep_the_job_sound(job, events.drop_last());
    }
}

/// A tick that finds the job at rest is taken up wherever its window can
/// start: always where there is a watermark, and otherwise where the lookback
/// before the tick still lies within the calendar.
pub proof fn lemma_tick_is_taken_up(job: JobView, now: Timestamp)
    requires
        job.phase == Phase::Idle,
        job.watermark is Some || (FIRST_SECOND <= now.seconds() - job.lookback <= LAST_SECOND && 0
            <= now.nanoseconds() < 1_000_000_000),
    ensures
        job.step(Event::Tick { now }).0.watermark == Some(now),
        job.step(Event::Tick { now }).0.phase == Phase::LoadingMappings,
        job.step(Event::Tick { now }).1 == (DirectiveView {
            report: None,
            action: ActionView::LoadMappings,
        }),
{
    now.lemma_earlier(job.lookback);
}

/// A tick that is taken up puts the watermark at its own instant before any
/// work is done, and searches from the previous watermark up to that instant.
pub proof fn lemma_tick_advances_watermark(job: JobView, now: Timestamp)
    requires
        job.phase == Phase::Idle,
        job.window_start(now) is Some,
    ensures
        job.step(Event::Tick { now }).0.watermark == Some(now),
        job.step(Event::Tick { now }).1.action == ActionView::LoadMappings,
        job.step(Event::Tick { now }).0.window == Some(
            Window { sdate: job.window_start(now)->0, edate: now },
        ),
        job.watermark matches Some(previous) ==> job.step(Event::Tick { now }).0.window->0.sdate
            == previous,
{
}

/// Ticks never overlap: a tick that arrives while another is in work is not
/// taken up and changes nothing.
pub proof fn lemma_ticks_do_not_overlap(job: JobView, now: Timestamp)
    requires
        job.wf(),
        job.phase != Phase::Idle,
    ensures
        job.step(Event::Tick { now }).0 == job,
        job.step(Event::Tick { now }).1.action == ActionView::Ignore,
{
}

/// Every row the job asks to insert belongs to the pairing of the mapping in
/// work and lies at the path the job asked the image to be written to.
pub proof fn lemma_row_follows_image(job: JobView, at: Timestamp, index: int)
    requires
        job.wf(),
        job.phase == Phase::Fetching,
        job.found_at == Some(at),
        job.next_item == index,
    ensures
        job.step(Event::ItemStored).1.action == ActionView::Insert(
            InstrumentDataView {
                id: None,
                satellite_instrument_id: job.mappings[job.current]@.satellite_instrument_id,
                path: path_at(at, index as nat),
            },
        ),
{
}

/// A failure while a mapping is in work never ends the tick as long as
/// mappings are left: the job goes on with the search for the next mapping.
pub proof fn lemma_failure_spares_other_mappings(job: JobView, event: Event)
    requires
        job.wf(),
        job.current + 1 < job.mappings.len(),
        (job.phase == Phase::Searching && event is SearchFailed) || (job.phase == Phase::Fetching
            && event is ItemFailed) || (job.phase == Phase::Storing && event is RowFailed),
    ensures
        job.step(event).0.phase == Phase::Searching,
        job.step(event).0.current == job.current + 1,
        job.step(event).0.mappings == job.mappings,
        job.step(event).1.report is Some,
        job.step(event).1.action is Search,
{
}

} // verus!
