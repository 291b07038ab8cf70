//! The provider's file search: the request, the answer, and the product names
//! it lists.

use crate::model::oceancolor::OceanColorMapping;
use crate::text::{
    chars_of, find_char, first_of, lines, signed_decimal, signed_decimal_string, split_lines,
    substring, views_of,
};
use crate::time::{parse_timestamp, read_instant, utc_text, TimeError, TimeLayout, Timestamp};
use vstd::prelude::*;

verus! {

/// A product the search found, by its file name.
#[derive(Debug, PartialEq)]
pub struct SearchItem(String);

impl View for SearchItem {
    type V = Seq<char>;

    closed spec fn view(&self) -> Seq<char> {
        self.0@
    }
}

impl Clone for SearchItem {
    fn clone(&self) -> (r: Self)
        ensures
            r == *self,
    {
        SearchItem(self.0.clone())
    }
}

/// Why a product name gives no acquisition time.
#[derive(Clone, Copy, PartialEq, Eq, Structural, Debug)]
pub enum SearchItemError {
    /// The name has no second component.
    BadFormat,
    /// The second component is no time stamp.
    BadTimestamp(TimeError),
}

/// The second of the components that full stops divide a name into.
pub open spec fn second_component(name: Seq<char>) -> Option<Seq<char>> {
    let dot = first_of(name, '.');
    if 0 <= dot < name.len() {
        let rest = name.skip(dot + 1);
        Some(rest.take(first_of(rest, '.')))
    } else {
        None
    }
}

/// The acquisition time a product name states.
pub open spec fn acquisition_time(name: Seq<char>) -> Result<(int, int), SearchItemError> {
    match second_component(name) {
        None => Err(SearchItemError::BadFormat),
        Some(stamp) => match read_instant(stamp, TimeLayout::ProductStamp) {
            Ok(instant) => Ok(instant),
            Err(e) => Err(SearchItemError::BadTimestamp(e)),
        },
    }
}

impl SearchItem {
    pub fn new(name: String) -> (item: SearchItem)
        ensures
            item@ == name@,
    {
        SearchItem(name)
    }

    /// The file name of the product.
    pub fn name(&self) -> (name: &String)
        ensures
            name@ == self@,
    {
        &self.0
    }

    /// The acquisition time that the second component of the name states.
    pub fn get_time(&self) -> (r: Result<Timestamp, SearchItemError>)
        ensures
            match r {
                Ok(t) => acquisition_time(self@) == Ok::<(int, int), SearchItemError>(
                    (t.seconds(), t.nanoseconds()),
                ),
                Err(e) => acquisition_time(self@) == Err::<(int, int), SearchItemError>(e),
            },
    {
        let chars = chars_of(self.0.as_str());
        assert(chars@.skip(0) == chars@);
        let dot = find_char(&chars, 0, '.');
        if dot >= chars.len() {
            return Err(SearchItemError::BadFormat);
        }
        let end = find_char(&chars, dot + 1, '.');
        let stamp = substring(&chars, dot + 1, end);
        proof {
            let rest = chars@.skip(dot + 1);
            assert(stamp@ == rest.take(end - (dot + 1)));
        }
        match parse_timestamp(stamp.as_str(), TimeLayout::ProductStamp) {
            Ok(t) => Ok(t),
            Err(e) => Err(SearchItemError::BadTimestamp(e)),
        }
    }
}

/// The views of a sequence of search items.
pub open spec fn items_view(items: Seq<SearchItem>) -> Seq<Seq<char>> {
    Seq::new(items.len(), |i: int| items[i]@)
}

/// One search: the products of a sensor and product kind acquired within a
/// window of time.
#[derive(Clone, Copy, Debug)]
pub struct SearchRequest {
    pub sdate: Timestamp,
    pub edate: Timestamp,
    pub sensor_id: i32,
    pub data_id: i32,
}

impl SearchRequest {
    /// The search for the products of a mapping between two instants.
    pub fn new(sdate: Timestamp, edate: Timestamp, mapping: &OceanColorMapping) -> (r: Self)
        ensures
            r == (SearchRequest {
                sdate,
                edate,
                sensor_id: mapping@.sensor_id,
                data_id: mapping@.data_id,
            }),
    {
        SearchRequest {
            sdate,
            edate,
            sensor_id: mapping.get_sensor_id(),
            data_id: mapping.get_data_id(),
        }
    }

    /// The form fields of the request, as names and values: the answer is
    /// asked for as a plain list of file names.
    pub open spec fn form(self) -> Seq<(Seq<char>, Seq<char>)> {
        seq![
            ("results_as_file"@, "1"@),
            ("sensor_id"@, signed_decimal(self.sensor_id as int)),
            ("dtid"@, signed_decimal(self.data_id as int)),
            (
                "sdate"@,
                utc_text(
                    self.sdate.seconds(),
                    self.sdate.nanoseconds(),
                    TimeLayout::DayAndClock.pattern(),
                ),
            ),
            (
                "edate"@,
                utc_text(
                    self.edate.seconds(),
                    self.edate.nanoseconds(),
                    TimeLayout::DayAndClock.pattern(),
                ),
            ),
            ("subType"@, "1"@),
        ]
    }

    /// The form fields of the request.
    pub fn form_params(&self) -> (params: Vec<(String, String)>)
        ensures
            params@.len() == 6,
            forall|i: int|
                0 <= i < 6 ==> (#[trigger] params@[i]).0@ == self.form()[i].0 && params@[i].1@
                    == self.form()[i].1,
    {
        let mut params: Vec<(String, String)> = Vec::new();
        params.push((String::from_str("results_as_file"), String::from_str("1")));
        params.push(
            (String::from_str("sensor_id"), signed_decimal_string(self.sensor_id as i64)),
        );
        params.push((String::from_str("dtid"), signed_decimal_string(self.data_id as i64)));
        params.push((String::from_str("sdate"), self.sdate.format(TimeLayout::DayAndClock)));
        params.push((String::from_str("edate"), self.edate.format(TimeLayout::DayAndClock)));
        params.push((String::from_str("subType"), String::from_str("1")));
        params
    }
}

/// The answer that says the search found nothing.
pub open spec fn no_results_line() -> Seq<char> {
    "No Results Found"@
}

/// The product names in the lines of an answer. The one-line answer that says
/// nothing was found is told apart by its text; every other line is a name.
pub open spec fn search_answer(answer: Seq<Seq<char>>) -> Seq<Seq<char>> {
    if answer.len() == 1 && answer[0] == no_results_line() {
        Seq::empty()
    } else {
        answer
    }
}

/// Reads the answer of the search service.
pub fn parse_search_response(text: &str) -> (items: Vec<SearchItem>)
    ensures
        items_view(items@) == search_answer(lines(text@)),
{
    let mut names = split_lines(text);
    let ghost ls = lines(text@);
    assert(ls.len() == names@.len());
    assert(forall|i: int| 0 <= i < names@.len() ==> names@[i]@ == #[trigger] ls[i]) by {
        assert(forall|i: int| 0 <= i < names@.len() ==> views_of(names@)[i] == names@[i]@);
    }
    if names.len() == 1 && names[0] == String::from_str("No Results Found") {
        assert(items_view(Seq::<SearchItem>::empty()) == Seq::<Seq<char>>::empty());
        return Vec::new();
    }
    let mut items: Vec<SearchItem> = Vec::new();
    let mut i: usize = 0;
    while i < names.len()
        invariant
            i <= names@.len(),
            ls.len() == names@.len(),
            forall|k: int| 0 <= k < names@.len() ==> names@[k]@ == #[trigger] ls[k],
            items@.len() == i,
            forall|k: int| 0 <= k < i ==> (#[trigger] items@[k])@ == ls[k],
        decreases names@.len() - i,
    {
        items.push(SearchItem::new(names[i].clone()));
        i += 1;
    }
    assert(items_view(items@) =~= ls);
    items
}

} // verus!
