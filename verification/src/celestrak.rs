//! The orbital element catalogue: queries, the element sets it answers with,
//! and how its plain-text answers are read.

use crate::id::HasId;
use crate::model::satellite::{Satellite, SatelliteView};
use crate::text::{decimal, decimal_string, lines, parse_u32, parsed_u32, split_lines, views_of};
use vstd::prelude::*;
use vstd::utf8::{encode_utf8, is_ascii_chars, is_ascii_chars_encode_utf8};

verus! {

/// A query to the catalogue.
#[derive(Debug, PartialEq)]
pub enum Query {
    /// Catalog number (1 to 9 digits): the data of a single object.
    CATNR(u32),
    /// International designator (yyyy-nnn): all objects of one launch.
    INTDES(String),
    /// A named group of satellites.
    GROUP(String),
    /// Satellite name, or a part of it.
    NAME(String),
    /// A special data set.
    SPECIAL(String),
}

/// A two-line element set with the name line that precedes it.
#[derive(Debug)]
pub struct TLE {
    pub name: String,
    pub tle1: String,
    pub tle2: String,
}

/// Mathematical value of a [`TLE`].
pub struct TleView {
    pub name: Seq<char>,
    pub tle1: Seq<char>,
    pub tle2: Seq<char>,
}

impl View for TLE {
    type V = TleView;

    open spec fn view(&self) -> TleView {
        TleView { name: self.name@, tle1: self.tle1@, tle2: self.tle2@ }
    }
}

/// Why an element set could not be used.
#[derive(Clone, Copy, PartialEq, Eq, Structural, Debug)]
pub enum TleError {
    /// Bytes 3 to 7 of the first line hold no catalog number.
    BadCatalogNumber,
}

/// A field of bytes read as text, each byte as the character of its code. A
/// byte of a character that takes more than one byte is read as a character
/// that is neither a digit nor a sign.
pub open spec fn field_text(bytes: Seq<u8>) -> Seq<char> {
    Seq::new(bytes.len(), |i: int| bytes[i] as char)
}

/// The catalog number in the first line of an element set: the unsigned
/// decimal number in the third to seventh byte of the line as it is encoded
/// in UTF-8. A line of fewer than seven bytes holds none.
pub open spec fn catalog_number(tle1: Seq<char>) -> Option<u32> {
    let bytes = encode_utf8(tle1);
    if bytes.len() < 7 {
        None
    } else {
        parsed_u32(field_text(bytes.subrange(2, 7)))
    }
}

/// In a line of ASCII characters every character is one byte, and the catalog
/// number stands in the third to seventh character.
pub proof fn lemma_catalog_number_of_ascii(tle1: Seq<char>)
    requires
        is_ascii_chars(tle1),
    ensures
        catalog_number(tle1) == if tle1.len() < 7 {
            None
        } else {
            parsed_u32(tle1.subrange(2, 7))
        },
{
    is_ascii_chars_encode_utf8(tle1);
    if tle1.len() >= 7 {
        let bytes = encode_utf8(tle1);
        assert forall|i: int| 0 <= i < 5 implies field_text(bytes.subrange(2, 7))[i]
            == tle1.subrange(2, 7)[i] by {
            let c = tle1[i + 2];
            assert(c as u8 == bytes[i + 2]);
            assert((c as u8) as char == c);
        }
        assert(field_text(bytes.subrange(2, 7)) =~= tle1.subrange(2, 7));
    }
}

impl TLE {
    pub fn new(name: &str, tle1: &str, tle2: &str) -> (tle: TLE)
        ensures
            tle@ == (TleView { name: name@, tle1: tle1@, tle2: tle2@ }),
    {
        Self {
            name: String::from_str(name),
            tle1: String::from_str(tle1),
            tle2: String::from_str(tle2),
        }
    }

    /// The catalog number of the object the element set describes.
    pub fn get_catnr(&self) -> (r: Result<u32, TleError>)
        ensures
            match r {
                Ok(catnr) => catalog_number(self@.tle1) == Some(catnr),
                Err(e) => e == TleError::BadCatalogNumber && catalog_number(self@.tle1) is None,
            },
    {
        let bytes = self.tle1.as_str().as_bytes();
        if bytes.len() < 7 {
            return Err(TleError::BadCatalogNumber);
        }
        let mut field: Vec<char> = Vec::new();
        let mut i: usize = 2;
        while i < 7
            invariant
                2 <= i <= 7 <= bytes@.len(),
                field@ == field_text(bytes@.subrange(2, i as int)),
            decreases 7 - i,
        {
            field.push(bytes[i] as char);
            i += 1;
            assert(field@ =~= field_text(bytes@.subrange(2, i as int)));
        }
        assert(field@.subrange(0, 5) == field@);
        match parse_u32(&field, 0, 5) {
            Some(catnr) => Ok(catnr),
            None => Err(TleError::BadCatalogNumber),
        }
    }
}

/// What the catalogue answers besides element sets.
#[derive(Clone, Copy, PartialEq, Eq, Structural, Debug)]
pub enum CelestrakError {
    /// The catalogue rejected the query.
    InvalidQuery,
    /// The answer is not a sequence of three-line element sets.
    InvalidOutputFormat,
}

impl CelestrakError {
    /// A short description of the error.
    pub fn message(&self) -> (text: &'static str)
        ensures
            text@ == match self {
                CelestrakError::InvalidQuery => "invalid query"@,
                CelestrakError::InvalidOutputFormat => "invalid output format"@,
            },
    {
        match self {
            CelestrakError::InvalidQuery => "invalid query",
            CelestrakError::InvalidOutputFormat => "invalid output format",
        }
    }
}

/// Name of the request parameter that carries a query.
pub open spec fn query_key(query: Query) -> Seq<char> {
    match query {
        Query::CATNR(_) => "CATNR"@,
        Query::INTDES(_) => "INTDES"@,
        Query::GROUP(_) => "GROUP"@,
        Query::NAME(_) => "NAME"@,
        Query::SPECIAL(_) => "SPECIAL"@,
    }
}

/// Value of the request parameter that carries a query.
pub open spec fn query_value(query: Query) -> Seq<char> {
    match query {
        Query::CATNR(catnr) => decimal(catnr as nat),
        Query::INTDES(s) => s@,
        Query::GROUP(s) => s@,
        Query::NAME(s) => s@,
        Query::SPECIAL(s) => s@,
    }
}

/// The request parameters of a query: the query itself, then the demand for
/// element sets as the answer's format.
pub fn query_params(query: &Query) -> (params: Vec<(String, String)>)
    ensures
        params@.len() == 2,
        params@[0].0@ == query_key(*query),
        params@[0].1@ == query_value(*query),
        params@[1].0@ == "FORMAT"@,
        params@[1].1@ == "TLE"@,
{
    let mut params: Vec<(String, String)> = Vec::new();
    match query {
        Query::CATNR(catnr) => {
            params.push((String::from_str("CATNR"), decimal_string(*catnr as u64)));
        },
        Query::INTDES(intdes) => {
            params.push((String::from_str("INTDES"), intdes.clone()));
        },
        Query::GROUP(group) => {
            params.push((String::from_str("GROUP"), group.clone()));
        },
        Query::NAME(name) => {
            params.push((String::from_str("NAME"), name.clone()));
        },
        Query::SPECIAL(special) => {
            params.push((String::from_str("SPECIAL"), special.clone()));
        },
    }
    params.push((String::from_str("FORMAT"), String::from_str("TLE")));
    params
}

/// The views of a sequence of element sets.
pub open spec fn tles_view(tles: Seq<TLE>) -> Seq<TleView> {
    Seq::new(tles.len(), |i: int| tles[i]@)
}

/// The answer that says the catalogue holds nothing for the query.
pub open spec fn no_data_line() -> Seq<char> {
    "No GP data found"@
}

/// The answer that says the query was not understood.
pub open spec fn invalid_query_line() -> Seq<char> {
    "Invalid query: \"\""@
}

/// What the lines of an answer mean. The two one-line answers are told apart
/// from element sets by their text; any other answer must consist of groups of
/// three lines, each a name line and the two element lines.
pub open spec fn gp_answer(answer: Seq<Seq<char>>) -> Result<Seq<TleView>, CelestrakError> {
    if answer.len() == 1 && answer[0] == no_data_line() {
        Ok(Seq::empty())
    } else if answer.len() == 1 && answer[0] == invalid_query_line() {
        Err(CelestrakError::InvalidQuery)
    } else if answer.len() % 3 != 0 {
        Err(CelestrakError::InvalidOutputFormat)
    } else {
        Ok(
            Seq::new(
                answer.len() / 3,
                |i: int|
                    TleView {
                        name: answer[3 * i],
                        tle1: answer[3 * i + 1],
                        tle2: answer[3 * i + 2],
                    },
            ),
        )
    }
}

/// Reads the catalogue's answer to a query.
pub fn parse_gp_response(text: &str) -> (r: Result<Vec<TLE>, CelestrakError>)
    ensures
        match r {
            Ok(tles) => gp_answer(lines(text@)) == Ok::<Seq<TleView>, CelestrakError>(
                tles_view(tles@),
            ),
            Err(e) => gp_answer(lines(text@)) == Err::<Seq<TleView>, CelestrakError>(e),
        },
{
    let answer = split_lines(text);
    let ghost ls = lines(text@);
    assert(ls.len() == answer@.len());
    assert(forall|i: int| 0 <= i < answer@.len() ==> answer@[i]@ == #[trigger] ls[i]) by {
        assert(forall|i: int| 0 <= i < answer@.len() ==> views_of(answer@)[i] == answer@[i]@);
    }
    if answer.len() == 1 {
        if answer[0] == String::from_str("No GP data found") {
            assert(tles_view(Seq::<TLE>::empty()) == Seq::<TleView>::empty());
            return Ok(Vec::new());
        } else if answer[0] == String::from_str("Invalid query: \"\"") {
            return Err(CelestrakError::InvalidQuery);
        }
    }
    if answer.len() % 3 != 0 {
        return Err(CelestrakError::InvalidOutputFormat);
    }
    let count = answer.len() / 3;
    let mut tles: Vec<TLE> = Vec::new();
    let mut i: usize = 0;
    while i < count
        invariant
            i <= count,
            count * 3 == answer@.len(),
            answer@.len() == answer.len(),
            ls.len() == answer@.len(),
            forall|k: int| 0 <= k < answer@.len() ==> answer@[k]@ == #[trigger] ls[k],
            tles@.len() == i,
            forall|k: int|
                0 <= k < i ==> (#[trigger] tles@[k])@ == (TleView {
                    name: ls[3 * k],
                    tle1: ls[3 * k + 1],
                    tle2: ls[3 * k + 2],
                }),
        decreases count - i,
    {
        assert(3 * i + 2 < answer@.len() <= usize::MAX);
        let tle = TLE {
            name: answer[3 * i].clone(),
            tle1: answer[3 * i + 1].clone(),
            tle2: answer[3 * i + 2].clone(),
        };
        tles.push(tle);
        i += 1;
    }
    proof {
        let expected = Seq::new(
            ls.len() / 3,
            |i: int| TleView { name: ls[3 * i], tle1: ls[3 * i + 1], tle2: ls[3 * i + 2] },
        );
        assert(tles_view(tles@) =~= expected);
    }
    Ok(tles)
}

/// The catalogue as a service: where it is asked, what it is sent and how its
/// answer is read. The exchange itself is the caller's.
#[derive(Debug)]
pub struct CelestrakServiceDefault {}

impl CelestrakServiceDefault {
    pub fn new() -> (service: Self) {
        Self {  }
    }

    /// The address queries are sent to.
    pub fn endpoint(&self) -> (url: &'static str)
        ensures
            url@ == "https://celestrak.org/NORAD/elements/gp.php"@,
    {
        "https://celestrak.org/NORAD/elements/gp.php"
    }

    /// The parameters that carry `query`.
    pub fn request(&self, query: &Query) -> (params: Vec<(String, String)>)
        ensures
            params@.len() == 2,
            params@[0].0@ == query_key(*query),
            params@[0].1@ == query_value(*query),
            params@[1].0@ == "FORMAT"@,
            params@[1].1@ == "TLE"@,
    {
        query_params(query)
    }

    /// The element sets in an answer.
    pub fn read(&self, text: &str) -> (r: Result<Vec<TLE>, CelestrakError>)
        ensures
            match r {
                Ok(tles) => gp_answer(lines(text@)) == Ok::<Seq<TleView>, CelestrakError>(
                    tles_view(tles@),
                ),
                Err(e) => gp_answer(lines(text@)) == Err::<Seq<TleView>, CelestrakError>(e),
            },
    {
        parse_gp_response(text)
    }
}

/// Takes the only item of a list with `itertools::Itertools::exactly_one`,
/// which gives the item of a list of one and refuses every other list.
#[verifier::external_body]
fn exactly_one(tles: Vec<TLE>) -> (r: Option<TLE>)
    ensures
        r == if tles@.len() == 1 {
            Some(tles@[0])
        } else {
            None
        },
{
    match itertools::Itertools::exactly_one(tles.into_iter()) {
        Ok(tle) => Some(tle),
        Err(_) => None,
    }
}

/// Why the elements of a satellite could not be refreshed.
#[derive(Clone, Copy, PartialEq, Eq, Structural, Debug)]
pub enum RefreshError {
    /// The satellite was never stored: it has no identifier.
    MissingId,
    /// The catalog number of the satellite is none the catalogue can be asked
    /// for.
    CatalogNumberOutOfRange,
    /// The catalogue did not answer with exactly one element set.
    NotExactlyOne,
}

/// Why an answer of the catalogue gives no satellite.
#[derive(Clone, Copy, PartialEq, Eq, Structural, Debug)]
pub enum AnswerError {
    /// The answer does not hold exactly one element set.
    NotExactlyOne,
    /// The element set holds no catalog number.
    BadCatalogNumber,
}

/// The satellite that an answer to a query by catalog number describes: the
/// answer must hold exactly one element set.
pub fn satellite_from_answer(tles: Vec<TLE>) -> (r: Result<Satellite, AnswerError>)
    ensures
        match r {
            Ok(satellite) => {
                &&& tles@.len() == 1
                &&& catalog_number(tles@[0]@.tle1) matches Some(catnr)
                &&& satellite@ == (SatelliteView {
                    id: None,
                    name: tles@[0]@.name,
                    catnr: Some(catnr as i64),
                    tle1: tles@[0]@.tle1,
                    tle2: tles@[0]@.tle2,
                })
            },
            Err(AnswerError::NotExactlyOne) => tles@.len() != 1,
            Err(AnswerError::BadCatalogNumber) => tles@.len() == 1 && catalog_number(
                tles@[0]@.tle1,
            ) is None,
        },
{
    match exactly_one(tles) {
        None => Err(AnswerError::NotExactlyOne),
        Some(tle) => match Satellite::try_from(tle) {
            Ok(satellite) => Ok(satellite),
            Err(_) => Err(AnswerError::BadCatalogNumber),
        },
    }
}

/// The query that refreshes the elements of a stored satellite: by catalog
/// number, where it has one; a satellite without a catalog number is passed
/// over.
pub fn refresh_query(satellite: &Satellite) -> (r: Result<Option<Query>, RefreshError>)
    ensures
        r == if satellite@.id is None {
            Err::<Option<Query>, RefreshError>(RefreshError::MissingId)
        } else {
            match satellite@.catnr {
                None => Ok(None),
                Some(catnr) => if 0 <= catnr <= u32::MAX {
                    Ok(Some(Query::CATNR(catnr as u32)))
                } else {
                    Err(RefreshError::CatalogNumberOutOfRange)
                },
            }
        },
{
    proof {
        satellite.lemma_id_view();
    }
    if satellite.get_id().is_none() {
        return Err(RefreshError::MissingId);
    }
    match satellite.get_catnr() {
        None => Ok(None),
        Some(catnr) => {
            if 0 <= catnr && catnr <= 0xffff_ffff {
                Ok(Some(Query::CATNR(catnr as u32)))
            } else {
                Err(RefreshError::CatalogNumberOutOfRange)
            }
        },
    }
}

/// Puts the elements of the catalogue's answer into a satellite. The answer
/// must hold exactly one element set.
pub fn apply_refresh(satellite: Satellite, tles: Vec<TLE>) -> (r: Result<Satellite, RefreshError>)
    ensures
        match r {
            Ok(refreshed) => tles@.len() == 1 && refreshed@ == (SatelliteView {
                tle1: tles@[0]@.tle1,
                tle2: tles@[0]@.tle2,
                ..satellite@
            }),
            Err(e) => tles@.len() != 1 && e == RefreshError::NotExactlyOne,
        },
{
    match exactly_one(tles) {
        None => Err(RefreshError::NotExactlyOne),
        Some(tle) => {
            let mut refreshed = satellite;
            refreshed.set_tle1(tle.tle1);
            refreshed.set_tle2(tle.tle2);
            Ok(refreshed)
        },
    }
}

} // verus!
