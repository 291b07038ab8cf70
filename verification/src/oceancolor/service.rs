//! The provider as a service: where it is asked, what it is sent and how its
//! answers are read. The exchanges themselves are the caller's.

use crate::model::oceancolor::OceanColorMapping;
use crate::oceancolor::download::{authorization_value, basic_credential};
use crate::oceancolor::search::{
    items_view, parse_search_response, search_answer, SearchItem, SearchRequest,
};
use crate::text::lines;
use crate::time::Timestamp;
use vstd::prelude::*;

verus! {

/// The provider's services, with the credential they are asked under.
pub struct OceanColorServiceDefault {
    ocean_color_authorization: String,
}

impl OceanColorServiceDefault {
    /// The credential, as it was handed over.
    pub closed spec fn credential(&self) -> Seq<char> {
        self.ocean_color_authorization@
    }

    pub fn new(ocean_color_authorization: &str) -> (service: OceanColorServiceDefault)
        ensures
            service.credential() == ocean_color_authorization@,
    {
        OceanColorServiceDefault {
            ocean_color_authorization: String::from_str(ocean_color_authorization),
        }
    }

    /// The address searches are sent to.
    pub fn search_endpoint(&self) -> (url: &'static str)
        ensures
            url@ == "https://oceandata.sci.gsfc.nasa.gov/api/file_search"@,
    {
        "https://oceandata.sci.gsfc.nasa.gov/api/file_search"
    }

    /// The address below which products are fetched by name.
    pub fn download_endpoint(&self) -> (url: &'static str)
        ensures
            url@ == "https://oceandata.sci.gsfc.nasa.gov/cgi/getfile/"@,
    {
        "https://oceandata.sci.gsfc.nasa.gov/cgi/getfile/"
    }

    /// The name of the variable that is read from a product.
    pub fn variable(&self) -> (name: &'static str)
        ensures
            name@ == "sst4"@,
    {
        "sst4"
    }

    /// The value of the header that carries the credential.
    pub fn authorization(&self) -> (value: String)
        ensures
            value@ == basic_credential(self.credential()),
    {
        authorization_value(self.ocean_color_authorization.as_str())
    }

    /// The search for the products of a mapping within a window of time.
    pub fn search(&self, sdate: Timestamp, edate: Timestamp, mapping: &OceanColorMapping) -> (request:
        SearchRequest)
        ensures
            request == (SearchRequest {
                sdate,
                edate,
                sensor_id: mapping@.sensor_id,
                data_id: mapping@.data_id,
            }),
    {
        SearchRequest::new(sdate, edate, mapping)
    }

    /// The products in the answer to a search.
    pub fn read_search(&self, text: &str) -> (items: Vec<SearchItem>)
        ensures
            items_view(items@) == search_answer(lines(text@)),
    {
        parse_search_response(text)
    }
}

} // verus!
