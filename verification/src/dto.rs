//! What requests carry and what answers show of the stored entities.

use crate::id::{HasId, Id};
use crate::model::instrument_data::InstrumentData;
use crate::model::satellite::Satellite;
use vstd::prelude::*;

verus! {

/// Asks for the data products of a satellite.
#[derive(Clone, Copy, PartialEq, Eq, Structural, Debug)]
pub struct GetBySatelliteIdRequest {
    id: Id,
}

impl GetBySatelliteIdRequest {
    /// The identifier asked for.
    pub closed spec fn id(self) -> Id {
        self.id
    }

    pub fn new(id: Id) -> (request: Self)
        ensures
            request.id() == id,
    {
        Self { id }
    }

    pub fn get_id(&self) -> (id: Id)
        ensures
            id == self.id(),
    {
        self.id
    }

    pub fn set_id(&mut self, id: Id)
        ensures
            final(self).id() == id,
    {
        self.id = id;
    }
}

/// Asks for the stored asset of a data product.
#[derive(Clone, Copy, PartialEq, Eq, Structural, Debug)]
pub struct GetAssetRequest {
    id: Id,
}

impl GetAssetRequest {
    /// The identifier asked for.
    pub closed spec fn id(self) -> Id {
        self.id
    }

    pub fn new(id: Id) -> (request: Self)
        ensures
            request.id() == id,
    {
        Self { id }
    }

    pub fn get_id(&self) -> (id: Id)
        ensures
            id == self.id(),
    {
        self.id
    }

    pub fn set_id(&mut self, id: Id)
        ensures
            final(self).id() == id,
    {
        self.id = id;
    }
}

/// What an answer shows of a data product: its identifier.
#[derive(Clone, Copy, PartialEq, Eq, Structural, Debug)]
pub struct InstrumentDataResponse {
    pub id: Id,
}

impl InstrumentDataResponse {
    /// The answer for a stored data product.
    pub fn from(data: InstrumentData) -> (response: Self)
        requires
            data@.id is Some,
        ensures
            Some(response.id) == data@.id,
    {
        proof {
            data.lemma_id_view();
        }
        Self { id: data.get_id().unwrap() }
    }
}

/// What an answer shows of a satellite.
#[derive(Debug, PartialEq)]
pub struct SatelliteResponse {
    pub id: Id,
    pub name: String,
    pub tle1: String,
    pub tle2: String,
}

impl SatelliteResponse {
    /// The answer for a stored satellite.
    pub fn from(data: Satellite) -> (response: Self)
        requires
            data@.id is Some,
        ensures
            Some(response.id) == data@.id,
            response.name@ == data@.name,
            response.tle1@ == data@.tle1,
            response.tle2@ == data@.tle2,
    {
        proof {
            data.lemma_id_view();
        }
        Self {
            id: data.get_id().unwrap(),
            name: data.get_name().clone(),
            tle1: data.get_tle1().clone(),
            tle2: data.get_tle2().clone(),
        }
    }
}

} // verus!
