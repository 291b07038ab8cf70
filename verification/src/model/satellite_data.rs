//! Assets filed directly under a satellite.

use crate::id::{HasId, Id};
use crate::repository::Entity;
use vstd::prelude::*;

verus! {

/// An asset of a satellite.
#[derive(Debug)]
pub struct SatelliteData {
    id: Option<Id>,
    satellite_id: i32,
    path: String,
}

/// Mathematical value of a [`SatelliteData`].
pub struct SatelliteDataView {
    pub id: Option<Id>,
    pub satellite_id: i32,
    pub path: Seq<char>,
}

impl View for SatelliteData {
    type V = SatelliteDataView;

    closed spec fn view(&self) -> SatelliteDataView {
        SatelliteDataView { id: self.id, satellite_id: self.satellite_id, path: self.path@ }
    }
}

impl SatelliteData {
    pub fn new(satellite_id: i32, path: String) -> (r: SatelliteData)
        ensures
            r@ == (SatelliteDataView { id: None, satellite_id, path: path@ }),
    {
        SatelliteData { id: None, satellite_id, path }
    }

    /// The raw identifier of the satellite the asset belongs to.
    pub fn satellite_id(&self) -> (satellite_id: i32)
        ensures
            satellite_id == self@.satellite_id,
    {
        self.satellite_id
    }

    /// Where the asset is stored.
    pub fn path(&self) -> (path: &String)
        ensures
            path@ == self@.path,
    {
        &self.path
    }

    /// Carrying an identifier changes nothing but the identifier.
    pub proof fn lemma_with_id_view(self, id: Id)
        ensures
            self.with_id(id)@ == (SatelliteDataView { id: Some(id), ..self@ }),
    {
    }

    /// The identifier an asset carries is the one in its value.
    pub proof fn lemma_id_view(self)
        ensures
            self.id_view() == self@.id,
    {
    }
}

impl Clone for SatelliteData {
    fn clone(&self) -> (r: Self)
        ensures
            r == *self,
    {
        Self { id: self.id, satellite_id: self.satellite_id, path: self.path.clone() }
    }
}

impl Entity for SatelliteData {
    proof fn lemma_copy_is_equal(original: Self, copy: Self) {
    }
}

impl HasId for SatelliteData {
    closed spec fn id_view(&self) -> Option<Id> {
        self.id
    }

    closed spec fn with_id(self, id: Id) -> Self {
        SatelliteData { id: Some(id), ..self }
    }

    proof fn lemma_with_id_carries(x: Self, id: Id) {
    }

    proof fn lemma_with_id_same(x: Self, id: Id) {
    }

    fn get_id(&self) -> (id: Option<Id>) {
        self.id
    }

    fn set_id(&mut self, id: Id) {
        self.id = Some(id);
    }
}

} // verus!
