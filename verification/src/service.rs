//! The services that requests are answered from: thin layers over the
//! repositories, with the selections they make of the rows.

use crate::id::{HasId, Id};
use crate::model::instrument_data::InstrumentData;
use crate::model::satellite::Satellite;
use crate::model::satellite_data::SatelliteData;
use crate::model::satellite_instrument::SatelliteInstrument;
use crate::repository::{is_scan_of, Repository, RepositoryError};
use std::collections::HashSet;
use vstd::prelude::*;

verus! {

broadcast use vstd::std_specs::hash::group_hash_axioms;

/// The raw identifiers of the stored pairings of a satellite.
pub open spec fn pairing_ids(pairings: Seq<SatelliteInstrument>, satellite_id: Id) -> Set<i32> {
    Set::new(
        |raw: i32|
            exists|i: int|
                0 <= i < pairings.len() && (#[trigger] pairings[i])@.satellite_id == satellite_id
                    && pairings[i]@.id == Some(Id(raw)),
    )
}

/// Whether a data product belongs to a satellite: it is tied to a stored
/// pairing of that satellite.
pub open spec fn belongs_to(
    pairings: Seq<SatelliteInstrument>,
    data: InstrumentData,
    satellite_id: Id,
) -> bool {
    pairing_ids(pairings, satellite_id).contains(data@.satellite_instrument_id.0)
}

/// The data products that belong to a satellite, in their order.
pub open spec fn selected(
    pairings: Seq<SatelliteInstrument>,
    data: Seq<InstrumentData>,
    satellite_id: Id,
) -> Seq<InstrumentData>
    decreases data.len(),
{
    if data.len() == 0 {
        Seq::empty()
    } else if belongs_to(pairings, data.last(), satellite_id) {
        selected(pairings, data.drop_last(), satellite_id).push(data.last())
    } else {
        selected(pairings, data.drop_last(), satellite_id)
    }
}

/// Collects the identifiers of the pairings of a satellite.
fn pairing_ids_of(pairings: &Vec<SatelliteInstrument>, satellite_id: Id) -> (ids: HashSet<i32>)
    ensures
        ids@ == pairing_ids(pairings@, satellite_id),
{
    let mut ids: HashSet<i32> = HashSet::new();
    let mut i: usize = 0;
    while i < pairings.len()
        invariant
            i <= pairings@.len(),
            ids@ == pairing_ids(pairings@.take(i as int), satellite_id),
        decreases pairings@.len() - i,
    {
        let pairing = &pairings[i];
        proof {
            pairing.lemma_id_view();
            assert(pairings@.take(i + 1) == pairings@.take(i as int).push(*pairing));
            lemma_pairing_ids_push(pairings@.take(i as int), *pairing, satellite_id);
        }
        if pairing.get_satellite_id().id() == satellite_id {
            match pairing.get_id() {
                Some(id) => {
                    ids.insert(id.0);
                },
                None => {},
            }
        }
        i += 1;
    }
    assert(pairings@.take(i as int) == pairings@);
    ids
}

/// One more pairing adds its identifier where it is a stored pairing of the
/// satellite, and nothing else.
proof fn lemma_pairing_ids_push(
    pairings: Seq<SatelliteInstrument>,
    pairing: SatelliteInstrument,
    satellite_id: Id,
)
    ensures
        pairing_ids(pairings.push(pairing), satellite_id) == if pairing@.satellite_id
            == satellite_id {
            match pairing@.id {
                Some(id) => pairing_ids(pairings, satellite_id).insert(id.0),
                None => pairing_ids(pairings, satellite_id),
            }
        } else {
            pairing_ids(pairings, satellite_id)
        },
{
    let more = pairings.push(pairing);
    let before = pairing_ids(pairings, satellite_id);
    let expected = if pairing@.satellite_id == satellite_id {
        match pairing@.id {
            Some(id) => before.insert(id.0),
            None => before,
        }
    } else {
        before
    };
    assert forall|raw: i32| pairing_ids(more, satellite_id).contains(raw) implies expected.contains(
        raw,
    ) by {
        let i = choose|i: int|
            0 <= i < more.len() && (#[trigger] more[i])@.satellite_id == satellite_id
                && more[i]@.id == Some(Id(raw));
        if i < pairings.len() {
            assert(more[i] == pairings[i]);
        }
    }
    assert forall|raw: i32| expected.contains(raw) implies pairing_ids(more, satellite_id).contains(
        raw,
    ) by {
        if before.contains(raw) {
            let i = choose|i: int|
                0 <= i < pairings.len() && (#[trigger] pairings[i])@.satellite_id == satellite_id
                    && pairings[i]@.id == Some(Id(raw));
            assert(more[i] == pairings[i]);
        } else {
            assert(more[pairings.len() as int] == pairing);
        }
    }
    assert(pairing_ids(more, satellite_id) =~= expected);
}

/// Selects the data products that belong to a satellite: those tied to a
/// stored pairing of that satellite.
pub fn instrument_data_of_satellite(
    pairings: &Vec<SatelliteInstrument>,
    data: &Vec<InstrumentData>,
    satellite_id: Id,
) -> (found: Vec<InstrumentData>)
    ensures
        found@ == selected(pairings@, data@, satellite_id),
{
    let ids = pairing_ids_of(pairings, satellite_id);
    let mut found: Vec<InstrumentData> = Vec::new();
    let mut i: usize = 0;
    assert(data@.take(0) == Seq::<InstrumentData>::empty());
    while i < data.len()
        invariant
            i <= data@.len(),
            ids@ == pairing_ids(pairings@, satellite_id),
            found@ == selected(pairings@, data@.take(i as int), satellite_id),
        decreases data@.len() - i,
    {
        proof {
            let next = data@.take(i + 1);
            assert(next.drop_last() == data@.take(i as int));
            assert(next.last() == data@[i as int]);
        }
        if ids.contains(&data[i].get_satellite_instrument_id().id().0) {
            found.push(data[i].clone());
        }
        i += 1;
    }
    assert(data@.take(i as int) == data@);
    found
}

/// The assets filed under a satellite, in their order.
pub open spec fn assets_of(data: Seq<SatelliteData>, satellite_id: i32) -> Seq<SatelliteData>
    decreases data.len(),
{
    if data.len() == 0 {
        Seq::empty()
    } else if data.last()@.satellite_id == satellite_id {
        assets_of(data.drop_last(), satellite_id).push(data.last())
    } else {
        assets_of(data.drop_last(), satellite_id)
    }
}

/// Selects the assets filed under a satellite.
pub fn satellite_data_of_satellite(data: &Vec<SatelliteData>, satellite_id: i32) -> (found: Vec<
    SatelliteData,
>)
    ensures
        found@ == assets_of(data@, satellite_id),
{
    let mut found: Vec<SatelliteData> = Vec::new();
    let mut i: usize = 0;
    assert(data@.take(0) == Seq::<SatelliteData>::empty());
    while i < data.len()
        invariant
            i <= data@.len(),
            found@ == assets_of(data@.take(i as int), satellite_id),
        decreases data@.len() - i,
    {
        proof {
            let next = data@.take(i + 1);
            assert(next.drop_last() == data@.take(i as int));
            assert(next.last() == data@[i as int]);
        }
        if data[i].satellite_id() == satellite_id {
            found.push(data[i].clone());
        }
        i += 1;
    }
    assert(data@.take(i as int) == data@);
    found
}

/// Lists the satellites.
pub trait SatelliteService {
    /// The stored satellites, by raw identifier.
    spec fn satellites(&self) -> Map<i32, Satellite>;

    /// What the service relies on.
    spec fn wf(&self) -> bool;

    /// Whether reading the satellites cannot fail on its own.
    spec fn decides_reads(&self) -> bool;

    /// Every satellite, in no particular order.
    fn get_all(&self) -> (r: Result<Vec<Satellite>, RepositoryError>)
        requires
            self.wf(),
        ensures
            self.decides_reads() ==> r is Ok,
            match r {
                Ok(all) => is_scan_of(self.satellites(), all@),
                Err(e) => e == RepositoryError::BackendFailure,
            },
    ;
}

/// Lists the satellites of a repository.
pub struct SatelliteServiceDefault<R: Repository<Satellite>> {
    satellite_repository: R,
}

impl<R: Repository<Satellite>> SatelliteServiceDefault<R> {
    /// The repository the service reads.
    pub closed spec fn repository(&self) -> R {
        self.satellite_repository
    }

    pub fn new(satellite_repository: R) -> (service: Self)
        ensures
            service.repository() == satellite_repository,
    {
        SatelliteServiceDefault { satellite_repository }
    }
}

impl<R: Repository<Satellite>> SatelliteService for SatelliteServiceDefault<R> {
    open spec fn satellites(&self) -> Map<i32, Satellite> {
        self.repository().rows()
    }

    open spec fn wf(&self) -> bool {
        self.repository().wf()
    }

    fn get_all(&self) -> (r: Result<Vec<Satellite>, RepositoryError>) {
        self.satellite_repository.get_all()
    }

    open spec fn decides_reads(&self) -> bool {
        self.repository().decides_reads()
    }
}

/// Stores and finds the assets filed under satellites.
pub trait SatelliteDataService {
    /// The stored assets, by raw identifier.
    spec fn assets(&self) -> Map<i32, SatelliteData>;

    /// What the service relies on.
    spec fn wf(&self) -> bool;

    /// Whether the stored assets alone decide if `data` is taken:
    /// `Some(true)` where the storage is bound to take it, `Some(false)` where
    /// it is bound to refuse it, and `None` where the storage may also fail on
    /// its own.
    spec fn decides_add(&self, data: SatelliteData) -> Option<bool>;

    /// Stores an asset. Returns whether the storage took it; where it did, the
    /// asset is a new row. Where the stored assets decide, the asset is taken
    /// exactly when they allow it.
    fn add_data(&mut self, data: SatelliteData) -> (added: bool)
        requires
            old(self).wf(),
        ensures
            final(self).wf(),
            old(self).decides_add(data) matches Some(taken) ==> added == taken,
            if added {
                exists|id: Id|
                    !old(self).assets().contains_key(id.0) && final(self).assets() == old(
                        self,
                    ).assets().insert(id.0, #[trigger] data.with_id(id))
            } else {
                final(self).assets() == old(self).assets()
            },
    ;

    /// Whether reading the assets cannot fail on its own.
    spec fn decides_reads(&self) -> bool;

    /// The assets filed under a satellite: the selection from one scan of the
    /// storage.
    fn get_by_satellite_id(&self, satellite_id: i32) -> (r: Result<
        Vec<SatelliteData>,
        RepositoryError,
    >)
        requires
            self.wf(),
        ensures
            self.decides_reads() ==> r is Ok,
            match r {
                Ok(found) => exists|all: Seq<SatelliteData>|
                    is_scan_of(self.assets(), all) && found@ == #[trigger] assets_of(
                        all,
                        satellite_id,
                    ),
                Err(e) => e == RepositoryError::BackendFailure,
            },
    ;
}

/// Stores and finds the assets of a repository.
pub struct SatelliteDataServiceDefault<R: Repository<SatelliteData>> {
    satellite_data_repository: R,
}

impl<R: Repository<SatelliteData>> SatelliteDataServiceDefault<R> {
    /// The repository the service works on.
    pub closed spec fn repository(&self) -> R {
        self.satellite_data_repository
    }

    pub fn new(satellite_data_repository: R) -> (service: Self)
        ensures
            service.repository() == satellite_data_repository,
    {
        Self { satellite_data_repository }
    }
}

impl<R: Repository<SatelliteData>> SatelliteDataService for SatelliteDataServiceDefault<R> {
    open spec fn assets(&self) -> Map<i32, SatelliteData> {
        self.repository().rows()
    }

    open spec fn wf(&self) -> bool {
        self.repository().wf()
    }

    fn add_data(&mut self, data: SatelliteData) -> (added: bool) {
        match self.satellite_data_repository.add(data) {
            Ok(id) => {
                assert(data.with_id(id) == data.with_id(id));
                true
            },
            Err(_) => false,
        }
    }

    open spec fn decides_add(&self, data: SatelliteData) -> Option<bool> {
        self.repository().decides_add(data)
    }

    open spec fn decides_reads(&self) -> bool {
        self.repository().decides_reads()
    }

    fn get_by_satellite_id(&self, satellite_id: i32) -> (r: Result<
        Vec<SatelliteData>,
        RepositoryError,
    >) {
        match self.satellite_data_repository.get_all() {
            Ok(all) => {
                let found = satellite_data_of_satellite(&all, satellite_id);
                assert(found@ == assets_of(all@, satellite_id));
                Ok(found)
            },
            Err(e) => Err(e),
        }
    }
}

/// Stores and finds data products.
pub trait InstrumentDataService {
    /// The stored pairings, by raw identifier.
    spec fn pairings(&self) -> Map<i32, SatelliteInstrument>;

    /// The stored data products, by raw identifier.
    spec fn data(&self) -> Map<i32, InstrumentData>;

    /// What the service relies on.
    spec fn wf(&self) -> bool;

    /// Whether the stored data products alone decide if `data` is stored:
    /// `Some(true)` where the storage is bound to store it, `Some(false)` where
    /// it is bound to refuse it, and `None` where the storage may also fail on
    /// its own.
    spec fn decides_add(&self, data: InstrumentData) -> Option<bool>;

    /// Whether reading the pairings and the data products cannot fail on its
    /// own.
    spec fn decides_reads(&self) -> bool;

    /// Stores a data product as a new row. Whether its pairing exists is not
    /// looked at. Where the stored data products decide, the product is
    /// stored exactly when they allow it.
    fn add_data(&mut self, data: InstrumentData) -> (r: Result<bool, RepositoryError>)
        requires
            old(self).wf(),
        ensures
            final(self).wf(),
            final(self).pairings() == old(self).pairings(),
            old(self).decides_add(data) matches Some(taken) ==> (r is Ok) == taken,
            match r {
                Ok(added) => added && exists|id: Id|
                    !old(self).data().contains_key(id.0) && final(self).data() == old(
                        self,
                    ).data().insert(id.0, #[trigger] data.with_id(id)),
                Err(e) => e != RepositoryError::MissingId && final(self).data() == old(
                    self,
                ).data(),
            },
    ;

    /// The data product stored under `id`, if there is one.
    fn get_by_id(&self, id: Id) -> (r: Result<Option<InstrumentData>, RepositoryError>)
        requires
            self.wf(),
        ensures
            self.decides_reads() ==> r is Ok,
            match r {
                Ok(Some(found)) => self.data().contains_key(id.0) && found == self.data()[id.0],
                Ok(None) => !self.data().contains_key(id.0),
                Err(e) => e == RepositoryError::BackendFailure,
            },
    ;

    /// The data products of a satellite: the selection from one scan of the
    /// pairings and one of the data products.
    fn get_by_satellite_id(&self, satellite_id: Id) -> (r: Result<
        Vec<InstrumentData>,
        RepositoryError,
    >)
        requires
            self.wf(),
        ensures
            self.decides_reads() ==> r is Ok,
            match r {
                Ok(found) => exists|pairings: Seq<SatelliteInstrument>, all: Seq<InstrumentData>|
                    is_scan_of(self.pairings(), pairings) && is_scan_of(self.data(), all) && found@
                        == #[trigger] selected(pairings, all, satellite_id),
                Err(e) => e == RepositoryError::BackendFailure,
            },
    ;
}

/// Stores and finds the data products of two repositories: that of the
/// pairings and that of the data products.
pub struct InstrumentDataServiceDefault<
    P: Repository<SatelliteInstrument>,
    D: Repository<InstrumentData>,
> {
    satellite_instrument_repository: P,
    instrument_data_repository: D,
}

impl<
    P: Repository<SatelliteInstrument>,
    D: Repository<InstrumentData>,
> InstrumentDataServiceDefault<P, D> {
    /// The repository of the pairings.
    pub closed spec fn pairing_repository(&self) -> P {
        self.satellite_instrument_repository
    }

    /// The repository of the data products.
    pub closed spec fn data_repository(&self) -> D {
        self.instrument_data_repository
    }

    pub fn new(satellite_instrument_repository: P, instrument_data_repository: D) -> (service: Self)
        ensures
            service.pairing_repository() == satellite_instrument_repository,
            service.data_repository() == instrument_data_repository,
    {
        Self { satellite_instrument_repository, instrument_data_repository }
    }
}

impl<
    P: Repository<SatelliteInstrument>,
    D: Repository<InstrumentData>,
> InstrumentDataService for InstrumentDataServiceDefault<P, D> {
    open spec fn pairings(&self) -> Map<i32, SatelliteInstrument> {
        self.pairing_repository().rows()
    }

    open spec fn data(&self) -> Map<i32, InstrumentData> {
        self.data_repository().rows()
    }

    open spec fn wf(&self) -> bool {
        self.pairing_repository().wf() && self.data_repository().wf()
    }

    fn add_data(&mut self, data: InstrumentData) -> (r: Result<bool, RepositoryError>) {
        match self.instrument_data_repository.add(data) {
            Ok(id) => {
                assert(data.with_id(id) == data.with_id(id));
                Ok(true)
            },
            Err(e) => Err(e),
        }
    }

    fn get_by_id(&self, id: Id) -> (r: Result<Option<InstrumentData>, RepositoryError>) {
        self.instrument_data_repository.get(id)
    }

    fn get_by_satellite_id(&self, satellite_id: Id) -> (r: Result<
        Vec<InstrumentData>,
        RepositoryError,
    >) {
        let pairings = match self.satellite_instrument_repository.get_all() {
            Ok(pairings) => pairings,
            Err(e) => {
                return Err(e);
            },
        };
        let all = match self.instrument_data_repository.get_all() {
            Ok(all) => all,
            Err(e) => {
                return Err(e);
            },
        };
        let found = instrument_data_of_satellite(&pairings, &all, satellite_id);
        assert(found@ == selected(pairings@, all@, satellite_id));
        Ok(found)
    }

    open spec fn decides_add(&self, data: InstrumentData) -> Option<bool> {
        self.data_repository().decides_add(data)
    }

    open spec fn decides_reads(&self) -> bool {
        self.pairing_repository().decides_reads() && self.data_repository().decides_reads()
    }
}

} // verus!
