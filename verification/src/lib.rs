//! Satellite and instrument bookkeeping with a periodic ingestion pipeline for
//! remote geophysical imagery.
//!
//! The library holds the rules: typed identifiers and references, the
//! repository contract with its in-memory backend, the mapping between
//! entities and relational rows with the statements built from it, the
//! ingestion job as a state machine, how the answers of the remote services
//! are read, which redirects may carry the credential, and which cells of a
//! raster count. Exchanges with the outside world are left to the caller.

pub mod celestrak;
pub mod dto;
pub mod id;
pub mod mapping;
pub mod model;
pub mod oceancolor;
pub mod raster;
pub mod repository;
pub mod service;
pub mod sql;
pub mod text;
pub mod time;
