//! The persisted entities.

pub mod instrument;
pub mod instrument_data;
pub mod oceancolor;
pub mod satellite;
pub mod satellite_data;
pub mod satellite_instrument;
