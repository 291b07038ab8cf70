//! Field mapping between entities and relational rows: the declarative
//! per-field directives and what they generate, and the row model that
//! entities are hydrated from and flattened into.

pub mod directive;
pub mod property;
pub mod table;
pub mod row;
pub mod record;
