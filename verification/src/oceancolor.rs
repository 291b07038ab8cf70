//! The ocean colour provider: what is asked of its search service, how its
//! answers are read, and the ingestion job that stores its products.

pub mod search;
pub mod job;
pub mod download;
pub mod redirect;
pub mod service;
