//! Index configuration values for a vector database: distance metrics,
//! one configuration per index family, a handle that hands its configuration
//! out once, descriptors of existing indices, and range-checked numbers.

pub mod text;
pub mod error;
pub mod coerce;
pub mod distance;
pub mod index;
pub mod config;
