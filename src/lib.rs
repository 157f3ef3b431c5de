//! A small read-only service over government bond reference data: the bond
//! model, the mapping of stored rows to bonds, the responses of the two HTTP
//! routes, configuration loading and the startup sequence.

pub mod bond;
pub mod repository;
pub mod http;
pub mod config;
pub mod startup;
