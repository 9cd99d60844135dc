//! Verified core of the library-system services: identifiers, book and
//! review domain values, authorization decisions and configuration.

pub mod authz;
pub mod book;
pub mod clock;
pub mod config;
pub mod flow;
pub mod ids;
pub mod opa;
pub mod openfga;
pub mod review;
pub mod store;
pub mod text;
