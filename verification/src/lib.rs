//! Gateway logic of an integration-test service: REST requests are turned into
//! the calls that a storage service and a geospatial service receive, and the
//! replies of those services into HTTP outcomes.

pub mod api;
pub mod clock;
pub mod exchange;
pub mod gis;
pub mod identifier;
pub mod number;
pub mod records;
pub mod rest_types;
pub mod schedule;
pub mod storage;

