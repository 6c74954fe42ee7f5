//! Looks up the land parcels around a street address: geocode the address,
//! take the viewport of the first result as a bounding box, query a parcel
//! service with that box, and save its answer.
//!
//! The library holds the decisions of that run; performing the requests and
//! writing the file is left to the caller.

pub mod json;

pub mod geocode;
pub mod query;
pub mod pipeline;
