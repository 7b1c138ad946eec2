//! Resolution of a parcel's end-to-end delivery itinerary.
//!
//! Given the records that storage holds for one parcel — flight plans, the
//! parcel-to-flight-plan linkages, vertiports and the user — this library
//! validates each transport hop, orders the hops chronologically, merges
//! their geographic paths, encodes the merged path as a polyline string and
//! assembles the flat key-value payload of the confirmation notification.
//! Everything here is pure: the fetches and the delivery call live with the
//! surrounding service.

pub mod decimal;
pub mod encode;
pub mod geo;
pub mod hop;
pub mod itinerary;
pub mod linkage;
pub mod notify;
pub mod openapi;
pub mod server;
