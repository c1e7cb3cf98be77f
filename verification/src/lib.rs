//! Verified core of a small location-sharing web service: loading the
//! service settings, deciding how each location request is answered,
//! building the lookup URL for a client's address, and the text that goes
//! into the shared store of locations.

pub mod config;
pub mod reply;
pub mod placeholder;
pub mod store;
pub mod exact_location;
pub mod isp_location;
