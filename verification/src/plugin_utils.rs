//! Helpers with which plugins and tests describe responses.

pub mod extensions;
pub mod router_response;

pub use extensions::from_names_and_values;
pub use router_response::{RouterResponse, RouterResponseBuilder};
