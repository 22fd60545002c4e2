//! Verified core of a small chat bot: request signing, endpoint resolution,
//! decoding and rendering of API responses, and host usage figures.

pub mod text;
pub mod token;
pub mod endpoint;
pub mod usage;
pub mod json;
pub mod fetch;
pub mod stamp;
