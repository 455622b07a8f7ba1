//! Public (unauthenticated) endpoints.

pub mod orderbooks;
pub mod status;
pub mod ticker;
pub mod trades;
