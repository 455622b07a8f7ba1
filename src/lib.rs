//! Typed client library for the GMO Coin exchange REST API: request framing,
//! request signing and response decoding.

pub mod body;
pub mod decode;
pub mod dto;
pub mod end_point;
pub mod execution_type;
pub mod headers;
pub mod json;
pub mod numeric;
pub mod private;
pub mod public;
pub mod request;
pub mod response;
pub mod settle_type;
pub mod side;
pub mod symbol;
pub mod time_in_force;
pub mod timestamp;
