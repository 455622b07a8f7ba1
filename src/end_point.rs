//! The exchange's base URLs.

use vstd::prelude::*;

verus! {

/// Base URL of the public (unauthenticated) endpoints.
pub const PUBLIC_ENDPOINT: &'static str = "https://api.coin.z.com/public";

/// Base URL of the private (authenticated) endpoints.
pub const PRIVATE_ENDPOINT: &'static str = "https://api.coin.z.com/private";

} // verus!
