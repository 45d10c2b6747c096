//! Stable error codes for the body of an error response. Clients can match on
//! the code; the message is for people and may change.

use vstd::prelude::*;

verus! {

/// The request is not one that can be served: no JSON, or too large.
pub const VALIDATION: &'static str = "RUSTYHIP_E_VALIDATION";

/// The statement failed.
pub const SQL: &'static str = "RUSTYHIP_E_SQL";

/// The bearer token is missing or wrong.
pub const UNAUTHORIZED: &'static str = "RUSTYHIP_E_UNAUTHORIZED";

/// There is no such route.
pub const NOT_FOUND: &'static str = "RUSTYHIP_E_NOT_FOUND";

/// The service itself failed, or cannot vouch for what it did.
pub const INTERNAL: &'static str = "RUSTYHIP_E_INTERNAL";

} // verus!
