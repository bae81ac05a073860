//! The HTTP verb an endpoint is called with.

use vstd::prelude::*;

verus! {

/// The HTTP method of an endpoint.  Fixed per endpoint, never
/// data-driven.
#[derive(Debug, Clone, Copy, PartialEq, Eq, Structural)]
pub enum ApiHttpMethod {
    Get,
    Post,
    Put,
    Delete,
}

} // verus!
