//! Typed request/response contracts for a portfolio-tracking REST API.
//!
//! Every supported operation is described by an endpoint marker type that
//! binds an HTTP verb, a URL template, a parameter shape and a success
//! response shape.  The library itself performs no I/O: callers build a
//! `Parameters` value, obtain the resolved URL and the encoded request
//! body from it, hand both to whatever transport they use, and decode the
//! raw response document into the endpoint's `Success` type.
//!
//! Wire payloads are modelled by [`json::JsonValue`], a plain JSON
//! document tree.  Field codecs are deliberately asymmetric where the
//! remote service is: integer identifiers are emitted as native numbers
//! but accepted from either numbers or numeric strings, dates are
//! accepted in several textual formats, closed enumerations reject
//! unknown codes, and optional fields that are unset are omitted from
//! encoded output entirely.

pub mod api;
pub mod cash_accounts;
pub mod codec;
pub mod date;
pub mod enums;
pub mod holdings;
pub mod json;
pub mod membership;
pub mod num;
pub mod payouts;
pub mod portfolios;
pub mod reports;
pub mod trades;
pub mod users;
