//! The error values that the crate hands to its callers.

use vstd::prelude::*;

verus! {

/// A resource representation lacks a mandatory field.
///
/// The value carries no detail: a representation is valid or it is not.
#[derive(Clone, Copy, Debug, PartialEq, Eq)]
pub struct ValidationError;

/// The stage at which a dispatch failed.
#[derive(Clone, Copy, Debug, PartialEq, Eq)]
pub enum SquareError {
    /// The credential cannot be encoded into a header value.
    InvalidHeader,
    /// The exchange with the remote host failed.
    Transport,
    /// The response body is not a JSON document.
    Deserialization,
}

} // verus!
