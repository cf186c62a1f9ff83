//! Codec marker types shared by the decoding error contract.  The actual
//! byte-level serialization is the serialization layer's work; this core
//! owns the wire-format markers and how decode failures are sorted.

pub mod decoder;

use vstd::prelude::*;

verus! {

/// The codec used by the request/response adapters.
#[derive(Debug, Clone, Copy)]
pub struct SimpleCodec;

/// Marker for a wire format a codec can speak.
pub trait Format {

}

/// The JSON wire format.
#[derive(Debug, Clone, Copy)]
pub struct Json;

impl Format for Json {

}

/// The URL-encoded query-string wire format.
#[derive(Debug, Clone, Copy)]
pub struct UrlEncodedQuery;

impl Format for UrlEncodedQuery {

}

} // verus!
