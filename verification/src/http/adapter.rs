//! The shape of a request model: which query and body types an adapter
//! decodes a request into.  The decoding itself belongs to the
//! serialization layer.

use vstd::prelude::*;

verus! {

/// A request model: the query and body types of one route.
pub trait HttpRequestModel {
    type Query;

    type Body;
}

impl HttpRequestModel for () {
    type Query = ();

    type Body = ();
}

} // verus!
