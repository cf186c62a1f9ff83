//! Type-level wiring between routes, adapters and use cases, and the
//! simple response wrapper query routes answer with.

use vstd::prelude::*;

use crate::http::response::ApiResponse;
use crate::http::response::Head;
use crate::http::response::HttpVersion;

verus! {

/// The adapter and use case behind an HTTP route.
pub trait HttpTypeProvider {
    type Adapter;

    type UseCase;
}

/// The adapter and message-type pair behind a websocket route.
pub trait WsTypeProvider {
    type Adapter;

    type Command;

    type Event;
}

/// The adapter behind a query route.
pub trait QueryRouter {
    type Adapter;
}

/// A bare response body with the default head.
pub struct SimpleQueryResponse<T> {
    pub body: T,
}

impl<T> ApiResponse for SimpleQueryResponse<T> {
    type Body = T;

    fn headers(&self) -> (r: Option<&Vec<(String, String)>>)
        ensures
            r is None,
    {
        None
    }

    fn body(&self) -> (r: &T)
        ensures
            r == self.body,
    {
        &self.body
    }

    fn into_parts(self) -> (r: (Head, T))
        ensures
            r.0.status == 200,
            r.0.version == HttpVersion::Http2,
            r.0.headers is None,
            r.1 == self.body,
    {
        (Head { status: 200, version: HttpVersion::Http2, headers: None }, self.body)
    }
}

} // verus!
