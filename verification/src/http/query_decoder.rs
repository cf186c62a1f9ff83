//! The query-string decoder's error contract.

use vstd::prelude::*;

use crate::http::json::extract_error_name;
use crate::http::json::extract_spec;

verus! {

/// A failed query-string decode: either a domain error the deserializer
/// embedded in its message, or the raw message of an invalid query.
pub enum QueryParseError {
    /// A domain error the deserializer embedded in its message.
    Custom { err_name: String, err_msg: Option<String> },
    /// The query string could not be decoded (or held no embedded error
    /// name): the underlying decoder message.
    InvalidQuery(String),
}

/// The query-string decoder.  Byte-level deserialization is the
/// serialization layer's work; this core owns the error contract below.
#[derive(Debug, Clone, Copy)]
pub struct QueryParserSerde;

/// Sorts a failed query-string decode into the error contract: every
/// failure message is inspected for an embedded error name.
pub fn query_failure(msg: &str) -> (e: QueryParseError)
    ensures
        extract_spec(msg@) is Some ==> (e matches QueryParseError::Custom {
            err_name,
            err_msg,
        } && err_name@ == extract_spec(msg@).unwrap().0 && (err_msg is Some <==> extract_spec(
            msg@,
        ).unwrap().1 is Some) && (err_msg is Some ==> err_msg.unwrap()@ == extract_spec(
            msg@,
        ).unwrap().1.unwrap())),
        extract_spec(msg@) is None ==> (e matches QueryParseError::InvalidQuery(m) && m@
            == msg@),
{
    match extract_error_name(msg) {
        Some((err_name, err_msg)) => QueryParseError::Custom { err_name, err_msg },
        None => QueryParseError::InvalidQuery(msg.to_owned()),
    }
}

} // verus!
