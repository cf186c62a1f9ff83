//! The request parser's error contract, mirroring the decoder's: a failed
//! parse is sorted into a structured domain error or a raw failure.

use vstd::prelude::*;

use crate::http::json::extract_error_name;
use crate::http::json::extract_spec;

verus! {

/// A failed parse: either a domain error the deserializer embedded in its
/// message, or the raw message of input that was not parseable.
pub enum ParseError {
    /// A domain error the deserializer embedded in its message.
    Custom { err_name: String, err_msg: Option<String> },
    /// The input could not be parsed (or held no embedded error name):
    /// the underlying parser message.
    Other(String),
}

/// Marker for a wire format the parser can speak.
pub trait Format {

}

/// The request parser.  Byte-level deserialization is the serialization
/// layer's work; this core owns the error contract below.
#[derive(Debug, Clone, Copy)]
pub struct SimpleParser;

/// The JSON wire format.
#[derive(Debug, Clone, Copy)]
pub struct Json;

impl Format for Json {

}

/// The URL-encoded query-string wire format.
#[derive(Debug, Clone, Copy)]
pub struct UrlEncodedQuery;

impl Format for UrlEncodedQuery {

}

/// Sorts a failed JSON parse into the error contract: a message carrying
/// an embedded error name (in a document that was well-formed JSON but
/// invalid data) becomes a structured domain error; anything else keeps
/// the raw message.
pub fn parse_failure(is_data: bool, msg: &str) -> (e: ParseError)
    ensures
        is_data && extract_spec(msg@) is Some ==> (e matches ParseError::Custom {
            err_name,
            err_msg,
        } && err_name@ == extract_spec(msg@).unwrap().0 && (err_msg is Some <==> extract_spec(
            msg@,
        ).unwrap().1 is Some) && (err_msg is Some ==> err_msg.unwrap()@ == extract_spec(
            msg@,
        ).unwrap().1.unwrap())),
        !(is_data && extract_spec(msg@) is Some) ==> (e matches ParseError::Other(m) && m@
            == msg@),
{
    if is_data {
        match extract_error_name(msg) {
            Some((err_name, err_msg)) => ParseError::Custom { err_name, err_msg },
            None => ParseError::Other(msg.to_owned()),
        }
    } else {
        ParseError::Other(msg.to_owned())
    }
}

/// Sorts a failed query-string parse into the error contract: every
/// failure message is inspected for an embedded error name.
pub fn query_parse_failure(msg: &str) -> (e: ParseError)
    ensures
        extract_spec(msg@) is Some ==> (e matches ParseError::Custom {
            err_name,
            err_msg,
        } && err_name@ == extract_spec(msg@).unwrap().0 && (err_msg is Some <==> extract_spec(
            msg@,
        ).unwrap().1 is Some) && (err_msg is Some ==> err_msg.unwrap()@ == extract_spec(
            msg@,
        ).unwrap().1.unwrap())),
        extract_spec(msg@) is None ==> (e matches ParseError::Other(m) && m@ == msg@),
{
    match extract_error_name(msg) {
        Some((err_name, err_msg)) => ParseError::Custom { err_name, err_msg },
        None => ParseError::Other(msg.to_owned()),
    }
}

} // verus!
