//! The decoding error contract: how a failed decode is sorted into a
//! structured domain error or a raw invalid-input error.

use vstd::prelude::*;

use crate::http::json::extract_error_name;
use crate::http::json::extract_spec;

verus! {

/// A failed decode: either a domain error the deserializer embedded in
/// its message, or the raw message of input that was not decodable.
pub enum DecodeError {
    /// A domain error the deserializer embedded in its message.
    Custom { err_name: String, err_msg: Option<String> },
    /// The input could not be decoded (or held no embedded error name):
    /// the underlying decoder message.
    BizErr(String),
}

/// Sorts a failed JSON decode into the error contract: a message carrying
/// an embedded error name (in a document that was well-formed JSON but
/// invalid data) becomes a structured domain error; anything else keeps
/// the raw message.
pub fn decode_failure(is_data: bool, msg: &str) -> (e: DecodeError)
    ensures
        is_data && extract_spec(msg@) is Some ==> (e matches DecodeError::Custom {
            err_name,
            err_msg,
        } && err_name@ == extract_spec(msg@).unwrap().0 && (err_msg is Some <==> extract_spec(
            msg@,
        ).unwrap().1 is Some) && (err_msg is Some ==> err_msg.unwrap()@ == extract_spec(
            msg@,
        ).unwrap().1.unwrap())),
        !(is_data && extract_spec(msg@) is Some) ==> (e matches DecodeError::BizErr(m) && m@
            == msg@),
{
    if is_data {
        match extract_error_name(msg) {
            Some((err_name, err_msg)) => DecodeError::Custom { err_name, err_msg },
            None => DecodeError::BizErr(msg.to_owned()),
        }
    } else {
        DecodeError::BizErr(msg.to_owned())
    }
}

/// Sorts a failed query-string decode into the error contract: every
/// failure message is inspected for an embedded error name.
pub fn query_decode_failure(msg: &str) -> (e: DecodeError)
    ensures
        extract_spec(msg@) is Some ==> (e matches DecodeError::Custom {
            err_name,
            err_msg,
        } && err_name@ == extract_spec(msg@).unwrap().0 && (err_msg is Some <==> extract_spec(
            msg@,
        ).unwrap().1 is Some) && (err_msg is Some ==> err_msg.unwrap()@ == extract_spec(
            msg@,
        ).unwrap().1.unwrap())),
        extract_spec(msg@) is None ==> (e matches DecodeError::BizErr(m) && m@ == msg@),
{
    match extract_error_name(msg) {
        Some((err_name, err_msg)) => DecodeError::Custom { err_name, err_msg },
        None => DecodeError::BizErr(msg.to_owned()),
    }
}

} // verus!
