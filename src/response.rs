//! Raw and typed responses, the exchange's error envelope, and the decoding
//! of a raw response into a typed result.

use crate::decode::{
    field_decodable, field_decodes, members_of, read_field, read_i16, read_str,
    i16_field, read_time, str_field, time_field, FromJson,
};
use crate::json::{json_node_of, object_of, read_object, Member};
use crate::timestamp::Timestamp;
use vstd::prelude::*;

verus! {

/// The response as the transport returns it: status code and body text.
pub struct RawResponse {
    pub http_status_code: u16,
    pub body_text: String,
}

/// A typed response: the HTTP status code and the decoded body.
pub struct RestResponse<T> {
    /// HTTP status code.
    pub http_status_code: u16,
    /// The decoded response body.
    pub body: T,
}

/// One message of the exchange's error envelope.
#[derive(Debug)]
pub struct ErrorMessage {
    pub message_code: String,
    pub message_string: String,
}

/// The exchange's error envelope: a status code and a list of messages.
#[derive(Debug)]
pub struct ErrorResponse {
    pub status: i16,
    pub messages: Vec<ErrorMessage>,
}

impl FromJson for ErrorMessage {
    open spec fn decodable(text: Seq<char>) -> bool {
        object_of(text) matches Some(ms) && str_field(ms, "message_code"@) is Some && str_field(
            ms,
            "message_string"@,
        ) is Some
    }

    open spec fn decodes(text: Seq<char>, x: Self) -> bool {
        object_of(text) matches Some(ms) && str_field(ms, "message_code"@) == Some(
            x.message_code@,
        ) && str_field(ms, "message_string"@) == Some(x.message_string@)
    }

    fn from_json(text: &str) -> (r: Option<Self>) {
        let ms = read_object(text)?;
        let message_code = read_str(&ms, "message_code")?;
        let message_string = read_str(&ms, "message_string")?;
        Some(ErrorMessage { message_code, message_string })
    }
}

impl FromJson for ErrorResponse {
    open spec fn decodable(text: Seq<char>) -> bool {
        object_of(text) matches Some(ms) && i16_field(ms, "status"@) is Some
            && field_decodable::<Vec<ErrorMessage>>(ms, "messages"@)
    }

    open spec fn decodes(text: Seq<char>, x: Self) -> bool {
        object_of(text) matches Some(ms) && i16_field(ms, "status"@) == Some(x.status)
            && field_decodes::<Vec<ErrorMessage>>(ms, "messages"@, x.messages)
    }

    fn from_json(text: &str) -> (r: Option<Self>) {
        let ms = read_object(text)?;
        let status = read_i16(&ms, "status")?;
        let messages = read_field::<Vec<ErrorMessage>>(&ms, "messages")?;
        Some(ErrorResponse { status, messages })
    }
}

/// What can go wrong in a call.
#[derive(Debug)]
pub enum Error {
    /// The transport failed (connection, timeout, name resolution).
    ReqwestError(String),
    /// The body is neither a valid success payload nor a valid error envelope.
    SerdeJsonError,
    /// The request URL could not be formed.
    UrlParseError(String),
    /// An accessor for a single entry found no entry.
    EmptyResponseError,
    /// The exchange rejected the request.
    APIError(ErrorResponse),
    /// A credential could not be read from the environment.
    EnvVarError(String),
    /// An identifier could not be read as a number.
    IdToNumberError(String),
    /// A limit or stop order was given no price.
    PriceNotSpecifiedError,
    /// A market order was given a price.
    PriceNotAllowedError,
    /// A request body could not be encoded: it is too long to sign.
    SerializationError,
    /// Any other failure.
    UnknownError,
}

/// A body that is not JSON is not an error envelope either; so for any `T`
/// it does not read as, decoding ends in `SerdeJsonError`.
pub proof fn lemma_unparsable_body_is_no_envelope(text: Seq<char>)
    requires
        json_node_of(text) is None,
    ensures
        !ErrorResponse::decodable(text),
{
}

/// Decodes a raw response: first as a `T`; failing that, as the exchange's
/// error envelope, which becomes an `APIError`; failing both, a
/// `SerdeJsonError`.
pub fn decode<T: FromJson>(raw: &RawResponse) -> (r: Result<RestResponse<T>, Error>)
    ensures
        T::decodable(raw.body_text@) ==> (r matches Ok(resp) && resp.http_status_code
            == raw.http_status_code && T::decodes(raw.body_text@, resp.body)),
        !T::decodable(raw.body_text@) && ErrorResponse::decodable(raw.body_text@) ==> (r matches Err(
            Error::APIError(e),
        ) && ErrorResponse::decodes(raw.body_text@, e)),
        !T::decodable(raw.body_text@) && !ErrorResponse::decodable(raw.body_text@) ==> (r matches Err(
            Error::SerdeJsonError,
        )),
{
    match T::from_json(raw.body_text.as_str()) {
        Some(body) => Ok(RestResponse { http_status_code: raw.http_status_code, body }),
        None => match ErrorResponse::from_json(raw.body_text.as_str()) {
            Some(e) => Err(Error::APIError(e)),
            None => Err(Error::SerdeJsonError),
        },
    }
}

/// The status and response time that every success envelope carries.
pub open spec fn envelope_fields(ms: Seq<(Seq<char>, Seq<char>)>) -> Option<(i16, Timestamp)> {
    match (i16_field(ms, "status"@), time_field(ms, "responsetime"@)) {
        (Some(st), Some(t)) => Some((st, t)),
        _ => None,
    }
}

/// Reads the status and response time of a success envelope.
pub fn read_envelope(ms: &Vec<Member>) -> (r: Option<(i16, Timestamp)>)
    ensures
        r == envelope_fields(members_of(ms@)),
{
    let status = read_i16(ms, "status")?;
    let time = read_time(ms, "responsetime")?;
    Some((status, time))
}

} // verus!
