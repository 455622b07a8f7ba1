//! Exchange status.

use crate::decode::{field_decodable, field_decodes, read_field, read_str, str_field, FromJson};
use crate::json::{member_text, object_of, read_object};
use crate::request::{public_get, GetRequest};
use crate::response::{envelope_fields, read_envelope, RestResponse};
use crate::end_point::PUBLIC_ENDPOINT;
use crate::timestamp::Timestamp;
use vstd::prelude::*;

verus! {

pub const STATUS_API_PATH: &'static str = "/v1/status";

pub const EXCHANGE_STATUS_OPEN: &'static str = "OPEN";

pub const EXCHANGE_STATUS_PREOPEN: &'static str = "PREOPEN";

pub const EXCHANGE_STATUS_MAINTENANCE: &'static str = "MAINTENANCE";

/// The `data` member of the status response.
pub struct Data {
    /// "OPEN", "PREOPEN" or "MAINTENANCE".
    pub status: String,
}

impl FromJson for Data {
    open spec fn decodable(text: Seq<char>) -> bool {
        object_of(text) matches Some(ms) && str_field(ms, "status"@) is Some
    }

    open spec fn decodes(text: Seq<char>, x: Self) -> bool {
        object_of(text) matches Some(ms) && str_field(ms, "status"@) == Some(x.status@)
    }

    fn from_json(text: &str) -> (r: Option<Self>) {
        let ms = read_object(text)?;
        let status = read_str(&ms, "status")?;
        Some(Data { status })
    }
}

/// The status response.
pub struct Status {
    pub status: i16,
    pub responsetime: Timestamp,
    pub data: Data,
}

impl FromJson for Status {
    open spec fn decodable(text: Seq<char>) -> bool {
        object_of(text) matches Some(ms) && envelope_fields(ms) is Some && field_decodable::<Data>(
            ms,
            "data"@,
        )
    }

    open spec fn decodes(text: Seq<char>, x: Self) -> bool {
        object_of(text) matches Some(ms) && envelope_fields(ms) == Some((x.status, x.responsetime))
            && field_decodes::<Data>(ms, "data"@, x.data)
    }

    fn from_json(text: &str) -> (r: Option<Self>) {
        let ms = read_object(text)?;
        let (status, responsetime) = read_envelope(&ms)?;
        let data = read_field::<Data>(&ms, "data")?;
        Some(Status { status, responsetime, data })
    }
}

impl RestResponse<Status> {
    /// Whether the exchange is open.
    pub fn is_open(&self) -> (r: bool)
        ensures
            r == (self.body.data.status@ == EXCHANGE_STATUS_OPEN@),
    {
        self.body.data.status.eq(&EXCHANGE_STATUS_OPEN.to_owned())
    }

    /// Whether the exchange is in pre-open, the half hour around maintenance.
    pub fn is_pre_open(&self) -> (r: bool)
        ensures
            r == (self.body.data.status@ == EXCHANGE_STATUS_PREOPEN@),
    {
        self.body.data.status.eq(&EXCHANGE_STATUS_PREOPEN.to_owned())
    }

    /// Whether the exchange is under maintenance.
    pub fn is_maintenance(&self) -> (r: bool)
        ensures
            r == (self.body.data.status@ == EXCHANGE_STATUS_MAINTENANCE@),
    {
        self.body.data.status.eq(&EXCHANGE_STATUS_MAINTENANCE.to_owned())
    }

    /// The exchange status as sent.
    pub fn status(&self) -> (r: &String)
        ensures
            r@ == self.body.data.status@,
    {
        &self.body.data.status
    }
}

/// An error envelope, which carries no `data`, is never read as a status:
/// decoding it as a [`Status`] gives the exchange's error, not a status.
pub proof fn lemma_error_envelope_is_no_status(text: Seq<char>, ms: Seq<(Seq<char>, Seq<char>)>)
    requires
        object_of(text) == Some(ms),
        member_text(ms, "data"@) is None,
    ensures
        !Status::decodable(text),
{
}

/// The request for the exchange status.
pub fn status_request() -> (r: GetRequest)
    ensures
        r.url@ == PUBLIC_ENDPOINT@ + STATUS_API_PATH@,
        r.headers@.len() == 0,
{
    let r = public_get(STATUS_API_PATH, "");
    proof {
        reveal_strlit("");
    }
    assert(r.url@ =~= PUBLIC_ENDPOINT@ + STATUS_API_PATH@);
    r
}

} // verus!
