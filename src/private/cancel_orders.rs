//! Cancelling several orders at once. Partial failure is an ordinary
//! outcome: the response lists the orders cancelled and, apart, those that
//! were not, each with the exchange's reason.

use crate::body::{array_json, array_text, object_json, object_text, raw_member};
use crate::decode::{
    field_decodable, field_decodes, id_list_field_decodable, id_list_field_decodes,
    list_field_decodable, list_field_decodes, members_of, read_field, read_id_list_field,
    read_list_field, texts_of, FromJson,
};
use crate::dto::CancelFailedOrder;
use crate::end_point::PRIVATE_ENDPOINT;
use crate::headers::{post_headers, MAX_SIGNED_LEN};
use crate::json::{array_of, id_of_json, json_node_of, member_text, object_of, read_object, Member};
use crate::numeric::{int_text, write_i64};
use crate::request::{i32_of_text, id_to_num, signed_post, Credentials, PostRequest};
use crate::response::{envelope_fields, read_envelope, Error, RestResponse};
use crate::timestamp::Timestamp;
use vstd::prelude::*;

verus! {

pub const CANCEL_ORDERS_API_PATH: &'static str = "/v1/cancelOrders";

/// The `data` member: orders not cancelled and orders cancelled. Either list
/// may be left out, and then reads as empty.
pub struct Data {
    pub failed: Vec<CancelFailedOrder>,
    pub success: Vec<String>,
}

impl FromJson for Data {
    open spec fn decodable(text: Seq<char>) -> bool {
        object_of(text) matches Some(ms) && list_field_decodable::<CancelFailedOrder>(ms, "failed"@)
            && id_list_field_decodable(ms, "success"@)
    }

    open spec fn decodes(text: Seq<char>, x: Self) -> bool {
        object_of(text) matches Some(ms) && list_field_decodes::<CancelFailedOrder>(
            ms,
            "failed"@,
            x.failed@,
        ) && id_list_field_decodes(ms, "success"@, texts_of(x.success@))
    }

    fn from_json(text: &str) -> (r: Option<Self>) {
        let ms = read_object(text)?;
        let failed = read_list_field::<CancelFailedOrder>(&ms, "failed")?;
        let success = read_id_list_field(&ms, "success")?;
        Some(Data { failed, success })
    }
}

/// The multi-cancel response.
pub struct CancelOrders {
    pub status: i16,
    pub responsetime: Timestamp,
    pub data: Data,
}

impl FromJson for CancelOrders {
    open spec fn decodable(text: Seq<char>) -> bool {
        object_of(text) matches Some(ms) && envelope_fields(ms) is Some && field_decodable::<Data>(
            ms,
            "data"@,
        )
    }

    open spec fn decodes(text: Seq<char>, x: Self) -> bool {
        object_of(text) matches Some(ms) && envelope_fields(ms) == Some((x.status, x.responsetime))
            && field_decodes::<Data>(ms, "data"@, x.data)
    }

    fn from_json(text: &str) -> (r: Option<Self>) {
        let ms = read_object(text)?;
        let (status, responsetime) = read_envelope(&ms)?;
        let data = read_field::<Data>(&ms, "data")?;
        Some(CancelOrders { status, responsetime, data })
    }
}

impl RestResponse<CancelOrders> {
    /// The orders that were not cancelled, each with its reason.
    pub fn failed(&self) -> (r: &Vec<CancelFailedOrder>)
        ensures
            r@ == self.body.data.failed@,
    {
        &self.body.data.failed
    }

    /// The identifiers of the orders that were cancelled.
    pub fn success(&self) -> (r: &Vec<String>)
        ensures
            r@ == self.body.data.success@,
    {
        &self.body.data.success
    }
}

/// Whether every identifier is a number.
pub open spec fn all_numeric(ids: Seq<&str>) -> bool {
    forall|i: int| 0 <= i < ids.len() ==> (i32_of_text(#[trigger] ids[i]@) is Some)
}

/// The identifiers as JSON numbers.
pub open spec fn id_numbers(ids: Seq<&str>) -> Seq<Seq<char>> {
    ids.map_values(|id: &str| int_text(i32_of_text(id@).unwrap() as int))
}

/// The body of a multi-cancel: `{"orderIds":[N,...]}`.
pub open spec fn cancel_orders_body(ids: Seq<&str>) -> Seq<char> {
    object_json(seq![("orderIds"@, array_json(id_numbers(ids)))])
}

/// The JSON body that cancels the given orders; `IdToNumberError` with the
/// first identifier that is not a number.
pub fn build_parameters(order_ids: &[&str]) -> (r: Result<String, Error>)
    ensures
        all_numeric(order_ids@) ==> (r matches Ok(b) && b@ == cancel_orders_body(order_ids@)),
        !all_numeric(order_ids@) ==> (r matches Err(Error::IdToNumberError(s)) && exists|k: int|
            0 <= k < order_ids@.len() && s@ == order_ids@[k]@ && i32_of_text(order_ids@[k]@) is None
                && forall|j: int| 0 <= j < k ==> (i32_of_text(#[trigger] order_ids@[j]@) is Some)),
{
    let mut numbers: Vec<String> = Vec::new();
    let mut i: usize = 0;
    while i < order_ids.len()
        invariant
            i <= order_ids@.len(),
            numbers@.len() == i,
            forall|j: int| 0 <= j < i ==> (i32_of_text(#[trigger] order_ids@[j]@) is Some),
            forall|j: int|
                0 <= j < i ==> #[trigger] numbers@[j]@ == int_text(
                    i32_of_text(order_ids@[j]@).unwrap() as int,
                ),
        decreases order_ids.len() - i,
    {
        let n = match id_to_num(order_ids[i]) {
            Ok(n) => n,
            Err(e) => {
                assert(!all_numeric(order_ids@));
                return Err(e);
            },
        };
        let mut t = String::new();
        write_i64(n as i64, &mut t);
        assert(t@ =~= int_text(n as int));
        numbers.push(t);
        i = i + 1;
    }
    assert(numbers@.map_values(|t: String| t@) =~= id_numbers(order_ids@));
    let mut ms: Vec<Member> = Vec::new();
    ms.push(raw_member("orderIds", array_text(&numbers)));
    assert(members_of(ms@) =~= seq![("orderIds"@, array_json(id_numbers(order_ids@)))]);
    Ok(object_text(&ms))
}

/// The request that cancels the given orders, signed at `timestamp`.
pub fn cancel_orders_request(credentials: &Credentials, order_ids: &[&str], timestamp: i64) -> (r: Result<
    PostRequest,
    Error,
>)
    requires
        credentials.api_secret@.len() < MAX_SIGNED_LEN,
    ensures
        !all_numeric(order_ids@) ==> (r matches Err(Error::IdToNumberError(s)) && exists|k: int|
            0 <= k < order_ids@.len() && s@ == order_ids@[k]@ && i32_of_text(order_ids@[k]@) is None
                && forall|j: int| 0 <= j < k ==> (i32_of_text(#[trigger] order_ids@[j]@) is Some)),
        all_numeric(order_ids@) ==> (if CANCEL_ORDERS_API_PATH@.len() + cancel_orders_body(
            order_ids@,
        ).len() < MAX_SIGNED_LEN {
            r matches Ok(req) && req.url@ == PRIVATE_ENDPOINT@ + CANCEL_ORDERS_API_PATH@ && req.body@
                == cancel_orders_body(order_ids@) && req.headers@ == post_headers(
                credentials.api_key@,
                credentials.api_secret@,
                CANCEL_ORDERS_API_PATH@,
                cancel_orders_body(order_ids@),
                timestamp,
            )
        } else {
            r matches Err(Error::SerializationError)
        }),
{
    let body = build_parameters(order_ids)?;
    signed_post(credentials, CANCEL_ORDERS_API_PATH, body, timestamp)
}

/// A multi-cancel response keeps both outcomes, in body order: one failure
/// record per element of `failed`, each with its own code, message and order
/// identifier, and one identifier per element of `success`, numbers turned
/// into their text.
pub proof fn lemma_multi_cancel_keeps_both_lists(
    text: Seq<char>,
    ms: Seq<(Seq<char>, Seq<char>)>,
    data: Seq<char>,
    dm: Seq<(Seq<char>, Seq<char>)>,
    failed: Seq<char>,
    failed_items: Seq<Seq<char>>,
    success: Seq<char>,
    success_items: Seq<Seq<char>>,
    x: CancelOrders,
)
    requires
        object_of(text) == Some(ms),
        member_text(ms, "data"@) == Some(data),
        object_of(data) == Some(dm),
        member_text(dm, "failed"@) == Some(failed),
        array_of(failed) == Some(failed_items),
        member_text(dm, "success"@) == Some(success),
        array_of(success) == Some(success_items),
        CancelOrders::decodes(text, x),
    ensures
        x.data.failed@.len() == failed_items.len(),
        forall|i: int|
            0 <= i < failed_items.len() ==> CancelFailedOrder::decodes(
                #[trigger] failed_items[i],
                x.data.failed@[i],
            ),
        x.data.success@.len() == success_items.len(),
        forall|i: int|
            0 <= i < success_items.len() ==> (json_node_of(#[trigger] success_items[i]) matches Some(
                j,
            ) && id_of_json(j) == Some(x.data.success@[i]@)),
{
    assert forall|i: int| 0 <= i < success_items.len() implies (json_node_of(
        #[trigger] success_items[i],
    ) matches Some(j) && id_of_json(j) == Some(x.data.success@[i]@)) by {
        assert(texts_of(x.data.success@)[i] == x.data.success@[i]@);
    }
}

} // verus!
