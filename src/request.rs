//! Requests ready for a transport: URL, headers and, for POST, the body that
//! was signed.

use crate::end_point::{PRIVATE_ENDPOINT, PUBLIC_ENDPOINT};
use crate::headers::{get_headers, post_headers, Headers, MAX_SIGNED_LEN};
use crate::numeric::{int_of_text, int_text, parse_i64, write_i64};
use crate::response::Error;
use crate::symbol::Symbol;
use vstd::prelude::*;

verus! {

/// An API key and its secret.
pub struct Credentials {
    pub api_key: String,
    pub api_secret: String,
}

/// A GET request.
pub struct GetRequest {
    pub url: String,
    pub headers: Headers,
}

/// A POST request whose body is JSON text.
pub struct PostRequest {
    pub url: String,
    pub headers: Headers,
    pub body: String,
}

/// A GET request to a public endpoint: no headers.
pub fn public_get(path: &str, query: &str) -> (r: GetRequest)
    ensures
        r.url@ == PUBLIC_ENDPOINT@ + path@ + query@,
        r.headers@.len() == 0,
{
    let mut url = PUBLIC_ENDPOINT.to_owned();
    url.append(path);
    url.append(query);
    let headers = Headers::create_empty_headers();
    GetRequest { url, headers }
}

/// A GET request to a private endpoint, signed at `timestamp`. The signature
/// covers the path, not the query.
pub fn private_get(credentials: &Credentials, path: &str, query: &str, timestamp: i64) -> (r: GetRequest)
    requires
        credentials.api_secret@.len() < MAX_SIGNED_LEN,
        path@.len() < MAX_SIGNED_LEN,
    ensures
        r.url@ == PRIVATE_ENDPOINT@ + path@ + query@,
        r.headers@ == get_headers(
            credentials.api_key@,
            credentials.api_secret@,
            path@,
            timestamp,
        ),
{
    let mut url = PRIVATE_ENDPOINT.to_owned();
    url.append(path);
    url.append(query);
    let headers = Headers::build_get_headers(
        credentials.api_key.as_str(),
        credentials.api_secret.as_str(),
        path,
        timestamp,
    );
    GetRequest { url, headers }
}

/// A POST request to a private endpoint with JSON `body`, signed at
/// `timestamp`. The body sent is the body signed.
pub fn private_post(credentials: &Credentials, path: &str, body: String, timestamp: i64) -> (r:
    PostRequest)
    requires
        credentials.api_secret@.len() < MAX_SIGNED_LEN,
        path@.len() + body@.len() < MAX_SIGNED_LEN,
    ensures
        r.url@ == PRIVATE_ENDPOINT@ + path@,
        r.body@ == body@,
        r.headers@ == post_headers(
            credentials.api_key@,
            credentials.api_secret@,
            path@,
            body@,
            timestamp,
        ),
{
    let mut url = PRIVATE_ENDPOINT.to_owned();
    url.append(path);
    let headers = Headers::build_post_headers(
        credentials.api_key.as_str(),
        credentials.api_secret.as_str(),
        path,
        body.as_str(),
        timestamp,
    );
    PostRequest { url, headers, body }
}

/// `?symbol=NAME`.
pub open spec fn symbol_query_text(symbol: Symbol) -> Seq<char> {
    "?symbol="@ + symbol.wire()
}

pub fn symbol_query(symbol: &Symbol) -> (r: String)
    ensures
        r@ == symbol_query_text(*symbol),
{
    let mut q = "?symbol=".to_owned();
    q.append(symbol.to_string());
    q
}

/// `?symbol=NAME&page=P&count=C`.
pub open spec fn page_query_text(symbol: Symbol, page: i32, count: i32) -> Seq<char> {
    "?symbol="@ + symbol.wire() + "&page="@ + int_text(page as int) + "&count="@ + int_text(
        count as int,
    )
}

pub fn page_query(symbol: &Symbol, page: i32, count: i32) -> (r: String)
    ensures
        r@ == page_query_text(*symbol, page, count),
{
    let mut q = "?symbol=".to_owned();
    q.append(symbol.to_string());
    q.append("&page=");
    write_i64(page as i64, &mut q);
    q.append("&count=");
    write_i64(count as i64, &mut q);
    q
}

/// `?NAME=VALUE`.
pub fn single_query(name: &str, value: &str) -> (r: String)
    ensures
        r@ == "?"@ + name@ + "="@ + value@,
{
    let mut q = "?".to_owned();
    q.append(name);
    q.append("=");
    q.append(value);
    q
}

/// The texts of `ids` joined by commas.
pub open spec fn comma_joined(ids: Seq<Seq<char>>) -> Seq<char>
    decreases ids.len(),
{
    if ids.len() == 0 {
        Seq::empty()
    } else if ids.len() == 1 {
        ids[0]
    } else {
        comma_joined(ids.drop_last()) + ","@ + ids.last()
    }
}

pub fn join_ids(ids: &Vec<String>) -> (r: String)
    ensures
        r@ == comma_joined(ids@.map_values(|t: String| t@)),
{
    let ghost all = ids@.map_values(|t: String| t@);
    let mut out = String::new();
    let mut i: usize = 0;
    while i < ids.len()
        invariant
            i <= ids@.len(),
            all == ids@.map_values(|t: String| t@),
            out@ == comma_joined(all.subrange(0, i as int)),
        decreases ids.len() - i,
    {
        let ghost before = all.subrange(0, i as int);
        let ghost after = all.subrange(0, i + 1);
        assert(after.drop_last() =~= before);
        assert(after.last() == ids@[i as int]@);
        let ghost prev = out@;
        if i > 0 {
            out.append(",");
        }
        out.append(ids[i].as_str());
        proof {
            if i == 0 {
                assert(comma_joined(before) =~= Seq::<char>::empty());
                assert(out@ =~= after[0]);
            } else {
                assert(out@ =~= prev + ","@ + after.last());
            }
        }
        i = i + 1;
    }
    assert(all.subrange(0, ids@.len() as int) =~= all);
    out
}

/// A POST request to a private endpoint with JSON `body`, signed at
/// `timestamp`; a `SerializationError` when path and body are too long to
/// sign.
pub fn signed_post(credentials: &Credentials, path: &str, body: String, timestamp: i64) -> (r: Result<
    PostRequest,
    Error,
>)
    requires
        credentials.api_secret@.len() < MAX_SIGNED_LEN,
    ensures
        path@.len() + body@.len() < MAX_SIGNED_LEN ==> (r matches Ok(req) && req.url@
            == PRIVATE_ENDPOINT@ + path@ && req.body@ == body@ && req.headers@ == post_headers(
            credentials.api_key@,
            credentials.api_secret@,
            path@,
            body@,
            timestamp,
        )),
        path@.len() + body@.len() >= MAX_SIGNED_LEN ==> (r matches Err(Error::SerializationError)),
{
    let n = path.unicode_len();
    let m = body.as_str().unicode_len();
    if n as u64 >= MAX_SIGNED_LEN || m as u64 >= MAX_SIGNED_LEN - n as u64 {
        return Err(Error::SerializationError);
    }
    Ok(private_post(credentials, path, body, timestamp))
}

/// The `i32` that an identifier spells, if it spells one in range.
pub open spec fn i32_of_text(s: Seq<char>) -> Option<i32> {
    match int_of_text(s) {
        Some(n) => if i32::MIN <= n <= i32::MAX {
            Some(n as i32)
        } else {
            None
        },
        None => None,
    }
}

/// Reads an identifier as the number that some endpoints require;
/// `IdToNumberError` with the identifier when it is not an `i32`.
pub fn id_to_num(id: &str) -> (r: Result<i32, Error>)
    ensures
        match i32_of_text(id@) {
            Some(n) => r == Ok::<i32, Error>(n),
            None => r matches Err(Error::IdToNumberError(s)) && s@ == id@,
        },
{
    match parse_i64(id) {
        Some(n) => {
            if -2147483648 <= n && n <= 2147483647 {
                Ok(n as i32)
            } else {
                Err(Error::IdToNumberError(id.to_owned()))
            }
        },
        None => Err(Error::IdToNumberError(id.to_owned())),
    }
}

} // verus!
