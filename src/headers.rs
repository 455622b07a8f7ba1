//! Request signing: the HMAC-SHA256 signature of `timestamp + method + path +
//! body`, and the header sets of GET and POST requests.

use crate::numeric::{int_text, nat_text, write_i64};
use crate::timestamp::now_millis;
use vstd::prelude::*;

verus! {

/// Longest secret, path or body (in characters) that a signature is made for:
/// far below what SHA-256 can take.
pub const MAX_SIGNED_LEN: u64 = 0x0100_0000_0000_0000;

/// The HMAC-SHA256 tag of `message` under `key` (both as UTF-8 bytes).
pub uninterp spec fn hmac_sha256_of(key: Seq<char>, message: Seq<char>) -> Seq<u8>;

/// Relies on `ring::hmac::Key::new` with `HMAC_SHA256` and `ring::hmac::sign`:
/// the tag depends on key and message alone and is 32 bytes long. Both panic
/// only on inputs of 2^61 bytes or more, which the bounds exclude.
#[verifier::external_body]
fn hmac_sha256(key: &str, message: &str) -> (r: Vec<u8>)
    requires
        key@.len() < 4 * MAX_SIGNED_LEN,
        message@.len() < 4 * MAX_SIGNED_LEN,
    ensures
        r@ == hmac_sha256_of(key@, message@),
        r@.len() == 32,
{
    let k = ring::hmac::Key::new(ring::hmac::HMAC_SHA256, key.as_bytes());
    ring::hmac::sign(&k, message.as_bytes()).as_ref().to_vec()
}

pub open spec fn hex_digit(d: nat) -> char {
    if d < 10 {
        (d + '0' as nat) as char
    } else {
        (d - 10 + 'a' as nat) as char
    }
}

/// Two lowercase hexadecimal digits per byte, high digit first.
pub open spec fn hex_text(b: Seq<u8>) -> Seq<char>
    decreases b.len(),
{
    if b.len() == 0 {
        Seq::empty()
    } else {
        hex_text(b.drop_last()) + seq![hex_digit(b.last() as nat / 16), hex_digit(b.last() as nat % 16)]
    }
}

pub open spec fn is_lower_hex(c: char) -> bool {
    ('0' <= c && c <= '9') || ('a' <= c && c <= 'f')
}

proof fn lemma_hex_text_shape(b: Seq<u8>)
    ensures
        hex_text(b).len() == 2 * b.len(),
        forall|i: int| 0 <= i < hex_text(b).len() ==> is_lower_hex(#[trigger] hex_text(b)[i]),
    decreases b.len(),
{
    if b.len() > 0 {
        lemma_hex_text_shape(b.drop_last());
        let prev = hex_text(b.drop_last());
        let hi = hex_digit(b.last() as nat / 16);
        let lo = hex_digit(b.last() as nat % 16);
        assert(is_lower_hex(hi) && is_lower_hex(lo));
        assert forall|i: int| 0 <= i < hex_text(b).len() implies is_lower_hex(#[trigger] hex_text(b)[i]) by {
            if i < prev.len() {
                assert(hex_text(b)[i] == prev[i]);
            } else if i == prev.len() {
                assert(hex_text(b)[i] == hi);
            } else {
                assert(hex_text(b)[i] == lo);
            }
        }
    }
}

/// Relies on `hex::encode`: two lowercase digits per byte, high digit first.
#[verifier::external_body]
fn hex_encode(b: &Vec<u8>) -> (r: String)
    ensures
        r@ == hex_text(b@),
{
    hex::encode(b)
}

/// The signature of `message` under `secret`: its HMAC-SHA256 tag in hex.
pub open spec fn signature_of(secret: Seq<char>, message: Seq<char>) -> Seq<char> {
    hex_text(hmac_sha256_of(secret, message))
}

/// The text that a request's signature covers.
pub open spec fn signing_message(timestamp: i64, method: Seq<char>, path: Seq<char>, body: Seq<char>) -> Seq<char> {
    int_text(timestamp as int) + method + path + body
}

/// Signs `message` with `secret`: HMAC-SHA256, hex-encoded.
pub fn sign(secret: &str, message: &str) -> (r: String)
    requires
        secret@.len() < 4 * MAX_SIGNED_LEN,
        message@.len() < 4 * MAX_SIGNED_LEN,
    ensures
        r@ == signature_of(secret@, message@),
        r@.len() == 64,
        forall|i: int| 0 <= i < r@.len() ==> is_lower_hex(#[trigger] r@[i]),
{
    let tag = hmac_sha256(secret, message);
    proof {
        lemma_hex_text_shape(tag@);
    }
    hex_encode(&tag)
}

pub open spec fn pow10(k: nat) -> nat
    decreases k,
{
    if k == 0 {
        1
    } else {
        10 * pow10((k - 1) as nat)
    }
}

proof fn lemma_nat_text_len(n: nat, k: nat)
    requires
        1 <= k,
        n < pow10(k),
    ensures
        nat_text(n).len() <= k,
    decreases k,
{
    if n >= 10 {
        if k == 1 {
            assert(pow10(1) == 10 * pow10(0));
        }
        let p = pow10((k - 1) as nat);
        assert(n / 10 < p) by (nonlinear_arith)
            requires
                n < 10 * p,
        ;
        lemma_nat_text_len(n / 10, (k - 1) as nat);
    }
}

proof fn lemma_int_text_len(n: i64)
    ensures
        int_text(n as int).len() <= 20,
{
    reveal_with_fuel(pow10, 20);
    assert(pow10(19) == 10000000000000000000nat);
    let m: nat = if n < 0 {
        (-(n as int)) as nat
    } else {
        n as nat
    };
    lemma_nat_text_len(m, 19);
}

/// Builds the text that a request's signature covers.
pub fn signing_text(timestamp: i64, method: &str, path: &str, body: &str) -> (r: String)
    ensures
        r@ == signing_message(timestamp, method@, path@, body@),
{
    let mut text = String::new();
    write_i64(timestamp, &mut text);
    text.append(method);
    text.append(path);
    text.append(body);
    assert(text@ =~= signing_message(timestamp, method@, path@, body@));
    text
}

/// One request header.
pub struct Header {
    pub name: String,
    pub value: String,
}

impl View for Header {
    type V = (Seq<char>, Seq<char>);

    open spec fn view(&self) -> (Seq<char>, Seq<char>) {
        (self.name@, self.value@)
    }
}

/// The headers of one request, in the order they are sent.
pub struct Headers {
    pub entries: Vec<Header>,
}

impl View for Headers {
    type V = Seq<(Seq<char>, Seq<char>)>;

    open spec fn view(&self) -> Seq<(Seq<char>, Seq<char>)> {
        self.entries@.map_values(|h: Header| h@)
    }
}

/// The authentication headers: key, timestamp and signature.
pub open spec fn auth_headers(
    api_key: Seq<char>,
    secret: Seq<char>,
    timestamp: i64,
    method: Seq<char>,
    path: Seq<char>,
    body: Seq<char>,
) -> Seq<(Seq<char>, Seq<char>)> {
    seq![
        ("API-KEY"@, api_key),
        ("API-TIMESTAMP"@, int_text(timestamp as int)),
        ("API-SIGN"@, signature_of(secret, signing_message(timestamp, method, path, body))),
    ]
}

/// The headers of a signed GET request made at `timestamp`.
pub open spec fn get_headers(api_key: Seq<char>, secret: Seq<char>, path: Seq<char>, timestamp: i64) -> Seq<
    (Seq<char>, Seq<char>),
> {
    auth_headers(api_key, secret, timestamp, "GET"@, path, Seq::empty())
}

/// The headers of a signed POST request with JSON `body` made at `timestamp`.
pub open spec fn post_headers(
    api_key: Seq<char>,
    secret: Seq<char>,
    path: Seq<char>,
    body: Seq<char>,
    timestamp: i64,
) -> Seq<(Seq<char>, Seq<char>)> {
    seq![("content-type"@, "application/json"@)] + auth_headers(
        api_key,
        secret,
        timestamp,
        "POST"@,
        path,
        body,
    )
}

fn header(name: &str, value: String) -> (r: Header)
    ensures
        r@ == (name@, value@),
{
    Header { name: name.to_owned(), value }
}

fn push_auth_headers(
    entries: &mut Vec<Header>,
    api_key: &str,
    secret: &str,
    timestamp: i64,
    method: &str,
    path: &str,
    body: &str,
)
    requires
        secret@.len() < MAX_SIGNED_LEN,
        method@.len() <= 4,
        path@.len() + body@.len() < MAX_SIGNED_LEN,
    ensures
        final(entries)@.map_values(|h: Header| h@) == old(entries)@.map_values(|h: Header| h@)
            + auth_headers(api_key@, secret@, timestamp, method@, path@, body@),
{
    let message = signing_text(timestamp, method, path, body);
    proof {
        lemma_int_text_len(timestamp);
    }
    let signature = sign(secret, message.as_str());
    let mut stamp = String::new();
    write_i64(timestamp, &mut stamp);
    assert(stamp@ =~= int_text(timestamp as int));
    entries.push(header("API-KEY", api_key.to_owned()));
    entries.push(header("API-TIMESTAMP", stamp));
    entries.push(header("API-SIGN", signature));
    assert(final(entries)@.map_values(|h: Header| h@) =~= old(entries)@.map_values(|h: Header| h@)
        + auth_headers(api_key@, secret@, timestamp, method@, path@, body@));
}

impl Headers {
    /// No headers, for public endpoints.
    pub fn create_empty_headers() -> (r: Headers)
        ensures
            r@ == Seq::<(Seq<char>, Seq<char>)>::empty(),
    {
        let r = Headers { entries: Vec::new() };
        assert(r@ =~= Seq::<(Seq<char>, Seq<char>)>::empty());
        r
    }

    /// The headers of a GET request signed at `timestamp` (Unix milliseconds).
    pub fn build_get_headers(api_key: &str, secret: &str, path: &str, timestamp: i64) -> (r: Headers)
        requires
            secret@.len() < MAX_SIGNED_LEN,
            path@.len() < MAX_SIGNED_LEN,
        ensures
            r@ == get_headers(api_key@, secret@, path@, timestamp),
    {
        proof {
            reveal_strlit("GET");
            reveal_strlit("");
        }
        let mut entries: Vec<Header> = Vec::new();
        push_auth_headers(&mut entries, api_key, secret, timestamp, "GET", path, "");
        assert(entries@.map_values(|h: Header| h@) =~= get_headers(
            api_key@,
            secret@,
            path@,
            timestamp,
        ));
        Headers { entries }
    }

    /// The headers of a POST request with JSON `body`, signed at `timestamp`
    /// (Unix milliseconds).
    pub fn build_post_headers(api_key: &str, secret: &str, path: &str, body: &str, timestamp: i64) -> (r:
        Headers)
        requires
            secret@.len() < MAX_SIGNED_LEN,
            path@.len() + body@.len() < MAX_SIGNED_LEN,
        ensures
            r@ == post_headers(api_key@, secret@, path@, body@, timestamp),
    {
        proof {
            reveal_strlit("POST");
        }
        let mut entries: Vec<Header> = Vec::new();
        entries.push(header("content-type", "application/json".to_owned()));
        push_auth_headers(&mut entries, api_key, secret, timestamp, "POST", path, body);
        assert(entries@.map_values(|h: Header| h@) =~= post_headers(
            api_key@,
            secret@,
            path@,
            body@,
            timestamp,
        ));
        Headers { entries }
    }

    /// The headers of a GET request signed now.
    pub fn create_get_headers(api_key: &str, secret: &str, path: &str) -> (r: Headers)
        requires
            secret@.len() < MAX_SIGNED_LEN,
            path@.len() < MAX_SIGNED_LEN,
        ensures
            exists|t: i64| r@ == get_headers(api_key@, secret@, path@, t),
    {
        let t = now_millis();
        Headers::build_get_headers(api_key, secret, path, t)
    }

    /// The headers of a POST request with JSON `body`, signed now.
    pub fn create_post_headers(api_key: &str, secret: &str, path: &str, body: &str) -> (r: Headers)
        requires
            secret@.len() < MAX_SIGNED_LEN,
            path@.len() + body@.len() < MAX_SIGNED_LEN,
        ensures
            exists|t: i64| r@ == post_headers(api_key@, secret@, path@, body@, t),
    {
        let t = now_millis();
        Headers::build_post_headers(api_key, secret, path, body, t)
    }
}

/// An API key and the signature of one request.
pub struct Secret {
    pub api_key: String,
    pub sign: String,
}

impl Secret {
    /// Signs `text` with `secret_key` and keeps the result beside `api_key`.
    pub fn create(api_key: &str, secret_key: &str, text: &str) -> (r: Secret)
        requires
            secret_key@.len() < 4 * MAX_SIGNED_LEN,
            text@.len() < 4 * MAX_SIGNED_LEN,
        ensures
            r.api_key@ == api_key@,
            r.sign@ == signature_of(secret_key@, text@),
            r.sign@.len() == 64,
            forall|i: int| 0 <= i < r.sign@.len() ==> is_lower_hex(#[trigger] r.sign@[i]),
    {
        Secret { api_key: api_key.to_owned(), sign: sign(secret_key, text) }
    }
}

/// Header sets are a function of their inputs: two header sets built from
/// the same key, secret, path, body and timestamp are equal, signature
/// included.
pub proof fn lemma_headers_deterministic(
    h1: Headers,
    h2: Headers,
    api_key: Seq<char>,
    secret: Seq<char>,
    path: Seq<char>,
    body: Seq<char>,
    timestamp: i64,
)
    requires
        h1@ == post_headers(api_key, secret, path, body, timestamp),
        h2@ == post_headers(api_key, secret, path, body, timestamp),
    ensures
        h1@ == h2@,
        h1@[3].1 == h2@[3].1,
        h1@[2].1 == int_text(timestamp as int),
{
}

/// The same for GET requests: equal inputs and timestamp give equal header
/// sets, with the timestamp header holding the timestamp's decimal text.
pub proof fn lemma_get_headers_deterministic(
    h1: Headers,
    h2: Headers,
    api_key: Seq<char>,
    secret: Seq<char>,
    path: Seq<char>,
    timestamp: i64,
)
    requires
        h1@ == get_headers(api_key, secret, path, timestamp),
        h2@ == get_headers(api_key, secret, path, timestamp),
    ensures
        h1@ == h2@,
        h1@[2].1 == h2@[2].1,
        h1@[1].1 == int_text(timestamp as int),
{
}

/// The signed text determines the body: at one timestamp, method and path,
/// two different bodies give two different signed texts, so a body changed
/// after signing no longer matches its signature.
pub proof fn lemma_signed_text_determines_body(
    timestamp: i64,
    method: Seq<char>,
    path: Seq<char>,
    body1: Seq<char>,
    body2: Seq<char>,
)
    requires
        body1 != body2,
    ensures
        signing_message(timestamp, method, path, body1) != signing_message(timestamp, method, path, body2),
{
    let prefix = int_text(timestamp as int) + method + path;
    assert(signing_message(timestamp, method, path, body1) == prefix + body1);
    assert(signing_message(timestamp, method, path, body2) == prefix + body2);
    if prefix + body1 == prefix + body2 {
        assert((prefix + body1).subrange(prefix.len() as int, (prefix + body1).len() as int) =~= body1);
        assert((prefix + body2).subrange(prefix.len() as int, (prefix + body2).len() as int) =~= body2);
    }
}

} // verus!
