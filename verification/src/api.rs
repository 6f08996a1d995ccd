//! The Immich API client: construction from a server URL and API key, URL
//! building, and the mapping of HTTP status codes to `ApiError`.

use vstd::prelude::*;
use vstd::string::*;
use vstd::utf8::*;

use reqwest::header::{HeaderMap, HeaderValue, InvalidHeaderValue};

use crate::text::{decimal, decimal_string, law_trim_trailing_leaves_no_trailing, trim_trailing, trim_trailing_char};

verus! {

#[verifier::external_type_specification]
#[verifier::external_body]
pub struct ExReqwestClient(reqwest::Client);

#[verifier::external_type_specification]
#[verifier::external_body]
pub struct ExReqwestClientBuilder(reqwest::ClientBuilder);

#[verifier::external_type_specification]
#[verifier::external_body]
pub struct ExReqwestError(reqwest::Error);

#[verifier::external_type_specification]
#[verifier::external_body]
pub struct ExHeaderValue(HeaderValue);

#[verifier::external_type_specification]
#[verifier::external_body]
pub struct ExInvalidHeaderValue(InvalidHeaderValue);

#[verifier::external_type_specification]
#[verifier::external_body]
#[verifier::reject_recursive_types(T)]
pub struct ExHeaderMap<T>(HeaderMap<T>);

/// A byte that `HeaderValue::from_str` accepts: anything from space upwards
/// except DEL, and the horizontal tab.
pub open spec fn header_value_byte_ok(b: u8) -> bool {
    (b >= 32 && b != 127) || b == 9
}

/// Whether every byte of the UTF-8 encoding of `s` is accepted in a header value.
pub open spec fn header_value_text_ok(s: Seq<char>) -> bool {
    forall|i: int| 0 <= i < encode_utf8(s).len() ==> header_value_byte_ok(#[trigger] encode_utf8(s)[i])
}

/// A header name that `HeaderName::from_static` accepts without panicking:
/// non-empty, short, and made of lower-case letters, digits and `-`.
pub open spec fn static_header_name_ok(s: Seq<char>) -> bool {
    &&& 0 < s.len() <= 64
    &&& forall|i: int|
        0 <= i < s.len() ==> {
            let c = #[trigger] s[i] as u32;
            (97 <= c <= 122) || (48 <= c <= 57) || c == 45
        }
}

/// What a `HeaderMap` holds: each header name (lower-case text) with the
/// bytes of its value; a name given several values maps to the last one.
pub uninterp spec fn header_entries(m: HeaderMap) -> Map<Seq<char>, Seq<u8>>;

/// The bytes that a `HeaderValue` holds.
pub uninterp spec fn header_value_bytes(v: HeaderValue) -> Seq<u8>;

/// The default headers that a `ClientBuilder` holds, as `header_entries`.
pub uninterp spec fn builder_default_header_entries(b: reqwest::ClientBuilder) -> Map<Seq<char>, Seq<u8>>;

/// The default headers that a built `Client` adds to every request, as
/// `header_entries`.
pub uninterp spec fn client_default_header_entries(c: reqwest::Client) -> Map<Seq<char>, Seq<u8>>;

/// The text that `StatusCode`'s `Display` writes for the status `code`.
pub uninterp spec fn status_code_display(code: u16) -> Seq<char>;

/// `HeaderValue::from_str`: succeeds exactly when every byte of the text is
/// accepted by the crate's byte check (`b >= 32 && b != 127 || b == b'\t'`),
/// and the value then holds a copy of the text's bytes.
#[verifier::external_body]
fn header_value_from_str(s: &str) -> (r: Result<HeaderValue, InvalidHeaderValue>)
    ensures
        r is Ok <==> header_value_text_ok(s@),
        r matches Ok(v) ==> header_value_bytes(v) == encode_utf8(s@),
{
    HeaderValue::from_str(s)
}

/// `InvalidHeaderValue`'s `Display`, which writes a fixed sentence.
#[verifier::external_body]
fn invalid_header_value_text(e: &InvalidHeaderValue) -> (r: String)
    ensures
        r@ == "failed to parse header value"@,
{
    e.to_string()
}

/// `HeaderMap::new`: an empty map.
#[verifier::external_body]
fn new_header_map() -> (m: HeaderMap)
    ensures
        header_entries(m).dom() == Set::<Seq<char>>::empty(),
{
    HeaderMap::new()
}

/// `HeaderMap::insert` with a static name: the name maps to the value
/// afterwards (its earlier values are removed) and no other name changes.
/// It panics only on a name that
/// `HeaderName::from_static` rejects or on a map at its size limit, which the
/// `requires` leaves out.
#[verifier::external_body]
fn insert_header(m: &mut HeaderMap, name: &'static str, value: HeaderValue)
    requires
        static_header_name_ok(name@),
        header_entries(*old(m)).dom().finite(),
        header_entries(*old(m)).dom().len() < 1024,
    ensures
        header_entries(*final(m)) == header_entries(*old(m)).insert(name@, header_value_bytes(value)),
{
    m.insert(name, value);
}

/// `Client`'s `Clone`: a handle to the same connection pool. The client is
/// opaque, so nothing is stated of the copy.
pub assume_specification[ <reqwest::Client as Clone>::clone ](c: &reqwest::Client) -> reqwest::Client;

/// `reqwest::Client::builder`: a builder with default settings, whose only
/// default header is `accept: */*`.
#[verifier::external_body]
fn client_builder() -> (b: reqwest::ClientBuilder)
    ensures
        builder_default_header_entries(b) == map!["accept"@ => seq![42u8, 47u8, 42u8]],
{
    reqwest::Client::builder()
}

/// `ClientBuilder::default_headers`: every header of `headers` is inserted
/// into the builder's default headers, replacing a default of the same name.
/// Each insert panics only at the map's size limit, which the `requires`
/// leaves out.
#[verifier::external_body]
fn builder_default_headers(b: reqwest::ClientBuilder, headers: HeaderMap) -> (r: reqwest::ClientBuilder)
    requires
        builder_default_header_entries(b).dom().finite(),
        header_entries(headers).dom().finite(),
        builder_default_header_entries(b).dom().len() + header_entries(headers).dom().len() < 1024,
    ensures
        builder_default_header_entries(r) == builder_default_header_entries(b).union_prefer_right(
            header_entries(headers),
        ),
{
    b.default_headers(headers)
}

/// `ClientBuilder::build`: fails when a TLS backend or the system resolver
/// configuration cannot be loaded, which depends on the machine; nothing is
/// stated of which outcome comes. A built client keeps the builder's default
/// headers and adds them to every request.
#[verifier::external_body]
fn build_client(b: reqwest::ClientBuilder) -> (r: Result<reqwest::Client, reqwest::Error>)
    ensures
        r matches Ok(c) ==> client_default_header_entries(c) == builder_default_header_entries(b),
{
    b.build()
}

/// `StatusCode::from_u16` followed by `StatusCode`'s `Display` (the code and
/// its canonical reason). The code range of `from_u16` is required.
#[verifier::external_body]
fn status_code_text(code: u16) -> (r: String)
    requires
        100 <= code <= 999,
    ensures
        r@ == status_code_display(code),
{
    match reqwest::StatusCode::from_u16(code) {
        Ok(s) => s.to_string(),
        Err(_) => String::new(),
    }
}

/// All errors that can arise from Immich API calls.
#[derive(Debug)]
pub enum ApiError {
    /// 401 Unauthorized: bad or missing API key.
    Auth(String),
    /// 404 Not Found.
    NotFound(String),
    /// 5xx Server Error.
    ServerError(String),
    /// Network-level failure (DNS, timeout, TLS, etc.).
    Network(reqwest::Error),
    /// 429 Too Many Requests.
    RateLimit,
    /// 400 Bad Request.
    BadRequest(String),
    /// Any other unexpected status or response.
    Unexpected(String),
}

/// The message of the error for an API key that cannot be a header value.
pub open spec fn invalid_key_message() -> Seq<char> {
    "invalid API key characters: "@ + "failed to parse header value"@
}

/// The body text used in an error: the body, or a placeholder when it
/// could not be read.
pub open spec fn body_text(body: Option<Seq<char>>) -> Seq<char> {
    match body {
        Some(b) => b,
        None => "<unreadable body>"@,
    }
}

/// Whether `status` is a server error (5xx).
pub open spec fn is_server_status(status: u16) -> bool {
    500 <= status <= 599
}

/// `e` is the error that a response with `status` and `body` maps to, where
/// `status_text` is how the status is written in a server error's message.
pub open spec fn status_error_is(status: u16, status_text: Seq<char>, body: Seq<char>, e: ApiError) -> bool {
    match e {
        ApiError::BadRequest(m) => status == 400 && m@ == body,
        ApiError::Auth(m) => status == 401 && m@ == body,
        ApiError::NotFound(m) => status == 404 && m@ == body,
        ApiError::RateLimit => status == 429,
        ApiError::ServerError(m) => is_server_status(status) && m@ == "HTTP "@ + status_text + ": "@
            + body,
        ApiError::Unexpected(m) => {
            &&& status != 400 && status != 401 && status != 404 && status != 429
            &&& !is_server_status(status)
            &&& m@ == "HTTP "@ + decimal(status as nat) + ": "@ + body
        },
        ApiError::Network(_) => false,
    }
}

/// A client's base URL never ends with `/`, so `url` joins it to a path that
/// begins with `/` without doubling the slash.
pub proof fn law_base_url_has_no_trailing_slash(base_url: Seq<char>, path: Seq<char>)
    requires
        path.len() > 0 && path[0] == '/',
    ensures
        ({
            let b = trim_trailing(base_url, '/');
            let u = b + path;
            &&& b.len() == 0 || b.last() != '/'
            &&& u.len() == b.len() + path.len()
            &&& u[b.len() as int] == '/'
            &&& b.len() > 0 ==> u[b.len() - 1] != '/'
        }),
{
    law_trim_trailing_leaves_no_trailing(base_url, '/');
}

/// The error a status maps to depends on the status alone: two errors that
/// both fit a status, its text and a body are the same variant with the same
/// message.
pub proof fn law_status_error_is_unique(status: u16, status_text: Seq<char>, body: Seq<char>, e1: ApiError, e2: ApiError)
    requires
        status_error_is(status, status_text, body, e1),
        status_error_is(status, status_text, body, e2),
    ensures
        match (e1, e2) {
            (ApiError::BadRequest(a), ApiError::BadRequest(b)) => a@ == b@,
            (ApiError::Auth(a), ApiError::Auth(b)) => a@ == b@,
            (ApiError::NotFound(a), ApiError::NotFound(b)) => a@ == b@,
            (ApiError::RateLimit, ApiError::RateLimit) => true,
            (ApiError::ServerError(a), ApiError::ServerError(b)) => a@ == b@,
            (ApiError::Unexpected(a), ApiError::Unexpected(b)) => a@ == b@,
            _ => false,
        },
{
}

/// The variant of a response's error is decided by the status alone:
/// `BadRequest` for 400, `Auth` for 401, `NotFound` for 404, `RateLimit` for
/// 429, `ServerError` for every 5xx, and `Unexpected` for every other status;
/// a `Network` error never comes from a status.
pub proof fn law_status_decides_variant(status: u16, status_text: Seq<char>, body: Seq<char>, e: ApiError)
    requires
        status_error_is(status, status_text, body, e),
    ensures
        (e is BadRequest) <==> status == 400,
        (e is Auth) <==> status == 401,
        (e is NotFound) <==> status == 404,
        (e is RateLimit) <==> status == 429,
        (e is ServerError) <==> (500 <= status && status <= 599),
        (e is Unexpected) <==> (status != 400 && status != 401 && status != 404 && status != 429 && !(
        500 <= status && status <= 599)),
        !(e is Network),
{
}

/// Builds `a + b + c + d` from string slices.
fn join4(a: &str, b: &str, c: &str, d: &str) -> (r: String)
    ensures
        r@ == a@ + b@ + c@ + d@,
{
    let mut r = String::from_str(a);
    r.append(b);
    r.append(c);
    r.append(d);
    r
}

/// The default headers of a client made for `api_key`: the builder's
/// `accept: */*` and `x-api-key` with the key's bytes.
pub open spec fn api_client_headers(api_key: Seq<char>) -> Map<Seq<char>, Seq<u8>> {
    map!["accept"@ => seq![42u8, 47u8, 42u8]].insert("x-api-key"@, encode_utf8(api_key))
}

/// Shared HTTP client that carries the base URL and API key for every request.
#[derive(Clone, Debug)]
pub struct ImmichClient {
    pub client: reqwest::Client,
    pub base_url: String,
    pub api_key: String,
    /// Bandwidth limit in bytes/sec. 0 means unlimited.
    pub bandwidth_limit_bps: u64,
}

impl ImmichClient {
    /// Create a new client without a bandwidth limit.
    ///
    /// `base_url` should be the server root, e.g. `"https://photos.example.com"`;
    /// trailing slashes are removed. The `x-api-key` header is set as a default
    /// so every request inherits it.
    pub fn new(base_url: &str, api_key: &str) -> (r: Result<ImmichClient, ApiError>)
        ensures
            match r {
                Ok(c) => {
                    &&& header_value_text_ok(api_key@)
                    &&& c.base_url@ == trim_trailing(base_url@, '/')
                    &&& c.api_key@ == api_key@
                    &&& c.bandwidth_limit_bps == 0
                    &&& client_default_header_entries(c.client) == api_client_headers(api_key@)
                },
                Err(ApiError::Unexpected(m)) => !header_value_text_ok(api_key@) && m@
                    == invalid_key_message(),
                Err(ApiError::Network(_)) => header_value_text_ok(api_key@),
                Err(_) => false,
            },
    {
        Self::with_bandwidth_limit(base_url, api_key, 0)
    }

    /// Create a new client with a bandwidth limit in KB/s (0 = unlimited).
    ///
    /// Fails with `Unexpected` when the API key cannot be sent as a header
    /// value, and with `Network` when the HTTP client cannot be built.
    pub fn with_bandwidth_limit(base_url: &str, api_key: &str, bandwidth_limit_kbps: u64) -> (r:
        Result<ImmichClient, ApiError>)
        requires
            header_value_text_ok(api_key@) ==> bandwidth_limit_kbps * 1024 <= u64::MAX,
        ensures
            match r {
                Ok(c) => {
                    &&& header_value_text_ok(api_key@)
                    &&& c.base_url@ == trim_trailing(base_url@, '/')
                    &&& c.api_key@ == api_key@
                    &&& c.bandwidth_limit_bps == bandwidth_limit_kbps * 1024
                    &&& client_default_header_entries(c.client) == api_client_headers(api_key@)
                },
                Err(ApiError::Unexpected(m)) => !header_value_text_ok(api_key@) && m@
                    == invalid_key_message(),
                Err(ApiError::Network(_)) => header_value_text_ok(api_key@),
                Err(_) => false,
            },
    {
        let api_key = String::from_str(api_key);
        let base_url = trim_trailing_char(base_url, '/');

        let mut default_headers = new_header_map();
        let key_value = match header_value_from_str(api_key.as_str()) {
            Ok(v) => v,
            Err(e) => {
                let mut msg = String::from_str("invalid API key characters: ");
                let detail = invalid_header_value_text(&e);
                msg.append(detail.as_str());
                return Err(ApiError::Unexpected(msg));
            },
        };
        proof {
            reveal_strlit("x-api-key");
        }
        insert_header(&mut default_headers, "x-api-key", key_value);
        let base = client_builder();
        proof {
            let b = builder_default_header_entries(base);
            let h = header_entries(default_headers);
            assert(b.dom() =~= set!["accept"@]);
            assert(h.dom() =~= set!["x-api-key"@]);
            assert(b.union_prefer_right(h) =~= api_client_headers(api_key@));
        }
        let builder = builder_default_headers(base, default_headers);
        let client = match build_client(builder) {
            Ok(c) => c,
            Err(e) => return Err(ApiError::Network(e)),
        };

        Ok(ImmichClient { client, base_url, api_key, bandwidth_limit_bps: bandwidth_limit_kbps * 1024 })
    }

    /// Construct a full URL from a path fragment such as `"/api/server/ping"`.
    pub fn url(&self, path: &str) -> (r: String)
        ensures
            r@ == self.base_url@ + path@,
    {
        let mut r = self.base_url.clone();
        r.append(path);
        r
    }

    /// Map a status code and the response body (when it was readable) to the
    /// `ApiError` variant for that status.
    pub fn map_status_error(status: u16, body: Option<String>) -> (e: ApiError)
        ensures
            status_error_is(
                status,
                status_code_display(status),
                body_text(
                    match body {
                        Some(b) => Some(b@),
                        None => None,
                    },
                ),
                e,
            ),
    {
        let body = match body {
            Some(b) => b,
            None => String::from_str("<unreadable body>"),
        };
        if 500 <= status && status <= 599 {
            let text = status_code_text(status);
            status_error(status, text.as_str(), body.as_str())
        } else {
            status_error(status, "", body.as_str())
        }
    }
}

/// The error for a response with `status` and `body`; `status_text` is how
/// the status is written in the message of a server error (5xx).
pub fn status_error(status: u16, status_text: &str, body: &str) -> (e: ApiError)
    ensures
        status_error_is(status, status_text@, body@, e),
{
    if status == 400 {
        ApiError::BadRequest(String::from_str(body))
    } else if status == 401 {
        ApiError::Auth(String::from_str(body))
    } else if status == 404 {
        ApiError::NotFound(String::from_str(body))
    } else if status == 429 {
        ApiError::RateLimit
    } else if 500 <= status && status <= 599 {
        ApiError::ServerError(join4("HTTP ", status_text, ": ", body))
    } else {
        let code = decimal_string(status);
        ApiError::Unexpected(join4("HTTP ", code.as_str(), ": ", body))
    }
}

} // verus!
