//! The computing half of the REST transport: URL building, the signed
//! header set, and the mapping from HTTP status to result or error. The
//! sending itself is left to the caller of these functions.

use vstd::prelude::*;

use crate::clock::now_ms;
use crate::errors::ApiError;
use crate::signer::hex_of;
use crate::signer::hmac_sha256;
use crate::signer::rest_signing_string;
use crate::signer::rest_signing_string_spec;
use crate::signer::sign;

verus! {

/// The full URL of a request: the fixed API origin, the path, and — only
/// when non-empty — a `?`-prefixed query string.
pub open spec fn url_spec(endpoint: Seq<char>, request: Seq<char>) -> Seq<char> {
    if request.len() == 0 {
        "https://ftx.com/api"@.add(endpoint)
    } else {
        "https://ftx.com/api"@.add(endpoint).add("?"@).add(request)
    }
}

/// Builds the full URL for a request.
pub fn build_url(endpoint: &str, request: &str) -> (r: String)
    ensures
        r@ == url_spec(endpoint@, request@),
{
    let mut url = "https://ftx.com/api".to_owned();
    url.append(endpoint);
    if !request.is_empty() {
        url.append("?");
        url.append(request);
    }
    proof {
        assert(url@ =~= url_spec(endpoint@, request@));
    }
    url
}

/// The headers attached to a signed request, as plain values: the constant
/// user agent and content type, the api key, the hex signature, the
/// millisecond timestamp the signature embeds, and the optional
/// sub-account scope.
pub struct SignedHeaders {
    pub user_agent: String,
    pub api_key: String,
    pub signature: String,
    pub timestamp: i64,
    pub content_type: String,
    pub subaccount: Option<String>,
}

/// The signature field of a well-formed header set: the hex HMAC-SHA256
/// tag of the request's signing string under the secret key, at the same
/// timestamp the header set carries.
pub open spec fn headers_signature_ok(
    h: SignedHeaders,
    secret_key: Seq<char>,
    method: Seq<char>,
    endpoint: Seq<char>,
    payload: Seq<char>,
) -> bool {
    h.signature@ == hex_of(
        hmac_sha256(
            secret_key,
            rest_signing_string_spec(h.timestamp as int, method, endpoint, payload),
        ),
    )
}

/// The REST client's credentials. Empty strings stand for public-only
/// access.
#[derive(Clone)]
pub struct Client {
    api_key: String,
    secret_key: String,
}

impl Client {
    pub closed spec fn spec_api_key(&self) -> Seq<char> {
        self.api_key@
    }

    pub closed spec fn spec_secret_key(&self) -> Seq<char> {
        self.secret_key@
    }

    /// A client with the given credentials; absent keys become empty.
    pub fn new(api_key: Option<String>, secret_key: Option<String>) -> (r: Client)
        ensures
            r.spec_api_key() == match api_key {
                Some(k) => k@,
                None => Seq::<char>::empty(),
            },
            r.spec_secret_key() == match secret_key {
                Some(k) => k@,
                None => Seq::<char>::empty(),
            },
    {
        let key = match api_key {
            Some(k) => k,
            None => String::new(),
        };
        let secret = match secret_key {
            Some(k) => k,
            None => String::new(),
        };
        Client { api_key: key, secret_key: secret }
    }

    /// Builds the signed header set for a request at timestamp `ts`.
    pub fn build_headers_at(
        &self,
        method: &str,
        endpoint: &str,
        payload: &str,
        subaccount: Option<String>,
        ts: i64,
    ) -> (h: SignedHeaders)
        ensures
            h.user_agent@ == "ftx-rs"@,
            h.api_key@ == self.spec_api_key(),
            h.timestamp == ts,
            h.content_type@ == "application/json"@,
            headers_signature_ok(h, self.spec_secret_key(), method@, endpoint@, payload@),
            h.subaccount == subaccount,
    {
        let signing = rest_signing_string(ts, method, endpoint, payload);
        let signature = sign(self.secret_key.as_str(), signing.as_str());
        SignedHeaders {
            user_agent: "ftx-rs".to_owned(),
            api_key: self.api_key.clone(),
            signature,
            timestamp: ts,
            content_type: "application/json".to_owned(),
            subaccount,
        }
    }

    /// Builds the signed header set for a request signed at the current
    /// time. Whatever the clock returned, the signature is the tag of the
    /// signing string at the carried timestamp.
    pub fn build_headers(
        &self,
        method: &str,
        endpoint: &str,
        payload: &str,
        subaccount: Option<String>,
    ) -> (h: SignedHeaders)
        ensures
            h.user_agent@ == "ftx-rs"@,
            h.api_key@ == self.spec_api_key(),
            h.content_type@ == "application/json"@,
            headers_signature_ok(h, self.spec_secret_key(), method@, endpoint@, payload@),
            h.subaccount == subaccount,
    {
        let ts = now_ms();
        self.build_headers_at(method, endpoint, payload, subaccount, ts)
    }

    /// Maps an HTTP response to the transport's result: 200 passes the
    /// body through untouched; the distinguished statuses map to their
    /// errors, a bad request carrying the response detail; every other
    /// status maps to the generic error carrying it.
    pub fn handler(&self, status: u16, body: String) -> (r: Result<String, ApiError>)
        ensures
            status == 200 ==> (r matches Ok(b) && b@ == body@),
            status == 500 ==> r == Result::<String, ApiError>::Err(ApiError::InternalServerError),
            status == 503 ==> r == Result::<String, ApiError>::Err(ApiError::ServiceUnavailable),
            status == 401 ==> r == Result::<String, ApiError>::Err(ApiError::Unauthorized),
            status == 400 ==> (r matches Err(e) && e matches ApiError::BadRequest(detail)
                && detail@ == body@),
            status != 200 && status != 500 && status != 503 && status != 401 && status != 400
                ==> r == Result::<String, ApiError>::Err(ApiError::UnexpectedStatus(status)),
    {
        match status {
            200 => Ok(body),
            500 => Err(ApiError::InternalServerError),
            503 => Err(ApiError::ServiceUnavailable),
            401 => Err(ApiError::Unauthorized),
            400 => Err(ApiError::BadRequest(body)),
            s => Err(ApiError::UnexpectedStatus(s)),
        }
    }
}

} // verus!
