//! The HTTP request that overwrites the DNS record.
//!
//! Everything the unverified shell needs to issue the update is gathered
//! here as plain text: the endpoint URL, the two headers, and the JSON
//! body. The shell sends the request exactly as built and does not inspect
//! or amend any part of it.

use vstd::prelude::*;
use vstd::string::StringExecFns;

use crate::config::Config;
use crate::payload::build_payload;
use crate::payload::payload_of;

verus! {

/// A ready-to-send record update: a PUT of `body` to `url` carrying the
/// two headers.
pub struct UpdateRequest {
    /// The provider endpoint addressing the zone and the record.
    pub url: String,
    /// The value of the `Authorization` header.
    pub authorization: String,
    /// The value of the `Content-Type` header.
    pub content_type: String,
    /// The serialized JSON payload.
    pub body: String,
}

/// The GET that learns the caller's address: a fixed public IP-echo
/// endpoint, asked under a fixed client identity. The service varies its
/// answer by the declared client, and this identity is known to draw a
/// bare, plain-text address.
pub struct EchoRequest {
    /// The IP-echo endpoint.
    pub url: String,
    /// The value of the `User-Agent` header.
    pub user_agent: String,
}

/// The request the resolver issues, always the same one.
pub fn echo_request() -> (r: EchoRequest)
    ensures
        r.url@ == "https://ip.se/"@,
        r.user_agent@ == "curl/8.7.1"@,
{
    EchoRequest {
        url: String::from_str("https://ip.se/"),
        user_agent: String::from_str("curl/8.7.1"),
    }
}

/// The endpoint that addresses `record` inside `zone` at the provider API.
pub open spec fn url_of(zone: Seq<char>, record: Seq<char>) -> Seq<char> {
    "https://api.cloudflare.com/client/v4/zones/"@ + zone + "/dns_records/"@ + record
}

/// The `Authorization` header value carrying `token`.
pub open spec fn auth_of(token: Seq<char>) -> Seq<char> {
    "Bearer "@ + token
}

/// What a built update holds for a configuration with the given values and
/// a resolved `address`: the exact URL, headers and body.
pub open spec fn request_matches(
    req: UpdateRequest,
    token: Seq<char>,
    zone: Seq<char>,
    record: Seq<char>,
    domain: Seq<char>,
    address: Seq<char>,
) -> bool {
    &&& req.url@ == url_of(zone, record)
    &&& req.authorization@ == auth_of(token)
    &&& req.content_type@ == "application/json"@
    &&& req.body@ == payload_of(domain, address)
}

/// The endpoint URL for `zone` and `record`.
pub fn record_url(zone: &str, record: &str) -> (r: String)
    ensures
        r@ == url_of(zone@, record@),
{
    let mut out = String::from_str("https://api.cloudflare.com/client/v4/zones/");
    out.append(zone);
    out.append("/dns_records/");
    out.append(record);
    out
}

/// The `Authorization` header value for `token`: the bearer scheme in
/// front of the token itself, untouched.
pub fn bearer_token(token: &str) -> (r: String)
    ensures
        r@ == auth_of(token@),
{
    let mut out = String::from_str("Bearer ");
    out.append(token);
    out
}

/// Builds the update that writes `address` into the configured record.
pub fn build_update(config: &Config, address: &str) -> (r: UpdateRequest)
    ensures
        request_matches(
            r,
            config.token@,
            config.zone_id@,
            config.record_id@,
            config.domain@,
            address@,
        ),
{
    UpdateRequest {
        url: record_url(config.zone_id.as_str(), config.record_id.as_str()),
        authorization: bearer_token(config.token.as_str()),
        content_type: String::from_str("application/json"),
        body: build_payload(config.domain.as_str(), address),
    }
}

/// The authorization header is the token behind the fixed scheme prefix:
/// nothing of the token is trimmed or transformed.
pub proof fn lemma_auth_preserves_token(token: Seq<char>)
    ensures
        auth_of(token).len() == 7 + token.len(),
        auth_of(token).skip(7) =~= token,
        auth_of(token).take(7) =~= "Bearer "@,
{
    reveal_strlit("Bearer ");
}

} // verus!
