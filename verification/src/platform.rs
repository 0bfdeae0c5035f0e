//! Trusted boundary to the outside crates the library computes with:
//! URL parsing, identifier generation, the clock, and randomness.

use vstd::prelude::*;

verus! {

/// Whether `url::Url::parse` accepts the string.
pub uninterp spec fn url_parse_ok(s: Seq<char>) -> bool;

/// The scheme that `url::Url::scheme` reports for the parsed string.
pub uninterp spec fn url_scheme_of(s: Seq<char>) -> Seq<char>;

/// The host that `url::Url::host_str` reports for the parsed string.
pub uninterp spec fn url_host_of(s: Seq<char>) -> Option<Seq<char>>;

/// The explicit port that `url::Url::port` reports for the parsed string.
pub uninterp spec fn url_port_of(s: Seq<char>) -> Option<u16>;

/// Relies on url::Url::parse, and on Url::scheme, Url::host_str and Url::port
/// of the parsed value: each is a function of the input string alone.
#[verifier::external_body]
pub fn parse_server_url(s: &str) -> (r: Option<(String, Option<String>, Option<u16>)>)
    ensures
        r is Some <==> url_parse_ok(s@),
        match r {
            Some(parts) => {
                &&& parts.0@ == url_scheme_of(s@)
                &&& match (parts.1, url_host_of(s@)) {
                    (Some(h), Some(hs)) => h@ == hs,
                    (None, None) => true,
                    _ => false,
                }
                &&& parts.2 == url_port_of(s@)
            },
            None => true,
        },
{
    match url::Url::parse(s) {
        Ok(u) => Some((u.scheme().to_string(), u.host_str().map(|h| h.to_string()), u.port())),
        Err(_) => None,
    }
}

/// Relies on uuid::Uuid::new_v4 and its Display form: the hyphenated
/// lowercase encoding, 36 characters. The value itself is random.
#[verifier::external_body]
pub fn new_uuid_string() -> (r: String)
    ensures
        r@.len() == 36,
{
    uuid::Uuid::new_v4().to_string()
}

/// Relies on chrono::Utc::now and DateTime::timestamp_millis; the value
/// depends on the clock, so nothing is promised of it.
#[verifier::external_body]
pub fn now_millis() -> i64 {
    chrono::Utc::now().timestamp_millis()
}

/// Relies on rand::random; the value is random, so nothing is promised of it.
#[verifier::external_body]
pub fn random_u64() -> u64 {
    rand::random::<u64>()
}

} // verus!
