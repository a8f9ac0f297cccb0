//! The requests of the three protocols: healthcheck pings, the address
//! service, and the DNS provider's REST interface.

use vstd::prelude::*;
use vstd::string::*;
use crate::model::{CycleError, CycleOutcome, Header, Method, Request, RequestModel, Settings};

verus! {

#[verifier::external_type_specification]
#[verifier::external_body]
pub struct ExJsonError(serde_json::Error);

/// The JSON text of a string: what `serde_json::to_string` returns for it.
pub uninterp spec fn json_string_text(s: Seq<char>) -> Seq<char>;

/// A character that JSON text holds as it is: none below the space, no
/// quote and no backslash.
pub open spec fn is_plain_char(c: char) -> bool {
    c >= ' ' && c != '"' && c != '\\'
}

pub open spec fn is_plain_text(s: Seq<char>) -> bool {
    forall|i: int| 0 <= i < s.len() ==> is_plain_char(#[trigger] s[i])
}

/// The text between two quotes.
pub open spec fn quoted_text(s: Seq<char>) -> Seq<char> {
    "\""@ + s + "\""@
}

/// `serde_json::to_string` on a string slice. For a string the encoder
/// writes a quote, the text with its escapes, and a quote into a vector of
/// bytes, which takes every write: the call succeeds. It escapes the
/// characters below the space, the quote and the backslash, and no other:
/// a text without them stands between the quotes as it is.
#[verifier::external_body]
fn json_string(s: &str) -> (r: Result<String, serde_json::Error>)
    ensures
        r is Ok,
        r matches Ok(t) ==> t@ == json_string_text(s@),
        r matches Ok(t) ==> (is_plain_text(s@) ==> t@ == quoted_text(s@)),
{
    serde_json::to_string(s)
}

#[verifier::external_type_specification]
#[verifier::external_body]
pub struct ExHeaderValue(reqwest::header::HeaderValue);

#[verifier::external_type_specification]
#[verifier::external_body]
pub struct ExInvalidHeaderValue(reqwest::header::InvalidHeaderValue);

/// A character that the value of a header may hold: a tab, or any character
/// from the space on but the delete character.
pub open spec fn is_header_char(c: char) -> bool {
    c == '\t' || (c >= ' ' && c != '\u{7f}')
}

pub open spec fn is_header_text(s: Seq<char>) -> bool {
    forall|i: int| 0 <= i < s.len() ==> is_header_char(#[trigger] s[i])
}

/// `reqwest::header::HeaderValue::from_str`. It accepts a text when each of
/// its bytes is a tab, or is 32 or more and not 127; in UTF-8 a byte below
/// 128 is a character of its own, so this is said here of the characters.
/// Nothing is claimed of what the value holds.
#[verifier::external_body]
fn header_value(value: &str) -> (r: Result<
    reqwest::header::HeaderValue,
    reqwest::header::InvalidHeaderValue,
>)
    ensures
        r is Ok <==> is_header_text(value@),
{
    reqwest::header::HeaderValue::from_str(value)
}

/// Tests whether both credentials can be sent as header values. Settings
/// whose credentials cannot are malformed.
pub fn credentials_usable(settings: &Settings) -> (ok: bool)
    ensures
        ok == (is_header_text(settings@.dns_cloudflare_api_key) && is_header_text(
            settings@.dns_cloudflare_email,
        )),
{
    let key_ok = match header_value(settings.dns_cloudflare_api_key.as_str()) {
        Ok(_) => true,
        Err(_) => false,
    };
    let email_ok = match header_value(settings.dns_cloudflare_email.as_str()) {
        Ok(_) => true,
        Err(_) => false,
    };
    key_ok && email_ok
}

pub open spec fn digit_text(d: int) -> Seq<char> {
    if d == 0 {
        "0"@
    } else if d == 1 {
        "1"@
    } else if d == 2 {
        "2"@
    } else if d == 3 {
        "3"@
    } else if d == 4 {
        "4"@
    } else if d == 5 {
        "5"@
    } else if d == 6 {
        "6"@
    } else if d == 7 {
        "7"@
    } else if d == 8 {
        "8"@
    } else {
        "9"@
    }
}

/// The decimal numeral of a natural number, without leading zeros.
pub open spec fn decimal_text(n: int) -> Seq<char>
    decreases n,
{
    if n < 10 {
        digit_text(n)
    } else {
        decimal_text(n / 10) + digit_text(n % 10)
    }
}

fn digit_str(d: u8) -> (s: &'static str)
    requires
        d < 10,
    ensures
        s@ == digit_text(d as int),
{
    if d == 0 {
        "0"
    } else if d == 1 {
        "1"
    } else if d == 2 {
        "2"
    } else if d == 3 {
        "3"
    } else if d == 4 {
        "4"
    } else if d == 5 {
        "5"
    } else if d == 6 {
        "6"
    } else if d == 7 {
        "7"
    } else if d == 8 {
        "8"
    } else {
        "9"
    }
}

/// Writes a status code as a decimal numeral.
pub fn decimal(n: u8) -> (s: String)
    ensures
        s@ == decimal_text(n as int),
{
    reveal_with_fuel(decimal_text, 3);
    if n < 10 {
        String::from_str(digit_str(n))
    } else if n < 100 {
        String::from_str(digit_str(n / 10)).concat(digit_str(n % 10))
    } else {
        String::from_str(digit_str(n / 100)).concat(digit_str((n / 10) % 10)).concat(
            digit_str(n % 10),
        )
    }
}

/// The status code under which a failure is reported: never zero.
pub open spec fn failure_code(e: CycleError) -> u8 {
    match e {
        CycleError::Network => 1,
        CycleError::Provider => 2,
        CycleError::Resolution => 3,
    }
}

pub fn failure_status(e: CycleError) -> (code: u8)
    ensures
        code == failure_code(e),
        code != 0,
{
    match e {
        CycleError::Network => 1,
        CycleError::Provider => 2,
        CycleError::Resolution => 3,
    }
}

/// What a ping's URL ends in: `/start`, or `/` and the status code.
pub open spec fn outcome_suffix(outcome: CycleOutcome) -> Seq<char> {
    match outcome {
        CycleOutcome::Started => "/start"@,
        CycleOutcome::Success(code) => "/"@ + decimal_text(code as int),
        CycleOutcome::Failure(e) => "/"@ + decimal_text(failure_code(e) as int),
    }
}

pub open spec fn ping_url_text(uuid: Seq<char>, outcome: CycleOutcome) -> Seq<char> {
    "https://hc-ping.com/"@ + uuid + outcome_suffix(outcome)
}

pub open spec fn address_url_text() -> Seq<char> {
    "https://api.ipify.org"@
}

pub open spec fn zones_url_text() -> Seq<char> {
    "https://api.cloudflare.com/client/v4/zones/"@
}

pub open spec fn records_url_text(zone_id: Seq<char>) -> Seq<char> {
    zones_url_text() + zone_id + "/dns_records"@
}

pub open spec fn record_url_text(zone_id: Seq<char>, record_id: Seq<char>) -> Seq<char> {
    records_url_text(zone_id) + "/"@ + record_id
}

/// The body of a patch, given the JSON text of the new content.
pub open spec fn patch_body_text(quoted: Seq<char>) -> Seq<char> {
    "{\"content\":"@ + quoted + "}"@
}

pub open spec fn ping_model(uuid: Seq<char>, outcome: CycleOutcome) -> RequestModel {
    RequestModel {
        method: Method::Get,
        url: ping_url_text(uuid, outcome),
        authenticated: false,
        body: None,
    }
}

pub open spec fn address_model() -> RequestModel {
    RequestModel { method: Method::Get, url: address_url_text(), authenticated: false, body: None }
}

pub open spec fn zones_model() -> RequestModel {
    RequestModel { method: Method::Get, url: zones_url_text(), authenticated: true, body: None }
}

pub open spec fn records_model(zone_id: Seq<char>) -> RequestModel {
    RequestModel {
        method: Method::Get,
        url: records_url_text(zone_id),
        authenticated: true,
        body: None,
    }
}

pub open spec fn patch_model(zone_id: Seq<char>, record_id: Seq<char>, body: Seq<char>) -> RequestModel {
    RequestModel {
        method: Method::Patch,
        url: record_url_text(zone_id, record_id),
        authenticated: true,
        body: Some(body),
    }
}

/// The healthcheck ping that reports `outcome`.
pub fn ping_request(settings: &Settings, outcome: CycleOutcome) -> (r: Request)
    ensures
        r@ == ping_model(settings@.healthcheck_uuid, outcome),
{
    let base = String::from_str("https://hc-ping.com/").concat(settings.healthcheck_uuid.as_str());
    let url = match outcome {
        CycleOutcome::Started => base.concat("/start"),
        CycleOutcome::Success(code) => {
            let digits = decimal(code);
            let slash = String::from_str("/").concat(digits.as_str());
            proof {
                assert(base@ + (("/"@) + digits@) =~= base@ + "/"@ + digits@);
            }
            base.concat(slash.as_str())
        },
        CycleOutcome::Failure(e) => {
            let digits = decimal(failure_status(e));
            let slash = String::from_str("/").concat(digits.as_str());
            base.concat(slash.as_str())
        },
    };
    Request { method: Method::Get, url, authenticated: false, body: None }
}

/// The request that asks the address service for the caller's public address.
pub fn address_request() -> (r: Request)
    ensures
        r@ == address_model(),
{
    Request {
        method: Method::Get,
        url: String::from_str("https://api.ipify.org"),
        authenticated: false,
        body: None,
    }
}

/// The request that lists the account's zones.
pub fn zones_request() -> (r: Request)
    ensures
        r@ == zones_model(),
{
    Request {
        method: Method::Get,
        url: String::from_str("https://api.cloudflare.com/client/v4/zones/"),
        authenticated: true,
        body: None,
    }
}

/// The request that lists the records of a zone.
pub fn records_request(zone_id: &str) -> (r: Request)
    ensures
        r@ == records_model(zone_id@),
{
    let url = String::from_str("https://api.cloudflare.com/client/v4/zones/").concat(
        zone_id,
    ).concat("/dns_records");
    Request { method: Method::Get, url, authenticated: true, body: None }
}

/// The request that replaces a record's content; `body` is sent as it is.
pub fn patch_request(zone_id: &str, record_id: &str, body: &str) -> (r: Request)
    ensures
        r@ == patch_model(zone_id@, record_id@, body@),
{
    let url = String::from_str("https://api.cloudflare.com/client/v4/zones/").concat(
        zone_id,
    ).concat("/dns_records").concat("/").concat(record_id);
    Request { method: Method::Patch, url, authenticated: true, body: Some(String::from_str(body)) }
}

/// Puts the JSON text of the new content into the object that a patch sends.
pub fn frame_patch_body(quoted: &str) -> (body: String)
    ensures
        body@ == patch_body_text(quoted@),
{
    String::from_str("{\"content\":").concat(quoted).concat("}")
}

/// The body of the patch that sets a record's content to `content`: the
/// object whose one member, `content`, is the JSON text of the new content.
/// Where the content needs no escape, that text is the content in quotes.
/// The body is always there; the result keeps the encoder's shape.
pub fn patch_body(content: &str) -> (r: Result<String, CycleError>)
    ensures
        r is Ok,
        r matches Ok(body) ==> body@ == patch_body_text(json_string_text(content@)),
        r matches Ok(body) ==> (is_plain_text(content@) ==> body@ == patch_body_text(
            quoted_text(content@),
        )),
{
    match json_string(content) {
        Ok(quoted) => Ok(frame_patch_body(quoted.as_str())),
        Err(_) => Err(CycleError::Resolution),
    }
}

/// The header that carries the API key.
pub fn key_header(settings: &Settings) -> (h: Header)
    ensures
        h.name@ == "X-Auth-Key"@,
        h.value@ == settings@.dns_cloudflare_api_key,
{
    Header {
        name: String::from_str("X-Auth-Key"),
        value: settings.dns_cloudflare_api_key.clone(),
    }
}

/// The header that carries the account's email address.
pub fn email_header(settings: &Settings) -> (h: Header)
    ensures
        h.name@ == "X-Auth-Email"@,
        h.value@ == settings@.dns_cloudflare_email,
{
    Header {
        name: String::from_str("X-Auth-Email"),
        value: settings.dns_cloudflare_email.clone(),
    }
}

} // verus!
