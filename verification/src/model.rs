//! The values that a reconciliation cycle works with, and their
//! mathematical models.

use vstd::prelude::*;

verus! {

/// Configuration of the process, loaded once and never changed.
#[derive(Clone, Debug, PartialEq, Eq)]
pub struct Settings {
    pub healthcheck_uuid: String,
    pub dns_cloudflare_email: String,
    pub dns_cloudflare_api_key: String,
}

pub struct SettingsModel {
    pub healthcheck_uuid: Seq<char>,
    pub dns_cloudflare_email: Seq<char>,
    pub dns_cloudflare_api_key: Seq<char>,
}

impl View for Settings {
    type V = SettingsModel;

    open spec fn view(&self) -> SettingsModel {
        SettingsModel {
            healthcheck_uuid: self.healthcheck_uuid@,
            dns_cloudflare_email: self.dns_cloudflare_email@,
            dns_cloudflare_api_key: self.dns_cloudflare_api_key@,
        }
    }
}

impl Settings {
    pub fn new(healthcheck_uuid: String, dns_cloudflare_email: String, dns_cloudflare_api_key: String) -> (s: Settings)
        ensures
            s@.healthcheck_uuid == healthcheck_uuid@,
            s@.dns_cloudflare_email == dns_cloudflare_email@,
            s@.dns_cloudflare_api_key == dns_cloudflare_api_key@,
    {
        Settings { healthcheck_uuid, dns_cloudflare_email, dns_cloudflare_api_key }
    }
}

/// A DNS-managed domain of the account.
#[derive(Clone, Debug, PartialEq, Eq)]
pub struct Zone {
    pub id: String,
    pub name: String,
}

pub struct ZoneModel {
    pub id: Seq<char>,
    pub name: Seq<char>,
}

impl View for Zone {
    type V = ZoneModel;

    open spec fn view(&self) -> ZoneModel {
        ZoneModel { id: self.id@, name: self.name@ }
    }
}

/// One resource record of a zone. `kind` is the record type ("A", "AAAA", ...),
/// `content` the address that the name resolves to at present.
#[derive(Clone, Debug, PartialEq, Eq)]
pub struct DnsRecord {
    pub id: String,
    pub kind: String,
    pub name: String,
    pub content: String,
}

pub struct RecordModel {
    pub id: Seq<char>,
    pub kind: Seq<char>,
    pub name: Seq<char>,
    pub content: Seq<char>,
}

impl View for DnsRecord {
    type V = RecordModel;

    open spec fn view(&self) -> RecordModel {
        RecordModel { id: self.id@, kind: self.kind@, name: self.name@, content: self.content@ }
    }
}

pub open spec fn zone_models(zones: Seq<Zone>) -> Seq<ZoneModel> {
    zones.map_values(|z: Zone| z@)
}

pub open spec fn record_models(records: Seq<DnsRecord>) -> Seq<RecordModel> {
    records.map_values(|r: DnsRecord| r@)
}

pub open spec fn texts(strings: Seq<String>) -> Seq<Seq<char>> {
    strings.map_values(|s: String| s@)
}

/// Why a cycle failed.
#[derive(Clone, Copy, Debug, PartialEq, Eq, Structural)]
pub enum CycleError {
    /// An HTTP call did not complete.
    Network,
    /// The DNS provider answered, but not with success.
    Provider,
    /// The address service answered with something that is no IPv4 address.
    Resolution,
}

/// What a cycle reports to the healthcheck service.
#[derive(Clone, Copy, Debug, PartialEq, Eq, Structural)]
pub enum CycleOutcome {
    Started,
    Success(u8),
    Failure(CycleError),
}

#[derive(Clone, Copy, Debug, PartialEq, Eq, Structural)]
pub enum Method {
    Get,
    Patch,
}

/// An HTTP request for the caller to perform. An authenticated request
/// carries the two credential headers of `endpoints::key_header` and
/// `endpoints::email_header`.
#[derive(Clone, Debug, PartialEq, Eq)]
pub struct Request {
    pub method: Method,
    pub url: String,
    pub authenticated: bool,
    pub body: Option<String>,
}

pub struct RequestModel {
    pub method: Method,
    pub url: Seq<char>,
    pub authenticated: bool,
    pub body: Option<Seq<char>>,
}

impl View for Request {
    type V = RequestModel;

    open spec fn view(&self) -> RequestModel {
        RequestModel {
            method: self.method,
            url: self.url@,
            authenticated: self.authenticated,
            body: match self.body {
                Some(b) => Some(b@),
                None => None,
            },
        }
    }
}

/// A header of an authenticated request.
#[derive(Clone, Debug, PartialEq, Eq)]
pub struct Header {
    pub name: String,
    pub value: String,
}

} // verus!
