//! From what a request brought back to the reply that the cycle takes.
//! A request that did not complete has no status: that is a failure of the
//! network. A status outside 200..=299 is a failure too: of the network for
//! the address service, of the provider for the DNS provider. A body of the
//! address service that could not be read is a failure of the network; a
//! provider's body that held no envelope is a failure of the provider. A
//! ping never fails the cycle.

use vstd::prelude::*;
use crate::cycle::{option_text, Reply, ReplyModel};
use crate::model::{record_models, zone_models, CycleError, DnsRecord, RecordModel, Zone, ZoneModel};

verus! {

pub open spec fn is_success_status(status: u16) -> bool {
    200 <= status <= 299
}

pub fn status_ok(status: u16) -> (ok: bool)
    ensures
        ok == is_success_status(status),
{
    200 <= status && status <= 299
}

/// The request completed and its status is a success.
pub open spec fn arrived(status: Option<u16>) -> bool {
    status matches Some(code) && is_success_status(code)
}

pub open spec fn address_reply_model(status: Option<u16>, body: Option<Seq<char>>) -> ReplyModel {
    match body {
        Some(text) => if arrived(status) {
            ReplyModel::Address(text)
        } else {
            ReplyModel::Failed(CycleError::Network)
        },
        None => ReplyModel::Failed(CycleError::Network),
    }
}

pub open spec fn zones_reply_model(
    status: Option<u16>,
    envelope: Option<(bool, Seq<ZoneModel>)>,
) -> ReplyModel {
    if status is None {
        ReplyModel::Failed(CycleError::Network)
    } else {
        match envelope {
            Some((success, zones)) => if arrived(status) {
                ReplyModel::Zones { success, zones }
            } else {
                ReplyModel::Failed(CycleError::Provider)
            },
            None => ReplyModel::Failed(CycleError::Provider),
        }
    }
}

pub open spec fn records_reply_model(
    status: Option<u16>,
    envelope: Option<(bool, Seq<RecordModel>)>,
) -> ReplyModel {
    if status is None {
        ReplyModel::Failed(CycleError::Network)
    } else {
        match envelope {
            Some((success, records)) => if arrived(status) {
                ReplyModel::Records { success, records }
            } else {
                ReplyModel::Failed(CycleError::Provider)
            },
            None => ReplyModel::Failed(CycleError::Provider),
        }
    }
}

pub open spec fn patch_reply_model(status: Option<u16>) -> ReplyModel {
    match status {
        Some(code) => if is_success_status(code) {
            ReplyModel::Patched
        } else {
            ReplyModel::Failed(CycleError::Provider)
        },
        None => ReplyModel::Failed(CycleError::Network),
    }
}

pub open spec fn zone_envelope_model(envelope: Option<(bool, Vec<Zone>)>) -> Option<
    (bool, Seq<ZoneModel>),
> {
    match envelope {
        Some((success, zones)) => Some((success, zone_models(zones@))),
        None => None,
    }
}

pub open spec fn record_envelope_model(envelope: Option<(bool, Vec<DnsRecord>)>) -> Option<
    (bool, Seq<RecordModel>),
> {
    match envelope {
        Some((success, records)) => Some((success, record_models(records@))),
        None => None,
    }
}

/// Tests whether a request completed with a status that is a success. A
/// ping that did not arrive is worth a line in the log, and no more.
pub fn ping_arrived(status: Option<u16>) -> (ok: bool)
    ensures
        ok == arrived(status),
{
    match status {
        Some(code) => status_ok(code),
        None => false,
    }
}

/// The reply to a healthcheck ping: the same whether or not it arrived.
pub fn ping_reply(status: Option<u16>) -> (reply: Reply)
    ensures
        reply@ == ReplyModel::Ping,
{
    Reply::Ping
}

/// The reply of the address service, from its status and its body; no
/// status where the request did not complete, no body where it could not
/// be read.
pub fn address_reply(status: Option<u16>, body: Option<String>) -> (reply: Reply)
    ensures
        reply@ == address_reply_model(status, option_text(body)),
{
    match body {
        Some(text) => {
            if ping_arrived(status) {
                Reply::Address(text)
            } else {
                Reply::Failed(CycleError::Network)
            }
        },
        None => Reply::Failed(CycleError::Network),
    }
}

/// The reply to a zone listing, from its status and the envelope's
/// `success` and `result`; no status where the request did not complete,
/// no envelope where the body held none.
pub fn zones_reply(status: Option<u16>, envelope: Option<(bool, Vec<Zone>)>) -> (reply: Reply)
    ensures
        reply@ == zones_reply_model(status, zone_envelope_model(envelope)),
{
    if status.is_none() {
        return Reply::Failed(CycleError::Network);
    }
    match envelope {
        Some((success, zones)) => {
            if ping_arrived(status) {
                Reply::Zones { success, zones }
            } else {
                Reply::Failed(CycleError::Provider)
            }
        },
        None => Reply::Failed(CycleError::Provider),
    }
}

/// The reply to a record listing, from its status and the envelope's
/// `success` and `result`; no status where the request did not complete,
/// no envelope where the body held none.
pub fn records_reply(status: Option<u16>, envelope: Option<(bool, Vec<DnsRecord>)>) -> (reply:
    Reply)
    ensures
        reply@ == records_reply_model(status, record_envelope_model(envelope)),
{
    if status.is_none() {
        return Reply::Failed(CycleError::Network);
    }
    match envelope {
        Some((success, records)) => {
            if ping_arrived(status) {
                Reply::Records { success, records }
            } else {
                Reply::Failed(CycleError::Provider)
            }
        },
        None => Reply::Failed(CycleError::Provider),
    }
}

/// The reply to a patch, from its status; no status where the request did
/// not complete.
pub fn patch_reply(status: Option<u16>) -> (reply: Reply)
    ensures
        reply@ == patch_reply_model(status),
{
    match status {
        Some(code) => {
            if status_ok(code) {
                Reply::Patched
            } else {
                Reply::Failed(CycleError::Provider)
            }
        },
        None => Reply::Failed(CycleError::Network),
    }
}

} // verus!
