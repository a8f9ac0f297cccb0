//! One reconciliation cycle as a state machine. The machine decides which
//! request comes next; the caller performs it and hands the reply back.
//!
//! A cycle pings the healthcheck service, asks for the public address, lists
//! the zones, lists each zone's records, patches the stale "A" records of the
//! zone, and reports the outcome. The first failure ends the cycle: what is
//! left of it is the report.

use vstd::prelude::*;
use vstd::string::*;
use crate::address::{address_text, is_dotted_quad, lemma_dotted_quad_shape, parse_address};
use crate::endpoints::{
    address_model, address_request, is_plain_text, patch_body, patch_body_text, patch_model,
    patch_request, ping_model, ping_request, quoted_text, records_model, records_request,
    zones_model, zones_request,
};
use crate::model::{
    record_models, texts, zone_models, CycleError, CycleOutcome, DnsRecord, Method, RecordModel,
    Request, RequestModel, Settings, SettingsModel, Zone, ZoneModel,
};
use crate::plan::{
    lemma_second_cycle_patches_nothing, lemma_synced_zone_needs_no_patch, plan_patches, reconciled,
    stale_ids, synced,
};

verus! {

/// The reply that a cycle waits for.
#[derive(Clone, Copy, Debug, PartialEq, Eq, Structural)]
pub enum Phase {
    AwaitStart,
    AwaitAddress,
    AwaitZones,
    AwaitRecords,
    AwaitPatch,
    AwaitReport,
    Done,
}

/// What came of the request that the cycle asked for.
#[derive(Clone, Debug, PartialEq, Eq)]
pub enum Reply {
    /// A healthcheck ping was attempted; whether it arrived does not matter.
    Ping,
    /// The body that the address service sent.
    Address(String),
    /// The provider's envelope around the list of zones.
    Zones { success: bool, zones: Vec<Zone> },
    /// The provider's envelope around the list of a zone's records.
    Records { success: bool, records: Vec<DnsRecord> },
    /// The provider accepted a patch.
    Patched,
    /// The request failed.
    Failed(CycleError),
}

pub enum ReplyModel {
    Ping,
    Address(Seq<char>),
    Zones { success: bool, zones: Seq<ZoneModel> },
    Records { success: bool, records: Seq<RecordModel> },
    Patched,
    Failed(CycleError),
}

impl View for Reply {
    type V = ReplyModel;

    open spec fn view(&self) -> ReplyModel {
        match *self {
            Reply::Ping => ReplyModel::Ping,
            Reply::Address(body) => ReplyModel::Address(body@),
            Reply::Zones { success, zones } => ReplyModel::Zones {
                success,
                zones: zone_models(zones@),
            },
            Reply::Records { success, records } => ReplyModel::Records {
                success,
                records: record_models(records@),
            },
            Reply::Patched => ReplyModel::Patched,
            Reply::Failed(e) => ReplyModel::Failed(e),
        }
    }
}

/// What the caller does next.
#[derive(Clone, Debug, PartialEq, Eq)]
pub enum Action {
    /// Perform the request and hand its reply to `step`.
    Send(Request),
    /// The cycle is over.
    Finish(CycleOutcome),
}

pub enum ActionModel {
    Send(RequestModel),
    Finish(CycleOutcome),
}

impl View for Action {
    type V = ActionModel;

    open spec fn view(&self) -> ActionModel {
        match *self {
            Action::Send(request) => ActionModel::Send(request@),
            Action::Finish(outcome) => ActionModel::Finish(outcome),
        }
    }
}

/// The state of a cycle. `zones` holds the identifiers of the zones,
/// `zone_at` the zone at work, `queue` the identifiers of that zone's stale
/// records, `queue_at` the record at work.
#[derive(Clone, Debug)]
pub struct Cycle {
    pub settings: Settings,
    pub phase: Phase,
    pub outcome: CycleOutcome,
    pub address: String,
    pub body: String,
    pub zones: Vec<String>,
    pub zone_at: usize,
    pub queue: Vec<String>,
    pub queue_at: usize,
}

pub struct CycleModel {
    pub settings: SettingsModel,
    pub phase: Phase,
    pub outcome: CycleOutcome,
    pub address: Seq<char>,
    pub body: Seq<char>,
    pub zones: Seq<Seq<char>>,
    pub zone_at: int,
    pub queue: Seq<Seq<char>>,
    pub queue_at: int,
}

impl View for Cycle {
    type V = CycleModel;

    open spec fn view(&self) -> CycleModel {
        CycleModel {
            settings: self.settings@,
            phase: self.phase,
            outcome: self.outcome,
            address: self.address@,
            body: self.body@,
            zones: texts(self.zones@),
            zone_at: self.zone_at as int,
            queue: texts(self.queue@),
            queue_at: self.queue_at as int,
        }
    }
}

impl CycleModel {
    /// The indices lie within their lists, and on a record or a patch that
    /// is awaited they point at the zone and the record in question.
    pub open spec fn wf(self) -> bool {
        &&& 0 <= self.zone_at <= self.zones.len()
        &&& 0 <= self.queue_at <= self.queue.len()
        &&& self.phase == Phase::AwaitRecords ==> self.zone_at < self.zones.len()
        &&& self.phase == Phase::AwaitPatch ==> self.zone_at < self.zones.len() && self.queue_at
            < self.queue.len()
    }
}

pub open spec fn zone_ids(zones: Seq<ZoneModel>) -> Seq<Seq<char>> {
    zones.map_values(|z: ZoneModel| z.id)
}

/// The cycle as it begins.
pub open spec fn initial(settings: SettingsModel) -> CycleModel {
    CycleModel {
        settings,
        phase: Phase::AwaitStart,
        outcome: CycleOutcome::Started,
        address: Seq::empty(),
        body: Seq::empty(),
        zones: Seq::empty(),
        zone_at: 0,
        queue: Seq::empty(),
        queue_at: 0,
    }
}

/// The cycle ends in failure: what is left is the report.
pub open spec fn fail(m: CycleModel, e: CycleError) -> (CycleModel, ActionModel) {
    let outcome = CycleOutcome::Failure(e);
    (
        CycleModel { phase: Phase::AwaitReport, outcome, ..m },
        ActionModel::Send(ping_model(m.settings.healthcheck_uuid, outcome)),
    )
}

/// Every zone is done: the cycle reports success with status 0.
pub open spec fn succeed(m: CycleModel) -> (CycleModel, ActionModel) {
    let outcome = CycleOutcome::Success(0);
    (
        CycleModel { phase: Phase::AwaitReport, outcome, ..m },
        ActionModel::Send(ping_model(m.settings.healthcheck_uuid, outcome)),
    )
}

/// Lists the records of the zone at `zone_at`, or succeeds where none is left.
pub open spec fn enter_zone(m: CycleModel) -> (CycleModel, ActionModel) {
    if 0 <= m.zone_at < m.zones.len() {
        (
            CycleModel { phase: Phase::AwaitRecords, ..m },
            ActionModel::Send(records_model(m.zones[m.zone_at])),
        )
    } else {
        succeed(m)
    }
}

/// Patches the record at `queue_at`, or goes on to the next zone where the
/// queue is done.
pub open spec fn enter_patch(m: CycleModel) -> (CycleModel, ActionModel) {
    if 0 <= m.queue_at < m.queue.len() {
        (
            CycleModel { phase: Phase::AwaitPatch, ..m },
            ActionModel::Send(patch_model(m.zones[m.zone_at], m.queue[m.queue_at], m.body)),
        )
    } else {
        enter_zone(CycleModel { zone_at: m.zone_at + 1, ..m })
    }
}

/// The transition of the machine. `body` is the patch body that was encoded
/// for the address in the reply; it is read only while the address is awaited.
pub open spec fn next(m: CycleModel, reply: ReplyModel, body: Option<Seq<char>>) -> (
    CycleModel,
    ActionModel,
) {
    match m.phase {
        Phase::AwaitStart => (
            CycleModel { phase: Phase::AwaitAddress, ..m },
            ActionModel::Send(address_model()),
        ),
        Phase::AwaitAddress => match reply {
            ReplyModel::Address(text) => match (address_text(text), body) {
                (Some(address), Some(encoded)) => (
                    CycleModel { phase: Phase::AwaitZones, address, body: encoded, ..m },
                    ActionModel::Send(zones_model()),
                ),
                _ => fail(m, CycleError::Resolution),
            },
            ReplyModel::Failed(e) => fail(m, e),
            _ => fail(m, CycleError::Resolution),
        },
        Phase::AwaitZones => match reply {
            ReplyModel::Zones { success, zones } => if success {
                enter_zone(CycleModel { zones: zone_ids(zones), zone_at: 0, ..m })
            } else {
                fail(m, CycleError::Provider)
            },
            ReplyModel::Failed(e) => fail(m, e),
            _ => fail(m, CycleError::Provider),
        },
        Phase::AwaitRecords => match reply {
            ReplyModel::Records { success, records } => if success {
                enter_patch(
                    CycleModel { queue: stale_ids(records, m.address), queue_at: 0, ..m },
                )
            } else {
                fail(m, CycleError::Provider)
            },
            ReplyModel::Failed(e) => fail(m, e),
            _ => fail(m, CycleError::Provider),
        },
        Phase::AwaitPatch => match reply {
            ReplyModel::Patched => enter_patch(CycleModel { queue_at: m.queue_at + 1, ..m }),
            ReplyModel::Failed(e) => fail(m, e),
            _ => fail(m, CycleError::Provider),
        },
        Phase::AwaitReport => (CycleModel { phase: Phase::Done, ..m }, ActionModel::Finish(m.outcome)),
        Phase::Done => (m, ActionModel::Finish(m.outcome)),
    }
}

/// The patch body that belongs to the address in a reply, where it holds
/// one: the object whose member `content` is the address in quotes.
pub open spec fn encoded_body(reply: ReplyModel) -> Option<Seq<char>> {
    match reply {
        ReplyModel::Address(text) => match address_text(text) {
            Some(address) => Some(patch_body_text(quoted_text(address))),
            None => None,
        },
        _ => None,
    }
}

pub open spec fn option_text(s: Option<String>) -> Option<Seq<char>> {
    match s {
        Some(t) => Some(t@),
        None => None,
    }
}

fn ids_of(zones: &Vec<Zone>) -> (ids: Vec<String>)
    ensures
        texts(ids@) == zone_ids(zone_models(zones@)),
{
    let mut ids: Vec<String> = Vec::new();
    let mut i: usize = 0;
    while i < zones.len()
        invariant
            i <= zones.len(),
            texts(ids@) =~= zone_ids(zone_models(zones@)).take(i as int),
        decreases zones.len() - i,
    {
        let ghost before = texts(ids@);
        ids.push(zones[i].id.clone());
        proof {
            let all = zone_ids(zone_models(zones@));
            assert(all[i as int] == zones@[i as int].id@);
            assert(texts(ids@) =~= before.push(zones@[i as int].id@));
            assert(all.take(i + 1) =~= all.take(i as int).push(all[i as int]));
        }
        i += 1;
    }
    proof {
        assert(texts(ids@) =~= zone_ids(zone_models(zones@)));
    }
    ids
}

impl Cycle {
    pub open spec fn wf(&self) -> bool {
        self@.wf()
    }

    /// Tests whether the state is well-formed. Every state that `start` and
    /// `step` hand out is.
    pub fn is_wf(&self) -> (ok: bool)
        ensures
            ok == self.wf(),
    {
        proof {
            assert(texts(self.zones@).len() == self.zones.len());
            assert(texts(self.queue@).len() == self.queue.len());
        }
        let zone_in_range = self.zone_at < self.zones.len();
        let record_in_range = self.queue_at < self.queue.len();
        self.zone_at <= self.zones.len() && self.queue_at <= self.queue.len() && (match self.phase {
            Phase::AwaitRecords => zone_in_range,
            Phase::AwaitPatch => zone_in_range && record_in_range,
            _ => true,
        })
    }

    /// Begins a cycle: the first request is the start ping.
    pub fn start(settings: Settings) -> (r: (Cycle, Request))
        ensures
            r.0.wf(),
            r.0@ == initial(settings@),
            r.1@ == ping_model(settings@.healthcheck_uuid, CycleOutcome::Started),
    {
        let request = ping_request(&settings, CycleOutcome::Started);
        let cycle = Cycle {
            settings,
            phase: Phase::AwaitStart,
            outcome: CycleOutcome::Started,
            address: String::new(),
            body: String::new(),
            zones: Vec::new(),
            zone_at: 0,
            queue: Vec::new(),
            queue_at: 0,
        };
        proof {
            assert(texts(cycle.zones@) =~= Seq::<Seq<char>>::empty());
            assert(texts(cycle.queue@) =~= Seq::<Seq<char>>::empty());
        }
        (cycle, request)
    }

    fn fail(&mut self, e: CycleError) -> (action: Action)
        requires
            old(self).wf(),
        ensures
            final(self).wf(),
            (final(self)@, action@) == fail(old(self)@, e),
    {
        self.outcome = CycleOutcome::Failure(e);
        self.phase = Phase::AwaitReport;
        Action::Send(ping_request(&self.settings, self.outcome))
    }

    fn enter_zone(&mut self) -> (action: Action)
        requires
            old(self)@.zone_at <= old(self)@.zones.len(),
            old(self)@.queue_at <= old(self)@.queue.len(),
        ensures
            final(self).wf(),
            (final(self)@, action@) == enter_zone(old(self)@),
    {
        if self.zone_at < self.zones.len() {
            self.phase = Phase::AwaitRecords;
            Action::Send(records_request(self.zones[self.zone_at].as_str()))
        } else {
            self.outcome = CycleOutcome::Success(0);
            self.phase = Phase::AwaitReport;
            Action::Send(ping_request(&self.settings, self.outcome))
        }
    }

    fn enter_patch(&mut self) -> (action: Action)
        requires
            old(self)@.zone_at < old(self)@.zones.len(),
            old(self)@.queue_at <= old(self)@.queue.len(),
        ensures
            final(self).wf(),
            (final(self)@, action@) == enter_patch(old(self)@),
    {
        if self.queue_at < self.queue.len() {
            self.phase = Phase::AwaitPatch;
            Action::Send(
                patch_request(
                    self.zones[self.zone_at].as_str(),
                    self.queue[self.queue_at].as_str(),
                    self.body.as_str(),
                ),
            )
        } else {
            assert(texts(self.zones@).len() == self.zones.len());
            self.zone_at = self.zone_at + 1;
            self.enter_zone()
        }
    }

    /// Takes the reply to the request that was asked for last and decides
    /// what comes next. `body` is the patch body for the address in the
    /// reply; an address that comes without one fails the cycle.
    pub fn advance(&mut self, reply: Reply, body: Option<String>) -> (action: Action)
        requires
            old(self).wf(),
        ensures
            final(self).wf(),
            (final(self)@, action@) == next(old(self)@, reply@, option_text(body)),
    {
        match self.phase {
            Phase::AwaitStart => {
                self.phase = Phase::AwaitAddress;
                Action::Send(address_request())
            },
            Phase::AwaitAddress => match reply {
                Reply::Address(text) => match (parse_address(text.as_str()), body) {
                    (Ok(address), Some(encoded)) => {
                        self.address = address;
                        self.body = encoded;
                        self.phase = Phase::AwaitZones;
                        Action::Send(zones_request())
                    },
                    _ => self.fail(CycleError::Resolution),
                },
                Reply::Failed(e) => self.fail(e),
                _ => self.fail(CycleError::Resolution),
            },
            Phase::AwaitZones => match reply {
                Reply::Zones { success, zones } => {
                    if success {
                        self.zones = ids_of(&zones);
                        self.zone_at = 0;
                        self.enter_zone()
                    } else {
                        self.fail(CycleError::Provider)
                    }
                },
                Reply::Failed(e) => self.fail(e),
                _ => self.fail(CycleError::Provider),
            },
            Phase::AwaitRecords => match reply {
                Reply::Records { success, records } => {
                    if success {
                        self.queue = plan_patches(&records, &self.address);
                        self.queue_at = 0;
                        self.enter_patch()
                    } else {
                        self.fail(CycleError::Provider)
                    }
                },
                Reply::Failed(e) => self.fail(e),
                _ => self.fail(CycleError::Provider),
            },
            Phase::AwaitPatch => match reply {
                Reply::Patched => {
                    assert(texts(self.queue@).len() == self.queue.len());
                    self.queue_at = self.queue_at + 1;
                    self.enter_patch()
                },
                Reply::Failed(e) => self.fail(e),
                _ => self.fail(CycleError::Provider),
            },
            Phase::AwaitReport => {
                self.phase = Phase::Done;
                Action::Finish(self.outcome)
            },
            Phase::Done => Action::Finish(self.outcome),
        }
    }

    /// Takes the reply to the request that was asked for last and decides
    /// what comes next. Where the reply holds an address, the patch body is
    /// encoded for it.
    pub fn step(&mut self, reply: Reply) -> (action: Action)
        requires
            old(self).wf(),
        ensures
            final(self).wf(),
            (final(self)@, action@) == next(old(self)@, reply@, encoded_body(reply@)),
    {
        let body = match &reply {
            Reply::Address(text) => match parse_address(text.as_str()) {
                Ok(address) => {
                    proof {
                        lemma_address_is_plain(address@);
                    }
                    match patch_body(address.as_str()) {
                        Ok(encoded) => Some(encoded),
                        Err(_) => None,
                    }
                },
                Err(_) => None,
            },
            _ => None,
        };
        self.advance(reply, body)
    }
}

/// An address holds digits and dots: JSON text holds it as it is.
pub proof fn lemma_address_is_plain(address: Seq<char>)
    requires
        is_dotted_quad(address),
    ensures
        is_plain_text(address),
{
    lemma_dotted_quad_shape(address);
}

/// The action sends a patch.
pub open spec fn is_patch(action: ActionModel) -> bool {
    action matches ActionModel::Send(request) && request.method == Method::Patch
}

/// The reply tells that listing the zones failed: the request itself did,
/// or the provider's envelope does not say success.
pub open spec fn zones_failed(reply: ReplyModel) -> bool {
    match reply {
        ReplyModel::Failed(_) => true,
        ReplyModel::Zones { success, zones } => !success,
        _ => false,
    }
}

/// When listing the zones fails, the cycle sends the failure report and then
/// finishes with a failure, whatever is answered to the report: no patch is
/// sent on the way, and the machine is ready to finish.
pub proof fn lemma_failed_zone_listing_sends_no_patch(
    m: CycleModel,
    reply: ReplyModel,
    body: Option<Seq<char>>,
    report_reply: ReplyModel,
    report_body: Option<Seq<char>>,
)
    requires
        m.wf(),
        m.phase == Phase::AwaitZones,
        zones_failed(reply),
    ensures
        ({
            let (failed, report) = next(m, reply, body);
            let (done, last) = next(failed, report_reply, report_body);
            &&& failed.outcome is Failure
            &&& report == ActionModel::Send(ping_model(m.settings.healthcheck_uuid, failed.outcome))
            &&& !is_patch(report)
            &&& last == ActionModel::Finish(failed.outcome)
            &&& done.phase == Phase::Done
        }),
{
}

/// A patch that is sent goes to the record at work of the zone at work, and
/// carries the body that was encoded for the address.
pub proof fn lemma_patch_targets_queue(m: CycleModel, reply: ReplyModel, body: Option<Seq<char>>)
    requires
        m.wf(),
        is_patch(next(m, reply, body).1),
    ensures
        ({
            let (after, action) = next(m, reply, body);
            &&& after.phase == Phase::AwaitPatch
            &&& after.wf()
            &&& m.phase == Phase::AwaitRecords || m.phase == Phase::AwaitPatch
            &&& action == ActionModel::Send(
                patch_model(after.zones[after.zone_at], after.queue[after.queue_at], after.body),
            )
        }),
{
}

/// The records of a zone are answered with: the queue then holds the
/// identifiers of the stale "A" records and of no other record.
pub proof fn lemma_queue_is_the_stale_records(
    m: CycleModel,
    records: Seq<RecordModel>,
    body: Option<Seq<char>>,
)
    requires
        m.wf(),
        m.phase == Phase::AwaitRecords,
    ensures
        ({
            let (after, action) = next(m, ReplyModel::Records { success: true, records }, body);
            &&& after.queue == stale_ids(records, m.address)
            &&& is_patch(action) <==> stale_ids(records, m.address).len() > 0
        }),
{
}

/// Where every "A" record of the zone already carries the address, the
/// answer to the zone's records sends no patch.
pub proof fn lemma_synced_zone_sends_no_patch(
    m: CycleModel,
    success: bool,
    records: Seq<RecordModel>,
    body: Option<Seq<char>>,
)
    requires
        m.wf(),
        m.phase == Phase::AwaitRecords,
        synced(records, m.address),
    ensures
        !is_patch(next(m, ReplyModel::Records { success, records }, body).1),
{
    lemma_synced_zone_needs_no_patch(records, m.address);
}

/// A zone whose records are as an earlier cycle with the same address left
/// them sends no patch.
pub proof fn lemma_reconciled_zone_sends_no_patch(
    m: CycleModel,
    success: bool,
    earlier: Seq<RecordModel>,
    body: Option<Seq<char>>,
)
    requires
        m.wf(),
        m.phase == Phase::AwaitRecords,
    ensures
        !is_patch(
            next(
                m,
                ReplyModel::Records { success, records: reconciled(earlier, m.address) },
                body,
            ).1,
        ),
{
    lemma_second_cycle_patches_nothing(earlier, m.address);
}

/// The transition keeps a well-formed state well-formed, and reads the
/// encoded body only while the address is awaited.
pub proof fn lemma_next_keeps_wf(m: CycleModel, reply: ReplyModel, body: Option<Seq<char>>)
    requires
        m.wf(),
    ensures
        next(m, reply, body).0.wf(),
        m.phase != Phase::AwaitAddress ==> next(m, reply, body) == next(m, reply, None),
{
}

} // verus!
