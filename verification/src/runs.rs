//! Whole runs of the cycle: what holds of every sequence of replies.

use vstd::prelude::*;
use crate::cycle::{
    enter_zone, initial, is_patch, lemma_synced_zone_sends_no_patch, next, zones_failed,
    ActionModel, CycleModel, Phase, ReplyModel,
};
use crate::endpoints::patch_model;
use crate::model::{CycleOutcome, RecordModel, SettingsModel};
use crate::plan::{stale_ids, synced};

verus! {

/// One step of a run: the reply, and the patch body encoded for it.
pub struct Turn {
    pub reply: ReplyModel,
    pub body: Option<Seq<char>>,
}

/// The state after the machine took the turns one by one.
pub open spec fn state_after(m: CycleModel, turns: Seq<Turn>) -> CycleModel
    decreases turns.len(),
{
    if turns.len() == 0 {
        m
    } else {
        next(state_after(m, turns.drop_last()), turns.last().reply, turns.last().body).0
    }
}

/// How many of the actions that the turns drew from the machine are patches.
pub open spec fn patches_sent(m: CycleModel, turns: Seq<Turn>) -> nat
    decreases turns.len(),
{
    if turns.len() == 0 {
        0
    } else {
        let before = state_after(m, turns.drop_last());
        patches_sent(m, turns.drop_last()) + if is_patch(
            next(before, turns.last().reply, turns.last().body).1,
        ) {
            1nat
        } else {
            0nat
        }
    }
}

/// Every list of records that answers a record listing in the run is in
/// step with the address that the cycle holds at that time.
pub open spec fn records_synced_throughout(m: CycleModel, turns: Seq<Turn>) -> bool
    decreases turns.len(),
{
    turns.len() == 0 || {
        let before = state_after(m, turns.drop_last());
        &&& records_synced_throughout(m, turns.drop_last())
        &&& before.phase == Phase::AwaitRecords ==> match turns.last().reply {
            ReplyModel::Records { success, records } => synced(records, before.address),
            _ => true,
        }
    }
}

/// Every answer to a zone listing in the run is a failure.
pub open spec fn zone_listing_fails_throughout(m: CycleModel, turns: Seq<Turn>) -> bool
    decreases turns.len(),
{
    turns.len() == 0 || {
        let before = state_after(m, turns.drop_last());
        &&& zone_listing_fails_throughout(m, turns.drop_last())
        &&& before.phase == Phase::AwaitZones ==> zones_failed(turns.last().reply)
    }
}

/// The cycle has not listed any zone's records yet, or is past them.
pub open spec fn outside_zones(phase: Phase) -> bool {
    phase != Phase::AwaitRecords && phase != Phase::AwaitPatch
}

/// A run keeps the state well-formed.
pub proof fn lemma_run_keeps_wf(m: CycleModel, turns: Seq<Turn>)
    requires
        m.wf(),
    ensures
        state_after(m, turns).wf(),
    decreases turns.len(),
{
    if turns.len() > 0 {
        lemma_run_keeps_wf(m, turns.drop_last());
    }
}

/// A run in which every zone's records are in step with the address sends
/// no patch, however many zones there are and whatever else is answered.
pub proof fn lemma_synced_run_sends_no_patch(m: CycleModel, turns: Seq<Turn>)
    requires
        m.wf(),
        m.phase != Phase::AwaitPatch,
        records_synced_throughout(m, turns),
    ensures
        patches_sent(m, turns) == 0,
        state_after(m, turns).phase != Phase::AwaitPatch,
    decreases turns.len(),
{
    if turns.len() > 0 {
        let earlier = turns.drop_last();
        lemma_synced_run_sends_no_patch(m, earlier);
        lemma_run_keeps_wf(m, earlier);
        let before = state_after(m, earlier);
        if before.phase == Phase::AwaitRecords {
            match turns.last().reply {
                ReplyModel::Records { success, records } => {
                    lemma_synced_zone_sends_no_patch(before, success, records, turns.last().body);
                },
                _ => {},
            }
        }
    }
}

/// A run from the beginning in which listing the zones fails sends no patch,
/// and once the failure has come the outcome is a failure for good.
pub proof fn lemma_failed_listing_run_sends_no_patch(settings: SettingsModel, turns: Seq<Turn>)
    requires
        zone_listing_fails_throughout(initial(settings), turns),
    ensures
        patches_sent(initial(settings), turns) == 0,
        outside_zones(state_after(initial(settings), turns).phase),
        !(state_after(initial(settings), turns).outcome is Success),
    decreases turns.len(),
{
    if turns.len() > 0 {
        lemma_failed_listing_run_sends_no_patch(settings, turns.drop_last());
        lemma_run_keeps_wf(initial(settings), turns.drop_last());
    }
}

/// In every run from the beginning, the cycle reports or is done exactly
/// when its outcome is a success or a failure.
pub proof fn lemma_done_has_an_outcome(settings: SettingsModel, turns: Seq<Turn>)
    ensures
        ({
            let phase = state_after(initial(settings), turns).phase;
            let outcome = state_after(initial(settings), turns).outcome;
            (phase == Phase::AwaitReport || phase == Phase::Done) <==> outcome
                != CycleOutcome::Started
        }),
    decreases turns.len(),
{
    if turns.len() > 0 {
        lemma_done_has_an_outcome(settings, turns.drop_last());
        lemma_run_keeps_wf(initial(settings), turns.drop_last());
    }
}

/// The turns of one zone: the answer to the listing of its records, then
/// `accepted` patches that the provider accepted.
pub open spec fn zone_pass(records: Seq<RecordModel>, accepted: nat) -> Seq<Turn>
    decreases accepted,
{
    if accepted == 0 {
        seq![Turn { reply: ReplyModel::Records { success: true, records }, body: None }]
    } else {
        zone_pass(records, (accepted - 1) as nat).push(
            Turn { reply: ReplyModel::Patched, body: None },
        )
    }
}

/// Over the turns of one zone the cycle sends one patch for each stale
/// record, in the zone's order, and no other: while stale records are left
/// it waits for the patch of the next one; after the last it goes on to the
/// next zone.
pub proof fn lemma_zone_pass_patches_each_stale_record(
    m: CycleModel,
    records: Seq<RecordModel>,
    accepted: nat,
)
    requires
        m.wf(),
        m.phase == Phase::AwaitRecords,
        accepted <= stale_ids(records, m.address).len(),
    ensures
        ({
            let ids = stale_ids(records, m.address);
            let reached = state_after(m, zone_pass(records, accepted));
            let sent = patches_sent(m, zone_pass(records, accepted));
            let queued = CycleModel { queue: ids, queue_at: accepted as int, ..m };
            if accepted < ids.len() {
                &&& sent == accepted + 1
                &&& reached == (CycleModel { phase: Phase::AwaitPatch, ..queued })
                &&& next(
                    state_after(m, zone_pass(records, accepted).drop_last()),
                    zone_pass(records, accepted).last().reply,
                    zone_pass(records, accepted).last().body,
                ).1 == ActionModel::Send(patch_model(m.zones[m.zone_at], ids[accepted as int], m.body))
            } else {
                &&& sent == ids.len()
                &&& reached == enter_zone(CycleModel { zone_at: m.zone_at + 1, ..queued }).0
            }
        }),
    decreases accepted,
{
    let turns = zone_pass(records, accepted);
    if accepted == 0 {
        assert(turns.drop_last() =~= Seq::<Turn>::empty());
        assert(state_after(m, turns.drop_last()) == m);
        assert(patches_sent(m, turns.drop_last()) == 0);
    } else {
        lemma_zone_pass_patches_each_stale_record(m, records, (accepted - 1) as nat);
        assert(turns.drop_last() =~= zone_pass(records, (accepted - 1) as nat));
    }
}

/// Once the cycle reports, nothing that is answered changes its outcome, and
/// it sends nothing more: the first failure is the one that is reported.
pub proof fn lemma_outcome_is_final(m: CycleModel, turns: Seq<Turn>)
    requires
        m.phase == Phase::AwaitReport || m.phase == Phase::Done,
    ensures
        state_after(m, turns).outcome == m.outcome,
        turns.len() > 0 ==> state_after(m, turns).phase == Phase::Done,
        patches_sent(m, turns) == 0,
    decreases turns.len(),
{
    if turns.len() > 0 {
        lemma_outcome_is_final(m, turns.drop_last());
    }
}

/// In every run from the beginning, a success is reported with status 0 and
/// only when every zone has been gone through.
pub proof fn lemma_success_means_every_zone_done(settings: SettingsModel, turns: Seq<Turn>)
    ensures
        ({
            let reached = state_after(initial(settings), turns);
            reached.outcome is Success ==> {
                &&& reached.outcome == CycleOutcome::Success(0)
                &&& reached.zone_at >= reached.zones.len()
                &&& reached.phase == Phase::AwaitReport || reached.phase == Phase::Done
            }
        }),
    decreases turns.len(),
{
    if turns.len() > 0 {
        lemma_success_means_every_zone_done(settings, turns.drop_last());
        lemma_run_keeps_wf(initial(settings), turns.drop_last());
    }
}

} // verus!
