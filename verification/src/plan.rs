//! Which records of a zone a cycle patches.

use vstd::prelude::*;
use vstd::string::*;
use crate::model::{record_models, texts, DnsRecord, RecordModel};

verus! {

/// A record is stale when it is an "A" record whose content differs from the
/// current address. Only stale records are ever patched.
pub open spec fn is_stale(record: RecordModel, address: Seq<char>) -> bool {
    record.kind == "A"@ && record.content != address
}

/// The stale records of a zone, in the order in which the zone lists them.
pub open spec fn stale_records(records: Seq<RecordModel>, address: Seq<char>) -> Seq<RecordModel> {
    records.filter(|r: RecordModel| is_stale(r, address))
}

/// The identifiers of the stale records: one patch is issued for each.
pub open spec fn stale_ids(records: Seq<RecordModel>, address: Seq<char>) -> Seq<Seq<char>> {
    stale_records(records, address).map_values(|r: RecordModel| r.id)
}

/// A record as the provider holds it once a patch with `address` went through.
pub open spec fn patched_record(record: RecordModel, address: Seq<char>) -> RecordModel {
    RecordModel { content: address, ..record }
}

/// A zone's records after every patch that a cycle issues for them went
/// through: the stale ones carry the address, the others are as before.
pub open spec fn reconciled(records: Seq<RecordModel>, address: Seq<char>) -> Seq<RecordModel> {
    records.map_values(
        |r: RecordModel| if is_stale(r, address) { patched_record(r, address) } else { r },
    )
}

pub fn needs_patch(record: &DnsRecord, address: &String) -> (stale: bool)
    ensures
        stale == is_stale(record@, address@),
{
    let a = String::from_str("A");
    record.kind == a && !(record.content == *address)
}

/// The identifiers of the records to patch, in the zone's order.
pub fn plan_patches(records: &Vec<DnsRecord>, address: &String) -> (ids: Vec<String>)
    ensures
        texts(ids@) == stale_ids(record_models(records@), address@),
{
    let mut ids: Vec<String> = Vec::new();
    let mut i: usize = 0;
    let ghost models = record_models(records@);
    proof {
        reveal(Seq::filter);
        assert(models.take(0) =~= Seq::<RecordModel>::empty());
        assert(texts(ids@) =~= stale_ids(models.take(0), address@));
    }
    while i < records.len()
        invariant
            i <= records.len(),
            models == record_models(records@),
            texts(ids@) =~= stale_ids(models.take(i as int), address@),
        decreases records.len() - i,
    {
        let ghost before = texts(ids@);
        let stale = needs_patch(&records[i], address);
        if stale {
            ids.push(records[i].id.clone());
        }
        proof {
            reveal(Seq::filter);
            let shorter = models.take(i as int);
            let longer = models.take(i + 1);
            assert(longer.drop_last() =~= shorter);
            assert(longer.last() == models[i as int]);
            assert(models[i as int] == records@[i as int]@);
            if stale {
                assert(stale_records(longer, address@) == stale_records(shorter, address@).push(
                    models[i as int],
                ));
                assert(texts(ids@) =~= before.push(models[i as int].id));
            } else {
                assert(stale_records(longer, address@) == stale_records(shorter, address@));
            }
            assert(texts(ids@) =~= stale_ids(longer, address@));
        }
        i += 1;
    }
    proof {
        assert(models.take(i as int) =~= models);
    }
    ids
}

/// Every record that is patched is an "A" record of the zone whose content
/// differs from the address: records of any other type are never touched.
pub proof fn lemma_only_stale_a_records_are_patched(
    records: Seq<RecordModel>,
    address: Seq<char>,
    i: int,
)
    requires
        0 <= i < stale_records(records, address).len(),
    ensures
        stale_records(records, address)[i].kind == "A"@,
        stale_records(records, address)[i].content != address,
        records.contains(stale_records(records, address)[i]),
{
    let found = stale_records(records, address);
    records.lemma_filter_pred(|r: RecordModel| is_stale(r, address), i);
    assert(found.contains(found[i]));
    records.lemma_filter_contains_rev(|r: RecordModel| is_stale(r, address), found[i]);
}

/// Every "A" record of the zone carries the address.
pub open spec fn synced(records: Seq<RecordModel>, address: Seq<char>) -> bool {
    forall|i: int|
        0 <= i < records.len() && (#[trigger] records[i]).kind == "A"@ ==> records[i].content
            == address
}

/// When every "A" record already carries the address, nothing is patched.
pub proof fn lemma_synced_zone_needs_no_patch(records: Seq<RecordModel>, address: Seq<char>)
    requires
        synced(records, address),
    ensures
        stale_ids(records, address) == Seq::<Seq<char>>::empty(),
{
    let found = stale_records(records, address);
    if found.len() > 0 {
        lemma_only_stale_a_records_are_patched(records, address, 0);
        let j = choose|j: int| 0 <= j < records.len() && records[j] == found[0];
        assert(records[j].kind == "A"@);
    }
    assert(stale_ids(records, address) =~= Seq::<Seq<char>>::empty());
}

/// Once the patches of one cycle went through, a second cycle with the same
/// address finds nothing to patch.
pub proof fn lemma_second_cycle_patches_nothing(records: Seq<RecordModel>, address: Seq<char>)
    ensures
        synced(reconciled(records, address), address),
        stale_ids(reconciled(records, address), address) == Seq::<Seq<char>>::empty(),
{
    lemma_synced_zone_needs_no_patch(reconciled(records, address), address);
}

} // verus!
