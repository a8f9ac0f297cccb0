use pmddns::cycle::{Action, Cycle, Phase, Reply};
use pmddns::model::{CycleError, CycleOutcome, DnsRecord, Method, Request, Settings, Zone};

fn settings() -> Settings {
    Settings::new(String::from("abc"), String::from("e@x.com"), String::from("K"))
}

fn zone(id: &str) -> Zone {
    Zone { id: String::from(id), name: String::from("example.org") }
}

fn record(id: &str, kind: &str, content: &str) -> DnsRecord {
    DnsRecord {
        id: String::from(id),
        kind: String::from(kind),
        name: String::from("home.example.org"),
        content: String::from(content),
    }
}

fn get(url: &str, authenticated: bool) -> Action {
    Action::Send(Request { method: Method::Get, url: String::from(url), authenticated, body: None })
}

fn patch(url: &str, body: &str) -> Action {
    Action::Send(Request {
        method: Method::Patch,
        url: String::from(url),
        authenticated: true,
        body: Some(String::from(body)),
    })
}

/// Drives a cycle up to the reply that lists the records of its first zone.
fn cycle_at_records(address: &str, zones: Vec<Zone>) -> Cycle {
    let (mut cycle, _) = Cycle::start(settings());
    cycle.step(Reply::Ping);
    cycle.step(Reply::Address(String::from(address)));
    cycle.step(Reply::Zones { success: true, zones });
    assert_eq!(cycle.phase, Phase::AwaitRecords);
    cycle
}

fn count_patches(cycle: &mut Cycle, first: Action) -> usize {
    let mut action = first;
    let mut patches = 0;
    loop {
        match action {
            Action::Send(request) => {
                if request.method == Method::Patch {
                    patches += 1;
                    action = cycle.step(Reply::Patched);
                } else {
                    action = cycle.step(Reply::Ping);
                }
            }
            Action::Finish(_) => return patches,
        }
    }
}

#[test]
fn end_to_end_patches_the_stale_record() {
    let (mut cycle, first) = Cycle::start(settings());
    assert_eq!(Action::Send(first), get("https://hc-ping.com/abc/start", false));
    assert_eq!(cycle.step(Reply::Ping), get("https://api.ipify.org", false));
    assert_eq!(
        cycle.step(Reply::Address(String::from("203.0.113.9"))),
        get("https://api.cloudflare.com/client/v4/zones/", true)
    );
    assert_eq!(
        cycle.step(Reply::Zones { success: true, zones: vec![zone("z1")] }),
        get("https://api.cloudflare.com/client/v4/zones/z1/dns_records", true)
    );
    assert_eq!(
        cycle.step(Reply::Records {
            success: true,
            records: vec![record("r1", "A", "203.0.113.5")],
        }),
        patch(
            "https://api.cloudflare.com/client/v4/zones/z1/dns_records/r1",
            "{\"content\":\"203.0.113.9\"}"
        )
    );
    assert_eq!(cycle.step(Reply::Patched), get("https://hc-ping.com/abc/0", false));
    assert_eq!(cycle.step(Reply::Ping), Action::Finish(CycleOutcome::Success(0)));
    assert_eq!(cycle.phase, Phase::Done);
    assert_eq!(cycle.step(Reply::Ping), Action::Finish(CycleOutcome::Success(0)));
}

#[test]
fn only_the_a_record_is_patched() {
    let mut cycle = cycle_at_records("1.2.3.2", vec![zone("z1")]);
    let first = cycle.step(Reply::Records {
        success: true,
        records: vec![record("r6", "AAAA", "::1"), record("r4", "A", "1.2.3.1")],
    });
    assert_eq!(
        first,
        patch(
            "https://api.cloudflare.com/client/v4/zones/z1/dns_records/r4",
            "{\"content\":\"1.2.3.2\"}"
        )
    );
    assert_eq!(cycle.queue, vec![String::from("r4")]);
    assert_eq!(count_patches(&mut cycle, first), 1);
    assert_eq!(cycle.outcome, CycleOutcome::Success(0));
}

#[test]
fn synced_record_is_left_alone() {
    let mut cycle = cycle_at_records("1.2.3.2", vec![zone("z1")]);
    let first = cycle.step(Reply::Records {
        success: true,
        records: vec![record("r4", "A", "1.2.3.2"), record("t", "TXT", "v=spf1")],
    });
    assert_eq!(first, get("https://hc-ping.com/abc/0", false));
    assert_eq!(count_patches(&mut cycle, first), 0);
}

#[test]
fn second_cycle_patches_nothing() {
    let mut records = vec![
        record("r1", "A", "10.0.0.1"),
        record("r2", "AAAA", "::1"),
        record("r3", "A", "10.0.0.2"),
    ];
    let mut cycle = cycle_at_records("10.0.0.2", vec![zone("z1")]);
    let first = cycle.step(Reply::Records { success: true, records: records.clone() });
    assert_eq!(cycle.queue, vec![String::from("r1")]);
    assert_eq!(count_patches(&mut cycle, first), 1);
    records[0].content = String::from("10.0.0.2");
    let mut again = cycle_at_records("10.0.0.2", vec![zone("z1")]);
    let first = again.step(Reply::Records { success: true, records });
    assert_eq!(count_patches(&mut again, first), 0);
    assert_eq!(again.outcome, CycleOutcome::Success(0));
}

#[test]
fn every_zone_is_listed_in_turn() {
    let mut cycle = cycle_at_records("10.0.0.2", vec![zone("z1"), zone("z2")]);
    let action = cycle.step(Reply::Records {
        success: true,
        records: vec![record("r1", "A", "10.0.0.1"), record("r2", "A", "10.0.0.3")],
    });
    assert_eq!(
        action,
        patch(
            "https://api.cloudflare.com/client/v4/zones/z1/dns_records/r1",
            "{\"content\":\"10.0.0.2\"}"
        )
    );
    assert_eq!(
        cycle.step(Reply::Patched),
        patch(
            "https://api.cloudflare.com/client/v4/zones/z1/dns_records/r2",
            "{\"content\":\"10.0.0.2\"}"
        )
    );
    assert_eq!(
        cycle.step(Reply::Patched),
        get("https://api.cloudflare.com/client/v4/zones/z2/dns_records", true)
    );
    assert_eq!(
        cycle.step(Reply::Records { success: true, records: vec![] }),
        get("https://hc-ping.com/abc/0", false)
    );
}

#[test]
fn no_zone_means_success() {
    let (mut cycle, _) = Cycle::start(settings());
    cycle.step(Reply::Ping);
    cycle.step(Reply::Address(String::from("10.0.0.2")));
    assert_eq!(
        cycle.step(Reply::Zones { success: true, zones: vec![] }),
        get("https://hc-ping.com/abc/0", false)
    );
}

#[test]
fn failed_zone_listing_reports_failure_without_patch() {
    let (mut cycle, _) = Cycle::start(settings());
    cycle.step(Reply::Ping);
    cycle.step(Reply::Address(String::from("10.0.0.2")));
    let first = cycle.step(Reply::Failed(CycleError::Network));
    assert_eq!(first, get("https://hc-ping.com/abc/1", false));
    assert_eq!(cycle.outcome, CycleOutcome::Failure(CycleError::Network));
    assert_eq!(count_patches(&mut cycle, first), 0);
    assert_eq!(cycle.step(Reply::Ping), Action::Finish(CycleOutcome::Failure(CycleError::Network)));
}

#[test]
fn envelope_without_success_is_a_provider_error() {
    let (mut cycle, _) = Cycle::start(settings());
    cycle.step(Reply::Ping);
    cycle.step(Reply::Address(String::from("10.0.0.2")));
    assert_eq!(
        cycle.step(Reply::Zones { success: false, zones: vec![zone("z1")] }),
        get("https://hc-ping.com/abc/2", false)
    );
    assert_eq!(cycle.outcome, CycleOutcome::Failure(CycleError::Provider));

    let mut cycle = cycle_at_records("10.0.0.2", vec![zone("z1")]);
    assert_eq!(
        cycle.step(Reply::Records { success: false, records: vec![record("r1", "A", "1.1.1.1")] }),
        get("https://hc-ping.com/abc/2", false)
    );
}

#[test]
fn unusable_address_is_a_resolution_error() {
    let (mut cycle, _) = Cycle::start(settings());
    cycle.step(Reply::Ping);
    assert_eq!(
        cycle.step(Reply::Address(String::from("<html>busy</html>"))),
        get("https://hc-ping.com/abc/3", false)
    );
    assert_eq!(cycle.outcome, CycleOutcome::Failure(CycleError::Resolution));
    assert_eq!(
        cycle.step(Reply::Ping),
        Action::Finish(CycleOutcome::Failure(CycleError::Resolution))
    );
}

#[test]
fn failed_address_request_ends_the_cycle() {
    let (mut cycle, _) = Cycle::start(settings());
    cycle.step(Reply::Ping);
    assert_eq!(cycle.step(Reply::Failed(CycleError::Network)), get("https://hc-ping.com/abc/1", false));
    assert_eq!(cycle.phase, Phase::AwaitReport);
}

#[test]
fn failed_patch_ends_the_cycle() {
    let mut cycle = cycle_at_records("10.0.0.2", vec![zone("z1"), zone("z2")]);
    cycle.step(Reply::Records {
        success: true,
        records: vec![record("r1", "A", "10.0.0.1"), record("r2", "A", "10.0.0.3")],
    });
    assert_eq!(
        cycle.step(Reply::Failed(CycleError::Provider)),
        get("https://hc-ping.com/abc/2", false)
    );
    assert_eq!(
        cycle.step(Reply::Ping),
        Action::Finish(CycleOutcome::Failure(CycleError::Provider))
    );
}

#[test]
fn failed_start_ping_does_not_stop_the_cycle() {
    let (mut cycle, _) = Cycle::start(settings());
    assert_eq!(cycle.step(Reply::Failed(CycleError::Network)), get("https://api.ipify.org", false));
    assert_eq!(cycle.phase, Phase::AwaitAddress);
}

#[test]
fn address_is_trimmed_before_use() {
    let mut cycle = cycle_at_records(" 10.0.0.2\n", vec![zone("z1")]);
    assert_eq!(cycle.address, "10.0.0.2");
    assert_eq!(
        cycle.step(Reply::Records { success: true, records: vec![record("r1", "A", "10.0.0.2")] }),
        get("https://hc-ping.com/abc/0", false)
    );
}

#[test]
fn advance_without_body_fails_the_address() {
    let (mut cycle, _) = Cycle::start(settings());
    cycle.step(Reply::Ping);
    assert_eq!(
        cycle.advance(Reply::Address(String::from("10.0.0.2")), None),
        get("https://hc-ping.com/abc/3", false)
    );
}

#[test]
fn states_that_the_machine_hands_out_are_well_formed() {
    let (mut cycle, _) = Cycle::start(settings());
    assert!(cycle.is_wf());
    cycle.step(Reply::Ping);
    cycle.step(Reply::Address(String::from("10.0.0.2")));
    cycle.step(Reply::Zones { success: true, zones: vec![zone("z1")] });
    assert!(cycle.is_wf());
    cycle.step(Reply::Records { success: true, records: vec![record("r1", "A", "10.0.0.1")] });
    assert!(cycle.is_wf());
    assert_eq!(cycle.phase, Phase::AwaitPatch);
    cycle.queue.clear();
    assert!(!cycle.is_wf());
}

#[test]
fn reply_of_another_kind_fails_the_cycle() {
    let (mut cycle, _) = Cycle::start(settings());
    cycle.step(Reply::Ping);
    cycle.step(Reply::Address(String::from("10.0.0.2")));
    assert_eq!(cycle.step(Reply::Patched), get("https://hc-ping.com/abc/2", false));
    let (mut cycle, _) = Cycle::start(settings());
    cycle.step(Reply::Ping);
    assert_eq!(cycle.step(Reply::Patched), get("https://hc-ping.com/abc/3", false));
}
