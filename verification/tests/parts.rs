use pmddns::address::parse_address;
use pmddns::endpoints::{
    address_request, credentials_usable, decimal, email_header, failure_status, frame_patch_body, key_header,
    patch_body, patch_request, ping_request, records_request, zones_request,
};
use pmddns::model::{CycleError, CycleOutcome, DnsRecord, Method, Settings};
use pmddns::cycle::Reply;
use pmddns::model::Zone;
use pmddns::plan::{needs_patch, plan_patches};
use pmddns::replies::{
    address_reply, patch_reply, ping_arrived, ping_reply, records_reply, status_ok, zones_reply,
};
use pmddns::schedule::Runner;

fn settings() -> Settings {
    Settings::new(String::from("abc"), String::from("e@x.com"), String::from("K"))
}

fn record(id: &str, kind: &str, content: &str) -> DnsRecord {
    DnsRecord {
        id: String::from(id),
        kind: String::from(kind),
        name: String::from("n"),
        content: String::from(content),
    }
}

#[test]
fn parse_address_accepts_dotted_quads() {
    assert_eq!(parse_address("203.0.113.9"), Ok(String::from("203.0.113.9")));
    assert_eq!(parse_address("0.0.0.0"), Ok(String::from("0.0.0.0")));
    assert_eq!(parse_address("255.255.255.255"), Ok(String::from("255.255.255.255")));
}

#[test]
fn parse_address_trims_blanks() {
    assert_eq!(parse_address("  1.2.3.4\r\n"), Ok(String::from("1.2.3.4")));
    assert_eq!(parse_address("\t1.2.3.4 "), Ok(String::from("1.2.3.4")));
}

#[test]
fn parse_address_rejects_what_is_no_address() {
    for body in [
        "", "   ", "1.2.3", "1.2.3.4.5", "256.1.1.1", "1.2.3.256", "1..2.3", ".1.2.3", "1.2.3.",
        "1.2.3.4x", "a.b.c.d", "1.2 .3.4", "1234.1.1.1", "::1", "1.2.3.\u{663}", "\u{a0}1.2.3.4",
    ] {
        assert_eq!(parse_address(body), Err(CycleError::Resolution), "{:?}", body);
    }
}

#[test]
fn decimal_writes_numerals() {
    assert_eq!(decimal(0), "0");
    assert_eq!(decimal(9), "9");
    assert_eq!(decimal(10), "10");
    assert_eq!(decimal(99), "99");
    assert_eq!(decimal(100), "100");
    assert_eq!(decimal(207), "207");
    assert_eq!(decimal(255), "255");
}

#[test]
fn failure_status_is_never_zero() {
    assert_eq!(failure_status(CycleError::Network), 1);
    assert_eq!(failure_status(CycleError::Provider), 2);
    assert_eq!(failure_status(CycleError::Resolution), 3);
}

#[test]
fn ping_urls() {
    let s = settings();
    assert_eq!(ping_request(&s, CycleOutcome::Started).url, "https://hc-ping.com/abc/start");
    assert_eq!(ping_request(&s, CycleOutcome::Success(0)).url, "https://hc-ping.com/abc/0");
    assert_eq!(ping_request(&s, CycleOutcome::Success(17)).url, "https://hc-ping.com/abc/17");
    assert_eq!(
        ping_request(&s, CycleOutcome::Failure(CycleError::Resolution)).url,
        "https://hc-ping.com/abc/3"
    );
    let ping = ping_request(&s, CycleOutcome::Started);
    assert_eq!(ping.method, Method::Get);
    assert!(!ping.authenticated);
    assert_eq!(ping.body, None);
}

#[test]
fn provider_requests() {
    assert_eq!(address_request().url, "https://api.ipify.org");
    assert!(!address_request().authenticated);
    let zones = zones_request();
    assert_eq!(zones.url, "https://api.cloudflare.com/client/v4/zones/");
    assert!(zones.authenticated);
    let records = records_request("z1");
    assert_eq!(records.url, "https://api.cloudflare.com/client/v4/zones/z1/dns_records");
    assert_eq!(records.method, Method::Get);
    let patch = patch_request("z1", "r1", "{}");
    assert_eq!(patch.url, "https://api.cloudflare.com/client/v4/zones/z1/dns_records/r1");
    assert_eq!(patch.method, Method::Patch);
    assert_eq!(patch.body, Some(String::from("{}")));
    assert!(patch.authenticated);
}

#[test]
fn patch_body_is_a_json_object() {
    assert_eq!(patch_body("203.0.113.9"), Ok(String::from("{\"content\":\"203.0.113.9\"}")));
    assert_eq!(patch_body("a\"b"), Ok(String::from("{\"content\":\"a\\\"b\"}")));
    let parsed: serde_json::Value = serde_json::from_str(&patch_body("1.2.3.4").unwrap()).unwrap();
    assert_eq!(parsed.get("content").and_then(|v| v.as_str()), Some("1.2.3.4"));
}

#[test]
fn frame_patch_body_wraps_the_text() {
    assert_eq!(frame_patch_body("\"x\""), "{\"content\":\"x\"}");
    assert_eq!(frame_patch_body(""), "{\"content\":}");
}

#[test]
fn credential_headers() {
    let s = settings();
    let key = key_header(&s);
    assert_eq!(key.name, "X-Auth-Key");
    assert_eq!(key.value, "K");
    let email = email_header(&s);
    assert_eq!(email.name, "X-Auth-Email");
    assert_eq!(email.value, "e@x.com");
}

#[test]
fn needs_patch_only_for_stale_a_records() {
    let address = String::from("1.2.3.2");
    assert!(needs_patch(&record("r", "A", "1.2.3.1"), &address));
    assert!(!needs_patch(&record("r", "A", "1.2.3.2"), &address));
    assert!(!needs_patch(&record("r", "AAAA", "1.2.3.1"), &address));
    assert!(!needs_patch(&record("r", "CNAME", "example.org"), &address));
    assert!(!needs_patch(&record("r", "a", "1.2.3.1"), &address));
}

#[test]
fn plan_patches_keeps_the_order() {
    let address = String::from("1.2.3.2");
    let records = vec![
        record("r1", "A", "1.2.3.1"),
        record("r2", "AAAA", "::1"),
        record("r3", "A", "1.2.3.2"),
        record("r4", "A", "9.9.9.9"),
        record("r5", "MX", "mail"),
    ];
    assert_eq!(plan_patches(&records, &address), vec![String::from("r1"), String::from("r4")]);
    assert_eq!(plan_patches(&vec![], &address), Vec::<String>::new());
}

#[test]
fn runner_runs_once_for_each_tick() {
    let mut runner = Runner::new();
    let mut runs = 0;
    for _ in 0..25 {
        assert!(runner.tick());
        assert!(runner.begin());
        assert!(runner.running);
        assert!(!runner.begin());
        runs += 1;
        runner.finish();
        assert!(!runner.begin());
    }
    assert_eq!(runs, 25);
    assert_eq!(runner, Runner { pending: 0, running: false });
}

#[test]
fn runner_queues_ticks_that_arrive_during_a_cycle() {
    let mut runner = Runner::new();
    assert!(!runner.begin());
    runner.tick();
    assert!(runner.begin());
    runner.tick();
    runner.tick();
    assert!(!runner.begin());
    assert_eq!(runner.pending, 2);
    runner.finish();
    assert!(runner.begin());
    runner.finish();
    assert!(runner.begin());
    runner.finish();
    assert!(!runner.begin());
}

#[test]
fn runner_loses_a_tick_when_the_counter_is_full() {
    let mut runner = Runner { pending: u64::MAX, running: false };
    assert!(!runner.tick());
    assert_eq!(runner.pending, u64::MAX);
}

#[test]
fn status_ok_is_the_two_hundreds() {
    assert!(!status_ok(199));
    assert!(status_ok(200));
    assert!(status_ok(204));
    assert!(status_ok(299));
    assert!(!status_ok(300));
    assert!(!status_ok(404));
    assert!(!status_ok(0));
}

#[test]
fn address_reply_needs_a_good_status_and_a_body() {
    assert_eq!(
        address_reply(Some(200), Some(String::from("1.2.3.4"))),
        Reply::Address(String::from("1.2.3.4"))
    );
    assert_eq!(
        address_reply(Some(503), Some(String::from("1.2.3.4"))),
        Reply::Failed(CycleError::Network)
    );
    assert_eq!(address_reply(Some(200), None), Reply::Failed(CycleError::Network));
    assert_eq!(
        address_reply(None, Some(String::from("1.2.3.4"))),
        Reply::Failed(CycleError::Network)
    );
    assert_eq!(address_reply(None, None), Reply::Failed(CycleError::Network));
}

#[test]
fn provider_replies_need_a_good_status_and_an_envelope() {
    let zones = vec![Zone { id: String::from("z1"), name: String::from("example.org") }];
    assert_eq!(
        zones_reply(Some(200), Some((true, zones.clone()))),
        Reply::Zones { success: true, zones: zones.clone() }
    );
    assert_eq!(
        zones_reply(Some(200), Some((false, vec![]))),
        Reply::Zones { success: false, zones: vec![] }
    );
    assert_eq!(
        zones_reply(Some(403), Some((true, zones.clone()))),
        Reply::Failed(CycleError::Provider)
    );
    assert_eq!(zones_reply(Some(200), None), Reply::Failed(CycleError::Provider));
    assert_eq!(zones_reply(None, None), Reply::Failed(CycleError::Network));
    assert_eq!(zones_reply(None, Some((true, zones))), Reply::Failed(CycleError::Network));
    let records = vec![record("r1", "A", "1.2.3.4")];
    assert_eq!(
        records_reply(Some(200), Some((true, records.clone()))),
        Reply::Records { success: true, records: records.clone() }
    );
    assert_eq!(
        records_reply(Some(500), Some((true, records))),
        Reply::Failed(CycleError::Provider)
    );
    assert_eq!(records_reply(Some(200), None), Reply::Failed(CycleError::Provider));
    assert_eq!(records_reply(None, None), Reply::Failed(CycleError::Network));
    assert_eq!(patch_reply(Some(200)), Reply::Patched);
    assert_eq!(patch_reply(Some(400)), Reply::Failed(CycleError::Provider));
    assert_eq!(patch_reply(None), Reply::Failed(CycleError::Network));
}

#[test]
fn ping_never_fails_the_cycle() {
    assert_eq!(ping_reply(Some(200)), Reply::Ping);
    assert_eq!(ping_reply(Some(500)), Reply::Ping);
    assert_eq!(ping_reply(None), Reply::Ping);
    assert!(ping_arrived(Some(200)));
    assert!(ping_arrived(Some(299)));
    assert!(!ping_arrived(Some(404)));
    assert!(!ping_arrived(None));
}

#[test]
fn patch_body_escapes_what_json_cannot_hold() {
    assert_eq!(patch_body("a\\b"), Ok(String::from("{\"content\":\"a\\\\b\"}")));
    assert_eq!(patch_body("a\nb"), Ok(String::from("{\"content\":\"a\\nb\"}")));
    assert_eq!(patch_body(""), Ok(String::from("{\"content\":\"\"}")));
    assert_eq!(patch_body("caf\u{e9} \u{7f}"), Ok(String::from("{\"content\":\"caf\u{e9} \u{7f}\"}")));
}

#[test]
fn parse_address_trims_every_ascii_blank() {
    assert_eq!(parse_address("\u{c}1.2.3.4\u{b}"), Ok(String::from("1.2.3.4")));
    assert_eq!(parse_address(" \t\n\u{b}\u{c}\r9.8.7.6\r\u{c}\u{b}\n\t "), Ok(String::from("9.8.7.6")));
    assert_eq!(parse_address("1.2.3.4\u{2003}"), Err(CycleError::Resolution));
    assert_eq!(parse_address("1.2.3.4\u{8}"), Err(CycleError::Resolution));
}

#[test]
fn credentials_must_fit_a_header() {
    assert!(credentials_usable(&settings()));
    let with = |key: &str, email: &str| {
        Settings::new(String::from("abc"), String::from(email), String::from(key))
    };
    assert!(credentials_usable(&with("key with\ttab", "e@x.com")));
    assert!(credentials_usable(&with("cl\u{e9}", "e@x.com")));
    assert!(credentials_usable(&with("", "")));
    assert!(!credentials_usable(&with("line\nbreak", "e@x.com")));
    assert!(!credentials_usable(&with("K", "e@x.com\r")));
    assert!(!credentials_usable(&with("K\u{7f}", "e@x.com")));
    assert!(!credentials_usable(&with("\u{0}", "e@x.com")));
}
