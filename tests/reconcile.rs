use cloudflareddns::address::AddressFamily;
use cloudflareddns::config::Config;
use cloudflareddns::cycle::{
    after_cycle, records_reply, write_outcome, Action, AfterCycle, Cycle, CycleError, Stage,
};
use cloudflareddns::discover::DiscoveryError;
use cloudflareddns::http::{Method, Reply};
use cloudflareddns::json::Json;
use cloudflareddns::provider::{
    decide, decision_in, record_body, records_query, resolve_zone_reply, write_request,
    zone_id_in, zone_query, Decision, ExistingRecord, Outcome, ProviderError,
};

fn ok(body: &str) -> Reply {
    Reply::Received { status: 200, body: body.to_string() }
}

fn record(id: &str, content: &str) -> ExistingRecord {
    ExistingRecord { id: id.to_string(), content: content.to_string() }
}

#[test]
fn zone_lookup_url() {
    let q = zone_query("example.com");
    assert_eq!(q.method, Method::Get);
    assert_eq!(q.url, "https://api.cloudflare.com/client/v4/zones?name=example.com");
    assert!(q.body.is_none());
}

#[test]
fn record_lookup_url() {
    let q = records_query("z1", "home", AddressFamily::V6);
    assert_eq!(q.method, Method::Get);
    assert_eq!(
        q.url,
        "https://api.cloudflare.com/client/v4/zones/z1/dns_records?name=home&type=AAAA"
    );
}

#[test]
fn record_body_is_json_with_fixed_policy() {
    assert_eq!(
        record_body("A", "home", "192.0.2.1"),
        r#"{"type":"A","name":"home","content":"192.0.2.1","ttl":1,"proxied":false}"#
    );
    assert_eq!(
        record_body("A", "a\"b", "x"),
        r#"{"type":"A","name":"a\"b","content":"x","ttl":1,"proxied":false}"#
    );
}

fn obj(fields: Vec<(&str, Json)>) -> Json {
    Json::Object(fields.into_iter().map(|(k, v)| (k.to_string(), v)).collect())
}

fn text(s: &str) -> Json {
    Json::Str(s.to_string())
}

fn listing(items: Vec<Json>) -> Json {
    obj(vec![("result", Json::Array(items))])
}

#[test]
fn empty_zone_list_is_zone_not_found() {
    match zone_id_in("example.com", &listing(vec![])) {
        Err(ProviderError::ZoneNotFound(z)) => assert_eq!(z, "example.com"),
        other => panic!("unexpected {:?}", other),
    }
}

#[test]
fn first_zone_id_is_taken_whatever_the_list_size() {
    let zones = listing(vec![obj(vec![("id", text("z1"))]), obj(vec![("id", text("z2"))]), obj(vec![("id", text("z3"))])]);
    assert_eq!(zone_id_in("example.com", &zones).unwrap(), "z1");
    assert_eq!(zone_id_in("example.com", &listing(vec![obj(vec![("id", text("only"))])])).unwrap(), "only");
    let later_broken = listing(vec![obj(vec![("id", text("z1"))]), obj(vec![("name", text("x"))])]);
    assert_eq!(zone_id_in("example.com", &later_broken).unwrap(), "z1");
    assert!(matches!(
        zone_id_in("example.com", &listing(vec![obj(vec![("id", Json::Null)])])),
        Err(ProviderError::MalformedResponse)
    ));
    assert!(matches!(zone_id_in("example.com", &Json::Array(vec![])), Err(ProviderError::MalformedResponse)));
}

#[test]
fn record_decision_reads_the_first_record_alone() {
    let desired = "192.0.2.1".to_string();
    let same_no_id = listing(vec![obj(vec![("content", text("192.0.2.1"))])]);
    assert!(matches!(decision_in(&same_no_id, &desired), Some(Decision::Unchanged)));
    let differs_later_broken =
        listing(vec![obj(vec![("id", text("r1")), ("content", text("10.0.0.1"))]), obj(vec![])]);
    assert!(matches!(decision_in(&differs_later_broken, &desired), Some(Decision::Update { id }) if id == "r1"));
    assert!(matches!(decision_in(&listing(vec![]), &desired), Some(Decision::Create)));
    let differs_no_id = listing(vec![obj(vec![("content", text("10.0.0.1"))])]);
    assert!(decision_in(&differs_no_id, &desired).is_none());
    assert!(decision_in(&obj(vec![]), &desired).is_none());
}

#[test]
fn zone_reply_errors() {
    let r = resolve_zone_reply("example.com", ok(r#"{"result":[]}"#));
    assert!(matches!(r, Err(ProviderError::ZoneNotFound(_))));
    let r = resolve_zone_reply("example.com", Reply::Received { status: 403, body: String::new() });
    assert!(matches!(r, Err(ProviderError::HttpStatus(403))));
    let r = resolve_zone_reply("example.com", ok("[]"));
    assert!(matches!(r, Err(ProviderError::MalformedResponse)));
    assert!(matches!(
        resolve_zone_reply("example.com", Reply::Unreachable),
        Err(ProviderError::Unreachable)
    ));
    assert_eq!(resolve_zone_reply("example.com", ok(r#"{"result":[{"id":"abc"}]}"#)).unwrap(), "abc");
}

#[test]
fn record_listing_reply_is_decided() {
    let d = "192.0.2.1".to_string();
    assert!(matches!(records_reply(ok(r#"{"result":[]}"#), &d), Ok(Decision::Create)));
    assert!(matches!(
        records_reply(ok(r#"{"result":[{"id":"r1","content":"192.0.2.1"},{"x":1}]}"#), &d),
        Ok(Decision::Unchanged)
    ));
    assert!(matches!(
        records_reply(ok(r#"{"result":[{"id":"r1","content":"10.0.0.9"},{"id":7}]}"#), &d),
        Ok(Decision::Update { id }) if id == "r1"
    ));
    assert!(matches!(records_reply(ok("not json"), &d), Err(ProviderError::MalformedResponse)));
    assert!(matches!(
        records_reply(Reply::Received { status: 500, body: String::new() }, &d),
        Err(ProviderError::HttpStatus(500))
    ));
}

#[test]
fn matching_content_is_left_unchanged() {
    let d = decide(&vec![record("r1", "192.0.2.1")], &"192.0.2.1".to_string());
    assert!(matches!(d, Decision::Unchanged));
    assert!(write_request("z1", "home", AddressFamily::V4, "192.0.2.1", &d).is_none());
}

#[test]
fn missing_record_is_created_with_one_post() {
    let d = decide(&vec![], &"192.0.2.1".to_string());
    assert!(matches!(d, Decision::Create));
    let q = write_request("z1", "home", AddressFamily::V4, "192.0.2.1", &d).unwrap();
    assert_eq!(q.method, Method::Post);
    assert_eq!(q.url, "https://api.cloudflare.com/client/v4/zones/z1/dns_records");
    assert_eq!(
        q.body.unwrap(),
        r#"{"type":"A","name":"home","content":"192.0.2.1","ttl":1,"proxied":false}"#
    );
}

#[test]
fn differing_record_is_updated_with_one_put() {
    let d = decide(&vec![record("r1", "192.0.2.9"), record("r2", "x")], &"192.0.2.1".to_string());
    assert!(matches!(&d, Decision::Update { id } if id == "r1"));
    let q = write_request("z1", "home", AddressFamily::V6, "2001:db8::1", &d).unwrap();
    assert_eq!(q.method, Method::Put);
    assert_eq!(q.url, "https://api.cloudflare.com/client/v4/zones/z1/dns_records/r1");
    assert_eq!(
        q.body.unwrap(),
        r#"{"type":"AAAA","name":"home","content":"2001:db8::1","ttl":1,"proxied":false}"#
    );
}

#[test]
fn content_comparison_is_case_sensitive() {
    let d = decide(&vec![record("r1", "2001:DB8::1")], &"2001:db8::1".to_string());
    assert!(matches!(d, Decision::Update { .. }));
}

#[test]
fn reconciling_twice_writes_once() {
    let desired = "192.0.2.1".to_string();
    let mut stored: Vec<ExistingRecord> = vec![];
    let first = decide(&stored, &desired);
    assert!(write_request("z", "home", AddressFamily::V4, &desired, &first).is_some());
    stored.push(record("new", &desired));
    let second = decide(&stored, &desired);
    assert!(matches!(second, Decision::Unchanged));
    assert!(write_request("z", "home", AddressFamily::V4, &desired, &second).is_none());
}

#[test]
fn write_outcomes() {
    assert!(matches!(
        write_outcome(&Decision::Create, ok(r#"{"id":"n"}"#)),
        Ok(Outcome::Created { record }) if record == r#"{"id":"n"}"#
    ));
    let up = Decision::Update { id: "r".to_string() };
    assert!(matches!(write_outcome(&up, ok("{}")), Ok(Outcome::Updated { record }) if record == "{}"));
    assert!(matches!(
        write_outcome(&up, Reply::Received { status: 400, body: String::new() }),
        Err(ProviderError::HttpStatus(400))
    ));
}

/// Runs one cycle against scripted provider answers; returns the actions taken.
fn drive(config: Config, ipv4: &str, listing: &str) -> (Vec<String>, Option<Result<(), CycleError>>, Cycle) {
    let (mut cycle, mut action) = Cycle::start(config);
    let mut log = vec![];
    loop {
        let reply = match &action {
            Action::Discover { family, url } => {
                log.push(format!("discover {:?} {}", family, url));
                ok(ipv4)
            }
            Action::Send(q) => {
                log.push(format!("{:?} {}", q.method, q.url));
                if q.url.contains("/zones?name=") {
                    ok(r#"{"result":[{"id":"zid"}]}"#)
                } else if q.method == Method::Get {
                    ok(listing)
                } else {
                    ok("{}")
                }
            }
            Action::Finish(_) => break,
        };
        action = cycle.on_reply(reply);
    }
    let end = match action {
        Action::Finish(r) => Some(r),
        _ => None,
    };
    (log, end, cycle)
}

#[test]
fn two_hosts_with_a_records_make_one_discovery_two_lookups_two_reconciliations() {
    let config =
        Config::from_settings("A", "home;office", "example.com;example.org", "0", None, None).unwrap();
    let (log, end, cycle) = drive(config, "192.0.2.1", r#"{"result":[]}"#);
    assert!(matches!(end, Some(Ok(()))));
    assert!(cycle.is_done());
    assert_eq!(log.iter().filter(|l| l.starts_with("discover")).count(), 1);
    assert_eq!(log.iter().filter(|l| l.contains("/zones?name=")).count(), 2);
    assert_eq!(log.iter().filter(|l| l.contains("dns_records?name=")).count(), 2);
    assert!(log[1].ends_with("zones?name=example.com"));
    assert!(log[2].ends_with("dns_records?name=home&type=A"));
    assert!(log.iter().any(|l| l.ends_with("zones?name=example.org")));
    assert!(log.iter().any(|l| l.ends_with("dns_records?name=office&type=A")));
    let reports = cycle.reports();
    assert_eq!(reports.len(), 2);
    assert_eq!(reports[0].host, "home");
    assert_eq!(reports[1].host, "office");
    assert!(matches!(reports[0].result, Ok(Outcome::Created { .. })));
}

#[test]
fn invalid_discovered_address_ends_the_cycle_before_any_provider_call() {
    let config = Config::from_settings("A", "home", "example.com", "0", None, None).unwrap();
    let (log, end, cycle) = drive(config, "not-an-ip", r#"{"result":[]}"#);
    assert_eq!(log.len(), 1);
    assert!(matches!(
        end,
        Some(Err(CycleError::Discovery(DiscoveryError::InvalidAddress(ref b)))) if b == "not-an-ip"
    ));
    assert!(cycle.reports().is_empty());
}

#[test]
fn record_already_correct_needs_no_write() {
    let config = Config::from_settings("A", "home", "example.com", "0", None, None).unwrap();
    let (log, end, cycle) =
        drive(config, "192.0.2.1", r#"{"result":[{"id":"r1","content":"192.0.2.1"}]}"#);
    assert!(matches!(end, Some(Ok(()))));
    assert!(!log.iter().any(|l| l.starts_with("Post") || l.starts_with("Put")));
    assert!(matches!(cycle.reports()[0].result, Ok(Outcome::Unchanged)));
}

#[test]
fn failed_write_is_reported_and_the_cycle_goes_on() {
    let config =
        Config::from_settings("A;AAAA", "home;office", "example.com;example.org", "0", None, None).unwrap();
    let (mut cycle, mut action) = Cycle::start(config);
    let mut writes = 0;
    loop {
        let reply = match &action {
            Action::Discover { family: AddressFamily::V4, .. } => ok("192.0.2.1"),
            Action::Discover { family: AddressFamily::V6, .. } => ok("2001:db8::1"),
            Action::Send(q) if q.url.contains("/zones?name=") => ok(r#"{"result":[{"id":"zid"}]}"#),
            Action::Send(q) if q.method == Method::Get => ok(r#"{"result":[{"id":"r","content":"old"}]}"#),
            Action::Send(_) => {
                writes += 1;
                Reply::Received { status: 500, body: String::new() }
            }
            Action::Finish(_) => break,
        };
        action = cycle.on_reply(reply);
    }
    assert!(matches!(action, Action::Finish(Ok(()))));
    assert_eq!(writes, 4);
    let reports = cycle.reports();
    assert_eq!(reports.len(), 4);
    assert_eq!(reports[1].family, AddressFamily::V6);
    assert!(reports.iter().all(|r| matches!(r.result, Err(ProviderError::HttpStatus(500)))));
}

#[test]
fn zone_not_found_ends_the_cycle() {
    let config = Config::from_settings("A", "home", "example.com", "0", None, None).unwrap();
    let (mut cycle, _) = Cycle::start(config);
    let a = cycle.on_reply(ok("192.0.2.1"));
    assert!(matches!(a, Action::Send(_)));
    let a = cycle.on_reply(ok(r#"{"result":[]}"#));
    assert!(matches!(a, Action::Finish(Err(CycleError::Provider(ProviderError::ZoneNotFound(_))))));
}

#[test]
fn record_body_escapes_control_characters() {
    assert_eq!(
        record_body("A", "a\nb\t\u{1}\\", "x"),
        r#"{"type":"A","name":"a\nb\t\u0001\\","content":"x","ttl":1,"proxied":false}"#
    );
}

#[test]
fn malformed_first_entries_are_reported() {
    let d = "x".to_string();
    assert!(matches!(
        records_reply(ok(r#"{"result":[{"id":7,"content":"y"}]}"#), &d),
        Err(ProviderError::MalformedResponse)
    ));
    assert!(matches!(
        resolve_zone_reply("example.com", ok(r#"{"result":[{"id":7}]}"#)),
        Err(ProviderError::MalformedResponse)
    ));
    assert_eq!(
        resolve_zone_reply("example.com", ok(r#"{"result":[{"id":"z1"},{"name":"x"}]}"#)).unwrap(),
        "z1"
    );
}

#[test]
fn cycle_starts_in_the_stage_of_the_first_kept_family() {
    let c = Config::from_settings("A", "h", "z", "0", None, None).unwrap();
    let (cycle, _) = Cycle::start(c);
    assert_eq!(cycle.stage, Stage::DiscoverV4);
    let c = Config::from_settings("AAAA", "h", "z", "0", None, None).unwrap();
    let (cycle, _) = Cycle::start(c);
    assert_eq!(cycle.stage, Stage::DiscoverV6);
    let c = Config::from_settings("MX", "h", "z", "0", None, None).unwrap();
    let (cycle, action) = Cycle::start(c);
    assert_eq!(cycle.stage, Stage::Zone);
    assert!(matches!(action, Action::Send(q) if q.url.ends_with("zones?name=z")));
}

#[test]
fn after_a_cycle_run_once_or_repeat() {
    assert_eq!(after_cycle(0, true), AfterCycle::Stop);
    assert_eq!(after_cycle(0, false), AfterCycle::Fail);
    assert_eq!(after_cycle(60, false), AfterCycle::Sleep(60));
    assert_eq!(after_cycle(60, true), AfterCycle::Sleep(60));
}
