use gandi_live_dns::config::{Config, Entry, IPSourceName};
use gandi_live_dns::engine::{cycle_succeeded, merge_outcomes, needs_update, plan_cycle, requests_of, succeeded_count, PlannedUpdate};
use gandi_live_dns::errors::{ApiError, ClientError};
use gandi_live_dns::gandi::HttpReply;

fn ok(s: &str) -> Result<String, String> {
    Ok(s.to_string())
}

fn err(s: &str) -> Result<String, String> {
    Err(s.to_string())
}

fn some(s: &str) -> Option<String> {
    Some(s.to_string())
}

fn config(entries: Vec<Entry>) -> Config {
    Config {
        fqdn: "example.com".to_string(),
        api_key: "xxx".to_string(),
        ip_source: IPSourceName::Ipify,
        entry: entries,
        ttl: 300,
        always_update: false,
    }
}

fn entry(name: &str, types: &[&str]) -> Entry {
    Entry { name: name.to_string(), types: types.iter().map(|t| t.to_string()).collect(), fqdn: None, ttl: None }
}

#[test]
fn first_cycle_needs_update() {
    assert!(needs_update(&None, &None, &ok("1.2.3.4"), &ok("::1"), false));
}

#[test]
fn unchanged_addresses_skip() {
    assert!(!needs_update(&some("1.2.3.4"), &some("::1"), &ok("1.2.3.4"), &ok("::1"), false));
}

#[test]
fn changed_ipv4_needs_update() {
    assert!(needs_update(&some("1.2.3.4"), &some("::1"), &ok("1.2.3.5"), &ok("::1"), false));
}

#[test]
fn always_update_forces_update() {
    assert!(needs_update(&some("1.2.3.4"), &some("::1"), &ok("1.2.3.4"), &ok("::1"), true));
    assert!(needs_update(&None, &None, &err("down"), &err("down"), true));
}

#[test]
fn both_lookups_failing_skip() {
    assert!(!needs_update(&some("1.2.3.4"), &some("::1"), &err("down"), &err("down"), false));
    assert!(!needs_update(&None, &None, &err("down"), &err("down"), false));
}

#[test]
fn ipv6_unavailable_throughout_skips_once_published() {
    assert!(!needs_update(&some("1.2.3.4"), &None, &ok("1.2.3.4"), &err("no route"), false));
}

#[test]
fn address_gone_missing_counts_as_change() {
    assert!(needs_update(&some("1.2.3.4"), &some("::1"), &ok("1.2.3.4"), &err("no route"), false));
}

#[test]
fn plan_covers_each_entry_and_type_in_order() {
    let mut www = entry("www", &["A", "AAAA"]);
    www.ttl = Some(1200);
    www.fqdn = Some("example.org".to_string());
    let conf = config(vec![www, entry("@", &["A"])]);
    let plan = plan_cycle(&conf, "https://api.gandi.net", &ok("192.168.0.0"), &ok("fe80::1"));
    assert_eq!(plan.len(), 3);
    let reqs = requests_of(&plan);
    assert_eq!(reqs.len(), 3);
    assert_eq!(reqs[0].url, "https://api.gandi.net/v5/livedns/domains/example.org/records/www/A");
    assert_eq!(reqs[0].payload.rrset_values, vec!["192.168.0.0".to_string()]);
    assert_eq!(reqs[0].payload.rrset_ttl, 1200);
    assert_eq!(reqs[1].url, "https://api.gandi.net/v5/livedns/domains/example.org/records/www/AAAA");
    assert_eq!(reqs[1].payload.rrset_values, vec!["fe80::1".to_string()]);
    assert_eq!(reqs[1].entry_type, "AAAA");
    assert_eq!(reqs[2].url, "https://api.gandi.net/v5/livedns/domains/example.com/records/@/A");
    assert_eq!(reqs[2].fqdn, "example.com");
    assert_eq!(reqs[2].entry_name, "@");
    assert_eq!(reqs[2].payload.rrset_ttl, 300);
}

#[test]
fn missing_address_fails_without_call() {
    let conf = config(vec![entry("www", &["A", "AAAA"])]);
    let plan = plan_cycle(&conf, "http://h", &ok("1.2.3.4"), &err("no route"));
    assert_eq!(plan.len(), 2);
    assert!(matches!(plan[0], PlannedUpdate::Send(_)));
    match &plan[1] {
        PlannedUpdate::Missing(f) => {
            assert_eq!(f.entry_name, "www");
            assert_eq!(f.entry_type, "AAAA");
            assert_eq!(f.response, Err(ClientError::Ipv6missing("www".to_string(), "no route".to_string())));
        }
        PlannedUpdate::Send(_) => panic!("a failed lookup must not produce a call"),
    }
    assert_eq!(requests_of(&plan).len(), 1);
}

#[test]
fn missing_ipv4_fails_a_records() {
    let conf = config(vec![entry("@", &["A"])]);
    let plan = plan_cycle(&conf, "http://h", &err("timeout"), &ok("::1"));
    match &plan[0] {
        PlannedUpdate::Missing(f) => {
            assert_eq!(f.response, Err(ClientError::Ipv4missing("@".to_string(), "timeout".to_string())))
        }
        PlannedUpdate::Send(_) => panic!("a failed lookup must not produce a call"),
    }
}

#[test]
fn unknown_type_fails_as_bad_entry() {
    let conf = config(vec![entry("@", &["MX"])]);
    let plan = plan_cycle(&conf, "http://h", &ok("1.2.3.4"), &ok("::1"));
    match &plan[0] {
        PlannedUpdate::Missing(f) => assert_eq!(f.response, Err(ClientError::BadEntry("MX".to_string()))),
        PlannedUpdate::Send(_) => panic!("an unknown type must not produce a call"),
    }
}

#[test]
fn empty_types_contribute_nothing() {
    let conf = config(vec![entry("www", &[]), entry("@", &["A"])]);
    let plan = plan_cycle(&conf, "http://h", &ok("1.2.3.4"), &ok("::1"));
    assert_eq!(plan.len(), 1);
}

#[test]
fn outcomes_follow_plan_order() {
    let conf = config(vec![entry("www", &["A", "AAAA"]), entry("@", &["A"])]);
    let plan = plan_cycle(&conf, "http://h", &ok("1.2.3.4"), &err("no route"));
    let replies = vec![
        Ok(HttpReply { status: 201, message: Ok("created".to_string()) }),
        Ok(HttpReply { status: 403, message: Ok("denied".to_string()) }),
    ];
    let outcomes = merge_outcomes(plan, &replies);
    assert_eq!(outcomes.len(), 3);
    assert_eq!(outcomes[0].entry_name, "www");
    assert_eq!(outcomes[0].response, Ok("created".to_string()));
    assert_eq!(outcomes[1].entry_type, "AAAA");
    assert_eq!(outcomes[1].response, Err(ClientError::Ipv6missing("www".to_string(), "no route".to_string())));
    assert_eq!(outcomes[2].entry_name, "@");
    assert_eq!(outcomes[2].response, Err(ClientError::Api(ApiError::Forbidden { message: "denied".to_string() })));
    assert!(!cycle_succeeded(&outcomes));
    assert_eq!(succeeded_count(&outcomes), 1);
}

#[test]
fn all_created_is_cycle_success() {
    let conf = config(vec![entry("www", &["A"]), entry("@", &["A"])]);
    let plan = plan_cycle(&conf, "http://h", &ok("1.2.3.4"), &ok("::1"));
    let replies = vec![
        Ok(HttpReply { status: 201, message: Ok("".to_string()) }),
        Ok(HttpReply { status: 201, message: Ok("".to_string()) }),
    ];
    let outcomes = merge_outcomes(plan, &replies);
    assert!(cycle_succeeded(&outcomes));
    assert_eq!(succeeded_count(&outcomes), 2);
}

#[test]
fn no_outcomes_is_success() {
    assert!(cycle_succeeded(&Vec::new()));
    assert_eq!(succeeded_count(&Vec::new()), 0);
}
