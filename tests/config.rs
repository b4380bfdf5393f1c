use gandi_live_dns::config::{default_ttl, default_types, validate_config, Config, ConfigError, Entry, IPSourceName};
use gandi_live_dns::opts::Opts;

fn entry(name: &str, types: &[&str]) -> Entry {
    Entry {
        name: name.to_string(),
        types: types.iter().map(|t| t.to_string()).collect(),
        fqdn: None,
        ttl: None,
    }
}

fn config(entries: Vec<Entry>) -> Config {
    Config {
        fqdn: "example.com".to_string(),
        api_key: "yyy".to_string(),
        ip_source: IPSourceName::default(),
        entry: entries,
        ttl: default_ttl(),
        always_update: false,
    }
}

#[test]
fn defaults_are_a_records_ttl_300_and_ipify() {
    assert_eq!(default_types(), vec!["A".to_string()]);
    assert_eq!(default_ttl(), 300);
    assert_eq!(IPSourceName::default(), IPSourceName::Ipify);
}

#[test]
fn entry_without_overrides_takes_config_values() {
    let conf = config(vec![entry("www", &["A"])]);
    assert_eq!(Config::fqdn(&conf.entry[0], &conf), "example.com");
    assert_eq!(Config::ttl(&conf.entry[0], &conf), 300);
}

#[test]
fn entry_overrides_win() {
    let mut e = entry("www", &["A", "AAAA"]);
    e.fqdn = Some("example.org".to_string());
    e.ttl = Some(1200);
    let conf = config(vec![e]);
    assert_eq!(Config::fqdn(&conf.entry[0], &conf), "example.org");
    assert_eq!(Config::ttl(&conf.entry[0], &conf), 1200);
    assert_eq!(Config::types(&conf.entry[0]), vec!["A", "AAAA"]);
}

#[test]
fn skip_ipv4_keeps_only_aaaa() {
    let mut conf = config(vec![entry("www", &["A", "AAAA"]), entry("@", &["A", "AAAA"])]);
    let opts = Opts { skip_ipv4: true, ..Opts::default() };
    conf.apply_opts(&opts);
    assert_eq!(conf.fqdn, "example.com");
    assert_eq!(conf.api_key, "yyy");
    assert_eq!(conf.entry.len(), 2);
    assert_eq!(conf.entry[0].name, "www");
    assert_eq!(conf.entry[0].types, vec!["AAAA".to_string()]);
    assert_eq!(conf.entry[1].name, "@");
    assert_eq!(conf.entry[1].types, vec!["AAAA".to_string()]);
}

#[test]
fn skip_ipv6_keeps_only_a() {
    let mut conf = config(vec![entry("www", &["A", "AAAA"]), entry("@", &["A", "AAAA"])]);
    let opts = Opts { skip_ipv6: true, ..Opts::default() };
    conf.apply_opts(&opts);
    assert_eq!(conf.entry.len(), 2);
    assert_eq!(conf.entry[0].types, vec!["A".to_string()]);
    assert_eq!(conf.entry[1].types, vec!["A".to_string()]);
}

#[test]
fn no_skip_keeps_every_type() {
    let mut conf = config(vec![entry("www", &["A", "AAAA", "CNAME"])]);
    conf.apply_opts(&Opts::default());
    assert_eq!(conf.entry[0].types, vec!["A".to_string(), "AAAA".to_string(), "CNAME".to_string()]);
}

#[test]
fn skipping_both_families_leaves_entries_empty() {
    let mut conf = config(vec![entry("www", &["A"]), entry("@", &["A", "AAAA"])]);
    let opts = Opts { skip_ipv4: true, skip_ipv6: true, ..Opts::default() };
    conf.apply_opts(&opts);
    assert!(conf.entry[0].types.is_empty());
    assert!(conf.entry[1].types.is_empty());
    assert_eq!(validate_config(&conf), Ok(()));
}

#[test]
fn validate_accepts_address_types() {
    let conf = config(vec![entry("www", &["A", "AAAA"]), entry("@", &["A"])]);
    assert_eq!(validate_config(&conf), Ok(()));
}

#[test]
fn validate_reports_first_bad_type() {
    let conf = config(vec![entry("www", &["A"]), entry("mail", &["MX", "TXT"]), entry("@", &["CNAME"])]);
    assert_eq!(
        validate_config(&conf),
        Err(ConfigError::Validation("mail".to_string(), "MX".to_string()))
    );
}
