use vstd::prelude::*;

use crate::opts::Opts;

verus! {

/// The record type of an IPv4 address record.
pub open spec fn type_a() -> Seq<char> {
    "A"@
}

/// The record type of an IPv6 address record.
pub open spec fn type_aaaa() -> Seq<char> {
    "AAAA"@
}

/// The only record types this client knows how to update.
pub open spec fn is_address_type(t: Seq<char>) -> bool {
    t == type_a() || t == type_aaaa()
}

/// Whether `a` holds exactly the text `lit`.
pub(crate) fn same_text(a: &String, lit: &str) -> (r: bool)
    ensures
        r == (a@ == lit@),
{
    let b = lit.to_owned();
    a.eq(&b)
}

/// The record types an entry updates when its configuration names none.
pub fn default_types() -> (r: Vec<String>)
    ensures
        r.deep_view() == seq![type_a()],
{
    let mut v: Vec<String> = Vec::new();
    v.push(String::from_str("A"));
    assert(v.deep_view() =~= seq![type_a()]);
    v
}

/// Default time-to-live, in seconds, of a record whose entry sets none.
pub fn default_ttl() -> (r: u32)
    ensures
        r == 300,
{
    300
}

/// Errors met while loading or checking the configuration.
#[derive(Debug, Clone, PartialEq, Eq)]
pub enum ConfigError {
    /// The file could not be read; holds the reason.
    Io(String),
    /// The file is not a well-formed configuration; holds the reason.
    Parse(String),
    /// An entry (first field) names a record type (second field) other than "A" or "AAAA".
    Validation(String, String),
    /// No configuration directory could be determined.
    ConfigNotFound(),
}

/// What a [`ConfigError`] holds, as plain values.
pub enum ConfigErrorView {
    Io(Seq<char>),
    Parse(Seq<char>),
    Validation(Seq<char>, Seq<char>),
    ConfigNotFound,
}

impl View for ConfigError {
    type V = ConfigErrorView;

    open spec fn view(&self) -> ConfigErrorView {
        match self {
            ConfigError::Io(m) => ConfigErrorView::Io(m@),
            ConfigError::Parse(m) => ConfigErrorView::Parse(m@),
            ConfigError::Validation(n, t) => ConfigErrorView::Validation(n@, t@),
            ConfigError::ConfigNotFound() => ConfigErrorView::ConfigNotFound,
        }
    }
}

/// One configured DNS record name with its optional overrides.
#[derive(Debug)]
pub struct Entry {
    /// Record name, such as "@" or "www".
    pub name: String,
    /// Record types to keep up to date ("A", "AAAA").
    pub types: Vec<String>,
    /// Domain of the record, when it differs from the configuration's.
    pub fqdn: Option<String>,
    /// Time-to-live of the record, when it differs from the configuration's.
    pub ttl: Option<u32>,
}

/// What an [`Entry`] holds, as plain values.
pub struct EntryView {
    pub name: Seq<char>,
    pub types: Seq<Seq<char>>,
    pub fqdn: Option<Seq<char>>,
    pub ttl: Option<u32>,
}

impl View for Entry {
    type V = EntryView;

    open spec fn view(&self) -> EntryView {
        EntryView {
            name: self.name@,
            types: self.types.deep_view(),
            fqdn: self.fqdn.deep_view(),
            ttl: self.ttl,
        }
    }
}

/// The provider asked for the machine's public addresses.
#[derive(Debug, Clone, Copy, PartialEq, Eq, Structural)]
pub enum IPSourceName {
    Ipify,
    Icanhazip,
    SeeIP,
}

impl Default for IPSourceName {
    /// Ipify was the first provider this client had; it stays the default.
    fn default() -> (r: Self)
        ensures
            r == IPSourceName::Ipify,
    {
        IPSourceName::Ipify
    }
}

/// The loaded configuration: API credentials, defaults and entries.
#[derive(Debug)]
pub struct Config {
    /// Domain of every entry that names none of its own.
    pub fqdn: String,
    /// Key sent with each call to the DNS-hosting API.
    pub api_key: String,
    /// Provider of the public addresses.
    pub ip_source: IPSourceName,
    /// The records to keep up to date, in order.
    pub entry: Vec<Entry>,
    /// Time-to-live of every entry that names none of its own.
    pub ttl: u32,
    /// Update on every cycle, even when the addresses did not change.
    pub always_update: bool,
}

/// What a [`Config`] holds, as plain values.
pub struct ConfigView {
    pub fqdn: Seq<char>,
    pub api_key: Seq<char>,
    pub ip_source: IPSourceName,
    pub entries: Seq<EntryView>,
    pub ttl: u32,
    pub always_update: bool,
}

impl View for Config {
    type V = ConfigView;

    open spec fn view(&self) -> ConfigView {
        ConfigView {
            fqdn: self.fqdn@,
            api_key: self.api_key@,
            ip_source: self.ip_source,
            entries: self.entry@.map_values(|e: Entry| e@),
            ttl: self.ttl,
            always_update: self.always_update,
        }
    }
}

/// Domain of an entry: its own if it names one, else the configuration's.
pub open spec fn effective_fqdn(e: EntryView, c: ConfigView) -> Seq<char> {
    match e.fqdn {
        Some(f) => f,
        None => c.fqdn,
    }
}

/// Time-to-live of an entry: its own if it names one, else the configuration's.
pub open spec fn effective_ttl(e: EntryView, c: ConfigView) -> u32 {
    match e.ttl {
        Some(t) => t,
        None => c.ttl,
    }
}

/// Whether the record type `t` survives the command-line exclusions.
pub open spec fn kept(t: Seq<char>, skip_ipv4: bool, skip_ipv6: bool) -> bool {
    !(skip_ipv4 && t == type_a()) && !(skip_ipv6 && t == type_aaaa())
}

/// The entry with the excluded record types taken out, all else kept.
pub open spec fn without_excluded(e: EntryView, skip_ipv4: bool, skip_ipv6: bool) -> EntryView {
    EntryView { types: e.types.filter(|t: Seq<char>| kept(t, skip_ipv4, skip_ipv6)), ..e }
}

/// The configuration with the exclusions applied to every entry.
pub open spec fn config_without_excluded(c: ConfigView, skip_ipv4: bool, skip_ipv6: bool) -> ConfigView {
    ConfigView {
        entries: c.entries.map_values(|e: EntryView| without_excluded(e, skip_ipv4, skip_ipv6)),
        ..c
    }
}

/// Record type `j` of entry `i` is not an address type.
pub open spec fn invalid_at(c: ConfigView, i: int, j: int) -> bool {
    &&& 0 <= i < c.entries.len()
    &&& 0 <= j < c.entries[i].types.len()
    &&& !is_address_type(c.entries[i].types[j])
}

/// Every record type of every entry is "A" or "AAAA".
pub open spec fn config_valid(c: ConfigView) -> bool {
    forall|i: int, j: int| !#[trigger] invalid_at(c, i, j)
}

/// `(i, j)` is the first invalid record type, entries in order, types in order.
pub open spec fn first_invalid(c: ConfigView, i: int, j: int) -> bool {
    &&& invalid_at(c, i, j)
    &&& forall|i2: int, j2: int| #[trigger] invalid_at(c, i2, j2) ==> i < i2 || (i == i2 && j <= j2)
}

/// `e` names entry `i` and its record type `j`.
pub open spec fn reports(e: ConfigError, c: ConfigView, i: int, j: int) -> bool {
    e matches ConfigError::Validation(n, t) && n@ == c.entries[i].name && t@ == c.entries[i].types[j]
}

/// Copy of an optional text.
pub(crate) fn copy_opt(o: &Option<String>) -> (r: Option<String>)
    ensures
        r == *o,
{
    match o {
        Some(s) => Some(s.clone()),
        None => None,
    }
}

/// The record types of `types` that survive the exclusions, in order.
fn retain_types(types: &Vec<String>, skip_ipv4: bool, skip_ipv6: bool) -> (r: Vec<String>)
    ensures
        r.deep_view() == types.deep_view().filter(|t: Seq<char>| kept(t, skip_ipv4, skip_ipv6)),
{
    let ghost pred = |t: Seq<char>| kept(t, skip_ipv4, skip_ipv6);
    let mut r: Vec<String> = Vec::new();
    for i in 0..types.len()
        invariant
            pred == (|t: Seq<char>| kept(t, skip_ipv4, skip_ipv6)),
            r.deep_view() == types.deep_view().take(i as int).filter(pred),
    {
        let t = &types[i];
        let drop = (skip_ipv4 && same_text(t, "A")) || (skip_ipv6 && same_text(t, "AAAA"));
        proof {
            types.deep_view().take(i as int).lemma_filter_push(t@, pred);
            assert(types.deep_view().take(i + 1) =~= types.deep_view().take(i as int).push(t@));
        }
        if !drop {
            r.push(t.clone());
            assert(r.deep_view() =~= types.deep_view().take(i as int).filter(pred).push(t@));
        }
    }
    assert(types.deep_view().take(types.len() as int) =~= types.deep_view());
    r
}

impl Config {
    /// Domain of the entry's records.
    pub fn fqdn<'c>(entry: &'c Entry, config: &'c Config) -> (r: &'c str)
        ensures
            r@ == effective_fqdn(entry@, config@),
    {
        match &entry.fqdn {
            Some(f) => f.as_str(),
            None => config.fqdn.as_str(),
        }
    }

    /// Time-to-live of the entry's records.
    pub fn ttl(entry: &Entry, config: &Config) -> (r: u32)
        ensures
            r == effective_ttl(entry@, config@),
    {
        match entry.ttl {
            Some(t) => t,
            None => config.ttl,
        }
    }

    /// Record types of the entry, in order.
    pub fn types(entry: &Entry) -> (r: Vec<&str>)
        ensures
            r.deep_view() == entry@.types,
    {
        let mut r: Vec<&str> = Vec::new();
        for i in 0..entry.types.len()
            invariant
                r@.len() == i,
                forall|k: int| 0 <= k < i ==> r@[k]@ == entry.types@[k]@,
        {
            r.push(entry.types[i].as_str());
        }
        assert(r.deep_view() =~= entry@.types);
        r
    }

    /// Takes out of every entry the record types that `opts` excludes:
    /// "A" when IPv4 is skipped, "AAAA" when IPv6 is skipped.
    pub fn apply_opts(&mut self, opts: &Opts)
        ensures
            final(self)@ == config_without_excluded(old(self)@, opts.skip_ipv4, opts.skip_ipv6),
    {
        let ghost before = self@;
        let mut entries: Vec<Entry> = Vec::new();
        for i in 0..self.entry.len()
            invariant
                self@ == before,
                entries@.len() == i,
                forall|k: int| 0 <= k < i ==> (#[trigger] entries@[k])@ == without_excluded(
                    before.entries[k],
                    opts.skip_ipv4,
                    opts.skip_ipv6,
                ),
        {
            let e = &self.entry[i];
            let kept_types = retain_types(&e.types, opts.skip_ipv4, opts.skip_ipv6);
            entries.push(Entry { name: e.name.clone(), types: kept_types, fqdn: copy_opt(&e.fqdn), ttl: e.ttl });
        }
        self.entry = entries;
        assert(self@.entries =~= config_without_excluded(before, opts.skip_ipv4, opts.skip_ipv6).entries);
    }
}

/// Checks that every entry names only "A" or "AAAA" record types; else
/// reports the first entry and type that do not.
pub fn validate_config(config: &Config) -> (r: Result<(), ConfigError>)
    ensures
        r is Ok <==> config_valid(config@),
        r matches Err(e) ==> exists|i: int, j: int| #[trigger] first_invalid(config@, i, j) && reports(e, config@, i, j),
{
    for i in 0..config.entry.len()
        invariant
            forall|i2: int, j2: int| i2 < i ==> !#[trigger] invalid_at(config@, i2, j2),
    {
        let entry = &config.entry[i];
        for j in 0..entry.types.len()
            invariant
                entry == config.entry@[i as int],
                0 <= i < config.entry.len(),
                forall|i2: int, j2: int| i2 < i ==> !#[trigger] invalid_at(config@, i2, j2),
                forall|j2: int| j2 < j ==> !#[trigger] invalid_at(config@, i as int, j2),
        {
            let t = &entry.types[j];
            if !same_text(t, "A") && !same_text(t, "AAAA") {
                assert(first_invalid(config@, i as int, j as int));
                return Err(ConfigError::Validation(entry.name.clone(), t.clone()));
            }
        }
    }
    Ok(())
}

} // verus!
