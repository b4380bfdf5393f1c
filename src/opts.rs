use vstd::prelude::*;

verus! {

/// Command-line choices that shape a run: where the configuration lives,
/// which address families to leave alone, and whether to repeat.
#[derive(Debug, Default)]
pub struct Opts {
    /// The path to the configuration file.
    pub config: Option<String>,
    /// Ignore every "A" (IPv4) record of the configuration.
    pub skip_ipv4: bool,
    /// Ignore every "AAAA" (IPv6) record of the configuration.
    pub skip_ipv6: bool,
    /// Repeat after this many seconds; run once when absent.
    pub repeat: Option<u64>,
}

} // verus!
