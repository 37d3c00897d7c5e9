use vstd::prelude::*;
use crate::address::{AddressFamily, all_digits, decimal_value, split_on};
use crate::discover::default_endpoint;

verus! {

/// Why the settings cannot drive a run; found before any request is sent.
#[derive(Debug)]
pub enum ConfigError {
    /// The host list and the zone list differ in length.
    LengthMismatch { hosts: usize, zones: usize },
    /// The host and zone lists are empty.
    Empty,
}

/// What a run works from.
#[derive(Debug)]
pub struct Config {
    /// Record names; the i-th belongs to the i-th zone.
    pub hosts: Vec<String>,
    pub zones: Vec<String>,
    /// Whether A records are kept up to date.
    pub ipv4: bool,
    /// Whether AAAA records are kept up to date.
    pub ipv6: bool,
    /// Seconds between cycles; 0 runs a single cycle.
    pub repeat_interval: u64,
    pub ipv4_endpoint: String,
    pub ipv6_endpoint: String,
}

pub open spec fn string_views(v: Seq<String>) -> Seq<Seq<char>> {
    v.map_values(|x: String| x@)
}

/// The entries of a `;`-separated list; the empty text is the empty list.
pub open spec fn list_of(s: Seq<char>) -> Seq<Seq<char>> {
    if s.len() == 0 {
        Seq::empty()
    } else {
        split_on(s, ';')
    }
}

/// The repeat interval that `s` gives: its value where it is a decimal number
/// that fits in 64 bits, else 0.
pub open spec fn interval_of(s: Seq<char>) -> u64 {
    if s.len() > 0 && all_digits(s) && decimal_value(s) <= u64::MAX {
        decimal_value(s) as u64
    } else {
        0
    }
}

impl Config {
    pub open spec fn well_formed(&self) -> bool {
        self.hosts.len() == self.zones.len() && self.hosts.len() > 0
    }
}

/// The entries of the `;`-separated list `s`.
pub fn split_list(s: &str) -> (r: Vec<String>)
    ensures
        string_views(r@) == list_of(s@),
{
    let n = s.unicode_len();
    let mut out: Vec<String> = Vec::new();
    if n == 0 {
        assert(string_views(out@) =~= list_of(s@));
        return out;
    }
    let mut start: usize = 0;
    let mut i: usize = 0;
    assert(s@.take(0) =~= Seq::<char>::empty());
    assert(string_views(out@).push(s@.subrange(0, 0)) =~= seq![Seq::<char>::empty()]);
    while i < n
        invariant
            n == s@.len(),
            start <= i <= n,
            string_views(out@).push(s@.subrange(start as int, i as int)) == split_on(
                s@.take(i as int),
                ';',
            ),
        decreases n - i,
    {
        let ghost before = string_views(out@).push(s@.subrange(start as int, i as int));
        proof {
            assert(s@.take(i + 1).drop_last() =~= s@.take(i as int));
        }
        if s.get_char(i) == ';' {
            let ghost prev = out@;
            out.push(s.substring_char(start, i).to_owned());
            start = i + 1;
            assert(string_views(out@) =~= string_views(prev).push(before.last()));
            assert(s@.subrange(start as int, i + 1) =~= Seq::<char>::empty());
            assert(string_views(out@).push(s@.subrange(start as int, i + 1)) =~= before.push(
                Seq::empty(),
            ));
        } else {
            assert(s@.subrange(start as int, i + 1) =~= s@.subrange(start as int, i as int).push(
                s@[i as int],
            ));
            assert(string_views(out@).push(s@.subrange(start as int, i + 1)) =~= before.update(
                before.len() - 1,
                before.last().push(s@[i as int]),
            ));
        }
        i = i + 1;
    }
    assert(s@.take(n as int) =~= s@);
    let ghost prev = out@;
    out.push(s.substring_char(start, n).to_owned());
    assert(string_views(out@) =~= string_views(prev).push(s@.subrange(start as int, n as int)));
    out
}

/// Whether `entries` holds `name`.
pub fn list_contains(entries: &Vec<String>, name: &String) -> (r: bool)
    ensures
        r == string_views(entries@).contains(name@),
{
    let mut i: usize = 0;
    while i < entries.len()
        invariant
            i <= entries.len(),
            forall|j: int| 0 <= j < i ==> entries@[j]@ != name@,
        decreases entries.len() - i,
    {
        if entries[i].eq(name) {
            assert(string_views(entries@)[i as int] == name@);
            return true;
        }
        i = i + 1;
    }
    assert forall|j: int| 0 <= j < string_views(entries@).len() implies string_views(
        entries@,
    )[j] != name@ by {
        assert(entries@[j]@ != name@);
    }
    false
}

proof fn lemma_decimal_prefix(s: Seq<char>, j: int)
    requires
        0 <= j <= s.len(),
    ensures
        decimal_value(s.take(j)) <= decimal_value(s),
    decreases s.len() - j,
{
    if j < s.len() {
        lemma_decimal_prefix(s, j + 1);
        assert(s.take(j + 1).drop_last() =~= s.take(j));
    } else {
        assert(s.take(j) =~= s);
    }
}

/// The repeat interval written in `s`.
pub fn parse_interval(s: &str) -> (r: u64)
    ensures
        r == interval_of(s@),
{
    let n = s.unicode_len();
    if n == 0 {
        return 0;
    }
    let mut value: u64 = 0;
    let mut i: usize = 0;
    while i < n
        invariant
            n == s@.len(),
            n > 0,
            i <= n,
            all_digits(s@.take(i as int)),
            value == decimal_value(s@.take(i as int)),
        decreases n - i,
    {
        let c = s.get_char(i);
        if !('0' <= c && c <= '9') {
            assert(!all_digits(s@));
            return 0;
        }
        proof {
            assert(s@.take(i + 1).drop_last() =~= s@.take(i as int));
        }
        let d = (c as u32 - '0' as u32) as u64;
        if value > (u64::MAX - d) / 10 {
            proof {
                lemma_decimal_prefix(s@, i + 1);
                assert(decimal_value(s@.take(i + 1)) == value * 10 + d);
            }
            return 0;
        }
        value = value * 10 + d;
        i = i + 1;
        assert(all_digits(s@.take(i as int)));
    }
    assert(s@.take(n as int) =~= s@);
    value
}

impl Config {
    /// The configuration that these settings describe: the record types, hosts
    /// and zones as `;`-separated lists, the repeat interval in seconds, and the
    /// echo services to ask for each family where they differ from the defaults.
    pub fn from_settings(
        record_types: &str,
        hosts: &str,
        zones: &str,
        repeat_interval: &str,
        ipv4_endpoint: Option<String>,
        ipv6_endpoint: Option<String>,
    ) -> (r: Result<Config, ConfigError>)
        ensures
            list_of(hosts@).len() != list_of(zones@).len() ==> (r matches Err(
                ConfigError::LengthMismatch { hosts: h, zones: z },
            ) && h == list_of(hosts@).len() && z == list_of(zones@).len()),
            list_of(hosts@).len() == list_of(zones@).len() && list_of(hosts@).len() == 0 ==> (
            r matches Err(ConfigError::Empty)),
            list_of(hosts@).len() == list_of(zones@).len() && list_of(hosts@).len() > 0 ==> (
            r matches Ok(c) && c.well_formed() && string_views(c.hosts@) == list_of(hosts@)
                && string_views(c.zones@) == list_of(zones@) && c.ipv4 == list_of(
                record_types@,
            ).contains("A"@) && c.ipv6 == list_of(record_types@).contains("AAAA"@)
                && c.repeat_interval == interval_of(repeat_interval@) && (ipv4_endpoint matches Some(
                e) ==> c.ipv4_endpoint@ == e@) && (ipv6_endpoint matches Some(e)
                ==> c.ipv6_endpoint@ == e@) && (ipv4_endpoint is None ==> c.ipv4_endpoint@
                == "https://api.ipify.org"@) && (ipv6_endpoint is None ==> c.ipv6_endpoint@
                == "https://api6.ipify.org"@)),
    {
        let host_list = split_list(hosts);
        let zone_list = split_list(zones);
        if host_list.len() != zone_list.len() {
            return Err(
                ConfigError::LengthMismatch { hosts: host_list.len(), zones: zone_list.len() },
            );
        }
        if host_list.len() == 0 {
            return Err(ConfigError::Empty);
        }
        let types = split_list(record_types);
        let ipv4 = list_contains(&types, &String::from_str("A"));
        let ipv6 = list_contains(&types, &String::from_str("AAAA"));
        let ipv4_endpoint = match ipv4_endpoint {
            Some(e) => e,
            None => default_endpoint(AddressFamily::V4),
        };
        let ipv6_endpoint = match ipv6_endpoint {
            Some(e) => e,
            None => default_endpoint(AddressFamily::V6),
        };
        Ok(
            Config {
                hosts: host_list,
                zones: zone_list,
                ipv4,
                ipv6,
                repeat_interval: parse_interval(repeat_interval),
                ipv4_endpoint,
                ipv6_endpoint,
            },
        )
    }
}

/// Host and zone lists of different lengths, or empty ones, describe no
/// well-formed configuration: `from_settings` refuses them, and as a cycle
/// starts only from a well-formed configuration, no request is ever made for them.
pub proof fn lemma_bad_lists_start_nothing(hosts: Seq<char>, zones: Seq<char>, c: Config)
    requires
        list_of(hosts).len() != list_of(zones).len() || list_of(hosts).len() == 0,
        string_views(c.hosts@) == list_of(hosts),
        string_views(c.zones@) == list_of(zones),
    ensures
        !c.well_formed(),
{
    assert(c.hosts@.len() == string_views(c.hosts@).len());
    assert(c.zones@.len() == string_views(c.zones@).len());
}

} // verus!
