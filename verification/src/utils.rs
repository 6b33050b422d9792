//! The configuration, the two capabilities of a provider's reply, and the
//! lookup of the published record.

use vstd::prelude::*;
use vstd::string::*;
use crate::json::{json_of, value_as_bool, value_member, Json};

pub mod internal;

verus! {

/// A decoded provider reply that can tell whether the provider reported
/// success.
pub trait HasSuccessField {
    /// Whether the reply reports success.
    spec fn reports_success(&self) -> bool;

    fn success(&self) -> (ok: bool)
        ensures
            ok == self.reports_success(),
    ;
}

/// A published DNS record, reduced to the three fields the update decision
/// reads.
pub trait RecordParsable {
    /// The full name the record is published under.
    spec fn record_name(&self) -> Seq<char>;

    /// The provider's identifier of the record.
    spec fn record_id(&self) -> Seq<char>;

    /// The address the record points to.
    spec fn record_ip(&self) -> Seq<char>;

    fn name(&self) -> (name: &String)
        ensures
            name@ == self.record_name(),
    ;

    fn id(&self) -> (id: &String)
        ensures
            id@ == self.record_id(),
    ;

    fn ip(&self) -> (ip: &String)
        ensures
            ip@ == self.record_ip(),
    ;
}

impl HasSuccessField for serde_json::Value {
    /// A JSON document reports success where it is an object whose member
    /// `success` is the boolean `true`.
    open spec fn reports_success(&self) -> bool {
        match json_of(*self).member("success"@) {
            Json::Boolean(flag) => flag,
            _ => false,
        }
    }

    fn success(&self) -> (ok: bool) {
        let opt = value_as_bool(value_member(self, "success"));
        opt.unwrap_or(false)
    }
}

/// The configuration the daemon runs with: `host` is the subdomain prefix
/// with its trailing dot (or empty), `domain` the rest of the full name.
pub struct DDNSConfig {
    pub api_key: String,
    pub domain: String,
    pub host: String,
    pub backend: String,
}

/// The number of dots in `s` from position `from` on.
pub open spec fn dots_from(s: Seq<char>, from: int) -> nat
    decreases s.len() - from,
{
    if from < 0 || from >= s.len() {
        0
    } else if s[from] == '.' {
        1 + dots_from(s, from + 1)
    } else {
        dots_from(s, from + 1)
    }
}

/// The position of the first dot in `s` at or after `from`, or the length of
/// `s` where there is none.
pub open spec fn dot_from(s: Seq<char>, from: int) -> int
    decreases s.len() - from,
{
    if from < 0 || from >= s.len() {
        s.len() as int
    } else if s[from] == '.' {
        from
    } else {
        dot_from(s, from + 1)
    }
}

/// The number of dots in `s`.
pub open spec fn count_dots(s: Seq<char>) -> nat {
    dots_from(s, 0)
}

/// The position of the first dot in `s`, or the length of `s` where it has
/// none.
pub open spec fn first_dot(s: Seq<char>) -> int {
    dot_from(s, 0)
}

/// The subdomain prefix of a full name: everything up to and including the
/// first dot where the name has at least two dots, nothing otherwise.
pub open spec fn host_of(full: Seq<char>) -> Seq<char> {
    if count_dots(full) > 1 {
        full.subrange(0, first_dot(full) + 1)
    } else {
        Seq::empty()
    }
}

/// The apex part of a full name: what follows the first dot where the name
/// has at least two dots, the whole name otherwise.
pub open spec fn domain_of(full: Seq<char>) -> Seq<char> {
    if count_dots(full) > 1 {
        full.subrange(first_dot(full) + 1, full.len() as int)
    } else {
        full
    }
}

/// The first dot lies at or after `from`, and before the end of `s` where a
/// dot is left to count.
pub proof fn lemma_dot_from_bounds(s: Seq<char>, from: int)
    requires
        0 <= from <= s.len(),
    ensures
        from <= dot_from(s, from) <= s.len(),
        dots_from(s, from) > 0 ==> dot_from(s, from) < s.len() && s[dot_from(s, from)] == '.',
        forall|j: int| from <= j < dot_from(s, from) ==> s[j] != '.',
    decreases s.len() - from,
{
    if from < s.len() && s[from] != '.' {
        lemma_dot_from_bounds(s, from + 1);
    }
}

/// Splitting loses nothing: the prefix followed by the apex part is the full
/// name again, whatever the name.
pub proof fn lemma_split_reconstructs(full: Seq<char>)
    ensures
        host_of(full) + domain_of(full) == full,
{
    lemma_dot_from_bounds(full, 0);
    assert(host_of(full) + domain_of(full) =~= full);
}

/// Splits a full name into its subdomain prefix and its apex part.
pub fn split_domain(full: &str) -> (parts: (String, String))
    ensures
        parts.0@ == host_of(full@),
        parts.1@ == domain_of(full@),
{
    let len: usize = full.unicode_len();
    let mut dots: usize = 0;
    let mut first: usize = len;
    let mut i: usize = 0;
    while i < len
        invariant
            len == full@.len(),
            0 <= i <= len,
            dots <= i,
            dots + dots_from(full@, i as int) == count_dots(full@),
            dots == 0 ==> first == len && dot_from(full@, i as int) == first_dot(full@),
            dots > 0 ==> first == first_dot(full@) && first < len,
        decreases len - i,
    {
        if full.get_char(i) == '.' {
            if dots == 0 {
                first = i;
            }
            dots = dots + 1;
        }
        i = i + 1;
    }
    if dots > 1 {
        let host = full.substring_char(0, first + 1);
        let domain = full.substring_char(first + 1, len);
        (String::from_str(host), String::from_str(domain))
    } else {
        (String::new(), String::from_str(full))
    }
}

/// No spec function builds a string, so the conversion has none: what it
/// does is stated on `from` itself.
impl vstd::std_specs::convert::FromSpecImpl<internal::DDNSConfig> for DDNSConfig {
    open spec fn obeys_from_spec() -> bool {
        false
    }

    open spec fn from_spec(config: internal::DDNSConfig) -> Self {
        arbitrary()
    }
}

impl From<internal::DDNSConfig> for DDNSConfig {
    /// Keeps the key and the backend, and splits the full name.
    fn from(config: internal::DDNSConfig) -> (split: Self)
        ensures
            split.api_key == config.api_key,
            split.backend == config.backend,
            split.host@ == host_of(config.domain@),
            split.domain@ == domain_of(config.domain@),
    {
        let (host, domain) = split_domain(config.domain.as_str());
        DDNSConfig { api_key: config.api_key, domain, host, backend: config.backend }
    }
}

/// Builds the running configuration from what the command line gave and the
/// defaults that stand in for what it left out.
pub fn parse_config(
    api_key: Option<String>,
    domain: Option<String>,
    backend: Option<String>,
    defaults: internal::DDNSConfig,
) -> (config: DDNSConfig)
    ensures
        config.api_key == api_key.unwrap_or(defaults.api_key),
        config.backend == backend.unwrap_or(defaults.backend),
        config.host@ == host_of(domain.unwrap_or(defaults.domain)@),
        config.domain@ == domain_of(domain.unwrap_or(defaults.domain)@),
        config.host@ + config.domain@ == domain.unwrap_or(defaults.domain)@,
{
    let given = internal::DDNSConfig {
        api_key: api_key.unwrap_or(defaults.api_key),
        domain: domain.unwrap_or(defaults.domain),
        backend: backend.unwrap_or(defaults.backend),
    };
    proof {
        lemma_split_reconstructs(given.domain@);
    }
    DDNSConfig::from(given)
}

/// The position of the first record at or after `from` that is published
/// under `name`, if there is one.
pub open spec fn find_record<T: RecordParsable>(records: Seq<T>, name: Seq<char>, from: int) -> Option<int>
    decreases records.len() - from,
{
    if from < 0 || from >= records.len() {
        None
    } else if records[from].record_name() == name {
        Some(from)
    } else {
        find_record(records, name, from + 1)
    }
}

/// The first record published under `name`, if there is one.
pub open spec fn first_record<T: RecordParsable>(records: Seq<T>, name: Seq<char>) -> Option<int> {
    find_record(records, name, 0)
}

/// `find_record` finds the first match and only a match: its result is a
/// position at or after `from` whose record has the name, with no such record
/// between `from` and it; it finds nothing only where no record from `from`
/// on has the name.
pub proof fn lemma_find_record<T: RecordParsable>(records: Seq<T>, name: Seq<char>, from: int)
    requires
        0 <= from <= records.len(),
    ensures
        match find_record(records, name, from) {
            Some(at) => from <= at < records.len() && records[at].record_name() == name
                && forall|j: int| from <= j < at ==> records[j].record_name() != name,
            None => forall|j: int| from <= j < records.len() ==> records[j].record_name() != name,
        },
    decreases records.len() - from,
{
    if from < records.len() && records[from].record_name() != name {
        lemma_find_record(records, name, from + 1);
    }
}

/// Looks up the record published under `host` followed by `domain`: the
/// identifier and the address of the first such record, in the order given.
pub fn get_record_id_and_ip<'a, T>(resource_records: &'a [T], domain: &str, host: &str) -> (found: Option<
    (&'a String, &'a String),
>) where T: RecordParsable
    ensures
        match first_record(resource_records@, host@ + domain@) {
            Some(at) => found matches Some(pair) && pair.0@ == resource_records@[at].record_id()
                && pair.1@ == resource_records@[at].record_ip(),
            None => found is None,
        },
{
    let mut sub_domain = String::from_str(host);
    sub_domain.append(domain);
    let mut i: usize = 0;
    while i < resource_records.len()
        invariant
            0 <= i <= resource_records@.len(),
            sub_domain@ == host@ + domain@,
            find_record(resource_records@, sub_domain@, i as int) == first_record(
                resource_records@,
                sub_domain@,
            ),
        decreases resource_records@.len() - i,
    {
        let resource_record = &resource_records[i];
        if *resource_record.name() == sub_domain {
            return Some((resource_record.id(), resource_record.ip()));
        }
        i = i + 1;
    }
    None
}

/// What `get_viewable_api_key` shows of a key: the first two and the last two
/// characters around three asterisks, or seven asterisks where the key has
/// ten characters or fewer.
pub open spec fn viewable_api_key(api_key: Seq<char>) -> Seq<char> {
    if api_key.len() > 10 {
        api_key.subrange(0, 2) + "***"@ + api_key.subrange(api_key.len() - 2, api_key.len() as int)
    } else {
        "*******"@
    }
}

/// Masks an API key for display.
pub fn get_viewable_api_key(api_key: &str) -> (shown: String)
    ensures
        shown@ == viewable_api_key(api_key@),
{
    let len: usize = api_key.unicode_len();
    if len > 10 {
        let head = api_key.substring_char(0, 2);
        let tail = api_key.substring_char(len - 2, len);
        let mut shown = String::from_str(head);
        shown.append("***");
        shown.append(tail);
        shown
    } else {
        String::from_str("*******")
    }
}

} // verus!
