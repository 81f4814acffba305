//! The task that finds the hosts of a domain in certificate transparency
//! logs.
use crate::config;
use crate::events;
use crate::events::Category;
use crate::flags;
use crate::helpers::text::{parts_of, split_at_char, texts_in};
use crate::modules::{Module, NoiseLevel};
use crate::state::{list_contains, list_push, texts_of};
use vstd::prelude::*;

verus! {

pub struct ModulePassiveDNS {
    config: config::PassiveDNSConfig,
    processed_domains: Vec<String>,
}

/// The number of seconds after its issue during which a certificate counts
/// as recent: 24 hours.
pub const RECENT_SECONDS: i64 = 86400;

/// Whether a certificate has expired at the time `now`.
pub open spec fn has_expired(not_after: i64, now: i64) -> bool {
    not_after < now
}

/// Whether a certificate was issued within the 24 hours before `now`.
pub open spec fn is_recent(not_before: i64, now: i64) -> bool {
    not_before <= now && not_before >= now - RECENT_SECONDS
}

/// The flags of the host of a certificate, or `None` where the settings
/// leave the certificate out: an expired one where expired ones are ignored,
/// one that is not recent where only recent ones count.
pub open spec fn certificate_flags(
    ignore_expired: bool,
    recent_only: bool,
    not_before: i64,
    not_after: i64,
    now: i64,
) -> Option<usize> {
    if ignore_expired && has_expired(not_after, now) {
        None
    } else if recent_only && !is_recent(not_before, now) {
        None
    } else {
        Some(
            (if has_expired(not_after, now) {
                flags::domain::HAS_EXPIRED
            } else {
                flags::ZERO
            }) | (if is_recent(not_before, now) {
                flags::domain::IS_RECENT
            } else {
                flags::ZERO
            }),
        )
    }
}

/// A name of a certificate without the wildcard label in front of it.
pub open spec fn without_wildcard(name: Seq<char>) -> Seq<char> {
    if name.len() >= 2 && name[0] == '*' && name[1] == '.' {
        name.subrange(2, name.len() as int)
    } else {
        name
    }
}

pub fn strip_wildcard(name: &str) -> (r: String)
    ensures
        r@ == without_wildcard(name@),
{
    let n = name.unicode_len();
    if n >= 2 && name.get_char(0) == '*' && name.get_char(1) == '.' {
        String::from_str(name.substring_char(2, n))
    } else {
        String::from_str(name)
    }
}

/// The names of a list without their wildcard labels, but for those that
/// are the domain itself.
pub open spec fn other_names(names: Seq<Seq<char>>, domain: Seq<char>) -> Seq<Seq<char>>
    decreases names.len(),
{
    if names.len() == 0 {
        Seq::empty()
    } else if without_wildcard(names.last()) == domain {
        other_names(names.drop_last(), domain)
    } else {
        other_names(names.drop_last(), domain).push(without_wildcard(names.last()))
    }
}

/// The hosts that a certificate names besides the domain that was asked
/// for: the lines of its list of names, each without its wildcard label, in
/// order.
pub fn certificate_names(name_value: &str, domain: &str) -> (r: Vec<String>)
    ensures
        texts_in(r@) == other_names(parts_of(name_value@, '\n'), domain@),
{
    let lines = split_at_char(name_value, '\n');
    let asked = String::from_str(domain);
    let mut r: Vec<String> = Vec::new();
    let n = lines.len();
    let mut i: usize = 0;
    assert(texts_in(r@) =~= other_names(texts_in(lines@).take(0), domain@));
    while i < n
        invariant
            i <= n,
            n == lines@.len(),
            asked@ == domain@,
            texts_in(r@) == other_names(texts_in(lines@).take(i as int), domain@),
        decreases n - i,
    {
        proof {
            let all = texts_in(lines@);
            assert(all.take(i as int + 1).drop_last() =~= all.take(i as int));
            assert(all.take(i as int + 1).last() == lines@[i as int]@);
        }
        let ghost before = r@;
        let name = strip_wildcard(lines[i].as_str());
        if name != asked {
            r.push(name);
            assert(texts_in(r@) =~= texts_in(before).push(name@));
        }
        i += 1;
    }
    assert(texts_in(lines@).take(n as int) =~= texts_in(lines@));
    r
}

impl ModulePassiveDNS {
    pub fn new(config: config::PassiveDNSConfig) -> (r: Self)
        ensures
            r.processed() == Set::<Seq<char>>::empty(),
            r.ignore_expired() == (config.ignore_expired == Some(true)),
            r.recent_only() == (config.recent_only == Some(true)),
    {
        let r = ModulePassiveDNS { config, processed_domains: Vec::new() };
        assert(r.processed() =~= Set::<Seq<char>>::empty());
        r
    }

    /// The domains that the task has looked up.
    pub closed spec fn processed(&self) -> Set<Seq<char>> {
        texts_of(self.processed_domains@)
    }

    /// Whether expired certificates are left out. They are not by default.
    pub closed spec fn ignore_expired(&self) -> bool {
        self.config.ignore_expired == Some(true)
    }

    /// Whether only recent certificates count. All count by default.
    pub closed spec fn recent_only(&self) -> bool {
        self.config.recent_only == Some(true)
    }

    /// Records a domain as looked up.
    pub fn process(&mut self, domain: String)
        ensures
            final(self).processed() == old(self).processed().insert(domain@),
            final(self).ignore_expired() == old(self).ignore_expired(),
            final(self).recent_only() == old(self).recent_only(),
    {
        list_push(&mut self.processed_domains, domain);
    }

    pub fn has_processed(&self, domain: String) -> (r: bool)
        ensures
            r == self.processed().contains(domain@),
    {
        list_contains(&self.processed_domains, &domain)
    }

    /// The flags with which the host of a certificate enters the graph, or
    /// `None` where the settings of the task leave the certificate out. The
    /// times are seconds since the epoch.
    pub fn classify(&self, not_before: i64, not_after: i64, now: i64) -> (r: Option<usize>)
        ensures
            r == certificate_flags(
                self.ignore_expired(),
                self.recent_only(),
                not_before,
                not_after,
                now,
            ),
    {
        let ignore_expired = match self.config.ignore_expired {
            Some(b) => b,
            None => false,
        };
        let recent_only = match self.config.recent_only {
            Some(b) => b,
            None => false,
        };
        let mut bits: usize = flags::ZERO;
        let expired = not_after < now;
        if ignore_expired && expired {
            return None;
        }
        if expired {
            bits = bits | flags::domain::HAS_EXPIRED;
        }
        let recent = not_before <= now && (now < i64::MIN + RECENT_SECONDS || not_before >= now
            - RECENT_SECONDS);
        if !recent && recent_only {
            return None;
        }
        if recent {
            bits = bits | flags::domain::IS_RECENT;
        }
        assert(0usize | 2usize == 2usize) by (bit_vector);
        assert(0usize | 1usize == 1usize) by (bit_vector);
        assert(0usize | 0usize == 0usize) by (bit_vector);
        assert(2usize | 0usize == 2usize) by (bit_vector);
        Some(bits)
    }

    /// The address that lists the certificates of a domain.
    pub fn uri(&self, domain: &str) -> (r: String)
        ensures
            r@ == "https://crt.sh/?q="@ + domain@ + "&output=json"@,
    {
        let mut r = String::from_str("https://crt.sh/?q=");
        r.append(domain);
        r.append("&output=json");
        r
    }
}

impl Module for ModulePassiveDNS {
    fn name(&self) -> (r: String)
        ensures
            r@ == "dns:passive"@,
    {
        String::from_str("dns:passive")
    }

    fn description(&self) -> (r: String)
        ensures
            r@ == "This module will perform a passive discovery of new domains by using crt.sh"@,
    {
        String::from_str(
            "This module will perform a passive discovery of new domains by using crt.sh",
        )
    }

    fn noise_level(&self) -> (r: NoiseLevel)
        ensures
            r == NoiseLevel::Medium,
    {
        NoiseLevel::default()
    }

    fn subscribers(&self) -> (r: Vec<events::Type>)
        ensures
            events::categories_of(r@) == seq![Category::DiscoveredDomain],
    {
        let r = vec![events::Type::DiscoveredDomain(String::new())];
        assert(events::categories_of(r@) =~= seq![Category::DiscoveredDomain]);
        r
    }
}

} // verus!
