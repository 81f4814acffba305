//! The task that tries the words of a wordlist as virtual hosts of a
//! domain.
use crate::config;
use crate::events;
use crate::events::Category;
use crate::helpers::parsing::{range_values, try_parse_range};
use crate::modules::enumerate_files::{default_match_status, default_statuses};
use crate::modules::{Module, NoiseLevel};
use vstd::prelude::*;

verus! {

pub struct ModuleEnumerateVhosts {
    config: config::EnumerateVhostsConfig,
}

impl ModuleEnumerateVhosts {
    pub fn new(config: config::EnumerateVhostsConfig) -> (r: Self)
        ensures
            r.settings() == config,
    {
        ModuleEnumerateVhosts { config }
    }

    pub closed spec fn settings(&self) -> config::EnumerateVhostsConfig {
        self.config
    }

    pub fn noise_level() -> (r: NoiseLevel)
        ensures
            r == NoiseLevel::High,
    {
        NoiseLevel::High
    }

    /// The path of the wordlist: that of the configuration, else the given
    /// one.
    pub fn wordlist(&self, fallback: &str) -> (r: String)
        ensures
            r@ == match self.settings().wordlist {
                Some(path) => path@,
                None => fallback@,
            },
    {
        match &self.config.wordlist {
            Some(path) => path.clone(),
            None => String::from_str(fallback),
        }
    }

    /// The status codes that count as a hit: those that the configuration
    /// lists, else the default ones. `None` where the list of the
    /// configuration is malformed.
    pub fn match_status(&self) -> (r: Option<Vec<usize>>)
        ensures
            match self.settings().match_status {
                Some(list) => r is Some == range_values(list@) is Some && (r is Some ==> r->0@
                    == range_values(list@)->0),
                None => r is Some && r->0@ == default_statuses(),
            },
    {
        match &self.config.match_status {
            Some(list) => try_parse_range(list.as_str()),
            None => Some(default_match_status()),
        }
    }

    /// The virtual host that is tried for a word: the word, a dot and the
    /// domain.
    pub fn vhost(&self, domain: &str, word: &str) -> (r: String)
        ensures
            r@ == word@ + "."@ + domain@,
    {
        let mut r = String::from_str(word);
        r.append(".");
        r.append(domain);
        r
    }
}

impl Module for ModuleEnumerateVhosts {
    fn name(&self) -> (r: String)
        ensures
            r@ == "enumerate:vhosts"@,
    {
        String::from_str("enumerate:vhosts")
    }

    fn description(&self) -> (r: String)
        ensures
            r@ == "This module will aggressively try to find vhosts based on the given wordlist"@,
    {
        String::from_str(
            "This module will aggressively try to find vhosts based on the given wordlist",
        )
    }

    fn noise_level(&self) -> (r: NoiseLevel)
        ensures
            r == NoiseLevel::High,
    {
        NoiseLevel::High
    }

    fn subscribers(&self) -> (r: Vec<events::Type>)
        ensures
            events::categories_of(r@) == seq![Category::DiscoveredDomain],
    {
        let r = vec![events::Type::DiscoveredDomain(String::new())];
        assert(events::categories_of(r@) =~= seq![Category::DiscoveredDomain]);
        r
    }
}

} // verus!
