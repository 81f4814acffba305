//! The task that tries the words of a wordlist as subdomains of a domain.
use crate::events;
use crate::events::Category;
use crate::modules::{Module, NoiseLevel};
use vstd::prelude::*;

verus! {

pub struct ModuleEnumerateSubdomains {}

impl Default for ModuleEnumerateSubdomains {
    fn default() -> (r: Self) {
        Self::new()
    }
}

impl ModuleEnumerateSubdomains {
    pub fn new() -> (r: Self) {
        ModuleEnumerateSubdomains {  }
    }

    /// The subdomain that is tried for a word: the word, a dot and the
    /// domain.
    pub fn candidate(&self, domain: &str, word: &str) -> (r: String)
        ensures
            r@ == word@ + "."@ + domain@,
    {
        let mut r = String::from_str(word);
        r.append(".");
        r.append(domain);
        r
    }
}

impl Module for ModuleEnumerateSubdomains {
    fn name(&self) -> (r: String)
        ensures
            r@ == "enumerate:subdomains"@,
    {
        String::from_str("enumerate:subdomains")
    }

    fn description(&self) -> (r: String)
        ensures
            r@ == "This module will aggressively try to find subdomains based on the given wordlist"@,
    {
        String::from_str(
            "This module will aggressively try to find subdomains based on the given wordlist",
        )
    }

    fn noise_level(&self) -> (r: NoiseLevel)
        ensures
            r == NoiseLevel::High,
    {
        NoiseLevel::High
    }

    fn subscribers(&self) -> (r: Vec<events::Type>)
        ensures
            events::categories_of(r@) == seq![Category::DiscoveredDomain],
    {
        let r = vec![events::Type::DiscoveredDomain(String::new())];
        assert(events::categories_of(r@) =~= seq![Category::DiscoveredDomain]);
        r
    }
}

} // verus!
