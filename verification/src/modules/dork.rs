//! The task that asks a search engine for the hosts and e-mail addresses of
//! a domain.
use crate::config;
use crate::events;
use crate::events::Category;
use crate::helpers::patterns::{
    collect_present, escape, first_groups, group_texts, present, regex_escaped,
    regex_first_groups,
};
use crate::helpers::text::{replace_text, replaced, texts_in};
use crate::modules::{Module, NoiseLevel};
use vstd::prelude::*;

verus! {

#[derive(Copy, Clone, Debug, PartialEq, Eq, PartialOrd, Ord, Hash, Structural)]
pub enum SearchEngine {
    Ecosia,
    Google,
}

impl Default for SearchEngine {
    fn default() -> (r: SearchEngine)
        ensures
            r == SearchEngine::Google,
    {
        SearchEngine::Google
    }
}

impl SearchEngine {
    pub open spec fn spec_name(&self) -> Seq<char> {
        match self {
            SearchEngine::Ecosia => "ecosia"@,
            SearchEngine::Google => "google"@,
        }
    }

    /// The lower-case name of the engine.
    pub fn name(&self) -> (r: String)
        ensures
            r@ == self.spec_name(),
    {
        match self {
            SearchEngine::Ecosia => String::from_str("ecosia"),
            SearchEngine::Google => String::from_str("google"),
        }
    }

    /// The address of a search, up to the query.
    pub open spec fn spec_base_url(&self) -> Seq<char> {
        match self {
            SearchEngine::Ecosia => "https://www.ecosia.org/search?method=index&q="@,
            SearchEngine::Google => "https://www.google.com/search?q="@,
        }
    }

    pub fn base_url(&self) -> (r: String)
        ensures
            r@ == self.spec_base_url(),
    {
        match self {
            SearchEngine::Ecosia => String::from_str(
                "https://www.ecosia.org/search?method=index&q=",
            ),
            SearchEngine::Google => String::from_str("https://www.google.com/search?q="),
        }
    }
}

/// The pattern that finds the hosts of a domain in a page: an address
/// with `https`, whose host ends in a dot and the domain. The first group
/// is the host.
pub open spec fn domains_pattern_of(domain: Seq<char>) -> Seq<char> {
    "\\bhttps://([a-zA-Z0-9.-]+\\."@ + regex_escaped(domain) + ")\\b"@
}

/// The pattern that finds the e-mail addresses of a domain in a page. The
/// first group is the address.
pub open spec fn emails_pattern_of(domain: Seq<char>) -> Seq<char> {
    "\\b([a-zA-Z0-9](?:[a-zA-Z0-9.+!%\\-/]{1,64}|)@"@ + regex_escaped(domain) + ")\\b"@
}

/// What a page yields under a pattern: the first group of every match in
/// which the group took part, in order; `None` where the pattern does not
/// compile.
pub open spec fn extracted(pattern: Seq<char>, page: Seq<char>) -> Option<Seq<Seq<char>>> {
    match regex_first_groups(pattern, page) {
        Some(groups) => Some(present(groups)),
        None => None,
    }
}

/// What a page yields under a pattern, from the groups that the matches
/// gave.
pub fn extraction(found: Option<Vec<Option<String>>>) -> (r: Option<Vec<String>>)
    ensures
        r is Some == found is Some,
        r is Some ==> texts_in(r->0@) == present(group_texts(found->0@)),
{
    match found {
        Some(groups) => Some(collect_present(groups)),
        None => None,
    }
}

pub struct ModuleDork {
    config: config::DorkConfig,
}

impl ModuleDork {
    pub fn new(config: config::DorkConfig) -> (r: Self)
        ensures
            r.spec_search_engine() == match config.search_engine {
                Some(engine) => engine,
                None => SearchEngine::Google,
            },
    {
        ModuleDork { config }
    }

    /// The engine that the task asks: the configured one, else Google.
    pub closed spec fn spec_search_engine(&self) -> SearchEngine {
        match self.config.search_engine {
            Some(engine) => engine,
            None => SearchEngine::Google,
        }
    }

    pub fn search_engine(&self) -> (r: SearchEngine)
        ensures
            r == self.spec_search_engine(),
    {
        match self.config.search_engine {
            Some(engine) => engine,
            None => SearchEngine::default(),
        }
    }

    /// The name of the task followed by that of the engine.
    pub fn name_with_search_engine(&self, search_engine: SearchEngine) -> (r: String)
        ensures
            r@ == "dork:"@ + search_engine.spec_name(),
    {
        let mut r = self.name();
        r.append(search_engine.name().as_str());
        r
    }

    /// The address that lists the pages of a domain.
    pub fn domains_uri(&self, domain: &str, search_engine: SearchEngine) -> (r: String)
        ensures
            r@ == search_engine.spec_base_url() + "site%3A"@ + domain@,
    {
        let mut r = search_engine.base_url();
        r.append("site%3A");
        r.append(domain);
        r
    }

    /// The query that finds the e-mail addresses of a domain.
    pub fn emails_query(&self, domain: &str) -> (r: String)
        ensures
            r@ == "%22@"@ + domain@ + "%22"@,
    {
        let mut r = String::from_str("%22@");
        r.append(domain);
        r.append("%22");
        r
    }

    pub fn domains_pattern(&self, domain: &str) -> (r: String)
        ensures
            r@ == domains_pattern_of(domain@),
    {
        let mut r = String::from_str("\\bhttps://([a-zA-Z0-9.-]+\\.");
        r.append(escape(domain).as_str());
        r.append(")\\b");
        r
    }

    pub fn emails_pattern(&self, domain: &str) -> (r: String)
        ensures
            r@ == emails_pattern_of(domain@),
    {
        let mut r = String::from_str("\\b([a-zA-Z0-9](?:[a-zA-Z0-9.+!%\\-/]{1,64}|)@");
        r.append(escape(domain).as_str());
        r.append(")\\b");
        r
    }

    /// The hosts of a domain that a page of results names, in the order of
    /// the page. `None` where the pattern for the domain does not compile.
    pub fn get_domains(&self, page: &str, domain: &str) -> (r: Option<Vec<String>>)
        ensures
            r is Some == extracted(domains_pattern_of(domain@), page@) is Some,
            r is Some ==> texts_in(r->0@) == extracted(domains_pattern_of(domain@), page@)->0,
    {
        let pattern = self.domains_pattern(domain);
        extraction(first_groups(pattern.as_str(), page))
    }

    /// The e-mail addresses of a domain that a page of results names, in
    /// the order of the page. The query itself, which the page repeats, is
    /// taken out first. `None` where the pattern for the domain does not
    /// compile.
    pub fn get_emails(&self, page: &str, domain: &str) -> (r: Option<Vec<String>>)
        ensures
            r is Some == extracted(
                emails_pattern_of(domain@),
                replaced(page@, "%22@"@ + domain@ + "%22"@, ""@),
            ) is Some,
            r is Some ==> texts_in(r->0@) == extracted(
                emails_pattern_of(domain@),
                replaced(page@, "%22@"@ + domain@ + "%22"@, ""@),
            )->0,
    {
        let query = self.emails_query(domain);
        let cleaned = replace_text(page, query.as_str(), "");
        let pattern = self.emails_pattern(domain);
        extraction(first_groups(pattern.as_str(), cleaned.as_str()))
    }

    /// What is reported where the search engine cannot be reached.
    pub fn unreachable(&self, search_engine: SearchEngine) -> (r: String)
        ensures
            r@ == "Unable to reach "@ + search_engine.spec_name(),
    {
        let mut r = String::from_str("Unable to reach ");
        r.append(search_engine.name().as_str());
        r
    }

    /// The address that lists the pages with e-mail addresses of a domain.
    pub fn emails_uri(&self, domain: &str, search_engine: SearchEngine) -> (r: String)
        ensures
            r@ == search_engine.spec_base_url() + ("%22@"@ + domain@ + "%22"@),
    {
        let mut r = search_engine.base_url();
        r.append(self.emails_query(domain).as_str());
        r
    }
}

impl Module for ModuleDork {
    fn name(&self) -> (r: String)
        ensures
            r@ == "dork:"@,
    {
        String::from_str("dork:")
    }

    fn description(&self) -> (r: String)
        ensures
            r@ == "Uses search operators and terms on search engines to try gather more information"@,
    {
        String::from_str(
            "Uses search operators and terms on search engines to try gather more information",
        )
    }

    fn noise_level(&self) -> (r: NoiseLevel)
        ensures
            r == NoiseLevel::Medium,
    {
        NoiseLevel::default()
    }

    fn subscribers(&self) -> (r: Vec<events::Type>)
        ensures
            events::categories_of(r@) == seq![Category::DiscoveredDomain],
    {
        let r = vec![events::Type::DiscoveredDomain(String::new())];
        assert(events::categories_of(r@) =~= seq![Category::DiscoveredDomain]);
        r
    }
}

} // verus!
