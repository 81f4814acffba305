//! The task that looks at what a domain serves, to tell whether the domain
//! points at a hosting account that nobody holds.
use crate::database::node::{first_match, flags_of, node_at, with_node_at, NodeView, Type};
use crate::database::Database;
use crate::events;
use crate::flags;
use crate::json::{json_number, json_string, value_from_string};
use crate::events::Category;
use crate::helpers::text::{contains_text, occurs_in};
use crate::modules::{Module, NoiseLevel};
use vstd::prelude::*;

verus! {

pub struct ModuleDomainTakeover {
    platforms: Vec<(String, String)>,
}

/// The hosting platforms and the text that each serves for an account that
/// does not exist.
pub open spec fn platform_markers() -> Seq<(Seq<char>, Seq<char>)> {
    seq![
        ("github"@, "<p><strong>There isn't a GitHub Pages site here.</strong></p>"@),
        ("glitch"@, "<h1>Well, you found a glitch.</h1>"@),
        (
            "heroku"@,
            "<iframe src=\"//www.herokucdn.com/error-pages/no-such-app.html\"></iframe>"@,
        ),
        ("netlify"@, "Not Found - Request ID: "@),
        ("railway"@, "Application not found"@),
        ("replit"@, "Not Found"@),
        ("vercel"@, "The deployment could not be found on Vercel."@),
    ]
}

pub open spec fn markers_of(platforms: Seq<(String, String)>) -> Seq<(Seq<char>, Seq<char>)> {
    Seq::new(platforms.len(), |i: int| (platforms[i].0@, platforms[i].1@))
}

/// Whether the platform at place `i` is the first whose marker stands in
/// `body`.
pub open spec fn first_marker_at(markers: Seq<(Seq<char>, Seq<char>)>, body: Seq<char>, i: int) -> bool {
    &&& 0 <= i < markers.len()
    &&& occurs_in(markers[i].1, body)
    &&& forall|j: int| 0 <= j < i ==> !occurs_in((#[trigger] markers[j]).1, body)
}

/// A node with the finding written to it: the platform under
/// `possible_takeover`, and the flag of a possible takeover set.
pub open spec fn with_finding(n: NodeView, platform: Seq<char>) -> NodeView {
    NodeView {
        facts: n.facts.insert("possible_takeover"@, json_string(platform)).insert(
            "flags"@,
            json_number((flags_of(n) | flags::domain::POSSIBLE_TAKEOVER) as u64),
        ),
        ..n
    }
}

impl ModuleDomainTakeover {
    pub fn new() -> (r: Self)
        ensures
            r.markers() == platform_markers(),
    {
        let mut platforms: Vec<(String, String)> = Vec::new();
        platforms.push(
            (
                String::from_str("github"),
                String::from_str("<p><strong>There isn't a GitHub Pages site here.</strong></p>"),
            ),
        );
        platforms.push(
            (String::from_str("glitch"), String::from_str("<h1>Well, you found a glitch.</h1>")),
        );
        platforms.push(
            (
                String::from_str("heroku"),
                String::from_str(
                    "<iframe src=\"//www.herokucdn.com/error-pages/no-such-app.html\"></iframe>",
                ),
            ),
        );
        platforms.push((String::from_str("netlify"), String::from_str("Not Found - Request ID: ")));
        platforms.push((String::from_str("railway"), String::from_str("Application not found")));
        platforms.push((String::from_str("replit"), String::from_str("Not Found")));
        platforms.push(
            (
                String::from_str("vercel"),
                String::from_str("The deployment could not be found on Vercel."),
            ),
        );
        let r = ModuleDomainTakeover { platforms };
        assert(r.markers() =~= platform_markers());
        r
    }

    /// The platforms that the task knows, each with its marker, in the order
    /// in which they are tried.
    pub closed spec fn markers(&self) -> Seq<(Seq<char>, Seq<char>)> {
        markers_of(self.platforms@)
    }

    /// The name of the task followed by the platform in brackets.
    pub fn name_with_platform(&self, platform: String) -> (r: String)
        ensures
            r@ == "domain:takeover"@ + "("@ + platform@ + ")"@,
    {
        let mut r = self.name();
        r.append("(");
        r.append(platform.as_str());
        r.append(")");
        r
    }

    /// The platform on which the domain can be taken over, judged by what
    /// the domain serves: the first of the known platforms whose marker
    /// stands in `body`, or `None` where no marker does.
    pub fn detect(&self, body: &str) -> (r: Option<String>)
        ensures
            r is Some ==> exists|i: int|
                first_marker_at(self.markers(), body@, i) && r->0@ == (#[trigger] self.markers()[i]).0,
            r is None ==> forall|i: int|
                0 <= i < self.markers().len() ==> !occurs_in(
                    (#[trigger] self.markers()[i]).1,
                    body@,
                ),
    {
        let n = self.platforms.len();
        let mut i: usize = 0;
        while i < n
            invariant
                i <= n,
                n == self.platforms@.len(),
                self.markers().len() == n,
                forall|j: int|
                    0 <= j < n ==> (#[trigger] self.markers()[j]) == (
                        self.platforms@[j].0@,
                        self.platforms@[j].1@,
                    ),
                forall|j: int| 0 <= j < i ==> !occurs_in((#[trigger] self.markers()[j]).1, body@),
            decreases n - i,
        {
            if contains_text(body, self.platforms[i].1.as_str()) {
                assert(first_marker_at(self.markers(), body@, i as int));
                return Some(self.platforms[i].0.clone());
            }
            i += 1;
        }
        None
    }

    /// Writes a finding to the node of the domain: the first node in
    /// pre-order of the kind `Domain` with the domain as its value. Says
    /// whether there was such a node; where there was none, the graph stays
    /// as it is.
    pub fn record(&self, database: &mut Database, domain: String, platform: String) -> (found:
        bool)
        ensures
            found == first_match(old(database)@, Type::Domain, domain@) is Some,
            found ==> final(database)@ == with_node_at(
                old(database)@,
                first_match(old(database)@, Type::Domain, domain@)->0,
                with_finding(
                    node_at(
                        old(database)@,
                        first_match(old(database)@, Type::Domain, domain@)->0,
                    ),
                    platform@,
                ),
            ),
            !found ==> final(database)@ == old(database)@,
    {
        match database.search(Type::Domain, domain) {
            Some(node) => {
                let ghost before = node@;
                node.add_data(String::from_str("possible_takeover"), value_from_string(platform));
                proof {
                    assert("possible_takeover"@ != "flags"@) by {
                        reveal_strlit("possible_takeover");
                        reveal_strlit("flags");
                        assert("possible_takeover"@.len() == 17);
                        assert("flags"@.len() == 5);
                    }
                    assert(flags_of(node@) == flags_of(before));
                }
                node.add_flag(flags::domain::POSSIBLE_TAKEOVER);
                true
            },
            None => false,
        }
    }

    /// What the task logs where a takeover is possible.
    pub fn finding(&self, domain: &str) -> (r: String)
        ensures
            r@ == "Domain takeover possible for '"@ + domain@ + "'"@,
    {
        let mut r = String::from_str("Domain takeover possible for '");
        r.append(domain);
        r.append("'");
        r
    }

    /// The address that the task fetches for a domain.
    pub fn uri(&self, domain: &str) -> (r: String)
        ensures
            r@ == "https://"@ + domain@,
    {
        let mut r = String::from_str("https://");
        r.append(domain);
        r
    }
}

impl Module for ModuleDomainTakeover {
    fn name(&self) -> (r: String)
        ensures
            r@ == "domain:takeover"@,
    {
        String::from_str("domain:takeover")
    }

    fn description(&self) -> (r: String)
        ensures
            r@ == "This module checks for the content of a domain to know whether it can be taken over"@,
    {
        String::from_str(
            "This module checks for the content of a domain to know whether it can be taken over",
        )
    }

    fn noise_level(&self) -> (r: NoiseLevel)
        ensures
            r == NoiseLevel::Medium,
    {
        NoiseLevel::default()
    }

    fn subscribers(&self) -> (r: Vec<events::Type>)
        ensures
            events::categories_of(r@) == seq![Category::DiscoveredDomain],
    {
        let r = vec![events::Type::DiscoveredDomain(String::new())];
        assert(events::categories_of(r@) =~= seq![Category::DiscoveredDomain]);
        r
    }
}

} // verus!
