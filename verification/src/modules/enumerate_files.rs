//! The task that tries the words of a wordlist as file names below a
//! domain.
use crate::config;
use crate::events;
use crate::events::Category;
use crate::helpers::parsing::{range_values, try_parse_range};
use crate::modules::{Module, NoiseLevel};
use vstd::prelude::*;

verus! {

pub struct ModuleEnumerateFiles {
    config: config::EnumerateFilesConfig,
}

/// The status codes that count as a hit where the configuration names
/// none: all from 200 to 299, and 301, 302, 307, 401, 403, 405 and 500.
pub open spec fn default_statuses() -> Seq<usize> {
    Seq::new(100, |i: int| (200 + i) as usize) + seq![301, 302, 307, 401, 403, 405, 500]
}

pub fn default_match_status() -> (r: Vec<usize>)
    ensures
        r@ == default_statuses(),
{
    let mut r: Vec<usize> = Vec::new();
    let mut code: usize = 200;
    while code < 300
        invariant
            200 <= code <= 300,
            r@ == Seq::new((code - 200) as nat, |i: int| (200 + i) as usize),
        decreases 300 - code,
    {
        r.push(code);
        code += 1;
        assert(r@ =~= Seq::new((code - 200) as nat, |i: int| (200 + i) as usize));
    }
    r.push(301);
    r.push(302);
    r.push(307);
    r.push(401);
    r.push(403);
    r.push(405);
    r.push(500);
    assert(r@ =~= default_statuses());
    r
}

/// Whether a status code is one of a list.
pub fn status_matches(statuses: &Vec<usize>, status: u16) -> (r: bool)
    ensures
        r == statuses@.contains(status as usize),
{
    let n = statuses.len();
    let mut i: usize = 0;
    while i < n
        invariant
            i <= n,
            n == statuses@.len(),
            forall|j: int| 0 <= j < i ==> statuses@[j] != status as usize,
        decreases n - i,
    {
        if statuses[i] == status as usize {
            return true;
        }
        i += 1;
    }
    false
}

/// A copy of a list of status codes.
pub fn copy_statuses(statuses: &Vec<usize>) -> (r: Vec<usize>)
    ensures
        r@ == statuses@,
{
    let mut r: Vec<usize> = Vec::new();
    let n = statuses.len();
    let mut i: usize = 0;
    while i < n
        invariant
            i <= n,
            n == statuses@.len(),
            r@ == statuses@.subrange(0, i as int),
        decreases n - i,
    {
        r.push(statuses[i]);
        assert(r@ =~= statuses@.subrange(0, i as int + 1));
        i += 1;
    }
    assert(r@ =~= statuses@);
    r
}

/// The path that is tried for a word: the domain, a slash and the word,
/// and a dot and the extension where there is one.
pub open spec fn target_of(domain: Seq<char>, word: Seq<char>, extension: Seq<char>) -> Seq<
    char,
> {
    if extension.len() > 0 {
        domain + "/"@ + word + "."@ + extension
    } else {
        domain + "/"@ + word
    }
}

impl ModuleEnumerateFiles {
    pub fn new(config: config::EnumerateFilesConfig) -> (r: Self)
        ensures
            r.settings() == config,
    {
        ModuleEnumerateFiles { config }
    }

    pub closed spec fn settings(&self) -> config::EnumerateFilesConfig {
        self.config
    }

    pub fn noise_level() -> (r: NoiseLevel)
        ensures
            r == NoiseLevel::High,
    {
        NoiseLevel::High
    }

    /// The extension of the files that are tried: `php` where the
    /// configuration names none.
    pub open spec fn spec_extension(&self) -> Seq<char> {
        match self.settings().files_extension {
            Some(extension) => extension@,
            None => "php"@,
        }
    }

    pub fn extension(&self) -> (r: String)
        ensures
            r@ == self.spec_extension(),
    {
        match &self.config.files_extension {
            Some(extension) => extension.clone(),
            None => String::from_str("php"),
        }
    }

    /// The path of the wordlist: that of the configuration, else the given
    /// one.
    pub fn wordlist(&self, fallback: &str) -> (r: String)
        ensures
            r@ == match self.settings().wordlist {
                Some(path) => path@,
                None => fallback@,
            },
    {
        match &self.config.wordlist {
            Some(path) => path.clone(),
            None => String::from_str(fallback),
        }
    }

    /// The status codes that count as a hit: those that the configuration
    /// lists, else the default ones. `None` where the list of the
    /// configuration is malformed.
    pub fn match_status(&self) -> (r: Option<Vec<usize>>)
        ensures
            match self.settings().match_status {
                Some(list) => r is Some == range_values(list@) is Some && (r is Some ==> r->0@
                    == range_values(list@)->0),
                None => r is Some && r->0@ == default_statuses(),
            },
    {
        match &self.config.match_status {
            Some(list) => try_parse_range(list.as_str()),
            None => Some(default_match_status()),
        }
    }

    /// The path that is tried for a word of the wordlist.
    pub fn target(&self, domain: &str, word: &str) -> (r: String)
        ensures
            r@ == target_of(domain@, word@, self.spec_extension()),
    {
        let extension = self.extension();
        let mut r = String::from_str(domain);
        r.append("/");
        r.append(word);
        if extension.as_str().unicode_len() > 0 {
            r.append(".");
            r.append(extension.as_str());
        }
        r
    }
}

impl Module for ModuleEnumerateFiles {
    fn name(&self) -> (r: String)
        ensures
            r@ == "enumerate:files"@,
    {
        String::from_str("enumerate:files")
    }

    fn description(&self) -> (r: String)
        ensures
            r@ == "This module will aggressively try to find files based on the given wordlist and extension"@,
    {
        String::from_str(
            "This module will aggressively try to find files based on the given wordlist and extension",
        )
    }

    fn noise_level(&self) -> (r: NoiseLevel)
        ensures
            r == NoiseLevel::High,
    {
        NoiseLevel::High
    }

    fn subscribers(&self) -> (r: Vec<events::Type>)
        ensures
            events::categories_of(r@) == seq![Category::DiscoveredDomain],
    {
        let r = vec![events::Type::DiscoveredDomain(String::new())];
        assert(events::categories_of(r@) =~= seq![Category::DiscoveredDomain]);
        r
    }
}

} // verus!
