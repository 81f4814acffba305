//! The settings of the discovery tasks, as the configuration file gives
//! them. A task whose section is missing is not registered.
use crate::modules::dork::SearchEngine;
use vstd::prelude::*;

verus! {

/// The structure of the configuration file.
#[derive(Debug, Clone)]
pub struct Config {
    pub domain_takeover: Option<DomainTakeoverConfig>,
    pub dork: Option<DorkConfig>,
    pub passive_dns: Option<PassiveDNSConfig>,
}

#[derive(Debug, Clone)]
pub struct DomainTakeoverConfig {
    /// Whether the module is enabled
    pub enabled: bool,
}

#[derive(Debug, Clone)]
pub struct DorkConfig {
    /// Whether the module is enabled
    pub enabled: bool,
    /// The search engine to use
    pub search_engine: Option<SearchEngine>,
}

#[derive(Debug, Clone)]
pub struct PassiveDNSConfig {
    /// Whether the module is enabled
    pub enabled: bool,
    /// Ignore expired certificates
    pub ignore_expired: Option<bool>,
    /// Only care about the recently (24 hours) created certificates
    pub recent_only: Option<bool>,
}

#[derive(Debug, Clone)]
pub struct EnumerateFilesConfig {
    /// The status codes that count as a hit, as a list of numbers and ranges
    pub match_status: Option<String>,
    /// The path of the wordlist, in place of the one of the command line
    pub wordlist: Option<String>,
    /// The extension that is appended to each word
    pub files_extension: Option<String>,
}

#[derive(Debug, Clone)]
pub struct EnumerateVhostsConfig {
    /// The status codes that count as a hit, as a list of numbers and ranges
    pub match_status: Option<String>,
    /// The path of the wordlist, in place of the one of the command line
    pub wordlist: Option<String>,
}

#[derive(Debug, Clone)]
pub struct ScreenshotGrabberConfig {
    /// The path of the browser to run
    pub chrome_path: Option<String>,
    /// Whether a screenshot is saved as a file, and not kept in the graph
    pub save_as_file: Option<bool>,
}

} // verus!
