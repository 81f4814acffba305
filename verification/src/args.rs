//! The arguments of a run.
use crate::modules::NoiseLevel;
use vstd::prelude::*;

verus! {

#[derive(Debug, Clone)]
pub struct Args {
    /// Domain to scan for
    pub domain: String,
    /// The path to the wordlist to use
    pub wordlist: String,
    /// Path to configuration file
    pub config: String,
    /// The path of where the output will be saved to
    pub output: String,
    /// The file path of the Lua script to load
    pub script: Option<String>,
    /// Display the version of the tool
    pub version: bool,
    /// Whether to print the database at the end of execution in a tree format and some other debugging data
    pub debug: bool,
    /// Whether to print some verbose data
    pub verbose: bool,
    /// The noisiest kind of task that may run
    pub noise_level: NoiseLevel,
}

/// The path with a leading `~` replaced by the home directory. Any other
/// path is left as it is.
pub open spec fn expanded(path: Seq<char>, home: Seq<char>) -> Seq<char> {
    if path.len() > 0 && path[0] == '~' {
        home + path.subrange(1, path.len() as int)
    } else {
        path
    }
}

pub fn expand_home(path: &str, home: &str) -> (r: String)
    ensures
        r@ == expanded(path@, home@),
{
    let n = path.unicode_len();
    if n > 0 && path.get_char(0) == '~' {
        let mut r = String::from_str(home);
        r.append(path.substring_char(1, n));
        r
    } else {
        String::from_str(path)
    }
}

impl Args {
    /// The path of the configuration file, with the home directory filled in.
    pub fn config_path(&self, home: &str) -> (r: String)
        ensures
            r@ == expanded(self.config@, home@),
    {
        expand_home(self.config.as_str(), home)
    }

    /// The directory of the reports, with the home directory filled in.
    pub fn output_path(&self, home: &str) -> (r: String)
        ensures
            r@ == expanded(self.output@, home@),
    {
        expand_home(self.output.as_str(), home)
    }
}

} // verus!
