//! The task that takes a screenshot of every discovered domain.
use crate::args::{expand_home, expanded};
use crate::config;
use crate::events;
use crate::events::Category;
use crate::helpers::encoding::{base64_standard, encodable, encode};
use crate::modules::{Module, NoiseLevel};
use vstd::prelude::*;

verus! {

pub struct ModuleScreenshotGrabber {
    config: config::ScreenshotGrabberConfig,
}

impl ModuleScreenshotGrabber {
    pub fn new(config: config::ScreenshotGrabberConfig) -> (r: Self)
        ensures
            r.settings() == config,
    {
        ModuleScreenshotGrabber { config }
    }

    pub closed spec fn settings(&self) -> config::ScreenshotGrabberConfig {
        self.config
    }

    /// Whether screenshots are saved as files. By default they are kept in
    /// the graph.
    pub fn saves_as_file(&self) -> (r: bool)
        ensures
            r == (self.settings().save_as_file == Some(true)),
    {
        match self.config.save_as_file {
            Some(value) => value,
            None => false,
        }
    }

    /// The address of which the screenshot is taken.
    pub fn uri(&self, domain: &str) -> (r: String)
        ensures
            r@ == "https://"@ + domain@,
    {
        let mut r = String::from_str("https://");
        r.append(domain);
        r
    }

    /// The path of the file of a screenshot: below the directory of the
    /// reports, with the home directory filled in.
    pub fn screenshot_path(&self, output: &str, home: &str, domain: &str) -> (r: String)
        ensures
            r@ == expanded(output@, home@) + "/screenshots/"@ + domain@ + ".png"@,
    {
        let mut r = expand_home(output, home);
        r.append("/screenshots/");
        r.append(domain);
        r.append(".png");
        r
    }

    /// What the graph keeps of a screenshot: the path of its file where
    /// screenshots are saved as files, else the picture itself in base64.
    /// `None` where the picture is too large to be encoded.
    pub fn fact(&self, path: String, picture: &Vec<u8>) -> (r: Option<String>)
        ensures
            self.settings().save_as_file == Some(true) ==> r is Some && r->0@ == path@,
            self.settings().save_as_file != Some(true) ==> (r is Some == encodable(
                picture@.len(),
            )) && (r is Some ==> r->0@ == base64_standard(picture@)),
    {
        if self.saves_as_file() {
            Some(path)
        } else {
            encode(picture)
        }
    }
}

impl Module for ModuleScreenshotGrabber {
    fn name(&self) -> (r: String)
        ensures
            r@ == "grabber:screenshot"@,
    {
        String::from_str("grabber:screenshot")
    }

    fn description(&self) -> (r: String)
        ensures
            r@ == "This module will take screenshots of newly discovered domains"@,
    {
        String::from_str(
            "This module will take screenshots of newly discovered domains",
        )
    }

    fn noise_level(&self) -> (r: NoiseLevel)
        ensures
            r == NoiseLevel::Medium,
    {
        NoiseLevel::default()
    }

    fn subscribers(&self) -> (r: Vec<events::Type>)
        ensures
            events::categories_of(r@) == seq![Category::DiscoveredDomain],
    {
        let r = vec![events::Type::DiscoveredDomain(String::new())];
        assert(events::categories_of(r@) =~= seq![Category::DiscoveredDomain]);
        r
    }
}

} // verus!
