//! The task that asks the service behind an open port what it is.
use crate::database::node::{Node, NodeView};
use crate::events;
use crate::events::Category;
use crate::helpers::text::{decimal, decimal_digits};
use crate::json::{
    json_object, json_string, value_from_string, value_insert, value_new_object,
};
use crate::modules::banner_grabber::http::HttpBannerGrabber;
use crate::modules::{Module, NoiseLevel};
use serde_json::Value;
use vstd::prelude::*;

pub mod http;

verus! {

/// What a service told of itself: texts under keys, in the order in which
/// they were found.
#[derive(Debug)]
pub struct Banner(pub Vec<(String, String)>);

/// The entries of the JSON object that a banner makes: each text under its
/// key, a later one in place of an earlier one with the same key.
pub open spec fn banner_entries(pairs: Seq<(String, String)>) -> Map<Seq<char>, Value>
    decreases pairs.len(),
{
    if pairs.len() == 0 {
        Map::empty()
    } else {
        banner_entries(pairs.drop_last()).insert(pairs.last().0@, json_string(pairs.last().1@))
    }
}

impl Banner {
    /// The banner as a JSON object.
    pub fn to_json_value(&self) -> (r: Value)
        ensures
            json_object(r) == Some(banner_entries(self.0@)),
    {
        let mut object = value_new_object();
        let n = self.0.len();
        let mut i: usize = 0;
        while i < n
            invariant
                i <= n,
                n == self.0@.len(),
                json_object(object) == Some(banner_entries(self.0@.take(i as int))),
            decreases n - i,
        {
            proof {
                assert(self.0@.take(i as int + 1).drop_last() =~= self.0@.take(i as int));
                assert(self.0@.take(i as int + 1).last() == self.0@[i as int]);
            }
            let key = self.0[i].0.clone();
            let value = value_from_string(self.0[i].1.clone());
            value_insert(&mut object, key, value);
            i += 1;
        }
        assert(self.0@.take(n as int) =~= self.0@);
        object
    }
}

/// The banners that a node carries so far, each under its port: the
/// entries of the object under `banners`, none where there is no such fact.
pub open spec fn banners_of(n: NodeView) -> Map<Seq<char>, Value> {
    if n.facts.contains_key("banners"@) {
        json_object(n.facts["banners"@])->0
    } else {
        Map::empty()
    }
}

pub struct ModuleBannerGrabber {}

impl Default for ModuleBannerGrabber {
    fn default() -> (r: Self) {
        Self::new()
    }
}

impl ModuleBannerGrabber {
    pub fn new() -> (r: Self) {
        ModuleBannerGrabber {  }
    }

    /// The grabber for a port: one for HTTP on the ports 80 and 443, none
    /// on any other port.
    pub fn grabber_for(&self, hostname: String, port: usize) -> (r: Option<HttpBannerGrabber>)
        ensures
            r is Some == (port == 80 || port == 443),
            r is Some ==> r->0.hostname() == hostname@ && r->0.port() == port,
    {
        if port == 80 || port == 443 {
            Some(HttpBannerGrabber::new(hostname, port as u16))
        } else {
            None
        }
    }

    /// What the task logs for a port that it has no grabber for.
    pub fn unsupported(&self, port: usize) -> (r: String)
        ensures
            r@ == "Banner grabber for port "@ + decimal_digits(port as nat)
                + " has not been implemented."@,
    {
        let mut r = String::from_str("Banner grabber for port ");
        r.append(decimal(port).as_str());
        r.append(" has not been implemented.");
        r
    }

    /// Puts a banner under its port among the banners of a node. The
    /// banners of other ports stay; nothing else of the node changes. The
    /// fact under `banners`, where the node has one, must be an object.
    pub fn record(&self, node: &mut Node, port: usize, banner: &Banner)
        requires
            old(node)@.facts.contains_key("banners"@) ==> json_object(
                old(node)@.facts["banners"@],
            ) is Some,
        ensures
            final(node)@.kind == old(node)@.kind,
            final(node)@.value == old(node)@.value,
            final(node)@.children == old(node)@.children,
            final(node)@.facts == old(node)@.facts.insert(
                "banners"@,
                final(node)@.facts["banners"@],
            ),
            exists|entry: Value|
                #[trigger] json_object(entry) == Some(banner_entries(banner.0@)) && json_object(
                    final(node)@.facts["banners"@],
                ) == Some(banners_of(old(node)@).insert(decimal_digits(port as nat), entry)),
    {
        let mut banners = node.get_or_init_map("banners");
        let ghost middle = node@;
        let entry = banner.to_json_value();
        value_insert(&mut banners, decimal(port), entry);
        let ghost updated = banners;
        node.add_data(String::from_str("banners"), banners);
        proof {
            assert(node@.facts =~= old(node)@.facts.insert("banners"@, updated));
            assert(json_object(entry) == Some(banner_entries(banner.0@)) && json_object(
                node@.facts["banners"@],
            ) == Some(banners_of(old(node)@).insert(decimal_digits(port as nat), entry)));
        }
    }
}

impl Module for ModuleBannerGrabber {
    fn name(&self) -> (r: String)
        ensures
            r@ == "grabber:banner"@,
    {
        String::from_str("grabber:banner")
    }

    fn description(&self) -> (r: String)
        ensures
            r@ == "This module will parse relevant information about a running service on ports"@,
    {
        String::from_str(
            "This module will parse relevant information about a running service on ports",
        )
    }

    fn noise_level(&self) -> (r: NoiseLevel)
        ensures
            r == NoiseLevel::Medium,
    {
        NoiseLevel::Medium
    }

    fn subscribers(&self) -> (r: Vec<events::Type>)
        ensures
            events::categories_of(r@) == seq![Category::OpenPort],
    {
        let r = vec![events::Type::OpenPort(String::new(), 0)];
        assert(events::categories_of(r@) =~= seq![Category::OpenPort]);
        r
    }
}

} // verus!
