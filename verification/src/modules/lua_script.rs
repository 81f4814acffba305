//! What a script tells of itself in words, read as the dispatcher needs it.
use crate::events;
use crate::events::{Category, EventView};
use crate::modules::NoiseLevel;
use vstd::prelude::*;

verus! {

/// The noise level that a script names: `None`, `Low` or `High`; any other
/// word stands for the default, `Medium`.
pub open spec fn noise_level_named(name: Seq<char>) -> NoiseLevel {
    if name == "None"@ {
        NoiseLevel::Silent
    } else if name == "Low"@ {
        NoiseLevel::Low
    } else if name == "High"@ {
        NoiseLevel::High
    } else {
        NoiseLevel::Medium
    }
}

pub fn noise_level_of(name: &str) -> (r: NoiseLevel)
    ensures
        r == noise_level_named(name@),
{
    let name = String::from_str(name);
    if name == String::from_str("None") {
        NoiseLevel::Silent
    } else if name == String::from_str("Low") {
        NoiseLevel::Low
    } else if name == String::from_str("High") {
        NoiseLevel::High
    } else {
        NoiseLevel::default()
    }
}

/// The category that a script subscribes to by a word, if the word names
/// one: `Ready`, `DiscoveredDomain` or `OpenPort`.
pub open spec fn category_named(name: Seq<char>) -> Option<Category> {
    if name == "Ready"@ {
        Some(Category::Ready)
    } else if name == "DiscoveredDomain"@ {
        Some(Category::DiscoveredDomain)
    } else if name == "OpenPort"@ {
        Some(Category::OpenPort)
    } else {
        None
    }
}

/// The subscription that a word of a script stands for, with placeholders
/// for the payload; `None` for a word that names no category.
pub fn subscription_of(name: &str) -> (r: Option<events::Type>)
    ensures
        r is Some == category_named(name@) is Some,
        r is Some ==> events::category_of(r->0@) == category_named(name@)->0,
        r is Some ==> r->0@ == EventView::Ready || r->0@ == EventView::DiscoveredDomain(
            Seq::empty(),
        ) || r->0@ == EventView::OpenPort(Seq::empty(), 0),
{
    let name = String::from_str(name);
    if name == String::from_str("Ready") {
        Some(events::Type::Ready)
    } else if name == String::from_str("DiscoveredDomain") {
        Some(events::Type::DiscoveredDomain(String::new()))
    } else if name == String::from_str("OpenPort") {
        Some(events::Type::OpenPort(String::new(), 0))
    } else {
        None
    }
}

/// The categories that a list of words names, in order; words that name
/// none are left out.
pub open spec fn categories_named(names: Seq<String>) -> Seq<Category>
    decreases names.len(),
{
    if names.len() == 0 {
        Seq::empty()
    } else {
        match category_named(names.last()@) {
            Some(category) => categories_named(names.drop_last()).push(category),
            None => categories_named(names.drop_last()),
        }
    }
}

/// The subscriptions that the words of a script stand for.
pub fn subscriptions_of(names: &Vec<String>) -> (r: Vec<events::Type>)
    ensures
        events::categories_of(r@) == categories_named(names@),
{
    let mut r: Vec<events::Type> = Vec::new();
    let n = names.len();
    let mut i: usize = 0;
    assert(events::categories_of(r@) =~= categories_named(names@.take(0)));
    while i < n
        invariant
            i <= n,
            n == names@.len(),
            events::categories_of(r@) == categories_named(names@.take(i as int)),
        decreases n - i,
    {
        proof {
            assert(names@.take(i as int + 1).drop_last() =~= names@.take(i as int));
            assert(names@.take(i as int + 1).last() == names@[i as int]);
        }
        let ghost before = r@;
        match subscription_of(names[i].as_str()) {
            Some(event) => {
                r.push(event);
                assert(events::categories_of(r@) =~= events::categories_of(before).push(
                    events::category_of(event@),
                ));
            },
            None => {},
        }
        i += 1;
    }
    assert(names@.take(n as int) =~= names@);
    r
}

} // verus!
