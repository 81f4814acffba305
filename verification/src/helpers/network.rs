//! Where an address lies.
use crate::json::{
    json_object, json_text, value_from_string, value_insert, value_new_object, value_null,
};
use serde_json::Value;
use vstd::prelude::*;

verus! {

/// The place of an address, as far as it is known.
#[derive(Debug)]
pub struct GeoInfo {
    city: Option<String>,
    country: Option<String>,
}

/// What a JSON value holds of an optional text: the text, or nothing where
/// the value is no string.
pub open spec fn optional_text(text: Option<String>) -> Option<Seq<char>> {
    match text {
        Some(s) => Some(s@),
        None => None,
    }
}

fn optional_value(text: &Option<String>) -> (v: Value)
    ensures
        json_text(v) == optional_text(*text),
{
    match text {
        Some(s) => value_from_string(s.clone()),
        None => value_null(),
    }
}

impl GeoInfo {
    pub fn new(city: Option<String>, country: Option<String>) -> (r: GeoInfo)
        ensures
            r.city() == optional_text(city),
            r.country() == optional_text(country),
    {
        GeoInfo { city, country }
    }

    pub closed spec fn city(&self) -> Option<Seq<char>> {
        optional_text(self.city)
    }

    pub closed spec fn country(&self) -> Option<Seq<char>> {
        optional_text(self.country)
    }

    /// The place as a JSON object with the keys `city` and `country`: under
    /// each a string, or null where the part is not known.
    pub fn to_json_value(&self) -> (r: Value)
        ensures
            json_object(r) is Some,
            json_object(r)->0.dom() == set!["city"@, "country"@],
            json_text(json_object(r)->0["city"@]) == self.city(),
            json_text(json_object(r)->0["country"@]) == self.country(),
    {
        let mut object = value_new_object();
        value_insert(&mut object, String::from_str("city"), optional_value(&self.city));
        value_insert(&mut object, String::from_str("country"), optional_value(&self.country));
        proof {
            assert("city"@ != "country"@) by {
                reveal_strlit("city");
                reveal_strlit("country");
                assert("city"@.len() == 4);
                assert("country"@.len() == 7);
            }
            assert(json_object(object)->0.dom() =~= set!["city"@, "country"@]);
        }
        object
    }
}

} // verus!
