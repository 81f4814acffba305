//! Regular expressions, matched by the `regex` crate.
use crate::helpers::text::texts_in;
use vstd::prelude::*;

verus! {

/// What `regex::escape` makes of a text: the text with every character that
/// has a meaning in a regular expression escaped.
pub uninterp spec fn regex_escaped(text: Seq<char>) -> Seq<char>;

/// What the first group of a pattern takes in a text: `None` where the
/// pattern does not compile; else, for each match of the pattern from left
/// to right, the part of the text that the first group took, or `None`
/// where the group took no part in the match.
pub uninterp spec fn regex_first_groups(pattern: Seq<char>, text: Seq<char>) -> Option<
    Seq<Option<Seq<char>>>,
>;

/// The texts of a list of optional strings.
pub open spec fn group_texts(groups: Seq<Option<String>>) -> Seq<Option<Seq<char>>> {
    Seq::new(
        groups.len(),
        |i: int|
            match groups[i] {
                Some(s) => Some(s@),
                None => None,
            },
    )
}

/// Calls `regex::escape`. The result is named.
#[verifier::external_body]
pub(crate) fn escape(text: &str) -> (r: String)
    ensures
        r@ == regex_escaped(text@),
{
    regex::escape(text)
}

/// Compiles the pattern with `Regex::new` and walks the matches with
/// `Regex::captures_iter`, taking group 1 of each with `Captures::get`.
/// `None` where the pattern does not compile. The result is named.
#[verifier::external_body]
pub(crate) fn first_groups(pattern: &str, text: &str) -> (r: Option<Vec<Option<String>>>)
    ensures
        r is Some == regex_first_groups(pattern@, text@) is Some,
        r is Some ==> group_texts(r->0@) == regex_first_groups(pattern@, text@)->0,
{
    match regex::Regex::new(pattern) {
        Ok(re) => Some(
            re.captures_iter(text).map(|c| c.get(1).map(|m| m.as_str().to_string())).collect(),
        ),
        Err(_) => None,
    }
}

/// The groups that took part, in order.
pub open spec fn present(groups: Seq<Option<Seq<char>>>) -> Seq<Seq<char>>
    decreases groups.len(),
{
    if groups.len() == 0 {
        Seq::empty()
    } else {
        match groups.last() {
            Some(s) => present(groups.drop_last()).push(s),
            None => present(groups.drop_last()),
        }
    }
}

/// Keeps the groups that took part in their match, in order.
pub fn collect_present(groups: Vec<Option<String>>) -> (r: Vec<String>)
    ensures
        texts_in(r@) == present(group_texts(groups@)),
{
    let mut r: Vec<String> = Vec::new();
    let n = groups.len();
    let mut i: usize = 0;
    while i < n
        invariant
            i <= n,
            n == groups@.len(),
            texts_in(r@) == present(group_texts(groups@).take(i as int)),
        decreases n - i,
    {
        proof {
            let all = group_texts(groups@);
            assert(all.take(i as int + 1).drop_last() =~= all.take(i as int));
            assert(all.take(i as int + 1).last() == all[i as int]);
        }
        let ghost before = r@;
        match &groups[i] {
            Some(s) => {
                r.push(s.clone());
                assert(texts_in(r@) =~= texts_in(before).push(s@));
            },
            None => {},
        }
        i += 1;
    }
    assert(group_texts(groups@).take(n as int) =~= group_texts(groups@));
    r
}

/// The first group of the first match, where the pattern compiles, matches,
/// and the group took part.
pub open spec fn first_present(found: Option<Seq<Option<Seq<char>>>>) -> Option<Seq<char>> {
    match found {
        Some(groups) => if groups.len() > 0 {
            groups[0]
        } else {
            None
        },
        None => None,
    }
}

/// What the first group took in the first match, if anything.
pub fn take_first(found: Option<Vec<Option<String>>>) -> (r: Option<String>)
    ensures
        r is Some == first_present(
            match found {
                Some(groups) => Some(group_texts(groups@)),
                None => None,
            },
        ) is Some,
        r is Some ==> Some(r->0@) == first_present(
            match found {
                Some(groups) => Some(group_texts(groups@)),
                None => None,
            },
        ),
{
    match found {
        Some(groups) => {
            if groups.len() > 0 {
                match &groups[0] {
                    Some(s) => Some(s.clone()),
                    None => None,
                }
            } else {
                None
            }
        },
        None => None,
    }
}

} // verus!
