//! Lists of numbers and ranges, such as `200-299,301,302`.
use crate::helpers::text::{lemma_position_is, position_of};
use vstd::prelude::*;

verus! {

pub open spec fn is_digit(c: char) -> bool {
    '0' <= c && c <= '9'
}

pub open spec fn digit_value(c: char) -> nat {
    (c as u32 - '0' as u32) as nat
}

/// The number that a text of decimal digits stands for.
pub open spec fn digits_value(s: Seq<char>) -> nat
    decreases s.len(),
{
    if s.len() == 0 {
        0
    } else {
        digits_value(s.drop_last()) * 10 + digit_value(s.last())
    }
}

pub open spec fn all_digits(s: Seq<char>) -> bool {
    forall|i: int| 0 <= i < s.len() ==> is_digit(#[trigger] s[i])
}

/// A text without the plus sign in front of it, if it has one.
pub open spec fn unsigned_part(s: Seq<char>) -> Seq<char> {
    if s.len() > 0 && s[0] == '+' {
        s.subrange(1, s.len() as int)
    } else {
        s
    }
}

/// The number that a text stands for: decimal digits, at least one, with or
/// without a plus sign in front, and a value that fits a `usize`. Any other
/// text stands for no number.
pub open spec fn number_of(s: Seq<char>) -> Option<usize> {
    let body = unsigned_part(s);
    if body.len() > 0 && all_digits(body) && digits_value(body) <= usize::MAX {
        Some(digits_value(body) as usize)
    } else {
        None
    }
}

/// The numbers from `start` to `end`, both included; none where `start` is
/// the larger.
pub open spec fn range_inclusive(start: usize, end: usize) -> Seq<usize> {
    if start > end {
        Seq::empty()
    } else {
        Seq::new((end - start + 1) as nat, |i: int| (start + i) as usize)
    }
}

/// The numbers of one item of a list. An item with exactly one hyphen is a
/// range, and both its ends must be numbers. Of any other item the part
/// before the first hyphen counts, and must be a number.
pub open spec fn item_values(item: Seq<char>) -> Option<Seq<usize>> {
    let first = position_of(item, '-');
    if first == item.len() {
        match number_of(item) {
            Some(n) => Some(seq![n]),
            None => None,
        }
    } else {
        let rest = item.subrange(first + 1, item.len() as int);
        if position_of(rest, '-') == rest.len() {
            match (number_of(item.subrange(0, first)), number_of(rest)) {
                (Some(start), Some(end)) => Some(range_inclusive(start, end)),
                _ => None,
            }
        } else {
            match number_of(item.subrange(0, first)) {
                Some(n) => Some(seq![n]),
                None => None,
            }
        }
    }
}

/// The numbers of a list of items with commas between them, in the order of
/// the items, or `None` where an item is malformed.
pub open spec fn range_values(s: Seq<char>) -> Option<Seq<usize>>
    decreases s.len(),
{
    let comma = position_of(s, ',');
    if comma < 0 || comma >= s.len() {
        item_values(s)
    } else {
        match (
            item_values(s.subrange(0, comma)),
            range_values(s.subrange(comma + 1, s.len() as int)),
        ) {
            (Some(head), Some(tail)) => Some(head + tail),
            _ => None,
        }
    }
}

proof fn lemma_digits_value_grows(s: Seq<char>, k: int)
    requires
        0 <= k <= s.len(),
    ensures
        digits_value(s.subrange(0, k)) <= digits_value(s),
    decreases s.len(),
{
    if k == s.len() {
        assert(s.subrange(0, k) =~= s);
    } else {
        lemma_digits_value_grows(s.drop_last(), k);
        assert(s.drop_last().subrange(0, k) =~= s.subrange(0, k));
    }
}

/// The place of the first `c` among the characters of `s` from `from` up to
/// `to`, or `to` where there is none.
fn find_char(s: &str, from: usize, to: usize, c: char) -> (r: usize)
    requires
        from <= to <= s@.len(),
    ensures
        from <= r <= to,
        r - from == position_of(s@.subrange(from as int, to as int), c),
{
    let mut i = from;
    let mut found = false;
    while i < to && !found
        invariant
            from <= i <= to,
            to <= s@.len(),
            forall|j: int| from <= j < i ==> s@[j] != c,
            found ==> i < to && s@[i as int] == c,
        decreases to - i + if found {
            0int
        } else {
            1int
        },
    {
        if s.get_char(i) == c {
            found = true;
        } else {
            i += 1;
        }
    }
    proof {
        let part = s@.subrange(from as int, to as int);
        assert forall|j: int| 0 <= j < i - from implies part[j] != c by {
            assert(part[j] == s@[from + j]);
        }
        lemma_position_is(part, c, i - from);
    }
    i
}

/// The number that the characters of `s` from `from` up to `to` stand for.
fn parse_number(s: &str, from: usize, to: usize) -> (r: Option<usize>)
    requires
        from <= to <= s@.len(),
    ensures
        r == number_of(s@.subrange(from as int, to as int)),
{
    let ghost whole = s@.subrange(from as int, to as int);
    let mut start = from;
    if from < to && s.get_char(from) == '+' {
        start = from + 1;
    }
    let ghost body = unsigned_part(whole);
    assert(body =~= s@.subrange(start as int, to as int));
    if start == to {
        return None;
    }
    let mut acc: usize = 0;
    let mut i = start;
    while i < to
        invariant
            start <= i <= to,
            to <= s@.len(),
            body == s@.subrange(start as int, to as int),
            body == unsigned_part(s@.subrange(from as int, to as int)),
            acc == digits_value(body.subrange(0, i - start)),
            forall|j: int| 0 <= j < i - start ==> is_digit(#[trigger] body[j]),
        decreases to - i,
    {
        let c = s.get_char(i);
        assert(c == body[i - start]);
        if c < '0' || c > '9' {
            assert(!is_digit(body[i - start]));
            return None;
        }
        let d = (c as u32 - '0' as u32) as usize;
        proof {
            let next = body.subrange(0, i - start + 1);
            assert(next.drop_last() =~= body.subrange(0, i - start));
            assert(next.last() == c);
            assert(digits_value(next) == acc * 10 + d);
            lemma_digits_value_grows(body, i - start + 1);
        }
        if acc > (usize::MAX - d) / 10 {
            return None;
        }
        acc = acc * 10 + d;
        i += 1;
    }
    assert(body.subrange(0, to - start) =~= body);
    Some(acc)
}

/// Appends the numbers from `start` to `end`, both included.
fn push_range(values: &mut Vec<usize>, start: usize, end: usize)
    ensures
        final(values)@ == old(values)@ + range_inclusive(start, end),
{
    if start > end {
        assert(values@ =~= old(values)@ + range_inclusive(start, end));
        return ;
    }
    let mut v = start;
    while v < end
        invariant
            start <= v <= end,
            values@ == old(values)@ + Seq::new((v - start) as nat, |i: int| (start + i) as usize),
        decreases end - v,
    {
        values.push(v);
        v += 1;
        assert(values@ =~= old(values)@ + Seq::new(
            (v - start) as nat,
            |i: int| (start + i) as usize,
        ));
    }
    values.push(end);
    assert(values@ =~= old(values)@ + range_inclusive(start, end));
}

/// Appends the numbers of the item that the characters of `s` from `from`
/// up to `to` make, and says whether the item was well formed. Where it was
/// not, nothing is appended.
fn push_item(values: &mut Vec<usize>, s: &str, from: usize, to: usize) -> (ok: bool)
    requires
        from <= to <= s@.len(),
    ensures
        ok == item_values(s@.subrange(from as int, to as int)) is Some,
        ok ==> final(values)@ == old(values)@ + item_values(
            s@.subrange(from as int, to as int),
        )->0,
        !ok ==> final(values)@ == old(values)@,
{
    let ghost item = s@.subrange(from as int, to as int);
    let first = find_char(s, from, to, '-');
    if first == to {
        return match parse_number(s, from, to) {
            Some(n) => {
                values.push(n);
                assert(values@ =~= old(values)@ + seq![n]);
                true
            },
            None => false,
        };
    }
    let second = find_char(s, first + 1, to, '-');
    proof {
        assert(item.subrange(first - from + 1, item.len() as int) =~= s@.subrange(
            first + 1,
            to as int,
        ));
        assert(item.subrange(0, first - from) =~= s@.subrange(from as int, first as int));
    }
    if second == to {
        match parse_number(s, from, first) {
            Some(start) => match parse_number(s, first + 1, to) {
                Some(end) => {
                    push_range(values, start, end);
                    true
                },
                None => false,
            },
            None => false,
        }
    } else {
        match parse_number(s, from, first) {
            Some(n) => {
                values.push(n);
                assert(values@ =~= old(values)@ + seq![n]);
                true
            },
            None => false,
        }
    }
}

/// The numbers of a list such as `200-299,301,302`, in the order of the
/// list, or `None` where the list is malformed.
pub fn try_parse_range(range: &str) -> (r: Option<Vec<usize>>)
    ensures
        r is Some == range_values(range@) is Some,
        r is Some ==> r->0@ == range_values(range@)->0,
{
    let n = range.unicode_len();
    let mut values: Vec<usize> = Vec::new();
    let mut pos: usize = 0;
    proof {
        assert(range@.subrange(0, n as int) =~= range@);
        match range_values(range@) {
            Some(tail) => {
                assert(values@ + tail =~= tail);
            },
            None => {},
        }
    }
    loop
        invariant
            pos <= n,
            n == range@.len(),
            range_values(range@) == match range_values(range@.subrange(pos as int, n as int)) {
                Some(tail) => Some(values@ + tail),
                None => None,
            },
        decreases n - pos,
    {
        let ghost rest = range@.subrange(pos as int, n as int);
        let ghost before = values@;
        let comma = find_char(range, pos, n, ',');
        proof {
            assert(rest.subrange(0, comma - pos) =~= range@.subrange(pos as int, comma as int));
            if comma < n {
                assert(rest.subrange(comma - pos + 1, rest.len() as int) =~= range@.subrange(
                    comma + 1,
                    n as int,
                ));
            } else {
                assert(rest =~= range@.subrange(pos as int, comma as int));
            }
        }
        let ok = push_item(&mut values, range, pos, comma);
        if !ok {
            return None;
        }
        if comma == n {
            return Some(values);
        }
        proof {
            let head = item_values(rest.subrange(0, comma - pos))->0;
            let after = range@.subrange(comma + 1, n as int);
            match range_values(after) {
                Some(tail) => {
                    assert(before + (head + tail) =~= (before + head) + tail);
                },
                None => {},
            }
        }
        pos = comma + 1;
    }
}

/// The numbers of a well-formed list such as `200-299,301,302`, in the
/// order of the list.
pub fn parse_range(range: &str) -> (r: Vec<usize>)
    requires
        range_values(range@) is Some,
    ensures
        r@ == range_values(range@)->0,
{
    match try_parse_range(range) {
        Some(values) => values,
        None => Vec::new(),
    }
}

} // verus!
