//! The facts of a node: values under string keys, each key once.
use crate::json::{json_object, value_clone, value_insert, value_new_object};
use serde_json::Value;
use vstd::prelude::*;

verus! {

/// `i` is the first position in `entries` whose key is `key`.
pub open spec fn entry_index(entries: Seq<(String, Value)>, key: Seq<char>, i: int) -> bool {
    &&& 0 <= i < entries.len()
    &&& (#[trigger] entries[i]).0@ == key
    &&& forall|j: int| 0 <= j < i ==> (#[trigger] entries[j]).0@ != key
}

/// The facts that a list of entries stands for: under each key, the value of
/// the first entry that has it.
pub open spec fn facts_of(entries: Seq<(String, Value)>) -> Map<Seq<char>, Value> {
    Map::new(
        |k: Seq<char>| exists|i: int| entry_index(entries, k, i),
        |k: Seq<char>| entries[choose|i: int| entry_index(entries, k, i)].1,
    )
}

/// No key stands at two places.
pub open spec fn distinct_keys(entries: Seq<(String, Value)>) -> bool {
    forall|i: int, j: int|
        0 <= i < j < entries.len() ==> (#[trigger] entries[i]).0@ != (#[trigger] entries[j]).0@
}

proof fn lemma_entry_found(entries: Seq<(String, Value)>, key: Seq<char>, i: int)
    requires
        entry_index(entries, key, i),
    ensures
        facts_of(entries).contains_key(key),
        facts_of(entries)[key] == entries[i].1,
{
    let c = choose|c: int| entry_index(entries, key, c);
    assert(entry_index(entries, key, c));
    assert(c == i) by {
        if c < i {
            assert(entries[c].0@ != key);
        } else if i < c {
            assert(entries[i].0@ != key);
        }
    }
}

proof fn lemma_entry_absent(entries: Seq<(String, Value)>, key: Seq<char>)
    requires
        forall|j: int| 0 <= j < entries.len() ==> (#[trigger] entries[j]).0@ != key,
    ensures
        !facts_of(entries).contains_key(key),
{
    if facts_of(entries).contains_key(key) {
        let c = choose|c: int| entry_index(entries, key, c);
        assert(entry_index(entries, key, c));
        assert(entries[c].0@ != key);
    }
}

/// Two lists with the same keys at the same places, but for the place `at`
/// whose key is `key` in the second: under every other key they hold the same.
proof fn lemma_other_keys(
    before: Seq<(String, Value)>,
    after: Seq<(String, Value)>,
    key: Seq<char>,
    other: Seq<char>,
)
    requires
        other != key,
        before.len() <= after.len() <= before.len() + 1,
        forall|j: int|
            0 <= j < before.len() && (#[trigger] before[j]).0@ != key ==> after[j] == before[j],
        forall|j: int|
            0 <= j < before.len() && (#[trigger] before[j]).0@ == key ==> after[j].0@ == key,
        after.len() > before.len() ==> after[before.len() as int].0@ == key,
    ensures
        facts_of(after).contains_key(other) == facts_of(before).contains_key(other),
        facts_of(before).contains_key(other) ==> facts_of(after)[other] == facts_of(
            before,
        )[other],
{
    if facts_of(before).contains_key(other) {
        let c = choose|c: int| entry_index(before, other, c);
        assert(entry_index(before, other, c));
        assert forall|j: int| 0 <= j < c implies (#[trigger] after[j]).0@ != other by {
            assert(before[j].0@ != other);
        }
        assert(after[c] == before[c]);
        assert(entry_index(after, other, c));
        lemma_entry_found(after, other, c);
        lemma_entry_found(before, other, c);
    } else if facts_of(after).contains_key(other) {
        let c = choose|c: int| entry_index(after, other, c);
        assert(entry_index(after, other, c));
        assert(c < before.len());
        assert(before[c].0@ != key ==> after[c] == before[c]);
        assert(before[c].0@ == other);
        assert forall|j: int| 0 <= j < c implies (#[trigger] before[j]).0@ != other by {
            assert(after[j].0@ != other);
        }
        assert(entry_index(before, other, c));
    }
}

/// Two lists that hold the same keys and values at the same places stand for
/// the same facts.
proof fn lemma_same_entries(a: Seq<(String, Value)>, b: Seq<(String, Value)>)
    requires
        a.len() == b.len(),
        forall|j: int|
            0 <= j < a.len() ==> (#[trigger] a[j]).0@ == b[j].0@ && a[j].1 == b[j].1,
    ensures
        facts_of(a) == facts_of(b),
{
    assert forall|k: Seq<char>| #[trigger]
        facts_of(a).contains_key(k) == facts_of(b).contains_key(k) && (facts_of(a).contains_key(k)
            ==> facts_of(a)[k] == facts_of(b)[k]) by {
        if facts_of(a).contains_key(k) {
            let c = choose|c: int| entry_index(a, k, c);
            assert(entry_index(a, k, c));
            assert forall|j: int| 0 <= j < c implies (#[trigger] b[j]).0@ != k by {
                assert(a[j].0@ != k);
            }
            assert(b[c].0@ == a[c].0@);
            assert(entry_index(b, k, c));
            lemma_entry_found(a, k, c);
            lemma_entry_found(b, k, c);
        } else if facts_of(b).contains_key(k) {
            let c = choose|c: int| entry_index(b, k, c);
            assert(entry_index(b, k, c));
            assert forall|j: int| 0 <= j < c implies (#[trigger] a[j]).0@ != k by {
                assert(a[j].0@ == b[j].0@);
                assert(b[j].0@ != k);
            }
            assert(a[c].0@ == b[c].0@);
            assert(entry_index(a, k, c));
        }
    }
    assert(facts_of(a).dom() =~= facts_of(b).dom());
    assert(facts_of(a) =~= facts_of(b));
}

/// One more entry behind a list that does not hold its key is one more fact.
proof fn lemma_facts_push(entries: Seq<(String, Value)>, entry: (String, Value))
    requires
        forall|j: int| 0 <= j < entries.len() ==> (#[trigger] entries[j]).0@ != entry.0@,
    ensures
        facts_of(entries.push(entry)) == facts_of(entries).insert(entry.0@, entry.1),
{
    let after = entries.push(entry);
    let k = entry.0@;
    assert(entry_index(after, k, entries.len() as int));
    lemma_entry_found(after, k, entries.len() as int);
    assert forall|other: Seq<char>|
        facts_of(after).contains_key(other) == facts_of(entries).insert(
            k,
            entry.1,
        ).contains_key(other) by {
        if other != k {
            lemma_other_keys(entries, after, k, other);
        }
    }
    assert forall|other: Seq<char>| other != k && facts_of(entries).contains_key(
        other,
    ) implies facts_of(after)[other] == facts_of(entries)[other] by {
        lemma_other_keys(entries, after, k, other);
    }
    assert(facts_of(after).dom() =~= facts_of(entries).insert(k, entry.1).dom());
    assert(facts_of(after) =~= facts_of(entries).insert(k, entry.1));
}

/// Values under string keys. A key is kept once, at the place where it was
/// first written.
#[derive(Debug)]
pub struct Facts {
    entries: Vec<(String, Value)>,
}

impl View for Facts {
    type V = Map<Seq<char>, Value>;

    closed spec fn view(&self) -> Map<Seq<char>, Value> {
        facts_of(self.entries@)
    }
}

impl Facts {
    #[verifier::type_invariant]
    spec fn each_key_once(&self) -> bool {
        distinct_keys(self.entries@)
    }

    pub fn new() -> (r: Facts)
        ensures
            r@ == Map::<Seq<char>, Value>::empty(),
    {
        let r = Facts { entries: Vec::new() };
        proof {
            assert(r@ =~= Map::<Seq<char>, Value>::empty());
        }
        r
    }

    fn find_key(&self, key: &String) -> (r: Option<usize>)
        ensures
            match r {
                Some(i) => entry_index(self.entries@, key@, i as int),
                None => forall|j: int|
                    0 <= j < self.entries@.len() ==> (#[trigger] self.entries@[j]).0@ != key@,
            },
    {
        let n = self.entries.len();
        let mut i: usize = 0;
        while i < n
            invariant
                n == self.entries@.len(),
                i <= n,
                forall|j: int| 0 <= j < i ==> (#[trigger] self.entries@[j]).0@ != key@,
            decreases n - i,
        {
            if self.entries[i].0 == *key {
                return Some(i);
            }
            i += 1;
        }
        None
    }

    /// Puts `value` under `key`, in place of what was there.
    pub fn insert(&mut self, key: String, value: Value)
        ensures
            final(self)@ == old(self)@.insert(key@, value),
    {
        proof {
            use_type_invariant(&*self);
        }
        let ghost before = self.entries@;
        let ghost k = key@;
        let found = self.find_key(&key);
        let mut entries: Vec<(String, Value)> = Vec::new();
        std::mem::swap(&mut self.entries, &mut entries);
        let at: usize = match found {
            Some(i) => {
                entries.set(i, (key, value));
                i
            },
            None => {
                entries.push((key, value));
                entries.len() - 1
            },
        };
        proof {
            let after = entries@;
            assert(entry_index(after, k, at as int));
            lemma_entry_found(after, k, at as int);
            assert(after[at as int].1 == value);
            assert(facts_of(after)[k] == value);
            assert forall|other: Seq<char>| other != k implies (facts_of(after).contains_key(other)
                == facts_of(before).contains_key(other)) && (facts_of(before).contains_key(other)
                ==> facts_of(after)[other] == facts_of(before)[other]) by {
                lemma_other_keys(before, after, k, other);
            }
            assert forall|other: Seq<char>|
                facts_of(after).contains_key(other) == facts_of(before).insert(
                    k,
                    value,
                ).contains_key(other) by {
                if other != k {
                    lemma_other_keys(before, after, k, other);
                }
            }
            assert(facts_of(after).dom() =~= facts_of(before).insert(k, value).dom());
            assert(facts_of(after) =~= facts_of(before).insert(k, value));
            assert forall|i: int, j: int| 0 <= i < j < after.len() implies (#[trigger] after[i]).0@
                != (#[trigger] after[j]).0@ by {
                if j < before.len() {
                    assert(before[i].0@ != before[j].0@);
                    assert(after[i].0@ == before[i].0@);
                    assert(after[j].0@ == before[j].0@);
                } else {
                    assert(before[i].0@ != k);
                    assert(after[i] == before[i]);
                }
            }
        }
        std::mem::swap(&mut self.entries, &mut entries);
    }

    /// The value under `key`, if there is one.
    pub fn get(&self, key: &String) -> (r: Option<&Value>)
        ensures
            r is Some == self@.contains_key(key@),
            r is Some ==> *r->0 == self@[key@],
    {
        match self.find_key(key) {
            Some(i) => {
                proof {
                    lemma_entry_found(self.entries@, key@, i as int);
                }
                Some(&self.entries[i].1)
            },
            None => {
                proof {
                    lemma_entry_absent(self.entries@, key@);
                }
                None
            },
        }
    }

    /// Copies of the facts, each with its key, in the order in which the
    /// keys were first written. No key comes twice.
    pub fn entries(&self) -> (r: Vec<(String, Value)>)
        ensures
            facts_of(r@) == self@,
            distinct_keys(r@),
    {
        proof {
            use_type_invariant(self);
        }
        let mut data: Vec<(String, Value)> = Vec::new();
        let m = self.entries.len();
        let mut k: usize = 0;
        while k < m
            invariant
                k <= m,
                m == self.entries@.len(),
                data@.len() == k,
                forall|j: int|
                    0 <= j < k ==> (#[trigger] data@[j]).0@ == self.entries@[j].0@ && data@[j].1
                        == self.entries@[j].1,
            decreases m - k,
        {
            let key = self.entries[k].0.clone();
            let value = value_clone(&self.entries[k].1);
            data.push((key, value));
            k += 1;
        }
        proof {
            lemma_same_entries(data@, self.entries@);
            assert forall|i: int, j: int| 0 <= i < j < data@.len() implies (#[trigger] data@[i]).0@
                != (#[trigger] data@[j]).0@ by {
                assert(self.entries@[i].0@ != self.entries@[j].0@);
            }
        }
        data
    }

    /// The facts as a JSON object: each value under its key.
    pub fn to_json_value(&self) -> (r: Value)
        ensures
            json_object(r) == Some(self@),
    {
        proof {
            use_type_invariant(self);
        }
        let mut object = value_new_object();
        let n = self.entries.len();
        let mut i: usize = 0;
        assert(facts_of(self.entries@.take(0)) =~= Map::<Seq<char>, Value>::empty());
        while i < n
            invariant
                i <= n,
                n == self.entries@.len(),
                distinct_keys(self.entries@),
                json_object(object) == Some(facts_of(self.entries@.take(i as int))),
            decreases n - i,
        {
            proof {
                let before = self.entries@.take(i as int);
                assert(self.entries@.take(i as int + 1) =~= before.push(self.entries@[i as int]));
                assert forall|j: int| 0 <= j < before.len() implies (#[trigger] before[j]).0@
                    != self.entries@[i as int].0@ by {
                    assert(before[j] == self.entries@[j]);
                }
                lemma_facts_push(before, self.entries@[i as int]);
            }
            let key = self.entries[i].0.clone();
            let value = value_clone(&self.entries[i].1);
            value_insert(&mut object, key, value);
            i += 1;
        }
        assert(self.entries@.take(n as int) =~= self.entries@);
        object
    }

    /// A copy of the facts.
    pub fn duplicate(&self) -> (r: Facts)
        ensures
            r@ == self@,
    {
        let entries = self.entries();
        Facts { entries }
    }
}

} // verus!
