//! An ordered map from texts to texts.
use vstd::prelude::*;

use crate::text::{lemma_lt_total, lemma_lt_trans, text_eq, text_less, text_lt, trim_non_blank};
use crate::text::{is_blank, trimmed};

verus! {

/// A map from texts to texts that keeps its entries in the order of their keys.
#[derive(Debug)]
pub struct TextMap {
    entries: Vec<(String, String)>,
}

/// Whether the keys are in strictly ascending order.
spec fn ascending(entries: Seq<(String, String)>) -> bool {
    forall|i: int, j: int|
        0 <= i < j < entries.len() ==> text_lt(
            (#[trigger] entries[i]).0@,
            (#[trigger] entries[j]).0@,
        )
}

spec fn has_key(entries: Seq<(String, String)>, key: Seq<char>) -> bool {
    exists|i: int| 0 <= i < entries.len() && (#[trigger] entries[i]).0@ == key
}

spec fn index_of(entries: Seq<(String, String)>, key: Seq<char>) -> int {
    choose|i: int| 0 <= i < entries.len() && (#[trigger] entries[i]).0@ == key
}

spec fn map_of(entries: Seq<(String, String)>) -> Map<Seq<char>, Seq<char>> {
    Map::new(
        |key: Seq<char>| has_key(entries, key),
        |key: Seq<char>| entries[index_of(entries, key)].1@,
    )
}

proof fn lemma_map_of(entries: Seq<(String, String)>, i: int)
    requires
        ascending(entries),
        0 <= i < entries.len(),
    ensures
        map_of(entries).dom().contains(entries[i].0@),
        map_of(entries)[entries[i].0@] == entries[i].1@,
{
    let key = entries[i].0@;
    assert(has_key(entries, key));
    let k = index_of(entries, key);
    assert(0 <= k < entries.len() && entries[k].0@ == key);
    if k < i {
        lemma_lt_total(entries[k].0@, entries[i].0@);
    } else if i < k {
        lemma_lt_total(entries[i].0@, entries[k].0@);
    }
}

impl View for TextMap {
    type V = Map<Seq<char>, Seq<char>>;

    closed spec fn view(&self) -> Map<Seq<char>, Seq<char>> {
        map_of(self.entries@)
    }
}

impl TextMap {
    #[verifier::type_invariant]
    spec fn ordered(&self) -> bool {
        ascending(self.entries@)
    }

    /// The keys in order, with their values.
    pub closed spec fn pairs(&self) -> Seq<(Seq<char>, Seq<char>)> {
        Seq::new(self.entries@.len(), |i: int| (self.entries@[i].0@, self.entries@[i].1@))
    }

    pub fn new() -> (r: TextMap)
        ensures
            r@ == Map::<Seq<char>, Seq<char>>::empty(),
    {
        let r = TextMap { entries: Vec::new() };
        assert(r@ =~= Map::<Seq<char>, Seq<char>>::empty());
        r
    }

    pub fn len(&self) -> (r: usize)
        ensures
            r == self.pairs().len(),
    {
        self.entries.len()
    }

    /// The entry at a place in the order of the keys.
    pub fn entry(&self, i: usize) -> (r: (&String, &String))
        requires
            i < self.pairs().len(),
        ensures
            (r.0@, r.1@) == self.pairs()[i as int],
            self@.dom().contains(r.0@),
            self@[r.0@] == r.1@,
    {
        proof {
            use_type_invariant(self);
            lemma_map_of(self.entries@, i as int);
        }
        (&self.entries[i].0, &self.entries[i].1)
    }

    /// The entry whose key comes first.
    pub fn first(&self) -> (r: Option<(&String, &String)>)
        ensures
            match r {
                Some((key, value)) => least_key(self@) == Some(key@) && self@.dom().contains(key@)
                    && self@[key@] == value@,
                None => least_key(self@) is None,
            },
    {
        proof {
            use_type_invariant(self);
        }
        if self.entries.len() == 0 {
            assert(forall|key: Seq<char>| !self@.dom().contains(key));
            return None;
        }
        proof {
            lemma_map_of(self.entries@, 0);
            let first = self.entries@[0].0@;
            assert forall|other: Seq<char>| #[trigger] self@.dom().contains(other) implies !text_lt(
                other,
                first,
            ) by {
                let k = index_of(self.entries@, other);
                lemma_lt_total(first, other);
                if k > 0 {
                    assert(text_lt(self.entries@[0].0@, self.entries@[k].0@));
                }
            }
            assert(is_least(self@, first));
            let chosen = choose|key: Seq<char>| is_least(self@, key);
            lemma_lt_total(first, chosen);
            assert(self@.dom().contains(chosen));
            assert(self@.dom().contains(first));
        }
        Some((&self.entries[0].0, &self.entries[0].1))
    }

    pub fn get(&self, key: &str) -> (r: Option<&String>)
        ensures
            match r {
                Some(value) => self@.dom().contains(key@) && self@[key@] == value@,
                None => !self@.dom().contains(key@),
            },
    {
        proof {
            use_type_invariant(self);
        }
        let mut i: usize = 0;
        while i < self.entries.len()
            invariant
                i <= self.entries@.len(),
                ascending(self.entries@),
                forall|j: int| 0 <= j < i ==> (#[trigger] self.entries@[j]).0@ != key@,
            decreases self.entries@.len() - i,
        {
            if text_eq(self.entries[i].0.as_str(), key) {
                proof {
                    lemma_map_of(self.entries@, i as int);
                }
                return Some(&self.entries[i].1);
            }
            i = i + 1;
        }
        None
    }

    pub fn insert(&mut self, key: String, value: String)
        ensures
            final(self)@ == old(self)@.insert(key@, value@),
    {
        proof {
            use_type_invariant(&*self);
        }
        let mut entries: Vec<(String, String)> = Vec::new();
        std::mem::swap(&mut entries, &mut self.entries);
        let ghost before = entries@;
        let mut i: usize = 0;
        while i < entries.len() && text_less(entries[i].0.as_str(), key.as_str())
            invariant
                i <= entries@.len(),
                entries@ == before,
                forall|j: int| 0 <= j < i ==> text_lt((#[trigger] entries@[j]).0@, key@),
            decreases entries@.len() - i,
        {
            i = i + 1;
        }
        let ghost k = key@;
        let ghost v = value@;
        let ghost entry = (key, value);
        if i < entries.len() && text_eq(entries[i].0.as_str(), key.as_str()) {
            let ghost after = before.update(i as int, entry);
            assert(ascending(after)) by {
                assert forall|a: int, b: int| 0 <= a < b < after.len() implies text_lt(
                    (#[trigger] after[a]).0@,
                    (#[trigger] after[b]).0@,
                ) by {
                    assert(text_lt(before[a].0@, before[b].0@));
                }
            }
            entries.set(i, (key, value));
            proof {
                lemma_inserted(before, after, i as int, k, v);
            }
            self.entries = entries;
        } else {
            let ghost after = before.insert(i as int, entry);
            assert(ascending(after)) by {
                assert forall|a: int, b: int| 0 <= a < b < after.len() implies text_lt(
                    (#[trigger] after[a]).0@,
                    (#[trigger] after[b]).0@,
                ) by {
                    if i < before.len() {
                        lemma_lt_total(before[i as int].0@, k);
                    }
                    let x = if a < i { a } else { a - 1 };
                    let y = if b < i { b } else { b - 1 };
                    if a == i {
                        if y > i {
                            assert(text_lt(before[i as int].0@, before[y].0@));
                            lemma_lt_trans(k, before[i as int].0@, before[y].0@);
                        }
                    } else if b != i {
                        assert(text_lt(before[x].0@, before[y].0@));
                    }
                }
            }
            entries.insert(i, (key, value));
            proof {
                lemma_inserted(before, after, i as int, k, v);
            }
            self.entries = entries;
        }
    }

    /// Whether two maps hold the same entries.
    pub fn same(&self, other: &TextMap) -> (r: bool)
        ensures
            r == (self@ == other@),
    {
        let r = self.within(other) && other.within(self);
        assert(r ==> self@ =~= other@);
        r
    }

    fn within(&self, other: &TextMap) -> (r: bool)
        ensures
            r == (forall|key: Seq<char>| #[trigger]
                self@.dom().contains(key) ==> other@.dom().contains(key) && other@[key]
                    == self@[key]),
    {
        proof {
            use_type_invariant(self);
        }
        let mut i: usize = 0;
        while i < self.entries.len()
            invariant
                i <= self.entries@.len(),
                ascending(self.entries@),
                forall|j: int|
                    0 <= j < i ==> other@.dom().contains((#[trigger] self.entries@[j]).0@)
                        && other@[self.entries@[j].0@] == self.entries@[j].1@,
            decreases self.entries@.len() - i,
        {
            proof {
                lemma_map_of(self.entries@, i as int);
                assert(self@.dom().contains(self.entries@[i as int].0@));
            }
            match other.get(self.entries[i].0.as_str()) {
                Some(value) => {
                    if !text_eq(value.as_str(), self.entries[i].1.as_str()) {
                        return false;
                    }
                },
                None => {
                    return false;
                },
            }
            i = i + 1;
        }
        assert forall|key: Seq<char>| #[trigger]
            self@.dom().contains(key) implies other@.dom().contains(key) && other@[key]
            == self@[key] by {
            let k = index_of(self.entries@, key);
            lemma_map_of(self.entries@, k);
        }
        true
    }

    /// The map with every key and value trimmed, without the blank ones. Where several keys trim
    /// to the same text, the last of them in order counts.
    pub fn trimmed(&self) -> (r: TextMap)
        ensures
            trimmed_map(self@, r@),
    {
        proof {
            use_type_invariant(self);
        }
        let mut out = TextMap::new();
        let mut i: usize = 0;
        while i < self.entries.len()
            invariant
                i <= self.entries@.len(),
                ascending(self.entries@),
                forall|key: Seq<char>| #[trigger]
                    out@.dom().contains(key) ==> exists|j: int|
                        0 <= j < i && last_source(self.entries@, i as int, j, key) && out@[key]
                            == trimmed(self.entries@[j].1@),
                forall|j: int|
                    0 <= j < i && usable((#[trigger] self.entries@[j]).0@, self.entries@[j].1@)
                        ==> out@.dom().contains(trimmed(self.entries@[j].0@)),
            decreases self.entries@.len() - i,
        {
            let ghost before = out@;
            let ghost id = self.entries@[i as int].0@;
            let ghost value = self.entries@[i as int].1@;
            match trim_non_blank(self.entries[i].0.as_str()) {
                Some(key) => match trim_non_blank(self.entries[i].1.as_str()) {
                    Some(value) => {
                        out.insert(key, value);
                    },
                    None => {},
                },
                None => {},
            }
            i = i + 1;
            assert forall|key: Seq<char>| #[trigger] out@.dom().contains(key) implies exists|j: int|
                0 <= j < i && last_source(self.entries@, i as int, j, key) && out@[key] == trimmed(
                    self.entries@[j].1@,
                ) by {
                if usable(id, value) && trimmed(id) == key {
                    assert(last_source(self.entries@, i as int, i - 1, key));
                } else {
                    assert(before.dom().contains(key));
                    let j = choose|j: int|
                        0 <= j < i - 1 && last_source(self.entries@, i - 1, j, key) && before[key]
                            == trimmed(self.entries@[j].1@);
                    assert(last_source(self.entries@, i as int, j, key));
                }
            }
        }
        proof {
            let n = self.entries@.len() as int;
            assert forall|key: Seq<char>| #[trigger] out@.dom().contains(key) implies exists|
                id: Seq<char>,
            |
                last_id(self@, id, key) && out@[key] == trimmed(self@[id]) by {
                let j = choose|j: int|
                    0 <= j < n && last_source(self.entries@, n, j, key) && out@[key] == trimmed(
                        self.entries@[j].1@,
                    );
                lemma_map_of(self.entries@, j);
                let id = self.entries@[j].0@;
                assert forall|other: Seq<char>| #[trigger]
                    self@.dom().contains(other) && trims_to(self@, other, key) implies !text_lt(
                    id,
                    other,
                ) by {
                    let k = index_of(self.entries@, other);
                    lemma_map_of(self.entries@, k);
                    if k > j {
                    } else {
                        if k < j {
                            assert(text_lt(self.entries@[k].0@, self.entries@[j].0@));
                        }
                        lemma_lt_total(id, other);
                    }
                }
                assert(last_id(self@, id, key));
            }
            assert forall|id: Seq<char>| #[trigger]
                self@.dom().contains(id) && usable(id, self@[id]) implies out@.dom().contains(
                trimmed(id),
            ) by {
                let k = index_of(self.entries@, id);
                lemma_map_of(self.entries@, k);
            }
        }
        out
    }
}

impl Clone for TextMap {
    fn clone(&self) -> (r: TextMap)
        ensures
            r@ == self@,
    {
        proof {
            use_type_invariant(self);
        }
        let mut out: Vec<(String, String)> = Vec::new();
        let mut i: usize = 0;
        while i < self.entries.len()
            invariant
                i <= self.entries@.len(),
                out@.len() == i,
                forall|j: int|
                    0 <= j < i ==> (#[trigger] out@[j]).0@ == self.entries@[j].0@ && out@[j].1@
                        == self.entries@[j].1@,
            decreases self.entries@.len() - i,
        {
            out.push((self.entries[i].0.clone(), self.entries[i].1.clone()));
            i = i + 1;
        }
        proof {
            lemma_same_entries(self.entries@, out@);
        }
        TextMap { entries: out }
    }
}

proof fn lemma_same_entries(a: Seq<(String, String)>, b: Seq<(String, String)>)
    requires
        ascending(a),
        a.len() == b.len(),
        forall|j: int| 0 <= j < a.len() ==> (#[trigger] b[j]).0@ == a[j].0@ && b[j].1@ == a[j].1@,
    ensures
        ascending(b),
        map_of(a) == map_of(b),
{
    assert forall|i: int, j: int| 0 <= i < j < b.len() implies text_lt(
        (#[trigger] b[i]).0@,
        (#[trigger] b[j]).0@,
    ) by {
        assert(text_lt(a[i].0@, a[j].0@));
    }
    assert forall|key: Seq<char>| has_key(a, key) == has_key(b, key) by {
        if has_key(a, key) {
            let i = index_of(a, key);
            assert(b[i].0@ == key);
        }
        if has_key(b, key) {
            let i = index_of(b, key);
            assert(a[i].0@ == key);
        }
    }
    assert forall|key: Seq<char>| has_key(a, key) implies map_of(a)[key] == map_of(b)[key] by {
        let i = index_of(a, key);
        lemma_map_of(a, i);
        lemma_map_of(b, i);
    }
    assert(map_of(a) =~= map_of(b));
}

proof fn lemma_inserted(
    before: Seq<(String, String)>,
    after: Seq<(String, String)>,
    at: int,
    key: Seq<char>,
    value: Seq<char>,
)
    requires
        ascending(before),
        ascending(after),
        0 <= at < after.len(),
        after[at].0@ == key,
        after[at].1@ == value,
        (after == before.update(at, after[at]) && at < before.len() && before[at].0@ == key)
            || (at <= before.len() && after == before.insert(at, after[at])),
    ensures
        map_of(after) == map_of(before).insert(key, value),
{
    let inserted = after.len() != before.len();
    assert forall|k: Seq<char>| has_key(after, k) == (has_key(before, k) || k == key) by {
        if has_key(after, k) {
            let i = index_of(after, k);
            if i != at {
                let j = if inserted && i > at { i - 1 } else { i };
                assert(before[j].0@ == k);
            }
        }
        if has_key(before, k) {
            let j = index_of(before, k);
            let i = if inserted && j >= at { j + 1 } else { j };
            assert(after[i].0@ == k);
        }
        if k == key {
            assert(after[at].0@ == key);
        }
    }
    assert forall|k: Seq<char>| has_key(after, k) implies map_of(after)[k] == map_of(before).insert(
        key,
        value,
    )[k] by {
        let i = index_of(after, k);
        lemma_map_of(after, i);
        lemma_map_of(after, at);
        if k != key {
            let j = if inserted && i > at { i - 1 } else { i };
            assert(before[j] == after[i]);
            lemma_map_of(before, j);
        }
    }
    assert(map_of(after) =~= map_of(before).insert(key, value));
}

/// Whether no key comes before this one.
pub open spec fn is_least(map: Map<Seq<char>, Seq<char>>, key: Seq<char>) -> bool {
    map.dom().contains(key) && forall|other: Seq<char>| #[trigger]
        map.dom().contains(other) ==> !text_lt(other, key)
}

/// The key that comes first, where there is one.
pub open spec fn least_key(map: Map<Seq<char>, Seq<char>>) -> Option<Seq<char>> {
    if exists|key: Seq<char>| is_least(map, key) {
        Some(choose|key: Seq<char>| is_least(map, key))
    } else {
        None
    }
}

/// Whether neither the key nor the value of an entry is blank.
pub open spec fn usable(key: Seq<char>, value: Seq<char>) -> bool {
    !is_blank(key) && !is_blank(value)
}

/// Whether the entry `id` of `map` counts for the trimmed key `key`.
pub open spec fn trims_to(map: Map<Seq<char>, Seq<char>>, id: Seq<char>, key: Seq<char>) -> bool {
    map.dom().contains(id) && usable(id, map[id]) && trimmed(id) == key
}

/// Whether `id` is the last key in order that counts for `key`.
pub open spec fn last_id(map: Map<Seq<char>, Seq<char>>, id: Seq<char>, key: Seq<char>) -> bool {
    &&& trims_to(map, id, key)
    &&& forall|other: Seq<char>| #[trigger]
        map.dom().contains(other) && trims_to(map, other, key) ==> !text_lt(id, other)
}

/// Whether `result` is `map` with its keys and values trimmed and the blank ones left out. Where
/// several keys trim to the same text, the value of the last of them in order stays.
pub open spec fn trimmed_map(
    map: Map<Seq<char>, Seq<char>>,
    result: Map<Seq<char>, Seq<char>>,
) -> bool {
    &&& forall|key: Seq<char>| #[trigger]
        result.dom().contains(key) ==> exists|id: Seq<char>|
            last_id(map, id, key) && result[key] == trimmed(map[id])
    &&& forall|id: Seq<char>| #[trigger]
        map.dom().contains(id) && usable(id, map[id]) ==> result.dom().contains(trimmed(id))
}

spec fn last_source(entries: Seq<(String, String)>, n: int, at: int, key: Seq<char>) -> bool {
    &&& usable(entries[at].0@, entries[at].1@)
    &&& trimmed(entries[at].0@) == key
    &&& forall|j: int|
        at < j < n && usable((#[trigger] entries[j]).0@, entries[j].1@) ==> trimmed(entries[j].0@)
            != key
}

} // verus!
