//! A map from texts to values.
use vstd::prelude::*;

use crate::text::text_eq;

verus! {

/// A map from texts to values, in the order in which the keys came.
#[verifier::reject_recursive_types(V)]
pub struct Keyed<V> {
    entries: Vec<(String, V)>,
}

pub open spec fn keyed_view<V>(entries: Seq<(String, V)>) -> Map<Seq<char>, V>
    decreases entries.len(),
{
    if entries.len() == 0 {
        Map::empty()
    } else {
        keyed_view(entries.drop_last()).insert(entries.last().0@, entries.last().1)
    }
}

proof fn lemma_keyed_last<V>(entries: Seq<(String, V)>, last: (String, V))
    ensures
        keyed_view(entries.push(last)) == keyed_view(entries).insert(last.0@, last.1),
{
    assert(entries.push(last).drop_last() =~= entries);
}

/// Whether no two entries have the same key.
spec fn distinct<V>(entries: Seq<(String, V)>) -> bool {
    forall|i: int, j: int|
        0 <= i < j < entries.len() ==> (#[trigger] entries[i]).0@ != (#[trigger] entries[j]).0@
}

proof fn lemma_keyed_dom<V>(entries: Seq<(String, V)>, key: Seq<char>)
    ensures
        keyed_view(entries).dom().contains(key) <==> exists|i: int|
            0 <= i < entries.len() && (#[trigger] entries[i]).0@ == key,
    decreases entries.len(),
{
    if entries.len() > 0 {
        let rest = entries.drop_last();
        lemma_keyed_dom(rest, key);
        if keyed_view(rest).dom().contains(key) {
            let i = choose|i: int| 0 <= i < rest.len() && (#[trigger] rest[i]).0@ == key;
            assert(entries[i].0@ == key);
        }
        if exists|i: int| 0 <= i < entries.len() && (#[trigger] entries[i]).0@ == key {
            let i = choose|i: int| 0 <= i < entries.len() && (#[trigger] entries[i]).0@ == key;
            if i < rest.len() {
                assert(rest[i].0@ == key);
            }
        }
    }
}

impl<V> Keyed<V> {
    #[verifier::type_invariant]
    spec fn keys_differ(&self) -> bool {
        distinct(self.entries@)
    }

    pub closed spec fn view(&self) -> Map<Seq<char>, V> {
        keyed_view(self.entries@)
    }

    pub fn new() -> (r: Keyed<V>)
        ensures
            r.view() == Map::<Seq<char>, V>::empty(),
    {
        Keyed { entries: Vec::new() }
    }

    pub fn get(&self, key: &str) -> (r: Option<&V>)
        ensures
            match r {
                Some(value) => self.view().dom().contains(key@) && self.view()[key@] == *value,
                None => !self.view().dom().contains(key@),
            },
    {
        let mut i: usize = self.entries.len();
        assert(self.entries@.take(i as int) =~= self.entries@);
        while i > 0
            invariant
                i <= self.entries@.len(),
                self.view().dom().contains(key@) == keyed_view(
                    self.entries@.take(i as int),
                ).dom().contains(key@),
                self.view()[key@] == keyed_view(self.entries@.take(i as int))[key@],
            decreases i,
        {
            proof {
                lemma_keyed_last(self.entries@.take(i - 1), self.entries@[i - 1]);
                assert(self.entries@.take(i as int) =~= self.entries@.take(i - 1).push(
                    self.entries@[i - 1],
                ));
            }
            if text_eq(self.entries[i - 1].0.as_str(), key) {
                return Some(&self.entries[i - 1].1);
            }
            i = i - 1;
        }
        assert(self.entries@.take(0) =~= Seq::empty());
        None
    }

    pub fn contains(&self, key: &str) -> (r: bool)
        ensures
            r == self.view().dom().contains(key@),
    {
        self.get(key).is_some()
    }

    pub fn insert(&mut self, key: &str, value: V)
        ensures
            final(self).view() == old(self).view().insert(key@, value),
    {
        self.remove(key);
        proof {
            use_type_invariant(&*self);
        }
        let mut entries: Vec<(String, V)> = Vec::new();
        std::mem::swap(&mut entries, &mut self.entries);
        let entry = (key.to_owned(), value);
        proof {
            lemma_keyed_last(entries@, entry);
            lemma_keyed_dom(entries@, key@);
            assert(!keyed_view(entries@).dom().contains(key@));
        }
        entries.push(entry);
        self.entries = entries;
        assert(old(self).view().remove(key@).insert(key@, value) =~= old(self).view().insert(
            key@,
            value,
        ));
    }

    pub fn remove(&mut self, key: &str) -> (r: Option<V>)
        ensures
            final(self).view() == old(self).view().remove(key@),
            match r {
                Some(value) => old(self).view().dom().contains(key@) && old(self).view()[key@]
                    == value,
                None => !old(self).view().dom().contains(key@),
            },
    {
        proof {
            use_type_invariant(&*self);
        }
        let mut rest: Vec<(String, V)> = Vec::new();
        std::mem::swap(&mut rest, &mut self.entries);
        let ghost all = rest@;
        let mut back: Vec<(String, V)> = Vec::new();
        while rest.len() > 0
            invariant
                rest@.len() + back@.len() == all.len(),
                rest@ == all.take(rest@.len() as int),
                forall|j: int|
                    0 <= j < back@.len() ==> #[trigger] back@[j] == all[all.len() - 1 - j],
            decreases rest@.len(),
        {
            if let Some(entry) = rest.pop() {
                back.push(entry);
            }
        }
        let mut kept: Vec<(String, V)> = Vec::new();
        let mut found: Option<V> = None;
        let mut done: Ghost<int> = Ghost(0);
        assert(all.take(0) =~= Seq::<(String, V)>::empty());
        assert(Map::<Seq<char>, V>::empty().remove(key@) =~= Map::<Seq<char>, V>::empty());
        while back.len() > 0
            invariant
                done@ + back@.len() == all.len(),
                done@ >= 0,
                distinct(all),
                distinct(kept@),
                forall|i: int, j: int|
                    0 <= i < kept@.len() && done@ <= j < all.len() ==> (#[trigger] kept@[i]).0@ != (
                    #[trigger] all[j]).0@,
                forall|j: int|
                    0 <= j < back@.len() ==> #[trigger] back@[j] == all[all.len() - 1 - j],
                keyed_view(kept@) =~= keyed_view(all.take(done@)).remove(key@),
                match found {
                    Some(value) => keyed_view(all.take(done@)).dom().contains(key@) && keyed_view(
                        all.take(done@),
                    )[key@] == value,
                    None => !keyed_view(all.take(done@)).dom().contains(key@),
                },
            decreases back@.len(),
        {
            if let Some(entry) = back.pop() {
                proof {
                    assert(entry == all[done@]);
                    assert(all.take(done@ + 1) =~= all.take(done@).push(all[done@]));
                    lemma_keyed_last(all.take(done@), all[done@]);
                    lemma_keyed_last(kept@, entry);
                }
                if text_eq(entry.0.as_str(), key) {
                    found = Some(entry.1);
                } else {
                    kept.push(entry);
                }
            }
            proof {
                done@ = done@ + 1;
            }
        }
        assert(all.take(all.len() as int) =~= all);
        self.entries = kept;
        found
    }

    /// How many entries there are.
    pub closed spec fn count(&self) -> nat {
        self.entries@.len()
    }

    /// Takes an entry out, where there is one.
    pub fn pop(&mut self) -> (r: Option<(String, V)>)
        ensures
            match r {
                Some((key, value)) => old(self).view().dom().contains(key@) && old(
                    self,
                ).view()[key@] == value && final(self).view() == old(self).view().remove(key@)
                    && final(self).count() < old(self).count(),
                None => old(self).view() == Map::<Seq<char>, V>::empty() && final(self).view()
                    == old(self).view(),
            },
    {
        proof {
            use_type_invariant(&*self);
        }
        let mut entries: Vec<(String, V)> = Vec::new();
        std::mem::swap(&mut entries, &mut self.entries);
        let ghost all = entries@;
        let last = entries.pop();
        proof {
            if all.len() > 0 {
                let entry = all.last();
                lemma_keyed_dom(all.drop_last(), entry.0@);
                assert forall|i: int| 0 <= i < all.drop_last().len() implies (
                #[trigger] all.drop_last()[i]).0@ != entry.0@ by {
                    assert(all[i].0@ != all[all.len() - 1].0@);
                }
                assert(keyed_view(all.drop_last()) =~= keyed_view(all).remove(entry.0@));
                assert(entries@ =~= all.drop_last());
            }
        }
        self.entries = entries;
        last
    }
}

} // verus!
