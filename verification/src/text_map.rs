//! A map keyed by text that is walked in the order of its keys.

use crate::text;
use crate::text::{is_before, same_text};
use vstd::prelude::*;

verus! {

#[derive(Debug, PartialEq, Eq)]
pub struct TextEntry<V> {
    pub key: String,
    pub value: V,
}

/// Entries in strictly ascending order of their keys.
#[derive(Debug, PartialEq, Eq)]
pub struct TextMap<V> {
    pub entries: Vec<TextEntry<V>>,
}

/// Whether the keys ascend strictly.
pub open spec fn keys_ascend<V>(entries: Seq<TextEntry<V>>) -> bool {
    forall|i: int, j: int|
        0 <= i < j < entries.len() ==> text::text_before(
            (#[trigger] entries[i]).key@,
            (#[trigger] entries[j]).key@,
        )
}

/// Whether an entry has the key.
pub open spec fn holds_key<V>(entries: Seq<TextEntry<V>>, key: Seq<char>) -> bool {
    exists|i: int| 0 <= i < entries.len() && (#[trigger] entries[i]).key@ == key
}

/// The value under a key.
pub open spec fn value_at<V>(entries: Seq<TextEntry<V>>, key: Seq<char>) -> V {
    entries[choose|i: int| 0 <= i < entries.len() && (#[trigger] entries[i]).key@ == key].value
}

/// The values in the order of their keys.
pub open spec fn values_of<V>(entries: Seq<TextEntry<V>>) -> Seq<V> {
    entries.map_values(|entry: TextEntry<V>| entry.value)
}

impl<V> View for TextMap<V> {
    type V = Map<Seq<char>, V>;

    open spec fn view(&self) -> Map<Seq<char>, V> {
        Map::new(
            |key: Seq<char>| holds_key(self.entries@, key),
            |key: Seq<char>| value_at(self.entries@, key),
        )
    }
}

/// Ascending keys occur once, so a position determines its value.
pub proof fn value_at_position<V>(entries: Seq<TextEntry<V>>, i: int)
    requires
        keys_ascend(entries),
        0 <= i < entries.len(),
    ensures
        holds_key(entries, entries[i].key@),
        value_at(entries, entries[i].key@) == entries[i].value,
{
    let key = entries[i].key@;
    let j = choose|j: int| 0 <= j < entries.len() && (#[trigger] entries[j]).key@ == key;
    assert(0 <= j < entries.len() && entries[j].key@ == key);
    text::text_before_irreflexive(key);
    if i < j {
        assert(text::text_before(entries[i].key@, entries[j].key@));
    } else if j < i {
        assert(text::text_before(entries[j].key@, entries[i].key@));
    }
}

impl<V> TextMap<V> {
    pub open spec fn wf(&self) -> bool {
        keys_ascend(self.entries@)
    }

    /// The values in the order of their keys.
    pub open spec fn ordered(&self) -> Seq<V> {
        values_of(self.entries@)
    }

    pub fn new() -> (r: TextMap<V>)
        ensures
            r.wf(),
            r@ == Map::<Seq<char>, V>::empty(),
            r.entries@.len() == 0,
    {
        let r = TextMap { entries: Vec::new() };
        assert(r@ =~= Map::<Seq<char>, V>::empty());
        r
    }

    /// The first position whose key does not come before `key`.
    fn position(&self, key: &str) -> (r: usize)
        requires
            self.wf(),
        ensures
            r <= self.entries@.len(),
            forall|i: int|
                0 <= i < r ==> text::text_before((#[trigger] self.entries@[i]).key@, key@),
            forall|i: int|
                r <= i < self.entries@.len() ==> !text::text_before(
                    (#[trigger] self.entries@[i]).key@,
                    key@,
                ),
    {
        let mut i: usize = 0;
        while i < self.entries.len() && is_before(self.entries[i].key.as_str(), key)
            invariant
                self.wf(),
                i <= self.entries@.len(),
                forall|k: int|
                    0 <= k < i ==> text::text_before((#[trigger] self.entries@[k]).key@, key@),
            decreases self.entries@.len() - i,
        {
            i = i + 1;
        }
        assert forall|k: int| i <= k < self.entries@.len() implies !text::text_before(
            (#[trigger] self.entries@[k]).key@,
            key@,
        ) by {
            if text::text_before(self.entries@[k].key@, key@) && i < k {
                text::text_before_transitive(self.entries@[i as int].key@, self.entries@[k].key@, key@);
            }
        }
        i
    }

    /// The position of the key.
    pub fn find(&self, key: &str) -> (r: Option<usize>)
        requires
            self.wf(),
        ensures
            r is Some <==> self@.dom().contains(key@),
            r matches Some(i) ==> i < self.entries@.len() && self.entries@[i as int].key@ == key@
                && self@[key@] == self.entries@[i as int].value,
    {
        let i: usize = self.position(key);
        if i < self.entries.len() && same_text(self.entries[i].key.as_str(), key) {
            proof {
                value_at_position(self.entries@, i as int);
            }
            Some(i)
        } else {
            proof {
                if holds_key(self.entries@, key@) {
                    let j = choose|j: int|
                        0 <= j < self.entries@.len() && (#[trigger] self.entries@[j]).key@ == key@;
                    text::text_before_irreflexive(key@);
                    assert(i <= j);
                    if i < j {
                        assert(text::text_before(self.entries@[i as int].key@, self.entries@[j].key@));
                    }
                }
            }
            None
        }
    }

    pub fn contains_key(&self, key: &str) -> (r: bool)
        requires
            self.wf(),
        ensures
            r == self@.dom().contains(key@),
    {
        self.find(key).is_some()
    }

    pub fn get(&self, key: &str) -> (r: Option<&V>)
        requires
            self.wf(),
        ensures
            r is Some <==> self@.dom().contains(key@),
            r matches Some(value) ==> *value == self@[key@],
    {
        match self.find(key) {
            Some(i) => Some(&self.entries[i].value),
            None => None,
        }
    }

    /// Puts the value under the key and hands back what stood there.
    pub fn insert(&mut self, key: String, value: V) -> (r: Option<V>)
        requires
            old(self).wf(),
        ensures
            final(self).wf(),
            final(self)@ == old(self)@.insert(key@, value),
            r is Some <==> old(self)@.dom().contains(key@),
            r matches Some(previous) ==> previous == old(self)@[key@],
            final(self).entries@.len() == old(self).entries@.len() + if r is Some {
                0int
            } else {
                1
            },
    {
        let ghost before = self.entries@;
        match self.find(key.as_str()) {
            Some(i) => {
                let mut fresh: TextEntry<V> = TextEntry { key, value };
                let ghost placed = fresh;
                self.entries.push(fresh);
                let previous: TextEntry<V> = self.entries.swap_remove(i);
                proof {
                    assert(self.entries@ =~= before.update(i as int, placed));
                    lemma_replace(before, i as int, placed);
                    assert(self@ =~= old(self)@.insert(key@, value));
                }
                Some(previous.value)
            },
            None => {
                let i: usize = self.position(key.as_str());
                let entry: TextEntry<V> = TextEntry { key, value };
                self.entries.insert(i, entry);
                proof {
                    lemma_place(before, i as int, entry);
                    assert(self@ =~= old(self)@.insert(key@, value));
                }
                None
            },
        }
    }

    /// Takes the key out and hands back what stood under it.
    pub fn remove(&mut self, key: &str) -> (r: Option<V>)
        requires
            old(self).wf(),
        ensures
            final(self).wf(),
            final(self)@ == old(self)@.remove(key@),
            r is Some <==> old(self)@.dom().contains(key@),
            r matches Some(previous) ==> previous == old(self)@[key@],
            r is None ==> final(self).entries@ == old(self).entries@,
            final(self).entries@.len() == old(self).entries@.len() - if r is Some {
                1int
            } else {
                0
            },
    {
        let ghost before = self.entries@;
        match self.find(key) {
            Some(i) => {
                let previous: TextEntry<V> = self.entries.remove(i);
                proof {
                    lemma_take_out(before, i as int);
                    assert(self@ =~= old(self)@.remove(key@));
                }
                Some(previous.value)
            },
            None => {
                assert(self@ =~= old(self)@.remove(key@));
                None
            },
        }
    }

    pub fn len(&self) -> (r: usize)
        ensures
            r == self.entries@.len(),
    {
        self.entries.len()
    }

    /// Empties the map and hands its values out in the order of their keys.
    pub fn drain(&mut self) -> (r: Vec<V>)
        requires
            old(self).wf(),
        ensures
            final(self).wf(),
            final(self)@ == Map::<Seq<char>, V>::empty(),
            final(self).entries@.len() == 0,
            r@ == old(self).ordered(),
    {
        let mut out: Vec<V> = Vec::new();
        let ghost all = self.entries@;
        while self.entries.len() > 0
            invariant
                out@.len() + self.entries@.len() == all.len(),
                self.entries@ =~= all.skip(out@.len() as int),
                forall|i: int| 0 <= i < out@.len() ==> out@[i] == (#[trigger] all[i]).value,
            decreases self.entries@.len(),
        {
            let entry: TextEntry<V> = self.entries.remove(0);
            out.push(entry.value);
        }
        assert(out@ =~= values_of(all));
        assert(self@ =~= Map::<Seq<char>, V>::empty());
        out
    }
}

proof fn lemma_replace<V>(before: Seq<TextEntry<V>>, i: int, entry: TextEntry<V>)
    requires
        keys_ascend(before),
        0 <= i < before.len(),
        before[i].key@ == entry.key@,
    ensures
        keys_ascend(before.update(i, entry)),
        forall|k: Seq<char>|
            #![trigger holds_key(before.update(i, entry), k)]
            holds_key(before.update(i, entry), k) == holds_key(before, k),
        forall|k: Seq<char>|
            #![trigger value_at(before.update(i, entry), k)]
            holds_key(before, k) ==> value_at(before.update(i, entry), k) == if k == entry.key@ {
                entry.value
            } else {
                value_at(before, k)
            },
{
    let after = before.update(i, entry);
    assert(keys_ascend(after));
    assert forall|k: Seq<char>| #[trigger] holds_key(after, k) == holds_key(before, k) by {
        if holds_key(before, k) {
            let j = choose|j: int| 0 <= j < before.len() && (#[trigger] before[j]).key@ == k;
            assert(after[j].key@ == k);
        }
        if holds_key(after, k) {
            let j = choose|j: int| 0 <= j < after.len() && (#[trigger] after[j]).key@ == k;
            assert(before[j].key@ == k);
        }
    }
    assert forall|k: Seq<char>| holds_key(before, k) implies #[trigger] value_at(after, k) == if k
        == entry.key@ {
        entry.value
    } else {
        value_at(before, k)
    } by {
        let j = choose|j: int| 0 <= j < before.len() && (#[trigger] before[j]).key@ == k;
        value_at_position(before, j);
        assert(after[j].key@ == k);
        value_at_position(after, j);
        if k == entry.key@ {
            value_at_position(after, i);
        }
    }
}

proof fn lemma_place<V>(before: Seq<TextEntry<V>>, i: int, entry: TextEntry<V>)
    requires
        keys_ascend(before),
        0 <= i <= before.len(),
        !holds_key(before, entry.key@),
        forall|k: int| 0 <= k < i ==> text::text_before((#[trigger] before[k]).key@, entry.key@),
        forall|k: int|
            i <= k < before.len() ==> !text::text_before((#[trigger] before[k]).key@, entry.key@),
    ensures
        keys_ascend(before.insert(i, entry)),
        forall|k: Seq<char>|
            #![trigger holds_key(before.insert(i, entry), k)]
            holds_key(before.insert(i, entry), k) == (k == entry.key@ || holds_key(before, k)),
        forall|k: Seq<char>|
            #![trigger value_at(before.insert(i, entry), k)]
            k == entry.key@ || holds_key(before, k) ==> value_at(before.insert(i, entry), k)
                == if k == entry.key@ {
                entry.value
            } else {
                value_at(before, k)
            },
{
    let after = before.insert(i, entry);
    assert forall|a: int, b: int| 0 <= a < b < after.len() implies text::text_before(
        (#[trigger] after[a]).key@,
        (#[trigger] after[b]).key@,
    ) by {
        if a == i {
            let e = before[b - 1];
            text::text_before_total(entry.key@, e.key@);
            assert(holds_key(before, e.key@));
        } else if b == i {
            assert(after[a] == before[a]);
        } else {
            let pa = if a < i { a } else { a - 1 };
            let pb = if b < i { b } else { b - 1 };
            assert(after[a] == before[pa]);
            assert(after[b] == before[pb]);
        }
    }
    assert forall|k: Seq<char>| #[trigger] holds_key(after, k) == (k == entry.key@ || holds_key(
        before,
        k,
    )) by {
        if k == entry.key@ {
            assert(after[i].key@ == k);
        }
        if holds_key(before, k) {
            let j = choose|j: int| 0 <= j < before.len() && (#[trigger] before[j]).key@ == k;
            let p = if j < i { j } else { j + 1 };
            assert(after[p].key@ == k);
        }
        if holds_key(after, k) && k != entry.key@ {
            let j = choose|j: int| 0 <= j < after.len() && (#[trigger] after[j]).key@ == k;
            let p = if j < i { j } else { j - 1 };
            assert(before[p].key@ == k);
        }
    }
    assert forall|k: Seq<char>| k == entry.key@ || holds_key(before, k) implies #[trigger] value_at(
        after,
        k,
    ) == if k == entry.key@ {
        entry.value
    } else {
        value_at(before, k)
    } by {
        if k == entry.key@ {
            value_at_position(after, i);
        } else {
            let j = choose|j: int| 0 <= j < before.len() && (#[trigger] before[j]).key@ == k;
            let p = if j < i { j } else { j + 1 };
            value_at_position(before, j);
            assert(after[p] == before[j]);
            value_at_position(after, p);
        }
    }
}

proof fn lemma_take_out<V>(before: Seq<TextEntry<V>>, i: int)
    requires
        keys_ascend(before),
        0 <= i < before.len(),
    ensures
        keys_ascend(before.remove(i)),
        forall|k: Seq<char>|
            #![trigger holds_key(before.remove(i), k)]
            holds_key(before.remove(i), k) == (k != before[i].key@ && holds_key(before, k)),
        forall|k: Seq<char>|
            #![trigger value_at(before.remove(i), k)]
            holds_key(before.remove(i), k) ==> value_at(before.remove(i), k) == value_at(before, k),
{
    let after = before.remove(i);
    assert forall|a: int, b: int| 0 <= a < b < after.len() implies text::text_before(
        (#[trigger] after[a]).key@,
        (#[trigger] after[b]).key@,
    ) by {
        let pa = if a < i { a } else { a + 1 };
        let pb = if b < i { b } else { b + 1 };
        assert(after[a] == before[pa]);
        assert(after[b] == before[pb]);
    }
    assert forall|k: Seq<char>| #[trigger] holds_key(after, k) == (k != before[i].key@ && holds_key(
        before,
        k,
    )) by {
        if holds_key(after, k) {
            let j = choose|j: int| 0 <= j < after.len() && (#[trigger] after[j]).key@ == k;
            let p = if j < i { j } else { j + 1 };
            assert(before[p].key@ == k);
            text::text_before_irreflexive(k);
            if k == before[i].key@ {
                assert(p < i ==> text::text_before(before[p].key@, before[i].key@));
                assert(i < p ==> text::text_before(before[i].key@, before[p].key@));
            }
        }
        if k != before[i].key@ && holds_key(before, k) {
            let j = choose|j: int| 0 <= j < before.len() && (#[trigger] before[j]).key@ == k;
            let p = if j < i { j } else { j - 1 };
            assert(after[p] == before[j]);
        }
    }
    assert forall|k: Seq<char>| holds_key(after, k) implies #[trigger] value_at(after, k)
        == value_at(before, k) by {
        let j = choose|j: int| 0 <= j < after.len() && (#[trigger] after[j]).key@ == k;
        let p = if j < i { j } else { j + 1 };
        value_at_position(after, j);
        assert(after[j] == before[p]);
        value_at_position(before, p);
    }
}

} // verus!
