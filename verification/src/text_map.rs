//! The order of texts, and a map with text keys that keeps that order.
use vstd::prelude::*;

use crate::text::{chars_of, same_text};

verus! {

/// The order of texts by their code points, which is also the order of their
/// UTF-8 bytes.
pub open spec fn text_le(a: Seq<char>, b: Seq<char>) -> bool
    decreases a.len(),
{
    if a.len() == 0 {
        true
    } else if b.len() == 0 {
        false
    } else if a[0] == b[0] {
        text_le(a.skip(1), b.skip(1))
    } else {
        (a[0] as u32) < (b[0] as u32)
    }
}

/// Whether a text does not come after another.
pub fn at_most(a: &str, b: &str) -> (r: bool)
    ensures
        r == text_le(a@, b@),
{
    let left = chars_of(a);
    let right = chars_of(b);
    let mut i: usize = 0;
    assert(a@.skip(0) =~= a@ && b@.skip(0) =~= b@);
    while i < left.len() && i < right.len()
        invariant
            left@ == a@,
            right@ == b@,
            i <= left.len(),
            i <= right.len(),
            text_le(a@, b@) == text_le(a@.skip(i as int), b@.skip(i as int)),
        decreases left.len() - i,
    {
        assert(a@.skip(i as int)[0] == left@[i as int]);
        assert(b@.skip(i as int)[0] == right@[i as int]);
        if left[i] != right[i] {
            return (left[i] as u32) < (right[i] as u32);
        }
        assert(a@.skip(i as int).skip(1) =~= a@.skip(i + 1));
        assert(b@.skip(i as int).skip(1) =~= b@.skip(i + 1));
        i = i + 1;
    }
    i == left.len()
}

/// No text comes after itself.
pub proof fn lemma_text_le_reflexive(a: Seq<char>)
    ensures
        text_le(a, a),
    decreases a.len(),
{
    if a.len() > 0 {
        lemma_text_le_reflexive(a.skip(1));
    }
}

/// Of two texts one does not come after the other.
pub proof fn lemma_text_le_total(a: Seq<char>, b: Seq<char>)
    ensures
        text_le(a, b) || text_le(b, a),
    decreases a.len(),
{
    if a.len() > 0 && b.len() > 0 {
        vstd::utf8::char_u32_cast(a[0], a[0] as u32);
        vstd::utf8::char_u32_cast(b[0], b[0] as u32);
        if a[0] == b[0] {
            lemma_text_le_total(a.skip(1), b.skip(1));
        }
    }
}

/// The order of texts is transitive.
pub proof fn lemma_text_le_transitive(a: Seq<char>, b: Seq<char>, c: Seq<char>)
    requires
        text_le(a, b),
        text_le(b, c),
    ensures
        text_le(a, c),
    decreases a.len(),
{
    if a.len() > 0 && b.len() > 0 && c.len() > 0 && a[0] == b[0] && b[0] == c[0] {
        lemma_text_le_transitive(a.skip(1), b.skip(1), c.skip(1));
    }
}

/// Two texts neither of which comes after the other are the same.
pub proof fn lemma_text_le_antisymmetric(a: Seq<char>, b: Seq<char>)
    requires
        text_le(a, b),
        text_le(b, a),
    ensures
        a == b,
    decreases a.len(),
{
    if a.len() > 0 && b.len() > 0 {
        lemma_text_le_antisymmetric(a.skip(1), b.skip(1));
        assert(a =~= seq![a[0]] + a.skip(1));
        assert(b =~= seq![b[0]] + b.skip(1));
    } else {
        assert(a =~= b);
    }
}

/// Whether a text comes strictly before another.
pub open spec fn text_lt(a: Seq<char>, b: Seq<char>) -> bool {
    text_le(a, b) && a != b
}

/// Keys in strictly ascending order.
pub open spec fn ascending(keys: Seq<Seq<char>>) -> bool {
    forall|i: int, j: int| 0 <= i < j < keys.len() ==> text_lt(#[trigger] keys[i], #[trigger] keys[j])
}

struct TextEntry<T> {
    key: String,
    value: T,
}

/// A map from texts to values, ordered by its keys.
pub struct TextMap<T> {
    entries: Vec<TextEntry<T>>,
}

impl<T: View> View for TextMap<T> {
    type V = Map<Seq<char>, T::V>;

    closed spec fn view(&self) -> Map<Seq<char>, T::V> {
        Map::new(
            |key: Seq<char>| self.keys().contains(key),
            |key: Seq<char>| self.entries@[self.place(key)].value@,
        )
    }
}

impl<T: View> TextMap<T> {
    /// The keys, in order.
    pub closed spec fn keys(&self) -> Seq<Seq<char>> {
        Seq::new(self.entries@.len(), |i: int| self.entries@[i].key@)
    }

    /// A map's keys are strictly ascending.
    pub closed spec fn wf(&self) -> bool {
        ascending(self.keys())
    }

    spec fn place(&self, key: Seq<char>) -> int {
        choose|i: int| 0 <= i < self.keys().len() && self.keys()[i] == key
    }

    proof fn lemma_at(&self, i: int)
        requires
            self.wf(),
            0 <= i < self.entries@.len(),
        ensures
            self@.contains_key(self.keys()[i]),
            self@[self.keys()[i]] == self.entries@[i].value@,
    {
        let key = self.keys()[i];
        assert(self.keys().contains(key));
        let p = self.place(key);
        assert(0 <= p < self.keys().len() && self.keys()[p] == key);
        if p < i {
            assert(text_lt(self.keys()[p], self.keys()[i]));
        } else if i < p {
            assert(text_lt(self.keys()[i], self.keys()[p]));
        }
    }

    /// The keys of a map are its domain, each once and in order.
    pub proof fn law_keys(&self)
        requires
            self.wf(),
        ensures
            ascending(self.keys()),
            forall|key: Seq<char>| self.keys().contains(key) == self@.contains_key(key),
    {
    }

    /// An empty map.
    pub fn new() -> (map: TextMap<T>)
        ensures
            map.wf(),
            map@ == Map::<Seq<char>, T::V>::empty(),
            map.keys().len() == 0,
    {
        let map = TextMap { entries: Vec::new() };
        assert(map@ =~= Map::<Seq<char>, T::V>::empty());
        map
    }

    /// The number of entries.
    pub fn len(&self) -> (n: usize)
        ensures
            n == self.keys().len(),
    {
        self.entries.len()
    }

    /// The place of a key: how many keys come before it.
    fn position(&self, key: &str) -> (at: usize)
        requires
            self.wf(),
        ensures
            at <= self.keys().len(),
            forall|j: int| 0 <= j < at ==> text_lt(#[trigger] self.keys()[j], key@),
            forall|j: int| at <= j < self.keys().len() ==> text_le(key@, #[trigger] self.keys()[j]),
    {
        let mut at: usize = 0;
        while at < self.entries.len() && !at_most(key, self.entries[at].key.as_str())
            invariant
                at <= self.entries@.len(),
                self.wf(),
                forall|j: int| 0 <= j < at ==> text_lt(#[trigger] self.keys()[j], key@),
            decreases self.entries@.len() - at,
        {
            proof {
                let here = self.keys()[at as int];
                lemma_text_le_total(key@, here);
                lemma_text_le_reflexive(key@);
            }
            at = at + 1;
        }
        proof {
            if at < self.entries@.len() {
                assert forall|j: int| at <= j < self.keys().len() implies text_le(
                    key@,
                    #[trigger] self.keys()[j],
                ) by {
                    assert(text_le(key@, self.keys()[at as int]));
                    if j > at {
                        assert(text_lt(self.keys()[at as int], self.keys()[j]));
                        lemma_text_le_transitive(key@, self.keys()[at as int], self.keys()[j]);
                    }
                }
            }
        }
        at
    }

    /// Where a key stands, if it is there.
    fn find(&self, key: &str) -> (r: Option<usize>)
        requires
            self.wf(),
        ensures
            match r {
                Some(at) => at < self.keys().len() && self.keys()[at as int] == key@
                    && self@.contains_key(key@),
                None => !self@.contains_key(key@),
            },
    {
        let mut at: usize = 0;
        while at < self.entries.len()
            invariant
                at <= self.entries@.len(),
                self.wf(),
                forall|j: int| 0 <= j < at ==> #[trigger] self.keys()[j] != key@,
            decreases self.entries@.len() - at,
        {
            if same_text(self.entries[at].key.as_str(), key) {
                proof {
                    assert(self.keys()[at as int] == key@);
                    self.lemma_at(at as int);
                }
                return Some(at);
            }
            at = at + 1;
        }
        None
    }

    /// Whether a key is there.
    pub fn contains_key(&self, key: &str) -> (r: bool)
        requires
            self.wf(),
        ensures
            r == self@.contains_key(key@),
    {
        self.find(key).is_some()
    }

    /// The value of a key.
    pub fn get(&self, key: &str) -> (r: Option<&T>)
        requires
            self.wf(),
        ensures
            match r {
                Some(value) => self@.contains_key(key@) && value@ == self@[key@],
                None => !self@.contains_key(key@),
            },
    {
        match self.find(key) {
            Some(at) => {
                proof {
                    self.lemma_at(at as int);
                }
                Some(&self.entries[at].value)
            },
            None => None,
        }
    }

    /// The key at a place.
    pub fn key_at(&self, i: usize) -> (key: &str)
        requires
            i < self.keys().len(),
        ensures
            key@ == self.keys()[i as int],
    {
        self.entries[i].key.as_str()
    }

    /// The value at a place.
    pub fn value_at(&self, i: usize) -> (value: &T)
        requires
            self.wf(),
            i < self.keys().len(),
        ensures
            self@.contains_key(self.keys()[i as int]),
            value@ == self@[self.keys()[i as int]],
    {
        proof {
            self.lemma_at(i as int);
        }
        &self.entries[i].value
    }

    /// Removes the entry at a place and gives its value.
    pub fn remove_at(&mut self, i: usize) -> (value: T)
        requires
            old(self).wf(),
            i < old(self).keys().len(),
        ensures
            final(self).wf(),
            final(self)@ == old(self)@.remove(old(self).keys()[i as int]),
            final(self).keys() == old(self).keys().remove(i as int),
            value@ == old(self)@[old(self).keys()[i as int]],
    {
        let ghost before = *self;
        proof {
            before.lemma_at(i as int);
        }
        let entry = self.entries.remove(i);
        proof {
            let keys = before.keys();
            assert(self.keys() =~= keys.remove(i as int));
            assert forall|a: int, b: int| 0 <= a < b < self.keys().len() implies text_lt(
                #[trigger] self.keys()[a],
                #[trigger] self.keys()[b],
            ) by {
                let p = if a < i {
                    a
                } else {
                    a + 1
                };
                let q = if b < i {
                    b
                } else {
                    b + 1
                };
                assert(text_lt(keys[p], keys[q]));
            }
            let removed = keys[i as int];
            assert forall|key: Seq<char>|
                #![trigger self@.dom().contains(key)]
                #![trigger self@[key]]
                self@.dom().contains(key) == before@.remove(removed).dom().contains(key) && (
                self@.dom().contains(key) ==> self@[key] == before@[key]) by {
                if self.keys().contains(key) {
                    let a = self.place(key);
                    let p = if a < i {
                        a
                    } else {
                        a + 1
                    };
                    assert(keys[p] == key);
                    before.lemma_at(p);
                    self.lemma_at(a);
                    if p < i {
                        assert(text_lt(keys[p], keys[i as int]));
                    } else {
                        assert(text_lt(keys[i as int], keys[p]));
                    }
                } else if before@.contains_key(key) && key != removed {
                    let p = before.place(key);
                    assert(keys[p] == key);
                    let a = if p < i {
                        p
                    } else {
                        p - 1
                    };
                    assert(self.keys()[a] == key);
                }
            }
            assert(self@ =~= before@.remove(removed));
        }
        entry.value
    }

    /// Puts a value under a key, in place of the one that was there.
    pub fn insert(&mut self, key: &str, value: T)
        requires
            old(self).wf(),
        ensures
            final(self).wf(),
            final(self)@ == old(self)@.insert(key@, value@),
            final(self).keys().len() == old(self).keys().len() + if old(self)@.contains_key(key@) {
                0int
            } else {
                1int
            },
    {
        let ghost before = *self;
        match self.find(key) {
            Some(at) => {
                self.remove_at(at);
                proof {
                    before.law_keys();
                }
            },
            None => {},
        }
        let ghost middle = *self;
        assert(middle@ =~= before@.remove(key@));
        let at = self.position(key);
        self.entries.insert(at, TextEntry { key: key.to_owned(), value });
        proof {
            let keys = middle.keys();
            assert(self.keys() =~= keys.insert(at as int, key@));
            assert forall|j: int| 0 <= j < keys.len() implies #[trigger] keys[j] != key@ by {
                middle.lemma_at(j);
            }
            assert forall|a: int, b: int| 0 <= a < b < self.keys().len() implies text_lt(
                #[trigger] self.keys()[a],
                #[trigger] self.keys()[b],
            ) by {
                let p = if a < at {
                    a
                } else {
                    a - 1
                };
                let q = if b < at {
                    b
                } else {
                    b - 1
                };
                if a == at {
                    assert(keys[q] != key@);
                } else if b == at {
                    assert(keys[p] != key@);
                } else {
                    assert(text_lt(keys[p], keys[q]));
                }
            }
            assert forall|k: Seq<char>|
                #![trigger self@.dom().contains(k)]
                #![trigger self@[k]]
                self@.dom().contains(k) == before@.insert(key@, value@).dom().contains(k) && (
                self@.dom().contains(k) ==> self@[k] == before@.insert(key@, value@)[k]) by {
                self.lemma_at(at as int);
                assert(self.keys()[at as int] == key@);
                if k == key@ {
                } else if self.keys().contains(k) {
                    let a = self.place(k);
                    let p = if a < at {
                        a
                    } else {
                        a - 1
                    };
                    assert(keys[p] == k);
                    middle.lemma_at(p);
                    self.lemma_at(a);
                } else if middle@.contains_key(k) {
                    let p = middle.place(k);
                    assert(keys[p] == k);
                    let a = if p < at {
                        p
                    } else {
                        p + 1
                    };
                    assert(self.keys()[a] == k);
                }
            }
            assert(self@ =~= before@.insert(key@, value@));
        }
    }

    /// Removes a key and gives its value.
    pub fn remove(&mut self, key: &str) -> (r: Option<T>)
        requires
            old(self).wf(),
        ensures
            final(self).wf(),
            final(self)@ == old(self)@.remove(key@),
            match r {
                Some(value) => old(self)@.contains_key(key@) && value@ == old(self)@[key@]
                    && final(self).keys().len() == old(self).keys().len() - 1,
                None => !old(self)@.contains_key(key@) && final(self).keys() == old(
                    self,
                ).keys(),
            },
    {
        match self.find(key) {
            Some(at) => Some(self.remove_at(at)),
            None => {
                assert(self@.remove(key@) =~= self@);
                None
            },
        }
    }
}

} // verus!
