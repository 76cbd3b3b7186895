//! A map from text to values, kept in the order of its keys.

use crate::text::chars_of;
use vstd::prelude::*;

verus! {

/// The order of texts: by the first character in which they differ, a text
/// coming after each of its own beginnings.
pub open spec fn text_before(a: Seq<char>, b: Seq<char>) -> bool
    decreases a.len(),
{
    if b.len() == 0 {
        false
    } else if a.len() == 0 {
        true
    } else if a[0] == b[0] {
        text_before(a.skip(1), b.skip(1))
    } else {
        a[0] < b[0]
    }
}

/// The order of texts is transitive.
pub proof fn lemma_text_before_transitive(a: Seq<char>, b: Seq<char>, c: Seq<char>)
    requires
        text_before(a, b),
        text_before(b, c),
    ensures
        text_before(a, c),
    decreases a.len(),
{
    if a.len() > 0 && a[0] == b[0] && b[0] == c[0] {
        lemma_text_before_transitive(a.skip(1), b.skip(1), c.skip(1));
    }
}

/// No text comes before itself.
pub proof fn lemma_text_before_irreflexive(a: Seq<char>)
    ensures
        !text_before(a, a),
    decreases a.len(),
{
    if a.len() > 0 {
        lemma_text_before_irreflexive(a.skip(1));
    }
}

/// Of two different texts one comes before the other.
pub proof fn lemma_text_before_total(a: Seq<char>, b: Seq<char>)
    ensures
        a == b || text_before(a, b) || text_before(b, a),
    decreases a.len(),
{
    if a.len() == 0 || b.len() == 0 {
        if a.len() == 0 && b.len() == 0 {
            assert(a =~= b);
        }
    } else if a[0] == b[0] {
        lemma_text_before_total(a.skip(1), b.skip(1));
        if a.skip(1) == b.skip(1) {
            assert(a =~= seq![a[0]] + a.skip(1));
            assert(b =~= seq![b[0]] + b.skip(1));
        }
    }
}

/// Whether `a` comes before `b`.
pub fn comes_before(a: &str, b: &str) -> (before: bool)
    ensures
        before == text_before(a@, b@),
{
    let left = chars_of(a);
    let right = chars_of(b);
    let mut i: usize = 0;
    assert(left@.skip(0) =~= left@);
    assert(right@.skip(0) =~= right@);
    while i < left.len() && i < right.len()
        invariant
            i <= left.len(),
            i <= right.len(),
            left@ == a@,
            right@ == b@,
            text_before(a@, b@) == text_before(left@.skip(i as int), right@.skip(i as int)),
        decreases left.len() - i,
    {
        let ghost l = left@.skip(i as int);
        let ghost r = right@.skip(i as int);
        assert(l[0] == left@[i as int] && r[0] == right@[i as int]);
        if left[i] != right[i] {
            return left[i] < right[i];
        }
        i = i + 1;
        assert(l.skip(1) =~= left@.skip(i as int));
        assert(r.skip(1) =~= right@.skip(i as int));
    }
    i < right.len()
}

/// One key with its value.
pub struct Entry<V> {
    pub key: String,
    pub value: V,
}

/// A map whose keys are texts. The entries stand in the order of their keys, and
/// no key occurs twice.
pub struct KeyedMap<V> {
    entries: Vec<Entry<V>>,
}

impl<V> KeyedMap<V> {
    /// The entries in order.
    pub closed spec fn entries(self) -> Seq<Entry<V>> {
        self.entries@
    }

    /// Every key comes before the keys after it.
    pub open spec fn wf(self) -> bool {
        forall|i: int, j: int|
            0 <= i < j < self.entries().len() ==> text_before(
                (#[trigger] self.entries()[i]).key@,
                (#[trigger] self.entries()[j]).key@,
            )
    }

    pub open spec fn has_at(self, key: Seq<char>, i: int) -> bool {
        0 <= i < self.entries().len() && self.entries()[i].key@ == key
    }

    pub open spec fn has(self, key: Seq<char>) -> bool {
        exists|i: int| #[trigger] self.has_at(key, i)
    }

    pub open spec fn index_of(self, key: Seq<char>) -> int {
        choose|i: int| #[trigger] self.has_at(key, i)
    }

    /// The map that the entries make up.
    pub open spec fn view(&self) -> Map<Seq<char>, V> {
        Map::new(|key: Seq<char>| self.has(key), |key: Seq<char>| self.entries()[self.index_of(key)].value)
    }

    /// A key stands in one place, and the value there is its value.
    pub proof fn lemma_index(self, key: Seq<char>, i: int)
        requires
            self.wf(),
            self.has_at(key, i),
        ensures
            self.has(key),
            self.index_of(key) == i,
            self@.dom().contains(key),
            self@[key] == self.entries()[i].value,
    {
        let j = self.index_of(key);
        assert(self.has_at(key, j));
        if i < j {
            assert(text_before(self.entries()[i].key@, self.entries()[j].key@));
            lemma_text_before_irreflexive(key);
        } else if j < i {
            assert(text_before(self.entries()[j].key@, self.entries()[i].key@));
            lemma_text_before_irreflexive(key);
        }
    }

    pub fn new() -> (map: Self)
        ensures
            map.wf(),
            map.entries().len() == 0,
            map@ == Map::<Seq<char>, V>::empty(),
    {
        let map = KeyedMap { entries: Vec::new() };
        assert(map@ =~= Map::<Seq<char>, V>::empty());
        map
    }

    pub fn len(&self) -> (n: usize)
        ensures
            n == self.entries().len(),
    {
        self.entries.len()
    }

    /// The key in position `i`.
    pub fn key_at(&self, i: usize) -> (key: &String)
        requires
            i < self.entries().len(),
        ensures
            key@ == self.entries()[i as int].key@,
    {
        &self.entries[i].key
    }

    /// The value in position `i`.
    pub fn value_at(&self, i: usize) -> (value: &V)
        requires
            i < self.entries().len(),
        ensures
            *value == self.entries()[i as int].value,
    {
        &self.entries[i].value
    }

    /// The first position whose key does not come before `key`.
    fn position(&self, key: &str) -> (at: usize)
        requires
            self.wf(),
        ensures
            at <= self.entries().len(),
            forall|i: int| 0 <= i < at ==> text_before((#[trigger] self.entries()[i]).key@, key@),
            at < self.entries().len() ==> !text_before(self.entries()[at as int].key@, key@),
    {
        let mut low: usize = 0;
        let mut high: usize = self.entries.len();
        while low < high
            invariant
                self.wf(),
                low <= high <= self.entries.len(),
                forall|i: int| 0 <= i < low ==> text_before((#[trigger] self.entries()[i]).key@, key@),
                forall|i: int|
                    high <= i < self.entries().len() ==> !text_before(
                        (#[trigger] self.entries()[i]).key@,
                        key@,
                    ),
            decreases high - low,
        {
            let middle: usize = low + (high - low) / 2;
            if comes_before(self.entries[middle].key.as_str(), key) {
                assert forall|i: int| 0 <= i <= middle implies text_before(
                    (#[trigger] self.entries()[i]).key@,
                    key@,
                ) by {
                    if i < middle {
                        lemma_text_before_transitive(
                            self.entries()[i].key@,
                            self.entries()[middle as int].key@,
                            key@,
                        );
                    }
                }
                low = middle + 1;
            } else {
                assert forall|i: int| middle <= i < self.entries().len() implies !text_before(
                    (#[trigger] self.entries()[i]).key@,
                    key@,
                ) by {
                    if i > middle && text_before(self.entries()[i].key@, key@) {
                        lemma_text_before_transitive(
                            self.entries()[middle as int].key@,
                            self.entries()[i].key@,
                            key@,
                        );
                    }
                }
                high = middle;
            }
        }
        low
    }

    /// The position of `key`, where it is present.
    pub fn find(&self, key: &str) -> (found: Option<usize>)
        requires
            self.wf(),
        ensures
            found matches Some(i) ==> self.has_at(key@, i as int) && self.index_of(key@) == i
                && self@[key@] == self.entries()[i as int].value,
            found is Some <==> self@.dom().contains(key@),
    {
        let at = self.position(key);
        let wanted: String = key.to_owned();
        if at < self.entries.len() && self.entries[at].key.eq(&wanted) {
            proof {
                self.lemma_index(key@, at as int);
            }
            return Some(at);
        }
        proof {
            if self.has(key@) {
                let i = self.index_of(key@);
                assert(self.has_at(key@, i));
                lemma_text_before_irreflexive(key@);
                if at < self.entries().len() && at < i {
                    assert(text_before(self.entries()[at as int].key@, self.entries()[i].key@));
                }
            }
        }
        None
    }

    pub fn contains(&self, key: &str) -> (found: bool)
        requires
            self.wf(),
        ensures
            found == self@.dom().contains(key@),
    {
        self.find(key).is_some()
    }

    pub fn get(&self, key: &str) -> (value: Option<&V>)
        requires
            self.wf(),
        ensures
            value is Some <==> self@.dom().contains(key@),
            value matches Some(v) ==> *v == self@[key@],
    {
        match self.find(key) {
            Some(i) => Some(&self.entries[i].value),
            None => None,
        }
    }

    /// Puts `value` under `key`, in place of what was there.
    pub fn insert(&mut self, key: String, value: V)
        requires
            old(self).wf(),
        ensures
            final(self).wf(),
            final(self)@ == old(self)@.insert(key@, value),
            final(self).entries().len() == old(self).entries().len() + (if old(self)@.dom().contains(
                key@,
            ) {
                0int
            } else {
                1
            }),
    {
        let ghost before = *self;
        let ghost text = key@;
        let found = self.find(key.as_str());
        match found {
            Some(at) => {
                self.entries.set(at, Entry { key, value });
                assert forall|i: int, j: int|
                    0 <= i < j < self.entries().len() implies text_before(
                    (#[trigger] self.entries()[i]).key@,
                    (#[trigger] self.entries()[j]).key@,
                ) by {
                    assert(text_before(before.entries()[i].key@, before.entries()[j].key@));
                }
                proof {
                    assert(self.has_at(text, at as int));
                    self.lemma_index(text, at as int);
                    assert forall|k: Seq<char>| k != text implies (#[trigger] self@.dom().contains(k)
                        <==> before@.dom().contains(k)) && (before@.dom().contains(k) ==> self@[k]
                        == before@[k]) by {
                        if before.has(k) {
                            let i = before.index_of(k);
                            assert(before.has_at(k, i));
                            assert(self.has_at(k, i));
                            self.lemma_index(k, i);
                        }
                        if self.has(k) {
                            let i = self.index_of(k);
                            assert(self.has_at(k, i));
                            assert(before.has_at(k, i));
                        }
                    }
                    assert(self@ =~= before@.insert(text, value));
                }
            },
            None => {
                let at = self.position(key.as_str());
                self.entries.insert(at, Entry { key, value });
                proof {
                    let n = before.entries().len() as int;
                    assert forall|i: int| at <= i < n implies text_before(
                        text,
                        (#[trigger] before.entries()[i]).key@,
                    ) by {
                        if i > at {
                            assert(text_before(
                                before.entries()[at as int].key@,
                                before.entries()[i].key@,
                            ));
                        }
                        lemma_text_before_total(before.entries()[at as int].key@, text);
                        if before.entries()[at as int].key@ == text {
                            assert(before.has_at(text, at as int));
                        }
                        if i > at {
                            lemma_text_before_transitive(
                                text,
                                before.entries()[at as int].key@,
                                before.entries()[i].key@,
                            );
                        }
                    }
                    assert forall|i: int, j: int|
                        0 <= i < j < self.entries().len() implies text_before(
                        (#[trigger] self.entries()[i]).key@,
                        (#[trigger] self.entries()[j]).key@,
                    ) by {
                        let bi = if i < at { i } else { i - 1 };
                        let bj = if j < at { j } else { j - 1 };
                        if i != at && j != at {
                            assert(text_before(before.entries()[bi].key@, before.entries()[bj].key@));
                        } else if i == at {
                            assert(text_before(text, before.entries()[bj].key@));
                        } else {
                            assert(text_before(before.entries()[bi].key@, text));
                        }
                    }
                    assert(self.has_at(text, at as int));
                    self.lemma_index(text, at as int);
                    assert forall|k: Seq<char>| k != text implies (#[trigger] self@.dom().contains(k)
                        <==> before@.dom().contains(k)) && (before@.dom().contains(k) ==> self@[k]
                        == before@[k]) by {
                        if before.has(k) {
                            let i = before.index_of(k);
                            assert(before.has_at(k, i));
                            let ni = if i < at { i } else { i + 1 };
                            assert(self.has_at(k, ni));
                            self.lemma_index(k, ni);
                        }
                        if self.has(k) {
                            let i = self.index_of(k);
                            assert(self.has_at(k, i));
                            let bi = if i < at { i } else { i - 1 };
                            assert(before.has_at(k, bi));
                        }
                    }
                    assert(self@ =~= before@.insert(text, value));
                }
            },
        }
    }

    /// Whether `other` is this map with another value in position `i`.
    pub open spec fn replaced_at(self, other: Self, i: int, value: V) -> bool {
        &&& 0 <= i < self.entries().len() == other.entries().len()
        &&& other.entries()[i].key == self.entries()[i].key
        &&& other.entries()[i].value == value
        &&& forall|k: int|
            0 <= k < self.entries().len() && k != i ==> #[trigger] other.entries()[k]
                == self.entries()[k]
    }

    /// Another value in one place is another value under one key.
    pub proof fn lemma_replaced(self, other: Self, i: int, value: V)
        requires
            self.wf(),
            self.replaced_at(other, i, value),
        ensures
            other.wf(),
            other@ == self@.insert(self.entries()[i].key@, value),
    {
        let text = self.entries()[i].key@;
        assert forall|a: int, b: int| 0 <= a < b < other.entries().len() implies text_before(
            (#[trigger] other.entries()[a]).key@,
            (#[trigger] other.entries()[b]).key@,
        ) by {
            assert(text_before(self.entries()[a].key@, self.entries()[b].key@));
        }
        assert(other.has_at(text, i));
        other.lemma_index(text, i);
        assert forall|k: Seq<char>| k != text implies (#[trigger] other@.dom().contains(k)
            <==> self@.dom().contains(k)) && (self@.dom().contains(k) ==> other@[k]
            == self@[k]) by {
            if self.has(k) {
                let at = self.index_of(k);
                assert(self.has_at(k, at));
                assert(other.has_at(k, at));
                other.lemma_index(k, at);
            }
            if other.has(k) {
                let at = other.index_of(k);
                assert(other.has_at(k, at));
                assert(self.has_at(k, at));
            }
        }
        assert(other@ =~= self@.insert(text, value));
    }

    /// The value under `key`, to be changed.
    pub fn get_mut(&mut self, key: &str) -> (value: Option<&mut V>)
        requires
            old(self).wf(),
        ensures
            match value {
                Some(v) => {
                    &&& old(self)@.contains_key(key@)
                    &&& *v == old(self)@[key@]
                    &&& final(self).wf()
                    &&& final(self)@ == old(self)@.insert(key@, *final(v))
                },
                None => !old(self)@.contains_key(key@) && *final(self) == *old(self),
            },
    {
        let ghost before = *self;
        match self.find(key) {
            Some(at) => {
                assert forall|other: Self| before.replaced_at(
                    other,
                    at as int,
                    other.entries()[at as int].value,
                ) implies #[trigger] other.wf() && other@ == before@.insert(
                    key@,
                    other.entries()[at as int].value,
                ) by {
                    before.lemma_replaced(other, at as int, other.entries()[at as int].value);
                }
                Some(&mut self.entries[at].value)
            },
            None => None,
        }
    }

    /// Puts another value in position `i`, under the key that stands there.
    pub fn set_at(&mut self, i: usize, value: V)
        requires
            old(self).wf(),
            i < old(self).entries().len(),
        ensures
            final(self).wf(),
            final(self).entries().len() == old(self).entries().len(),
            final(self).entries()[i as int].value == value,
            forall|k: int|
                0 <= k < old(self).entries().len() ==> (#[trigger] final(self).entries()[k]).key
                    == old(self).entries()[k].key,
            forall|k: int|
                0 <= k < old(self).entries().len() && k != i ==> #[trigger] final(self).entries()[k]
                    == old(self).entries()[k],
            final(self)@ == old(self)@.insert(old(self).entries()[i as int].key@, value),
    {
        let ghost before = *self;
        let key = self.entries[i].key.clone();
        self.entries.set(i, Entry { key, value });
        proof {
            before.lemma_replaced(*self, i as int, value);
        }
    }

    /// Takes out what stands under `key`.
    pub fn remove(&mut self, key: &str) -> (value: Option<V>)
        requires
            old(self).wf(),
        ensures
            final(self).wf(),
            final(self)@ == old(self)@.remove(key@),
            value is Some <==> old(self)@.dom().contains(key@),
            value matches Some(v) ==> v == old(self)@[key@],
            value is Some ==> old(self).has_at(key@, old(self).index_of(key@))
                && final(self).entries() == old(self).entries().remove(old(self).index_of(key@)),
            value is None ==> final(self).entries() == old(self).entries(),
    {
        let ghost before = *self;
        match self.find(key) {
            None => {
                assert(self@ =~= before@.remove(key@));
                None
            },
            Some(at) => {
                let entry = self.entries.remove(at);
                proof {
                    assert forall|i: int, j: int|
                        0 <= i < j < self.entries().len() implies text_before(
                        (#[trigger] self.entries()[i]).key@,
                        (#[trigger] self.entries()[j]).key@,
                    ) by {
                        let bi = if i < at { i } else { i + 1 };
                        let bj = if j < at { j } else { j + 1 };
                        assert(text_before(before.entries()[bi].key@, before.entries()[bj].key@));
                    }
                    assert forall|k: Seq<char>| #[trigger] self@.dom().contains(k) <==> (
                    before@.dom().contains(k) && k != key@) by {
                        if before.has(k) && k != key@ {
                            let i = before.index_of(k);
                            assert(before.has_at(k, i));
                            let ni = if i < at { i } else { i - 1 };
                            assert(self.has_at(k, ni));
                        }
                        if self.has(k) {
                            let i = self.index_of(k);
                            assert(self.has_at(k, i));
                            let bi = if i < at { i } else { i + 1 };
                            assert(before.has_at(k, bi));
                            before.lemma_index(k, bi);
                        }
                    }
                    assert forall|k: Seq<char>| #[trigger] self@.dom().contains(k) implies self@[k]
                        == before@[k] by {
                        let i = self.index_of(k);
                        assert(self.has_at(k, i));
                        let bi = if i < at { i } else { i + 1 };
                        assert(before.has_at(k, bi));
                        before.lemma_index(k, bi);
                    }
                    assert(self@ =~= before@.remove(key@));
                }
                Some(entry.value)
            },
        }
    }
}

/// The map with the texts of its values.
pub open spec fn text_map(map: Map<Seq<char>, String>) -> Map<Seq<char>, Seq<char>> {
    map.map_values(|text: String| text@)
}

/// The map without the keys whose value is `value`.
pub open spec fn without_value(map: Map<Seq<char>, Seq<char>>, value: Seq<char>) -> Map<
    Seq<char>,
    Seq<char>,
> {
    Map::new(|key: Seq<char>| map.contains_key(key) && map[key] != value, |key: Seq<char>| map[key])
}

impl KeyedMap<String> {
    /// Takes out every key whose value is `value`.
    pub fn remove_value(&mut self, value: &str)
        requires
            old(self).wf(),
        ensures
            final(self).wf(),
            text_map(final(self)@) == without_value(text_map(old(self)@), value@),
    {
        let ghost before = self@;
        let wanted: String = value.to_owned();
        let mut i: usize = 0;
        while i < self.entries.len()
            invariant
                self.wf(),
                wanted@ == value@,
                i <= self.entries.len(),
                forall|k: int| 0 <= k < i ==> (#[trigger] self.entries()[k]).value@ != value@,
                forall|key: Seq<char>| #[trigger]
                    self@.contains_key(key) ==> before.contains_key(key) && self@[key]
                        == before[key],
                forall|key: Seq<char>| #[trigger]
                    before.contains_key(key) && !self@.contains_key(key) ==> before[key]@ == value@,
            decreases self.entries.len() - i,
        {
            if self.entries[i].value.eq(&wanted) {
                let key = self.entries[i].key.clone();
                proof {
                    assert(self.has_at(key@, i as int));
                    self.lemma_index(key@, i as int);
                }
                let ghost earlier = *self;
                let _ = self.remove(key.as_str());
                proof {
                    assert forall|k: int| 0 <= k < i implies (#[trigger] self.entries()[k]).value@
                        != value@ by {
                        assert(self.entries()[k] == earlier.entries()[k]);
                    }
                }
            } else {
                i = i + 1;
            }
        }
        proof {
            assert forall|key: Seq<char>| #[trigger] self@.contains_key(key) implies self@[key]@
                != value@ by {
                let at = self.index_of(key);
                assert(self.has_at(key, at));
                self.lemma_index(key, at);
            }
            assert(text_map(self@) =~= without_value(text_map(before), value@));
        }
    }
}

} // verus!
