//! An ordered map with text keys.

use crate::resources;
use vstd::prelude::*;
use vstd::utf8::*;

verus! {

/// Byte order as a dictionary has it: at the first place where the two differ the smaller
/// byte comes first, and a proper prefix comes before what it is a prefix of.
pub open spec fn bytes_less(a: Seq<u8>, b: Seq<u8>) -> bool {
    exists|n: int| #[trigger] differ_first_at(a, b, n)
}

/// `a` and `b` agree on their first `n` bytes, and there `a` ends or has the smaller byte.
pub open spec fn differ_first_at(a: Seq<u8>, b: Seq<u8>, n: int) -> bool {
    &&& 0 <= n <= a.len()
    &&& n < b.len()
    &&& forall|i: int| 0 <= i < n ==> #[trigger] a[i] == b[i]
    &&& n < a.len() ==> a[n] < b[n]
}

/// The order of the keys: that of their UTF-8 bytes.
pub open spec fn key_less(a: Seq<char>, b: Seq<char>) -> bool {
    bytes_less(encode_utf8(a), encode_utf8(b))
}

/// Every key comes before those that follow it.
pub open spec fn ascending(keys: Seq<Seq<char>>) -> bool {
    forall|i: int, j: int|
        0 <= i < j < keys.len() ==> #[trigger] key_less(keys[i], keys[j])
}

/// The key order is transitive.
pub proof fn key_less_transitive(a: Seq<char>, b: Seq<char>, c: Seq<char>)
    requires
        key_less(a, b),
        key_less(b, c),
    ensures
        key_less(a, c),
{
    let (x, y, z) = (encode_utf8(a), encode_utf8(b), encode_utf8(c));
    let m = choose|n: int| #[trigger] differ_first_at(x, y, n);
    let n = choose|n: int| #[trigger] differ_first_at(y, z, n);
    let least = if m < n { m } else { n };
    assert forall|i: int| 0 <= i < least implies #[trigger] x[i] == z[i] by {
        assert(x[i] == y[i]);
        assert(y[i] == z[i]);
    }
    if m < n {
        assert(y[m] == z[m]);
    } else if n < m {
        assert(x[n] == y[n]);
    }
    assert(differ_first_at(x, z, least));
}

/// No key comes before itself.
pub proof fn key_less_irreflexive(a: Seq<char>)
    ensures
        !key_less(a, a),
{
}

/// Of two different keys one comes before the other.
pub proof fn key_less_total(a: Seq<char>, b: Seq<char>)
    requires
        a != b,
    ensures
        key_less(a, b) || key_less(b, a),
{
    let (x, y) = (encode_utf8(a), encode_utf8(b));
    if x == y {
        encode_utf8_decode_utf8(a);
        encode_utf8_decode_utf8(b);
    }
    first_difference(x, y, 0);
}

/// Of finitely many keys one comes before all the others.
pub proof fn least_key(keys: Set<Seq<char>>) -> (least: Seq<char>)
    requires
        keys.finite(),
        keys.len() > 0,
    ensures
        keys.contains(least),
        forall|other: Seq<char>|
            #![trigger keys.contains(other)]
            keys.contains(other) && other != least ==> key_less(least, other),
    decreases keys.len(),
{
    let key = keys.choose();
    let rest = keys.remove(key);
    if rest.len() == 0 {
        assert forall|other: Seq<char>| keys.contains(other) implies other == key by {
            if other != key {
                assert(rest.contains(other));
            }
        }
        key
    } else {
        let least_of_rest = least_key(rest);
        key_less_total(key, least_of_rest);
        let least = if key_less(key, least_of_rest) {
            key
        } else {
            least_of_rest
        };
        assert forall|other: Seq<char>|
            #![trigger keys.contains(other)]
            keys.contains(other) && other != least implies key_less(least, other) by {
            if other != key {
                assert(rest.contains(other));
                if least == key && other != least_of_rest {
                    key_less_transitive(key, least_of_rest, other);
                }
            }
        }
        least
    }
}

proof fn first_difference(x: Seq<u8>, y: Seq<u8>, n: int)
    requires
        x != y,
        0 <= n <= x.len(),
        n <= y.len(),
        forall|i: int| 0 <= i < n ==> #[trigger] x[i] == y[i],
    ensures
        bytes_less(x, y) || bytes_less(y, x),
    decreases x.len() - n,
{
    if n == x.len() && n == y.len() {
        assert(x =~= y);
    } else if n == x.len() {
        assert(differ_first_at(x, y, n));
    } else if n == y.len() {
        assert(differ_first_at(y, x, n));
    } else if x[n] < y[n] {
        assert(differ_first_at(x, y, n));
    } else if y[n] < x[n] {
        assert(differ_first_at(y, x, n));
    } else {
        first_difference(x, y, n + 1);
    }
}

/// How one key stands to another.
#[derive(Clone, Copy, Debug, PartialEq, Eq, Structural)]
pub enum KeyOrder {
    Before,
    Same,
    After,
}

/// Places `a` relative to `b`.
pub fn order_of(a: &str, b: &str) -> (order: KeyOrder)
    ensures
        order == KeyOrder::Same <==> a@ == b@,
        order == KeyOrder::Before <==> key_less(a@, b@),
        order == KeyOrder::After <==> key_less(b@, a@),
{
    let x: &[u8] = a.as_bytes();
    let y: &[u8] = b.as_bytes();
    let mut i: usize = 0;
    while i < x.len() && i < y.len() && x[i] == y[i]
        invariant
            x@ == encode_utf8(a@),
            y@ == encode_utf8(b@),
            i <= x.len(),
            i <= y.len(),
            forall|k: int| 0 <= k < i ==> #[trigger] x@[k] == y@[k],
        decreases x.len() - i,
    {
        i += 1;
    }
    proof {
        encode_utf8_decode_utf8(a@);
        encode_utf8_decode_utf8(b@);
        if key_less(a@, b@) && key_less(b@, a@) {
            key_less_transitive(a@, b@, a@);
            key_less_irreflexive(a@);
        }
        key_less_irreflexive(a@);
    }
    if i == x.len() && i == y.len() {
        assert(x@ =~= y@);
        KeyOrder::Same
    } else if i == x.len() {
        assert(differ_first_at(x@, y@, i as int));
        KeyOrder::Before
    } else if i == y.len() {
        assert(differ_first_at(y@, x@, i as int));
        KeyOrder::After
    } else if x[i] < y[i] {
        assert(differ_first_at(x@, y@, i as int));
        KeyOrder::Before
    } else {
        assert(differ_first_at(y@, x@, i as int));
        KeyOrder::After
    }
}

/// Whether two texts are the same.
pub fn same_text(a: &str, b: &str) -> (same: bool)
    ensures
        same <==> a@ == b@,
{
    order_of(a, b) == KeyOrder::Same
}

/// A map from text to values of type `V`, kept in the order of its keys.
#[derive(Debug)]
pub struct StringMap<V> {
    entries: Vec<(String, V)>,
}

/// The keys of a list of entries, in its order.
spec fn keys_of<V>(entries: Seq<(String, V)>) -> Seq<Seq<char>> {
    Seq::new(entries.len(), |i: int| entries[i].0@)
}

/// The place of a key in a list of keys that holds it.
spec fn place_of(keys: Seq<Seq<char>>, key: Seq<char>) -> int {
    choose|i: int| 0 <= i < keys.len() && keys[i] == key
}

/// What a list of entries with different keys says as a map.
spec fn map_of<V: View>(entries: Seq<(String, V)>) -> Map<Seq<char>, V::V> {
    Map::new(
        |key: Seq<char>| keys_of(entries).contains(key),
        |key: Seq<char>| entries[place_of(keys_of(entries), key)].1@,
    )
}

impl<V: View> View for StringMap<V> {
    type V = Map<Seq<char>, V::V>;

    closed spec fn view(&self) -> Map<Seq<char>, V::V> {
        map_of(self.entries@)
    }
}

proof fn ascending_distinct(keys: Seq<Seq<char>>)
    requires
        ascending(keys),
    ensures
        keys.no_duplicates(),
{
    assert forall|i: int, j: int| 0 <= i < keys.len() && 0 <= j < keys.len() && i != j implies
        keys[i] != keys[j] by {
        if i < j {
            assert(key_less(keys[i], keys[j]));
        } else {
            assert(key_less(keys[j], keys[i]));
        }
        key_less_irreflexive(keys[i]);
    }
}

proof fn entry_of_map<V: View>(entries: Seq<(String, V)>, i: int)
    requires
        ascending(keys_of(entries)),
        0 <= i < entries.len(),
    ensures
        map_of(entries).contains_key(entries[i].0@),
        map_of(entries)[entries[i].0@] == entries[i].1@,
{
    let keys = keys_of(entries);
    ascending_distinct(keys);
    assert(keys[i] == entries[i].0@);
    assert(keys.contains(entries[i].0@));
    let j = place_of(keys, entries[i].0@);
    assert(0 <= j < keys.len() && keys[j] == keys[i]);
}

impl<V> StringMap<V> {
    /// The keys, in their order.
    pub closed spec fn keys(&self) -> Seq<Seq<char>> {
        keys_of(self.entries@)
    }

    #[verifier::type_invariant]
    spec fn ordered(self) -> bool {
        ascending(keys_of(self.entries@))
    }
}

impl<V: View> StringMap<V> {
    /// The keys of the map are those that stand at some place.
    pub proof fn keys_have_places(&self)
        ensures
            forall|key: Seq<char>| #[trigger]
                self@.contains_key(key) <==> exists|j: int|
                    0 <= j < self.keys().len() && #[trigger] self.keys()[j] == key,
    {
        assert forall|key: Seq<char>| #[trigger] self@.contains_key(key) implies exists|j: int|
            0 <= j < self.keys().len() && #[trigger] self.keys()[j] == key by {
            assert(self.keys()[place_of(self.keys(), key)] == key);
        }
        assert forall|j: int| 0 <= j < self.keys().len() implies self@.contains_key(
            #[trigger] self.keys()[j],
        ) by {
            assert(self.keys().contains(self.keys()[j]));
        }
    }

    /// A map without entries.
    pub fn new() -> (map: Self)
        ensures
            map@ == Map::<Seq<char>, V::V>::empty(),
    {
        let map = StringMap { entries: Vec::new() };
        assert(map@ =~= Map::<Seq<char>, V::V>::empty());
        map
    }

    /// The number of entries. With it comes what the keys are: those of the map, each once,
    /// in ascending order.
    pub fn len(&self) -> (n: usize)
        ensures
            n == self.keys().len(),
            ascending(self.keys()),
            self@.dom() == self.keys().to_set(),
            self@.dom().finite(),
            self@.len() == n,
    {
        proof {
            use_type_invariant(self);
            ascending_distinct(self.keys());
            self.keys().unique_seq_to_set();
            assert(self@.dom() =~= self.keys().to_set());
        }
        self.entries.len()
    }

    /// Whether there are no entries.
    pub fn is_empty(&self) -> (empty: bool)
        ensures
            empty <==> self@ == Map::<Seq<char>, V::V>::empty(),
            empty <==> self@.dom() == Set::<Seq<char>>::empty(),
    {
        proof {
            if self.entries@.len() == 0 {
                assert(self@ =~= Map::<Seq<char>, V::V>::empty());
                assert(self@.dom() =~= Set::<Seq<char>>::empty());
            } else {
                assert(self.keys()[0] == self.entries@[0].0@);
                assert(self@.dom().contains(self.keys()[0]));
            }
        }
        self.entries.len() == 0
    }

    /// The key at place `i`.
    pub fn key_at(&self, i: usize) -> (key: &String)
        requires
            i < self.keys().len(),
        ensures
            key@ == self.keys()[i as int],
            self@.contains_key(key@),
    {
        proof {
            use_type_invariant(self);
            entry_of_map(self.entries@, i as int);
        }
        &self.entries[i].0
    }

    /// The value of the key at place `i`.
    pub fn value_at(&self, i: usize) -> (value: &V)
        requires
            i < self.keys().len(),
        ensures
            self@.contains_key(self.keys()[i as int]),
            value@ == self@[self.keys()[i as int]],
    {
        proof {
            use_type_invariant(self);
            entry_of_map(self.entries@, i as int);
        }
        &self.entries[i].1
    }

    /// The first place whose key does not come before `key`.
    fn place(&self, key: &str) -> (place: usize)
        ensures
            place <= self.entries@.len(),
            forall|i: int| 0 <= i < place ==> key_less(#[trigger] self.keys()[i], key@),
            place < self.entries@.len() ==> !key_less(self.keys()[place as int], key@),
    {
        let mut i: usize = 0;
        while i < self.entries.len()
            invariant
                i <= self.entries@.len(),
                forall|j: int| 0 <= j < i ==> key_less(#[trigger] self.keys()[j], key@),
            decreases self.entries@.len() - i,
        {
            assert(self.keys()[i as int] == self.entries@[i as int].0@);
            if order_of(self.entries[i].0.as_str(), key) != KeyOrder::Before {
                return i;
            }
            i += 1;
        }
        i
    }

    /// The value that belongs to `key`.
    pub fn get(&self, key: &str) -> (value: Option<&V>)
        ensures
            value is Some <==> self@.contains_key(key@),
            value matches Some(v) ==> v@ == self@[key@],
    {
        proof {
            use_type_invariant(self);
        }
        let place = self.place(key);
        if place < self.entries.len() {
            assert(self.keys()[place as int] == self.entries@[place as int].0@);
            if order_of(self.entries[place].0.as_str(), key) == KeyOrder::Same {
                proof {
                    entry_of_map(self.entries@, place as int);
                }
                return Some(&self.entries[place].1);
            }
        }
        proof {
            let keys = self.keys();
            assert forall|i: int| 0 <= i < keys.len() implies #[trigger] keys[i] != key@ by {
                key_less_irreflexive(key@);
                if i > place {
                    assert(key_less(keys[place as int], keys[i]));
                    if keys[i] == key@ {
                        assert(false);
                    }
                }
            }
        }
        None
    }

    /// Sets the value that belongs to `key`.
    pub fn insert(&mut self, key: String, value: V)
        ensures
            final(self)@ == old(self)@.insert(key@, value@),
    {
        proof {
            use_type_invariant(&*self);
        }
        let place = self.place(key.as_str());
        let same = place < self.entries.len() && order_of(
            self.entries[place].0.as_str(),
            key.as_str(),
        ) == KeyOrder::Same;
        let ghost before = self.entries@;
        assert(forall|i: int|
            0 <= i < place ==> key_less(#[trigger] keys_of(before)[i], key@)) by {
            assert(self.keys() == keys_of(before));
        }
        let mut entries: Vec<(String, V)> = Vec::new();
        std::mem::swap(&mut entries, &mut self.entries);
        if same {
            entries.set(place, (key, value));
            proof {
                assert(keys_of(entries@) =~= keys_of(before));
                replaced_as_map(before, place as int, (key, value));
            }
        } else {
            entries.insert(place, (key, value));
            proof {
                inserted_as_map(before, place as int, (key, value));
            }
        }
        self.entries = entries;
    }
}

/// A value that says `copy` can be the clone of one that says `source`.
pub open spec fn clones_to<V: View + Clone>(source: V::V, copy: V::V) -> bool {
    exists|v: V, w: V| #[trigger] cloned::<V>(v, w) && v@ == source && w@ == copy
}

impl<V: View + Clone> Clone for StringMap<V> {
    fn clone(&self) -> (copy: Self)
        ensures
            copy@.dom() == self@.dom(),
            forall|key: Seq<char>| #[trigger]
                copy@.contains_key(key) ==> clones_to::<V>(self@[key], copy@[key]),
    {
        proof {
            use_type_invariant(self);
        }
        let mut entries: Vec<(String, V)> = Vec::new();
        let mut i: usize = 0;
        while i < self.entries.len()
            invariant
                i <= self.entries@.len(),
                entries@.len() == i,
                forall|j: int|
                    0 <= j < i ==> (#[trigger] entries@[j]).0@ == self.entries@[j].0@ && cloned::<
                        V,
                    >(self.entries@[j].1, entries@[j].1),
            decreases self.entries@.len() - i,
        {
            let value = self.entries[i].1.clone();
            entries.push((self.entries[i].0.clone(), value));
            i += 1;
        }
        assert(keys_of(entries@) =~= keys_of(self.entries@));
        let copy = StringMap { entries };
        proof {
            assert(copy@.dom() =~= self@.dom());
            assert forall|key: Seq<char>| #[trigger] copy@.contains_key(key) implies clones_to::<V>(
                self@[key],
                copy@[key],
            ) by {
                let j = place_of(keys_of(entries@), key);
                assert(keys_of(entries@)[j] == entries@[j].0@);
                entry_of_map(entries@, j);
                entry_of_map(self.entries@, j);
            }
        }
        copy
    }
}

/// What a list of pairs says as a map: each key has the value that comes last with it.
pub open spec fn collected<V>(pairs: Seq<(Seq<char>, V)>) -> Map<Seq<char>, V>
    decreases pairs.len(),
{
    if pairs.len() == 0 {
        Map::empty()
    } else {
        collected(pairs.drop_last()).insert(pairs.last().0, pairs.last().1)
    }
}

/// Collects pairs into a map.
pub fn from_pairs<V: View>(pairs: Vec<(String, V)>) -> (map: StringMap<V>)
    ensures
        map@ == collected(resources::list_view(pairs@)),
{
    let ghost views = resources::list_view(pairs@);
    let ghost given = pairs@;
    let mut map: StringMap<V> = StringMap::new();
    for pair in iter: pairs.into_iter()
        invariant
            iter.seq() == given,
            views == resources::list_view(given),
            map@ == collected(views.take(iter.index() as int)),
    {
        proof {
            let longer = views.take(iter.index() + 1);
            assert(longer.drop_last() =~= views.take(iter.index() as int));
            assert(longer.last() == given[iter.index() as int]@);
        }
        let (key, value) = pair;
        map.insert(key, value);
    }
    assert(views.take(views.len() as int) =~= views);
    map
}

proof fn replaced_as_map<V: View>(entries: Seq<(String, V)>, place: int, entry: (String, V))
    requires
        ascending(keys_of(entries)),
        0 <= place < entries.len(),
        entries[place].0@ == entry.0@,
    ensures
        ascending(keys_of(entries.update(place, entry))),
        map_of(entries.update(place, entry)) == map_of(entries).insert(entry.0@, entry.1@),
{
    let after = entries.update(place, entry);
    assert(keys_of(after) =~= keys_of(entries));
    entry_of_map(entries, place);
    let expected = map_of(entries).insert(entry.0@, entry.1@);
    assert(map_of(after).dom() =~= expected.dom());
    assert forall|key: Seq<char>| map_of(after).contains_key(key) implies
        #[trigger] map_of(after)[key] == expected[key] by {
        let i = place_of(keys_of(after), key);
        assert(keys_of(after)[i] == after[i].0@);
        entry_of_map(after, i);
        entry_of_map(entries, i);
        ascending_distinct(keys_of(entries));
        assert(keys_of(entries)[place] == entry.0@);
    }
    assert(map_of(after) =~= expected);
}

proof fn inserted_as_map<V: View>(entries: Seq<(String, V)>, place: int, entry: (String, V))
    requires
        ascending(keys_of(entries)),
        0 <= place <= entries.len(),
        forall|i: int| 0 <= i < place ==> key_less(#[trigger] keys_of(entries)[i], entry.0@),
        place < entries.len() ==> !key_less(keys_of(entries)[place], entry.0@),
        place < entries.len() ==> entries[place].0@ != entry.0@,
    ensures
        ascending(keys_of(entries.insert(place, entry))),
        map_of(entries.insert(place, entry)) == map_of(entries).insert(entry.0@, entry.1@),
{
    let after = entries.insert(place, entry);
    let keys = keys_of(entries);
    assert(keys_of(after) =~= keys.insert(place, entry.0@));
    assert forall|i: int| place <= i < keys.len() implies key_less(entry.0@, #[trigger] keys[i]) by {
        key_less_total(entry.0@, keys[place]);
        if place < i {
            assert(key_less(keys[place], keys[i]));
            key_less_transitive(entry.0@, keys[place], keys[i]);
        }
    }
    assert forall|i: int, j: int| 0 <= i < j < after.len() implies #[trigger] key_less(
        keys_of(after)[i],
        keys_of(after)[j],
    ) by {
        let (p, q) = (if i < place { i } else { i - 1 }, if j < place { j } else { j - 1 });
        if i == place {
            assert(keys_of(after)[j] == keys[q]);
        } else if j == place {
            assert(keys_of(after)[i] == keys[p]);
        } else {
            assert(key_less(keys[p], keys[q]));
        }
    }
    let expected = map_of(entries).insert(entry.0@, entry.1@);
    assert forall|key: Seq<char>| map_of(after).contains_key(key) implies
        expected.contains_key(key) && #[trigger] map_of(after)[key] == expected[key] by {
        let i = place_of(keys_of(after), key);
        assert(keys_of(after)[i] == after[i].0@);
        entry_of_map(after, i);
        if i != place {
            let p = if i < place { i } else { i - 1 };
            entry_of_map(entries, p);
            ascending_distinct(keys_of(after));
            assert(keys_of(after)[place] == entry.0@);
        }
    }
    assert forall|key: Seq<char>| expected.contains_key(key) implies map_of(after).contains_key(
        key,
    ) by {
        if key == entry.0@ {
            assert(keys_of(after)[place] == key);
        } else {
            let p = place_of(keys, key);
            let i = if p < place { p } else { p + 1 };
            assert(keys_of(after)[i] == keys[p]);
        }
    }
    assert(map_of(after) =~= expected);
}

} // verus!
