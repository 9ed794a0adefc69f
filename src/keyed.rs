//! A map from string keys to values that keeps its keys in insertion order.
use vstd::prelude::*;
use crate::text::str_eq;

verus! {

/// Entries under distinct keys, and the map they make.
closed spec fn parts_ok<V>(entries: Seq<(String, V)>, map: Map<Seq<char>, V>) -> bool {
    &&& forall|i: int|
        0 <= i < entries.len() ==> {
            let e = #[trigger] entries[i];
            &&& map.contains_key(e.0@)
            &&& map[e.0@] == e.1
        }
    &&& forall|k: Seq<char>|
        #[trigger] map.contains_key(k) ==> exists|i: int|
            0 <= i < entries.len() && #[trigger] entries[i].0@ == k
    &&& forall|i: int, j: int|
        0 <= i < j < entries.len() ==> #[trigger] entries[i].0@ != #[trigger] entries[j].0@
    &&& map.dom().finite()
    &&& map.dom().len() == entries.len()
}

/// The keys of a sequence of entries.
closed spec fn keys_of<V>(entries: Seq<(String, V)>) -> Seq<Seq<char>> {
    entries.map_values(|e: (String, V)| e.0@)
}

/// Position of a key among entries, if present.
fn position<V>(entries: &Vec<(String, V)>, key: &str, map: Ghost<Map<Seq<char>, V>>) -> (r: Option<
    usize,
>)
    requires
        parts_ok(entries@, map@),
    ensures
        match r {
            Some(i) => i < entries@.len() && entries@[i as int].0@ == key@,
            None => !map@.contains_key(key@),
        },
{
    let mut i: usize = 0;
    while i < entries.len()
        invariant
            parts_ok(entries@, map@),
            i <= entries@.len(),
            forall|j: int| 0 <= j < i ==> #[trigger] entries@[j].0@ != key@,
        decreases entries@.len() - i,
    {
        if str_eq(entries[i].0.as_str(), key) {
            return Some(i);
        }
        i = i + 1;
    }
    proof {
        if map@.contains_key(key@) {
            let k = choose|k: int| 0 <= k < entries@.len() && #[trigger] entries@[k].0@ == key@;
            assert(entries@[k].0@ != key@);
        }
    }
    None
}

proof fn lemma_set_entry<V>(
    es: Seq<(String, V)>,
    map: Map<Seq<char>, V>,
    i: int,
    key: String,
    value: V,
)
    requires
        parts_ok(es, map),
        0 <= i < es.len(),
        es[i].0@ == key@,
    ensures
        parts_ok(es.update(i, (key, value)), map.insert(key@, value)),
        keys_of(es.update(i, (key, value))) == keys_of(es),
{
    let nes = es.update(i, (key, value));
    let nmap = map.insert(key@, value);
    assert forall|a: int| 0 <= a < nes.len() implies {
        let e = #[trigger] nes[a];
        &&& nmap.contains_key(e.0@)
        &&& nmap[e.0@] == e.1
    } by {
        if a != i {
            if a < i {
                assert(es[a].0@ != es[i].0@);
            } else {
                assert(es[i].0@ != es[a].0@);
            }
        }
    }
    assert forall|x: Seq<char>| #[trigger] nmap.contains_key(x) implies exists|a: int|
        0 <= a < nes.len() && #[trigger] nes[a].0@ == x by {
        if x == key@ {
            assert(nes[i].0@ == x);
        } else {
            let a = choose|a: int| 0 <= a < es.len() && #[trigger] es[a].0@ == x;
            assert(nes[a].0@ == x);
        }
    }
    assert forall|a: int, b: int| 0 <= a < b < nes.len() implies #[trigger] nes[a].0@
        != #[trigger] nes[b].0@ by {
        assert(es[a].0@ != es[b].0@);
    }
    assert(nmap.dom() =~= map.dom());
    assert(keys_of(nes) =~= keys_of(es));
}

proof fn lemma_push_entry<V>(es: Seq<(String, V)>, map: Map<Seq<char>, V>, key: String, value: V)
    requires
        parts_ok(es, map),
        !map.contains_key(key@),
    ensures
        parts_ok(es.push((key, value)), map.insert(key@, value)),
        keys_of(es.push((key, value))) == keys_of(es).push(key@),
{
    let nes = es.push((key, value));
    let nmap = map.insert(key@, value);
    assert forall|a: int| 0 <= a < nes.len() implies {
        let e = #[trigger] nes[a];
        &&& nmap.contains_key(e.0@)
        &&& nmap[e.0@] == e.1
    } by {
        if a < es.len() {
            assert(nes[a] == es[a]);
            assert(map.contains_key(es[a].0@));
        }
    }
    assert forall|x: Seq<char>| #[trigger] nmap.contains_key(x) implies exists|a: int|
        0 <= a < nes.len() && #[trigger] nes[a].0@ == x by {
        if x == key@ {
            assert(nes[es.len() as int].0@ == x);
        } else {
            let a = choose|a: int| 0 <= a < es.len() && #[trigger] es[a].0@ == x;
            assert(nes[a].0@ == x);
        }
    }
    assert forall|a: int, b: int| 0 <= a < b < nes.len() implies #[trigger] nes[a].0@
        != #[trigger] nes[b].0@ by {
        assert(nes[a] == es[a]);
        if b < es.len() {
            assert(nes[b] == es[b]);
        } else {
            assert(map.contains_key(es[a].0@));
        }
    }
    assert(keys_of(nes) =~= keys_of(es).push(key@));
}

proof fn lemma_remove_entry<V>(es: Seq<(String, V)>, map: Map<Seq<char>, V>, i: int)
    requires
        parts_ok(es, map),
        0 <= i < es.len(),
    ensures
        parts_ok(es.remove(i), map.remove(es[i].0@)),
{
    let nes = es.remove(i);
    let key = es[i].0@;
    let nmap = map.remove(key);
    assert forall|k: int| 0 <= k < nes.len() implies {
        let e = #[trigger] nes[k];
        &&& nmap.contains_key(e.0@)
        &&& nmap[e.0@] == e.1
    } by {
        if k < i {
            assert(nes[k] == es[k]);
            assert(es[k].0@ != es[i].0@);
        } else {
            assert(nes[k] == es[k + 1]);
            assert(es[i].0@ != es[k + 1].0@);
        }
    }
    assert forall|x: Seq<char>| #[trigger] nmap.contains_key(x) implies exists|k: int|
        0 <= k < nes.len() && #[trigger] nes[k].0@ == x by {
        let k = choose|k: int| 0 <= k < es.len() && #[trigger] es[k].0@ == x;
        if k < i {
            assert(nes[k].0@ == x);
        } else {
            assert(k != i);
            assert(nes[k - 1].0@ == x);
        }
    }
    assert forall|a: int, b: int| 0 <= a < b < nes.len() implies #[trigger] nes[a].0@
        != #[trigger] nes[b].0@ by {
        let a2 = if a < i { a } else { a + 1 };
        let b2 = if b < i { b } else { b + 1 };
        assert(nes[a] == es[a2]);
        assert(nes[b] == es[b2]);
    }
}

/// Entries under distinct string keys, in the order their keys first came.
pub struct KeyedList<V> {
    entries: Vec<(String, V)>,
    map: Ghost<Map<Seq<char>, V>>,
}

impl<V> View for KeyedList<V> {
    type V = Map<Seq<char>, V>;

    closed spec fn view(&self) -> Map<Seq<char>, V> {
        self.map@
    }
}

impl<V> KeyedList<V> {
    #[verifier::type_invariant]
    closed spec fn inv(self) -> bool {
        parts_ok(self.entries@, self.map@)
    }

    /// The keys in the order they first came.
    pub closed spec fn key_order(&self) -> Seq<Seq<char>> {
        keys_of(self.entries@)
    }

    /// An empty list.
    pub fn new() -> (r: KeyedList<V>)
        ensures
            r@ == Map::<Seq<char>, V>::empty(),
            r.key_order() == Seq::<Seq<char>>::empty(),
    {
        let r = KeyedList { entries: Vec::new(), map: Ghost(Map::empty()) };
        assert(r.key_order() =~= Seq::<Seq<char>>::empty());
        r
    }

    /// The number of keys.
    pub fn len(&self) -> (r: usize)
        ensures
            r == self@.len(),
            self.key_order().len() == r,
            forall|i: int| 0 <= i < r ==> self@.contains_key(#[trigger] self.key_order()[i]),
            forall|k: Seq<char>| #[trigger] self@.contains_key(k) ==> exists|i: int|
                0 <= i < r && #[trigger] self.key_order()[i] == k,
    {
        proof {
            use_type_invariant(self);
            assert forall|k: Seq<char>| #[trigger] self@.contains_key(k) implies exists|i: int|
                0 <= i < self.entries@.len() && #[trigger] self.key_order()[i] == k by {
                let i = choose|i: int| 0 <= i < self.entries@.len() && #[trigger] self.entries@[i].0@ == k;
                assert(self.key_order()[i] == k);
            }
        }
        self.entries.len()
    }

    /// Whether a key is present.
    pub fn contains_key(&self, key: &str) -> (r: bool)
        ensures
            r == self@.contains_key(key@),
    {
        proof {
            use_type_invariant(self);
        }
        position(&self.entries, key, self.map).is_some()
    }

    /// The value under a key, if present.
    pub fn get(&self, key: &str) -> (r: Option<&V>)
        ensures
            r.is_some() == self@.contains_key(key@),
            r.is_some() ==> *r.unwrap() == self@[key@],
    {
        proof {
            use_type_invariant(self);
        }
        match position(&self.entries, key, self.map) {
            Some(i) => Some(&self.entries[i].1),
            None => None,
        }
    }

    /// The entry at a position of the key order.
    pub fn entry_at(&self, i: usize) -> (r: (&String, &V))
        requires
            i < self@.len(),
        ensures
            r.0@ == self.key_order()[i as int],
            self@.contains_key(r.0@),
            *r.1 == self@[r.0@],
    {
        proof {
            use_type_invariant(self);
        }
        let e = &self.entries[i];
        (&e.0, &e.1)
    }

    /// Put a value under a key: an existing key keeps its place in the
    /// order, a new key goes last.
    pub fn insert(&mut self, key: String, value: V)
        ensures
            final(self)@ == old(self)@.insert(key@, value),
            old(self)@.contains_key(key@) ==> final(self).key_order() == old(self).key_order(),
            !old(self)@.contains_key(key@) ==> final(self).key_order() == old(self).key_order().push(
                key@,
            ),
            final(self)@.len() == if old(self)@.contains_key(key@) {
                old(self)@.len()
            } else {
                old(self)@.len() + 1
            },
    {
        proof {
            use_type_invariant(&*self);
        }
        let mut taken = KeyedList::new();
        std::mem::swap(self, &mut taken);
        let KeyedList { mut entries, map } = taken;
        let ghost k = key@;
        let ghost v = value;
        match position(&entries, key.as_str(), map) {
            Some(i) => {
                proof {
                    lemma_set_entry(entries@, map@, i as int, key, value);
                }
                entries.set(i, (key, value));
            },
            None => {
                proof {
                    lemma_push_entry(entries@, map@, key, value);
                }
                entries.push((key, value));
            },
        }
        *self = KeyedList { entries, map: Ghost(map@.insert(k, v)) };
    }

    /// Take out the value under a key, if present.
    pub fn remove(&mut self, key: &str) -> (r: Option<V>)
        ensures
            final(self)@ == old(self)@.remove(key@),
            r.is_some() == old(self)@.contains_key(key@),
            r.is_some() ==> r.unwrap() == old(self)@[key@],
            final(self)@.len() == if old(self)@.contains_key(key@) {
                old(self)@.len() - 1
            } else {
                old(self)@.len() as int
            },
    {
        proof {
            use_type_invariant(&*self);
        }
        let mut taken = KeyedList::new();
        std::mem::swap(self, &mut taken);
        let KeyedList { mut entries, map } = taken;
        match position(&entries, key, map) {
            Some(i) => {
                proof {
                    lemma_remove_entry(entries@, map@, i as int);
                }
                let e = entries.remove(i);
                *self = KeyedList { entries, map: Ghost(map@.remove(key@)) };
                Some(e.1)
            },
            None => {
                assert(map@.remove(key@) =~= map@);
                *self = KeyedList { entries, map };
                None
            },
        }
    }

    /// Remove every entry.
    pub fn clear(&mut self)
        ensures
            final(self)@ == Map::<Seq<char>, V>::empty(),
            final(self).key_order() == Seq::<Seq<char>>::empty(),
    {
        *self = KeyedList::new();
    }

    /// The keys, in the order they first came.
    pub fn keys(&self) -> (r: Vec<String>)
        ensures
            crate::element::strings_view(r@) == self.key_order(),
            r@.len() == self@.len(),
            forall|i: int| 0 <= i < r@.len() ==> self@.contains_key(#[trigger] r@[i]@),
            forall|k: Seq<char>| #[trigger] self@.contains_key(k) ==> exists|i: int|
                0 <= i < r@.len() && #[trigger] r@[i]@ == k,
            forall|i: int, j: int| 0 <= i < j < r@.len() ==> (#[trigger] r@[i])@ != (#[trigger] r@[j])@,
    {
        proof {
            use_type_invariant(self);
        }
        let mut r: Vec<String> = Vec::new();
        let mut i: usize = 0;
        while i < self.entries.len()
            invariant
                i <= self.entries@.len(),
                r@.len() == i,
                forall|j: int| 0 <= j < i ==> (#[trigger] r@[j])@ == self.entries@[j].0@,
            decreases self.entries@.len() - i,
        {
            r.push(self.entries[i].0.clone());
            i = i + 1;
        }
        assert(crate::element::strings_view(r@) =~= self.key_order());
        assert forall|k: Seq<char>| #[trigger] self@.contains_key(k) implies exists|i: int|
            0 <= i < r@.len() && #[trigger] r@[i]@ == k by {
            let i = choose|i: int| 0 <= i < self.entries@.len() && #[trigger] self.entries@[i].0@ == k;
            assert(r@[i]@ == k);
        }
        assert forall|i: int, j: int| 0 <= i < j < r@.len() implies (#[trigger] r@[i])@ != (#[trigger] r@[j])@ by {
            assert(self.entries@[i].0@ != self.entries@[j].0@);
        }
        r
    }
}

impl KeyedList<String> {
    /// A copy of a list of strings.
    pub fn duplicate(&self) -> (r: KeyedList<String>)
        ensures
            r@ == self@,
            r.key_order() == self.key_order(),
    {
        proof {
            use_type_invariant(self);
        }
        let mut entries: Vec<(String, String)> = Vec::new();
        let mut i: usize = 0;
        while i < self.entries.len()
            invariant
                i <= self.entries@.len(),
                entries@ == self.entries@.subrange(0, i as int),
            decreases self.entries@.len() - i,
        {
            let e = &self.entries[i];
            entries.push((e.0.clone(), e.1.clone()));
            i = i + 1;
        }
        assert(entries@ =~= self.entries@);
        let r = KeyedList { entries, map: Ghost(self.map@) };
        assert(r.key_order() =~= self.key_order());
        r
    }
}

} // verus!
