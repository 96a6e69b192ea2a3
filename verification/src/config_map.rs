//! A map of options keyed by the kind of option they are.
//!
//! Each kind of option is identified by a `u64` key, and the map holds at most one
//! value per key.
use vstd::prelude::*;
use std::collections::BTreeMap;

verus! {

broadcast use vstd::std_specs::btree::group_btree_axioms;

/// Option map storing a single value for each option key.
pub struct ConfigMap<V> {
    map: BTreeMap<u64, V>,
}

impl<V> View for ConfigMap<V> {
    type V = Map<u64, V>;

    closed spec fn view(&self) -> Map<u64, V> {
        self.map@
    }
}

/// `BTreeMap::get_mut`: the reference handed back points at the value stored under
/// `key`; whatever is written through it becomes that key's value, and no other key
/// changes. When the key is absent nothing is handed back and the map is unchanged.
#[verifier::external_body]
fn btree_get_mut<V>(m: &mut BTreeMap<u64, V>, key: u64) -> (r: Option<&mut V>)
    ensures
        match r {
            Some(v) => {
                &&& old(m)@.contains_key(key)
                &&& *v == old(m)@[key]
                &&& final(m)@ == old(m)@.insert(key, *final(v))
            },
            None => {
                &&& !old(m)@.contains_key(key)
                &&& final(m)@ == old(m)@
            },
        },
{
    m.get_mut(&key)
}

impl<V> ConfigMap<V> {
    /// Creates a new empty `ConfigMap`.
    pub fn new() -> (r: Self)
        ensures
            r@ == Map::<u64, V>::empty(),
            r@.dom().finite(),
    {
        ConfigMap { map: BTreeMap::new() }
    }

    /// Inserts a value into the map, replacing any value stored under the same key.
    pub fn insert(&mut self, key: u64, option: V)
        ensures
            final(self)@ == old(self)@.insert(key, option),
            final(self)@.dom().finite(),
            final(self)@.len() == old(self)@.len() + (if old(self)@.contains_key(key) { 0int } else { 1int }),
    {
        proof {
            lemma_view_finite(&*self);
        }
        self.map.insert(key, option);
    }

    /// Obtains a reference to the stored value of a given key.
    pub fn get(&self, key: u64) -> (r: Option<&V>)
        ensures
            r is Some <==> self@.contains_key(key),
            r matches Some(v) ==> *v == self@[key],
    {
        self.map.get(&key)
    }

    /// Obtains a mutable reference to the stored value of a given key.
    pub fn get_mut(&mut self, key: u64) -> (r: Option<&mut V>)
        ensures
            match r {
                Some(v) => {
                    &&& old(self)@.contains_key(key)
                    &&& *v == old(self)@[key]
                    &&& final(self)@ == old(self)@.insert(key, *final(v))
                },
                None => {
                    &&& !old(self)@.contains_key(key)
                    &&& final(self)@ == old(self)@
                },
            },
            final(self)@.dom().finite(),
            final(self)@.len() == old(self)@.len(),
    {
        proof {
            lemma_view_finite(&*self);
        }
        btree_get_mut(&mut self.map, key)
    }

    /// Removes the stored value of a given key and hands it back.
    pub fn take(&mut self, key: u64) -> (r: Option<V>)
        ensures
            final(self)@ == old(self)@.remove(key),
            r is Some <==> old(self)@.contains_key(key),
            r matches Some(v) ==> v == old(self)@[key],
            final(self)@.dom().finite(),
            final(self)@.len() == old(self)@.len() - (if r is Some { 1int } else { 0int }),
    {
        proof {
            lemma_view_finite(&*self);
        }
        self.map.remove(&key)
    }

    /// Gets the given key's corresponding entry in the map for in-place manipulation.
    pub fn entry(&mut self, key: u64) -> (e: ConfigMapEntry<'_, V>)
        ensures
            e.key == key,
            *e.map == *old(self),
            *final(e.map) == *final(self),
    {
        ConfigMapEntry { map: self, key }
    }

    /// Checks if the map contains a value for the given key.
    pub fn has(&self, key: u64) -> (r: bool)
        ensures
            r == self@.contains_key(key),
    {
        self.map.contains_key(&key)
    }

    /// Number of distinct keys stored in the map.
    pub fn len(&self) -> (r: usize)
        ensures
            r == self@.len(),
            self@.dom().finite(),
    {
        self.map.len()
    }
}

/// The keys of a config map are finitely many.
pub proof fn lemma_view_finite<V>(m: &ConfigMap<V>)
    ensures
        m@.dom().finite(),
{
}

impl<V> Default for ConfigMap<V> {
    fn default() -> (r: Self)
        ensures
            r@ == Map::<u64, V>::empty(),
            r@.dom().finite(),
    {
        ConfigMap::new()
    }
}

/// A view into a single entry in a config map, which may either be vacant or occupied.
pub struct ConfigMapEntry<'a, V> {
    /// The map the entry belongs to.
    pub map: &'a mut ConfigMap<V>,
    /// The key of the entry.
    pub key: u64,
}

impl<'a, V> ConfigMapEntry<'a, V> {
    /// Ensures a value is in the entry by inserting the default if empty, and returns a
    /// mutable reference to the value in the entry.
    pub fn or_insert(self, default: V) -> (r: &'a mut V)
        ensures
            *r == (if (*old(self.map))@.contains_key(self.key) {
                (*old(self.map))@[self.key]
            } else {
                default
            }),
            (*final(self.map))@ == (*old(self.map))@.insert(self.key, *final(r)),
    {
        let key = self.key;
        let map = self.map;
        if !map.has(key) {
            map.insert(key, default);
        }
        map.get_mut(key).unwrap()
    }

    /// Ensures a value is in the entry by inserting the result of the default function
    /// if empty, and returns a mutable reference to the value in the entry.
    pub fn or_insert_with<F: FnOnce() -> V>(self, default: F) -> (r: &'a mut V)
        requires
            !(*old(self.map))@.contains_key(self.key) ==> default.requires(()),
        ensures
            (*old(self.map))@.contains_key(self.key) ==> *r == (*old(self.map))@[self.key],
            !(*old(self.map))@.contains_key(self.key) ==> default.ensures((), *r),
            (*final(self.map))@ == (*old(self.map))@.insert(self.key, *final(r)),
    {
        let key = self.key;
        let map = self.map;
        if !map.has(key) {
            let value = default();
            map.insert(key, value);
        }
        map.get_mut(key).unwrap()
    }

    /// Provides in-place mutable access to an occupied entry before any potential
    /// inserts into the map.
    pub fn and_modify<F: FnOnce(&mut V)>(self, f: F) -> (r: Self)
        requires
            (*old(self.map))@.contains_key(self.key) ==> forall|m: &mut V|
                mut_ref_current(m) == (*old(self.map))@[self.key] ==> #[trigger] f.requires((m,)),
        ensures
            r.key == self.key,
            *final(self.map) == *final(r.map),
            (*old(self.map))@.contains_key(self.key) ==> exists|m: &mut V|
                #[trigger] f.ensures((m,), ()) && mut_ref_current(m) == (*old(self.map))@[self.key]
                    && (*r.map)@ == (*old(self.map))@.insert(self.key, mut_ref_future(m)),
            !(*old(self.map))@.contains_key(self.key) ==> (*r.map)@ == (*old(self.map))@,
    {
        let key = self.key;
        let map = self.map;
        match map.get_mut(key) {
            Some(v) => {
                f(v);
            },
            None => {},
        }
        ConfigMapEntry { map, key }
    }

    /// Ensures a value is in the entry by inserting the default value if empty,
    /// and returns a mutable reference to the value in the entry.
    pub fn or_default(self) -> (r: &'a mut V) where V: Default
        ensures
            (*old(self.map))@.contains_key(self.key) ==> *r == (*old(self.map))@[self.key],
            !(*old(self.map))@.contains_key(self.key) ==> call_ensures(V::default, (), *r),
            (*final(self.map))@ == (*old(self.map))@.insert(self.key, *final(r)),
    {
        let key = self.key;
        let map = self.map;
        if !map.has(key) {
            let value = V::default();
            map.insert(key, value);
        }
        map.get_mut(key).unwrap()
    }
}

} // verus!
