//! A table of values that belong to guilds: found by the guild's number and the
//! value's own.

use vstd::prelude::*;
use std::collections::HashMap;

verus! {

broadcast use vstd::std_specs::hash::group_hash_axioms;

/// The value under guild `g` and key `k`, if the table holds one.
pub open spec fn lookup<V>(t: Map<u64, Map<u64, V>>, g: u64, k: u64) -> Option<V> {
    if t.contains_key(g) && t[g].contains_key(k) {
        Some(t[g][k])
    } else {
        None
    }
}

/// The entries of guild `g`; none where the table does not know the guild.
pub open spec fn entries_of<V>(t: Map<u64, Map<u64, V>>, g: u64) -> Map<u64, V> {
    if t.contains_key(g) {
        t[g]
    } else {
        Map::empty()
    }
}

/// The table with `v` under guild `g` and key `k`, and all else as in `t`.
pub open spec fn with_entry<V>(t: Map<u64, Map<u64, V>>, g: u64, k: u64, v: V) -> Map<
    u64,
    Map<u64, V>,
> {
    t.insert(g, entries_of(t, g).insert(k, v))
}

/// The table without an entry under guild `g` and key `k`, and all else as in `t`.
pub open spec fn without_entry<V>(t: Map<u64, Map<u64, V>>, g: u64, k: u64) -> Map<
    u64,
    Map<u64, V>,
> {
    if t.contains_key(g) {
        t.insert(g, t[g].remove(k))
    } else {
        t
    }
}

/// Looking up what was just entered finds it; other places are as before.
pub proof fn lemma_lookup_with_entry<V>(
    t: Map<u64, Map<u64, V>>,
    g: u64,
    k: u64,
    v: V,
    g2: u64,
    k2: u64,
)
    ensures
        lookup(with_entry(t, g, k, v), g2, k2) == if g2 == g && k2 == k {
            Some(v)
        } else {
            lookup(t, g2, k2)
        },
{
}

/// Entering the same value twice is entering it once.
pub proof fn lemma_with_entry_idempotent<V>(t: Map<u64, Map<u64, V>>, g: u64, k: u64, v: V)
    ensures
        with_entry(with_entry(t, g, k, v), g, k, v) =~~= with_entry(t, g, k, v),
{
}

/// A table of values that belong to guilds.
pub struct GuildTable<V> {
    map: HashMap<u64, HashMap<u64, V>>,
}

impl<V> View for GuildTable<V> {
    type V = Map<u64, Map<u64, V>>;

    closed spec fn view(&self) -> Map<u64, Map<u64, V>> {
        self.map@.map_values(|m: HashMap<u64, V>| m@)
    }
}

impl<V> GuildTable<V> {
    /// The empty table.
    pub fn new() -> (r: Self)
        ensures
            r@ == Map::<u64, Map<u64, V>>::empty(),
    {
        let r = GuildTable { map: HashMap::new() };
        assert(r@ =~= Map::<u64, Map<u64, V>>::empty());
        r
    }

    /// The value under guild `g` and key `k`.
    pub fn get(&self, g: u64, k: u64) -> (r: Option<&V>)
        ensures
            match r {
                Some(v) => lookup(self@, g, k) == Some(*v),
                None => lookup(self@, g, k).is_none(),
            },
    {
        match self.map.get(&g) {
            Some(inner) => inner.get(&k),
            None => None,
        }
    }

    /// Puts `v` under guild `g` and key `k`, and returns what was there.
    pub fn insert(&mut self, g: u64, k: u64, v: V) -> (r: Option<V>)
        ensures
            final(self)@ == with_entry(old(self)@, g, k, v),
            r == lookup(old(self)@, g, k),
    {
        let mut inner = match self.map.remove(&g) {
            Some(m) => m,
            None => HashMap::new(),
        };
        assert(inner@ =~= entries_of(old(self)@, g));
        let before = inner.insert(k, v);
        self.map.insert(g, inner);
        assert(self@ =~= with_entry(old(self)@, g, k, v));
        before
    }

    /// Takes out what is under guild `g` and key `k`, and returns it.
    pub fn remove(&mut self, g: u64, k: u64) -> (r: Option<V>)
        ensures
            final(self)@ == without_entry(old(self)@, g, k),
            r == lookup(old(self)@, g, k),
    {
        match self.map.remove(&g) {
            Some(mut inner) => {
                let before = inner.remove(&k);
                self.map.insert(g, inner);
                assert(self@ =~= without_entry(old(self)@, g, k));
                before
            },
            None => {
                assert(self@ =~= old(self)@);
                None
            },
        }
    }

    /// Forgets guild `g` and all that belongs to it.
    pub fn remove_guild(&mut self, g: u64)
        ensures
            final(self)@ == old(self)@.remove(g),
    {
        let _ = self.map.remove(&g);
        assert(self@ =~= old(self)@.remove(g));
    }
}

} // verus!
