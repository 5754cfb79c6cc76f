pub mod bot_info_provider_service;

use vstd::prelude::*;

verus! {

/// A keyed singleton store used to wire shared backend clients into command
/// handlers at startup.
///
/// Each service kind is identified by a caller-chosen `u64` key that stands
/// for its type identity. Registration is write-once-per-key during the
/// startup wiring phase: registering the same key twice replaces the prior
/// singleton. Lookups never change the store.
pub struct ServicesContainer<V> {
    services: Vec<(u64, V)>,
}

/// The mapping that a list of registrations denotes: later registrations of
/// a key shadow earlier ones.
pub open spec fn registrations_map<V>(s: Seq<(u64, V)>) -> Map<u64, V>
    decreases s.len(),
{
    if s.len() == 0 {
        Map::empty()
    } else {
        registrations_map(s.drop_last()).insert(s.last().0, s.last().1)
    }
}

proof fn lemma_registrations_map_absent<V>(s: Seq<(u64, V)>, key: u64)
    requires
        forall|j: int| 0 <= j < s.len() ==> (#[trigger] s[j]).0 != key,
    ensures
        !registrations_map(s).contains_key(key),
    decreases s.len(),
{
    if s.len() > 0 {
        lemma_registrations_map_absent(s.drop_last(), key);
    }
}

proof fn lemma_registrations_map_found<V>(s: Seq<(u64, V)>, key: u64, i: int)
    requires
        0 <= i < s.len(),
        s[i].0 == key,
        forall|j: int| i < j < s.len() ==> (#[trigger] s[j]).0 != key,
    ensures
        registrations_map(s).contains_key(key),
        registrations_map(s)[key] == s[i].1,
    decreases s.len(),
{
    if i == s.len() - 1 {
    } else {
        lemma_registrations_map_found(s.drop_last(), key, i);
    }
}

impl<V> ServicesContainer<V> {
    /// The store seen as a map from key to the singleton registered last
    /// under that key.
    pub closed spec fn view(&self) -> Map<u64, V> {
        registrations_map(self.services@)
    }

    pub fn new() -> (r: Self)
        ensures
            r@ == Map::<u64, V>::empty(),
    {
        ServicesContainer { services: Vec::new() }
    }

    /// Stores `service` under `key`, replacing any previous value of that
    /// key. Intended for the single-threaded startup wiring phase only.
    pub fn register(&mut self, key: u64, service: V)
        ensures
            final(self)@ == old(self)@.insert(key, service),
    {
        self.services.push((key, service));
        proof {
            assert(self.services@.drop_last() == old(self).services@);
        }
    }

    /// Returns the singleton registered under `key`, if one is present.
    pub fn get(&self, key: u64) -> (r: Option<&V>)
        ensures
            match r {
                Some(v) => self@.contains_key(key) && *v == self@[key],
                None => !self@.contains_key(key),
            },
    {
        let n = self.services.len();
        let mut i = n;
        loop
            invariant
                i <= n,
                n == self.services@.len(),
                forall|j: int| i <= j < n ==> (#[trigger] self.services@[j]).0 != key,
            decreases i,
        {
            if i == 0 {
                proof {
                    lemma_registrations_map_absent(self.services@, key);
                }
                return None;
            }
            i = i - 1;
            if self.services[i].0 == key {
                proof {
                    lemma_registrations_map_found(self.services@, key, i as int);
                }
                return Some(&self.services[i].1);
            }
        }
    }

    /// Like `get`, for the places where an absent key is a startup wiring
    /// bug rather than a runtime condition: the caller must know that the
    /// key was registered.
    pub fn get_unsafe(&self, key: u64) -> (r: &V)
        requires
            self@.contains_key(key),
        ensures
            *r == self@[key],
    {
        match self.get(key) {
            Some(v) => v,
            None => vstd::pervasive::unreached(),
        }
    }
}

} // verus!
