//! The connection registry: which client is bound to which key.
//!
//! A key is bound to at most one client. Connecting under a key that is
//! bound replaces the client; nothing ever unbinds a key. The registry does
//! not open connections itself: it is told how an attempt ended, and it
//! hands out the client that a statement is to run on.

use crate::error::Error;
use vstd::prelude::*;

verus! {

/// The registry after a connect under `key` that ended as `opened` says: the
/// key bound to the new client where the attempt succeeded, the registry as
/// it was where it failed.
pub open spec fn spec_connect<C>(
    registry: Map<Seq<char>, C>,
    key: Seq<char>,
    opened: Result<C, Error>,
) -> Map<Seq<char>, C> {
    match opened {
        Ok(client) => registry.insert(key, client),
        Err(_) => registry,
    }
}

/// What a connect returns for an attempt that ended as `opened` says: the
/// attempt's own error where it failed.
pub open spec fn spec_connect_result<C>(opened: Result<C, Error>) -> Result<(), Error> {
    match opened {
        Ok(_) => Ok(()),
        Err(e) => Err(e),
    }
}

/// The client that a statement under `key` runs on, or `NotFound` where the
/// key is bound to none.
pub open spec fn spec_lookup<C>(registry: Map<Seq<char>, C>, key: Seq<char>) -> Result<C, Error> {
    if registry.contains_key(key) {
        Ok(registry[key])
    } else {
        Err(Error::NotFound)
    }
}

/// A failed connect leaves the registry as it was and returns the attempt's
/// error; a key that was bound to no client before is bound to none after,
/// and a statement under it is answered with `NotFound`.
pub proof fn law_failed_connect_binds_nothing<C>(
    registry: Map<Seq<char>, C>,
    key: Seq<char>,
    failure: Error,
)
    ensures
        spec_connect(registry, key, Err::<C, Error>(failure)) == registry,
        spec_connect_result(Err::<C, Error>(failure)) == Err::<(), Error>(failure),
        !registry.contains_key(key) ==> spec_lookup(
            spec_connect(registry, key, Err::<C, Error>(failure)),
            key,
        ) == Err::<C, Error>(Error::NotFound),
{
}

/// After two connects under one key, a statement under that key runs on the
/// second client, whatever the first was.
pub proof fn law_second_connect_replaces<C>(
    registry: Map<Seq<char>, C>,
    key: Seq<char>,
    first: C,
    second: C,
)
    ensures
        spec_lookup(
            spec_connect(spec_connect(registry, key, Ok(first)), key, Ok(second)),
            key,
        ) == Ok::<C, Error>(second),
        spec_connect(spec_connect(registry, key, Ok(first)), key, Ok(second)) == spec_connect(
            registry,
            key,
            Ok(second),
        ),
{
    assert(registry.insert(key, first).insert(key, second) =~= registry.insert(key, second));
}

/// A statement under a key that is bound to no client is answered with
/// `NotFound`; in a registry that nothing was connected to, that is every
/// key.
pub proof fn law_unbound_key_not_found<C>(registry: Map<Seq<char>, C>, key: Seq<char>)
    ensures
        !registry.contains_key(key) ==> spec_lookup(registry, key) == Err::<C, Error>(
            Error::NotFound,
        ),
        spec_lookup(Map::<Seq<char>, C>::empty(), key) == Err::<C, Error>(Error::NotFound),
{
}

/// A connect under one key changes nothing for a statement under another:
/// it runs on the client it ran on before, or is refused as before.
pub proof fn law_connect_keeps_other_keys<C>(
    registry: Map<Seq<char>, C>,
    key: Seq<char>,
    opened: Result<C, Error>,
    other: Seq<char>,
)
    requires
        key != other,
    ensures
        spec_lookup(spec_connect(registry, key, opened), other) == spec_lookup(registry, other),
{
}

/// A key and the client bound to it.
struct Binding<C> {
    key: String,
    client: C,
}

/// The registry of clients by key.
pub struct Registry<C> {
    bindings: Vec<Binding<C>>,
}

/// No two bindings have the same key.
spec fn distinct_keys<C>(bindings: Seq<Binding<C>>) -> bool {
    forall|i: int, j: int|
        0 <= i < bindings.len() && 0 <= j < bindings.len() && i != j ==> (#[trigger] bindings[i]).key@
            != (#[trigger] bindings[j]).key@
}

/// Some binding has this key.
spec fn bound<C>(bindings: Seq<Binding<C>>, key: Seq<char>) -> bool {
    exists|i: int| 0 <= i < bindings.len() && (#[trigger] bindings[i]).key@ == key
}

/// The place of a binding with this key.
spec fn place<C>(bindings: Seq<Binding<C>>, key: Seq<char>) -> int {
    choose|i: int| 0 <= i < bindings.len() && (#[trigger] bindings[i]).key@ == key
}

/// The bindings as a map from key to client.
spec fn as_map<C>(bindings: Seq<Binding<C>>) -> Map<Seq<char>, C> {
    Map::new(
        |key: Seq<char>| bound(bindings, key),
        |key: Seq<char>| bindings[place(bindings, key)].client,
    )
}

/// Where the keys are distinct, the map holds under each binding's key that
/// binding's client.
proof fn lemma_as_map_at<C>(bindings: Seq<Binding<C>>, i: int)
    requires
        distinct_keys(bindings),
        0 <= i < bindings.len(),
    ensures
        as_map(bindings).contains_key(bindings[i].key@),
        as_map(bindings)[bindings[i].key@] == bindings[i].client,
{
    let key = bindings[i].key@;
    assert(bound(bindings, key));
    let p = place(bindings, key);
    assert(0 <= p < bindings.len() && bindings[p].key@ == key);
    assert(p == i);
}

/// Adding a binding under a key that is not bound adds it to the map.
proof fn lemma_as_map_push<C>(bindings: Seq<Binding<C>>, binding: Binding<C>)
    requires
        distinct_keys(bindings),
        !bound(bindings, binding.key@),
    ensures
        distinct_keys(bindings.push(binding)),
        as_map(bindings.push(binding)) == as_map(bindings).insert(binding.key@, binding.client),
{
    let after = bindings.push(binding);
    assert forall|i: int, j: int| 0 <= i < after.len() && 0 <= j < after.len() && i != j implies (
    #[trigger] after[i]).key@ != (#[trigger] after[j]).key@ by {
        if i < bindings.len() && j < bindings.len() {
            assert(bindings[i].key@ != bindings[j].key@);
        } else if i < bindings.len() {
            assert(bindings[i].key@ != binding.key@);
        } else {
            assert(bindings[j].key@ != binding.key@);
        }
    }
    let want = as_map(bindings).insert(binding.key@, binding.client);
    assert forall|key: Seq<char>| as_map(after).contains_key(key) == want.contains_key(key) by {
        if bound(after, key) {
            let p = place(after, key);
            if p < bindings.len() {
                assert(bindings[p].key@ == key);
            }
        }
        if want.contains_key(key) {
            if key == binding.key@ {
                assert(after[bindings.len() as int].key@ == key);
            } else {
                let p = place(bindings, key);
                assert(after[p].key@ == key);
            }
        }
    }
    assert forall|key: Seq<char>| as_map(after).contains_key(key) implies as_map(after)[key]
        == want[key] by {
        let p = place(after, key);
        lemma_as_map_at(after, p);
        if p < bindings.len() {
            lemma_as_map_at(bindings, p);
        }
    }
    assert(as_map(after) =~= want);
}

/// Putting another binding with the same key in a binding's place puts its
/// client under that key in the map.
proof fn lemma_as_map_update<C>(bindings: Seq<Binding<C>>, i: int, binding: Binding<C>)
    requires
        distinct_keys(bindings),
        0 <= i < bindings.len(),
        bindings[i].key@ == binding.key@,
    ensures
        distinct_keys(bindings.update(i, binding)),
        as_map(bindings.update(i, binding)) == as_map(bindings).insert(binding.key@, binding.client),
{
    let after = bindings.update(i, binding);
    assert forall|a: int, b: int| 0 <= a < after.len() && 0 <= b < after.len() && a != b implies (
    #[trigger] after[a]).key@ != (#[trigger] after[b]).key@ by {
        assert(bindings[a].key@ != bindings[b].key@);
    }
    let want = as_map(bindings).insert(binding.key@, binding.client);
    assert forall|key: Seq<char>| as_map(after).contains_key(key) == want.contains_key(key) by {
        if bound(after, key) {
            let p = place(after, key);
            assert(bindings[p].key@ == key);
        }
        if want.contains_key(key) {
            if key == binding.key@ {
                assert(after[i].key@ == key);
            } else {
                let p = place(bindings, key);
                assert(after[p].key@ == key);
            }
        }
    }
    assert forall|key: Seq<char>| as_map(after).contains_key(key) implies as_map(after)[key]
        == want[key] by {
        let p = place(after, key);
        lemma_as_map_at(after, p);
        if p != i {
            lemma_as_map_at(bindings, p);
        }
    }
    assert(as_map(after) =~= want);
}

impl<C> View for Registry<C> {
    type V = Map<Seq<char>, C>;

    closed spec fn view(&self) -> Map<Seq<char>, C> {
        as_map(self.bindings@)
    }
}

impl<C> Registry<C> {
    #[verifier::type_invariant]
    spec fn well_formed(&self) -> bool {
        distinct_keys(self.bindings@)
    }

    /// A registry in which no key is bound.
    pub fn new() -> (registry: Registry<C>)
        ensures
            registry@ == Map::<Seq<char>, C>::empty(),
    {
        let registry = Registry { bindings: Vec::new() };
        assert(registry@ =~= Map::<Seq<char>, C>::empty());
        registry
    }

    /// The place of the binding with this key, if there is one.
    fn find(&self, key: &String) -> (found: Option<usize>)
        ensures
            match found {
                Some(i) => i < self.bindings.len() && self.bindings[i as int].key@ == key@,
                None => !bound(self.bindings@, key@),
            },
    {
        let mut i: usize = 0;
        while i < self.bindings.len()
            invariant
                i <= self.bindings.len(),
                forall|j: int| 0 <= j < i ==> (#[trigger] self.bindings[j]).key@ != key@,
            decreases self.bindings.len() - i,
        {
            if self.bindings[i].key == *key {
                return Some(i);
            }
            i += 1;
        }
        None
    }

    /// The client bound to `key`, if one is.
    pub fn get(&self, key: &str) -> (client: Option<&C>)
        ensures
            match client {
                Some(c) => self@.contains_key(key@) && *c == self@[key@],
                None => !self@.contains_key(key@),
            },
    {
        proof {
            use_type_invariant(self);
        }
        let owned = key.to_owned();
        match self.find(&owned) {
            Some(i) => {
                proof {
                    lemma_as_map_at(self.bindings@, i as int);
                }
                Some(&self.bindings[i].client)
            },
            None => None,
        }
    }

    /// Answers a query under `key` as far as the registry can: the client
    /// that the statement is to run on, or `NotFound` where no client is
    /// bound to the key. No client is touched.
    pub fn query(&self, key: &str) -> (result: Result<&C, Error>)
        ensures
            match spec_lookup(self@, key@) {
                Ok(client) => result matches Ok(c) && *c == client,
                Err(e) => result matches Err(r) && r == e,
            },
            result is Ok <==> self@.contains_key(key@),
            result matches Ok(c) ==> *c == self@[key@],
            result matches Err(e) ==> e == Error::NotFound,
    {
        match self.get(key) {
            Some(client) => Ok(client),
            None => Err(Error::NotFound),
        }
    }

    /// Binds `key` to `client`, in place of the client that was bound to it,
    /// if one was.
    pub fn insert(&mut self, key: String, client: C)
        ensures
            final(self)@ == old(self)@.insert(key@, client),
    {
        proof {
            use_type_invariant(&*self);
        }
        let found = self.find(&key);
        let mut bindings: Vec<Binding<C>> = Vec::new();
        std::mem::swap(&mut bindings, &mut self.bindings);
        let binding = Binding { key, client };
        match found {
            Some(i) => {
                proof {
                    lemma_as_map_update(bindings@, i as int, binding);
                }
                bindings.set(i, binding);
            },
            None => {
                proof {
                    lemma_as_map_push(bindings@, binding);
                }
                bindings.push(binding);
            },
        }
        self.bindings = bindings;
    }

    /// Takes note of how an attempt to connect under `key` ended. A client
    /// that was opened is bound to the key, in place of the one before; a
    /// failure changes nothing and is handed back as it is.
    pub fn connect(&mut self, key: String, opened: Result<C, Error>) -> (result: Result<(), Error>)
        ensures
            final(self)@ == spec_connect(old(self)@, key@, opened),
            result == spec_connect_result(opened),
    {
        match opened {
            Ok(client) => {
                self.insert(key, client);
                Ok(())
            },
            Err(e) => Err(e),
        }
    }
}

} // verus!
