//! The process-wide subsystem registry.
//!
//! `Channels` maps a subsystem's stable key — the value standing in for the
//! subsystem type's identity (no type reflection exists in verified code) —
//! to the capability registered for it. It is populated once at bootstrap
//! and read afterwards. An entry is immutable once inserted: registering
//! the same key twice is explicitly rejected rather than overwriting. The
//! registry is exactly that — registration and lookup; no event bus stands
//! beside it, and a caller who knows a key knows the type of what it
//! registered under that key.

use vstd::prelude::*;

use crate::errors::CoreError;

verus! {

/// A registry from subsystem keys to registered capabilities, populated at
/// bootstrap and read afterwards.
pub struct Channels<R> {
    entries: Vec<(u64, R)>,
}

/// The first capability registered under `key`, scanning `entries` in
/// registration order.
pub open spec fn spec_lookup<R>(entries: Seq<(u64, R)>, key: u64) -> Option<R>
    decreases entries.len(),
{
    if entries.len() == 0 {
        Option::None
    } else if entries[0].0 == key {
        Option::Some(entries[0].1)
    } else {
        spec_lookup(entries.skip(1), key)
    }
}

/// Scanning past entries whose keys all differ from `key` does not change
/// what the lookup finds.
proof fn lemma_lookup_skip<R>(entries: Seq<(u64, R)>, key: u64, n: int)
    requires
        0 <= n <= entries.len(),
        forall|j: int| 0 <= j < n ==> (#[trigger] entries[j]).0 != key,
    ensures
        spec_lookup(entries, key) == spec_lookup(entries.skip(n), key),
    decreases n,
{
    if n > 0 {
        assert(entries[0].0 != key);
        assert forall|j: int| 0 <= j < n - 1 implies (#[trigger] entries.skip(1)[j]).0 != key by {
            assert(entries.skip(1)[j] == entries[j + 1]);
        }
        lemma_lookup_skip(entries.skip(1), key, n - 1);
        assert(entries.skip(1).skip(n - 1) =~= entries.skip(n));
        assert(spec_lookup(entries, key) == spec_lookup(entries.skip(1), key));
    } else {
        assert(entries.skip(0) =~= entries);
    }
}

/// Appending an entry does not disturb what earlier keys find.
proof fn lemma_lookup_push<R>(entries: Seq<(u64, R)>, key: u64, entry: (u64, R))
    ensures
        spec_lookup(entries, key) is Some ==> spec_lookup(entries.push(entry), key) == spec_lookup(
            entries,
            key,
        ),
        spec_lookup(entries, key) is None && entry.0 == key ==> spec_lookup(
            entries.push(entry),
            key,
        ) == Option::Some(entry.1),
        spec_lookup(entries, key) is None && entry.0 != key ==> spec_lookup(
            entries.push(entry),
            key,
        ) is None,
    decreases entries.len(),
{
    reveal_with_fuel(spec_lookup, 3);
    if entries.len() > 0 {
        assert(entries.push(entry)[0] == entries[0]);
        assert(entries.push(entry).len() == entries.len() + 1);
        assert(entries.push(entry).skip(1) =~= entries.skip(1).push(entry));
        lemma_lookup_push(entries.skip(1), key, entry);
        if entries[0].0 == key {
            assert(spec_lookup(entries, key) == Option::Some(entries[0].1));
            assert(spec_lookup(entries.push(entry), key) == Option::Some(entries[0].1));
        } else {
            assert(spec_lookup(entries, key) == spec_lookup(entries.skip(1), key));
            assert(spec_lookup(entries.push(entry), key) == spec_lookup(
                entries.skip(1).push(entry),
                key,
            ));
        }
    } else {
        assert(entries.push(entry)[0] == entry);
        assert(entries.push(entry).skip(1).len() == 0);
        assert(spec_lookup(entries.push(entry).skip(1), key) is None);
    }
}

impl<R> Channels<R> {
    /// The registered entries, in registration order.
    pub closed spec fn entries(self) -> Seq<(u64, R)> {
        self.entries@
    }

    /// Whether a capability is registered under `key`.
    pub open spec fn registered(self, key: u64) -> bool {
        spec_lookup(self.entries(), key) is Some
    }

    /// The capability registered under `key`.
    pub open spec fn lookup(self, key: u64) -> R
        recommends
            self.registered(key),
    {
        spec_lookup(self.entries(), key)->Some_0
    }

    /// An empty registry.
    pub fn new() -> (r: Self)
        ensures
            r.entries() == Seq::<(u64, R)>::empty(),
    {
        Channels { entries: Vec::new() }
    }

    /// Register a capability under `key`. An entry is immutable once
    /// inserted, so a key that is already registered is rejected and the
    /// registry is left as it was.
    pub fn add(&mut self, key: u64, value: R) -> (r: Result<(), CoreError>)
        ensures
            r is Ok <==> !old(self).registered(key),
            r is Ok ==> final(self).entries() == old(self).entries().push((key, value)),
            r is Err ==> r == Result::<(), CoreError>::Err(CoreError::DuplicateRegistration)
                && final(self).entries() == old(self).entries(),
            final(self).registered(key),
            r is Ok ==> final(self).lookup(key) == value,
            forall|k: u64|
                k != key ==> #[trigger] spec_lookup(final(self).entries(), k) == spec_lookup(
                    old(self).entries(),
                    k,
                ),
    {
        if self.contains(key) {
            proof {
                lemma_lookup_push(self.entries@, key, (key, value));
            }
            Err(CoreError::DuplicateRegistration)
        } else {
            proof {
                lemma_lookup_push(self.entries@, key, (key, value));
                assert forall|k: u64| k != key implies #[trigger] spec_lookup(
                    self.entries@.push((key, value)),
                    k,
                ) == spec_lookup(self.entries@, k) by {
                    lemma_lookup_push(self.entries@, k, (key, value));
                }
            }
            self.entries.push((key, value));
            Ok(())
        }
    }

    /// Whether a capability is registered under `key`.
    pub fn contains(&self, key: u64) -> (r: bool)
        ensures
            r == self.registered(key),
    {
        let n = self.entries.len();
        let mut i: usize = 0;
        while i < n
            invariant
                n == self.entries@.len(),
                i <= n,
                forall|j: int| 0 <= j < i ==> (#[trigger] self.entries@[j]).0 != key,
            decreases n - i,
        {
            if self.entries[i].0 == key {
                proof {
                    lemma_lookup_skip(self.entries@, key, i as int);
                }
                return true;
            }
            i = i + 1;
        }
        proof {
            lemma_lookup_skip(self.entries@, key, n as int);
        }
        false
    }

    /// Fetch the capability registered under `key`. A key that was never
    /// registered fails with `RegistrationMissing`, deterministically; no
    /// default or dangling capability is ever handed out.
    pub fn get(&self, key: u64) -> (r: Result<&R, CoreError>)
        ensures
            r is Ok <==> self.registered(key),
            r is Ok ==> *r->Ok_0 == self.lookup(key),
            r is Err ==> r == Result::<&R, CoreError>::Err(CoreError::RegistrationMissing),
    {
        let n = self.entries.len();
        let mut i: usize = 0;
        while i < n
            invariant
                n == self.entries@.len(),
                i <= n,
                forall|j: int| 0 <= j < i ==> (#[trigger] self.entries@[j]).0 != key,
            decreases n - i,
        {
            if self.entries[i].0 == key {
                proof {
                    lemma_lookup_skip(self.entries@, key, i as int);
                }
                return Ok(&self.entries[i].1);
            }
            i = i + 1;
        }
        proof {
            lemma_lookup_skip(self.entries@, key, n as int);
        }
        Err(CoreError::RegistrationMissing)
    }

    /// Fetch the capability registered under `key` for use in place — a
    /// caller sends through a registered mailbox this way. Fails exactly as
    /// `get` does; on success, whatever the caller leaves behind stands
    /// registered under `key`, with every other entry untouched.
    pub fn get_mut(&mut self, key: u64) -> (r: Result<&mut R, CoreError>)
        ensures
            r is Ok <==> old(self).registered(key),
            r is Err ==> r == Result::<&mut R, CoreError>::Err(CoreError::RegistrationMissing)
                && final(self).entries() == old(self).entries(),
            r matches Result::Ok(v) ==> {
                &&& *v == old(self).lookup(key)
                &&& final(self).entries().len() == old(self).entries().len()
                &&& final(self).registered(key)
                &&& final(self).lookup(key) == *final(v)
                &&& forall|k: u64|
                    k != key ==> #[trigger] spec_lookup(final(self).entries(), k) == spec_lookup(
                        old(self).entries(),
                        k,
                    )
            },
    {
        let n = self.entries.len();
        let mut i: usize = 0;
        while i < n
            invariant
                self.entries@ == old(self).entries@,
                n == self.entries@.len(),
                i <= n,
                forall|j: int| 0 <= j < i ==> (#[trigger] self.entries@[j]).0 != key,
            decreases n - i,
        {
            if self.entries[i].0 == key {
                let ghost pre = self.entries@;
                let ghost idx = i as int;
                proof {
                    lemma_lookup_skip(pre, key, idx);
                    lemma_lookup_update(pre, idx);
                }
                let value = &mut self.entries[i].1;
                return Ok(value);
            }
            i = i + 1;
        }
        proof {
            lemma_lookup_skip(self.entries@, key, n as int);
        }
        Err(CoreError::RegistrationMissing)
    }
}

/// Replacing the capability of one entry — its key untouched — makes the
/// lookup of that key find the replacement, when no earlier entry carries
/// the key, and leaves the lookup of every other key as it was.
proof fn lemma_lookup_update<R>(entries: Seq<(u64, R)>, idx: int)
    requires
        0 <= idx < entries.len(),
        forall|j: int| 0 <= j < idx ==> (#[trigger] entries[j]).0 != entries[idx].0,
    ensures
        forall|v: R|
            spec_lookup(#[trigger] entries.update(idx, (entries[idx].0, v)), entries[idx].0)
                == Option::Some(v),
        forall|v: R, k: u64|
            k != entries[idx].0 ==> #[trigger] spec_lookup(
                entries.update(idx, (entries[idx].0, v)),
                k,
            ) == spec_lookup(entries, k),
    decreases idx,
{
    reveal_with_fuel(spec_lookup, 3);
    if idx == 0 {
        assert forall|v: R|
            spec_lookup(#[trigger] entries.update(0, (entries[0].0, v)), entries[0].0)
                == Option::Some(v) by {
            assert(entries.update(0, (entries[0].0, v))[0] == (entries[0].0, v));
        }
        assert forall|v: R, k: u64|
            k != entries[0].0 implies #[trigger] spec_lookup(
            entries.update(0, (entries[0].0, v)),
            k,
        ) == spec_lookup(entries, k) by {
            let u = entries.update(0, (entries[0].0, v));
            assert(u[0].0 == entries[0].0);
            assert(u.skip(1) =~= entries.skip(1));
        }
    } else {
        lemma_lookup_update(entries.skip(1), idx - 1);
        assert forall|j: int|
            0 <= j < idx - 1 implies (#[trigger] entries.skip(1)[j]).0 != entries.skip(1)[idx
            - 1].0 by {
            assert(entries.skip(1)[j] == entries[j + 1]);
            assert(entries.skip(1)[idx - 1] == entries[idx]);
        }
        assert forall|v: R|
            spec_lookup(#[trigger] entries.update(idx, (entries[idx].0, v)), entries[idx].0)
                == Option::Some(v) by {
            let u = entries.update(idx, (entries[idx].0, v));
            assert(u[0] == entries[0]);
            assert(entries[0].0 != entries[idx].0);
            assert(u.skip(1) =~= entries.skip(1).update(idx - 1, (entries[idx].0, v)));
            assert(entries.skip(1)[idx - 1] == entries[idx]);
        }
        assert forall|v: R, k: u64|
            k != entries[idx].0 implies #[trigger] spec_lookup(
            entries.update(idx, (entries[idx].0, v)),
            k,
        ) == spec_lookup(entries, k) by {
            let u = entries.update(idx, (entries[idx].0, v));
            assert(u[0] == entries[0]);
            assert(u.skip(1) =~= entries.skip(1).update(idx - 1, (entries[idx].0, v)));
            assert(entries.skip(1)[idx - 1] == entries[idx]);
            if entries[0].0 == k {
                assert(spec_lookup(u, k) == Option::Some(entries[0].1));
                assert(spec_lookup(entries, k) == Option::Some(entries[0].1));
            } else {
                assert(spec_lookup(
                    entries.skip(1).update(idx - 1, (entries.skip(1)[idx - 1].0, v)),
                    k,
                ) == spec_lookup(entries.skip(1), k));
                assert((entries.skip(1)[idx - 1].0, v) == (entries[idx].0, v));
                assert(spec_lookup(u, k) == spec_lookup(u.skip(1), k));
                assert(spec_lookup(entries, k) == spec_lookup(entries.skip(1), k));
            }
        }
    }
}

impl<R> Default for Channels<R> {
    /// An empty registry.
    fn default() -> (r: Self)
        ensures
            r.entries() == Seq::<(u64, R)>::empty(),
    {
        Channels { entries: Vec::new() }
    }
}

} // verus!
