//! Session-lock bookkeeping: a simple state toggle plus a per-output
//! registry of lock surfaces. While the session is locked, each output shows
//! at most one lock surface; registering a surface for an output replaces any
//! earlier one.

use vstd::prelude::*;

verus! {

/// The lock-screen state: one lock surface per covered output, keyed by the
/// output's identifier. Surfaces are opaque handles.
#[derive(Debug)]
pub struct SessionLock {
    pub surfaces: Vec<(u64, u64)>,
}

/// The compositor-state slice the session-lock protocol drives.
#[derive(Debug)]
pub struct State {
    pub session_lock: Option<SessionLock>,
}

/// The surface registered for output `k`: the first entry with that key.
pub open spec fn surface_lookup(s: Seq<(u64, u64)>, k: u64) -> Option<u64>
    decreases s.len(),
{
    if s.len() == 0 {
        None
    } else if s[0].0 == k {
        Some(s[0].1)
    } else {
        surface_lookup(s.drop_first(), k)
    }
}

/// Replacing the first entry whose key is `k` changes that key's binding and
/// nothing else.
proof fn lemma_lookup_update(s: Seq<(u64, u64)>, i: int, k: u64, v: u64, k2: u64)
    requires
        0 <= i < s.len(),
        s[i].0 == k,
        forall|j: int| 0 <= j < i ==> s[j].0 != k,
    ensures
        surface_lookup(s.update(i, (k, v)), k2) == (if k2 == k {
            Some(v)
        } else {
            surface_lookup(s, k2)
        }),
    decreases s.len(),
{
    let s2 = s.update(i, (k, v));
    if i == 0 {
        assert(s2.drop_first() =~= s.drop_first());
    } else {
        assert(s2[0] == s[0]);
        assert(s2.drop_first() =~= s.drop_first().update(i - 1, (k, v)));
        lemma_lookup_update(s.drop_first(), i - 1, k, v, k2);
    }
}

/// Appending an entry binds its key only where no earlier entry bound it.
proof fn lemma_lookup_push(s: Seq<(u64, u64)>, k: u64, v: u64, k2: u64)
    ensures
        surface_lookup(s.push((k, v)), k2) == (match surface_lookup(s, k2) {
            Some(v0) => Some(v0),
            None => if k2 == k {
                Some(v)
            } else {
                None
            },
        }),
    decreases s.len(),
{
    if s.len() == 0 {
        assert(s.push((k, v))[0] == (k, v));
    } else {
        assert(s.push((k, v))[0] == s[0]);
        assert(s.push((k, v)).drop_first() =~= s.drop_first().push((k, v)));
        lemma_lookup_push(s.drop_first(), k, v, k2);
    }
}

impl SessionLock {
    /// Binds output `o` to `surface`, replacing any earlier binding for `o`
    /// and leaving every other output's binding untouched.
    pub fn insert_surface(&mut self, o: u64, surface: u64)
        ensures
            surface_lookup(final(self).surfaces@, o) == Some(surface),
            forall|k2: u64|
                k2 != o ==> surface_lookup(final(self).surfaces@, k2) == surface_lookup(
                    old(self).surfaces@,
                    k2,
                ),
    {
        let ghost spre = self.surfaces@;
        let mut i: usize = 0;
        let n: usize = self.surfaces.len();
        while i < n
            invariant
                n == self.surfaces@.len(),
                i <= n,
                spre == old(self).surfaces@,
                self.surfaces@ == spre,
                forall|j: int| 0 <= j < i ==> self.surfaces@[j].0 != o,
            decreases n - i,
        {
            if self.surfaces[i].0 == o {
                self.surfaces.set(i, (o, surface));
                proof {
                    assert(self.surfaces@ == spre.update(i as int, (o, surface)));
                    lemma_lookup_update(spre, i as int, o, surface, o);
                    assert forall|k2: u64| k2 != o implies surface_lookup(
                        final(self).surfaces@,
                        k2,
                    ) == surface_lookup(old(self).surfaces@, k2) by {
                        lemma_lookup_update(spre, i as int, o, surface, k2);
                    }
                }
                return ;
            }
            i += 1;
        }
        self.surfaces.push((o, surface));
        proof {
            lemma_lookup_none(spre, o);
            lemma_lookup_push(spre, o, surface, o);
            assert forall|k2: u64| k2 != o implies surface_lookup(self.surfaces@, k2)
                == surface_lookup(spre, k2) by {
                lemma_lookup_push(spre, o, surface, k2);
            }
        }
    }
}

impl State {
    /// Engages the session lock with no surfaces registered yet. The
    /// protocol-side confirmation of the lock happens outside this state
    /// transition.
    pub fn lock(&mut self)
        ensures
            match final(self).session_lock {
                Some(sl) => sl.surfaces@ == Seq::<(u64, u64)>::empty(),
                None => false,
            },
    {
        self.session_lock = Some(SessionLock { surfaces: Vec::new() });
    }

    /// Releases the session lock, dropping the surface registry.
    pub fn unlock(&mut self)
        ensures
            final(self).session_lock is None,
    {
        self.session_lock = None;
    }

    /// Registers a lock surface for an output. Nothing happens unless the
    /// session is locked and the output handle resolved; otherwise the
    /// output's binding is set to `surface`, replacing any earlier one, and
    /// every other output's binding is untouched.
    pub fn new_surface(&mut self, output: Option<u64>, surface: u64)
        ensures
            match (old(self).session_lock, output) {
                (Some(sl), Some(o)) => match final(self).session_lock {
                    Some(sl2) => {
                        &&& surface_lookup(sl2.surfaces@, o) == Some(surface)
                        &&& forall|k2: u64|
                            k2 != o ==> surface_lookup(sl2.surfaces@, k2) == surface_lookup(
                                sl.surfaces@,
                                k2,
                            )
                    },
                    None => false,
                },
                (Some(sl), None) => match final(self).session_lock {
                    Some(sl2) => sl2.surfaces@ == sl.surfaces@,
                    None => false,
                },
                (None, _) => final(self).session_lock is None,
            },
    {
        match &mut self.session_lock {
            Some(sl) => {
                match output {
                    Some(o) => {
                        sl.insert_surface(o, surface);
                    },
                    None => {},
                }
            },
            None => {},
        }
    }
}

/// A key that no binding mentions is not bound.
proof fn lemma_lookup_none(s: Seq<(u64, u64)>, k: u64)
    requires
        forall|j: int| 0 <= j < s.len() ==> s[j].0 != k,
    ensures
        surface_lookup(s, k) is None,
    decreases s.len(),
{
    if s.len() > 0 {
        lemma_lookup_none(s.drop_first(), k);
    }
}

} // verus!
