//! Live-output bookkeeping. A resize target or grab stores only an output's
//! stable identifier and re-resolves it against this registry on every use,
//! so the interaction never keeps an output alive. A retired identifier is
//! remembered and can never be registered again; liveness of a reference that
//! once failed to resolve is therefore monotone.

use vstd::prelude::*;

verus! {

/// Registry of outputs: the identifiers that currently resolve and the ones
/// that once did but were torn down.
#[derive(Debug)]
pub struct Outputs {
    pub live: Vec<u64>,
    pub retired: Vec<u64>,
}

impl Outputs {
    pub open spec fn alive_spec(self, id: u64) -> bool {
        self.live@.contains(id)
    }

    pub open spec fn retired_spec(self, id: u64) -> bool {
        self.retired@.contains(id)
    }

    /// Relates the registry before and after `add_output(id)`.
    pub open spec fn add_rel(pre: Outputs, post: Outputs, id: u64) -> bool {
        if pre.alive_spec(id) || pre.retired_spec(id) {
            post.live@ == pre.live@ && post.retired@ == pre.retired@
        } else {
            post.live@ == pre.live@.push(id) && post.retired@ == pre.retired@
        }
    }

    /// Relates the registry before and after `remove_output(id)`.
    pub open spec fn remove_rel(pre: Outputs, post: Outputs, id: u64) -> bool {
        if pre.alive_spec(id) {
            post.live@ == pre.live@.remove_value(id) && post.retired@ == pre.retired@.push(id)
        } else {
            post.live@ == pre.live@ && post.retired@ == pre.retired@
        }
    }

    /// One registry mutation: some output was added or some output removed.
    pub open spec fn step(pre: Outputs, post: Outputs) -> bool {
        (exists|id: u64| Outputs::add_rel(pre, post, id)) || (exists|id: u64|
        Outputs::remove_rel(pre, post, id))
    }

    pub fn new() -> (r: Outputs)
        ensures
            r.live@ == Seq::<u64>::empty(),
            r.retired@ == Seq::<u64>::empty(),
    {
        Outputs { live: Vec::new(), retired: Vec::new() }
    }

    /// Whether `id` still resolves to a live output.
    pub fn is_alive(&self, id: u64) -> (r: bool)
        ensures
            r == self.alive_spec(id),
    {
        let mut i: usize = 0;
        while i < self.live.len()
            invariant
                i <= self.live@.len(),
                forall|j: int| 0 <= j < i ==> self.live@[j] != id,
            decreases self.live@.len() - i,
    {
            if self.live[i] == id {
                return true;
            }
            i += 1;
        }
        false
    }

    /// Registers a fresh output. An identifier that is already live, or that
    /// was ever retired, is refused: identifiers are never reused.
    pub fn add_output(&mut self, id: u64) -> (added: bool)
        ensures
            Outputs::add_rel(*old(self), *final(self), id),
            added == !(old(self).alive_spec(id) || old(self).retired_spec(id)),
    {
        if self.is_alive(id) || contains_id(&self.retired, id) {
            false
        } else {
            self.live.push(id);
            true
        }
    }

    /// Tears an output down: it stops resolving and its identifier is
    /// retired for good.
    pub fn remove_output(&mut self, id: u64)
        ensures
            Outputs::remove_rel(*old(self), *final(self), id),
            old(self).alive_spec(id) ==> final(self).retired_spec(id),
    {
        if let Some(pos) = position_of(&self.live, id) {
            let _removed: u64 = self.live.remove(pos);
            self.retired.push(id);
            proof {
                old(self).live@.index_of_first_ensures(id);
                match old(self).live@.index_of_first(id) {
                    Some(j) => {
                        assert(j == pos);
                        assert(old(self).retired@.push(id)[old(self).retired@.len() as int]
                            == id);
                    },
                    None => {
                        assert(false);
                    },
                }
            }
        }
    }
}

/// Once an output reference has failed to resolve because the output was
/// torn down, no later registry mutation makes it resolve again.
pub proof fn lemma_dead_output_stays_dead(pre: Outputs, post: Outputs, id: u64)
    requires
        pre.retired_spec(id),
        !pre.alive_spec(id),
        Outputs::step(pre, post),
    ensures
        post.retired_spec(id),
        !post.alive_spec(id),
{
    if exists|i: u64| Outputs::add_rel(pre, post, i) {
        let i = choose|i: u64| Outputs::add_rel(pre, post, i);
        if !(pre.alive_spec(i) || pre.retired_spec(i)) {
            assert(post.live@ == pre.live@.push(i));
            assert(i != id);
            assert forall|j: int| 0 <= j < post.live@.len() implies post.live@[j] != id by {
                if j < pre.live@.len() {
                    assert(post.live@[j] == pre.live@[j]);
                } else {
                    assert(post.live@[j] == i);
                }
            }
        }
    } else {
        let i = choose|i: u64| Outputs::remove_rel(pre, post, i);
        if pre.alive_spec(i) {
            assert(post.retired_spec(id)) by {
                let k = choose|k: int| 0 <= k < pre.retired@.len() && pre.retired@[k] == id;
                assert(post.retired@.push(i)[k] == id);
            }
            assert(!post.alive_spec(id)) by {
                pre.live@.index_of_first_ensures(i);
                match pre.live@.index_of_first(i) {
                    Some(j) => {
                        if post.alive_spec(id) {
                            let k = choose|k: int|
                                0 <= k < post.live@.len() && post.live@[k] == id;
                            assert(post.live@ == pre.live@.remove(j));
                            if k < j {
                                assert(pre.live@[k] == id);
                            } else {
                                assert(pre.live@[k + 1] == id);
                            }
                        }
                    },
                    None => {
                        assert(false);
                    },
                }
            }
        }
    }
}

fn contains_id(v: &Vec<u64>, id: u64) -> (r: bool)
    ensures
        r == v@.contains(id),
{
    let mut i: usize = 0;
    while i < v.len()
        invariant
            i <= v@.len(),
            forall|j: int| 0 <= j < i ==> v@[j] != id,
        decreases v@.len() - i,
    {
        if v[i] == id {
            return true;
        }
        i += 1;
    }
    false
}

fn position_of(v: &Vec<u64>, id: u64) -> (r: Option<usize>)
    ensures
        match r {
            Some(p) => p < v@.len() && v@[p as int] == id && forall|j: int|
                0 <= j < p ==> v@[j] != id,
            None => !v@.contains(id),
        },
{
    let mut i: usize = 0;
    while i < v.len()
        invariant
            i <= v@.len(),
            forall|j: int| 0 <= j < i ==> v@[j] != id,
        decreases v@.len() - i,
    {
        if v[i] == id {
            return Some(i);
        }
        i += 1;
    }
    None
}

} // verus!
