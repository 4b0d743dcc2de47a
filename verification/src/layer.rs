//! Per-output tiling state: the short history of layout trees whose most
//! recent entry is the live tree, the queue of pending synchronization
//! tokens ("blockers"), and the shell that owns one such layer per output.
//!
//! After a successful size mutation the position solver is consulted; here it
//! reports one blocker per child whose extent changed, and those blockers are
//! appended to the owning output's pending queue. The external render
//! pipeline consumes that queue to hold presentation until every affected
//! client has acknowledged its new geometry.

use vstd::prelude::*;

use crate::tree::Data;

verus! {

/// Synchronization token gating presentation of one resized surface: the
/// `child`-th pane of the mutated group on output `output`.
#[derive(Debug, Clone, Copy, PartialEq, Eq, Structural)]
pub struct Blocker {
    pub output: u64,
    pub child: usize,
}

/// The blockers owed for a size transition: one per index whose extent
/// changed, in index order.
pub open spec fn blockers_for(output: u64, olds: Seq<i32>, news: Seq<i32>) -> Seq<Blocker>
    decreases olds.len(),
{
    if olds.len() == 0 || news.len() == 0 {
        Seq::empty()
    } else {
        blockers_for(output, olds.drop_last(), news.drop_last()) + (
        if olds.last() != news.last() {
            seq![Blocker { output, child: (olds.len() - 1) as usize }]
        } else {
            Seq::empty()
        })
    }
}

/// An unchanged size sequence owes no blockers.
pub proof fn lemma_blockers_for_equal(output: u64, s: Seq<i32>)
    ensures
        blockers_for(output, s, s).len() == 0,
    decreases s.len(),
{
    if s.len() > 0 {
        lemma_blockers_for_equal(output, s.drop_last());
    }
}

/// The position solver's visible half: compares the extents of a group's
/// children before and after a mutation and emits one blocker per child
/// whose geometry changed.
pub fn update_positions(output: u64, olds: &Vec<i32>, news: &Vec<i32>) -> (blockers: Vec<Blocker>)
    requires
        olds@.len() == news@.len(),
    ensures
        blockers@ == blockers_for(output, olds@, news@),
{
    let mut blockers: Vec<Blocker> = Vec::new();
    let mut i: usize = 0;
    while i < olds.len()
        invariant
            i <= olds@.len(),
            olds@.len() == news@.len(),
            blockers@ == blockers_for(output, olds@.take(i as int), news@.take(i as int)),
        decreases olds@.len() - i,
    {
        if olds[i] != news[i] {
            blockers.push(Blocker { output, child: i });
        }
        i += 1;
        proof {
            assert(olds@.take(i as int).drop_last() =~= olds@.take(i as int - 1));
            assert(news@.take(i as int).drop_last() =~= news@.take(i as int - 1));
        }
    }
    proof {
        assert(olds@.take(olds@.len() as int) =~= olds@);
        assert(news@.take(news@.len() as int) =~= news@);
    }
    blockers
}

/// Append-only history of layout trees; the most recent entry (the last) is
/// the live tree, and the only one the resize machinery ever mutates.
#[derive(Debug)]
pub struct TreeQueue {
    pub trees: Vec<id_tree::Tree<Data>>,
}

impl TreeQueue {
    /// A queue always holds at least the live tree.
    pub open spec fn wf(self) -> bool {
        self.trees@.len() >= 1
    }

    /// The live tree: the most recent entry of the history.
    pub open spec fn current_spec(self) -> id_tree::Tree<Data> {
        self.trees@.last()
    }
}

/// The tiling state of one output: its tree history, the blockers of
/// in-flight resizes, and the gap width between panes.
#[derive(Debug)]
pub struct TilingLayer {
    pub queue: TreeQueue,
    pub pending_blockers: Vec<Blocker>,
    pub gaps: i32,
}

/// One tiling layer per output, keyed by the output's identifier.
#[derive(Debug)]
pub struct Shell {
    pub layers: Vec<(u64, TilingLayer)>,
}

impl Shell {
    /// Each output has at most one layer, and each layer a live tree.
    pub open spec fn wf(self) -> bool {
        &&& forall|i: int, j: int|
            0 <= i < j < self.layers@.len() ==> self.layers@[i].0 != self.layers@[j].0
        &&& forall|i: int| 0 <= i < self.layers@.len() ==> (#[trigger] self.layers@[i]).1.queue.wf()
    }

    pub open spec fn has_layer(self, output: u64) -> bool {
        exists|i: int| 0 <= i < self.layers@.len() && (#[trigger] self.layers@[i]).0 == output
    }

    /// The index of the layer for `output`; meaningful under `wf`, where it
    /// is unique.
    pub open spec fn layer_index_spec(self, output: u64) -> int {
        choose|i: int| 0 <= i < self.layers@.len() && (#[trigger] self.layers@[i]).0 == output
    }

    /// Finds the layer for `output`, if it has one.
    pub fn layer_position(&self, output: u64) -> (r: Option<usize>)
        requires
            self.wf(),
        ensures
            match r {
                Some(p) => self.has_layer(output) && p == self.layer_index_spec(output)
                    && p < self.layers@.len() && self.layers@[p as int].0 == output,
                None => !self.has_layer(output),
            },
    {
        let mut i: usize = 0;
        while i < self.layers.len()
            invariant
                self.wf(),
                i <= self.layers@.len(),
                forall|j: int| 0 <= j < i ==> (#[trigger] self.layers@[j]).0 != output,
            decreases self.layers@.len() - i,
        {
            if self.layers[i].0 == output {
                return Some(i);
            }
            i += 1;
        }
        None
    }
}

/// Removing an element and re-inserting another at the same position is a
/// point update.
pub proof fn lemma_remove_insert_is_update<A>(s: Seq<A>, i: int, x: A)
    requires
        0 <= i < s.len(),
    ensures
        s.remove(i).insert(i, x) == s.update(i, x),
{
    assert(s.remove(i).insert(i, x) =~= s.update(i, x));
}

/// Dropping the last element and pushing another is a point update of the
/// last position.
pub proof fn lemma_pop_push_is_update<A>(s: Seq<A>, x: A)
    requires
        s.len() >= 1,
    ensures
        s.drop_last().push(x) == s.update(s.len() - 1, x),
{
    assert(s.drop_last().push(x) =~= s.update(s.len() - 1, x));
}

} // verus!
