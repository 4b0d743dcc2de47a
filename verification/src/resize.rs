//! The resize interaction: the passive handle over a group boundary
//! (`ResizeForkTarget`) and the active pointer grab (`ResizeForkGrab`).
//!
//! A target is a derived, regenerate-on-layout focus object: it only sets the
//! cursor shape on hover and, on a primary-button press, schedules the
//! installation of a grab. The grab then owns pointer input exclusively; each
//! motion event re-validates the target node and its sibling pair against the
//! live tree, redistributes the pair's extents, and appends the position
//! solver's blockers to the output's pending queue. Every lookup failure is
//! handled by silently skipping the event or silently ending the grab — the
//! grab races against window and output teardown by design.

use vstd::prelude::*;

use crate::geometry::{combined_min, combined_min_spec, pane_min_spec, AxisFrame, ButtonEvent,
    ButtonState, CursorShape, CursorState, MotionEvent, Orientation, Point, RelativeMotionEvent,
    BTN_LEFT, MAX_EXTENT};
use crate::layer::{blockers_for, lemma_pop_push_is_update, lemma_remove_insert_is_update, Blocker,
    Shell, TilingLayer, update_positions};
use crate::output::Outputs;
use crate::redistribute::{apply_resize, lemma_resize_in_range, resize_adjacent_spec};
use crate::tree::{clone_node_id, node_key, tree_child_len, tree_get_data, tree_nodes,
    tree_set_data, tree_child_count, Data};

verus! {

/// What a grab is seeded with when it is installed.
#[derive(Debug, Clone, Copy, PartialEq, Eq, Structural)]
pub struct GrabStartData {
    pub button: u32,
    pub location: Point,
}

/// A deferred grab installation, queued by a target's button handler and run
/// on the next idle turn of the event loop, so that installing a new
/// exclusive-input owner never happens from inside input dispatch.
#[derive(Debug)]
pub struct PendingGrab {
    pub node: id_tree::NodeId,
    pub output: u64,
    pub left_up_idx: usize,
    pub orientation: Orientation,
    pub serial: u32,
    pub button: u32,
}

/// The draggable boundary between children `left_up_idx` and
/// `left_up_idx + 1` of the group at `node`, on the output `output`.
#[derive(Debug)]
pub struct ResizeForkTarget {
    pub node: id_tree::NodeId,
    pub output: u64,
    pub left_up_idx: usize,
    pub orientation: Orientation,
}

/// An active resize drag: exclusive owner of pointer input from button press
/// to release or structural invalidation.
#[derive(Debug)]
pub struct ResizeForkGrab {
    pub start_data: GrabStartData,
    pub last_loc: Point,
    pub node: id_tree::NodeId,
    pub output: u64,
    pub left_up_idx: usize,
    pub orientation: Orientation,
}

/// The motion component along the resize axis: x for a vertical split
/// (side-by-side panes), y for a horizontal one (stacked panes).
pub open spec fn proj_delta(loc: Point, last: Point, o: Orientation) -> int {
    match o {
        Orientation::Vertical => loc.x - last.x,
        Orientation::Horizontal => loc.y - last.y,
    }
}

/// Saturation of an integer into the range of the extent type.
pub open spec fn sat_i32(v: int) -> int {
    if v < -0x8000_0000 {
        -0x8000_0000
    } else if v > 0x7FFF_FFFF {
        0x7FFF_FFFF
    } else {
        v
    }
}

/// Structural consistency of a grab's target, guaranteed by construction of
/// the target that armed it: if the grabbed node still exists, it is a group
/// of the grab's orientation, carries one extent per child, and the targeted
/// pair consists of non-negative extents whose sum the arithmetic can carry.
pub open spec fn grab_target_wf(g: ResizeForkGrab, shell: Shell, outputs: Outputs) -> bool {
    (outputs.alive_spec(g.output) && shell.has_layer(g.output)) ==> {
        let t = shell.layers@[shell.layer_index_spec(g.output)].1.queue.current_spec();
        tree_nodes(t).contains_key(node_key(g.node)) ==> match tree_nodes(t)[node_key(g.node)] {
            Data::Group { orientation: og, sizes } => {
                &&& og == g.orientation
                &&& sizes@.len() == tree_child_count(t)[node_key(g.node)]
                &&& (tree_child_count(t)[node_key(g.node)] >= g.left_up_idx + 2 ==> {
                    &&& 0 <= sizes@[g.left_up_idx as int]
                    &&& 0 <= sizes@[g.left_up_idx as int + 1]
                    &&& sizes@[g.left_up_idx as int] + sizes@[g.left_up_idx as int + 1]
                        <= MAX_EXTENT
                })
            },
            Data::Window { .. } => false,
        }
    }
}

/// How a motion event that reached the redistribution step changes the
/// shell: only the targeted layer is touched; in it, only the live tree and
/// the pending-blocker queue; in the tree, only the grabbed node's payload,
/// whose extents become `new_sizes`; and the blockers owed for the size
/// transition are appended to the pending queue.
pub open spec fn motion_apply_rel(
    gpre: ResizeForkGrab,
    spre: Shell,
    spost: Shell,
    li: int,
    og: Orientation,
    old_sizes: Seq<i32>,
    new_sizes: Seq<i32>,
) -> bool {
    let lpre = spre.layers@[li].1;
    let lpost = spost.layers@[li].1;
    &&& spost.layers@.len() == spre.layers@.len()
    &&& (forall|j: int|
        0 <= j < spre.layers@.len() && j != li ==> spost.layers@[j] == spre.layers@[j])
    &&& spost.layers@[li].0 == spre.layers@[li].0
    &&& lpost.gaps == lpre.gaps
    &&& lpost.queue.trees@.len() == lpre.queue.trees@.len()
    &&& (forall|k: int|
        0 <= k < lpre.queue.trees@.len() - 1 ==> lpost.queue.trees@[k] == lpre.queue.trees@[k])
    &&& tree_child_count(lpost.queue.current_spec()) == tree_child_count(lpre.queue.current_spec())
    &&& tree_nodes(lpost.queue.current_spec()).dom() == tree_nodes(
        lpre.queue.current_spec(),
    ).dom()
    &&& (forall|k2: nat|
        tree_nodes(lpre.queue.current_spec()).dom().contains(k2) && k2 != node_key(gpre.node)
            ==> tree_nodes(lpost.queue.current_spec())[k2] == tree_nodes(
            lpre.queue.current_spec(),
        )[k2])
    &&& (match tree_nodes(lpost.queue.current_spec())[node_key(gpre.node)] {
        Data::Group { orientation: o2, sizes: s2 } => o2 == og && s2@ == new_sizes,
        Data::Window { .. } => false,
    })
    &&& lpost.pending_blockers@ == lpre.pending_blockers@ + blockers_for(
        gpre.output,
        old_sizes,
        new_sizes,
    )
}

/// The full contract of one motion event, case by case: a dead output or a
/// missing layer skips the event; a vanished node or sibling ends the grab
/// without mutating anything; a pair at or below the combined floor is left
/// alone; otherwise the pair is redistributed, the grab's last location
/// advances to the event's, and the owed blockers are enqueued.
pub open spec fn motion_rel(
    gpre: ResizeForkGrab,
    spre: Shell,
    gpost: ResizeForkGrab,
    spost: Shell,
    outputs: Outputs,
    event: MotionEvent,
    unset: bool,
) -> bool {
    let delta = sat_i32(proj_delta(event.location, gpre.last_loc, gpre.orientation));
    let key = node_key(gpre.node);
    if !(outputs.alive_spec(gpre.output) && spre.has_layer(gpre.output)) {
        gpost == gpre && spost.layers@ == spre.layers@ && !unset
    } else {
        let li = spre.layer_index_spec(gpre.output);
        let t = spre.layers@[li].1.queue.current_spec();
        if !tree_nodes(t).contains_key(key) || tree_child_count(t)[key] < gpre.left_up_idx + 2 {
            gpost == gpre && spost.layers@ == spre.layers@ && unset
        } else {
            match tree_nodes(t)[key] {
                Data::Group { orientation: og, sizes } => {
                    let a = sizes@[gpre.left_up_idx as int] as int;
                    let b = sizes@[gpre.left_up_idx as int + 1] as int;
                    if a + b <= combined_min_spec(og) {
                        gpost == gpre && spost.layers@ == spre.layers@ && !unset
                    } else {
                        let r = resize_adjacent_spec(a, b, delta, gpre.orientation);
                        let new_sizes = sizes@.update(
                            gpre.left_up_idx as int,
                            r.0 as i32,
                        ).update(gpre.left_up_idx as int + 1, r.1 as i32);
                        &&& !unset
                        &&& gpost.last_loc == event.location
                        &&& gpost.start_data == gpre.start_data
                        &&& gpost.node == gpre.node
                        &&& gpost.output == gpre.output
                        &&& gpost.left_up_idx == gpre.left_up_idx
                        &&& gpost.orientation == gpre.orientation
                        &&& motion_apply_rel(gpre, spre, spost, li, og, sizes@, new_sizes)
                    }
                },
                Data::Window { .. } => true,
            }
        }
    }
}

/// Both extents of the targeted pair are at or above the per-pane floor of
/// the grab's orientation, wherever the target still resolves.
pub open spec fn target_pair_respects_floors(
    g: ResizeForkGrab,
    shell: Shell,
    outputs: Outputs,
) -> bool {
    (outputs.alive_spec(g.output) && shell.has_layer(g.output)) ==> {
        let t = shell.layers@[shell.layer_index_spec(g.output)].1.queue.current_spec();
        (tree_nodes(t).contains_key(node_key(g.node)) && tree_child_count(t)[node_key(g.node)]
            >= g.left_up_idx + 2) ==> match tree_nodes(t)[node_key(g.node)] {
            Data::Group { orientation: og, sizes } => {
                &&& sizes@[g.left_up_idx as int] >= pane_min_spec(g.orientation)
                &&& sizes@[g.left_up_idx as int + 1] >= pane_min_spec(g.orientation)
            },
            Data::Window { .. } => true,
        }
    }
}

/// The extents of the group at `key` in a layer's live tree, where that node
/// exists and is a group.
pub open spec fn group_sizes_at(l: TilingLayer, key: nat) -> Option<Seq<i32>> {
    if tree_nodes(l.queue.current_spec()).contains_key(key) {
        match tree_nodes(l.queue.current_spec())[key] {
            Data::Group { orientation: og, sizes } => Some(sizes@),
            Data::Window { .. } => None,
        }
    } else {
        None
    }
}

/// Idempotence of no-op events: a motion event with zero projected delta
/// never changes the grabbed group's extents and never enqueues a blocker,
/// provided both targeted panes respect their per-pane floor. (A pane below
/// its floor would be lifted onto it even by a zero delta, which is why the
/// floors are assumed.)
pub proof fn lemma_motion_zero_delta(
    gpre: ResizeForkGrab,
    spre: Shell,
    gpost: ResizeForkGrab,
    spost: Shell,
    outputs: Outputs,
    event: MotionEvent,
    unset: bool,
)
    requires
        motion_rel(gpre, spre, gpost, spost, outputs, event, unset),
        proj_delta(event.location, gpre.last_loc, gpre.orientation) == 0,
        grab_target_wf(gpre, spre, outputs),
        target_pair_respects_floors(gpre, spre, outputs),
    ensures
        spost.layers@.len() == spre.layers@.len(),
        forall|j: int|
            0 <= j < spre.layers@.len() ==> (#[trigger] spost.layers@[j]).1.pending_blockers@
                == spre.layers@[j].1.pending_blockers@,
        forall|j: int|
            0 <= j < spre.layers@.len() ==> group_sizes_at(
                (#[trigger] spost.layers@[j]).1,
                node_key(gpre.node),
            ) == group_sizes_at(spre.layers@[j].1, node_key(gpre.node)),
{
    if !(outputs.alive_spec(gpre.output) && spre.has_layer(gpre.output)) {
        assert(spost.layers@ == spre.layers@);
    } else {
        let li = spre.layer_index_spec(gpre.output);
        let key = node_key(gpre.node);
        let t = spre.layers@[li].1.queue.current_spec();
        if !tree_nodes(t).contains_key(key) || tree_child_count(t)[key] < gpre.left_up_idx + 2 {
            assert(spost.layers@ == spre.layers@);
        } else {
            match tree_nodes(t)[key] {
                Data::Group { orientation: og, sizes } => {
                    let idx = gpre.left_up_idx as int;
                    let a = sizes@[idx] as int;
                    let b = sizes@[idx + 1] as int;
                    if a + b <= combined_min_spec(og) {
                        assert(spost.layers@ == spre.layers@);
                    } else {
                        crate::redistribute::lemma_zero_delta_noop(a, b, gpre.orientation);
                        let new_sizes = sizes@.update(idx, a as i32).update(idx + 1, b as i32);
                        assert(new_sizes =~= sizes@);
                        crate::layer::lemma_blockers_for_equal(gpre.output, sizes@);
                        assert(spost.layers@[li].1.pending_blockers@ =~= spre.layers@[
                        li].1.pending_blockers@);
                        assert forall|j: int| 0 <= j < spre.layers@.len() implies (
                        #[trigger] spost.layers@[j]).1.pending_blockers@ == spre.layers@[
                        j].1.pending_blockers@ by {
                            if j != li {
                                assert(spost.layers@[j] == spre.layers@[j]);
                            }
                        }
                        assert forall|j: int| 0 <= j < spre.layers@.len() implies group_sizes_at(
                            (#[trigger] spost.layers@[j]).1,
                            key,
                        ) == group_sizes_at(spre.layers@[j].1, key) by {
                            if j != li {
                                assert(spost.layers@[j] == spre.layers@[j]);
                            } else {
                                assert(group_sizes_at(spost.layers@[li].1, key) == Some(
                                    sizes@,
                                ));
                            }
                        }
                    }
                },
                Data::Window { .. } => {
                    assert(false);
                },
            }
        }
    }
}

impl ResizeForkTarget {
    /// A target is eligible for focus and interaction only while its output
    /// reference still resolves.
    pub fn alive(&self, outputs: &Outputs) -> (r: bool)
        ensures
            r == outputs.alive_spec(self.output),
    {
        outputs.is_alive(self.output)
    }

    /// Pointer entered the handle: show the resize cursor matching the
    /// split's axis. No tree access.
    pub fn enter(&self, cursor: &mut CursorState)
        ensures
            final(cursor).shape == (match self.orientation {
                Orientation::Horizontal => CursorShape::RowResize,
                Orientation::Vertical => CursorShape::ColResize,
            }),
    {
        cursor.shape = match self.orientation {
            Orientation::Horizontal => CursorShape::RowResize,
            Orientation::Vertical => CursorShape::ColResize,
        };
    }

    /// Pointer left the handle: restore the default cursor. Idempotent, and
    /// safe to call on a target whose output is already gone.
    pub fn leave(&self, cursor: &mut CursorState)
        ensures
            final(cursor).shape == CursorShape::Default,
    {
        cursor.shape = CursorShape::Default;
    }

    /// Only the primary button's press edge is significant: it schedules the
    /// installation of a grab for this boundary on the next idle turn. Every
    /// other button or state leaves the queue untouched.
    pub fn button(&self, deferred: &mut Vec<PendingGrab>, event: &ButtonEvent)
        ensures
            (event.button == BTN_LEFT && event.state == ButtonState::Pressed) ==> {
                &&& final(deferred)@.len() == old(deferred)@.len() + 1
                &&& final(deferred)@.drop_last() == old(deferred)@
                &&& pending_matches_target(final(deferred)@.last(), *self, *event)
            },
            !(event.button == BTN_LEFT && event.state == ButtonState::Pressed)
                ==> final(deferred)@ == old(deferred)@,
    {
        if event.button == BTN_LEFT && event.state == ButtonState::Pressed {
            let pending = PendingGrab {
                node: clone_node_id(&self.node),
                output: self.output,
                left_up_idx: self.left_up_idx,
                orientation: self.orientation,
                serial: event.serial,
                button: event.button,
            };
            deferred.push(pending);
            proof {
                assert(final(deferred)@.drop_last() =~= old(deferred)@);
            }
        }
    }

    /// Motion over the handle does nothing: the target never moves geometry.
    pub fn motion(&self, _event: &MotionEvent) {
    }

    /// Relative motion over the handle does nothing.
    pub fn relative_motion(&self, _event: &RelativeMotionEvent) {
    }

    /// Scroll over the handle does nothing.
    pub fn axis(&self, _frame: &AxisFrame) {
    }
}

/// The pending entry a target's button handler queues for it.
pub open spec fn pending_matches_target(
    p: PendingGrab,
    t: ResizeForkTarget,
    event: ButtonEvent,
) -> bool {
    &&& node_key(p.node) == node_key(t.node)
    &&& p.output == t.output
    &&& p.left_up_idx == t.left_up_idx
    &&& p.orientation == t.orientation
    &&& p.serial == event.serial
    &&& p.button == event.button
}

impl ResizeForkGrab {
    /// Handles one absolute motion event; returns whether the grab must be
    /// unset. The event's location relative to the last recorded one,
    /// projected onto the resize axis, is the drag delta; the location is
    /// recorded only when a redistribution was actually applied, so vetoed
    /// or skipped deltas keep accumulating.
    pub fn motion(&mut self, outputs: &Outputs, shell: &mut Shell, event: &MotionEvent) -> (unset:
        bool)
        requires
            old(shell).wf(),
            grab_target_wf(*old(self), *old(shell), *outputs),
        ensures
            final(shell).wf(),
            grab_target_wf(*final(self), *final(shell), *outputs),
            motion_rel(
                *old(self),
                *old(shell),
                *final(self),
                *final(shell),
                *outputs,
                *event,
                unset,
            ),
    {
        let delta64: i64 = match self.orientation {
            Orientation::Vertical => event.location.x as i64 - self.last_loc.x as i64,
            Orientation::Horizontal => event.location.y as i64 - self.last_loc.y as i64,
        };
        let delta: i32 = if delta64 < -0x8000_0000i64 {
            -0x7FFF_FFFFi32 - 1i32
        } else if delta64 > 0x7FFF_FFFFi64 {
            0x7FFF_FFFFi32
        } else {
            delta64 as i32
        };
        proof {
            assert(delta as int == sat_i32(
                proj_delta(event.location, self.last_loc, self.orientation),
            ));
        }
        if !outputs.is_alive(self.output) {
            return false;
        }
        let pos: usize = match shell.layer_position(self.output) {
            Some(p) => p,
            None => {
                return false;
            },
        };
        proof {
            assert(old(shell).layers@[pos as int].1.queue.wf());
        }
        let ti: usize = shell.layers[pos].1.queue.trees.len() - 1;
        let d: Data = match tree_get_data(&shell.layers[pos].1.queue.trees[ti], &self.node) {
            Some(d) => d,
            None => {
                return true;
            },
        };
        let count: usize = match tree_child_len(&shell.layers[pos].1.queue.trees[ti], &self.node) {
            Some(c) => c,
            None => {
                proof {
                    assert(false);
                }
                vstd::pervasive::unreached()
            },
        };
        if count < 2 || self.left_up_idx > count - 2 {
            return true;
        }
        let (og, sizes): (Orientation, Vec<i32>) = match d {
            Data::Group { orientation, sizes } => (orientation, sizes),
            Data::Window { .. } => {
                proof {
                    assert(false);
                }
                vstd::pervasive::unreached()
            },
        };
        let a: i32 = sizes[self.left_up_idx];
        let b: i32 = sizes[self.left_up_idx + 1];
        if a + b <= combined_min(og) {
            return false;
        }
        let mut new_sizes: Vec<i32> = copy_extents(&sizes);
        apply_resize(&mut new_sizes, self.left_up_idx, delta, self.orientation);
        let blockers: Vec<Blocker> = update_positions(self.output, &sizes, &new_sizes);
        proof {
            lemma_resize_in_range(a as int, b as int, delta as int, self.orientation);
        }
        self.last_loc = event.location;
        let mut entry: (u64, TilingLayer) = shell.layers.remove(pos);
        let mut t: id_tree::Tree<Data> = match entry.1.queue.trees.pop() {
            Some(t) => t,
            None => {
                proof {
                    assert(false);
                }
                vstd::pervasive::unreached()
            },
        };
        tree_set_data(&mut t, &self.node, Data::Group { orientation: og, sizes: new_sizes });
        let ghost t_snap = t;
        entry.1.queue.trees.push(t);
        let mut more: Vec<Blocker> = blockers;
        entry.1.pending_blockers.append(&mut more);
        let ghost e_snap = entry;
        shell.layers.insert(pos, entry);
        proof {
            let key = node_key(old(self).node);
            let spre = *old(shell);
            let lpre = spre.layers@[pos as int].1;
            lemma_pop_push_is_update(lpre.queue.trees@, t_snap);
            lemma_remove_insert_is_update(spre.layers@, pos as int, e_snap);
            assert(final(shell).layers@ == spre.layers@.update(pos as int, e_snap));
            assert(tree_nodes(t_snap).dom() =~= tree_nodes(lpre.queue.current_spec()).dom());
            assert(e_snap.1.queue.current_spec() == t_snap);
            assert forall|i: int, j: int|
                0 <= i < j < final(shell).layers@.len() implies final(shell).layers@[i].0
                != final(shell).layers@[j].0 by {
                assert(spre.layers@[i].0 != spre.layers@[j].0);
            }
            assert forall|i: int| 0 <= i < final(shell).layers@.len() implies (
            #[trigger] final(shell).layers@[i]).1.queue.wf() by {
                assert(spre.layers@[i].1.queue.wf());
            }
            assert(final(shell).layers@[pos as int].0 == self.output);
            let li2 = final(shell).layer_index_spec(self.output);
            assert(final(shell).has_layer(self.output));
            assert(0 <= li2 < final(shell).layers@.len() && final(shell).layers@[li2].0
                == self.output);
            assert(li2 == pos as int);
        }
        false
    }

    /// Relative motion during a drag is forwarded opaquely and never mutates
    /// the tree.
    pub fn relative_motion(&self, _event: &RelativeMotionEvent) {
    }

    /// A button event ends the grab exactly when it leaves no buttons
    /// pressed; multi-button holds keep the drag alive.
    pub fn button(&self, pressed_after: &Vec<u32>) -> (unset: bool)
        ensures
            unset == (pressed_after@.len() == 0),
    {
        pressed_after.len() == 0
    }

    /// Scroll input during a drag is forwarded opaquely and never affects
    /// sizing.
    pub fn axis(&self, _frame: &AxisFrame) {
    }

    /// The data the grab was installed with.
    pub fn start_data(&self) -> (r: &GrabStartData)
        ensures
            *r == self.start_data,
    {
        &self.start_data
    }
}

/// A fresh copy of a group's extent list.
fn copy_extents(v: &Vec<i32>) -> (r: Vec<i32>)
    ensures
        r@ == v@,
{
    let mut r: Vec<i32> = Vec::new();
    let mut i: usize = 0;
    while i < v.len()
        invariant
            i <= v@.len(),
            r@ == v@.take(i as int),
        decreases v@.len() - i,
    {
        r.push(v[i]);
        i += 1;
        proof {
            assert(v@.take(i as int).drop_last() =~= v@.take(i as int - 1));
            assert(r@ =~= v@.take(i as int));
        }
    }
    proof {
        assert(v@.take(v@.len() as int) =~= v@);
    }
    r
}

} // verus!
