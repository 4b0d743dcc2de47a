//! The seat: the single pointer's view of the resize interaction. It tracks
//! the held buttons, the current pointer focus, the active grab, and the
//! queue of deferred grab installations.
//!
//! While a grab is active it owns the pointer exclusively: motion events feed
//! the grab, and a button event that leaves no buttons held ends the grab at
//! once — there is no separate confirm gesture. Without a grab, a button
//! event reaches the focused target, which may arm a deferred grab; the
//! deferred queue is drained on the next idle turn of the event loop.

use vstd::prelude::*;

use crate::geometry::{ButtonEvent, ButtonState, CursorState, MotionEvent, Point};
use crate::layer::Shell;
use crate::output::Outputs;
use crate::resize::{grab_target_wf, motion_rel, GrabStartData, PendingGrab, ResizeForkGrab,
    ResizeForkTarget, pending_matches_target};

verus! {

/// One pointer seat.
#[derive(Debug)]
pub struct Seat {
    pub pressed: Vec<u32>,
    pub grab: Option<ResizeForkGrab>,
    pub focus: Option<ResizeForkTarget>,
    pub deferred: Vec<PendingGrab>,
    pub cursor: CursorState,
    pub location: Point,
}

/// The held-button set after a button event: a press adds the button (once),
/// a release removes it.
pub open spec fn pressed_after(pre: Seq<u32>, event: ButtonEvent) -> Seq<u32> {
    match event.state {
        ButtonState::Pressed => if pre.contains(event.button) {
            pre
        } else {
            pre.push(event.button)
        },
        ButtonState::Released => pre.remove_value(event.button),
    }
}

/// The grab that a pending entry installs, given the pointer location at
/// installation time.
pub open spec fn grab_from_pending(g: ResizeForkGrab, p: PendingGrab, loc: Point) -> bool {
    &&& g.start_data == (GrabStartData { button: p.button, location: loc })
    &&& g.last_loc == loc
    &&& g.node == p.node
    &&& g.output == p.output
    &&& g.left_up_idx == p.left_up_idx
    &&& g.orientation == p.orientation
}

impl Seat {
    /// Handles a pointer-motion event: records the new location, and feeds
    /// the event to the active grab, removing the grab if it asks to be
    /// unset. Without a grab the event changes nothing but the location.
    pub fn handle_motion(&mut self, outputs: &Outputs, shell: &mut Shell, event: &MotionEvent)
        requires
            old(shell).wf(),
            match old(self).grab {
                Some(g) => grab_target_wf(g, *old(shell), *outputs),
                None => true,
            },
        ensures
            final(shell).wf(),
            final(self).location == event.location,
            final(self).pressed == old(self).pressed,
            final(self).focus == old(self).focus,
            final(self).deferred == old(self).deferred,
            final(self).cursor == old(self).cursor,
            match old(self).grab {
                Some(g) => match final(self).grab {
                    Some(g2) => motion_rel(
                        g,
                        *old(shell),
                        g2,
                        *final(shell),
                        *outputs,
                        *event,
                        false,
                    ) && grab_target_wf(g2, *final(shell), *outputs),
                    None => motion_rel(g, *old(shell), g, *final(shell), *outputs, *event, true),
                },
                None => final(self).grab is None && final(shell).layers@ == old(shell).layers@,
            },
    {
        self.location = event.location;
        let unset: bool = match &mut self.grab {
            Some(g) => g.motion(outputs, shell, event),
            None => false,
        };
        if unset {
            self.grab = None;
        }
    }

    /// Handles a button event. The held-button set is updated first, as the
    /// default dispatch would. An active grab is then ended exactly when no
    /// buttons remain pressed; without a grab, the event is delivered to the
    /// focused target, which may arm a deferred grab on a primary press.
    pub fn handle_button(&mut self, event: &ButtonEvent)
        ensures
            final(self).pressed@ == pressed_after(old(self).pressed@, *event),
            final(self).location == old(self).location,
            final(self).cursor == old(self).cursor,
            final(self).focus == old(self).focus,
            final(self).pressed@.len() == 0 ==> final(self).grab is None,
            old(self).grab is None ==> final(self).grab is None,
            (old(self).grab is Some && final(self).pressed@.len() > 0) ==> final(self).grab == old(
                self,
            ).grab,
            old(self).grab is Some ==> final(self).deferred@ == old(self).deferred@,
            old(self).grab is None ==> match old(self).focus {
                Some(t) => if event.button == crate::geometry::BTN_LEFT && event.state
                    == ButtonState::Pressed {
                    &&& final(self).deferred@.len() == old(self).deferred@.len() + 1
                    &&& final(self).deferred@.drop_last() == old(self).deferred@
                    &&& pending_matches_target(final(self).deferred@.last(), t, *event)
                } else {
                    final(self).deferred@ == old(self).deferred@
                },
                None => final(self).deferred@ == old(self).deferred@,
            },
    {
        match event.state {
            ButtonState::Pressed => {
                if !contains_button(&self.pressed, event.button) {
                    self.pressed.push(event.button);
                }
            },
            ButtonState::Released => {
                match button_position(&self.pressed, event.button) {
                    Some(pos) => {
                        let _removed: u32 = self.pressed.remove(pos);
                        proof {
                            old(self).pressed@.index_of_first_ensures(event.button);
                            match old(self).pressed@.index_of_first(event.button) {
                                Some(j) => {
                                    assert(j == pos);
                                },
                                None => {
                                    assert(false);
                                },
                            }
                        }
                    },
                    None => {
                        proof {
                            old(self).pressed@.index_of_first_ensures(event.button);
                            match old(self).pressed@.index_of_first(event.button) {
                                Some(j) => {
                                    assert(false);
                                },
                                None => {},
                            }
                        }
                    },
                }
            },
        }
        if self.grab.is_some() {
            let unset: bool = match &self.grab {
                Some(g) => g.button(&self.pressed),
                None => false,
            };
            if unset {
                self.grab = None;
            }
        } else {
            match &self.focus {
                Some(t) => {
                    t.button(&mut self.deferred, event);
                },
                None => {},
            }
        }
    }

    /// Runs the deferred tasks of one idle turn: each pending entry installs
    /// its grab, seeded with the pointer's current location, in queue order —
    /// so the most recently armed target wins.
    pub fn process_idle(&mut self)
        ensures
            final(self).deferred@.len() == 0,
            final(self).pressed == old(self).pressed,
            final(self).focus == old(self).focus,
            final(self).cursor == old(self).cursor,
            final(self).location == old(self).location,
            old(self).deferred@.len() == 0 ==> final(self).grab == old(self).grab,
            old(self).deferred@.len() > 0 ==> match final(self).grab {
                Some(g) => grab_from_pending(g, old(self).deferred@.last(), old(self).location),
                None => false,
            },
    {
        let ghost done: int = 0;
        while self.deferred.len() > 0
            invariant
                0 <= done <= old(self).deferred@.len(),
                self.deferred@ == old(self).deferred@.skip(done),
                self.pressed == old(self).pressed,
                self.focus == old(self).focus,
                self.cursor == old(self).cursor,
                self.location == old(self).location,
                done == 0 ==> self.grab == old(self).grab,
                done > 0 ==> match self.grab {
                    Some(g) => grab_from_pending(
                        g,
                        old(self).deferred@[done - 1],
                        old(self).location,
                    ),
                    None => false,
                },
            decreases self.deferred@.len(),
        {
            let p: PendingGrab = self.deferred.remove(0);
            let loc: Point = self.location;
            self.grab = Some(
                ResizeForkGrab {
                    start_data: GrabStartData { button: p.button, location: loc },
                    last_loc: loc,
                    node: p.node,
                    output: p.output,
                    left_up_idx: p.left_up_idx,
                    orientation: p.orientation,
                },
            );
            proof {
                assert(old(self).deferred@.skip(done).remove(0) =~= old(self).deferred@.skip(
                    done + 1,
                ));
                done = done + 1;
            }
        }
        proof {
            if old(self).deferred@.len() > 0 {
                assert(done > 0);
                assert(old(self).deferred@[done - 1] == old(self).deferred@.last());
            }
        }
    }
}

fn contains_button(v: &Vec<u32>, b: u32) -> (r: bool)
    ensures
        r == v@.contains(b),
{
    let mut i: usize = 0;
    while i < v.len()
        invariant
            i <= v@.len(),
            forall|j: int| 0 <= j < i ==> v@[j] != b,
        decreases v@.len() - i,
    {
        if v[i] == b {
            return true;
        }
        i += 1;
    }
    false
}

fn button_position(v: &Vec<u32>, b: u32) -> (r: Option<usize>)
    ensures
        match r {
            Some(p) => p < v@.len() && v@[p as int] == b && forall|j: int| 0 <= j < p ==> v@[j]
                != b,
            None => !v@.contains(b),
        },
{
    let mut i: usize = 0;
    while i < v.len()
        invariant
            i <= v@.len(),
            forall|j: int| 0 <= j < i ==> v@[j] != b,
        decreases v@.len() - i,
    {
        if v[i] == b {
            return Some(i);
        }
        i += 1;
    }
    None
}

} // verus!
