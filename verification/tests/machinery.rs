use id_tree::{InsertBehavior, Node, NodeId, Tree};
use tiling_resize::geometry::{AxisFrame, ButtonEvent, ButtonState, CursorShape, CursorState,
    MotionEvent, Orientation, Point, BTN_LEFT};
use tiling_resize::layer::{update_positions, Blocker, Shell, TilingLayer, TreeQueue};
use tiling_resize::output::Outputs;
use tiling_resize::redistribute::apply_resize;
use tiling_resize::resize::ResizeForkTarget;
use tiling_resize::seat::Seat;
use tiling_resize::session::{SessionLock, State};
use tiling_resize::tree::Data;

const OUT: u64 = 3;

fn press(button: u32) -> ButtonEvent {
    ButtonEvent { button, state: ButtonState::Pressed, serial: 10, time: 10 }
}

fn release(button: u32) -> ButtonEvent {
    ButtonEvent { button, state: ButtonState::Released, serial: 11, time: 11 }
}

fn build_fixture() -> (Shell, Outputs, NodeId) {
    let mut tree: Tree<Data> = Tree::new();
    let root = tree
        .insert(
            Node::new(Data::Group { orientation: Orientation::Vertical, sizes: vec![500, 500] }),
            InsertBehavior::AsRoot,
        )
        .unwrap();
    for i in 0..2u64 {
        tree.insert(Node::new(Data::Window { surface: i }), InsertBehavior::UnderNode(&root))
            .unwrap();
    }
    let shell = Shell {
        layers: vec![(
            OUT,
            TilingLayer {
                queue: TreeQueue { trees: vec![tree] },
                pending_blockers: Vec::new(),
                gaps: 0,
            },
        )],
    };
    let mut outputs = Outputs::new();
    assert!(outputs.add_output(OUT));
    (shell, outputs, root)
}

fn fresh_seat(root: &NodeId) -> Seat {
    Seat {
        pressed: Vec::new(),
        grab: None,
        focus: Some(ResizeForkTarget {
            node: root.clone(),
            output: OUT,
            left_up_idx: 0,
            orientation: Orientation::Vertical,
        }),
        deferred: Vec::new(),
        cursor: CursorState { shape: CursorShape::Default },
        location: Point { x: 0, y: 0 },
    }
}

#[test]
fn apply_resize_direct_values() {
    let mut sizes = vec![500i32, 500];
    apply_resize(&mut sizes, 0, 50, Orientation::Vertical);
    assert_eq!(sizes, vec![550, 450]);

    let mut sizes = vec![400i32, 400];
    apply_resize(&mut sizes, 0, 200, Orientation::Vertical);
    assert_eq!(sizes, vec![440, 360]);

    let mut sizes = vec![300i32, 300];
    apply_resize(&mut sizes, 0, -10, Orientation::Horizontal);
    assert_eq!(sizes, vec![290, 310]);

    let mut sizes = vec![360i32, 360];
    apply_resize(&mut sizes, 0, 123, Orientation::Vertical);
    assert_eq!(sizes, vec![360, 360]);

    // horizontal floors: 240 per pane, 480 combined
    let mut sizes = vec![250i32, 250];
    apply_resize(&mut sizes, 0, -100, Orientation::Horizontal);
    assert_eq!(sizes, vec![240, 260]);
}

#[test]
fn update_positions_reports_changed_children() {
    let olds = vec![1i32, 2, 3];
    let news = vec![1i32, 5, 3];
    assert_eq!(update_positions(OUT, &olds, &news), vec![Blocker { output: OUT, child: 1 }]);
    let same = update_positions(OUT, &olds, &olds);
    assert!(same.is_empty());
    let all = update_positions(OUT, &vec![4i32, 4], &vec![5i32, 3]);
    assert_eq!(all, vec![Blocker { output: OUT, child: 0 }, Blocker { output: OUT, child: 1 }]);
}

#[test]
fn outputs_liveness_is_monotone() {
    let mut outputs = Outputs::new();
    assert!(outputs.add_output(1));
    assert!(outputs.is_alive(1));
    outputs.remove_output(1);
    assert!(!outputs.is_alive(1));
    // a retired identifier can never come back
    assert!(!outputs.add_output(1));
    assert!(!outputs.is_alive(1));
    // unrelated outputs are unaffected
    assert!(outputs.add_output(2));
    assert!(outputs.is_alive(2));
}

#[test]
fn target_alive_follows_output() {
    let (_shell, mut outputs, root) = build_fixture();
    let target = ResizeForkTarget {
        node: root,
        output: OUT,
        left_up_idx: 0,
        orientation: Orientation::Vertical,
    };
    assert!(target.alive(&outputs));
    outputs.remove_output(OUT);
    assert!(!target.alive(&outputs));
}

#[test]
fn cursor_shape_follows_orientation() {
    let (_shell, _outputs, root) = build_fixture();
    let mut cursor = CursorState { shape: CursorShape::Default };
    let target = ResizeForkTarget {
        node: root.clone(),
        output: OUT,
        left_up_idx: 0,
        orientation: Orientation::Vertical,
    };
    target.enter(&mut cursor);
    assert_eq!(cursor.shape, CursorShape::ColResize);
    target.leave(&mut cursor);
    assert_eq!(cursor.shape, CursorShape::Default);
    // leave is idempotent
    target.leave(&mut cursor);
    assert_eq!(cursor.shape, CursorShape::Default);

    let horizontal = ResizeForkTarget {
        node: root,
        output: OUT,
        left_up_idx: 0,
        orientation: Orientation::Horizontal,
    };
    horizontal.enter(&mut cursor);
    assert_eq!(cursor.shape, CursorShape::RowResize);
}

#[test]
fn primary_press_arms_and_idle_installs_grab() {
    let (mut shell, outputs, root) = build_fixture();
    let mut seat = fresh_seat(&root);
    seat.location = Point { x: 10, y: 10 };
    seat.handle_button(&press(BTN_LEFT));
    assert_eq!(seat.deferred.len(), 1);
    assert!(seat.grab.is_none());
    seat.process_idle();
    assert!(seat.deferred.is_empty());
    let grab = seat.grab.as_ref().expect("grab installed on idle");
    assert_eq!(grab.last_loc, Point { x: 10, y: 10 });
    assert_eq!(grab.start_data.button, BTN_LEFT);
    // the installed grab drives a real resize end to end
    seat.handle_motion(&outputs, &mut shell, &MotionEvent {
        location: Point { x: 30, y: 10 },
        serial: 2,
        time: 2,
    });
    let tree = shell.layers[0].1.queue.trees.last().unwrap();
    match tree.get(&root).unwrap().data() {
        Data::Group { sizes, .. } => assert_eq!(sizes, &vec![520, 480]),
        Data::Window { .. } => panic!("expected a group"),
    }
}

#[test]
fn other_buttons_do_not_arm() {
    let (_shell, _outputs, root) = build_fixture();
    let mut seat = fresh_seat(&root);
    seat.handle_button(&press(0x111));
    assert!(seat.deferred.is_empty());
    seat.handle_button(&release(BTN_LEFT));
    assert!(seat.deferred.is_empty());
}

#[test]
fn release_of_last_button_ends_grab_once() {
    let (_shell, _outputs, root) = build_fixture();
    let mut seat = fresh_seat(&root);
    seat.handle_button(&press(BTN_LEFT));
    seat.process_idle();
    assert!(seat.grab.is_some());
    // a second button keeps the drag alive through the first release
    seat.handle_button(&press(0x111));
    seat.handle_button(&release(BTN_LEFT));
    assert!(seat.grab.is_some());
    seat.handle_button(&release(0x111));
    assert!(seat.grab.is_none());
    // a further event does not resurrect the grab
    seat.handle_button(&release(0x111));
    assert!(seat.grab.is_none());
}

#[test]
fn grab_forwarding_stubs_do_nothing() {
    let (_shell, _outputs, root) = build_fixture();
    let mut seat = fresh_seat(&root);
    seat.handle_button(&press(BTN_LEFT));
    seat.process_idle();
    let grab = seat.grab.as_ref().unwrap();
    grab.axis(&AxisFrame { time: 5 });
    assert_eq!(grab.start_data().location, Point { x: 0, y: 0 });
    assert!(!grab.button(&vec![BTN_LEFT]));
    assert!(grab.button(&Vec::new()));
}

#[test]
fn session_lock_registry_replaces_per_output() {
    let mut state = State { session_lock: None };
    // a surface before any lock is ignored
    state.new_surface(Some(1), 100);
    assert!(state.session_lock.is_none());
    state.lock();
    state.new_surface(Some(1), 100);
    state.new_surface(Some(2), 200);
    state.new_surface(Some(1), 150);
    // an unresolved output is ignored
    state.new_surface(None, 999);
    let lock: &SessionLock = state.session_lock.as_ref().unwrap();
    assert_eq!(lock.surfaces, vec![(1, 150), (2, 200)]);
    state.unlock();
    assert!(state.session_lock.is_none());
}
