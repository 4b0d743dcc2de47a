use id_tree::{InsertBehavior, Node, NodeId, RemoveBehavior, Tree};
use tiling_resize::geometry::{MotionEvent, Orientation, Point, BTN_LEFT};
use tiling_resize::layer::{Blocker, Shell, TilingLayer, TreeQueue};
use tiling_resize::output::Outputs;
use tiling_resize::resize::{GrabStartData, ResizeForkGrab};
use tiling_resize::tree::Data;

fn group_tree(orientation: Orientation, sizes: Vec<i32>) -> (Tree<Data>, NodeId, Vec<NodeId>) {
    let mut tree: Tree<Data> = Tree::new();
    let root = tree
        .insert(
            Node::new(Data::Group { orientation, sizes: sizes.clone() }),
            InsertBehavior::AsRoot,
        )
        .unwrap();
    let mut kids = Vec::new();
    for i in 0..sizes.len() {
        kids.push(
            tree.insert(
                Node::new(Data::Window { surface: i as u64 }),
                InsertBehavior::UnderNode(&root),
            )
            .unwrap(),
        );
    }
    (tree, root, kids)
}

const OUT: u64 = 7;

fn shell_with(tree: Tree<Data>) -> (Shell, Outputs) {
    let shell = Shell {
        layers: vec![(
            OUT,
            TilingLayer {
                queue: TreeQueue { trees: vec![tree] },
                pending_blockers: Vec::new(),
                gaps: 4,
            },
        )],
    };
    let mut outputs = Outputs::new();
    assert!(outputs.add_output(OUT));
    (shell, outputs)
}

fn grab_at(root: &NodeId, orientation: Orientation) -> ResizeForkGrab {
    ResizeForkGrab {
        start_data: GrabStartData { button: BTN_LEFT, location: Point { x: 0, y: 0 } },
        last_loc: Point { x: 0, y: 0 },
        node: root.clone(),
        output: OUT,
        left_up_idx: 0,
        orientation,
    }
}

fn current_sizes(shell: &Shell, root: &NodeId) -> Vec<i32> {
    let tree = shell.layers[0].1.queue.trees.last().unwrap();
    match tree.get(root).unwrap().data() {
        Data::Group { sizes, .. } => sizes.clone(),
        Data::Window { .. } => panic!("expected a group"),
    }
}

fn motion_to(x: i32, y: i32) -> MotionEvent {
    MotionEvent { location: Point { x, y }, serial: 1, time: 1 }
}

#[test]
fn vertical_plain_drag_moves_extent() {
    let (tree, root, _kids) = group_tree(Orientation::Vertical, vec![500, 500]);
    let (mut shell, outputs) = shell_with(tree);
    let mut grab = grab_at(&root, Orientation::Vertical);
    let unset = grab.motion(&outputs, &mut shell, &motion_to(50, 0));
    assert!(!unset);
    assert_eq!(current_sizes(&shell, &root), vec![550, 450]);
    assert_eq!(grab.last_loc, Point { x: 50, y: 0 });
    assert_eq!(
        shell.layers[0].1.pending_blockers,
        vec![Blocker { output: OUT, child: 0 }, Blocker { output: OUT, child: 1 }]
    );
}

#[test]
fn vertical_clamp_pushes_leftover_back() {
    let (tree, root, _kids) = group_tree(Orientation::Vertical, vec![400, 400]);
    let (mut shell, outputs) = shell_with(tree);
    let mut grab = grab_at(&root, Orientation::Vertical);
    let unset = grab.motion(&outputs, &mut shell, &motion_to(200, 0));
    assert!(!unset);
    assert_eq!(current_sizes(&shell, &root), vec![440, 360]);
}

#[test]
fn combined_floor_vetoes_any_delta() {
    let (tree, root, _kids) = group_tree(Orientation::Vertical, vec![360, 360]);
    let (mut shell, outputs) = shell_with(tree);
    let mut grab = grab_at(&root, Orientation::Vertical);
    for delta in [1, -1, 200, -200, 1_000_000] {
        let unset = grab.motion(&outputs, &mut shell, &motion_to(delta, 0));
        assert!(!unset);
        assert_eq!(current_sizes(&shell, &root), vec![360, 360]);
        assert!(shell.layers[0].1.pending_blockers.is_empty());
        // vetoed motion does not advance the recorded location
        assert_eq!(grab.last_loc, Point { x: 0, y: 0 });
    }
}

#[test]
fn horizontal_negative_drag_shrinks_upper() {
    let (tree, root, _kids) = group_tree(Orientation::Horizontal, vec![300, 300]);
    let (mut shell, outputs) = shell_with(tree);
    let mut grab = grab_at(&root, Orientation::Horizontal);
    let unset = grab.motion(&outputs, &mut shell, &motion_to(0, -10));
    assert!(!unset);
    assert_eq!(current_sizes(&shell, &root), vec![290, 310]);
}

#[test]
fn sibling_closed_mid_drag_ends_grab() {
    let (tree, root, kids) = group_tree(Orientation::Vertical, vec![500, 500]);
    let (mut shell, outputs) = shell_with(tree);
    let mut grab = grab_at(&root, Orientation::Vertical);
    // another actor closes the right sibling window mid-drag
    let tree = shell.layers[0].1.queue.trees.last_mut().unwrap();
    tree.remove_node(kids[1].clone(), RemoveBehavior::DropChildren).unwrap();
    let unset = grab.motion(&outputs, &mut shell, &motion_to(50, 0));
    assert!(unset);
    assert_eq!(current_sizes(&shell, &root), vec![500, 500]);
    assert!(shell.layers[0].1.pending_blockers.is_empty());
}

#[test]
fn grabbed_node_removed_mid_drag_ends_grab() {
    let (tree, root, _kids) = group_tree(Orientation::Vertical, vec![500, 500]);
    let (mut shell, outputs) = shell_with(tree);
    let mut grab = grab_at(&root, Orientation::Vertical);
    let tree = shell.layers[0].1.queue.trees.last_mut().unwrap();
    tree.remove_node(root.clone(), RemoveBehavior::DropChildren).unwrap();
    let unset = grab.motion(&outputs, &mut shell, &motion_to(50, 0));
    assert!(unset);
}

#[test]
fn zero_projected_delta_changes_nothing() {
    let (tree, root, _kids) = group_tree(Orientation::Vertical, vec![500, 500]);
    let (mut shell, outputs) = shell_with(tree);
    let mut grab = grab_at(&root, Orientation::Vertical);
    // vertical resize projects onto x; a pure y move has zero projected delta
    let unset = grab.motion(&outputs, &mut shell, &motion_to(0, 40));
    assert!(!unset);
    assert_eq!(current_sizes(&shell, &root), vec![500, 500]);
    assert!(shell.layers[0].1.pending_blockers.is_empty());
    // the location is still recorded on an applied (if empty) mutation
    assert_eq!(grab.last_loc, Point { x: 0, y: 40 });
}

#[test]
fn dead_output_skips_motion_and_keeps_grab() {
    let (tree, root, _kids) = group_tree(Orientation::Vertical, vec![500, 500]);
    let (mut shell, mut outputs) = shell_with(tree);
    let mut grab = grab_at(&root, Orientation::Vertical);
    outputs.remove_output(OUT);
    let unset = grab.motion(&outputs, &mut shell, &motion_to(50, 0));
    assert!(!unset);
    assert_eq!(current_sizes(&shell, &root), vec![500, 500]);
    assert!(shell.layers[0].1.pending_blockers.is_empty());
}

#[test]
fn missing_layer_skips_motion_and_keeps_grab() {
    let (tree, root, _kids) = group_tree(Orientation::Vertical, vec![500, 500]);
    let (_shell, outputs) = shell_with(tree);
    let mut empty_shell = Shell { layers: Vec::new() };
    let mut grab = grab_at(&root, Orientation::Vertical);
    let unset = grab.motion(&outputs, &mut empty_shell, &motion_to(50, 0));
    assert!(!unset);
}

#[test]
fn conservation_holds_under_clamping() {
    let (tree, root, _kids) = group_tree(Orientation::Vertical, vec![400, 800]);
    let (mut shell, outputs) = shell_with(tree);
    let mut grab = grab_at(&root, Orientation::Vertical);
    let unset = grab.motion(&outputs, &mut shell, &motion_to(-300, 0));
    assert!(!unset);
    let sizes = current_sizes(&shell, &root);
    // the left pane clamps to its floor; the pair's total is conserved
    assert_eq!(sizes, vec![360, 840]);
    assert_eq!(sizes[0] + sizes[1], 1200);
}

#[test]
fn successive_drags_accumulate() {
    let (tree, root, _kids) = group_tree(Orientation::Vertical, vec![500, 500]);
    let (mut shell, outputs) = shell_with(tree);
    let mut grab = grab_at(&root, Orientation::Vertical);
    assert!(!grab.motion(&outputs, &mut shell, &motion_to(30, 0)));
    assert!(!grab.motion(&outputs, &mut shell, &motion_to(70, 0)));
    assert_eq!(current_sizes(&shell, &root), vec![570, 430]);
}

#[test]
fn combined_floor_boundary_is_inclusive() {
    // sum exactly at the floor, unevenly split: still vetoed
    let (tree, root, _kids) = group_tree(Orientation::Vertical, vec![460, 260]);
    let (mut shell, outputs) = shell_with(tree);
    let mut grab = grab_at(&root, Orientation::Vertical);
    let unset = grab.motion(&outputs, &mut shell, &motion_to(-200, 0));
    assert!(!unset);
    assert_eq!(current_sizes(&shell, &root), vec![460, 260]);
    assert!(shell.layers[0].1.pending_blockers.is_empty());
}

#[test]
fn inner_boundary_resizes_middle_pair() {
    let (tree, root, _kids) = group_tree(Orientation::Vertical, vec![500, 500, 500]);
    let (mut shell, outputs) = shell_with(tree);
    let mut grab = grab_at(&root, Orientation::Vertical);
    grab.left_up_idx = 1;
    let unset = grab.motion(&outputs, &mut shell, &motion_to(40, 0));
    assert!(!unset);
    assert_eq!(current_sizes(&shell, &root), vec![500, 540, 460]);
    assert_eq!(
        shell.layers[0].1.pending_blockers,
        vec![Blocker { output: OUT, child: 1 }, Blocker { output: OUT, child: 2 }]
    );
}

#[test]
fn zero_delta_lifts_a_pane_already_below_floor() {
    // a pane below its floor is raised onto it even by a zero delta, which is
    // why the no-op law assumes both panes respect their floors
    let (tree, root, _kids) = group_tree(Orientation::Vertical, vec![100, 1000]);
    let (mut shell, outputs) = shell_with(tree);
    let mut grab = grab_at(&root, Orientation::Vertical);
    let unset = grab.motion(&outputs, &mut shell, &motion_to(0, 0));
    assert!(!unset);
    assert_eq!(current_sizes(&shell, &root), vec![360, 740]);
}
