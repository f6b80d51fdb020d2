use autotiling::decision::{
    compute_desired_layout, decide, decide_filtered, layout_command, should_skip,
};
use autotiling::ratio::Ratio;
use autotiling::tree::{Layout, Node, NodeKind, Rect};

fn rect(width: i32, height: i32) -> Rect {
    Rect {
        x: 0,
        y: 0,
        width,
        height,
    }
}

fn leaf(width: i32, height: i32, focused: bool) -> Node {
    Node {
        rect: rect(width, height),
        layout: Layout::Other,
        kind: NodeKind::Tiled,
        focused,
        fullscreen: false,
        nodes: Vec::new(),
    }
}

fn parent(layout: Layout, children: Vec<Node>) -> Node {
    Node {
        rect: rect(1920, 1080),
        layout,
        kind: NodeKind::Tiled,
        focused: false,
        fullscreen: false,
        nodes: children,
    }
}

fn ratio_1_1() -> Ratio {
    Ratio::new(1, 1).unwrap()
}

#[test]
fn tall_window_wants_vertical() {
    let r = compute_desired_layout(&rect(100, 200), &ratio_1_1());
    assert_eq!(r, Layout::SplitV);
}

#[test]
fn wide_window_wants_horizontal() {
    let r = compute_desired_layout(&rect(200, 100), &ratio_1_1());
    assert_eq!(r, Layout::SplitH);
}

#[test]
fn square_window_wants_horizontal() {
    // height > width / ratio is strict, so a square stays horizontal.
    let r = compute_desired_layout(&rect(150, 150), &ratio_1_1());
    assert_eq!(r, Layout::SplitH);
}

#[test]
fn golden_ratio_wide_window_wants_horizontal() {
    // width 200, height 100, ratio 1.618: 100 > 200 / 1.618 is false.
    let golden = Ratio::new(1618, 1000).unwrap();
    let r = compute_desired_layout(&rect(200, 100), &golden);
    assert_eq!(r, Layout::SplitH);
}

#[test]
fn golden_ratio_slightly_tall_window_wants_vertical() {
    // width 200, height 130, ratio 1.618: 130 * 1618 > 200 * 1000.
    let golden = Ratio::new(1618, 1000).unwrap();
    let r = compute_desired_layout(&rect(200, 130), &golden);
    assert_eq!(r, Layout::SplitV);
}

#[test]
fn ratio_rejects_zero_denominator() {
    assert!(Ratio::new(1, 0).is_none());
    assert!(Ratio::new(0, 1).is_some());
}

#[test]
fn zero_numerator_always_horizontal() {
    // ratio 0/1 never lets height exceed the threshold.
    let zero = Ratio::new(0, 1).unwrap();
    let r = compute_desired_layout(&rect(10, 10_000), &zero);
    assert_eq!(r, Layout::SplitH);
}

#[test]
fn tall_focus_in_horizontal_parent_issues_vertical() {
    let tree = parent(Layout::SplitH, vec![leaf(100, 200, true)]);
    assert_eq!(decide(&tree, &ratio_1_1()), Some(Layout::SplitV));
}

#[test]
fn tall_focus_in_vertical_parent_is_quiet() {
    // The parent already has the desired layout: no command.
    let tree = parent(Layout::SplitV, vec![leaf(100, 200, true)]);
    assert_eq!(decide(&tree, &ratio_1_1()), None);
}

#[test]
fn wide_focus_in_horizontal_parent_is_quiet() {
    let tree = parent(Layout::SplitH, vec![leaf(200, 100, true)]);
    assert_eq!(decide(&tree, &ratio_1_1()), None);
}

#[test]
fn wide_focus_in_vertical_parent_issues_horizontal() {
    let tree = parent(Layout::SplitV, vec![leaf(200, 100, true)]);
    assert_eq!(decide(&tree, &ratio_1_1()), Some(Layout::SplitH));
}

#[test]
fn no_focused_node_is_quiet() {
    let tree = parent(Layout::SplitH, vec![leaf(100, 200, false)]);
    assert_eq!(decide(&tree, &ratio_1_1()), None);
}

#[test]
fn empty_tree_is_quiet() {
    let tree = parent(Layout::SplitH, Vec::new());
    assert_eq!(decide(&tree, &ratio_1_1()), None);
}

#[test]
fn focused_node_found_deep_in_tree() {
    let inner = parent(Layout::SplitH, vec![leaf(100, 200, true)]);
    let tree = parent(Layout::SplitV, vec![leaf(500, 500, false), inner]);
    assert_eq!(decide(&tree, &ratio_1_1()), Some(Layout::SplitV));
}

#[test]
fn first_focused_child_wins() {
    // Two focused children: the rule reads the first one (wide), so with a
    // vertical parent it asks for horizontal.
    let tree = parent(
        Layout::SplitV,
        vec![leaf(200, 100, true), leaf(100, 200, true)],
    );
    assert_eq!(decide(&tree, &ratio_1_1()), Some(Layout::SplitH));
}

#[test]
fn floating_focus_is_quiet() {
    let mut child = leaf(100, 200, true);
    child.kind = NodeKind::Floating;
    let tree = parent(Layout::SplitH, vec![child]);
    assert_eq!(decide(&tree, &ratio_1_1()), None);
}

#[test]
fn fullscreen_focus_is_quiet() {
    let mut child = leaf(100, 200, true);
    child.fullscreen = true;
    let tree = parent(Layout::SplitH, vec![child]);
    assert_eq!(decide(&tree, &ratio_1_1()), None);
}

#[test]
fn tabbed_parent_is_quiet() {
    let tree = parent(Layout::Tabbed, vec![leaf(100, 200, true)]);
    assert_eq!(decide(&tree, &ratio_1_1()), None);
}

#[test]
fn stacked_parent_is_quiet() {
    let tree = parent(Layout::Stacked, vec![leaf(100, 200, true)]);
    assert_eq!(decide(&tree, &ratio_1_1()), None);
}

#[test]
fn should_skip_reads_parent_layout_not_child() {
    let child = leaf(100, 200, true);
    assert!(should_skip(&child, Layout::Tabbed));
    assert!(should_skip(&child, Layout::Stacked));
    assert!(!should_skip(&child, Layout::SplitH));
    assert!(!should_skip(&child, Layout::SplitV));
}

#[test]
fn workspace_outside_allow_list_is_quiet() {
    let tree = parent(Layout::SplitH, vec![leaf(100, 200, true)]);
    let allow = vec![String::from("dev"), String::from("web")];
    let focused = Some(String::from("mail"));
    assert_eq!(decide_filtered(&tree, &ratio_1_1(), &allow, &focused), None);
}

#[test]
fn workspace_on_allow_list_runs_the_rule() {
    let tree = parent(Layout::SplitH, vec![leaf(100, 200, true)]);
    let allow = vec![String::from("dev"), String::from("web")];
    let focused = Some(String::from("web"));
    assert_eq!(
        decide_filtered(&tree, &ratio_1_1(), &allow, &focused),
        Some(Layout::SplitV)
    );
}

#[test]
fn no_focused_workspace_with_allow_list_is_quiet() {
    let tree = parent(Layout::SplitH, vec![leaf(100, 200, true)]);
    let allow = vec![String::from("dev")];
    assert_eq!(decide_filtered(&tree, &ratio_1_1(), &allow, &None), None);
}

#[test]
fn empty_allow_list_runs_everywhere() {
    let tree = parent(Layout::SplitH, vec![leaf(100, 200, true)]);
    let allow: Vec<String> = Vec::new();
    let focused = Some(String::from("anything"));
    assert_eq!(
        decide_filtered(&tree, &ratio_1_1(), &allow, &focused),
        Some(Layout::SplitV)
    );
    assert_eq!(
        decide_filtered(&tree, &ratio_1_1(), &allow, &None),
        Some(Layout::SplitV)
    );
}

#[test]
fn command_text_matches_direction() {
    assert_eq!(layout_command(Layout::SplitV), "splitv");
    assert_eq!(layout_command(Layout::SplitH), "splith");
}
