//! The split-direction rule.
//!
//! Given a tree snapshot and the ratio threshold: find the focused node's
//! parent and the focused child within it; skip floating, fullscreen, and
//! tabbed/stacked situations; otherwise pick vertical when the child is
//! taller than `width / ratio`, horizontal otherwise; and issue a command
//! only when the parent's layout differs from the pick.

use vstd::prelude::*;

use crate::filter::{allows_spec, list_contains, workspace_allowed};
use crate::ratio::Ratio;
use crate::tree::{first_focused, focused_parent_of, Layout, Node, NodeKind, Rect};

verus! {

/// Whether the focused node is exempt from the rule: it is floating or
/// fullscreen, or its parent's layout is tabbed or stacked.
pub open spec fn skip_spec(child: Node, parent_layout: Layout) -> bool {
    ||| child.fullscreen
    ||| child.kind is Floating
    ||| parent_layout is Tabbed
    ||| parent_layout is Stacked
}

/// The layout the rule wants for a window of this rectangle: vertical when
/// `height > width / ratio`, i.e. `height * num > width * den`.
pub open spec fn desired_layout(rect: Rect, ratio: Ratio) -> Layout {
    if ratio.exceeds(rect.width as int, rect.height as int) {
        Layout::SplitV
    } else {
        Layout::SplitH
    }
}

/// The command the rule issues on one focus event, if any: `Some(layout)`
/// means "switch the split direction to `layout`", `None` means stay quiet.
pub open spec fn plan(tree: Node, ratio: Ratio) -> Option<Layout> {
    match focused_parent_of(tree) {
        Option::None => Option::None,
        Option::Some(parent) => match first_focused(parent.nodes@) {
            Option::None => Option::None,
            Option::Some(child) => {
                if skip_spec(child, parent.layout) {
                    Option::None
                } else {
                    let desired = desired_layout(child.rect, ratio);
                    if desired == parent.layout {
                        Option::None
                    } else {
                        Option::Some(desired)
                    }
                }
            },
        },
    }
}

/// Decides whether the focused node is exempt from the rule.
pub fn should_skip(child: &Node, parent_layout: Layout) -> (r: bool)
    ensures
        r == skip_spec(*child, parent_layout),
{
    child.fullscreen || matches!(child.kind, NodeKind::Floating) || matches!(
        parent_layout,
        Layout::Tabbed | Layout::Stacked,
    )
}

/// Computes the layout the rule wants for a window of this rectangle.
/// Vertical is picked exactly when `height * num > width * den`.
pub fn compute_desired_layout(rect: &Rect, ratio: &Ratio) -> (r: Layout)
    ensures
        r == desired_layout(*rect, *ratio),
        r is SplitV <==> (rect.height as int) * (ratio.num as int) > (rect.width as int) * (
        ratio.den as int),
        r is SplitV || r is SplitH,
{
    let h = rect.height as i64;
    let w = rect.width as i64;
    let num = ratio.num as i64;
    let den = ratio.den as i64;
    proof {
        assert(h * num <= i64::MAX && h * num >= i64::MIN && w * den <= i64::MAX && w * den
            >= i64::MIN) by (nonlinear_arith)
            requires
                -0x8000_0000 <= h <= 0x7fff_ffff,
                -0x8000_0000 <= w <= 0x7fff_ffff,
                0 <= num <= 0xffff_ffff,
                0 <= den <= 0xffff_ffff,
        ;
    }
    if h * num > w * den {
        Layout::SplitV
    } else {
        Layout::SplitH
    }
}

/// Runs the whole rule on one tree snapshot and returns the layout to
/// switch to, or `None` when no command should be issued.
pub fn decide(tree: &Node, ratio: &Ratio) -> (r: Option<Layout>)
    ensures
        r == plan(*tree, *ratio),
{
    let parent = match tree.find_focused_parent() {
        Option::Some(p) => p,
        Option::None => {
            return Option::None;
        },
    };
    let child = match parent.find_focused_child() {
        Option::Some(c) => c,
        Option::None => {
            return Option::None;
        },
    };
    if should_skip(child, parent.layout) {
        return Option::None;
    }
    let desired = compute_desired_layout(&child.rect, ratio);
    if desired == parent.layout {
        Option::None
    } else {
        Option::Some(desired)
    }
}

/// The command for one focus event under an allow-list: the rule's plan
/// when the list admits the focused workspace, nothing otherwise.
pub open spec fn plan_filtered(
    tree: Node,
    ratio: Ratio,
    allow: Seq<String>,
    focused_ws: Option<String>,
) -> Option<Layout> {
    if allows_spec(allow, focused_ws) {
        plan(tree, ratio)
    } else {
        Option::None
    }
}

/// Runs the rule on one focus event: applies the workspace allow-list,
/// then the split-direction rule. `focused_ws` is the name of the
/// currently focused workspace, `None` when none is focused.
pub fn decide_filtered(
    tree: &Node,
    ratio: &Ratio,
    allow: &Vec<String>,
    focused_ws: &Option<String>,
) -> (r: Option<Layout>)
    ensures
        r == plan_filtered(*tree, *ratio, allow@, *focused_ws),
{
    if workspace_allowed(allow, focused_ws) {
        decide(tree, ratio)
    } else {
        Option::None
    }
}

/// The IPC command text for a split direction.
pub fn layout_command(layout: Layout) -> (r: &'static str)
    requires
        layout is SplitV || layout is SplitH,
    ensures
        layout is SplitV ==> r@ == "splitv"@,
        layout is SplitH ==> r@ == "splith"@,
{
    if matches!(layout, Layout::SplitV) {
        "splitv"
    } else {
        "splith"
    }
}

/// With a non-empty allow-list, an event on a workspace outside the list —
/// or with no focused workspace at all — never triggers a command.
pub proof fn lemma_filtered_workspace_never_commands(
    tree: Node,
    ratio: Ratio,
    allow: Seq<String>,
    focused_ws: Option<String>,
)
    requires
        allow.len() > 0,
        !(focused_ws matches Some(name) && list_contains(allow, name@)),
    ensures
        plan_filtered(tree, ratio, allow, focused_ws) is None,
{
}

/// When the parent's layout already equals the desired one, the rule is
/// idempotent: it issues no command, so a repeat of the same focus event
/// changes nothing.
pub proof fn lemma_no_command_when_layout_matches(tree: Node, ratio: Ratio)
    requires
        focused_parent_of(tree) matches Some(parent) && first_focused(parent.nodes@) matches Some(
            child,
        ) && parent.layout == desired_layout(child.rect, ratio),
    ensures
        plan(tree, ratio) is None,
{
}

/// A floating or fullscreen focused node, or one whose parent is tabbed or
/// stacked, never triggers a command.
pub proof fn lemma_skip_never_commands(tree: Node, ratio: Ratio)
    requires
        focused_parent_of(tree) matches Some(parent) && first_focused(parent.nodes@) matches Some(
            child,
        ) && skip_spec(child, parent.layout),
    ensures
        plan(tree, ratio) is None,
{
}

} // verus!
