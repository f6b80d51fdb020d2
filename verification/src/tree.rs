//! The window-tree snapshot that the decision rule reads.
//!
//! A `Node` holds exactly the fields the rule looks at: its rectangle, its
//! layout mode, whether it is floating, whether it is focused, whether its
//! reported size percentage exceeds one (fullscreen), and its children.
//! The searches here find the focused node's parent — the node whose direct
//! children include a focused node — and the focused child within it.

use vstd::prelude::*;

verus! {

/// A node's layout mode. Modes other than the four the rule distinguishes
/// (an output, a dock area, no layout) are `Other`.
#[derive(Clone, Copy, Debug, PartialEq, Eq, Structural)]
pub enum Layout {
    SplitH,
    SplitV,
    Tabbed,
    Stacked,
    Other,
}

/// Whether a node is a floating container or an ordinary tiled one.
#[derive(Clone, Copy, Debug, PartialEq, Eq, Structural)]
pub enum NodeKind {
    Floating,
    Tiled,
}

/// A node's rectangle, in pixels.
#[derive(Clone, Copy, Debug, PartialEq, Eq, Structural)]
pub struct Rect {
    pub x: i32,
    pub y: i32,
    pub width: i32,
    pub height: i32,
}

/// One node of the window tree.
pub struct Node {
    pub rect: Rect,
    pub layout: Layout,
    pub kind: NodeKind,
    pub focused: bool,
    /// True when the window manager reports a size percentage above one,
    /// which marks a fullscreen window.
    pub fullscreen: bool,
    pub nodes: Vec<Node>,
}

/// Whether one of `n`'s direct children is focused.
pub open spec fn has_focused_child(n: Node) -> bool {
    exists|i: int| 0 <= i < n.nodes@.len() && n.nodes@[i].focused
}

/// The focused node's parent within the subtree rooted at `n`: the first
/// node, in depth-first preorder, whose direct children include a focused
/// node; `None` when the subtree has no such node.
pub open spec fn focused_parent_of(n: Node) -> Option<Node>
    decreases n,
{
    if has_focused_child(n) {
        Some(n)
    } else {
        focused_parent_in(n.nodes@)
    }
}

/// The focused node's parent within a forest, searched in order.
pub open spec fn focused_parent_in(s: Seq<Node>) -> Option<Node>
    decreases s,
{
    if s.len() == 0 {
        None
    } else if focused_parent_of(s[0]) is Some {
        focused_parent_of(s[0])
    } else {
        focused_parent_in(s.drop_first())
    }
}

/// The first focused node of a sequence of children.
pub open spec fn first_focused(s: Seq<Node>) -> Option<Node>
    decreases s.len(),
{
    if s.len() == 0 {
        None
    } else if s[0].focused {
        Some(s[0])
    } else {
        first_focused(s.drop_first())
    }
}

/// A forest whose trees all lack a focused parent yields none overall.
proof fn lemma_focused_parent_in_none(s: Seq<Node>)
    requires
        forall|j: int| 0 <= j < s.len() ==> focused_parent_of(#[trigger] s[j]) is None,
    ensures
        focused_parent_in(s) is None,
    decreases s.len(),
{
    if s.len() > 0 {
        assert(forall|j: int|
            0 <= j < s.drop_first().len() ==> #[trigger] s.drop_first()[j] == s[j + 1]);
        lemma_focused_parent_in_none(s.drop_first());
    }
}

/// Searching a forest in order lands on the first tree that has a result.
proof fn lemma_focused_parent_in_found(s: Seq<Node>, i: int)
    requires
        0 <= i < s.len(),
        forall|j: int| 0 <= j < i ==> focused_parent_of(#[trigger] s[j]) is None,
        focused_parent_of(s[i]) is Some,
    ensures
        focused_parent_in(s) == focused_parent_of(s[i]),
    decreases i,
{
    if i > 0 {
        assert(forall|j: int|
            0 <= j < s.drop_first().len() ==> #[trigger] s.drop_first()[j] == s[j + 1]);
        lemma_focused_parent_in_found(s.drop_first(), i - 1);
    }
}

/// Children that are all unfocused can be skipped without changing the
/// first focused child.
proof fn lemma_first_focused_skip(s: Seq<Node>, i: int)
    requires
        0 <= i <= s.len(),
        forall|j: int| 0 <= j < i ==> !(#[trigger] s[j]).focused,
    ensures
        first_focused(s) == first_focused(s.subrange(i, s.len() as int)),
    decreases i,
{
    if i == 0 {
        assert(s.subrange(0, s.len() as int) =~= s);
    } else {
        assert(forall|j: int|
            0 <= j < s.drop_first().len() ==> #[trigger] s.drop_first()[j] == s[j + 1]);
        lemma_first_focused_skip(s.drop_first(), i - 1);
        assert(s.drop_first().subrange(i - 1, s.drop_first().len() as int)
            =~= s.subrange(i, s.len() as int));
        assert(!s[0].focused);
    }
}

/// A sequence holds a focused node exactly when `first_focused` finds one.
pub proof fn lemma_first_focused_some(s: Seq<Node>)
    ensures
        first_focused(s) is Some <==> exists|i: int| 0 <= i < s.len() && s[i].focused,
    decreases s.len(),
{
    if s.len() > 0 {
        lemma_first_focused_some(s.drop_first());
        if s[0].focused {
            assert(exists|i: int| 0 <= i < s.len() && s[i].focused) by {
                assert(0 <= 0 < s.len() && s[0].focused);
            }
        } else if first_focused(s.drop_first()) is Some {
            let i = choose|i: int| 0 <= i < s.drop_first().len() && s.drop_first()[i].focused;
            assert(s.drop_first()[i] == s[i + 1]);
            assert(exists|j: int| 0 <= j < s.len() && s[j].focused) by {
                assert(0 <= i + 1 < s.len() && s[i + 1].focused);
            }
        } else {
            assert forall|i: int| 0 <= i < s.len() implies !(#[trigger] s[i]).focused by {
                if i > 0 {
                    assert(s.drop_first()[i - 1] == s[i]);
                }
            }
        }
    }
}

impl Node {
    /// Reports whether one of this node's direct children is focused.
    pub fn has_focused_child(&self) -> (r: bool)
        ensures
            r == has_focused_child(*self),
    {
        let mut i: usize = 0;
        while i < self.nodes.len()
            invariant
                0 <= i <= self.nodes@.len(),
                forall|j: int| 0 <= j < i ==> !(#[trigger] self.nodes@[j]).focused,
            decreases self.nodes@.len() - i,
        {
            if self.nodes[i].focused {
                return true;
            }
            i += 1;
        }
        false
    }

    /// Finds the focused node's parent in this subtree: the first node, in
    /// depth-first preorder, whose direct children include a focused node.
    pub fn find_focused_parent(&self) -> (r: Option<&Node>)
        ensures
            match r {
                Some(p) => focused_parent_of(*self) == Some(*p),
                None => focused_parent_of(*self) is None,
            },
        decreases *self,
    {
        if self.has_focused_child() {
            return Some(self);
        }
        let mut i: usize = 0;
        while i < self.nodes.len()
            invariant
                0 <= i <= self.nodes@.len(),
                !has_focused_child(*self),
                forall|j: int|
                    0 <= j < i ==> focused_parent_of(#[trigger] self.nodes@[j]) is None,
            decreases self.nodes@.len() - i,
        {
            let found = self.nodes[i].find_focused_parent();
            if let Some(p) = found {
                proof {
                    lemma_focused_parent_in_found(self.nodes@, i as int);
                }
                return Some(p);
            }
            i += 1;
        }
        proof {
            lemma_focused_parent_in_none(self.nodes@);
        }
        None
    }

    /// Finds the first focused direct child of this node.
    pub fn find_focused_child(&self) -> (r: Option<&Node>)
        ensures
            match r {
                Some(c) => first_focused(self.nodes@) == Some(*c),
                None => first_focused(self.nodes@) is None,
            },
    {
        let mut i: usize = 0;
        while i < self.nodes.len()
            invariant
                0 <= i <= self.nodes@.len(),
                forall|j: int| 0 <= j < i ==> !(#[trigger] self.nodes@[j]).focused,
            decreases self.nodes@.len() - i,
        {
            if self.nodes[i].focused {
                proof {
                    lemma_first_focused_skip(self.nodes@, i as int);
                }
                return Some(&self.nodes[i]);
            }
            i += 1;
        }
        proof {
            lemma_first_focused_skip(self.nodes@, self.nodes@.len() as int);
        }
        None
    }
}

} // verus!
