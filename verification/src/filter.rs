//! The workspace allow-list filter.
//!
//! When the allow-list is non-empty, the rule runs only while the focused
//! workspace's name is on the list; with an empty list it runs everywhere.

use vstd::prelude::*;

verus! {

/// What the filter reads of one workspace: its name and whether it is the
/// focused one.
pub struct WorkspaceInfo {
    pub name: String,
    pub focused: bool,
}

/// The name of the first focused workspace of a list, if any.
pub open spec fn focused_name_spec(s: Seq<WorkspaceInfo>) -> Option<Seq<char>>
    decreases s.len(),
{
    if s.len() == 0 {
        Option::None
    } else if s[0].focused {
        Option::Some(s[0].name@)
    } else {
        focused_name_spec(s.drop_first())
    }
}

/// Workspaces that are all unfocused can be skipped without changing the
/// result of the search.
proof fn lemma_focused_name_skip(s: Seq<WorkspaceInfo>, i: int)
    requires
        0 <= i <= s.len(),
        forall|j: int| 0 <= j < i ==> !(#[trigger] s[j]).focused,
    ensures
        focused_name_spec(s) == focused_name_spec(s.subrange(i, s.len() as int)),
    decreases i,
{
    if i == 0 {
        assert(s.subrange(0, s.len() as int) =~= s);
    } else {
        assert(forall|j: int|
            0 <= j < s.drop_first().len() ==> #[trigger] s.drop_first()[j] == s[j + 1]);
        lemma_focused_name_skip(s.drop_first(), i - 1);
        assert(s.drop_first().subrange(i - 1, s.drop_first().len() as int)
            =~= s.subrange(i, s.len() as int));
        assert(!s[0].focused);
    }
}

/// Finds the name of the currently focused workspace, if any.
pub fn focused_workspace_name(list: &Vec<WorkspaceInfo>) -> (r: Option<String>)
    ensures
        match r {
            Some(n) => focused_name_spec(list@) == Some(n@),
            None => focused_name_spec(list@) is None,
        },
{
    let mut i: usize = 0;
    while i < list.len()
        invariant
            0 <= i <= list@.len(),
            forall|j: int| 0 <= j < i ==> !(#[trigger] list@[j]).focused,
        decreases list@.len() - i,
    {
        if list[i].focused {
            proof {
                lemma_focused_name_skip(list@, i as int);
            }
            return Option::Some(list[i].name.clone());
        }
        i += 1;
    }
    proof {
        lemma_focused_name_skip(list@, list@.len() as int);
    }
    Option::None
}

/// Whether a workspace name is on the list, compared character for
/// character.
pub open spec fn list_contains(allow: Seq<String>, name: Seq<char>) -> bool {
    exists|i: int| 0 <= i < allow.len() && allow[i]@ == name
}

/// Whether the rule may run: the list is empty, or the focused workspace is
/// known and its name is on the list.
pub open spec fn allows_spec(allow: Seq<String>, focused: Option<String>) -> bool {
    ||| allow.len() == 0
    ||| (focused matches Some(name) && list_contains(allow, name@))
}

/// Decides whether the rule may run under this allow-list, given the name
/// of the currently focused workspace (`None` when none is focused).
pub fn workspace_allowed(allow: &Vec<String>, focused: &Option<String>) -> (r: bool)
    ensures
        r == allows_spec(allow@, *focused),
{
    if allow.len() == 0 {
        return true;
    }
    let name = match focused {
        Option::Some(n) => n,
        Option::None => {
            return false;
        },
    };
    let mut i: usize = 0;
    while i < allow.len()
        invariant
            0 <= i <= allow@.len(),
            *focused matches Some(n) && n@ == name@,
            forall|j: int| 0 <= j < i ==> (#[trigger] allow@[j])@ != name@,
        decreases allow@.len() - i,
    {
        if allow[i] == *name {
            proof {
                assert(list_contains(allow@, name@)) by {
                    assert(allow@[i as int]@ == name@);
                }
            }
            return true;
        }
        i += 1;
    }
    false
}

} // verus!
