//! Whether a click is on a title bar, and whether it is on a control that
//! wants the click for itself, from the roles of the accessibility elements
//! under the pointer.

use vstd::prelude::*;
use crate::config::DEFAULT_TITLE_BAR_HEIGHT;
use crate::geometry::Point;
use crate::geometry::Rect;
use crate::monitor::in_title_band;
use crate::monitor::is_in_title_bar;
use crate::text::str_eq;

verus! {

/// How many elements of an ancestry are looked at, the clicked element
/// included.
pub const MAX_ROLE_DEPTH: usize = 10;

/// The role of an accessibility element, as far as the hit test tells
/// roles apart.
#[derive(Debug, Clone, Copy, PartialEq, Eq, Structural)]
pub enum AxRole {
    /// `AXTabGroup`: a row of tabs.
    TabGroup,
    /// `AXToolbar`.
    Toolbar,
    /// `AXStaticText`.
    StaticText,
    /// `AXImage`.
    Image,
    /// `AXButton`.
    Button,
    /// `AXRadioButton`: a tab in a tab group is one.
    RadioButton,
    /// `AXWindow`.
    Window,
    /// Any other role.
    Other,
}

impl AxRole {
    /// Whether an element of this role holds the controls under it
    /// together, so that the walk up the ancestry ends at it.
    pub open spec fn is_container(self) -> bool {
        self is TabGroup || self is Toolbar
    }

    /// Whether an element of this role is something to click on.
    pub open spec fn is_clickable(self) -> bool {
        self is StaticText || self is Image || self is Button || self is RadioButton
    }
}

/// The role that the name `name` stands for.
pub open spec fn spec_classify_role(name: Seq<char>) -> AxRole {
    if name == "AXTabGroup"@ {
        AxRole::TabGroup
    } else if name == "AXToolbar"@ {
        AxRole::Toolbar
    } else if name == "AXStaticText"@ {
        AxRole::StaticText
    } else if name == "AXImage"@ {
        AxRole::Image
    } else if name == "AXButton"@ {
        AxRole::Button
    } else if name == "AXRadioButton"@ {
        AxRole::RadioButton
    } else if name == "AXWindow"@ {
        AxRole::Window
    } else {
        AxRole::Other
    }
}

/// Tells the role of an element from the name that its `AXRole` attribute
/// holds.
pub fn classify_role(name: &str) -> (role: AxRole)
    ensures
        role == spec_classify_role(name@),
{
    if str_eq(name, "AXTabGroup") {
        AxRole::TabGroup
    } else if str_eq(name, "AXToolbar") {
        AxRole::Toolbar
    } else if str_eq(name, "AXStaticText") {
        AxRole::StaticText
    } else if str_eq(name, "AXImage") {
        AxRole::Image
    } else if str_eq(name, "AXButton") {
        AxRole::Button
    } else if str_eq(name, "AXRadioButton") {
        AxRole::RadioButton
    } else if str_eq(name, "AXWindow") {
        AxRole::Window
    } else {
        AxRole::Other
    }
}

/// How many elements of the ancestry `roles` the walk looks at.
pub open spec fn walk_len(roles: Seq<AxRole>) -> int {
    if roles.len() <= MAX_ROLE_DEPTH {
        roles.len() as int
    } else {
        MAX_ROLE_DEPTH as int
    }
}

/// Whether the element `depth` steps above the clicked one is the first
/// container that the walk up `roles` meets.
pub open spec fn is_first_container(roles: Seq<AxRole>, depth: int) -> bool {
    &&& 0 <= depth < walk_len(roles)
    &&& roles[depth].is_container()
    &&& forall|below: int| 0 <= below < depth ==> !(#[trigger] roles[below]).is_container()
}

/// Whether the walk up `roles` meets something to click on.
pub open spec fn meets_clickable(roles: Seq<AxRole>) -> bool {
    exists|depth: int| 0 <= depth < walk_len(roles) && (#[trigger] roles[depth]).is_clickable()
}

/// Whether a click on an element with the ancestry `roles` is a click on
/// an interactive tab or control.
///
/// `roles[0]` is the role of the clicked element, `roles[1]` that of its
/// parent, and so on. The first tab group or toolbar on the way up
/// decides. Under a toolbar the click is free. Under a tab group it is
/// free only where the tab group is the parent of the clicked element,
/// which is then the empty part of the tab row. With neither, the click is
/// taken where the walk meets something to click on.
pub open spec fn spec_check_interactive_tab(roles: Seq<AxRole>) -> bool {
    if exists|depth: int| is_first_container(roles, depth) {
        let depth = choose|depth: int| is_first_container(roles, depth);
        roles[depth] is TabGroup && depth != 1
    } else {
        meets_clickable(roles)
    }
}

/// The hit tester of macOS.
#[derive(Debug, Clone, Copy, PartialEq, Eq, Structural)]
pub struct MacHitTester {
    pub title_bar_height: u32,
}

impl MacHitTester {
    /// A hit tester with the default title band.
    pub fn new() -> (tester: MacHitTester)
        ensures
            tester.title_bar_height == DEFAULT_TITLE_BAR_HEIGHT,
    {
        MacHitTester { title_bar_height: DEFAULT_TITLE_BAR_HEIGHT }
    }

    /// Sets the height of the title band.
    pub fn set_title_bar_height(&mut self, height: u32)
        ensures
            final(self).title_bar_height == height,
    {
        self.title_bar_height = height;
    }

    /// Decides whether a click on an element is a click on an interactive
    /// tab or control, from the roles of the element and of those above
    /// it: `roles[0]` is the clicked element's. The ancestry ends where an
    /// element has no parent or its role cannot be read; no more than
    /// `MAX_ROLE_DEPTH` of it is looked at.
    pub fn check_interactive_tab(&self, roles: &[AxRole]) -> (interactive: bool)
        ensures
            interactive == spec_check_interactive_tab(roles@),
    {
        let mut depth: usize = 0;
        let mut found_interactive = false;
        while depth < MAX_ROLE_DEPTH && depth < roles.len()
            invariant
                depth <= walk_len(roles@),
                forall|below: int| 0 <= below < depth ==> !(#[trigger] roles@[below]).is_container(),
                found_interactive == exists|below: int|
                    0 <= below < depth && (#[trigger] roles@[below]).is_clickable(),
            decreases walk_len(roles@) - depth,
        {
            let role = roles[depth];
            match role {
                AxRole::TabGroup => {
                    proof {
                        lemma_first_container_decides(roles@, depth as int);
                    }
                    return depth != 1;
                },
                AxRole::Toolbar => {
                    proof {
                        lemma_first_container_decides(roles@, depth as int);
                    }
                    return false;
                },
                AxRole::StaticText | AxRole::Image | AxRole::Button | AxRole::RadioButton => {
                    found_interactive = true;
                },
                _ => {},
            }
            proof {
                if found_interactive {
                    let witness = if role.is_clickable() {
                        depth as int
                    } else {
                        choose|below: int|
                            0 <= below < depth && (#[trigger] roles@[below]).is_clickable()
                    };
                    assert(0 <= witness < depth + 1 && roles@[witness].is_clickable());
                }
            }
            depth += 1;
        }
        proof {
            assert forall|at: int| !is_first_container(roles@, at) by {
                if 0 <= at < walk_len(roles@) {
                    assert(!roles@[at].is_container());
                }
            }
        }
        found_interactive
    }

    /// Decides whether a click at `point` is on the title bar of a window,
    /// given the window's frame: it is where the frame is known and the
    /// point lies in its title band.
    pub fn is_title_bar_hit(&self, frame: Option<Rect>, point: Point) -> (hit: bool)
        ensures
            hit == match frame {
                Some(frame) => in_title_band(point, frame, self.title_bar_height as int),
                None => false,
            },
    {
        match frame {
            Some(frame) => is_in_title_bar(point, &frame, self.title_bar_height),
            None => false,
        }
    }

    /// Decides whether a click is on an interactive tab or control, given
    /// the ancestry of the element under the pointer, or `None` where there
    /// is no element.
    pub fn is_interactive_tab(&self, ancestry: Option<&[AxRole]>) -> (interactive: bool)
        ensures
            interactive == match ancestry {
                Some(roles) => spec_check_interactive_tab(roles@),
                None => false,
            },
    {
        match ancestry {
            Some(roles) => self.check_interactive_tab(roles),
            None => false,
        }
    }
}

/// The first container on the way up is the one that
/// `spec_check_interactive_tab` goes by.
proof fn lemma_first_container_decides(roles: Seq<AxRole>, depth: int)
    requires
        is_first_container(roles, depth),
    ensures
        spec_check_interactive_tab(roles) == (roles[depth] is TabGroup && depth != 1),
{
    let chosen = choose|at: int| is_first_container(roles, at);
    if chosen < depth {
        assert(!roles[chosen].is_container());
    }
    if depth < chosen {
        assert(!roles[depth].is_container());
    }
}

/// A walk up the ancestry of a clicked element that looks at one element at
/// a time, so that no element is read that the decision does not need.
#[derive(Debug, Clone, Copy, PartialEq, Eq, Structural)]
pub struct RoleWalk {
    /// How many elements the walk has passed.
    pub depth: usize,
    /// Whether one of them is something to click on.
    pub found_clickable: bool,
}

/// What a walk does after it has looked at an element.
#[derive(Debug, Clone, Copy, PartialEq, Eq, Structural)]
pub enum WalkStep {
    /// It goes on with the parent of the element.
    Ascend,
    /// It ends: the click is on an interactive tab or control, or is not.
    Decided(bool),
}

impl RoleWalk {
    /// The walk after it has looked at an element with the role `role`
    /// (`None` where the role cannot be read), and what it does then.
    ///
    /// A tab group or a toolbar decides, as does a role that cannot be
    /// read, and the walk ends in any case with the element that makes
    /// `MAX_ROLE_DEPTH`. It ends without a container on whether it has
    /// met something to click on.
    pub open spec fn spec_observe(self, role: Option<AxRole>) -> (RoleWalk, WalkStep) {
        if self.depth >= MAX_ROLE_DEPTH {
            (self, WalkStep::Decided(self.found_clickable))
        } else {
            match role {
                None => (self, WalkStep::Decided(self.found_clickable)),
                Some(AxRole::TabGroup) => (self, WalkStep::Decided(self.depth != 1)),
                Some(AxRole::Toolbar) => (self, WalkStep::Decided(false)),
                Some(role) => {
                    let next = RoleWalk {
                        depth: (self.depth + 1) as usize,
                        found_clickable: self.found_clickable || role.is_clickable(),
                    };
                    if next.depth >= MAX_ROLE_DEPTH {
                        (next, WalkStep::Decided(next.found_clickable))
                    } else {
                        (next, WalkStep::Ascend)
                    }
                },
            }
        }
    }

    /// A walk that starts at the clicked element.
    pub fn new() -> (walk: RoleWalk)
        ensures
            walk == (RoleWalk { depth: 0, found_clickable: false }),
    {
        RoleWalk { depth: 0, found_clickable: false }
    }

    /// Looks at the next element on the way up, of which `role` is the
    /// role, or `None` where its role cannot be read.
    pub fn observe(&mut self, role: Option<AxRole>) -> (step: WalkStep)
        ensures
            (*final(self), step) == old(self).spec_observe(role),
    {
        if self.depth >= MAX_ROLE_DEPTH {
            return WalkStep::Decided(self.found_clickable);
        }
        match role {
            None => WalkStep::Decided(self.found_clickable),
            Some(AxRole::TabGroup) => WalkStep::Decided(self.depth != 1),
            Some(AxRole::Toolbar) => WalkStep::Decided(false),
            Some(role) => {
                match role {
                    AxRole::StaticText | AxRole::Image | AxRole::Button | AxRole::RadioButton => {
                        self.found_clickable = true;
                    },
                    _ => {},
                }
                self.depth = self.depth + 1;
                if self.depth >= MAX_ROLE_DEPTH {
                    WalkStep::Decided(self.found_clickable)
                } else {
                    WalkStep::Ascend
                }
            },
        }
    }

    /// Ends the walk at an element that has no parent: the click is on an
    /// interactive control where the walk has met something to click on.
    pub fn finish(&self) -> (interactive: bool)
        ensures
            interactive == self.found_clickable,
    {
        self.found_clickable
    }
}

/// What a walk that has passed the first `at` elements of the ancestry
/// `roles` comes to when it looks at the rest of them one by one and ends
/// where they end.
pub open spec fn spec_walk(walk: RoleWalk, roles: Seq<AxRole>, at: int) -> bool
    decreases roles.len() - at,
{
    if at < 0 || at >= roles.len() {
        walk.found_clickable
    } else {
        let next = walk.spec_observe(Some(roles[at]));
        match next.1 {
            WalkStep::Decided(interactive) => interactive,
            WalkStep::Ascend => spec_walk(next.0, roles, at + 1),
        }
    }
}

/// A walk that has passed the first `at` elements of an ancestry without a
/// decision comes to what `spec_check_interactive_tab` says of the whole
/// ancestry.
proof fn lemma_walk_from(walk: RoleWalk, roles: Seq<AxRole>, at: int)
    requires
        0 <= at <= roles.len(),
        walk.depth == at,
        at < MAX_ROLE_DEPTH || at == roles.len(),
        at <= MAX_ROLE_DEPTH,
        forall|below: int| 0 <= below < at ==> !(#[trigger] roles[below]).is_container(),
        walk.found_clickable == exists|below: int|
            0 <= below < at && (#[trigger] roles[below]).is_clickable(),
    ensures
        spec_walk(walk, roles, at) == spec_check_interactive_tab(roles),
    decreases roles.len() - at,
{
    if at >= roles.len() {
        assert forall|depth: int| !is_first_container(roles, depth) by {
            if 0 <= depth < walk_len(roles) {
                assert(!roles[depth].is_container());
            }
        }
    } else {
        let role = roles[at];
        if role.is_container() {
            assert(is_first_container(roles, at));
            lemma_first_container_decides(roles, at);
        } else {
            let next = walk.spec_observe(Some(role)).0;
            if next.found_clickable {
                let witness = if role.is_clickable() {
                    at
                } else {
                    choose|below: int| 0 <= below < at && (#[trigger] roles[below]).is_clickable()
                };
                assert(0 <= witness < at + 1 && roles[witness].is_clickable());
            }
            if at + 1 >= MAX_ROLE_DEPTH {
                assert forall|depth: int| !is_first_container(roles, depth) by {
                    if 0 <= depth < walk_len(roles) {
                        assert(!roles[depth].is_container());
                    }
                }
            } else {
                lemma_walk_from(next, roles, at + 1);
            }
        }
    }
}

/// Looking at the elements of an ancestry one by one comes to the same as
/// looking at the whole ancestry: a walk that starts at the clicked element
/// decides as `spec_check_interactive_tab` does.
pub proof fn lemma_walk_decides(roles: Seq<AxRole>)
    ensures
        spec_walk(RoleWalk { depth: 0, found_clickable: false }, roles, 0)
            == spec_check_interactive_tab(roles),
{
    lemma_walk_from(RoleWalk { depth: 0, found_clickable: false }, roles, 0);
}

} // verus!
