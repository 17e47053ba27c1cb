//! A tab container: a bar of tabs over a viewport of panels, one panel shown
//! at a time, with tabs that can be dragged along the bar.
use vstd::prelude::*;

use crate::entity::Entity;
use crate::interaction::DragState;

verus! {

/// A tab container: the index of the active child of its bar, its bar and
/// viewport, and how many tabs its bar holds.
#[derive(Clone, Copy, Debug, PartialEq, Eq, Structural)]
pub struct TabContainer {
    pub active: usize,
    pub bar: Entity,
    pub viewport: Entity,
    pub tab_count: usize,
}

impl Default for TabContainer {
    fn default() -> (c: Self)
        ensures
            c.active == 0,
            c.tab_count == 0,
            c.bar.0 == crate::entity::PLACEHOLDER_BITS,
            c.viewport.0 == crate::entity::PLACEHOLDER_BITS,
    {
        TabContainer {
            active: 0,
            bar: Entity::placeholder(),
            viewport: Entity::placeholder(),
            tab_count: 0,
        }
    }
}

impl TabContainer {
    pub fn bar_id(&self) -> (e: Entity)
        ensures
            e == self.bar,
    {
        self.bar
    }

    pub fn tab_count(&self) -> (n: usize)
        ensures
            n == self.tab_count,
    {
        self.tab_count
    }

    pub fn set_active(&mut self, active: usize)
        ensures
            *final(self) == (TabContainer { active, ..*old(self) }),
    {
        self.active = active;
    }
}

/// A tab: its container and panel, and while it is dragged, the placeholder
/// that holds its place in the bar and the index it was dragged from.
#[derive(Clone, Copy, Debug, PartialEq, Eq, Structural)]
pub struct Tab {
    pub container: Entity,
    pub panel: Entity,
    pub placeholder: Option<Entity>,
    pub original_index: Option<usize>,
}

impl Default for Tab {
    fn default() -> (t: Self)
        ensures
            t.container.0 == crate::entity::PLACEHOLDER_BITS,
            t.panel.0 == crate::entity::PLACEHOLDER_BITS,
            t.placeholder is None,
            t.original_index is None,
    {
        Tab {
            container: Entity::placeholder(),
            panel: Entity::placeholder(),
            placeholder: None,
            original_index: None,
        }
    }
}

impl Tab {
    /// Records the placeholder put in the bar for a drag that started at
    /// `index`.
    pub fn start_drag(&mut self, placeholder: Entity, index: usize)
        ensures
            *final(self) == (Tab {
                placeholder: Some(placeholder),
                original_index: Some(index),
                ..*old(self)
            }),
    {
        self.placeholder = Some(placeholder);
        self.original_index = Some(index);
    }

    /// The context menu of a tab is placed first.
    pub fn placement_index(&self) -> (i: usize)
        ensures
            i == 0,
    {
        0
    }
}

/// The bar of a tab container.
#[derive(Clone, Copy, Debug, PartialEq, Eq, Structural)]
pub struct TabBar {
    pub container: Entity,
}

impl TabBar {
    pub fn container_id(&self) -> (e: Entity)
        ensures
            e == self.container,
    {
        self.container
    }
}

impl Default for TabBar {
    fn default() -> (b: Self)
        ensures
            b.container.0 == crate::entity::PLACEHOLDER_BITS,
    {
        TabBar { container: Entity::placeholder() }
    }
}

/// The viewport of a tab container.
#[derive(Clone, Copy, Debug, PartialEq, Eq, Structural)]
pub struct TabViewport {
    pub container: Entity,
}

impl Default for TabViewport {
    fn default() -> (v: Self)
        ensures
            v.container.0 == crate::entity::PLACEHOLDER_BITS,
    {
        TabViewport { container: Entity::placeholder() }
    }
}

/// The "Close Tab" item of a tab's context menu.
#[derive(Clone, Copy, Debug, PartialEq, Eq, Structural)]
pub struct CloseTabContextMenu {
    pub tab: Entity,
}

impl Default for CloseTabContextMenu {
    fn default() -> (m: Self)
        ensures
            m.tab.0 == crate::entity::PLACEHOLDER_BITS,
    {
        CloseTabContextMenu { tab: Entity::placeholder() }
    }
}

/// The "Popout Tab" item of a tab's context menu.
#[derive(Clone, Copy, Debug, PartialEq, Eq, Structural)]
pub struct PopoutTabContextMenu {
    pub tab: Entity,
}

impl Default for PopoutTabContextMenu {
    fn default() -> (m: Self)
        ensures
            m.tab.0 == crate::entity::PLACEHOLDER_BITS,
    {
        PopoutTabContextMenu { tab: Entity::placeholder() }
    }
}

/// A child of a tab bar: its entity and whether it is a tab (a bar also holds
/// the placeholder of a dragged tab).
#[derive(Clone, Copy, Debug, PartialEq, Eq, Structural)]
pub struct BarChild {
    pub entity: Entity,
    pub is_tab: bool,
}

/// The number of tabs among the children.
pub open spec fn count_tabs(children: Seq<BarChild>) -> nat
    decreases children.len(),
{
    if children.len() == 0 {
        0
    } else {
        count_tabs(children.drop_last()) + if children.last().is_tab {
            1nat
        } else {
            0nat
        }
    }
}

proof fn lemma_count_tabs_bound(children: Seq<BarChild>)
    ensures
        count_tabs(children) <= children.len(),
    decreases children.len(),
{
    if children.len() > 0 {
        lemma_count_tabs_bound(children.drop_last());
    }
}

/// The index among the children of the last tab that is `tab`, if any.
pub open spec fn last_tab_index(children: Seq<BarChild>, tab: Entity) -> Option<int>
    decreases children.len(),
{
    if children.len() == 0 {
        None
    } else if children.last().is_tab && children.last().entity == tab {
        Some(children.len() - 1)
    } else {
        last_tab_index(children.drop_last(), tab)
    }
}

/// A press on a tab makes its place among the bar's children the active one.
pub fn update_tab_container_on_press(
    container: &mut TabContainer,
    children: &Vec<BarChild>,
    pressed: Entity,
)
    ensures
        *final(container) == (TabContainer {
            active: match last_tab_index(children@, pressed) {
                Some(i) => i as usize,
                None => old(container).active,
            },
            ..*old(container)
        }),
{
    let ghost start = *container;
    let mut i: usize = 0;
    while i < children.len()
        invariant
            i <= children.len(),
            *container == (TabContainer {
                active: match last_tab_index(children@.take(i as int), pressed) {
                    Some(k) => k as usize,
                    None => start.active,
                },
                ..start
            }),
        decreases children.len() - i,
    {
        assert(children@.take(i + 1).drop_last() =~= children@.take(i as int));
        let child = children[i];
        if child.is_tab && child.entity == pressed {
            container.active = i;
        }
        i = i + 1;
    }
    assert(children@.take(children.len() as int) =~= children@);
}

/// The active index kept for a bar with `count` tabs: an index past the tabs
/// moves to the last tab, or to 0 when there is none.
pub open spec fn constrained_active(active: usize, count: nat) -> usize {
    if active >= count {
        if count > 0 {
            (count - 1) as usize
        } else {
            0
        }
    } else {
        active
    }
}

/// Counts the bar's tabs and keeps the active index among them.
pub fn constrain_tab_container_active_tab(container: &mut TabContainer, children: &Vec<BarChild>)
    ensures
        *final(container) == (TabContainer {
            tab_count: count_tabs(children@) as usize,
            active: constrained_active(old(container).active, count_tabs(children@)),
            ..*old(container)
        }),
{
    let mut count: usize = 0;
    let mut i: usize = 0;
    while i < children.len()
        invariant
            i <= children.len(),
            count == count_tabs(children@.take(i as int)),
        decreases children.len() - i,
    {
        assert(children@.take(i + 1).drop_last() =~= children@.take(i as int));
        proof {
            lemma_count_tabs_bound(children@.take(i as int));
        }
        if children[i].is_tab {
            count = count + 1;
        }
        i = i + 1;
    }
    assert(children@.take(children.len() as int) =~= children@);
    if container.tab_count != count {
        container.tab_count = count;
    }
    if container.active >= count {
        if count > 0 {
            container.active = count - 1;
        } else {
            container.active = 0;
        }
    }
}

/// After the active index is constrained, it points inside the bar's tabs
/// (or is 0 when there are none).
pub proof fn constrained_active_in_range(active: usize, count: nat)
    requires
        count <= usize::MAX,
    ensures
        count > 0 ==> constrained_active(active, count) < count,
        count == 0 ==> constrained_active(active, 0) == 0,
        active < count ==> constrained_active(active, count) == active,
{
}

/// For each child of a bar, `None` if it is not a tab, else whether it sits
/// at the active index.
pub open spec fn shown_tabs(children: Seq<BarChild>, active: usize) -> Seq<Option<bool>> {
    Seq::new(
        children.len(),
        |i: int|
            if children[i].is_tab {
                Some(i == active)
            } else {
                None
            },
    )
}

/// Which tabs are shown after the container changed: whether the tabs react to
/// the pointer (only when there is more than one), and for each child of the
/// bar, `None` if it is not a tab, or whether the tab and its panel are shown
/// (exactly when it sits at the active index).
pub fn update_tab_container_on_change(container: &TabContainer, children: &Vec<BarChild>) -> (r: (
    bool,
    Vec<Option<bool>>,
))
    ensures
        r.0 == (count_tabs(children@) > 1),
        r.1@ == shown_tabs(children@, container.active),
{
    let mut count: usize = 0;
    let mut shown: Vec<Option<bool>> = Vec::new();
    let mut i: usize = 0;
    while i < children.len()
        invariant
            i <= children.len(),
            count == count_tabs(children@.take(i as int)),
            shown.len() == i,
            forall|j: int|
                0 <= j < i ==> #[trigger] shown@[j] == if children@[j].is_tab {
                    Some(j == container.active)
                } else {
                    None
                },
        decreases children.len() - i,
    {
        assert(children@.take(i + 1).drop_last() =~= children@.take(i as int));
        proof {
            lemma_count_tabs_bound(children@.take(i as int));
        }
        if children[i].is_tab {
            count = count + 1;
            shown.push(Some(i == container.active));
        } else {
            shown.push(None);
        }
        i = i + 1;
    }
    assert(children@.take(children.len() as int) =~= children@);
    assert(shown@ =~= shown_tabs(children@, container.active));
    (count > 1, shown)
}

/// A tab drawn on the bar after a change: the tab at the active index is
/// shown, and no other.
pub proof fn at_most_one_tab_shown(children: Seq<BarChild>, active: usize, i: int, j: int)
    requires
        0 <= i < children.len(),
        0 <= j < children.len(),
        shown_tabs(children, active)[i] == Some(true),
        shown_tabs(children, active)[j] == Some(true),
    ensures
        i == j,
        i == active,
        children[i].is_tab,
{
}

/// A child of a tab bar as a tab drag sees it: its entity, whether it is a
/// tab, whether the pointer hovers it, and whether the pointer is left of its
/// center.
#[derive(Clone, Copy, Debug, PartialEq, Eq, Structural)]
pub struct DragChild {
    pub entity: Entity,
    pub is_tab: bool,
    pub hovered: bool,
    pub pointer_before: bool,
}

/// The number of tabs among the children.
pub open spec fn count_drag_tabs(children: Seq<DragChild>) -> nat
    decreases children.len(),
{
    if children.len() == 0 {
        0
    } else {
        count_drag_tabs(children.drop_last()) + if children.last().is_tab {
            1nat
        } else {
            0nat
        }
    }
}

/// The place of `tab` among the tabs of the bar (not counting other children).
pub open spec fn tab_position(children: Seq<DragChild>, tab: Entity) -> Option<int>
    decreases children.len(),
{
    if children.len() == 0 {
        None
    } else if children[0].is_tab && children[0].entity == tab {
        Some(0)
    } else {
        match tab_position(children.drop_first(), tab) {
            Some(p) => Some(
                if children[0].is_tab {
                    p + 1
                } else {
                    p
                },
            ),
            None => None,
        }
    }
}

/// The index of the first child that is `entity`.
pub open spec fn child_position(children: Seq<DragChild>, entity: Entity) -> Option<int>
    decreases children.len(),
{
    if children.len() == 0 {
        None
    } else if children[0].entity == entity {
        Some(0)
    } else {
        match child_position(children.drop_first(), entity) {
            Some(p) => Some(p + 1),
            None => None,
        }
    }
}

/// Where the placeholder of a dragged tab moves, scanning the children from
/// `i` on with the placeholder last seen at `ph` (the number of children if
/// not seen yet): the first hovered child decides, the placeholder going before
/// it when the pointer is left of its center and after it otherwise, one place
/// less when the placeholder stood before it.
pub open spec fn placeholder_target(
    children: Seq<DragChild>,
    dragged: Entity,
    placeholder: Entity,
    i: int,
    ph: int,
) -> Option<int>
    decreases children.len() - i,
{
    if i < 0 || i >= children.len() {
        None
    } else if children[i].entity == dragged {
        placeholder_target(children, dragged, placeholder, i + 1, ph)
    } else if children[i].entity == placeholder {
        placeholder_target(children, dragged, placeholder, i + 1, i)
    } else if children[i].hovered {
        Some(
            if children[i].pointer_before {
                if i < ph {
                    i
                } else {
                    i - 1
                }
            } else {
                if i + 1 < ph {
                    i + 1
                } else {
                    i
                }
            },
        )
    } else {
        placeholder_target(children, dragged, placeholder, i + 1, ph)
    }
}

/// What a drag of a tab asks of the bar.
#[derive(Clone, Copy, Debug, PartialEq, Eq, Structural)]
pub enum TabDragAction {
    /// Nothing to do.
    Ignore,
    /// The drag started: a placeholder goes in at `tab_index` among the bar's
    /// children, the tab leaves the flow, and the other tabs stop reacting.
    Start { tab_index: usize },
    /// The drag started on a tab that is not among the bar's tabs: the other
    /// tabs stop reacting, and nothing else is done.
    StopOthers,
    /// The tab follows the pointer; the placeholder moves to `to` if some.
    Move { to: Option<usize> },
    /// The drag ended: the other tabs react again, the tab goes in at `index`
    /// (where its placeholder stood) and the placeholder is removed.
    Drop { placeholder: Entity, index: usize },
    /// The drag was cancelled: the other tabs react again, the tab goes back
    /// to `index` and the placeholder is removed.
    Cancel { placeholder: Entity, index: usize },
    /// The drag ended or was cancelled but the tab's placeholder is missing:
    /// the other tabs only react again.
    Release,
}

/// The action of a drag state on a bar, given whether the pointer moved this
/// frame (a movement and a position are known) and the dragged tab's record.
pub open spec fn tab_drag_action(
    state: DragState,
    pointer_moved: bool,
    tab: Tab,
    children: Seq<DragChild>,
    dragged: Entity,
) -> TabDragAction {
    if count_drag_tabs(children) < 2 {
        TabDragAction::Ignore
    } else {
        match state {
            DragState::DragStart => match tab_position(children, dragged) {
                Some(p) => TabDragAction::Start { tab_index: p as usize },
                None => TabDragAction::StopOthers,
            },
            DragState::Dragging => if !pointer_moved {
                TabDragAction::Ignore
            } else {
                match tab.placeholder {
                    Some(ph) => TabDragAction::Move {
                        to: match placeholder_target(
                            children,
                            dragged,
                            ph,
                            0,
                            children.len() as int,
                        ) {
                            Some(k) => Some(k as usize),
                            None => None,
                        },
                    },
                    None => TabDragAction::Ignore,
                }
            },
            DragState::DragEnd => match tab.placeholder {
                Some(ph) => match child_position(children, ph) {
                    Some(k) => TabDragAction::Drop { placeholder: ph, index: k as usize },
                    None => TabDragAction::Release,
                },
                None => TabDragAction::Release,
            },
            DragState::DragCanceled => match tab.placeholder {
                Some(ph) => TabDragAction::Cancel {
                    placeholder: ph,
                    index: match tab.original_index {
                        Some(k) => k,
                        None => 0,
                    },
                },
                None => TabDragAction::Release,
            },
            _ => TabDragAction::Ignore,
        }
    }
}

/// The dragged tab's record after the action: a drop or a cancel forgets the
/// placeholder and the initial index.
pub open spec fn tab_after_drag(tab: Tab, action: TabDragAction) -> Tab {
    match action {
        TabDragAction::Drop { .. } | TabDragAction::Cancel { .. } => Tab {
            placeholder: None,
            original_index: None,
            ..tab
        },
        _ => tab,
    }
}

proof fn lemma_tab_position(children: Seq<DragChild>, tab: Entity, i: int, seen: int)
    requires
        0 <= i <= children.len(),
        seen == count_drag_tabs(children.take(i)),
        forall|j: int| 0 <= j < i ==> !(children[j].is_tab && children[j].entity == tab),
    ensures
        tab_position(children, tab) == match tab_position(children.skip(i), tab) {
            Some(p) => Some(p + seen),
            None => None,
        },
    decreases i,
{
    if i > 0 {
        let rest = children.drop_first();
        assert(children.take(i).drop_last() =~= children.take(i - 1));
        lemma_count_first(children.take(i));
        assert(children.take(i).drop_first() =~= rest.take(i - 1));
        lemma_tab_position(rest, tab, i - 1, count_drag_tabs(rest.take(i - 1)) as int);
        assert(rest.skip(i - 1) =~= children.skip(i));
    } else {
        assert(children.skip(0) =~= children);
    }
}

proof fn lemma_count_first(children: Seq<DragChild>)
    requires
        children.len() > 0,
    ensures
        count_drag_tabs(children) == count_drag_tabs(children.drop_first()) + if children[0].is_tab {
            1nat
        } else {
            0nat
        },
    decreases children.len(),
{
    if children.len() > 1 {
        let dl = children.drop_last();
        let df = children.drop_first();
        assert(dl.drop_first() =~= df.drop_last());
        assert(df.last() == children.last());
        assert(dl[0] == children[0]);
        lemma_count_first(dl);
        assert(count_drag_tabs(children) == count_drag_tabs(dl) + if children.last().is_tab {
            1nat
        } else {
            0nat
        });
        assert(count_drag_tabs(df) == count_drag_tabs(df.drop_last()) + if df.last().is_tab {
            1nat
        } else {
            0nat
        });
    } else {
        assert(children.drop_first().len() == 0);
        assert(children.drop_last().len() == 0);
        assert(count_drag_tabs(children.drop_first()) == 0);
        assert(count_drag_tabs(children.drop_last()) == 0);
        assert(children.last() == children[0]);
    }
}

proof fn lemma_count_drag_tabs_bound(children: Seq<DragChild>)
    ensures
        count_drag_tabs(children) <= children.len(),
    decreases children.len(),
{
    if children.len() > 0 {
        lemma_count_drag_tabs_bound(children.drop_last());
    }
}

proof fn lemma_child_position(children: Seq<DragChild>, entity: Entity, i: int)
    requires
        0 <= i <= children.len(),
        forall|j: int| 0 <= j < i ==> children[j].entity != entity,
    ensures
        child_position(children, entity) == match child_position(children.skip(i), entity) {
            Some(p) => Some(p + i),
            None => None,
        },
    decreases i,
{
    if i > 0 {
        lemma_child_position(children.drop_first(), entity, i - 1);
        assert(children.drop_first().skip(i - 1) =~= children.skip(i));
    } else {
        assert(children.skip(0) =~= children);
    }
}

/// Wherever the placeholder moves, it moves to a place inside the bar.
pub proof fn placeholder_target_in_bar(
    children: Seq<DragChild>,
    dragged: Entity,
    placeholder: Entity,
    i: int,
    ph: int,
)
    requires
        0 <= i,
        ph == children.len() || (0 <= ph < i),
    ensures
        placeholder_target(children, dragged, placeholder, i, ph) matches Some(k) ==> 0 <= k
            < children.len(),
    decreases children.len() - i,
{
    if i < children.len() {
        if children[i].entity == dragged {
            placeholder_target_in_bar(children, dragged, placeholder, i + 1, ph);
        } else if children[i].entity == placeholder {
            placeholder_target_in_bar(children, dragged, placeholder, i + 1, i);
        } else if !children[i].hovered {
            placeholder_target_in_bar(children, dragged, placeholder, i + 1, ph);
        }
    }
}

/// Decides what a drag of the tab `dragged` asks of its bar, and clears the
/// tab's drag record when the tab is dropped or the drag cancelled. A
/// dragging frame in which the pointer did not move (`pointer_moved` false)
/// asks nothing.
#[verifier::loop_isolation(false)]
pub fn handle_tab_dragging(
    state: DragState,
    pointer_moved: bool,
    tab: &mut Tab,
    children: &Vec<DragChild>,
    dragged: Entity,
) -> (action: TabDragAction)
    ensures
        action == tab_drag_action(state, pointer_moved, *old(tab), children@, dragged),
        *final(tab) == tab_after_drag(*old(tab), action),
{
    let n = children.len();
    let mut count: usize = 0;
    let mut i: usize = 0;
    while i < n
        invariant
            n == children.len(),
            i <= n,
            count == count_drag_tabs(children@.take(i as int)),
        decreases n - i,
    {
        assert(children@.take(i + 1).drop_last() =~= children@.take(i as int));
        proof {
            lemma_count_drag_tabs_bound(children@.take(i as int));
        }
        if children[i].is_tab {
            count = count + 1;
        }
        i = i + 1;
    }
    assert(children@.take(n as int) =~= children@);
    if count < 2 {
        return TabDragAction::Ignore;
    }
    match state {
        DragState::DragStart => {
            let mut seen: usize = 0;
            let mut i: usize = 0;
            assert(children@.take(0) =~= Seq::<DragChild>::empty());
            while i < n
                invariant
                    n == children.len(),
                    i <= n,
                    seen == count_drag_tabs(children@.take(i as int)),
                    *tab == *old(tab),
                    forall|j: int|
                        0 <= j < i ==> !(children@[j].is_tab && children@[j].entity == dragged),
                decreases n - i,
            {
                let child = children[i];
                proof {
                    lemma_tab_position(children@, dragged, i as int, seen as int);
                    assert(children@.skip(i as int)[0] == child);
                    assert(children@.skip(i as int).drop_first() =~= children@.skip(i + 1));
                    assert(children@.take(i + 1).drop_last() =~= children@.take(i as int));
                    lemma_count_drag_tabs_bound(children@.take(i as int));
                }
                if child.is_tab && child.entity == dragged {
                    return TabDragAction::Start { tab_index: seen };
                }
                if child.is_tab {
                    seen = seen + 1;
                }
                i = i + 1;
            }
            proof {
                lemma_tab_position(children@, dragged, n as int, seen as int);
            }
            TabDragAction::StopOthers
        },
        DragState::Dragging => {
            if !pointer_moved {
                return TabDragAction::Ignore;
            }
            let placeholder = match tab.placeholder {
                Some(ph) => ph,
                None => {
                    return TabDragAction::Ignore;
                },
            };
            let mut ph: usize = n;
            let mut i: usize = 0;
            while i < n
                invariant
                    n == children.len(),
                    i <= n,
                    ph == n || ph < i,
                    placeholder_target(children@, dragged, placeholder, 0, n as int)
                        == placeholder_target(children@, dragged, placeholder, i as int, ph as int),
                decreases n - i,
            {
                let child = children[i];
                if child.entity == dragged {
                } else if child.entity == placeholder {
                    ph = i;
                } else if child.hovered {
                    let index = if child.pointer_before {
                        if i < ph {
                            i
                        } else {
                            i - 1
                        }
                    } else {
                        if i + 1 < ph {
                            i + 1
                        } else {
                            i
                        }
                    };
                    return TabDragAction::Move { to: Some(index) };
                }
                i = i + 1;
            }
            TabDragAction::Move { to: None }
        },
        DragState::DragEnd => {
            let placeholder = match tab.placeholder {
                Some(ph) => ph,
                None => {
                    return TabDragAction::Release;
                },
            };
            let mut i: usize = 0;
            while i < n
                invariant
                    n == children.len(),
                    i <= n,
                    forall|j: int| 0 <= j < i ==> children@[j].entity != placeholder,
                    *tab == *old(tab),
                decreases n - i,
            {
                proof {
                    lemma_child_position(children@, placeholder, i as int);
                    assert(children@.skip(i as int)[0] == children@[i as int]);
                    assert(children@.skip(i as int).drop_first() =~= children@.skip(i + 1));
                }
                if children[i].entity == placeholder {
                    tab.placeholder = None;
                    tab.original_index = None;
                    return TabDragAction::Drop { placeholder, index: i };
                }
                i = i + 1;
            }
            proof {
                lemma_child_position(children@, placeholder, n as int);
            }
            TabDragAction::Release
        },
        DragState::DragCanceled => {
            let placeholder = match tab.placeholder {
                Some(ph) => ph,
                None => {
                    return TabDragAction::Release;
                },
            };
            let index = match tab.original_index {
                Some(k) => k,
                None => 0,
            };
            tab.placeholder = None;
            tab.original_index = None;
            TabDragAction::Cancel { placeholder, index }
        },
        _ => TabDragAction::Ignore,
    }
}


/// Whether some tab of the bar shows `panel` (tabs given as tab and panel).
pub open spec fn has_tab_for(tab_panels: Seq<(Entity, Entity)>, panel: Entity) -> bool {
    exists|i: int| 0 <= i < tab_panels.len() && (#[trigger] tab_panels[i]).1 == panel
}

/// A panel that needs a tab: one that no tab shows.
pub open spec fn untabbed(tab_panels: Seq<(Entity, Entity)>) -> spec_fn(Entity) -> Option<Entity> {
    |panel: Entity|
        if has_tab_for(tab_panels, panel) {
            None
        } else {
            Some(panel)
        }
}

/// A tab that has to go: one whose panel is no longer in the viewport.
pub open spec fn orphaned(panels: Seq<Entity>) -> spec_fn((Entity, Entity)) -> Option<Entity> {
    |tab_panel: (Entity, Entity)|
        if panels.contains(tab_panel.1) {
            None
        } else {
            Some(tab_panel.0)
        }
}

fn has_tab(tab_panels: &Vec<(Entity, Entity)>, panel: Entity) -> (r: bool)
    ensures
        r == has_tab_for(tab_panels@, panel),
{
    let mut i: usize = 0;
    while i < tab_panels.len()
        invariant
            i <= tab_panels.len(),
            forall|j: int| 0 <= j < i ==> (#[trigger] tab_panels@[j]).1 != panel,
        decreases tab_panels.len() - i,
    {
        if tab_panels[i].1 == panel {
            return true;
        }
        i = i + 1;
    }
    false
}

fn contains_entity(entities: &Vec<Entity>, entity: Entity) -> (r: bool)
    ensures
        r == entities@.contains(entity),
{
    let mut i: usize = 0;
    while i < entities.len()
        invariant
            i <= entities.len(),
            forall|j: int| 0 <= j < i ==> entities@[j] != entity,
        decreases entities.len() - i,
    {
        if entities[i] == entity {
            return true;
        }
        i = i + 1;
    }
    false
}

/// `s` with every occurrence of `e` taken out, the rest in order.
pub open spec fn without(s: Seq<Entity>, e: Entity) -> Seq<Entity>
    decreases s.len(),
{
    if s.len() == 0 {
        seq![]
    } else if s.last() == e {
        without(s.drop_last(), e)
    } else {
        without(s.drop_last(), e).push(s.last())
    }
}

/// Whether no entity occurs twice in `s`.
pub open spec fn no_repeats(s: Seq<Entity>) -> bool {
    forall|i: int, j: int| 0 <= i < s.len() && 0 <= j < s.len() && i != j ==> s[i] != s[j]
}

/// `s` with `a` replaced by `b` wherever it occurs.
pub open spec fn replaced(s: Seq<Entity>, a: Entity, b: Entity) -> Seq<Entity> {
    s.map_values(|x: Entity| if x == a { b } else { x })
}

/// The children of a bar after `e` is put at `index` among them: bevy's
/// `insert_children` first takes `e` out of the children, then inserts it.
pub open spec fn insert_child(bar: Seq<Entity>, index: int, e: Entity) -> Seq<Entity> {
    without(bar, e).insert(index, e)
}

/// Whether `index` is a place `e` can be put at among the children (bevy
/// panics past the end).
pub open spec fn fits_child(bar: Seq<Entity>, index: int, e: Entity) -> bool {
    0 <= index <= without(bar, e).len()
}

/// Whether the bar can take the action of a drag of `tab`; `placeholder` is
/// the placeholder spawned at the start of the drag.
pub open spec fn drag_action_fits(
    bar: Seq<Entity>,
    tab: Entity,
    placeholder: Entity,
    action: TabDragAction,
) -> bool {
    match action {
        TabDragAction::Start { tab_index } => fits_child(bar, tab_index as int, placeholder),
        TabDragAction::Move { to: Some(k) } => fits_child(bar, k as int, placeholder),
        TabDragAction::Drop { placeholder: _, index } => fits_child(bar, index as int, tab),
        TabDragAction::Cancel { placeholder: ph, index } => fits_child(
            without(bar, ph),
            index as int,
            tab,
        ),
        _ => true,
    }
}

/// The bar's children after the action of a drag of `tab`: a start puts the
/// placeholder at the tab's index, a move puts it at its new place, a drop
/// puts the tab at the placeholder's index and then removes the placeholder,
/// and a cancel removes the placeholder and then puts the tab back at its
/// initial index. Every other action leaves the children as they are.
pub open spec fn bar_after_drag(
    bar: Seq<Entity>,
    tab: Entity,
    placeholder: Entity,
    action: TabDragAction,
) -> Seq<Entity> {
    match action {
        TabDragAction::Start { tab_index } => insert_child(bar, tab_index as int, placeholder),
        TabDragAction::Move { to: Some(k) } => insert_child(bar, k as int, placeholder),
        TabDragAction::Drop { placeholder: ph, index } => without(
            insert_child(bar, index as int, tab),
            ph,
        ),
        TabDragAction::Cancel { placeholder: ph, index } => insert_child(
            without(bar, ph),
            index as int,
            tab,
        ),
        _ => bar,
    }
}

/// `bar` without `e`.
fn without_entity(bar: &Vec<Entity>, e: Entity) -> (r: Vec<Entity>)
    ensures
        r@ == without(bar@, e),
{
    let mut r: Vec<Entity> = Vec::new();
    let mut i: usize = 0;
    while i < bar.len()
        invariant
            i <= bar.len(),
            r@ == without(bar@.take(i as int), e),
        decreases bar.len() - i,
    {
        assert(bar@.take(i + 1).drop_last() =~= bar@.take(i as int));
        if bar[i] != e {
            r.push(bar[i]);
        }
        i = i + 1;
    }
    assert(bar@.take(bar.len() as int) =~= bar@);
    r
}

/// `bar` with `e` put at `index`.
fn put_child(bar: &Vec<Entity>, index: usize, e: Entity) -> (r: Vec<Entity>)
    requires
        fits_child(bar@, index as int, e),
    ensures
        r@ == insert_child(bar@, index as int, e),
{
    let mut r = without_entity(bar, e);
    r.insert(index, e);
    r
}

/// Applies the action of a drag of `tab` to its bar's children (see
/// `bar_after_drag`); `placeholder` is the placeholder spawned for a start,
/// or the tab's placeholder for a move.
pub fn apply_tab_drag_action(
    bar: &Vec<Entity>,
    tab: Entity,
    placeholder: Entity,
    action: TabDragAction,
) -> (r: Vec<Entity>)
    requires
        drag_action_fits(bar@, tab, placeholder, action),
    ensures
        r@ == bar_after_drag(bar@, tab, placeholder, action),
{
    match action {
        TabDragAction::Start { tab_index } => put_child(bar, tab_index, placeholder),
        TabDragAction::Move { to: Some(k) } => put_child(bar, k, placeholder),
        TabDragAction::Drop { placeholder: ph, index } => {
            let with_tab = put_child(bar, index, tab);
            without_entity(&with_tab, ph)
        },
        TabDragAction::Cancel { placeholder: ph, index } => {
            let rest = without_entity(bar, ph);
            put_child(&rest, index, tab)
        },
        _ => bar.clone(),
    }
}

proof fn lemma_without_concat(a: Seq<Entity>, b: Seq<Entity>, e: Entity)
    ensures
        without(a + b, e) == without(a, e) + without(b, e),
    decreases b.len(),
{
    if b.len() == 0 {
        assert(a + b =~= a);
        assert(without(a, e) + without(b, e) =~= without(a, e));
    } else {
        assert((a + b).drop_last() =~= a + b.drop_last());
        lemma_without_concat(a, b.drop_last(), e);
        if b.last() == e {
        } else {
            assert(without(a, e) + without(b.drop_last(), e).push(b.last()) =~= (without(a, e)
                + without(b.drop_last(), e)).push(b.last()));
        }
    }
}

proof fn lemma_without_absent(s: Seq<Entity>, e: Entity)
    requires
        !s.contains(e),
    ensures
        without(s, e) == s,
    decreases s.len(),
{
    if s.len() > 0 {
        assert(!s.drop_last().contains(e)) by {
            if s.drop_last().contains(e) {
                let i = choose|i: int| 0 <= i < s.drop_last().len() && s.drop_last()[i] == e;
                assert(s[i] == e);
            }
        }
        lemma_without_absent(s.drop_last(), e);
        assert(s.drop_last().push(s.last()) =~= s);
    }
}

proof fn lemma_without_one(x: Entity, e: Entity)
    ensures
        without(seq![x], e) == if x == e {
            seq![]
        } else {
            seq![x]
        },
{
    let d = seq![x].drop_last();
    assert(d =~= Seq::<Entity>::empty());
    assert(without(d, e) == Seq::<Entity>::empty());
    assert(Seq::<Entity>::empty().push(x) =~= seq![x]);
}

proof fn lemma_without_lacks(s: Seq<Entity>, e: Entity)
    ensures
        !without(s, e).contains(e),
    decreases s.len(),
{
    if s.len() > 0 {
        lemma_without_lacks(s.drop_last(), e);
        if s.last() != e {
            let r = without(s.drop_last(), e);
            assert forall|i: int| 0 <= i < r.push(s.last()).len() implies r.push(s.last())[i]
                != e by {
                if i < r.len() {
                    assert(r.push(s.last())[i] == r[i]);
                }
            }
        }
    }
}

/// Putting `e` into a sequence that lacks it and taking it out again gives
/// the sequence back.
proof fn lemma_without_insert(m: Seq<Entity>, k: int, e: Entity)
    requires
        !m.contains(e),
        0 <= k <= m.len(),
    ensures
        without(m.insert(k, e), e) == m,
{
    let t = m.take(k);
    let d = m.skip(k);
    assert(m.insert(k, e) =~= t + seq![e] + d);
    assert(!t.contains(e)) by {
        if t.contains(e) {
            let i = choose|i: int| 0 <= i < t.len() && t[i] == e;
            assert(m[i] == e);
        }
    }
    assert(!d.contains(e)) by {
        if d.contains(e) {
            let i = choose|i: int| 0 <= i < d.len() && d[i] == e;
            assert(m[k + i] == e);
        }
    }
    lemma_without_concat(t + seq![e], d, e);
    lemma_without_concat(t, seq![e], e);
    lemma_without_one(e, e);
    lemma_without_absent(t, e);
    lemma_without_absent(d, e);
    assert(t + seq![] + d =~= m);
}

/// Taking out an entity that stands once, at `j`, removes that place.
proof fn lemma_without_at(s: Seq<Entity>, j: int)
    requires
        no_repeats(s),
        0 <= j < s.len(),
    ensures
        without(s, s[j]) == s.remove(j),
{
    let e = s[j];
    let t = s.take(j);
    let d = s.skip(j + 1);
    assert(s =~= t + seq![e] + d);
    assert(!t.contains(e)) by {
        if t.contains(e) {
            let i = choose|i: int| 0 <= i < t.len() && t[i] == e;
            assert(s[i] == e);
        }
    }
    assert(!d.contains(e)) by {
        if d.contains(e) {
            let i = choose|i: int| 0 <= i < d.len() && d[i] == e;
            assert(s[j + 1 + i] == e);
        }
    }
    lemma_without_concat(t + seq![e], d, e);
    lemma_without_concat(t, seq![e], e);
    lemma_without_one(e, e);
    lemma_without_absent(t, e);
    lemma_without_absent(d, e);
    assert(t + seq![] + d =~= s.remove(j));
}

/// A move of the placeholder leaves the rest of the bar as it was.
pub proof fn moves_keep_the_bar(bar: Seq<Entity>, tab: Entity, placeholder: Entity, to: usize)
    requires
        fits_child(bar, to as int, placeholder),
    ensures
        without(
            bar_after_drag(bar, tab, placeholder, TabDragAction::Move { to: Some(to) }),
            placeholder,
        ) == without(bar, placeholder),
{
    lemma_without_lacks(bar, placeholder);
    lemma_without_insert(without(bar, placeholder), to as int, placeholder);
}

/// The bar's children after the placeholder moved to each place of `moves`
/// in turn (`None`: it stays).
pub open spec fn bar_after_moves(
    bar: Seq<Entity>,
    tab: Entity,
    placeholder: Entity,
    moves: Seq<Option<usize>>,
) -> Seq<Entity>
    decreases moves.len(),
{
    if moves.len() == 0 {
        bar
    } else {
        bar_after_drag(
            bar_after_moves(bar, tab, placeholder, moves.drop_last()),
            tab,
            placeholder,
            TabDragAction::Move { to: moves.last() },
        )
    }
}

proof fn lemma_moves_keep(
    bar: Seq<Entity>,
    tab: Entity,
    placeholder: Entity,
    moves: Seq<Option<usize>>,
)
    requires
        !without(bar, placeholder).contains(placeholder),
        forall|m: int|
            0 <= m < moves.len() && (#[trigger] moves[m]) is Some ==> moves[m]->0 <= without(
                bar,
                placeholder,
            ).len(),
    ensures
        without(bar_after_moves(bar, tab, placeholder, moves), placeholder) == without(
            bar,
            placeholder,
        ),
    decreases moves.len(),
{
    if moves.len() > 0 {
        let d = moves.drop_last();
        assert forall|m: int| 0 <= m < d.len() && (#[trigger] d[m]) is Some implies d[m]->0
            <= without(bar, placeholder).len() by {
            assert(d[m] == moves[m]);
        }
        lemma_moves_keep(bar, tab, placeholder, d);
        let before = bar_after_moves(bar, tab, placeholder, d);
        assert(moves[moves.len() - 1] == moves.last());
        if let Some(k) = moves.last() {
            moves_keep_the_bar(before, tab, placeholder, k);
        }
    }
}

/// A drag that starts with the tab at `index` of a bar, moves its
/// placeholder any number of times and is then cancelled leaves the bar's
/// children exactly as they were.
pub proof fn cancelled_drag_restores_bar(
    bar: Seq<Entity>,
    index: usize,
    placeholder: Entity,
    moves: Seq<Option<usize>>,
)
    requires
        no_repeats(bar),
        index < bar.len(),
        !bar.contains(placeholder),
        forall|m: int|
            0 <= m < moves.len() && (#[trigger] moves[m]) is Some ==> moves[m]->0 <= bar.len(),
    ensures
        ({
            let tab = bar[index as int];
            let started = bar_after_drag(
                bar,
                tab,
                placeholder,
                TabDragAction::Start { tab_index: index },
            );
            let moved = bar_after_moves(started, tab, placeholder, moves);
            let cancel = TabDragAction::Cancel { placeholder, index };
            &&& drag_action_fits(bar, tab, placeholder, TabDragAction::Start { tab_index: index })
            &&& drag_action_fits(moved, tab, placeholder, cancel)
            &&& bar_after_drag(moved, tab, placeholder, cancel) == bar
        }),
{
    let tab = bar[index as int];
    lemma_without_absent(bar, placeholder);
    let started = bar_after_drag(bar, tab, placeholder, TabDragAction::Start { tab_index: index });
    assert(started == bar.insert(index as int, placeholder));
    lemma_without_insert(bar, index as int, placeholder);
    lemma_without_lacks(started, placeholder);
    lemma_moves_keep(started, tab, placeholder, moves);
    let moved = bar_after_moves(started, tab, placeholder, moves);
    assert(without(moved, placeholder) == bar);
    lemma_without_at(bar, index as int);
    assert(bar.remove(index as int).insert(index as int, tab) =~= bar);
}

/// The entities of a bar's children, in order.
pub open spec fn drag_entities(children: Seq<DragChild>) -> Seq<Entity> {
    children.map_values(|c: DragChild| c.entity)
}

/// The bar's children after a run of dragging frames of the tab `dragged`,
/// whose record is `tab`: frame `i` sees the children `frames[i]`, and the
/// pointer moved in it when `moved[i]`. Each frame's action (see
/// `tab_drag_action`) is applied in turn (see `bar_after_drag`).
pub open spec fn bar_after_dragging_frames(
    bar: Seq<Entity>,
    tab: Tab,
    frames: Seq<Seq<DragChild>>,
    moved: Seq<bool>,
    dragged: Entity,
    placeholder: Entity,
) -> Seq<Entity>
    decreases frames.len(),
{
    if frames.len() == 0 || moved.len() < frames.len() {
        bar
    } else {
        bar_after_drag(
            bar_after_dragging_frames(bar, tab, frames.drop_last(), moved, dragged, placeholder),
            dragged,
            placeholder,
            tab_drag_action(DragState::Dragging, moved[frames.len() - 1], tab, frames.last(), dragged),
        )
    }
}

proof fn lemma_all_tabs_count(children: Seq<DragChild>)
    requires
        forall|i: int| 0 <= i < children.len() ==> (#[trigger] children[i]).is_tab,
    ensures
        count_drag_tabs(children) == children.len(),
    decreases children.len(),
{
    if children.len() > 0 {
        let d = children.drop_last();
        assert forall|i: int| 0 <= i < d.len() implies (#[trigger] d[i]).is_tab by {
            assert(d[i] == children[i]);
        }
        lemma_all_tabs_count(d);
    }
}

proof fn lemma_all_tabs_position(children: Seq<DragChild>, p: int)
    requires
        forall|i: int| 0 <= i < children.len() ==> (#[trigger] children[i]).is_tab,
        no_repeats(drag_entities(children)),
        0 <= p < children.len(),
    ensures
        tab_position(children, children[p].entity) == Some(p),
    decreases p,
{
    if p > 0 {
        let rest = children.drop_first();
        assert forall|i: int| 0 <= i < rest.len() implies (#[trigger] rest[i]).is_tab by {
            assert(rest[i] == children[i + 1]);
        }
        assert forall|i: int, j: int|
            0 <= i < rest.len() && 0 <= j < rest.len() && i != j implies drag_entities(rest)[i]
            != drag_entities(rest)[j] by {
            assert(drag_entities(children)[i + 1] == rest[i].entity);
            assert(drag_entities(children)[j + 1] == rest[j].entity);
        }
        assert(drag_entities(children)[0] != drag_entities(children)[p]);
        assert(rest[p - 1] == children[p]);
        lemma_all_tabs_position(rest, p - 1);
    }
}

/// Dragging frames only move the placeholder: a bar whose children other
/// than the placeholder are `rest` keeps them so.
proof fn lemma_dragging_frames_keep(
    bar: Seq<Entity>,
    tab: Tab,
    frames: Seq<Seq<DragChild>>,
    moved: Seq<bool>,
    dragged: Entity,
    placeholder: Entity,
)
    requires
        tab.placeholder == Some(placeholder),
        frames.len() <= moved.len(),
        forall|i: int|
            0 <= i < frames.len() ==> (#[trigger] frames[i]).len() <= without(bar, placeholder).len()
                + 1,
    ensures
        without(bar_after_dragging_frames(bar, tab, frames, moved, dragged, placeholder), placeholder)
            == without(bar, placeholder),
    decreases frames.len(),
{
    if frames.len() > 0 {
        let d = frames.drop_last();
        assert forall|i: int| 0 <= i < d.len() implies (#[trigger] d[i]).len() <= without(
            bar,
            placeholder,
        ).len() + 1 by {
            assert(d[i] == frames[i]);
        }
        lemma_dragging_frames_keep(bar, tab, d, moved, dragged, placeholder);
        let before = bar_after_dragging_frames(bar, tab, d, moved, dragged, placeholder);
        let f = frames.last();
        assert(f == frames[frames.len() - 1]);
        let action = tab_drag_action(DragState::Dragging, moved[frames.len() - 1], tab, f, dragged);
        if let TabDragAction::Move { to: Some(k) } = action {
            placeholder_target_in_bar(f, dragged, placeholder, 0, f.len() as int);
            moves_keep_the_bar(before, dragged, placeholder, k);
        }
    }
}

/// A cancel puts a bar whose children other than the placeholder are `rest`
/// back to `rest`, when the tab goes back to its own place there.
proof fn lemma_cancel_restores(now: Seq<Entity>, rest: Seq<Entity>, index: usize, placeholder: Entity)
    requires
        without(now, placeholder) == rest,
        no_repeats(rest),
        index < rest.len(),
    ensures
        ({
            let cancel = TabDragAction::Cancel { placeholder, index };
            &&& drag_action_fits(now, rest[index as int], placeholder, cancel)
            &&& bar_after_drag(now, rest[index as int], placeholder, cancel) == rest
        }),
{
    lemma_without_at(rest, index as int);
    assert(rest.remove(index as int).insert(index as int, rest[index as int]) =~= rest);
}

/// The cancel law over the actions `handle_tab_dragging` gives: on a bar whose
/// children are all tabs, none twice, a drag of the tab at `index` starts
/// with the placeholder at the tab's place (the record keeps that place), may
/// move the placeholder in any number of dragging frames, and when cancelled
/// puts the bar's children back exactly as they were and clears the record.
pub proof fn cancelled_tab_drag_restores_bar(
    start: Seq<DragChild>,
    index: usize,
    tab: Tab,
    placeholder: Entity,
    frames: Seq<Seq<DragChild>>,
    moved: Seq<bool>,
    end: Seq<DragChild>,
)
    requires
        forall|i: int| 0 <= i < start.len() ==> (#[trigger] start[i]).is_tab,
        start.len() >= 2,
        no_repeats(drag_entities(start)),
        index < start.len(),
        !drag_entities(start).contains(placeholder),
        frames.len() == moved.len(),
        forall|i: int| 0 <= i < frames.len() ==> (#[trigger] frames[i]).len() == start.len() + 1,
        count_drag_tabs(end) >= 2,
    ensures
        ({
            let bar = drag_entities(start);
            let dragged = start[index as int].entity;
            let started = tab_drag_action(DragState::DragStart, true, tab, start, dragged);
            let record = Tab {
                placeholder: Some(placeholder),
                original_index: Some(index),
                ..tab_after_drag(tab, started)
            };
            let during = bar_after_dragging_frames(
                bar_after_drag(bar, dragged, placeholder, started),
                record,
                frames,
                moved,
                dragged,
                placeholder,
            );
            let cancelled = tab_drag_action(DragState::DragCanceled, true, record, end, dragged);
            &&& started == TabDragAction::Start { tab_index: index }
            &&& drag_action_fits(bar, dragged, placeholder, started)
            &&& cancelled == TabDragAction::Cancel { placeholder, index }
            &&& drag_action_fits(during, dragged, placeholder, cancelled)
            &&& bar_after_drag(during, dragged, placeholder, cancelled) == bar
            &&& tab_after_drag(record, cancelled).placeholder is None
            &&& tab_after_drag(record, cancelled).original_index is None
        }),
{
    let bar = drag_entities(start);
    let dragged = start[index as int].entity;
    lemma_all_tabs_count(start);
    lemma_all_tabs_position(start, index as int);
    let started = tab_drag_action(DragState::DragStart, true, tab, start, dragged);
    assert(started == TabDragAction::Start { tab_index: index });
    let record = Tab {
        placeholder: Some(placeholder),
        original_index: Some(index),
        ..tab_after_drag(tab, started)
    };
    lemma_without_absent(bar, placeholder);
    let b1 = bar_after_drag(bar, dragged, placeholder, started);
    assert(b1 == bar.insert(index as int, placeholder));
    lemma_without_insert(bar, index as int, placeholder);
    lemma_dragging_frames_keep(b1, record, frames, moved, dragged, placeholder);
    let during = bar_after_dragging_frames(b1, record, frames, moved, dragged, placeholder);
    assert(bar[index as int] == dragged);
    assert(no_repeats(bar));
    lemma_cancel_restores(during, bar, index, placeholder);
}

/// The place of the placeholder a scan of the bar knows of when it reaches
/// `j`: its index `pp` once passed, else the end of the bar.
spec fn seen_placeholder(pp: int, j: int, n: int) -> int {
    if pp < j {
        pp
    } else {
        n
    }
}

proof fn lemma_target_walk(
    children: Seq<DragChild>,
    dragged: Entity,
    placeholder: Entity,
    pp: int,
    j: int,
    i: int,
)
    requires
        no_repeats(drag_entities(children)),
        0 <= pp < children.len(),
        children[pp].entity == placeholder,
        dragged != placeholder,
        0 <= j <= i < children.len(),
        forall|k: int|
            j <= k < i ==> !((#[trigger] children[k]).hovered && children[k].entity != dragged
                && children[k].entity != placeholder),
    ensures
        placeholder_target(
            children,
            dragged,
            placeholder,
            j,
            seen_placeholder(pp, j, children.len() as int),
        ) == placeholder_target(
            children,
            dragged,
            placeholder,
            i,
            seen_placeholder(pp, i, children.len() as int),
        ),
    decreases i - j,
{
    if j < i {
        let n = children.len() as int;
        if children[j].entity == placeholder {
            assert(drag_entities(children)[j] == drag_entities(children)[pp]);
            assert(j == pp);
        }
        if children[j].entity == dragged {
            assert(j != pp);
        }
        lemma_target_walk(children, dragged, placeholder, pp, j + 1, i);
    }
}

/// Where a dragging frame moves the placeholder: next to the first child the
/// pointer is over (other than the dragged tab and the placeholder), just
/// before it when the pointer is left of its center and just after it
/// otherwise, wherever the placeholder stood before.
pub proof fn placeholder_lands_beside_hovered_child(
    children: Seq<DragChild>,
    tab: Tab,
    dragged: Entity,
    placeholder: Entity,
    pp: int,
    i: int,
)
    requires
        no_repeats(drag_entities(children)),
        children.len() <= usize::MAX,
        count_drag_tabs(children) >= 2,
        tab.placeholder == Some(placeholder),
        0 <= pp < children.len(),
        children[pp].entity == placeholder,
        dragged != placeholder,
        0 <= i < children.len(),
        children[i].hovered,
        children[i].entity != dragged,
        children[i].entity != placeholder,
        forall|j: int|
            0 <= j < i ==> !((#[trigger] children[j]).hovered && children[j].entity != dragged
                && children[j].entity != placeholder),
    ensures
        ({
            let bar = drag_entities(children);
            let action = tab_drag_action(DragState::Dragging, true, tab, children, dragged);
            let after = bar_after_drag(bar, dragged, placeholder, action);
            let beside = children[i].entity;
            &&& action matches TabDragAction::Move { to: Some(_) }
            &&& drag_action_fits(bar, dragged, placeholder, action)
            &&& children[i].pointer_before ==> exists|q: int|
                0 <= q && q + 1 < after.len() && #[trigger] after[q] == placeholder && after[q + 1] == beside
            &&& !children[i].pointer_before ==> exists|q: int|
                0 <= q && q + 1 < after.len() && #[trigger] after[q] == beside && after[q + 1] == placeholder
        }),
{
    let n = children.len() as int;
    let bar = drag_entities(children);
    assert(seen_placeholder(pp, 0, n) == n);
    lemma_target_walk(children, dragged, placeholder, pp, 0, i);
    assert(pp != i);
    let phv = seen_placeholder(pp, i, n);
    let k = if children[i].pointer_before {
        if i < phv {
            i
        } else {
            i - 1
        }
    } else {
        if i + 1 < phv {
            i + 1
        } else {
            i
        }
    };
    assert(placeholder_target(children, dragged, placeholder, 0, n) == Some(k));
    assert(bar[pp] == placeholder);
    lemma_without_at(bar, pp);
    let m = bar.remove(pp);
    let qi = if pp < i {
        i - 1
    } else {
        i
    };
    assert(m[qi] == children[i].entity);
    assert(k as usize as int == k);
    let after = m.insert(k, placeholder);
    assert(bar_after_drag(bar, dragged, placeholder, tab_drag_action(
        DragState::Dragging,
        true,
        tab,
        children,
        dragged,
    )) == after);
    if children[i].pointer_before {
        assert(k == qi);
        assert(after[qi] == placeholder && after[qi + 1] == children[i].entity);
    } else {
        assert(k == qi + 1);
        assert(after[qi] == children[i].entity && after[qi + 1] == placeholder);
    }
}

/// Dropping a tab puts it where its placeholder stood: the bar's other
/// children keep their order, and the placeholder's place goes to the tab.
pub proof fn drop_puts_tab_at_placeholder(bar: Seq<Entity>, t: int, k: int)
    requires
        no_repeats(bar),
        bar.len() <= usize::MAX,
        0 <= t < bar.len(),
        0 <= k < bar.len(),
        t != k,
    ensures
        ({
            let tab = bar[t];
            let placeholder = bar[k];
            let drop = TabDragAction::Drop { placeholder, index: k as usize };
            &&& drag_action_fits(bar, tab, placeholder, drop)
            &&& bar_after_drag(bar, tab, placeholder, drop) == replaced(
                without(bar, tab),
                placeholder,
                tab,
            )
        }),
{
    let tab = bar[t];
    let ph = bar[k];
    lemma_without_at(bar, t);
    let m = bar.remove(t);
    let q = if k < t {
        k
    } else {
        k - 1
    };
    assert(m[q] == ph);
    assert(forall|i: int| 0 <= i < m.len() && i != q ==> m[i] != ph && m[i] != tab) by {
        assert forall|i: int| 0 <= i < m.len() && i != q implies m[i] != ph && m[i] != tab by {
            let bi = if i < t {
                i
            } else {
                i + 1
            };
            assert(m[i] == bar[bi]);
        }
    }
    let ins = m.insert(k, tab);
    assert(k as usize as int == k);
    assert(insert_child(bar, k, tab) == ins);
    if k < t {
        assert(ins =~= m.take(k) + seq![tab] + seq![ph] + m.skip(k + 1));
        lemma_without_concat(m.take(k) + seq![tab] + seq![ph], m.skip(k + 1), ph);
        lemma_without_concat(m.take(k) + seq![tab], seq![ph], ph);
        lemma_without_concat(m.take(k), seq![tab], ph);
        lemma_without_one(tab, ph);
        lemma_without_one(ph, ph);
        assert(!m.take(k).contains(ph)) by {
            if m.take(k).contains(ph) {
                let i = choose|i: int| 0 <= i < m.take(k).len() && #[trigger] m.take(k)[i] == ph;
                assert(m[i] == ph);
            }
        }
        assert(!m.skip(k + 1).contains(ph)) by {
            if m.skip(k + 1).contains(ph) {
                let i = choose|i: int| 0 <= i < m.skip(k + 1).len() && #[trigger] m.skip(k + 1)[i] == ph;
                assert(m[k + 1 + i] == ph);
            }
        }
        lemma_without_absent(m.take(k), ph);
        lemma_without_absent(m.skip(k + 1), ph);
        assert(m.take(k) + seq![tab] + seq![] + m.skip(k + 1) =~= replaced(m, ph, tab));
    } else {
        assert(ins =~= m.take(k - 1) + seq![ph] + seq![tab] + m.skip(k));
        lemma_without_concat(m.take(k - 1) + seq![ph] + seq![tab], m.skip(k), ph);
        lemma_without_concat(m.take(k - 1) + seq![ph], seq![tab], ph);
        lemma_without_concat(m.take(k - 1), seq![ph], ph);
        lemma_without_one(tab, ph);
        lemma_without_one(ph, ph);
        assert(!m.take(k - 1).contains(ph)) by {
            if m.take(k - 1).contains(ph) {
                let i = choose|i: int| 0 <= i < m.take(k - 1).len() && #[trigger] m.take(k - 1)[i] == ph;
                assert(m[i] == ph);
            }
        }
        assert(!m.skip(k).contains(ph)) by {
            if m.skip(k).contains(ph) {
                let i = choose|i: int| 0 <= i < m.skip(k).len() && #[trigger] m.skip(k)[i] == ph;
                assert(m[k + i] == ph);
            }
        }
        lemma_without_absent(m.take(k - 1), ph);
        lemma_without_absent(m.skip(k), ph);
        assert(m.take(k - 1) + seq![] + seq![tab] + m.skip(k) =~= replaced(m, ph, tab));
    }
}

/// The entity of a bar child that is a tab.
pub open spec fn tab_entity(child: BarChild) -> Option<Entity> {
    if child.is_tab {
        Some(child.entity)
    } else {
        None
    }
}

/// The tabs of a bar whose viewport lost its last panel, in order: each is
/// removed.
pub fn process_tab_viewport_content_removed(bar_children: &Vec<BarChild>) -> (tabs: Vec<Entity>)
    ensures
        tabs@ == bar_children@.filter_map(|c: BarChild| tab_entity(c)),
{
    let mut tabs: Vec<Entity> = Vec::new();
    let mut i: usize = 0;
    while i < bar_children.len()
        invariant
            i <= bar_children.len(),
            tabs@ == bar_children@.take(i as int).filter_map(|c: BarChild| tab_entity(c)),
        decreases bar_children.len() - i,
    {
        assert(bar_children@.take(i + 1).drop_last() =~= bar_children@.take(i as int));
        if bar_children[i].is_tab {
            tabs.push(bar_children[i].entity);
        }
        i = i + 1;
    }
    assert(bar_children@.take(bar_children.len() as int) =~= bar_children@);
    tabs
}

/// The panels of the viewport that no tab shows, in order: each needs a new
/// tab.
pub fn panels_without_tabs(panels: &Vec<Entity>, tab_panels: &Vec<(Entity, Entity)>) -> (r: Vec<
    Entity,
>)
    ensures
        r@ == panels@.filter_map(untabbed(tab_panels@)),
{
    let mut r: Vec<Entity> = Vec::new();
    let mut i: usize = 0;
    while i < panels.len()
        invariant
            i <= panels.len(),
            r@ == panels@.take(i as int).filter_map(untabbed(tab_panels@)),
        decreases panels.len() - i,
    {
        assert(panels@.take(i + 1).drop_last() =~= panels@.take(i as int));
        let panel = panels[i];
        if !has_tab(tab_panels, panel) {
            r.push(panel);
        }
        i = i + 1;
    }
    assert(panels@.take(panels.len() as int) =~= panels@);
    r
}

/// The tabs whose panel is no longer in the viewport, in order: each is
/// removed.
pub fn tabs_without_panels(tab_panels: &Vec<(Entity, Entity)>, panels: &Vec<Entity>) -> (r: Vec<
    Entity,
>)
    ensures
        r@ == tab_panels@.filter_map(orphaned(panels@)),
{
    let mut r: Vec<Entity> = Vec::new();
    let mut i: usize = 0;
    while i < tab_panels.len()
        invariant
            i <= tab_panels.len(),
            r@ == tab_panels@.take(i as int).filter_map(orphaned(panels@)),
        decreases tab_panels.len() - i,
    {
        assert(tab_panels@.take(i + 1).drop_last() =~= tab_panels@.take(i as int));
        let (tab, panel) = tab_panels[i];
        if !contains_entity(panels, panel) {
            r.push(tab);
        }
        i = i + 1;
    }
    assert(tab_panels@.take(tab_panels.len() as int) =~= tab_panels@);
    r
}

proof fn lemma_filter_map_keeps<A, B>(s: Seq<A>, f: spec_fn(A) -> Option<B>, i: int)
    requires
        0 <= i < s.len(),
        f(s[i]) is Some,
    ensures
        s.filter_map(f).contains(f(s[i])->0),
    decreases s.len(),
{
    if i == s.len() - 1 {
        let rest = s.drop_last().filter_map(f);
        assert((rest + seq![f(s[i])->0])[rest.len() as int] == f(s[i])->0);
    } else {
        lemma_filter_map_keeps(s.drop_last(), f, i);
        let rest = s.drop_last().filter_map(f);
        let k = choose|k: int| 0 <= k < rest.len() && rest[k] == f(s[i])->0;
        if f(s.last()) is Some {
            assert((rest + seq![f(s.last())->0])[k] == rest[k]);
        }
    }
}

/// Once new tabs are made for the panels without one and the tabs without a
/// panel are removed, every panel of the viewport has a tab, and every tab
/// that stays shows a panel of the viewport.
pub proof fn tabs_match_panels_after_change(panels: Seq<Entity>, tab_panels: Seq<(Entity, Entity)>)
    ensures
        forall|i: int|
            0 <= i < panels.len() ==> has_tab_for(tab_panels, #[trigger] panels[i])
                || panels.filter_map(untabbed(tab_panels)).contains(panels[i]),
        forall|i: int|
            0 <= i < tab_panels.len() ==> panels.contains((#[trigger] tab_panels[i]).1)
                || tab_panels.filter_map(orphaned(panels)).contains(tab_panels[i].0),
{
    assert forall|i: int|
        0 <= i < panels.len() implies has_tab_for(tab_panels, #[trigger] panels[i])
            || panels.filter_map(untabbed(tab_panels)).contains(panels[i]) by {
        if !has_tab_for(tab_panels, panels[i]) {
            lemma_filter_map_keeps(panels, untabbed(tab_panels), i);
        }
    }
    assert forall|i: int|
        0 <= i < tab_panels.len() implies panels.contains((#[trigger] tab_panels[i]).1)
            || tab_panels.filter_map(orphaned(panels)).contains(tab_panels[i].0) by {
        if !panels.contains(tab_panels[i].1) {
            lemma_filter_map_keeps(tab_panels, orphaned(panels), i);
        }
    }
}

} // verus!
