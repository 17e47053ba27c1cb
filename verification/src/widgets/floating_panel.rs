//! Floating panels: panels that can be moved, resized, folded and closed, and
//! that are stacked by a z-index, the panel moved last on top.
use vstd::prelude::*;

use crate::context::{
    context_lookup, context_outcome, distinct_names, get_context, lemma_lookup_distinct, names_view,
};
use crate::entity::Entity;
use crate::interaction::{DragState, FluxInteraction, FocusPolicy};
use crate::widgets::scroll_container::ScrollAxis;

verus! {

pub const MIN_FLOATING_PANEL_Z_INDEX: usize = 1000;
pub const PRIORITY_FLOATING_PANEL_Z_INDEX: usize = 10000;

pub const TITLE_CONTAINER: &'static str = "TitleContainer";
pub const TITLE: &'static str = "Title";
pub const FOLD_BUTTON: &'static str = "FoldButton";

/// The context names of a floating panel's nodes.
pub open spec fn floating_panel_context_names() -> Seq<Seq<char>> {
    seq!["TitleContainer"@, "Title"@, "FoldButton"@]
}

/// A floating panel: its place in the stack, its nodes, and whether it is
/// being resized or moved, or is kept above every other panel (`priority`).
#[derive(Clone, Copy, Debug)]
pub struct FloatingPanel {
    pub z_index: Option<usize>,
    pub drag_handle: Entity,
    pub fold_button: Entity,
    pub title_container: Entity,
    pub title: Entity,
    pub close_button: Entity,
    pub content_view: Entity,
    pub content_panel_container: Entity,
    pub content_panel: Entity,
    pub resize_handles: (Entity, Entity),
    pub resizing: bool,
    pub moving: bool,
    pub priority: bool,
}

impl Default for FloatingPanel {
    fn default() -> (p: Self)
        ensures
            p.z_index is None,
            !p.resizing,
            !p.moving,
            !p.priority,
            p.content_panel.0 == crate::entity::PLACEHOLDER_BITS,
            p.content_panel_container.0 == crate::entity::PLACEHOLDER_BITS,
            p.title_container.0 == crate::entity::PLACEHOLDER_BITS,
    {
        let e = Entity::placeholder();
        FloatingPanel {
            z_index: None,
            drag_handle: e,
            fold_button: e,
            title_container: e,
            title: e,
            close_button: e,
            content_view: e,
            content_panel_container: e,
            content_panel: e,
            resize_handles: (e, e),
            resizing: false,
            moving: false,
            priority: false,
        }
    }
}

impl FloatingPanel {
    pub fn content_panel_container(&self) -> (e: Entity)
        ensures
            e == self.content_panel_container,
    {
        self.content_panel_container
    }

    pub fn content_panel_id(&self) -> (e: Entity)
        ensures
            e == self.content_panel,
    {
        self.content_panel
    }

    pub fn title_container_id(&self) -> (e: Entity)
        ensures
            e == self.title_container,
    {
        self.title_container
    }

    /// The named nodes, in the order of `floating_panel_context_names`.
    pub open spec fn context_entities(&self) -> Seq<Entity> {
        seq![self.title_container, self.title, self.fold_button]
    }

    /// The context names of a floating panel's nodes.
    pub fn contexts(&self) -> (names: Vec<&'static str>)
        ensures
            names_view(names@) == floating_panel_context_names(),
    {
        let names = vec![TITLE_CONTAINER, TITLE, FOLD_BUTTON];
        assert(names_view(names@) =~= floating_panel_context_names());
        names
    }

    /// The node of a context name, or the error that lists the names.
    pub fn get(&self, target: &str) -> (r: Result<Entity, String>)
        ensures
            context_outcome(
                r,
                target@,
                "FloatingPanel"@,
                floating_panel_context_names(),
                self.context_entities(),
            ),
    {
        let names = self.contexts();
        let entities = vec![self.title_container, self.title, self.fold_button];
        assert(entities@ =~= self.context_entities());
        assert(names_view(names@).len() == names@.len());
        get_context(target, "FloatingPanel", &names, &entities)
    }

    /// Puts `panel` in place of the content panel. Gives back the panel it
    /// replaced, or `None` (and changes nothing) when `panel` already is the
    /// content panel.
    pub fn replace_content_panel(&mut self, panel: Entity) -> (replaced: Option<Entity>)
        ensures
            panel == old(self).content_panel ==> replaced is None && *final(self) == *old(self),
            panel != old(self).content_panel ==> replaced == Some(old(self).content_panel)
                && *final(self) == (FloatingPanel { content_panel: panel, ..*old(self) }),
    {
        if panel == self.content_panel {
            return None;
        }
        let replaced = self.content_panel;
        self.content_panel = panel;
        Some(replaced)
    }
}

/// The z-indices of the panels.
pub open spec fn z_indices(panels: Seq<FloatingPanel>) -> Seq<Option<usize>> {
    panels.map_values(|p: FloatingPanel| p.z_index)
}

/// The highest z-index held, 0 when no panel holds one.
pub open spec fn max_z(zs: Seq<Option<usize>>) -> nat
    decreases zs.len(),
{
    if zs.len() == 0 {
        0
    } else {
        let m = max_z(zs.drop_last());
        match zs.last() {
            Some(z) => if z > m {
                z as nat
            } else {
                m
            },
            None => m,
        }
    }
}

/// The number of panels without a z-index.
pub open spec fn count_unindexed(zs: Seq<Option<usize>>) -> nat
    decreases zs.len(),
{
    if zs.len() == 0 {
        0
    } else {
        count_unindexed(zs.drop_last()) + if zs.last() is None {
            1nat
        } else {
            0nat
        }
    }
}

proof fn lemma_max_z_bound(zs: Seq<Option<usize>>)
    ensures
        forall|i: int| 0 <= i < zs.len() && (#[trigger] zs[i]) is Some ==> zs[i]->0 <= max_z(zs),
        max_z(zs) == 0 || exists|i: int| 0 <= i < zs.len() && zs[i] == Some(max_z(zs) as usize),
    decreases zs.len(),
{
    if zs.len() > 0 {
        let d = zs.drop_last();
        lemma_max_z_bound(d);
        assert forall|i: int| 0 <= i < zs.len() && (#[trigger] zs[i]) is Some implies zs[i]->0
            <= max_z(zs) by {
            if i < zs.len() - 1 {
                assert(zs[i] == d[i]);
            }
        }
        if max_z(zs) != 0 && max_z(zs) == max_z(d) {
            let i = choose|i: int| 0 <= i < d.len() && d[i] == Some(max_z(d) as usize);
            assert(zs[i] == d[i]);
        }
    }
}

proof fn lemma_count_unindexed_bound(zs: Seq<Option<usize>>)
    ensures
        count_unindexed(zs) <= zs.len(),
    decreases zs.len(),
{
    if zs.len() > 0 {
        lemma_count_unindexed_bound(zs.drop_last());
    }
}

/// The z-index a newly indexed panel at `i` takes: one above every index held,
/// counting up in the order of the panels.
pub open spec fn fresh_z(zs: Seq<Option<usize>>, i: int) -> usize {
    (MIN_FLOATING_PANEL_Z_INDEX + max_z(zs) + 1 + count_unindexed(zs.take(i))) as usize
}

/// Gives each panel without a z-index one above every index held.
pub fn index_floating_panel(panels: &mut Vec<FloatingPanel>)
    requires
        MIN_FLOATING_PANEL_Z_INDEX + max_z(z_indices(old(panels)@)) + old(panels).len() <= usize::MAX,
    ensures
        final(panels).len() == old(panels).len(),
        forall|i: int|
            0 <= i < final(panels).len() ==> #[trigger] final(panels)@[i] == (FloatingPanel {
                z_index: if old(panels)@[i].z_index is None {
                    Some(fresh_z(z_indices(old(panels)@), i))
                } else {
                    old(panels)@[i].z_index
                },
                ..old(panels)@[i]
            }),
{
    let ghost initial = panels@;
    let ghost zs = z_indices(initial);
    let n = panels.len();
    let mut max: usize = 0;
    let mut i: usize = 0;
    while i < n
        invariant
            i <= n,
            panels@ == initial,
            zs == z_indices(initial),
            n == initial.len(),
            max == max_z(zs.take(i as int)),
            MIN_FLOATING_PANEL_Z_INDEX + max_z(zs) + n <= usize::MAX,
        decreases n - i,
    {
        assert(zs.take(i + 1).drop_last() =~= zs.take(i as int));
        assert(zs[i as int] == panels@[i as int].z_index);
        if let Some(z) = panels[i].z_index {
            if z > max {
                max = z;
            }
        }
        i = i + 1;
    }
    assert(zs.take(n as int) =~= zs);
    let mut offset: usize = 1;
    let mut i: usize = 0;
    while i < n
        invariant
            i <= n,
            panels.len() == n,
            n == initial.len(),
            zs == z_indices(initial),
            max == max_z(zs),
            offset == 1 + count_unindexed(zs.take(i as int)),
            MIN_FLOATING_PANEL_Z_INDEX + max_z(zs) + n <= usize::MAX,
            forall|j: int|
                0 <= j < i ==> panels@[j] == (FloatingPanel {
                    z_index: if initial[j].z_index is None {
                        Some(fresh_z(zs, j))
                    } else {
                        initial[j].z_index
                    },
                    ..initial[j]
                }),
            forall|j: int| i <= j < n ==> panels@[j] == initial[j],
        decreases n - i,
    {
        assert(zs.take(i + 1).drop_last() =~= zs.take(i as int));
        assert(zs[i as int] == initial[i as int].z_index);
        proof {
            lemma_count_unindexed_bound(zs.take(i as int));
        }
        let mut panel = panels[i];
        if panel.z_index.is_none() {
            panel.z_index = Some(MIN_FLOATING_PANEL_Z_INDEX + max + offset);
            offset = offset + 1;
        }
        panels.set(i, panel);
        i = i + 1;
    }
}

/// Newly indexed panels land above every panel that held an index, each at
/// its own index.
pub proof fn fresh_panels_on_top(zs: Seq<Option<usize>>, i: int, j: int)
    requires
        MIN_FLOATING_PANEL_Z_INDEX + max_z(zs) + zs.len() <= usize::MAX,
        0 <= i < zs.len(),
        zs[i] is None,
        0 <= j < zs.len(),
    ensures
        zs[j] is Some ==> zs[j]->0 < fresh_z(zs, i),
        zs[j] is None && j != i ==> fresh_z(zs, j) != fresh_z(zs, i),
{
    lemma_max_z_bound(zs);
    lemma_count_unindexed_bound(zs.take(i));
    lemma_count_unindexed_bound(zs.take(j));
    if zs[j] is None && j != i {
        let (a, b) = if i < j {
            (i, j)
        } else {
            (j, i)
        };
        lemma_count_unindexed_grows(zs, a, b);
    }
}

proof fn lemma_count_unindexed_grows(zs: Seq<Option<usize>>, a: int, b: int)
    requires
        0 <= a < b <= zs.len(),
        zs[a] is None,
    ensures
        count_unindexed(zs.take(a)) < count_unindexed(zs.take(b)),
    decreases b - a,
{
    assert(zs.take(b).drop_last() =~= zs.take(b - 1));
    if b - 1 > a {
        lemma_count_unindexed_grows(zs, a, b - 1);
    } else {
        assert(zs.take(b).last() == zs[a]);
    }
}


/// The order of z-indices: no index comes below any index, and smaller
/// indices come below larger ones.
pub open spec fn z_below(a: Option<usize>, b: Option<usize>) -> bool {
    match (a, b) {
        (None, Some(_)) => true,
        (Some(x), Some(y)) => x < y,
        _ => false,
    }
}

/// Whether panel `j` is stacked below panel `i`: its index is lower, or the
/// same and it comes first.
pub open spec fn stacked_below(zs: Seq<Option<usize>>, j: int, i: int) -> bool {
    z_below(zs[j], zs[i]) || (zs[j] == zs[i] && j < i)
}

/// The number of panels among the first `n` that are stacked below panel `i`.
pub open spec fn count_below(zs: Seq<Option<usize>>, i: int, n: int) -> nat
    decreases n,
{
    if n <= 0 {
        0
    } else {
        count_below(zs, i, n - 1) + if stacked_below(zs, n - 1, i) {
            1nat
        } else {
            0nat
        }
    }
}

/// The place of panel `i` in the stack, from 0 at the bottom.
pub open spec fn stack_rank(zs: Seq<Option<usize>>, i: int) -> nat {
    count_below(zs, i, zs.len() as int)
}

/// The panels restacked: each takes the index of its place in the stack,
/// counting up from just above the lowest floating panel index.
pub open spec fn restacked(panels: Seq<FloatingPanel>) -> Seq<FloatingPanel> {
    Seq::new(
        panels.len(),
        |i: int|
            FloatingPanel {
                z_index: Some(
                    (MIN_FLOATING_PANEL_Z_INDEX + 1 + stack_rank(z_indices(panels), i)) as usize,
                ),
                ..panels[i]
            },
    )
}

proof fn lemma_count_below_bound(zs: Seq<Option<usize>>, i: int, n: int)
    requires
        0 <= n,
    ensures
        count_below(zs, i, n) <= n,
        0 <= i < n ==> count_below(zs, i, n) < n,
    decreases n,
{
    if n > 0 {
        lemma_count_below_bound(zs, i, n - 1);
    }
}

proof fn lemma_count_below_mono(zs: Seq<Option<usize>>, a: int, b: int, n: int)
    requires
        0 <= n,
        forall|k: int| 0 <= k < n && #[trigger] stacked_below(zs, k, a) ==> stacked_below(zs, k, b),
    ensures
        count_below(zs, a, n) <= count_below(zs, b, n),
        (exists|k: int| 0 <= k < n && stacked_below(zs, k, b) && !stacked_below(zs, k, a))
            ==> count_below(zs, a, n) < count_below(zs, b, n),
    decreases n,
{
    if n > 0 {
        lemma_count_below_mono(zs, a, b, n - 1);
        if exists|k: int| 0 <= k < n && stacked_below(zs, k, b) && !stacked_below(zs, k, a) {
            let k = choose|k: int| 0 <= k < n && stacked_below(zs, k, b) && !stacked_below(zs, k, a);
            if k < n - 1 {
                assert(exists|k: int|
                    0 <= k < n - 1 && stacked_below(zs, k, b) && !stacked_below(zs, k, a));
            }
        }
    }
}

/// A panel stacked below another has a lower place in the stack.
proof fn lemma_rank_order(zs: Seq<Option<usize>>, j: int, i: int)
    requires
        0 <= i < zs.len(),
        0 <= j < zs.len(),
        stacked_below(zs, j, i),
    ensures
        stack_rank(zs, j) < stack_rank(zs, i),
{
    assert forall|k: int|
        0 <= k < zs.len() && #[trigger] stacked_below(zs, k, j) implies stacked_below(zs, k, i) by {}
    assert(stacked_below(zs, j, i) && !stacked_below(zs, j, j));
    lemma_count_below_mono(zs, j, i, zs.len() as int);
}

/// Restacking puts the panels at the distinct indices just above the lowest
/// floating panel index, one per panel, and keeps their order: a panel with a
/// lower index before stays below, and of two with the same index the first
/// stays below.
pub proof fn restack_keeps_order(panels: Seq<FloatingPanel>, i: int, j: int)
    requires
        0 <= i < panels.len(),
        0 <= j < panels.len(),
    ensures
        ({
            let zs = z_indices(panels);
            &&& stack_rank(zs, i) < panels.len()
            &&& i != j ==> stack_rank(zs, i) != stack_rank(zs, j)
            &&& stacked_below(zs, j, i) ==> stack_rank(zs, j) < stack_rank(zs, i)
            &&& z_below(panels[j].z_index, panels[i].z_index) ==> stack_rank(zs, j) < stack_rank(zs, i)
        }),
{
    let zs = z_indices(panels);
    assert(zs[i] == panels[i].z_index && zs[j] == panels[j].z_index);
    lemma_count_below_bound(zs, i, zs.len() as int);
    if stacked_below(zs, j, i) {
        lemma_rank_order(zs, j, i);
    }
    if i != j {
        if stacked_below(zs, j, i) {
            lemma_rank_order(zs, j, i);
        } else {
            assert(stacked_below(zs, i, j));
            lemma_rank_order(zs, i, j);
        }
    }
}

fn z_is_below(a: Option<usize>, b: Option<usize>) -> (r: bool)
    ensures
        r == z_below(a, b),
{
    match (a, b) {
        (None, Some(_)) => true,
        (Some(x), Some(y)) => x < y,
        _ => false,
    }
}

/// Gives every panel the index of its place in the stack (see `restacked`).
pub fn restack_panels(panels: &mut Vec<FloatingPanel>)
    requires
        MIN_FLOATING_PANEL_Z_INDEX + 1 + old(panels).len() <= usize::MAX,
    ensures
        final(panels)@ == restacked(old(panels)@),
{
    let ghost initial = panels@;
    let ghost zs = z_indices(initial);
    let n = panels.len();
    let mut keys: Vec<Option<usize>> = Vec::new();
    let mut i: usize = 0;
    while i < n
        invariant
            i <= n,
            n == initial.len(),
            panels@ == initial,
            zs == z_indices(initial),
            keys@ == zs.take(i as int),
        decreases n - i,
    {
        keys.push(panels[i].z_index);
        assert(keys@ =~= zs.take(i + 1));
        i = i + 1;
    }
    assert(keys@ =~= zs);
    let mut i: usize = 0;
    while i < n
        invariant
            i <= n,
            n == initial.len(),
            panels.len() == n,
            keys@ == zs,
            zs == z_indices(initial),
            MIN_FLOATING_PANEL_Z_INDEX + 1 + n <= usize::MAX,
            forall|k: int| 0 <= k < i ==> panels@[k] == restacked(initial)[k],
            forall|k: int| i <= k < n ==> panels@[k] == initial[k],
        decreases n - i,
    {
        let mut count: usize = 0;
        let mut j: usize = 0;
        while j < n
            invariant
                j <= n,
                i < n,
                keys@ == zs,
                zs.len() == n,
                count == count_below(zs, i as int, j as int),
            decreases n - j,
        {
            proof {
                lemma_count_below_bound(zs, i as int, j as int);
            }
            if z_is_below(keys[j], keys[i]) || (keys[j] == keys[i] && j < i) {
                count = count + 1;
            }
            j = j + 1;
        }
        proof {
            lemma_count_below_bound(zs, i as int, n as int);
        }
        let mut panel = panels[i];
        panel.z_index = Some(MIN_FLOATING_PANEL_Z_INDEX + 1 + count);
        panels.set(i, panel);
        i = i + 1;
    }
    assert(panels@ =~= restacked(initial));
}


/// The highest z-index held by a panel, 0 when none holds one.
pub fn max_z_index(panels: &Vec<FloatingPanel>) -> (max: usize)
    ensures
        max == max_z(z_indices(panels@)),
{
    let ghost zs = z_indices(panels@);
    let mut max: usize = 0;
    let mut i: usize = 0;
    while i < panels.len()
        invariant
            i <= panels.len(),
            zs == z_indices(panels@),
            max == max_z(zs.take(i as int)),
        decreases panels.len() - i,
    {
        assert(zs.take(i + 1).drop_last() =~= zs.take(i as int));
        assert(zs[i as int] == panels@[i as int].z_index);
        if let Some(z) = panels[i].z_index {
            if z > max {
                max = z;
            }
        }
        i = i + 1;
    }
    assert(zs.take(panels.len() as int) =~= zs);
    max
}

/// Whether some panel is kept above every other one.
pub open spec fn any_priority(panels: Seq<FloatingPanel>) -> bool {
    exists|i: int| 0 <= i < panels.len() && (#[trigger] panels[i]).priority
}

/// Whether some panel is kept above every other one; while one is, panels
/// are neither moved nor resized.
pub fn has_priority_panel(panels: &Vec<FloatingPanel>) -> (r: bool)
    ensures
        r == any_priority(panels@),
{
    let mut i: usize = 0;
    while i < panels.len()
        invariant
            i <= panels.len(),
            forall|j: int| 0 <= j < i ==> !(#[trigger] panels@[j]).priority,
        decreases panels.len() - i,
    {
        if panels[i].priority {
            return true;
        }
        i = i + 1;
    }
    false
}

/// A drag of a panel's title or drag handle: the panel (by its index among
/// the panels), the state of the drag, and whether the pointer moved.
#[derive(Clone, Copy, Debug, PartialEq, Eq, Structural)]
pub struct TitleDrag {
    pub panel: usize,
    pub state: DragState,
    pub has_diff: bool,
}

/// Whether a drag state moves its target.
pub open spec fn drag_moves(state: DragState) -> bool {
    !(state == DragState::Inactive || state == DragState::MaybeDragged || state
        == DragState::DragCanceled)
}

/// What one title drag does to the panels, the next z-index offset and the
/// drags that moved a panel so far. A panel being resized ignores it; a drag
/// that does not move stops the panel moving; a drag that moves marks the
/// panel moving, and when the pointer moved, lifts the panel to the next
/// index above `max` and records the drag.
pub open spec fn drag_step(
    state: (Seq<FloatingPanel>, nat, Seq<int>),
    drag: TitleDrag,
    k: int,
    max: nat,
) -> (Seq<FloatingPanel>, nat, Seq<int>) {
    let (panels, offset, moved) = state;
    let p = panels[drag.panel as int];
    if p.resizing {
        state
    } else if !drag_moves(drag.state) {
        (panels.update(drag.panel as int, FloatingPanel { moving: false, ..p }), offset, moved)
    } else if !drag.has_diff {
        (panels.update(drag.panel as int, FloatingPanel { moving: true, ..p }), offset, moved)
    } else {
        (
            panels.update(
                drag.panel as int,
                FloatingPanel { moving: true, z_index: Some((max + offset) as usize), ..p },
            ),
            offset + 1,
            moved.push(k),
        )
    }
}

/// The drags taken in order, starting from offset 1.
pub open spec fn drag_run(panels: Seq<FloatingPanel>, drags: Seq<TitleDrag>, max: nat) -> (
    Seq<FloatingPanel>,
    nat,
    Seq<int>,
)
    decreases drags.len(),
{
    if drags.len() == 0 {
        (panels, 1, seq![])
    } else {
        drag_step(drag_run(panels, drags.drop_last(), max), drags.last(), drags.len() - 1, max)
    }
}

/// The panels after a frame of title drags: unchanged while a panel has
/// priority; otherwise the drags are taken in order and, when one moved a
/// panel, the panels are restacked.
pub open spec fn panels_after_title_drags(panels: Seq<FloatingPanel>, drags: Seq<TitleDrag>) -> Seq<
    FloatingPanel,
> {
    if any_priority(panels) {
        panels
    } else {
        let (ps, _, moved) = drag_run(panels, drags, max_z(z_indices(panels)));
        if moved.len() > 0 {
            restacked(ps)
        } else {
            ps
        }
    }
}

proof fn lemma_drag_run_shape(panels: Seq<FloatingPanel>, drags: Seq<TitleDrag>, max: nat)
    requires
        forall|d: int| 0 <= d < drags.len() ==> (#[trigger] drags[d]).panel < panels.len(),
    ensures
        drag_run(panels, drags, max).0.len() == panels.len(),
        drag_run(panels, drags, max).1 == drag_run(panels, drags, max).2.len() + 1,
        drag_run(panels, drags, max).2.len() <= drags.len(),
        forall|t: int|
            0 <= t < drag_run(panels, drags, max).2.len() ==> 0 <= #[trigger] drag_run(
                panels,
                drags,
                max,
            ).2[t] < drags.len(),
    decreases drags.len(),
{
    if drags.len() > 0 {
        let d = drags.drop_last();
        assert forall|k: int| 0 <= k < d.len() implies (#[trigger] d[k]).panel < panels.len() by {
            assert(d[k] == drags[k]);
        }
        lemma_drag_run_shape(panels, d, max);
    }
}

/// The panel of the last drag that moved something, if any.
pub open spec fn last_moved_panel(panels: Seq<FloatingPanel>, drags: Seq<TitleDrag>) -> Option<int> {
    let moved = drag_run(panels, drags, max_z(z_indices(panels))).2;
    if moved.len() > 0 {
        Some(drags[moved.last()].panel as int)
    } else {
        None
    }
}

proof fn lemma_drag_run_top(panels: Seq<FloatingPanel>, drags: Seq<TitleDrag>, max: nat)
    requires
        forall|d: int| 0 <= d < drags.len() ==> (#[trigger] drags[d]).panel < panels.len(),
        forall|j: int|
            0 <= j < panels.len() && (#[trigger] panels[j]).z_index is Some ==> panels[j].z_index->0
                <= max,
        max + drags.len() + 1 <= usize::MAX,
    ensures
        ({
            let (ps, offset, moved) = drag_run(panels, drags, max);
            &&& forall|j: int|
                0 <= j < ps.len() && (#[trigger] ps[j]).z_index is Some ==> ps[j].z_index->0 <= max
                    + offset - 1
            &&& moved.len() > 0 ==> {
                let p = drags[moved.last()].panel as int;
                &&& ps[p].z_index == Some((max + offset - 1) as usize)
                &&& forall|j: int|
                    0 <= j < ps.len() && j != p && (#[trigger] ps[j]).z_index is Some
                        ==> ps[j].z_index->0 < max + offset - 1
            }
        }),
    decreases drags.len(),
{
    lemma_drag_run_shape(panels, drags, max);
    if drags.len() > 0 {
        let d = drags.drop_last();
        assert forall|k: int| 0 <= k < d.len() implies (#[trigger] d[k]).panel < panels.len() by {
            assert(d[k] == drags[k]);
        }
        lemma_drag_run_top(panels, d, max);
        lemma_drag_run_shape(panels, d, max);
        let (ps0, off0, mv0) = drag_run(panels, d, max);
        let drag = drags.last();
        let k = drags.len() - 1;
        assert(drags[k] == drag);
        if mv0.len() > 0 {
            assert(d[mv0.last()] == drags[mv0.last()]);
        }
        let (ps, offset, moved) = drag_run(panels, drags, max);
        assert(drag_run(panels, drags, max) == drag_step((ps0, off0, mv0), drag, k, max));
        if !ps0[drag.panel as int].resizing && drag_moves(drag.state) && drag.has_diff {
            assert(moved == mv0.push(k));
            assert(moved.last() == k);
            assert(ps[drag.panel as int].z_index == Some((max + off0) as usize));
            assert forall|j: int|
                0 <= j < ps.len() && j != drag.panel as int && (#[trigger] ps[j]).z_index is Some
                    implies ps[j].z_index->0 < max + offset - 1 by {
                assert(ps[j] == ps0[j]);
            }
            assert forall|j: int|
                0 <= j < ps.len() && (#[trigger] ps[j]).z_index is Some implies ps[j].z_index->0
                    <= max + offset - 1 by {
                if j != drag.panel as int {
                    assert(ps[j] == ps0[j]);
                }
            }
        } else {
            assert(moved == mv0);
            assert(offset == off0);
            assert forall|j: int| 0 <= j < ps.len() implies (#[trigger] ps[j]).z_index
                == ps0[j].z_index by {}
        }
    }
}

/// When some drag moved a panel this frame (and no panel has priority), the
/// panel of the last such drag ends on top: every other panel takes a lower
/// index.
pub proof fn dragged_last_on_top(panels: Seq<FloatingPanel>, drags: Seq<TitleDrag>, j: int)
    requires
        forall|d: int| 0 <= d < drags.len() ==> (#[trigger] drags[d]).panel < panels.len(),
        max_z(z_indices(panels)) + drags.len() + 1 <= usize::MAX,
        MIN_FLOATING_PANEL_Z_INDEX + 1 + panels.len() <= usize::MAX,
        !any_priority(panels),
        last_moved_panel(panels, drags) is Some,
        0 <= j < panels.len(),
        j != last_moved_panel(panels, drags)->0,
    ensures
        ({
            let after = panels_after_title_drags(panels, drags);
            let p = last_moved_panel(panels, drags)->0;
            &&& after[j].z_index is Some
            &&& after[p].z_index is Some
            &&& after[j].z_index->0 < after[p].z_index->0
        }),
{
    let max = max_z(z_indices(panels));
    let zs0 = z_indices(panels);
    lemma_max_z_bound(zs0);
    assert forall|i: int|
        0 <= i < panels.len() && (#[trigger] panels[i]).z_index is Some implies panels[i].z_index->0
            <= max by {
        assert(zs0[i] == panels[i].z_index);
    }
    lemma_drag_run_top(panels, drags, max);
    lemma_drag_run_shape(panels, drags, max);
    let (ps, offset, moved) = drag_run(panels, drags, max);
    let p = drags[moved.last()].panel as int;
    let zs = z_indices(ps);
    assert(zs[j] == ps[j].z_index && zs[p] == ps[p].z_index);
    assert(z_below(zs[j], zs[p]));
    assert(stacked_below(zs, j, p));
    lemma_rank_order(zs, j, p);
    lemma_count_below_bound(zs, p, zs.len() as int);
    lemma_count_below_bound(zs, j, zs.len() as int);
}

/// Takes a frame of title drags (see `panels_after_title_drags`). Gives back
/// the drags whose pointer movement moves their panel, in order.
pub fn update_panel_on_title_drag(panels: &mut Vec<FloatingPanel>, drags: &Vec<TitleDrag>) -> (moved:
    Vec<usize>)
    requires
        forall|d: int| 0 <= d < drags.len() ==> (#[trigger] drags@[d]).panel < old(panels).len(),
        max_z(z_indices(old(panels)@)) + drags.len() + 1 <= usize::MAX,
        MIN_FLOATING_PANEL_Z_INDEX + 1 + old(panels).len() <= usize::MAX,
    ensures
        final(panels)@ == panels_after_title_drags(old(panels)@, drags@),
        !any_priority(old(panels)@) ==> moved@.map_values(|d: usize| d as int) == drag_run(
            old(panels)@,
            drags@,
            max_z(z_indices(old(panels)@)),
        ).2,
        any_priority(old(panels)@) ==> moved.len() == 0,
{
    let mut moved: Vec<usize> = Vec::new();
    if has_priority_panel(panels) {
        return moved;
    }
    let ghost initial = panels@;
    let max = max_z_index(panels);
    let mut offset: usize = 1;
    let mut k: usize = 0;
    while k < drags.len()
        invariant
            k <= drags.len(),
            panels.len() == initial.len(),
            max == max_z(z_indices(initial)),
            max + drags.len() + 1 <= usize::MAX,
            forall|d: int| 0 <= d < drags.len() ==> (#[trigger] drags@[d]).panel < initial.len(),
            (panels@, offset as nat, moved@.map_values(|d: usize| d as int)) == drag_run(
                initial,
                drags@.take(k as int),
                max as nat,
            ),
            offset <= k + 1,
        decreases drags.len() - k,
    {
        let ghost before_moved = moved@;
        proof {
            let t = drags@.take(k + 1);
            assert(t.drop_last() =~= drags@.take(k as int));
            assert(t.last() == drags@[k as int]);
            assert forall|d: int| 0 <= d < t.len() implies (#[trigger] t[d]).panel < initial.len() by {
                assert(t[d] == drags@[d]);
            }
            lemma_drag_run_shape(initial, t, max as nat);
        }
        let drag = drags[k];
        let mut panel = panels[drag.panel];
        if panel.resizing {
        } else if !drag.state.moves_target() {
            panel.moving = false;
            panels.set(drag.panel, panel);
        } else if !drag.has_diff {
            panel.moving = true;
            panels.set(drag.panel, panel);
        } else {
            panel.moving = true;
            panel.z_index = Some(max + offset);
            panels.set(drag.panel, panel);
            offset = offset + 1;
            moved.push(k);
            assert(moved@.map_values(|d: usize| d as int) =~= before_moved.map_values(
                |d: usize| d as int,
            ).push(k as int));
        }
        k = k + 1;
    }
    assert(drags@.take(drags.len() as int) =~= drags@);
    if moved.len() > 0 {
        restack_panels(panels);
    }
    moved
}


/// What a floating panel shows and allows.
pub struct FloatingPanelConfig {
    pub title: Option<String>,
    pub draggable: bool,
    pub resizable: bool,
    pub foldable: bool,
    pub folded: bool,
    pub closable: bool,
    pub restrict_scroll: Option<ScrollAxis>,
}

impl Default for FloatingPanelConfig {
    fn default() -> (c: Self)
        ensures
            c.title is None,
            c.draggable,
            c.resizable,
            c.foldable,
            !c.folded,
            c.closable,
            c.restrict_scroll is None,
    {
        FloatingPanelConfig {
            title: None,
            draggable: true,
            resizable: true,
            foldable: true,
            folded: false,
            closable: true,
            restrict_scroll: None,
        }
    }
}

impl FloatingPanelConfig {
    pub fn title(&self) -> (t: Option<String>)
        ensures
            t == self.title,
    {
        self.title.clone()
    }
}

/// The title a floating panel is built with when its configuration names
/// none.
pub const UNTITLED: &'static str = "Untitled";

/// What a floating panel is built with: its title text and which of its
/// parts are drawn.
pub struct FloatingPanelParts {
    /// The text of the title and of the content panel.
    pub title: String,
    /// The title bar, with its fold and close buttons.
    pub render_title: bool,
    /// The bare drag handle drawn in place of a title bar.
    pub render_drag_handle: bool,
    pub render_fold_button: bool,
    pub render_close_button: bool,
    pub render_resize_handles: bool,
    /// Whether the title bar takes drops (so that the panel can be docked).
    pub droppable_title: bool,
}

/// The parts of a floating panel built from `config`, with a title bar that
/// takes drops when the layout is `droppable`: the configured title or
/// "Untitled"; the title bar when a title is configured and the drag handle
/// otherwise; fold and close buttons and resize handles as the configuration
/// allows them.
pub fn floating_panel_parts(config: &FloatingPanelConfig, droppable: bool) -> (parts:
    FloatingPanelParts)
    ensures
        parts.title@ == match config.title {
            Some(t) => t@,
            None => UNTITLED@,
        },
        parts.render_title == config.title is Some,
        parts.render_drag_handle == config.title is None,
        parts.render_fold_button == config.foldable,
        parts.render_close_button == config.closable,
        parts.render_resize_handles == config.resizable,
        parts.droppable_title == droppable,
{
    let title = match &config.title {
        Some(t) => t.clone(),
        None => String::from_str(UNTITLED),
    };
    FloatingPanelParts {
        title,
        render_title: config.title.is_some(),
        render_drag_handle: config.title.is_none(),
        render_fold_button: config.foldable,
        render_close_button: config.closable,
        render_resize_handles: config.resizable,
        droppable_title: droppable,
    }
}

/// A completed press on the fold button folds or unfolds the panel.
pub fn process_panel_fold_pressed(config: &mut FloatingPanelConfig, interaction: FluxInteraction)
    ensures
        final(config).folded == (old(config).folded != (interaction == FluxInteraction::Released)),
        final(config).title == old(config).title,
        final(config).draggable == old(config).draggable,
        final(config).resizable == old(config).resizable,
        final(config).foldable == old(config).foldable,
        final(config).closable == old(config).closable,
        final(config).restrict_scroll == old(config).restrict_scroll,
{
    if interaction == FluxInteraction::Released {
        config.folded = !config.folded;
    }
}

/// What a resize handle's drag does to its panel: a drag that does not move
/// stops the resizing; one that moves with a pointer movement marks the panel
/// resizing and its size changes (`true`); one without a movement changes
/// nothing.
pub fn update_panel_resizing(panel: &mut FloatingPanel, state: DragState, has_diff: bool) -> (resize:
    bool)
    ensures
        resize == (drag_moves(state) && has_diff),
        *final(panel) == (FloatingPanel {
            resizing: resizing_after(old(panel).resizing, state, has_diff),
            ..*old(panel)
        }),
{
    if !state.moves_target() {
        panel.resizing = false;
        return false;
    }
    if !has_diff {
        return false;
    }
    panel.resizing = true;
    true
}

/// The resizing flag a panel takes from a resize handle's drag (see
/// `update_panel_resizing`).
pub open spec fn resizing_after(resizing: bool, state: DragState, has_diff: bool) -> bool {
    if !drag_moves(state) {
        false
    } else if has_diff {
        true
    } else {
        resizing
    }
}

/// A resize handle's drag on the panel at `panel`: while some panel has
/// priority nothing changes and nothing is resized; otherwise the panel's
/// resizing flag follows the drag (see `update_panel_resizing`) and the
/// answer is whether its size changes.
pub fn update_panel_size_on_resize(
    panels: &mut Vec<FloatingPanel>,
    panel: usize,
    state: DragState,
    has_diff: bool,
) -> (resize: bool)
    requires
        panel < old(panels).len(),
    ensures
        any_priority(old(panels)@) ==> !resize && final(panels)@ == old(panels)@,
        !any_priority(old(panels)@) ==> resize == (drag_moves(state) && has_diff) && (final(panels)@
            == old(panels)@.update(
            panel as int,
            FloatingPanel {
                resizing: resizing_after(old(panels)@[panel as int].resizing, state, has_diff),
                ..old(panels)@[panel as int]
            },
        )),
{
    if has_priority_panel(panels) {
        return false;
    }
    let mut p = panels[panel];
    let resize = update_panel_resizing(&mut p, state, has_diff);
    panels.set(panel, p);
    resize
}

/// How a floating panel is laid out and which of its parts react, as the
/// layout update applies it.
#[derive(Clone, Copy, Debug, PartialEq, Eq, Structural)]
pub struct FloatingPanelLayoutFlags {
    /// Whether the title bar is drawn (when the panel has a title).
    pub render_title: bool,
    /// Whether the title bar reacts to the pointer (a titled, draggable panel).
    pub title_draggable: bool,
    /// Whether the drag handle is drawn (an untitled, draggable panel).
    pub render_drag_handle: bool,
    /// Whether the content is drawn (the panel is not folded).
    pub render_content: bool,
    /// Whether the panel takes the `Folded` pseudo state.
    pub folded_state: bool,
    /// Whether the resize handles are drawn.
    pub render_resize_handles: bool,
    /// What the panel, its title bar and drag handle do with the pointer.
    pub focus_policy: FocusPolicy,
    /// Whether the title bar and drag handle react (not while resizing).
    pub handles_react: bool,
    /// Whether the fold and close buttons react (not while moving or resizing).
    pub buttons_react: bool,
    /// The z-index the panel is drawn at, if any.
    pub z_index: Option<usize>,
}

/// The layout of a panel: its title bar is drawn when it has a title and
/// then follows `draggable`, else the drag handle follows `draggable`; the
/// content is drawn unless folded, and a folded panel takes the `Folded`
/// pseudo state; the resize handles only when unfolded,
/// resizable and not moving; a moving panel lets the pointer through; the
/// handles react unless resizing, the buttons unless moving or resizing; a
/// priority panel is drawn at the priority index.
pub open spec fn panel_layout(
    panel: FloatingPanel,
    has_title: bool,
    draggable: bool,
    folded: bool,
    resizable: bool,
) -> FloatingPanelLayoutFlags {
    FloatingPanelLayoutFlags {
        render_title: has_title,
        title_draggable: has_title && draggable,
        render_drag_handle: !has_title && draggable,
        render_content: !folded,
        folded_state: folded,
        render_resize_handles: !folded && resizable && !panel.moving,
        focus_policy: if panel.moving {
            FocusPolicy::Pass
        } else {
            FocusPolicy::Block
        },
        handles_react: !panel.resizing,
        buttons_react: !(panel.moving || panel.resizing),
        z_index: if panel.priority {
            Some(PRIORITY_FLOATING_PANEL_Z_INDEX)
        } else {
            panel.z_index
        },
    }
}

/// What a panel's layout shows follows its configuration: resize handles
/// only on an unfolded, resizable panel that is not moving; content only
/// when unfolded (and then no `Folded` state); a title bar only with a title,
/// and a drag handle only without one and only when draggable.
pub proof fn layout_follows_configuration(
    panel: FloatingPanel,
    has_title: bool,
    draggable: bool,
    folded: bool,
    resizable: bool,
)
    ensures
        ({
            let flags = panel_layout(panel, has_title, draggable, folded, resizable);
            &&& flags.render_resize_handles ==> resizable && !folded && !panel.moving
            &&& resizable && !folded && !panel.moving ==> flags.render_resize_handles
            &&& flags.render_content != folded
            &&& flags.folded_state == folded
            &&& flags.render_title == has_title
            &&& flags.render_drag_handle ==> !has_title && draggable
            &&& flags.title_draggable ==> has_title && draggable
            &&& panel.moving ==> flags.focus_policy == FocusPolicy::Pass
        }),
{
}

/// The layout of a panel with its configuration (see `panel_layout`).
pub fn update_panel_layout(panel: &FloatingPanel, config: &FloatingPanelConfig) -> (flags:
    FloatingPanelLayoutFlags)
    ensures
        flags == panel_layout(
            *panel,
            config.title is Some,
            config.draggable,
            config.folded,
            config.resizable,
        ),
{
    let has_title = config.title.is_some();
    FloatingPanelLayoutFlags {
        render_title: has_title,
        title_draggable: has_title && config.draggable,
        render_drag_handle: !has_title && config.draggable,
        render_content: !config.folded,
        folded_state: config.folded,
        render_resize_handles: !config.folded && config.resizable && !panel.moving,
        focus_policy: if panel.moving {
            FocusPolicy::Pass
        } else {
            FocusPolicy::Block
        },
        handles_react: !panel.resizing,
        buttons_react: !(panel.moving || panel.resizing),
        z_index: if panel.priority {
            Some(PRIORITY_FLOATING_PANEL_Z_INDEX)
        } else {
            panel.z_index
        },
    }
}

/// The title bar of a floating panel.
#[derive(Clone, Copy, Debug, PartialEq, Eq, Structural)]
pub struct FloatingPanelTitle {
    pub panel: Entity,
}

impl FloatingPanelTitle {
    pub fn panel(&self) -> (e: Entity)
        ensures
            e == self.panel,
    {
        self.panel
    }
}

/// The drag handle of an untitled floating panel.
#[derive(Clone, Copy, Debug, PartialEq, Eq, Structural)]
pub struct FloatingPanelDragHandle {
    pub panel: Entity,
}

/// The fold button of a floating panel.
#[derive(Clone, Copy, Debug, PartialEq, Eq, Structural)]
pub struct FloatingPanelFoldButton {
    pub panel: Entity,
}

/// The close button of a floating panel.
#[derive(Clone, Copy, Debug, PartialEq, Eq, Structural)]
pub struct FloatingPanelCloseButton {
    pub panel: Entity,
}

/// A resize handle of a floating panel.
#[derive(Clone, Copy, Debug, PartialEq, Eq, Structural)]
pub struct FloatingPanelResizeHandle {
    pub panel: Entity,
}

/// A request to show `panel_id` as the content of a floating panel.
#[derive(Clone, Copy, Debug, PartialEq, Eq, Structural)]
pub struct UpdateFloatingPanelPanelId {
    pub panel_id: Entity,
}

/// Every context name that the floating panel lists leads a lookup to the node of that
/// name, so `get` answers each of them with its node.
pub proof fn floating_panel_contexts_resolve(panel: FloatingPanel, i: int)
    requires
        0 <= i < 3,
    ensures
        context_lookup(
            floating_panel_context_names(),
            panel.context_entities(),
            floating_panel_context_names()[i],
        ) == Some(panel.context_entities()[i]),
{
    reveal_strlit("TitleContainer");
    reveal_strlit("Title");
    reveal_strlit("FoldButton");
    let names = floating_panel_context_names();
    assert(distinct_names(names)) by {
        assert forall|i: int, j: int|
            0 <= i < names.len() && 0 <= j < names.len() && i != j implies names[i] != names[j] by {
            assert(names[i].len() != names[j].len());
        }
    }
    lemma_lookup_distinct(names, panel.context_entities(), i);
}

} // verus!
