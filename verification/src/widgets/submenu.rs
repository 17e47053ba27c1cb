//! Submenus: menu items that open a container of further items beside them.
//! Closing a container closes, in turn, every open container opened from it.
use vstd::prelude::*;

use crate::entity::Entity;
use crate::input::KeyCode;
use crate::interaction::{Display, FluxInteraction};
use crate::widgets::menus::menu_item::MenuItemConfig;

verus! {

pub const MENU_CONTAINER_Z_INDEX: i32 = 100001;

/// The icon a submenu item shows after its label.
pub const SUBMENU_ICON: &'static str = "sickle://icons/submenu.png";

/// A submenu's container of items: whether it is open, and the container the
/// submenu's own item sits in (if any).
#[derive(Clone, Copy, Debug, PartialEq, Eq, Structural)]
pub struct SubmenuContainer {
    pub is_open: bool,
    pub external_container: Option<Entity>,
}

impl Default for SubmenuContainer {
    fn default() -> (c: Self)
        ensures
            !c.is_open,
            c.external_container is None,
    {
        SubmenuContainer { is_open: false, external_container: None }
    }
}

impl SubmenuContainer {
    /// How the container is displayed: shown while open, collapsed
    /// otherwise.
    pub fn display(&self) -> (d: Display)
        ensures
            d == if self.is_open {
                Display::Flex
            } else {
                Display::Collapsed
            },
    {
        if self.is_open {
            Display::Flex
        } else {
            Display::Collapsed
        }
    }
}

/// A submenu item: the container it opens.
#[derive(Clone, Copy, Debug, PartialEq, Eq, Structural)]
pub struct Submenu {
    pub container: Entity,
}

impl Default for Submenu {
    fn default() -> (s: Self)
        ensures
            s.container.0 == crate::entity::PLACEHOLDER_BITS,
    {
        Submenu { container: Entity::placeholder() }
    }
}

/// What a submenu item shows: its name, its access key and its leading icon
/// (an asset path).
pub struct SubmenuConfig {
    pub name: String,
    pub alt_code: Option<KeyCode>,
    pub leading_icon: Option<String>,
}

impl Default for SubmenuConfig {
    fn default() -> (c: Self)
        ensures
            c.name@ == Seq::<char>::empty(),
            c.alt_code is None,
            c.leading_icon is None,
    {
        SubmenuConfig { name: String::new(), alt_code: None, leading_icon: None }
    }
}

impl SubmenuConfig {
    /// The configuration of the menu item that opens the submenu: the same
    /// name, access key and leading icon, and the submenu icon after the label.
    pub fn into(self) -> (config: MenuItemConfig)
        ensures
            config.name == self.name,
            config.alt_code == self.alt_code,
            config.leading_icon == self.leading_icon,
            config.trailing_icon matches Some(icon) && icon@ == SUBMENU_ICON@,
            config.shortcut is None,
    {
        MenuItemConfig {
            name: self.name,
            leading_icon: self.leading_icon,
            trailing_icon: Some(String::from_str(SUBMENU_ICON)),
            alt_code: self.alt_code,
            shortcut: None,
        }
    }
}

/// What hovering a submenu item does to the fade timer of its container: the
/// timer is locked and restarted, unlocked, or left alone.
#[derive(Clone, Copy, Debug, PartialEq, Eq, Structural)]
pub enum SubmenuTimerChange {
    Keep,
    LockAndRestart,
    Unlock,
}

/// A pointer entering a submenu item opens its container and locks (and
/// restarts) the container's fade timer; leaving it unlocks the timer and
/// leaves the container as it is.
pub fn open_submenu_on_hover(container: &mut SubmenuContainer, interaction: FluxInteraction) -> (timer:
    SubmenuTimerChange)
    ensures
        *final(container) == if interaction == FluxInteraction::PointerEnter {
            (SubmenuContainer { is_open: true, ..*old(container) })
        } else {
            *old(container)
        },
        timer == if interaction == FluxInteraction::PointerEnter {
            SubmenuTimerChange::LockAndRestart
        } else if interaction == FluxInteraction::PointerLeave {
            SubmenuTimerChange::Unlock
        } else {
            SubmenuTimerChange::Keep
        },
{
    if interaction == FluxInteraction::PointerEnter {
        container.is_open = true;
        SubmenuTimerChange::LockAndRestart
    } else if interaction == FluxInteraction::PointerLeave {
        SubmenuTimerChange::Unlock
    } else {
        SubmenuTimerChange::Keep
    }
}

/// The number of open containers.
pub open spec fn open_count(containers: Seq<(Entity, SubmenuContainer)>) -> nat
    decreases containers.len(),
{
    if containers.len() == 0 {
        0
    } else {
        open_count(containers.drop_last()) + if containers.last().1.is_open {
            1nat
        } else {
            0nat
        }
    }
}

/// `after` is `before` with some containers closed: the same containers, each
/// with the same external container, none newly opened.
pub open spec fn only_closes(
    before: Seq<(Entity, SubmenuContainer)>,
    after: Seq<(Entity, SubmenuContainer)>,
) -> bool {
    &&& after.len() == before.len()
    &&& forall|i: int|
        0 <= i < after.len() ==> (#[trigger] after[i]).0 == before[i].0
            && after[i].1.external_container == before[i].1.external_container
            && (after[i].1.is_open ==> before[i].1.is_open)
}

/// Whether container `i` was closed between `before` and `after`.
pub open spec fn closed_between(
    before: Seq<(Entity, SubmenuContainer)>,
    after: Seq<(Entity, SubmenuContainer)>,
    i: int,
) -> bool {
    before[i].1.is_open && !after[i].1.is_open
}

/// The order in which the containers were closed is a chain from `external`:
/// each was opened from `external` or from a container closed before it.
pub open spec fn closing_chain(
    before: Seq<(Entity, SubmenuContainer)>,
    order: Seq<int>,
    external: Option<Entity>,
) -> bool {
    forall|k: int|
        #![trigger order[k]]
        0 <= k < order.len() ==> 0 <= order[k] < before.len() && (before[order[k]].1.external_container
            == external || exists|m: int|
            0 <= m < k && before[order[k]].1.external_container == Some(before[order[m]].0))
}

/// No open container was opened from `external` or from a container that
/// `closed` holds.
pub open spec fn nothing_left_open_from(
    after: Seq<(Entity, SubmenuContainer)>,
    before: Seq<(Entity, SubmenuContainer)>,
    closed: Seq<int>,
    external: Option<Entity>,
) -> bool {
    forall|i: int|
        0 <= i < after.len() && (#[trigger] after[i]).1.is_open ==> after[i].1.external_container
            != external && forall|m: int|
            0 <= m < closed.len() ==> after[i].1.external_container != Some(
                before[#[trigger] closed[m]].0,
            )
}

proof fn lemma_open_count_mono(a: Seq<(Entity, SubmenuContainer)>, b: Seq<(Entity, SubmenuContainer)>)
    requires
        a.len() == b.len(),
        forall|i: int| 0 <= i < a.len() ==> #[trigger] b[i].1.is_open ==> a[i].1.is_open,
    ensures
        open_count(b) <= open_count(a),
        (exists|i: int| 0 <= i < a.len() && a[i].1.is_open && !b[i].1.is_open) ==> open_count(b)
            < open_count(a),
    decreases a.len(),
{
    if a.len() > 0 {
        let (ad, bd) = (a.drop_last(), b.drop_last());
        assert forall|i: int| 0 <= i < ad.len() && #[trigger] bd[i].1.is_open implies ad[i].1.is_open by {
            assert(b[i] == bd[i] && a[i] == ad[i]);
        }
        lemma_open_count_mono(ad, bd);
        if exists|i: int| 0 <= i < a.len() && a[i].1.is_open && !b[i].1.is_open {
            let i = choose|i: int| 0 <= i < a.len() && a[i].1.is_open && !b[i].1.is_open;
            if i < a.len() - 1 {
                assert(ad[i] == a[i] && bd[i] == b[i]);
            }
        }
    }
}

/// Closes every open container opened from `external` and, in turn, every
/// open container opened from one closed. Gives back the order of closing.
fn close_chain(containers: &mut Vec<(Entity, SubmenuContainer)>, external: Option<Entity>) -> (order:
    Ghost<Seq<int>>)
    ensures
        only_closes(old(containers)@, final(containers)@),
        forall|i: int|
            0 <= i < old(containers)@.len() ==> (closed_between(old(containers)@, final(containers)@, i)
                <==> order@.contains(i)),
        closing_chain(old(containers)@, order@, external),
        nothing_left_open_from(final(containers)@, old(containers)@, order@, external),
    decreases open_count(old(containers)@),
{
    let ghost start = containers@;
    let n = containers.len();
    let mut first: Vec<usize> = Vec::new();
    let ghost mut order: Seq<int> = Seq::empty();
    let mut i: usize = 0;
    while i < n
        invariant
            i <= n,
            containers.len() == n,
            n == start.len(),
            only_closes(start, containers@),
            forall|j: int| i <= j < n ==> containers@[j] == start[j],
            order.len() == first.len(),
            forall|m: int| #![trigger first@[m]] 0 <= m < order.len() ==> order[m] == first@[m] as int,
            forall|j: int| 0 <= j < i ==> (closed_between(start, containers@, j) <==> order.contains(j)),
            forall|j: int| i <= j < n ==> !order.contains(j),
            forall|m: int|
                #![trigger order[m]]
                0 <= m < order.len() ==> 0 <= order[m] < i && start[order[m]].1.external_container
                    == external && start[order[m]].1.is_open,
            forall|j: int|
                0 <= j < i && (#[trigger] containers@[j]).1.is_open ==> containers@[j].1.external_container
                    != external,
        decreases n - i,
    {
        let (entity, container) = containers[i];
        if container.external_container == external && container.is_open {
            containers.set(i, (entity, SubmenuContainer { is_open: false, ..container }));
            first.push(i);
            proof {
                let old_order = order;
                order = order.push(i as int);
                assert forall|j: int| 0 <= j <= i implies (closed_between(start, containers@, j)
                    <==> order.contains(j)) by {
                    if j < i {
                        if old_order.contains(j) {
                            let m = choose|m: int| 0 <= m < old_order.len() && old_order[m] == j;
                            assert(order[m] == j);
                        }
                        if order.contains(j) {
                            let m = choose|m: int| 0 <= m < order.len() && order[m] == j;
                            assert(m < old_order.len());
                            assert(old_order[m] == j);
                        }
                    } else {
                        assert(order[order.len() - 1] == j);
                    }
                }
            }
        } else {
            proof {
                assert(!closed_between(start, containers@, i as int));
            }
        }
        i = i + 1;
    }
    let ghost first_len = order.len();
    assert(closing_chain(start, order, external));
    let mut k: usize = 0;
    while k < first.len()
        invariant
            k <= first.len(),
            first_len == first.len(),
            start == old(containers)@,
            containers.len() == n,
            n == start.len(),
            only_closes(start, containers@),
            order.len() >= first_len,
            forall|m: int| #![trigger first@[m]] 0 <= m < first_len ==> order[m] == first@[m] as int,
            forall|m: int|
                #![trigger first@[m]]
                0 <= m < first_len ==> first@[m] < n && start[first@[m] as int].1.is_open,
            forall|j: int| 0 <= j < n ==> (closed_between(start, containers@, j) <==> order.contains(j)),
            closing_chain(start, order, external),
            forall|j: int|
                0 <= j < n && (#[trigger] containers@[j]).1.is_open ==> containers@[j].1.external_container
                    != external,
            forall|j: int, m: int|
                0 <= j < n && (#[trigger] containers@[j]).1.is_open && 0 <= m < order.len() && !(k <= m
                    < first_len) ==> containers@[j].1.external_container != Some(
                    start[#[trigger] order[m]].0,
                ),
        decreases first_len - k,
    {
        let idx = first[k];
        let entity = containers[idx].0;
        let ghost before = containers@;
        proof {
            assert(order[k as int] == idx as int);
            assert(start[idx as int].0 == entity);
            let f0 = first@[0] as int;
            assert(order[0] == f0);
            assert(order.contains(f0));
            assert(closed_between(start, before, f0));
            lemma_open_count_mono(start, before);
            assert(open_count(before) < open_count(start));
            assert(start == old(containers)@);
        }
        let sub = close_chain(containers, Some(entity));
        proof {
            let old_order = order;
            let new_order = old_order + sub@;
            let after = containers@;
            lemma_closed_concat(start, before, after, old_order, sub@);
            assert forall|t: int| 0 <= t < new_order.len() implies 0 <= #[trigger] new_order[t] < start.len()
                && (start[new_order[t]].1.external_container == external || exists|m: int|
                0 <= m < t && start[new_order[t]].1.external_container == Some(start[new_order[m]].0)) by {
                if t < old_order.len() {
                    assert(new_order[t] == old_order[t]);
                    if start[old_order[t]].1.external_container != external {
                        let m = choose|m: int|
                            0 <= m < t && start[old_order[t]].1.external_container == Some(
                                start[old_order[m]].0,
                            );
                        assert(new_order[m] == old_order[m]);
                    }
                } else {
                    let u = t - old_order.len();
                    assert(new_order[t] == sub@[u]);
                    let c = sub@[u];
                    assert(before[c].0 == start[c].0);
                    assert(before[c].1.external_container == start[c].1.external_container);
                    if before[c].1.external_container == Some(entity) {
                        assert(new_order[k as int] == idx as int);
                    } else {
                        let m = choose|m: int|
                            0 <= m < u && before[c].1.external_container == Some(before[sub@[m]].0);
                        assert(new_order[old_order.len() + m] == sub@[m]);
                        assert(before[sub@[m]].0 == start[sub@[m]].0);
                    }
                }
            }
            assert forall|j: int, m: int|
                0 <= j < n && (#[trigger] after[j]).1.is_open && 0 <= m < new_order.len() && !(k + 1 <= m
                    < first_len) implies after[j].1.external_container != Some(
                start[#[trigger] new_order[m]].0,
            ) by {
                assert(before[j].1.is_open);
                if m < old_order.len() {
                    assert(new_order[m] == old_order[m]);
                    if m == k {
                        assert(old_order[m] == idx as int);
                    }
                } else {
                    let u = m - old_order.len();
                    assert(new_order[m] == sub@[u]);
                    assert(before[sub@[u]].0 == start[sub@[u]].0);
                }
            }
            order = new_order;
        }
        k = k + 1;
    }
    Ghost(order)
}


/// Closes every open container opened from `external` and, in turn, every
/// open container opened from one so closed. Nothing else changes: the
/// containers closed are exactly those reached that way, and afterwards no
/// open container was opened from `external` or from a container closed here.
pub fn close_containers_of(containers: &mut Vec<(Entity, SubmenuContainer)>, external: Option<Entity>)
    ensures
        only_closes(old(containers)@, final(containers)@),
        exists|order: Seq<int>|
            {
                &&& closing_chain(old(containers)@, order, external)
                &&& forall|i: int|
                    0 <= i < old(containers)@.len() ==> (closed_between(
                        old(containers)@,
                        final(containers)@,
                        i,
                    ) <==> #[trigger] order.contains(i))
                &&& nothing_left_open_from(final(containers)@, old(containers)@, order, external)
            },
{
    let order = close_chain(containers, external);
    assert(closing_chain(old(containers)@, order@, external));
}

/// The index of the last container whose state changed and that is open.
pub open spec fn last_opened(containers: Seq<(Entity, SubmenuContainer)>, changed: Seq<bool>) -> Option<
    int,
>
    decreases containers.len(),
{
    if containers.len() == 0 || changed.len() < containers.len() {
        None
    } else if changed[containers.len() - 1] && containers.last().1.is_open {
        Some(containers.len() - 1)
    } else {
        last_opened(containers.drop_last(), changed)
    }
}

proof fn lemma_last_opened_bound(containers: Seq<(Entity, SubmenuContainer)>, changed: Seq<bool>)
    ensures
        last_opened(containers, changed) matches Some(o) ==> 0 <= o < containers.len()
            && changed[o] && containers[o].1.is_open,
    decreases containers.len(),
{
    if containers.len() > 0 && changed.len() >= containers.len() {
        lemma_last_opened_bound(containers.drop_last(), changed);
    }
}

proof fn lemma_only_closes_trans(
    a: Seq<(Entity, SubmenuContainer)>,
    b: Seq<(Entity, SubmenuContainer)>,
    c: Seq<(Entity, SubmenuContainer)>,
)
    requires
        only_closes(a, b),
        only_closes(b, c),
    ensures
        only_closes(a, c),
{
    assert forall|i: int| 0 <= i < c.len() implies (#[trigger] c[i]).0 == a[i].0
        && c[i].1.external_container == a[i].1.external_container && (c[i].1.is_open
        ==> a[i].1.is_open) by {
        assert(b[i].0 == a[i].0);
    }
}

/// Whether handling the frame's changes closes the container at `order[k]`:
/// it is another container opened from the same place as the container
/// opened last (a sibling), or it was opened from a container that closed
/// this frame, or from one closed before it in `order`.
pub open spec fn update_closes(
    before: Seq<(Entity, SubmenuContainer)>,
    changed: Seq<bool>,
    order: Seq<int>,
    k: int,
) -> bool {
    let c = order[k];
    ||| match last_opened(before, changed) {
        Some(o) => before[c].1.external_container == before[o].1.external_container && before[c].0
            != before[o].0,
        None => false,
    }
    ||| exists|j: int|
        0 <= j < before.len() && changed[j] && !before[j].1.is_open
            && before[c].1.external_container == Some(#[trigger] before[j].0)
    ||| exists|m: int|
        0 <= m < k && before[c].1.external_container == Some(before[#[trigger] order[m]].0)
}

/// The containers closed, in `order`, are those that handling the frame's
/// changes closes (see `update_closes`), and afterwards none is left open
/// that was opened from one of them.
pub open spec fn update_closing(
    before: Seq<(Entity, SubmenuContainer)>,
    after: Seq<(Entity, SubmenuContainer)>,
    changed: Seq<bool>,
    order: Seq<int>,
) -> bool {
    &&& forall|k: int|
        #![trigger order[k]]
        0 <= k < order.len() ==> 0 <= order[k] < before.len() && update_closes(
            before,
            changed,
            order,
            k,
        )
    &&& forall|i: int|
        0 <= i < before.len() ==> (closed_between(before, after, i) <==> #[trigger] order.contains(i))
    &&& forall|i: int, m: int|
        0 <= i < after.len() && (#[trigger] after[i]).1.is_open && 0 <= m < order.len()
            ==> after[i].1.external_container != Some(before[#[trigger] order[m]].0)
}

/// Closing more containers after `before` keeps the record of which were
/// closed: the containers closed from `start` to `after` are those of `first`
/// followed by those of `second`.
proof fn lemma_closed_concat(
    start: Seq<(Entity, SubmenuContainer)>,
    before: Seq<(Entity, SubmenuContainer)>,
    after: Seq<(Entity, SubmenuContainer)>,
    first: Seq<int>,
    second: Seq<int>,
)
    requires
        only_closes(start, before),
        only_closes(before, after),
        forall|j: int| 0 <= j < start.len() ==> (closed_between(start, before, j) <==> first.contains(j)),
        forall|j: int|
            0 <= j < before.len() ==> (closed_between(before, after, j) <==> second.contains(j)),
    ensures
        forall|j: int|
            0 <= j < start.len() ==> (closed_between(start, after, j) <==> (first + second).contains(j)),
{
    let joined = first + second;
    assert forall|j: int| 0 <= j < start.len() implies (closed_between(start, after, j)
        <==> joined.contains(j)) by {
        assert(before.len() == start.len() && after.len() == start.len());
        assert(before[j].0 == start[j].0);
        if closed_between(start, after, j) {
            if before[j].1.is_open {
                assert(closed_between(before, after, j));
                assert(second.contains(j));
                let m = choose|m: int| 0 <= m < second.len() && second[m] == j;
                assert(joined[first.len() + m] == j);
            } else {
                assert(closed_between(start, before, j));
                assert(first.contains(j));
                let m = choose|m: int| 0 <= m < first.len() && first[m] == j;
                assert(joined[m] == j);
            }
        }
        if joined.contains(j) {
            let m = choose|m: int| 0 <= m < joined.len() && joined[m] == j;
            if m < first.len() {
                assert(first[m] == j);
                assert(first.contains(j));
            } else {
                assert(second[m - first.len()] == j);
                assert(second.contains(j));
            }
        }
    }
}

/// Extends a closing order by the containers closed from those of `parent`:
/// each container of `sub` was opened from `parent` or from one before it in
/// `sub`, and `parent` is the entity of `order[p]`, so each keeps the rule.
proof fn lemma_update_closes_extend(
    start: Seq<(Entity, SubmenuContainer)>,
    before: Seq<(Entity, SubmenuContainer)>,
    changed: Seq<bool>,
    order: Seq<int>,
    sub: Seq<int>,
    parent: Entity,
    p: int,
)
    requires
        only_closes(start, before),
        forall|k: int|
            #![trigger order[k]]
            0 <= k < order.len() ==> 0 <= order[k] < start.len() && update_closes(
                start,
                changed,
                order,
                k,
            ),
        closing_chain(before, sub, Some(parent)),
        (0 <= p < order.len() && start[order[p]].0 == parent) || (exists|j: int|
            0 <= j < start.len() && changed[j] && !start[j].1.is_open && start[j].0 == parent),
    ensures
        forall|k: int|
            #![trigger (order + sub)[k]]
            0 <= k < (order + sub).len() ==> 0 <= (order + sub)[k] < start.len() && update_closes(
                start,
                changed,
                order + sub,
                k,
            ),
{
    let joined = order + sub;
    assert forall|k: int| 0 <= k < joined.len() implies 0 <= #[trigger] joined[k] < start.len()
        && update_closes(start, changed, joined, k) by {
        if k < order.len() {
            assert(joined[k] == order[k]);
            assert(update_closes(start, changed, order, k));
            if !(match last_opened(start, changed) {
                Some(o) => start[order[k]].1.external_container == start[o].1.external_container
                    && start[order[k]].0 != start[o].0,
                None => false,
            }) && !(exists|j: int|
                0 <= j < start.len() && changed[j] && !start[j].1.is_open
                    && start[order[k]].1.external_container == Some(#[trigger] start[j].0)) {
                let m = choose|m: int|
                    0 <= m < k && start[order[k]].1.external_container == Some(
                        start[#[trigger] order[m]].0,
                    );
                assert(joined[m] == order[m]);
            }
        } else {
            let u = k - order.len();
            let c = sub[u];
            assert(joined[k] == c);
            assert(before[c].0 == start[c].0);
            assert(before[c].1.external_container == start[c].1.external_container);
            if before[c].1.external_container == Some(parent) {
                if 0 <= p < order.len() && start[order[p]].0 == parent {
                    assert(joined[p] == order[p]);
                } else {
                    let j = choose|j: int|
                        0 <= j < start.len() && changed[j] && !start[j].1.is_open && start[j].0
                            == parent;
                    assert(start[c].1.external_container == Some(start[j].0));
                }
            } else {
                let m = choose|m: int|
                    0 <= m < u && before[c].1.external_container == Some(before[sub[m]].0);
                assert(joined[order.len() + m] == sub[m]);
                assert(before[sub[m]].0 == start[sub[m]].0);
            }
        }
    }
}

/// Handles the containers whose state changed this frame (`changed`): when
/// a container was opened, the other open containers opened from the same
/// place (its siblings) are closed, with what was opened from them; and what
/// was opened from a container that closed this frame is closed too. Nothing
/// else changes (see `update_closing`).
pub fn update_open_submenu_containers(
    containers: &mut Vec<(Entity, SubmenuContainer)>,
    changed: &Vec<bool>,
)
    requires
        old(containers).len() == changed.len(),
    ensures
        only_closes(old(containers)@, final(containers)@),
        exists|order: Seq<int>|
            update_closing(old(containers)@, final(containers)@, changed@, order),
        forall|j: int, i: int|
            0 <= j < old(containers)@.len() && changed@[j] && !old(containers)@[j].1.is_open && 0
                <= i < final(containers)@.len() && (#[trigger] final(containers)@[i]).1.is_open
                ==> final(containers)@[i].1.external_container != Some(
                #[trigger] old(containers)@[j].0,
            ),
        last_opened(old(containers)@, changed@) matches Some(o) ==> forall|i: int|
            0 <= i < final(containers)@.len() && (#[trigger] final(containers)@[i]).1.is_open
                && final(containers)@[i].1.external_container
                == old(containers)@[o].1.external_container ==> final(containers)@[i].0
                == old(containers)@[o].0,
{
    let ghost start = containers@;
    let n = containers.len();
    let mut closed: Vec<Entity> = Vec::new();
    let ghost mut closed_at: Seq<int> = Seq::empty();
    let mut open: Option<usize> = None;
    let mut i: usize = 0;
    while i < n
        invariant
            i <= n,
            n == start.len(),
            n == changed.len(),
            containers@ == start,
            forall|j: int|
                0 <= j < i && changed@[j] && !start[j].1.is_open ==> closed@.contains(#[trigger] start[j].0),
            closed_at.len() == closed.len(),
            forall|m: int|
                #![trigger closed_at[m]]
                0 <= m < closed.len() ==> 0 <= closed_at[m] < n && changed@[closed_at[m]]
                    && !start[closed_at[m]].1.is_open && start[closed_at[m]].0 == closed@[m],
            match open {
                Some(o) => Some(o as int) == last_opened(start.take(i as int), changed@),
                None => last_opened(start.take(i as int), changed@) is None,
            },
        decreases n - i,
    {
        assert(start.take(i + 1).drop_last() =~= start.take(i as int));
        let (entity, container) = containers[i];
        if changed[i] {
            if container.is_open {
                open = Some(i);
            } else {
                let ghost old_closed = closed@;
                closed.push(entity);
                proof {
                    closed_at = closed_at.push(i as int);
                    assert forall|j: int|
                        0 <= j <= i && changed@[j] && !start[j].1.is_open implies closed@.contains(
                            #[trigger] start[j].0,
                        ) by {
                        if j < i {
                            let m = choose|m: int| 0 <= m < old_closed.len() && old_closed[m] == start[j].0;
                            assert(closed@[m] == start[j].0);
                        } else {
                            assert(closed@[closed.len() - 1] == start[j].0);
                        }
                    }
                }
            }
        }
        i = i + 1;
    }
    assert(start.take(n as int) =~= start);
    proof {
        lemma_last_opened_bound(start, changed@);
    }
    let mut siblings: Vec<Entity> = Vec::new();
    let ghost mut order: Seq<int> = Seq::empty();
    if let Some(o) = open {
        let (open_entity, open_container) = containers[o];
        let open_external = open_container.external_container;
        let mut i: usize = 0;
        while i < n
            invariant
                i <= n,
                n == start.len(),
                containers.len() == n,
                o < n,
                last_opened(start, changed@) == Some(o as int),
                open_entity == start[o as int].0,
                open_external == start[o as int].1.external_container,
                only_closes(start, containers@),
                forall|j: int| i <= j < n ==> containers@[j] == start[j],
                forall|j: int|
                    0 <= j < i && (#[trigger] containers@[j]).1.is_open
                        && containers@[j].1.external_container == open_external ==> containers@[j].0
                        == open_entity,
                order.len() == siblings.len(),
                forall|m: int|
                    #![trigger order[m]]
                    0 <= m < order.len() ==> 0 <= order[m] < i && siblings@[m] == start[order[m]].0
                        && start[order[m]].1.external_container == open_external
                        && start[order[m]].0 != open_entity,
                forall|j: int| 0 <= j < n ==> (closed_between(start, containers@, j) <==> order.contains(j)),
            decreases n - i,
        {
            let (entity, container) = containers[i];
            if container.external_container == open_external && container.is_open && entity
                != open_entity {
                containers.set(i, (entity, SubmenuContainer { is_open: false, ..container }));
                siblings.push(entity);
                proof {
                    let old_order = order;
                    order = order.push(i as int);
                    assert forall|j: int| 0 <= j < n implies (closed_between(start, containers@, j)
                        <==> order.contains(j)) by {
                        if j != i {
                            if old_order.contains(j) {
                                let m = choose|m: int| 0 <= m < old_order.len() && old_order[m] == j;
                                assert(order[m] == j);
                            }
                            if order.contains(j) {
                                let m = choose|m: int| 0 <= m < order.len() && order[m] == j;
                                assert(m < old_order.len());
                                assert(old_order[m] == j);
                            }
                        } else {
                            assert(order[order.len() - 1] == j);
                        }
                    }
                }
            } else {
                proof {
                    assert forall|j: int| 0 <= j < n implies (closed_between(start, containers@, j)
                        <==> order.contains(j)) by {
                        if order.contains(j) {
                            let m = choose|m: int| 0 <= m < order.len() && order[m] == j;
                            assert(order[m] < i);
                        }
                    }
                }
            }
            i = i + 1;
        }
    }
    let ghost middle = containers@;
    let ghost first_len = order.len();
    assert(only_closes(start, middle));
    assert forall|k: int|
        #![trigger order[k]]
        0 <= k < order.len() implies 0 <= order[k] < start.len() && update_closes(
            start,
            changed@,
            order,
            k,
        ) by {}
    let mut k: usize = 0;
    while k < siblings.len()
        invariant
            k <= siblings.len(),
            first_len == siblings.len(),
            containers.len() == n,
            n == start.len(),
            n == changed.len(),
            only_closes(start, containers@),
            order.len() >= first_len,
            forall|m: int|
                #![trigger siblings@[m]]
                0 <= m < first_len ==> siblings@[m] == start[order[m]].0,
            forall|t: int|
                #![trigger order[t]]
                0 <= t < order.len() ==> 0 <= order[t] < start.len() && update_closes(
                    start,
                    changed@,
                    order,
                    t,
                ),
            forall|j: int| 0 <= j < n ==> (closed_between(start, containers@, j) <==> order.contains(j)),
            forall|j: int, m: int|
                0 <= j < n && (#[trigger] containers@[j]).1.is_open && 0 <= m < order.len() && !(k <= m
                    < first_len) ==> containers@[j].1.external_container != Some(
                    start[#[trigger] order[m]].0,
                ),
            last_opened(start, changed@) matches Some(o) ==> forall|i: int|
                0 <= i < n && (#[trigger] containers@[i]).1.is_open
                    && containers@[i].1.external_container == start[o].1.external_container
                    ==> containers@[i].0 == start[o].0,
        decreases siblings.len() - k,
    {
        let ghost before = containers@;
        let sub = close_chain(containers, Some(siblings[k]));
        proof {
            let after = containers@;
            lemma_only_closes_trans(start, before, after);
            lemma_closed_concat(start, before, after, order, sub@);
            lemma_update_closes_extend(start, before, changed@, order, sub@, siblings@[k as int], k as int);
            let joined = order + sub@;
            assert forall|j: int, m: int|
                0 <= j < n && (#[trigger] after[j]).1.is_open && 0 <= m < joined.len() && !(k + 1 <= m
                    < first_len) implies after[j].1.external_container != Some(
                start[#[trigger] joined[m]].0,
            ) by {
                assert(before[j].1.is_open);
                if m < order.len() {
                    assert(joined[m] == order[m]);
                } else {
                    let u = m - order.len();
                    assert(joined[m] == sub@[u]);
                    assert(before[sub@[u]].0 == start[sub@[u]].0);
                }
            }
            order = joined;
        }
        k = k + 1;
    }
    let mut k: usize = 0;
    while k < closed.len()
        invariant
            k <= closed.len(),
            containers.len() == n,
            n == start.len(),
            n == changed.len(),
            only_closes(start, containers@),
            forall|j: int|
                0 <= j < n && changed@[j] && !start[j].1.is_open ==> closed@.contains(#[trigger] start[j].0),
            closed_at.len() == closed.len(),
            forall|m: int|
                #![trigger closed_at[m]]
                0 <= m < closed.len() ==> 0 <= closed_at[m] < n && changed@[closed_at[m]]
                    && !start[closed_at[m]].1.is_open && start[closed_at[m]].0 == closed@[m],
            forall|m: int, i: int|
                0 <= m < k && 0 <= i < n && (#[trigger] containers@[i]).1.is_open
                    ==> containers@[i].1.external_container != Some(#[trigger] closed@[m]),
            forall|t: int|
                #![trigger order[t]]
                0 <= t < order.len() ==> 0 <= order[t] < start.len() && update_closes(
                    start,
                    changed@,
                    order,
                    t,
                ),
            forall|j: int| 0 <= j < n ==> (closed_between(start, containers@, j) <==> order.contains(j)),
            forall|j: int, m: int|
                0 <= j < n && (#[trigger] containers@[j]).1.is_open && 0 <= m < order.len()
                    ==> containers@[j].1.external_container != Some(start[#[trigger] order[m]].0),
            last_opened(start, changed@) matches Some(o) ==> forall|i: int|
                0 <= i < n && (#[trigger] containers@[i]).1.is_open
                    && containers@[i].1.external_container == start[o].1.external_container
                    ==> containers@[i].0 == start[o].0,
        decreases closed.len() - k,
    {
        let ghost before = containers@;
        let sub = close_chain(containers, Some(closed[k]));
        proof {
            let after = containers@;
            lemma_only_closes_trans(start, before, after);
            lemma_closed_concat(start, before, after, order, sub@);
            let at = closed_at[k as int];
            assert(0 <= at < n && changed@[at] && !start[at].1.is_open && start[at].0 == closed@[k as int]);
            lemma_update_closes_extend(start, before, changed@, order, sub@, closed@[k as int], -1);
            let joined = order + sub@;
            assert forall|j: int, m: int|
                0 <= j < n && (#[trigger] after[j]).1.is_open && 0 <= m < joined.len() implies after[j].1.external_container
                != Some(start[#[trigger] joined[m]].0) by {
                assert(before[j].1.is_open);
                if m < order.len() {
                    assert(joined[m] == order[m]);
                } else {
                    let u = m - order.len();
                    assert(joined[m] == sub@[u]);
                    assert(before[sub@[u]].0 == start[sub@[u]].0);
                }
            }
            order = joined;
        }
        k = k + 1;
    }
    assert(update_closing(start, containers@, changed@, order));
    assert forall|j: int, i: int|
        0 <= j < n && changed@[j] && !start[j].1.is_open && 0 <= i < n
            && (#[trigger] containers@[i]).1.is_open implies containers@[i].1.external_container
        != Some(#[trigger] start[j].0) by {
        let m = choose|m: int| 0 <= m < closed.len() && closed@[m] == start[j].0;
    }
}

/// A change of any menu closes every submenu container.
pub fn close_submenus_on_menu_change(any_menu_changed: bool, containers: &mut Vec<SubmenuContainer>)
    ensures
        final(containers).len() == old(containers).len(),
        forall|i: int|
            0 <= i < final(containers).len() ==> #[trigger] final(containers)@[i] == if any_menu_changed {
                (SubmenuContainer { is_open: false, ..old(containers)@[i] })
            } else {
                old(containers)@[i]
            },
{
    if !any_menu_changed {
        return;
    }
    let ghost initial = containers@;
    let mut i: usize = 0;
    while i < containers.len()
        invariant
            i <= containers.len(),
            containers.len() == initial.len(),
            forall|j: int| 0 <= j < i ==> containers@[j] == (SubmenuContainer { is_open: false, ..initial[j] }),
            forall|j: int| i <= j < containers.len() ==> containers@[j] == initial[j],
        decreases containers.len() - i,
    {
        let mut container = containers[i];
        container.is_open = false;
        containers.set(i, container);
        i = i + 1;
    }
}

} // verus!
