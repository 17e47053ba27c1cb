//! What flexible rows and columns share: which resize handles of a row (or
//! column) are shown and which neighbour each handle resizes against, and the
//! parents whose children are laid out.
use vstd::prelude::*;

use crate::entity::Entity;

verus! {

/// A child of a container of flexible rows (or columns): whether it is one,
/// and, if not, whether it takes room in the flow (is not positioned
/// absolutely).
#[derive(Clone, Copy, Debug, PartialEq, Eq, Structural)]
pub struct FlexiChild {
    pub entity: Entity,
    pub is_flexi: bool,
    pub in_flow: bool,
}

/// The handles of one flexible row (or column): whether its first (top or
/// left) and second (bottom or right) handle are shown, and, when
/// `assign_neighbours`, the neighbour each handle resizes against.
#[derive(Clone, Copy, Debug, PartialEq, Eq, Structural)]
pub struct FlexiHandleUpdate {
    pub flexi: Entity,
    pub first_visible: bool,
    pub second_visible: bool,
    pub assign_neighbours: bool,
    pub first_neighbour: Option<Entity>,
    pub second_neighbour: Option<Entity>,
}

/// The indices of the flexible children, in order.
pub open spec fn flexi_indices(children: Seq<FlexiChild>) -> Seq<int>
    decreases children.len(),
{
    if children.len() == 0 {
        seq![]
    } else if children.last().is_flexi {
        flexi_indices(children.drop_last()).push(children.len() - 1)
    } else {
        flexi_indices(children.drop_last())
    }
}

/// Whether the child before `i` leaves no room between flexible children:
/// true at the start, true after a flexible child, false after a child in the
/// flow, and carried over absolutely positioned children.
pub open spec fn follows_flexi(children: Seq<FlexiChild>, i: int) -> bool
    decreases i,
{
    if i <= 0 {
        true
    } else if children[i - 1].is_flexi {
        true
    } else if children[i - 1].in_flow {
        false
    } else {
        follows_flexi(children, i - 1)
    }
}

/// The handle update of the `k`-th flexible child among several children: its
/// first handle shows when a child in the flow comes before it, its second
/// handle unless it is the last child, and its handles resize against the
/// flexible children before and after it.
pub open spec fn handle_update(children: Seq<FlexiChild>, k: int) -> FlexiHandleUpdate {
    let idx = flexi_indices(children);
    FlexiHandleUpdate {
        flexi: children[idx[k]].entity,
        first_visible: !follows_flexi(children, idx[k]),
        second_visible: idx[k] != children.len() - 1,
        assign_neighbours: true,
        first_neighbour: if k > 0 {
            Some(children[idx[k - 1]].entity)
        } else {
            None
        },
        second_neighbour: if k + 1 < idx.len() {
            Some(children[idx[k + 1]].entity)
        } else {
            None
        },
    }
}

/// The handle updates of a collection of children: a lone flexible child
/// hides both handles and keeps its neighbours; otherwise one update per
/// flexible child (see `handle_update`).
pub open spec fn handle_updates(children: Seq<FlexiChild>) -> Seq<FlexiHandleUpdate> {
    if children.len() == 1 {
        if children[0].is_flexi {
            seq![
                FlexiHandleUpdate {
                    flexi: children[0].entity,
                    first_visible: false,
                    second_visible: false,
                    assign_neighbours: false,
                    first_neighbour: None,
                    second_neighbour: None,
                },
            ]
        } else {
            seq![]
        }
    } else {
        Seq::new(flexi_indices(children).len(), |k: int| handle_update(children, k))
    }
}

proof fn lemma_flexi_indices(children: Seq<FlexiChild>)
    ensures
        forall|k: int|
            0 <= k < flexi_indices(children).len() ==> 0 <= #[trigger] flexi_indices(children)[k]
                < children.len() && children[flexi_indices(children)[k]].is_flexi,
        flexi_indices(children).len() <= children.len(),
    decreases children.len(),
{
    if children.len() > 0 {
        lemma_flexi_indices(children.drop_last());
        let d = children.drop_last();
        assert forall|k: int|
            0 <= k < flexi_indices(children).len() implies 0 <= #[trigger] flexi_indices(children)[k]
            < children.len() && children[flexi_indices(children)[k]].is_flexi by {
            if k < flexi_indices(d).len() {
                assert(children[flexi_indices(d)[k]] == d[flexi_indices(d)[k]]);
            }
        }
    }
}

proof fn lemma_flexi_indices_prefix(children: Seq<FlexiChild>, i: int)
    requires
        0 <= i < children.len(),
    ensures
        flexi_indices(children.take(i + 1)) == if children[i].is_flexi {
            flexi_indices(children.take(i)).push(i)
        } else {
            flexi_indices(children.take(i))
        },
{
    assert(children.take(i + 1).drop_last() =~= children.take(i));
}

/// The handle updates of a collection of children (see `handle_updates`).
pub fn handles_on_collection(children: &Vec<FlexiChild>) -> (updates: Vec<FlexiHandleUpdate>)
    ensures
        updates@ == handle_updates(children@),
{
    let n = children.len();
    let mut updates: Vec<FlexiHandleUpdate> = Vec::new();
    if n == 1 {
        if children[0].is_flexi {
            updates.push(
                FlexiHandleUpdate {
                    flexi: children[0].entity,
                    first_visible: false,
                    second_visible: false,
                    assign_neighbours: false,
                    first_neighbour: None,
                    second_neighbour: None,
                },
            );
        }
        assert(updates@ =~= handle_updates(children@));
        return updates;
    }
    let ghost all = children@;
    let mut positions: Vec<usize> = Vec::new();
    let mut first_visible: Vec<bool> = Vec::new();
    let mut prev_is_flexi = true;
    let mut i: usize = 0;
    while i < n
        invariant
            i <= n,
            n == children.len(),
            all == children@,
            positions.len() == first_visible.len(),
            positions@.map_values(|p: usize| p as int) == flexi_indices(all.take(i as int)),
            forall|k: int|
                0 <= k < positions.len() ==> #[trigger] first_visible@[k] == !follows_flexi(
                    all,
                    positions@[k] as int,
                ),
            prev_is_flexi == follows_flexi(all, i as int),
        decreases n - i,
    {
        proof {
            lemma_flexi_indices_prefix(all, i as int);
        }
        let child = children[i];
        if child.is_flexi {
            let ghost before = positions@;
            positions.push(i);
            first_visible.push(!prev_is_flexi);
            assert(positions@.map_values(|p: usize| p as int) =~= before.map_values(
                |p: usize| p as int,
            ).push(i as int));
            prev_is_flexi = true;
        } else if child.in_flow {
            prev_is_flexi = false;
        }
        i = i + 1;
    }
    assert(all.take(n as int) =~= all);
    let ghost idx = flexi_indices(all);
    proof {
        lemma_flexi_indices(all);
    }
    let m = positions.len();
    let mut k: usize = 0;
    while k < m
        invariant
            k <= m,
            m == positions.len(),
            n == children.len(),
            n != 1,
            all == children@,
            idx == flexi_indices(all),
            positions@.map_values(|p: usize| p as int) == idx,
            positions.len() == first_visible.len(),
            forall|j: int|
                0 <= j < positions.len() ==> #[trigger] first_visible@[j] == !follows_flexi(
                    all,
                    positions@[j] as int,
                ),
            forall|j: int|
                0 <= j < idx.len() ==> 0 <= #[trigger] idx[j] < all.len() && all[idx[j]].is_flexi,
            updates.len() == k,
            forall|j: int| 0 <= j < k ==> #[trigger] updates@[j] == handle_update(all, j),
        decreases m - k,
    {
        assert(idx[k as int] == positions@[k as int] as int);
        let p = positions[k];
        let first_neighbour = if k > 0 {
            assert(idx[k - 1] == positions@[k - 1] as int);
            Some(children[positions[k - 1]].entity)
        } else {
            None
        };
        let second_neighbour = if k + 1 < m {
            assert(idx[k + 1] == positions@[k + 1] as int);
            Some(children[positions[k + 1]].entity)
        } else {
            None
        };
        updates.push(
            FlexiHandleUpdate {
                flexi: children[p].entity,
                first_visible: first_visible[k],
                second_visible: p != n - 1,
                assign_neighbours: true,
                first_neighbour,
                second_neighbour,
            },
        );
        k = k + 1;
    }
    assert(updates@ =~= handle_updates(all));
    updates
}

/// The handles of neighbouring flexible children point at each other: the
/// second handle of each resizes against the next one, whose first handle
/// resizes against it.
pub proof fn neighbours_point_at_each_other(children: Seq<FlexiChild>, k: int)
    requires
        children.len() != 1,
        0 <= k,
        k + 1 < handle_updates(children).len(),
    ensures
        handle_updates(children)[k].second_neighbour == Some(handle_updates(children)[k + 1].flexi),
        handle_updates(children)[k + 1].first_neighbour == Some(handle_updates(children)[k].flexi),
{
}

/// The entities without repeats, each where it first occurs.
pub open spec fn without_repeats(entities: Seq<Entity>) -> Seq<Entity>
    decreases entities.len(),
{
    if entities.len() == 0 {
        seq![]
    } else {
        let rest = without_repeats(entities.drop_last());
        if rest.contains(entities.last()) {
            rest
        } else {
            rest.push(entities.last())
        }
    }
}

/// The parents of a set of children, each once, in the order first met.
pub fn unique_entities(entities: &Vec<Entity>) -> (r: Vec<Entity>)
    ensures
        r@ == without_repeats(entities@),
{
    let mut r: Vec<Entity> = Vec::new();
    let mut i: usize = 0;
    while i < entities.len()
        invariant
            i <= entities.len(),
            r@ == without_repeats(entities@.take(i as int)),
        decreases entities.len() - i,
    {
        assert(entities@.take(i + 1).drop_last() =~= entities@.take(i as int));
        let e = entities[i];
        let mut found = false;
        let mut j: usize = 0;
        while j < r.len()
            invariant
                j <= r.len(),
                found == exists|t: int| 0 <= t < j && r@[t] == e,
            decreases r.len() - j,
        {
            if r[j] == e {
                found = true;
            }
            j = j + 1;
        }
        if !found {
            r.push(e);
        }
        i = i + 1;
    }
    assert(entities@.take(entities.len() as int) =~= entities@);
    r
}

/// Without repeats, no entity occurs twice, and exactly the entities given
/// occur.
pub proof fn without_repeats_laws(entities: Seq<Entity>)
    ensures
        forall|i: int, j: int|
            0 <= i < j < without_repeats(entities).len() ==> without_repeats(entities)[i]
                != without_repeats(entities)[j],
        forall|e: Entity| without_repeats(entities).contains(e) <==> entities.contains(e),
    decreases entities.len(),
{
    if entities.len() > 0 {
        let d = entities.drop_last();
        without_repeats_laws(d);
        let rest = without_repeats(d);
        let last = entities.last();
        let w = without_repeats(entities);
        assert forall|e: Entity| w.contains(e) <==> entities.contains(e) by {
            if entities.contains(e) {
                let i = choose|i: int| 0 <= i < entities.len() && entities[i] == e;
                if i < entities.len() - 1 {
                    assert(d[i] == e);
                    assert(d.contains(e));
                    assert(rest.contains(e));
                    let j = choose|j: int| 0 <= j < rest.len() && rest[j] == e;
                    if !rest.contains(last) {
                        assert(w[j] == e);
                    }
                } else {
                    if !rest.contains(last) {
                        assert(w[rest.len() as int] == e);
                    }
                }
            }
            if w.contains(e) {
                let j = choose|j: int| 0 <= j < w.len() && w[j] == e;
                if j < rest.len() {
                    assert(rest[j] == e);
                    assert(rest.contains(e));
                    assert(d.contains(e));
                    let i = choose|i: int| 0 <= i < d.len() && d[i] == e;
                    assert(entities[i] == e);
                } else {
                    assert(e == last);
                    assert(entities[entities.len() - 1] == e);
                }
            }
        }
    }
}

} // verus!
