//! Docking zones: tab containers that take panels dropped on them, either
//! into their tabs or into a new zone split off beside them.
use vstd::prelude::*;

use crate::entity::Entity;
use crate::interaction::{DragState, DropPhase, FlexDirection};

verus! {

/// The part of a docking zone a panel is dropped on.
#[derive(Clone, Copy, Debug, PartialEq, Eq, Structural)]
pub enum DropArea {
    /// Not over the zone (bevy-side `None`).
    Outside,
    Center,
    North,
    East,
    South,
    West,
}

impl Default for DropArea {
    fn default() -> (a: Self)
        ensures
            a == DropArea::Outside,
    {
        DropArea::Outside
    }
}

/// Where a new zone goes relative to the zone it is split off.
#[derive(Clone, Copy, Debug, PartialEq, Eq, Structural)]
pub enum DockingZoneSplitDirection {
    VerticallyBefore,
    VerticallyAfter,
    HorizontallyBefore,
    HorizontallyAfter,
}

/// The split a drop on an edge asks for: north above, east to the right,
/// south below, west to the left (anything else: below).
pub open spec fn split_direction_for(area: DropArea) -> DockingZoneSplitDirection {
    match area {
        DropArea::North => DockingZoneSplitDirection::VerticallyBefore,
        DropArea::East => DockingZoneSplitDirection::HorizontallyAfter,
        DropArea::South => DockingZoneSplitDirection::VerticallyAfter,
        DropArea::West => DockingZoneSplitDirection::HorizontallyBefore,
        _ => DockingZoneSplitDirection::VerticallyAfter,
    }
}

/// How a zone laid out in `layout` is split in `direction`: whether a new
/// split container has to be put around the zone (`.0`), and whether the new
/// zone comes before the zone (`.1`).
pub open spec fn split_layout(layout: FlexDirection, direction: DockingZoneSplitDirection) -> (
    bool,
    bool,
) {
    match layout {
        FlexDirection::Row => match direction {
            DockingZoneSplitDirection::VerticallyBefore => (false, true),
            DockingZoneSplitDirection::VerticallyAfter => (false, false),
            DockingZoneSplitDirection::HorizontallyBefore => (true, true),
            DockingZoneSplitDirection::HorizontallyAfter => (true, false),
        },
        FlexDirection::Column => match direction {
            DockingZoneSplitDirection::VerticallyBefore => (true, true),
            DockingZoneSplitDirection::VerticallyAfter => (true, false),
            DockingZoneSplitDirection::HorizontallyBefore => (false, true),
            DockingZoneSplitDirection::HorizontallyAfter => (false, false),
        },
        FlexDirection::RowReverse => match direction {
            DockingZoneSplitDirection::VerticallyBefore => (false, false),
            DockingZoneSplitDirection::VerticallyAfter => (false, true),
            DockingZoneSplitDirection::HorizontallyBefore => (true, false),
            DockingZoneSplitDirection::HorizontallyAfter => (true, true),
        },
        FlexDirection::ColumnReverse => match direction {
            DockingZoneSplitDirection::VerticallyBefore => (true, false),
            DockingZoneSplitDirection::VerticallyAfter => (true, true),
            DockingZoneSplitDirection::HorizontallyBefore => (false, false),
            DockingZoneSplitDirection::HorizontallyAfter => (false, true),
        },
    }
}

/// Where the parts of a split go.
#[derive(Clone, Copy, Debug, PartialEq, Eq, Structural)]
pub struct SplitPlan {
    /// Whether a new split container is put in the zone's place, holding the
    /// zone and the new zone.
    pub inject_container: bool,
    /// Whether the new zone comes before the zone.
    pub new_zone_before: bool,
    /// The index among the parent's children where the new split container
    /// goes (when one is injected) or where the new zone goes (otherwise).
    pub insert_index: usize,
}

/// The split of the zone at `current_index` among its parent's children.
pub open spec fn split_plan(
    layout: FlexDirection,
    direction: DockingZoneSplitDirection,
    current_index: usize,
) -> SplitPlan {
    let (inject, before) = split_layout(layout, direction);
    SplitPlan {
        inject_container: inject,
        new_zone_before: before,
        insert_index: if inject || before {
            current_index
        } else {
            (current_index + 1) as usize
        },
    }
}

/// Plans the split of the zone at `current_index` among its parent's
/// children, laid out in `layout`, in `direction`.
pub fn plan_docking_zone_split(
    layout: FlexDirection,
    direction: DockingZoneSplitDirection,
    current_index: usize,
) -> (plan: SplitPlan)
    requires
        current_index < usize::MAX,
    ensures
        plan == split_plan(layout, direction, current_index),
{
    let (inject, before) = match layout {
        FlexDirection::Row => match direction {
            DockingZoneSplitDirection::VerticallyBefore => (false, true),
            DockingZoneSplitDirection::VerticallyAfter => (false, false),
            DockingZoneSplitDirection::HorizontallyBefore => (true, true),
            DockingZoneSplitDirection::HorizontallyAfter => (true, false),
        },
        FlexDirection::Column => match direction {
            DockingZoneSplitDirection::VerticallyBefore => (true, true),
            DockingZoneSplitDirection::VerticallyAfter => (true, false),
            DockingZoneSplitDirection::HorizontallyBefore => (false, true),
            DockingZoneSplitDirection::HorizontallyAfter => (false, false),
        },
        FlexDirection::RowReverse => match direction {
            DockingZoneSplitDirection::VerticallyBefore => (false, false),
            DockingZoneSplitDirection::VerticallyAfter => (false, true),
            DockingZoneSplitDirection::HorizontallyBefore => (true, false),
            DockingZoneSplitDirection::HorizontallyAfter => (true, true),
        },
        FlexDirection::ColumnReverse => match direction {
            DockingZoneSplitDirection::VerticallyBefore => (true, false),
            DockingZoneSplitDirection::VerticallyAfter => (true, true),
            DockingZoneSplitDirection::HorizontallyBefore => (false, false),
            DockingZoneSplitDirection::HorizontallyAfter => (false, true),
        },
    };
    SplitPlan {
        inject_container: inject,
        new_zone_before: before,
        insert_index: if inject || before {
            current_index
        } else {
            current_index + 1
        },
    }
}

/// Whether a split direction puts the new zone before the zone.
pub open spec fn is_before(direction: DockingZoneSplitDirection) -> bool {
    direction == DockingZoneSplitDirection::VerticallyBefore || direction
        == DockingZoneSplitDirection::HorizontallyBefore
}

/// Whether a split direction cuts the zone vertically (one above the other).
pub open spec fn is_vertical(direction: DockingZoneSplitDirection) -> bool {
    direction == DockingZoneSplitDirection::VerticallyBefore || direction
        == DockingZoneSplitDirection::VerticallyAfter
}

/// In a forward layout the new zone goes before exactly for a north or west
/// drop; a reversed layout swaps before and after but injects the same; and a
/// container is injected exactly when the cut goes along the layout's row
/// (vertical in a column, horizontal in a row).
pub proof fn split_layout_laws(direction: DockingZoneSplitDirection)
    ensures
        split_layout(FlexDirection::Row, direction).1 == is_before(direction),
        split_layout(FlexDirection::Column, direction).1 == is_before(direction),
        split_layout(FlexDirection::RowReverse, direction).0 == split_layout(
            FlexDirection::Row,
            direction,
        ).0,
        split_layout(FlexDirection::RowReverse, direction).1 == !split_layout(
            FlexDirection::Row,
            direction,
        ).1,
        split_layout(FlexDirection::ColumnReverse, direction).0 == split_layout(
            FlexDirection::Column,
            direction,
        ).0,
        split_layout(FlexDirection::ColumnReverse, direction).1 == !split_layout(
            FlexDirection::Column,
            direction,
        ).1,
        split_layout(FlexDirection::Row, direction).0 == !is_vertical(direction),
        split_layout(FlexDirection::Column, direction).0 == is_vertical(direction),
{
}

/// What a change of a docking zone's drop zone asks for.
#[derive(Clone, Copy, Debug, PartialEq, Eq, Structural)]
pub enum DockingZoneAction {
    /// Clear the zone's highlight.
    ClearHighlight,
    /// Highlight the part of the zone the panel would land on.
    Highlight { area: DropArea },
    /// Dock the dropped panel in the zone's tabs (and clear the highlight).
    DockInTabs,
    /// Split a new zone off for the dropped panel (and clear the highlight).
    Split { direction: DockingZoneSplitDirection },
}

/// The answer to a drop zone change: with the tab bar hovered, no accepted
/// panel coming in, or the drop inactive, cancelled or left, the highlight
/// clears; while a panel enters or hovers, the area under it is highlighted;
/// a drop in the center docks the panel in the tabs, a drop elsewhere splits.
pub open spec fn docking_zone_action(
    bar_hovered: bool,
    phase: DropPhase,
    accepted_incoming: bool,
    area: DropArea,
) -> DockingZoneAction {
    if bar_hovered || phase == DropPhase::Inactive || phase == DropPhase::DropCanceled || phase
        == DropPhase::DroppableLeft || !accepted_incoming {
        DockingZoneAction::ClearHighlight
    } else if phase == DropPhase::DroppableEntered || phase == DropPhase::DroppableHover {
        DockingZoneAction::Highlight { area }
    } else if area == DropArea::Center {
        DockingZoneAction::DockInTabs
    } else {
        DockingZoneAction::Split { direction: split_direction_for(area) }
    }
}

/// A panel dropped on an edge of a zone splits a new zone off toward that
/// edge: the cut is vertical (one zone above the other) exactly for the north
/// and south edges, and the new zone comes first exactly for the north and
/// west edges; a drop in the center docks the panel in the zone's tabs.
pub proof fn drop_splits_toward_the_edge(area: DropArea)
    ensures
        ({
            let action = docking_zone_action(false, DropPhase::Dropped, true, area);
            &&& area == DropArea::Center ==> action == DockingZoneAction::DockInTabs
            &&& (area == DropArea::North || area == DropArea::South || area == DropArea::East
                || area == DropArea::West) ==> (action matches DockingZoneAction::Split { direction }
                && is_vertical(direction) == (area == DropArea::North || area == DropArea::South)
                && is_before(direction) == (area == DropArea::North || area == DropArea::West))
        }),
{
}

/// Decides the answer to a drop zone change (see `docking_zone_action`).
pub fn handle_docking_zone_drop_zone_change(
    bar_hovered: bool,
    phase: DropPhase,
    accepted_incoming: bool,
    area: DropArea,
) -> (action: DockingZoneAction)
    ensures
        action == docking_zone_action(bar_hovered, phase, accepted_incoming, area),
{
    if bar_hovered || phase == DropPhase::Inactive || phase == DropPhase::DropCanceled || phase
        == DropPhase::DroppableLeft || !accepted_incoming {
        DockingZoneAction::ClearHighlight
    } else if phase == DropPhase::DroppableEntered || phase == DropPhase::DroppableHover {
        DockingZoneAction::Highlight { area }
    } else if area == DropArea::Center {
        DockingZoneAction::DockInTabs
    } else {
        let direction = match area {
            DropArea::North => DockingZoneSplitDirection::VerticallyBefore,
            DropArea::East => DockingZoneSplitDirection::HorizontallyAfter,
            DropArea::South => DockingZoneSplitDirection::VerticallyAfter,
            DropArea::West => DockingZoneSplitDirection::HorizontallyBefore,
            _ => DockingZoneSplitDirection::VerticallyAfter,
        };
        DockingZoneAction::Split { direction }
    }
}

/// Whether the resize handles of the sized zones are shown: not while a
/// floating panel's title is being dragged.
pub fn update_docking_zone_resize_handles(title_drags: &Vec<DragState>) -> (visible: bool)
    ensures
        visible == !exists|i: int|
            0 <= i < title_drags.len() && (title_drags@[i] == DragState::DragStart
                || title_drags@[i] == DragState::Dragging),
{
    let mut i: usize = 0;
    while i < title_drags.len()
        invariant
            i <= title_drags.len(),
            forall|j: int|
                0 <= j < i ==> !(title_drags@[j] == DragState::DragStart || title_drags@[j]
                    == DragState::Dragging),
        decreases title_drags.len() - i,
    {
        if title_drags[i].is_dragging() {
            return false;
        }
        i = i + 1;
    }
    true
}

/// What is done with a docking zone whose tab container changed.
#[derive(Clone, Copy, Debug, PartialEq, Eq, Structural)]
pub enum ZoneCleanup {
    /// The zone still has tabs.
    Keep,
    /// The zone has no parent: it is removed.
    DespawnOrphan,
    /// The zone is the last zone of a split container inside another
    /// container: the split container is removed with it.
    CollapseSplit,
    /// The zone is the last zone of a split container with no parent:
    /// nothing is done.
    LeaveAsIs,
    /// The zone is removed and its parent laid out again.
    DespawnAndReset,
}

/// The cleanup of an empty docking zone.
pub open spec fn zone_cleanup(
    tab_count: usize,
    has_parent: bool,
    parent_is_split: bool,
    other_zones_in_parent: bool,
    parent_has_parent: bool,
) -> ZoneCleanup {
    if tab_count > 0 {
        ZoneCleanup::Keep
    } else if !has_parent {
        ZoneCleanup::DespawnOrphan
    } else if parent_is_split && !other_zones_in_parent {
        if parent_has_parent {
            ZoneCleanup::CollapseSplit
        } else {
            ZoneCleanup::LeaveAsIs
        }
    } else {
        ZoneCleanup::DespawnAndReset
    }
}

/// Decides the cleanup of a docking zone whose tab container changed, from
/// its tab count, whether it has a parent, whether that parent is a split
/// container, whether the parent holds other sized zones, and whether the
/// parent has a parent itself.
pub fn cleanup_empty_docking_zone(
    tab_count: usize,
    has_parent: bool,
    parent_is_split: bool,
    other_zones_in_parent: bool,
    parent_has_parent: bool,
) -> (r: ZoneCleanup)
    ensures
        r == zone_cleanup(
            tab_count,
            has_parent,
            parent_is_split,
            other_zones_in_parent,
            parent_has_parent,
        ),
{
    if tab_count > 0 {
        return ZoneCleanup::Keep;
    }
    if !has_parent {
        return ZoneCleanup::DespawnOrphan;
    }
    let mut despawn_zone = true;
    let mut collapse = false;
    if parent_is_split {
        if !other_zones_in_parent {
            if parent_has_parent {
                collapse = true;
            }
            despawn_zone = false;
        }
    }
    if collapse {
        ZoneCleanup::CollapseSplit
    } else if despawn_zone {
        ZoneCleanup::DespawnAndReset
    } else {
        ZoneCleanup::LeaveAsIs
    }
}

/// A docking zone: its tab container and the node that highlights a drop.
#[derive(Clone, Copy, Debug, PartialEq, Eq, Structural)]
pub struct DockingZone {
    pub tab_container: Entity,
    pub zone_highlight: Entity,
}

impl Default for DockingZone {
    fn default() -> (z: Self)
        ensures
            z.tab_container.0 == crate::entity::PLACEHOLDER_BITS,
            z.zone_highlight.0 == crate::entity::PLACEHOLDER_BITS,
    {
        DockingZone { tab_container: Entity::placeholder(), zone_highlight: Entity::placeholder() }
    }
}

/// The highlight of a docking zone.
#[derive(Clone, Copy, Debug, PartialEq, Eq, Structural)]
pub struct DockingZoneHighlight {
    pub zone: Entity,
}

/// Marks a tab container whose zone is removed once it has no tabs.
#[derive(Clone, Copy, Debug, PartialEq, Eq, Structural)]
pub struct RemoveEmptyDockingZone {
    pub zone: Entity,
}

/// Marks a sized zone that holds the zones of a split.
#[derive(Clone, Copy, Debug, PartialEq, Eq, Structural)]
pub struct DockingZoneSplitContainer;

} // verus!
