use bevy::input::touch::Touches;
use bevy::input::Input;
use sickle_ui::entity::Entity;
use sickle_ui::input::MouseButton;
use sickle_ui::interaction::{Display, DragState, DropPhase, FlexDirection, FluxInteraction, Visibility};
use sickle_ui::widgets::docking_zone::{
    cleanup_empty_docking_zone, handle_docking_zone_drop_zone_change, plan_docking_zone_split,
    update_docking_zone_resize_handles, DockingZoneAction, DockingZoneSplitDirection, DropArea,
    SplitPlan, ZoneCleanup,
};
use sickle_ui::widgets::dropdown::{
    handle_click_or_touch, handle_option_press, update_dropdown_label, Dropdown, DropdownOption,
    DropdownOptions, DropdownPanelAnchor,
};
use sickle_ui::widgets::flexi::{unique_entities, FlexiChild};
use sickle_ui::widgets::flexi_column::update_flexi_column_handles_on_collection;
use sickle_ui::widgets::flexi_row::{
    assign_handle_neighbours, update_flexi_row_handles_on_collection,
    update_flexi_row_resize_handles, FlexiRowResizeHandle,
};
use sickle_ui::widgets::layout::foldable::{handle_foldable_button_press, Foldable};
use sickle_ui::widgets::resize_handles::{
    update_cursor_on_resize_handles, CursorIcon, ResizeDirection, ResizeHandles,
};
use sickle_ui::widgets::tab_container::{
    apply_tab_drag_action, constrain_tab_container_active_tab, handle_tab_dragging, panels_without_tabs,
    process_tab_viewport_content_removed,
    tabs_without_panels, update_tab_container_on_change, update_tab_container_on_press, BarChild,
    DragChild, Tab, TabContainer, TabDragAction,
};

fn dropdowns(open: &[bool]) -> Vec<Dropdown> {
    open.iter().map(|o| Dropdown { is_open: *o, ..Default::default() }).collect()
}

#[test]
fn dropdown_label_drops_values_past_the_options() {
    let options = DropdownOptions(vec!["Red".to_string(), "Green".to_string()]);
    let mut dropdown = Dropdown { value: Some(1), ..Default::default() };
    assert_eq!(update_dropdown_label(&mut dropdown, &options), "Green");
    assert_eq!(dropdown.value(), Some(1));
    let mut dropdown = Dropdown { value: Some(2), ..Default::default() };
    assert_eq!(update_dropdown_label(&mut dropdown, &options), "---");
    assert_eq!(dropdown.value(), None);
    let mut dropdown = Dropdown::default();
    assert_eq!(update_dropdown_label(&mut dropdown, &options), "---");
}

#[test]
fn dropdown_option_release_chooses_it() {
    let option = DropdownOption { dropdown: Entity(1), label: Entity(2), option: 4 };
    let mut dropdown = Dropdown::default();
    handle_option_press(&mut dropdown, &option, FluxInteraction::Pressed);
    assert_eq!(dropdown.value, None);
    handle_option_press(&mut dropdown, &option, FluxInteraction::Released);
    assert_eq!(dropdown.value, Some(4));
    assert_eq!(option.get("Label"), Ok(Entity(2)));
    assert_eq!(
        option.get("Icon"),
        Err("Icon doesn't exists for DropdownOption. Possible contexts: [\"Label\"]".to_string())
    );
}

#[test]
fn dropdown_click_flips_the_released_one_and_closes_others() {
    let touches = Touches::default();
    let mut buttons = Input::<MouseButton>::default();
    buttons.press(MouseButton::Right);
    buttons.clear();
    buttons.release(MouseButton::Right);
    let mut all = dropdowns(&[true, false, false]);
    handle_click_or_touch(
        &buttons,
        &touches,
        &mut all,
        &vec![FluxInteraction::Idle, FluxInteraction::Released, FluxInteraction::Released],
    );
    let open: Vec<bool> = all.iter().map(|d| d.is_open).collect();
    assert_eq!(open, vec![false, true, false]);
    assert_eq!(all[1].panel_display(), (Display::Flex, Visibility::Inherited));
    assert_eq!(all[0].panel_display(), (Display::Collapsed, Visibility::Hidden));
    // Releasing over an open dropdown closes it.
    handle_click_or_touch(&buttons, &touches, &mut all, &vec![FluxInteraction::Idle, FluxInteraction::Released, FluxInteraction::Idle]);
    assert!(all.iter().all(|d| !d.is_open));
}

#[test]
fn dropdown_without_release_changes_nothing() {
    let touches = Touches::default();
    let buttons = Input::<MouseButton>::default();
    let mut all = dropdowns(&[true, false]);
    handle_click_or_touch(&buttons, &touches, &mut all, &vec![FluxInteraction::Idle, FluxInteraction::Released]);
    let open: Vec<bool> = all.iter().map(|d| d.is_open).collect();
    assert_eq!(open, vec![true, false]);
}

#[test]
fn dropdown_panel_anchor_by_quadrant() {
    assert_eq!(DropdownPanelAnchor::for_position(false, false), DropdownPanelAnchor::BottomLeft);
    assert_eq!(DropdownPanelAnchor::for_position(true, false), DropdownPanelAnchor::BottomRight);
    assert_eq!(DropdownPanelAnchor::for_position(false, true), DropdownPanelAnchor::TopLeft);
    assert_eq!(DropdownPanelAnchor::for_position(true, true), DropdownPanelAnchor::TopRight);
    assert!(DropdownPanelAnchor::TopLeft.opens_upward());
    assert!(!DropdownPanelAnchor::BottomRight.opens_upward());
    assert_eq!(DropdownPanelAnchor::default(), DropdownPanelAnchor::BottomLeft);
}

#[test]
fn dropdown_contexts() {
    let dropdown = Dropdown {
        label: Entity(1),
        icon: Entity(2),
        panel: Entity(3),
        scroll_view: Entity(4),
        ..Default::default()
    };
    assert_eq!(dropdown.contexts(), vec!["Label", "Icon", "Panel", "ScrollView"]);
    assert_eq!(dropdown.get("ScrollView"), Ok(Entity(4)));
    assert_eq!(
        dropdown.get("Option"),
        Err("Option doesn't exists for Dropdown. Possible contexts: [\"Label\", \"Icon\", \"Panel\", \"ScrollView\"]".to_string())
    );
}

fn bar(entries: &[(u64, bool)]) -> Vec<BarChild> {
    entries.iter().map(|(e, t)| BarChild { entity: Entity(*e), is_tab: *t }).collect()
}

#[test]
fn tab_press_activates_its_place_in_the_bar() {
    let children = bar(&[(1, true), (9, false), (2, true), (3, true)]);
    let mut container = TabContainer::default();
    update_tab_container_on_press(&mut container, &children, Entity(2));
    assert_eq!(container.active, 2);
    update_tab_container_on_press(&mut container, &children, Entity(7));
    assert_eq!(container.active, 2);
}

#[test]
fn active_tab_is_kept_among_the_tabs() {
    let children = bar(&[(1, true), (2, true), (9, false)]);
    let mut container = TabContainer { active: 5, ..Default::default() };
    constrain_tab_container_active_tab(&mut container, &children);
    assert_eq!(container.tab_count(), 2);
    assert_eq!(container.active, 1);
    let mut container = TabContainer { active: 3, ..Default::default() };
    constrain_tab_container_active_tab(&mut container, &bar(&[]));
    assert_eq!(container.tab_count, 0);
    assert_eq!(container.active, 0);
    let mut container = TabContainer { active: 0, ..Default::default() };
    constrain_tab_container_active_tab(&mut container, &children);
    assert_eq!(container.active, 0);
}

#[test]
fn only_the_active_tab_is_shown() {
    let children = bar(&[(1, true), (9, false), (2, true)]);
    let container = TabContainer { active: 2, ..Default::default() };
    let (react, shown) = update_tab_container_on_change(&container, &children);
    assert!(react);
    assert_eq!(shown, vec![Some(false), None, Some(true)]);
    let (react, _) = update_tab_container_on_change(&container, &bar(&[(1, true)]));
    assert!(!react);
}

fn drag_bar(entries: &[(u64, bool, bool, bool)]) -> Vec<DragChild> {
    entries
        .iter()
        .map(|(e, t, h, b)| DragChild { entity: Entity(*e), is_tab: *t, hovered: *h, pointer_before: *b })
        .collect()
}

#[test]
fn tab_drag_start_move_and_drop() {
    let mut tab = Tab::default();
    let children = drag_bar(&[(1, true, false, false), (2, true, false, false), (3, true, false, false)]);
    let action = handle_tab_dragging(DragState::DragStart, true, &mut tab, &children, Entity(2));
    assert_eq!(action, TabDragAction::Start { tab_index: 1 });
    tab.start_drag(Entity(50), 1);
    assert_eq!(tab.placeholder, Some(Entity(50)));
    assert_eq!(tab.original_index, Some(1));

    // The placeholder sits at 1; the pointer is past the center of tab 3.
    let children = drag_bar(&[
        (1, true, false, false),
        (50, false, false, false),
        (2, true, false, false),
        (3, true, true, false),
    ]);
    let action = handle_tab_dragging(DragState::Dragging, true, &mut tab, &children, Entity(2));
    assert_eq!(action, TabDragAction::Move { to: Some(3) });

    // Hovering tab 1 before its center moves the placeholder before it.
    let children = drag_bar(&[
        (1, true, true, true),
        (50, false, false, false),
        (2, true, false, false),
        (3, true, false, false),
    ]);
    let action = handle_tab_dragging(DragState::Dragging, true, &mut tab, &children, Entity(2));
    assert_eq!(action, TabDragAction::Move { to: Some(0) });

    // Nothing hovered: the placeholder stays.
    let children = drag_bar(&[(1, true, false, false), (50, false, false, false), (2, true, false, false)]);
    let action = handle_tab_dragging(DragState::Dragging, true, &mut tab, &children, Entity(2));
    assert_eq!(action, TabDragAction::Move { to: None });

    let children = drag_bar(&[
        (1, true, false, false),
        (3, true, false, false),
        (50, false, false, false),
        (2, true, false, false),
    ]);
    let action = handle_tab_dragging(DragState::DragEnd, true, &mut tab, &children, Entity(2));
    assert_eq!(action, TabDragAction::Drop { placeholder: Entity(50), index: 2 });
    assert_eq!(tab.placeholder, None);
    assert_eq!(tab.original_index, None);
}

#[test]
fn tab_drag_cancel_and_lone_tab() {
    let mut tab = Tab { placeholder: Some(Entity(50)), original_index: Some(1), ..Default::default() };
    let children = drag_bar(&[(1, true, false, false), (50, false, false, false), (2, true, false, false)]);
    let action = handle_tab_dragging(DragState::DragCanceled, true, &mut tab, &children, Entity(2));
    assert_eq!(action, TabDragAction::Cancel { placeholder: Entity(50), index: 1 });
    assert_eq!(tab.placeholder, None);
    // A bar with a single tab ignores drags.
    let mut tab = Tab::default();
    let children = drag_bar(&[(2, true, false, false), (9, false, false, false)]);
    let action = handle_tab_dragging(DragState::DragStart, true, &mut tab, &children, Entity(2));
    assert_eq!(action, TabDragAction::Ignore);
    // A drag that ends without a placeholder only releases the other tabs.
    let children = drag_bar(&[(1, true, false, false), (2, true, false, false)]);
    let action = handle_tab_dragging(DragState::DragEnd, true, &mut tab, &children, Entity(2));
    assert_eq!(action, TabDragAction::Release);
}

#[test]
fn panels_and_tabs_without_counterparts() {
    let panels = vec![Entity(10), Entity(11), Entity(12)];
    let tab_panels = vec![(Entity(1), Entity(10)), (Entity(2), Entity(13)), (Entity(3), Entity(12))];
    assert_eq!(panels_without_tabs(&panels, &tab_panels), vec![Entity(11)]);
    assert_eq!(tabs_without_panels(&tab_panels, &panels), vec![Entity(2)]);
}

#[test]
fn foldable_flips_first_released_only() {
    let mut foldables = vec![Foldable::default(), Foldable::default(), Foldable { open: true, ..Default::default() }];
    handle_foldable_button_press(
        &mut foldables,
        &vec![FluxInteraction::Pressed, FluxInteraction::Released, FluxInteraction::Released],
    );
    let open: Vec<bool> = foldables.iter().map(|f| f.open).collect();
    assert_eq!(open, vec![false, true, true]);
    assert_eq!(foldables[1].pseudo_states(), (false, false));
    assert_eq!(foldables[0].pseudo_states(), (false, true));
    let empty = Foldable { empty: true, ..Default::default() };
    assert_eq!(empty.pseudo_states(), (true, false));
    assert_eq!(
        empty.get("Label"),
        Err("Label doesn't exists for Foldable. Possible contexts: [\"ButtonIcon\", \"ButtonLabel\", \"Container\"]".to_string())
    );
}

#[test]
fn resize_cursor_follows_the_handles() {
    let (cursor, locked) = update_cursor_on_resize_handles(
        &vec![(ResizeDirection::North, FluxInteraction::Idle), (ResizeDirection::East, FluxInteraction::PointerEnter)],
        false,
    );
    assert_eq!(cursor, Some(CursorIcon::EResize));
    assert!(!locked);
    // Two handles active at once ask for the move cursor.
    let (cursor, locked) = update_cursor_on_resize_handles(
        &vec![(ResizeDirection::North, FluxInteraction::PointerEnter), (ResizeDirection::West, FluxInteraction::Pressed)],
        false,
    );
    assert_eq!(cursor, Some(CursorIcon::Move));
    assert!(locked);
    // While locked, entering a handle does not change the cursor.
    let (cursor, locked) = update_cursor_on_resize_handles(
        &vec![(ResizeDirection::South, FluxInteraction::PointerEnter)],
        true,
    );
    assert_eq!(cursor, None);
    assert!(locked);
    // Releasing unlocks and restores the default cursor.
    let (cursor, locked) = update_cursor_on_resize_handles(
        &vec![(ResizeDirection::South, FluxInteraction::Released)],
        true,
    );
    assert_eq!(cursor, Some(CursorIcon::Default));
    assert!(!locked);
    let (cursor, _) = update_cursor_on_resize_handles(&vec![(ResizeDirection::South, FluxInteraction::PointerLeave)], false);
    assert_eq!(cursor, Some(CursorIcon::Default));
}

#[test]
fn resize_directions() {
    assert_eq!(ResizeDirection::NorthWest.cursor(), CursorIcon::NwResize);
    assert_eq!(ResizeDirection::SouthEast.name(), "SouthEast");
    assert_eq!(ResizeDirection::North.size_diff_signs(), (0, -1));
    assert_eq!(ResizeDirection::SouthWest.size_diff_signs(), (-1, 1));
    assert_eq!(ResizeDirection::NorthEast.size_diff_signs(), (1, -1));
    // Opposite handles mirror each other.
    assert_eq!(ResizeDirection::West.size_diff_signs(), (-1, 0));
    assert_eq!(ResizeDirection::East.size_diff_signs(), (1, 0));
}

#[test]
fn resize_handle_contexts() {
    let handles = ResizeHandles::from_handles([
        Entity(1),
        Entity(2),
        Entity(3),
        Entity(4),
        Entity(5),
        Entity(6),
        Entity(7),
        Entity(8),
    ]);
    assert_eq!(handles.handle(ResizeDirection::SouthWest), Entity(6));
    assert_eq!(handles.get("HandleSouthWest"), Ok(Entity(6)));
    assert_eq!(handles.get("HandleNorth"), Ok(Entity(1)));
    assert_eq!(
        handles.get("North"),
        Err("North doesn't exists for ResizeHandles. Possible contexts: [\"HandleNorth\", \"HandleNorthEast\", \"HandleEast\", \"HandleSouthEast\", \"HandleSouth\", \"HandleSouthWest\", \"HandleWest\", \"HandleNorthWest\"]".to_string())
    );
    assert_eq!(ResizeHandles::placeholders().handle(ResizeDirection::East), Entity::placeholder());
}

fn flexi_children(entries: &[(u64, bool, bool)]) -> Vec<FlexiChild> {
    entries.iter().map(|(e, f, r)| FlexiChild { entity: Entity(*e), is_flexi: *f, in_flow: *r }).collect()
}

#[test]
fn flexi_rows_show_handles_between_rows() {
    let children = flexi_children(&[(1, true, true), (2, true, true), (9, false, true), (3, true, true)]);
    let updates = update_flexi_row_handles_on_collection(&children);
    assert_eq!(updates.len(), 3);
    assert_eq!(updates[0].flexi, Entity(1));
    assert!(!updates[0].first_visible);
    assert!(updates[0].second_visible);
    assert_eq!(updates[0].first_neighbour, None);
    assert_eq!(updates[0].second_neighbour, Some(Entity(2)));
    assert!(!updates[1].first_visible);
    assert_eq!(updates[1].first_neighbour, Some(Entity(1)));
    assert_eq!(updates[1].second_neighbour, Some(Entity(3)));
    // Row 3 follows a child in the flow and is the last child.
    assert!(updates[2].first_visible);
    assert!(!updates[2].second_visible);
    assert_eq!(updates[2].second_neighbour, None);
}

#[test]
fn flexi_absolute_children_do_not_count() {
    let children = flexi_children(&[(1, true, true), (9, false, false), (2, true, true)]);
    let updates = update_flexi_column_handles_on_collection(&children);
    assert_eq!(updates.len(), 2);
    assert!(!updates[1].first_visible);
    assert_eq!(updates[1].first_neighbour, Some(Entity(1)));
}

#[test]
fn lone_flexi_hides_its_handles() {
    let updates = update_flexi_row_handles_on_collection(&flexi_children(&[(1, true, true)]));
    assert_eq!(updates.len(), 1);
    assert!(!updates[0].first_visible && !updates[0].second_visible && !updates[0].assign_neighbours);
    assert!(update_flexi_row_handles_on_collection(&flexi_children(&[(1, false, true)])).is_empty());
}

#[test]
fn flexi_handles_take_their_neighbours() {
    let children = flexi_children(&[(1, true, true), (2, true, true)]);
    let updates = update_flexi_row_handles_on_collection(&children);
    let mut top = FlexiRowResizeHandle::default();
    let mut bottom = FlexiRowResizeHandle::default();
    assign_handle_neighbours(&updates[1], &mut top, &mut bottom);
    assert_eq!(top.flexi_row, Some(Entity(2)));
    assert_eq!(top.neighbour, Some(Entity(1)));
    assert_eq!(bottom.neighbour, None);
}

#[test]
fn flexi_parents_are_taken_once() {
    let parents = vec![Entity(3), Entity(1), Entity(3), Entity(2), Entity(1)];
    assert_eq!(update_flexi_row_resize_handles(&parents), vec![Entity(3), Entity(1), Entity(2)]);
    assert_eq!(unique_entities(&vec![]), vec![]);
}

#[test]
fn docking_split_plans() {
    assert_eq!(
        plan_docking_zone_split(FlexDirection::Row, DockingZoneSplitDirection::VerticallyBefore, 2),
        SplitPlan { inject_container: false, new_zone_before: true, insert_index: 2 }
    );
    assert_eq!(
        plan_docking_zone_split(FlexDirection::Row, DockingZoneSplitDirection::VerticallyAfter, 2),
        SplitPlan { inject_container: false, new_zone_before: false, insert_index: 3 }
    );
    assert_eq!(
        plan_docking_zone_split(FlexDirection::Column, DockingZoneSplitDirection::VerticallyAfter, 0),
        SplitPlan { inject_container: true, new_zone_before: false, insert_index: 0 }
    );
    assert_eq!(
        plan_docking_zone_split(FlexDirection::RowReverse, DockingZoneSplitDirection::VerticallyBefore, 1),
        SplitPlan { inject_container: false, new_zone_before: false, insert_index: 2 }
    );
    assert_eq!(
        plan_docking_zone_split(FlexDirection::ColumnReverse, DockingZoneSplitDirection::HorizontallyAfter, 4),
        SplitPlan { inject_container: false, new_zone_before: true, insert_index: 4 }
    );
}

#[test]
fn docking_zone_drop_actions() {
    assert_eq!(
        handle_docking_zone_drop_zone_change(false, DropPhase::DroppableHover, true, DropArea::North),
        DockingZoneAction::Highlight { area: DropArea::North }
    );
    assert_eq!(
        handle_docking_zone_drop_zone_change(false, DropPhase::Dropped, true, DropArea::Center),
        DockingZoneAction::DockInTabs
    );
    assert_eq!(
        handle_docking_zone_drop_zone_change(false, DropPhase::Dropped, true, DropArea::East),
        DockingZoneAction::Split { direction: DockingZoneSplitDirection::HorizontallyAfter }
    );
    assert_eq!(
        handle_docking_zone_drop_zone_change(false, DropPhase::DroppableLeft, true, DropArea::East),
        DockingZoneAction::ClearHighlight
    );
}

#[test]
fn docking_zone_handles_hide_during_title_drags() {
    assert!(update_docking_zone_resize_handles(&vec![DragState::Inactive, DragState::DragEnd]));
    assert!(!update_docking_zone_resize_handles(&vec![DragState::Inactive, DragState::Dragging]));
    assert!(!update_docking_zone_resize_handles(&vec![DragState::DragStart]));
    assert!(update_docking_zone_resize_handles(&vec![]));
}

#[test]
fn empty_docking_zone_cleanup() {
    assert_eq!(cleanup_empty_docking_zone(1, true, true, false, true), ZoneCleanup::Keep);
    assert_eq!(cleanup_empty_docking_zone(0, false, false, false, false), ZoneCleanup::DespawnOrphan);
    assert_eq!(cleanup_empty_docking_zone(0, true, true, false, true), ZoneCleanup::CollapseSplit);
    assert_eq!(cleanup_empty_docking_zone(0, true, true, false, false), ZoneCleanup::LeaveAsIs);
    assert_eq!(cleanup_empty_docking_zone(0, true, true, true, true), ZoneCleanup::DespawnAndReset);
    assert_eq!(cleanup_empty_docking_zone(0, true, false, false, true), ZoneCleanup::DespawnAndReset);
    assert_eq!(DropArea::default(), DropArea::Outside);
}

#[test]
fn emptied_viewport_removes_every_tab() {
    let children = bar(&[(1, true), (9, false), (2, true)]);
    assert_eq!(process_tab_viewport_content_removed(&children), vec![Entity(1), Entity(2)]);
    assert!(process_tab_viewport_content_removed(&bar(&[(9, false)])).is_empty());
}

#[test]
fn drag_start_of_a_tab_outside_the_bar_stops_the_others() {
    let mut tab = Tab::default();
    let children = drag_bar(&[(1, true, false, false), (2, true, false, false)]);
    let action = handle_tab_dragging(DragState::DragStart, true, &mut tab, &children, Entity(7));
    assert_eq!(action, TabDragAction::StopOthers);
    assert_eq!(tab, Tab::default());
}

#[test]
fn dragging_without_pointer_movement_is_ignored() {
    let mut tab = Tab { placeholder: Some(Entity(50)), original_index: Some(0), ..Default::default() };
    let children = drag_bar(&[(50, false, false, false), (1, true, false, false), (2, true, true, false)]);
    let action = handle_tab_dragging(DragState::Dragging, false, &mut tab, &children, Entity(1));
    assert_eq!(action, TabDragAction::Ignore);
    let action = handle_tab_dragging(DragState::Dragging, true, &mut tab, &children, Entity(1));
    assert_eq!(action, TabDragAction::Move { to: Some(2) });
}

fn ids(v: &[u64]) -> Vec<Entity> {
    v.iter().map(|e| Entity(*e)).collect()
}

#[test]
fn cancelled_drag_restores_the_bar() {
    let bar = ids(&[1, 2, 3]);
    let started = apply_tab_drag_action(&bar, Entity(2), Entity(50), TabDragAction::Start { tab_index: 1 });
    assert_eq!(started, ids(&[1, 50, 2, 3]));
    let moved = apply_tab_drag_action(&started, Entity(2), Entity(50), TabDragAction::Move { to: Some(0) });
    assert_eq!(moved, ids(&[50, 1, 2, 3]));
    let moved = apply_tab_drag_action(&moved, Entity(2), Entity(50), TabDragAction::Move { to: None });
    assert_eq!(moved, ids(&[50, 1, 2, 3]));
    let cancelled = apply_tab_drag_action(
        &moved,
        Entity(2),
        Entity(50),
        TabDragAction::Cancel { placeholder: Entity(50), index: 1 },
    );
    assert_eq!(cancelled, bar);
}

#[test]
fn dropped_tab_takes_the_placeholder_place() {
    let bar = ids(&[1, 2, 50, 3]);
    let dropped = apply_tab_drag_action(&bar, Entity(2), Entity(50), TabDragAction::Drop { placeholder: Entity(50), index: 2 });
    assert_eq!(dropped, ids(&[1, 2, 3]));
    let bar = ids(&[50, 1, 3, 2]);
    let dropped = apply_tab_drag_action(&bar, Entity(2), Entity(50), TabDragAction::Drop { placeholder: Entity(50), index: 0 });
    assert_eq!(dropped, ids(&[2, 1, 3]));
    assert_eq!(apply_tab_drag_action(&bar, Entity(2), Entity(50), TabDragAction::Release), bar);
}
