use sickle_ui::entity::Entity;
use sickle_ui::interaction::{DragState, FluxInteraction, FocusPolicy};
use sickle_ui::widgets::floating_panel::{
    floating_panel_parts, has_priority_panel, index_floating_panel, max_z_index, process_panel_fold_pressed,
    restack_panels, update_panel_layout, update_panel_size_on_resize, update_panel_on_title_drag, update_panel_resizing,
    FloatingPanel, FloatingPanelConfig, TitleDrag, MIN_FLOATING_PANEL_Z_INDEX,
    PRIORITY_FLOATING_PANEL_Z_INDEX,
};

fn panels(zs: &[Option<usize>]) -> Vec<FloatingPanel> {
    zs.iter().map(|z| FloatingPanel { z_index: *z, ..Default::default() }).collect()
}

fn z_of(panels: &[FloatingPanel]) -> Vec<Option<usize>> {
    panels.iter().map(|p| p.z_index).collect()
}

#[test]
fn new_panels_are_indexed_above_the_rest() {
    let mut all = panels(&[Some(1003), None, Some(1001), None]);
    index_floating_panel(&mut all);
    assert_eq!(
        z_of(&all),
        vec![
            Some(1003),
            Some(MIN_FLOATING_PANEL_Z_INDEX + 1003 + 1),
            Some(1001),
            Some(MIN_FLOATING_PANEL_Z_INDEX + 1003 + 2)
        ]
    );
    let mut fresh = panels(&[None, None]);
    index_floating_panel(&mut fresh);
    assert_eq!(z_of(&fresh), vec![Some(1001), Some(1002)]);
}

#[test]
fn restacking_keeps_the_order_and_packs_the_indices() {
    let mut all = panels(&[Some(2050), None, Some(1001), Some(2050)]);
    restack_panels(&mut all);
    assert_eq!(z_of(&all), vec![Some(1003), Some(1001), Some(1002), Some(1004)]);
}

#[test]
fn dragged_panel_moves_to_the_top() {
    let mut all = panels(&[Some(1001), Some(1002), Some(1003)]);
    let moved = update_panel_on_title_drag(
        &mut all,
        &vec![TitleDrag { panel: 0, state: DragState::Dragging, has_diff: true }],
    );
    assert_eq!(moved, vec![0]);
    assert_eq!(z_of(&all), vec![Some(1003), Some(1001), Some(1002)]);
    assert!(all[0].moving);
    assert_eq!(max_z_index(&all), 1003);
}

#[test]
fn last_dragged_panel_ends_on_top() {
    let mut all = panels(&[Some(1001), Some(1002), Some(1003)]);
    let moved = update_panel_on_title_drag(
        &mut all,
        &vec![
            TitleDrag { panel: 2, state: DragState::Dragging, has_diff: true },
            TitleDrag { panel: 1, state: DragState::DragStart, has_diff: true },
        ],
    );
    assert_eq!(moved, vec![0, 1]);
    assert_eq!(z_of(&all), vec![Some(1001), Some(1003), Some(1002)]);
}

#[test]
fn drags_that_do_not_move_only_set_the_moving_flag() {
    let mut all = panels(&[Some(1001), Some(1002)]);
    all[0].moving = true;
    let moved = update_panel_on_title_drag(
        &mut all,
        &vec![
            TitleDrag { panel: 0, state: DragState::DragCanceled, has_diff: true },
            TitleDrag { panel: 1, state: DragState::Dragging, has_diff: false },
        ],
    );
    assert!(moved.is_empty());
    assert!(!all[0].moving);
    assert!(all[1].moving);
    assert_eq!(z_of(&all), vec![Some(1001), Some(1002)]);
}

#[test]
fn resizing_panels_and_priority_panels_are_not_dragged() {
    let mut all = panels(&[Some(1001), Some(1002)]);
    all[0].resizing = true;
    let moved = update_panel_on_title_drag(
        &mut all,
        &vec![TitleDrag { panel: 0, state: DragState::Dragging, has_diff: true }],
    );
    assert!(moved.is_empty());
    assert!(!all[0].moving);
    let mut all = panels(&[Some(1001), Some(1002)]);
    all[1].priority = true;
    assert!(has_priority_panel(&all));
    let moved = update_panel_on_title_drag(
        &mut all,
        &vec![TitleDrag { panel: 0, state: DragState::Dragging, has_diff: true }],
    );
    assert!(moved.is_empty());
    assert!(!all[0].moving);
    assert_eq!(z_of(&all), vec![Some(1001), Some(1002)]);
}

#[test]
fn fold_button_release_folds_and_unfolds() {
    let mut config = FloatingPanelConfig::default();
    assert!(!config.folded);
    process_panel_fold_pressed(&mut config, FluxInteraction::Released);
    assert!(config.folded);
    process_panel_fold_pressed(&mut config, FluxInteraction::Pressed);
    assert!(config.folded);
    process_panel_fold_pressed(&mut config, FluxInteraction::Released);
    assert!(!config.folded);
}

#[test]
fn resize_drag_marks_the_panel_resizing() {
    let mut panel = FloatingPanel::default();
    assert!(update_panel_resizing(&mut panel, DragState::Dragging, true));
    assert!(panel.resizing);
    assert!(!update_panel_resizing(&mut panel, DragState::Dragging, false));
    assert!(panel.resizing);
    assert!(!update_panel_resizing(&mut panel, DragState::Inactive, true));
    assert!(!panel.resizing);
}

#[test]
fn layout_flags_follow_config_and_state() {
    let config = FloatingPanelConfig { title: Some("Tools".to_string()), ..Default::default() };
    let panel = FloatingPanel { z_index: Some(1005), ..Default::default() };
    let flags = update_panel_layout(&panel, &config);
    assert!(flags.render_title && flags.title_draggable && !flags.render_drag_handle);
    assert!(flags.render_content && flags.render_resize_handles);
    assert_eq!(flags.focus_policy, FocusPolicy::Block);
    assert_eq!(flags.z_index, Some(1005));

    let config = FloatingPanelConfig { folded: true, ..Default::default() };
    let panel = FloatingPanel { moving: true, priority: true, ..Default::default() };
    let flags = update_panel_layout(&panel, &config);
    assert!(!flags.render_title && flags.render_drag_handle);
    assert!(!flags.render_content && !flags.render_resize_handles);
    assert_eq!(flags.focus_policy, FocusPolicy::Pass);
    assert!(!flags.buttons_react);
    assert_eq!(flags.z_index, Some(PRIORITY_FLOATING_PANEL_Z_INDEX));
}

#[test]
fn content_panel_replacement() {
    let mut panel = FloatingPanel { content_panel: Entity(7), ..Default::default() };
    assert_eq!(panel.replace_content_panel(Entity(7)), None);
    assert_eq!(panel.content_panel_id(), Entity(7));
    assert_eq!(panel.replace_content_panel(Entity(8)), Some(Entity(7)));
    assert_eq!(panel.content_panel_id(), Entity(8));
}

#[test]
fn floating_panel_contexts() {
    let panel = FloatingPanel {
        title_container: Entity(1),
        title: Entity(2),
        fold_button: Entity(3),
        ..Default::default()
    };
    assert_eq!(panel.get("FoldButton"), Ok(Entity(3)));
    assert_eq!(
        panel.get("CloseButton"),
        Err("CloseButton doesn't exists for FloatingPanel. Possible contexts: [\"TitleContainer\", \"Title\", \"FoldButton\"]".to_string())
    );
}

#[test]
fn panel_parts_follow_the_configuration() {
    let parts = floating_panel_parts(&FloatingPanelConfig::default(), false);
    assert_eq!(parts.title, "Untitled");
    assert!(!parts.render_title && parts.render_drag_handle);
    assert!(parts.render_fold_button && parts.render_close_button && parts.render_resize_handles);
    assert!(!parts.droppable_title);
    let config = FloatingPanelConfig {
        title: Some("Inspector".to_string()),
        closable: false,
        foldable: false,
        resizable: false,
        ..Default::default()
    };
    let parts = floating_panel_parts(&config, true);
    assert_eq!(parts.title, "Inspector");
    assert!(parts.render_title && !parts.render_drag_handle);
    assert!(!parts.render_fold_button && !parts.render_close_button && !parts.render_resize_handles);
    assert!(parts.droppable_title);
}

#[test]
fn folded_panel_takes_the_folded_state() {
    let panel = FloatingPanel::default();
    let flags = update_panel_layout(&panel, &FloatingPanelConfig { folded: true, ..Default::default() });
    assert!(flags.folded_state && !flags.render_content);
    let flags = update_panel_layout(&panel, &FloatingPanelConfig::default());
    assert!(!flags.folded_state && flags.render_content);
}

#[test]
fn priority_panel_stops_every_resize() {
    let mut all = panels(&[Some(1001), Some(1002)]);
    assert!(update_panel_size_on_resize(&mut all, 0, DragState::Dragging, true));
    assert!(all[0].resizing && !all[1].resizing);
    assert!(!update_panel_size_on_resize(&mut all, 0, DragState::Inactive, true));
    assert!(!all[0].resizing);
    all[1].priority = true;
    assert!(!update_panel_size_on_resize(&mut all, 0, DragState::Dragging, true));
    assert!(!all[0].resizing);
}
