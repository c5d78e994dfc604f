use circuit_canvas::{
    can_shift, readout_label, snap_to_grid, target_of_drag, CircuitView, ContextMenu, EditCommand,
    EditorMode, PanAction, Plot, Selection, GRID_SIZE, PAN_KEY,
};

fn canvas() -> CircuitView {
    let mut plot = Plot::new();
    plot.add_block((40, 40), 2, 1);
    plot.add_block((200, 40), 1, 1);
    CircuitView::new(plot)
}

#[test]
fn a_new_canvas_is_at_rest() {
    let mut view = canvas();
    assert_eq!(view.editor_mode(), EditorMode::Free);
    assert_eq!(EditorMode::default(), EditorMode::Free);
    assert!(!view.panning());
    assert!(!view.left_osd_visible());
    assert_eq!(view.left_osd(), (0, 0));
    assert_eq!(view.left_osd_label(), "0, 0");
    assert!(!view.take_redraw());
    assert_eq!(view.plot_provider().len(), 2);
    assert_eq!(view.plot_provider().selection(), Selection::Idle);
}

#[test]
fn snapping_truncates_toward_zero() {
    assert_eq!(GRID_SIZE, 20);
    assert_eq!(snap_to_grid(65, 20), 60);
    assert_eq!(snap_to_grid(43, 20), 40);
    assert_eq!(snap_to_grid(19, 20), 0);
    assert_eq!(snap_to_grid(-19, 20), 0);
    assert_eq!(snap_to_grid(-21, 20), -20);
    assert_eq!(snap_to_grid(-40, 20), -40);
    assert_eq!(snap_to_grid(7, 1), 7);
    assert_eq!(snap_to_grid(i32::MAX, 20), 2147483640);
    assert_eq!(snap_to_grid(i32::MIN, 20), -2147483640);
    assert_eq!(snap_to_grid(i32::MIN, i32::MAX), -i32::MAX);
    assert_eq!(snap_to_grid(i32::MAX, i32::MAX), i32::MAX);
}

#[test]
fn snapping_is_idempotent() {
    for grid in [1, 2, 3, 7, 20, 64, 1000, i32::MAX] {
        for v in [0, 1, -1, 19, 20, 21, -19, -20, -21, 12345, -12345, i32::MAX, i32::MIN] {
            let once = snap_to_grid(v, grid);
            assert_eq!(snap_to_grid(once, grid), once);
            assert_eq!(once % grid, 0);
            assert!(once.abs_diff(v) < grid as u32);
        }
    }
}

#[test]
fn drag_targets() {
    assert_eq!(target_of_drag((40, 40), (25, 3), EditorMode::Free), (65, 43));
    assert_eq!(target_of_drag((40, 40), (25, 3), EditorMode::Grid), (60, 40));
    assert_eq!(target_of_drag((40, 40), (-45, -85), EditorMode::Grid), (0, -40));
    assert_eq!(target_of_drag((0, 0), (0, 0), EditorMode::Grid), (0, 0));
}

#[test]
fn shifts_that_leave_the_plane_are_told() {
    assert!(can_shift((0, 0), (i32::MAX, i32::MIN)));
    assert!(can_shift((i32::MAX, i32::MIN), (0, 0)));
    assert!(can_shift((i32::MAX, i32::MIN), (i32::MIN, i32::MAX)));
    assert!(!can_shift((i32::MAX, 0), (1, 0)));
    assert!(!can_shift((0, i32::MIN), (0, -1)));
}

#[test]
fn readout_labels() {
    assert_eq!(readout_label((0, 0)), "0, 0");
    assert_eq!(readout_label((10, 5)), "10, 5");
    assert_eq!(readout_label((-7, 1200)), "-7, 1200");
    assert_eq!(readout_label((100, -100)), "100, -100");
    assert_eq!(readout_label((i32::MAX, i32::MIN)), "2147483647, -2147483648");
    for pair in [(9, 10), (-9, -10), (99, 101), (1000000, 1000001)] {
        assert_eq!(readout_label(pair), format!("{}, {}", pair.0, pair.1));
    }
}

#[test]
fn the_readout_follows_its_setters() {
    let mut view = canvas();
    view.set_left_osd_label((-3, 42));
    assert_eq!(view.left_osd(), (-3, 42));
    assert_eq!(view.left_osd_label(), "-3, 42");
    view.set_left_osd_visible(true);
    assert!(view.left_osd_visible());
    view.set_left_osd_visible(false);
    assert!(!view.left_osd_visible());
    assert!(!view.take_redraw());
}

#[test]
fn repaints_are_asked_for_once() {
    let mut view = canvas();
    view.rerender();
    assert!(view.take_redraw());
    assert!(!view.take_redraw());
    view.set_editor_mode(EditorMode::Grid);
    assert_eq!(view.editor_mode(), EditorMode::Grid);
    assert!(view.take_redraw());
}

#[test]
fn only_the_left_control_key_pans() {
    let mut view = canvas();
    assert_eq!(PAN_KEY, 65507);
    view.key_pressed(0xffe4);
    view.key_pressed(0x61);
    assert!(!view.panning());
    view.key_pressed(PAN_KEY);
    assert!(view.panning());
    view.set_left_osd_visible(true);
    view.key_released(0xffe4);
    assert!(view.panning());
    assert!(view.left_osd_visible());
    view.key_released(PAN_KEY);
    assert!(!view.panning());
    assert!(!view.left_osd_visible());
}

#[test]
fn a_gesture_begin_clears_highlights() {
    let mut view = canvas();
    view.plot_provider_mut().get_block_mut(1).unwrap().set_highlighted(true);
    view.drag_begin((50, 50));
    assert!(view.plot_provider().get_block(0).unwrap().highlighted());
    assert!(!view.plot_provider().get_block(1).unwrap().highlighted());
    assert!(view.take_redraw());

    view.drag_begin((1000, 1000));
    assert!(!view.plot_provider().get_block(0).unwrap().highlighted());
    assert_eq!(view.plot_provider().selection(), Selection::Area((1000, 1000), (1000, 1000)));
}

#[test]
fn a_pan_begin_clears_highlights_and_keeps_the_selection() {
    let mut view = canvas();
    view.drag_begin((50, 50));
    view.drag_end((0, 0), false);
    assert_eq!(view.plot_provider().selection(), Selection::Single(0));
    view.key_pressed(PAN_KEY);
    assert_eq!(view.drag_begin((250, 50)), PanAction::SaveTranslation);
    assert_eq!(view.plot_provider().selection(), Selection::Single(0));
    assert!(!view.plot_provider().get_block(0).unwrap().highlighted());
    assert!(view.left_osd_visible());
    assert_eq!(view.drag_update((i32::MAX, i32::MAX)), PanAction::Translate);
    assert_eq!(view.plot_provider().get_block(0).unwrap().position(), (40, 40));
}

#[test]
fn a_grab_remembers_where_the_block_was() {
    let mut view = canvas();
    view.drag_begin((50, 50));
    view.drag_update((100, 100));
    view.drag_end((100, 100), true);
    assert_eq!(view.plot_provider().get_block(0).unwrap().position(), (140, 140));
    assert_eq!(view.plot_provider().get_block(0).unwrap().start_pos(), (40, 40));
    view.drag_begin((150, 150));
    assert_eq!(view.plot_provider().get_block(0).unwrap().start_pos(), (140, 140));
    view.drag_update((-1, 0));
    assert_eq!(view.plot_provider().get_block(0).unwrap().position(), (139, 140));
    view.drag_update((5, 5));
    assert_eq!(view.plot_provider().get_block(0).unwrap().position(), (145, 145));
}

#[test]
fn a_click_with_the_modifier_held_is_an_edit() {
    let mut view = canvas();
    view.drag_begin((283, 57));
    view.drag_update((-100, 10));
    assert_eq!(
        view.plot_provider().selection(),
        Selection::Connection { block_id: 1, output: 0, start: (280, 60), position: (180, 70) }
    );
    view.key_pressed(PAN_KEY);
    view.set_left_osd_visible(true);
    view.take_redraw();
    // The pointer has not moved: the end is handled as that of an edit.
    assert_eq!(view.drag_end((0, 0), false), None);
    assert_eq!(view.plot_provider().selection(), Selection::Idle);
    assert!(view.left_osd_visible());
    assert!(view.take_redraw());
}

#[test]
fn the_end_of_a_pan_leaves_what_the_pointer_holds() {
    let mut view = canvas();
    view.plot_provider_mut().set_selection(Selection::Connection {
        block_id: 0,
        output: 0,
        start: (120, 60),
        position: (200, 60),
    });
    view.key_pressed(PAN_KEY);
    view.set_left_osd_visible(true);
    // Moved by less than a world unit: still the end of a pan.
    assert!(view.can_end((0, 0), true));
    assert_eq!(view.drag_end((0, 0), true), None);
    assert!(!view.left_osd_visible());
    assert!(!view.take_redraw());
    assert_eq!(
        view.plot_provider().selection(),
        Selection::Connection { block_id: 0, output: 0, start: (120, 60), position: (200, 60) }
    );
}

#[test]
fn events_without_a_begin_are_absorbed() {
    let mut view = canvas();
    let before = view.plot_provider().clone();
    assert!(view.can_update((i32::MAX, i32::MIN)));
    assert_eq!(view.drag_update((i32::MAX, i32::MIN)), PanAction::Nothing);
    assert!(!view.take_redraw());
    assert!(view.can_end((5, 5), true));
    assert_eq!(view.drag_end((5, 5), true), None);
    assert_eq!(*view.plot_provider(), before);
}

#[test]
fn a_selection_of_a_block_that_is_not_there_is_absorbed() {
    let mut view = canvas();
    view.plot_provider_mut().set_selection(Selection::Single(9));
    let before = view.plot_provider().clone();
    assert!(view.can_update((5, 5)));
    assert_eq!(view.drag_update((5, 5)), PanAction::Nothing);
    assert!(!view.take_redraw());
    assert!(view.can_end((5, 5), true));
    assert_eq!(view.drag_end((5, 5), true), None);
    assert_eq!(*view.plot_provider(), before);
}

#[test]
fn drags_that_leave_the_plane_are_told() {
    let mut view = canvas();
    view.drag_begin((50, 50));
    assert!(view.can_update((i32::MAX - 40 - 86, 0)));
    assert!(!view.can_update((i32::MAX - 40 - 85, 0)));
    assert!(!view.can_update((i32::MAX, 0)));
    assert!(!view.can_update((0, i32::MAX - 40 - 5119)));
    assert!(view.can_update((0, i32::MAX - 40 - 5120)));
    assert!(!view.can_end((i32::MAX, 0), true));
    assert!(view.can_end((0, 0), false));
    view.set_editor_mode(EditorMode::Grid);
    // In grid mode the block comes to rest on a corner of the grid, which
    // may be short of the limit where the pointer is beyond it.
    assert!(view.can_update((i32::MAX - 40 - 85, 0)));
    assert!(view.can_update((i32::MAX - 40 - 68, 0)));
    assert!(!view.can_update((i32::MAX - 40 - 67, 0)));
    assert!(!view.can_update((i32::MAX - 39, 0)));

    view.drag_begin((1000, 1000));
    assert!(view.can_update((i32::MAX - 1000, i32::MIN)));
    assert!(!view.can_update((i32::MAX - 999, 0)));
    assert!(view.can_end((i32::MAX, i32::MAX), true));

    view.drag_begin((120, 60));
    assert!(view.can_update((i32::MAX - 120, 0)));
    assert!(!view.can_update((i32::MAX - 119, 0)));
    assert!(view.can_end((i32::MAX, i32::MAX), true));

    view.key_pressed(PAN_KEY);
    assert!(view.can_update((i32::MAX, i32::MAX)));
    assert!(view.can_end((i32::MAX, i32::MAX), true));
}

#[test]
fn the_context_menu_of_a_block_selects_it() {
    let mut view = canvas();
    assert_eq!(view.context_menu((210, 50)), ContextMenu::Block(1));
    assert_eq!(view.plot_provider().selection(), Selection::Single(1));
    assert!(!view.plot_provider().get_block(1).unwrap().highlighted());
    assert!(view.take_redraw());
}

#[test]
fn the_context_menu_keeps_a_selection() {
    let mut view = canvas();
    view.drag_begin((50, 50));
    view.drag_end((0, 0), false);
    let before = view.plot_provider().clone();
    assert_eq!(view.context_menu((210, 50)), ContextMenu::Block(1));
    assert_eq!(view.plot_provider().selection(), Selection::Single(0));
    assert_eq!(*view.plot_provider(), before);
}

#[test]
fn the_context_menu_of_the_empty_canvas() {
    let mut view = canvas();
    let before = view.plot_provider().clone();
    assert_eq!(view.context_menu((1000, 1000)), ContextMenu::Area);
    assert_eq!(*view.plot_provider(), before);
    assert!(view.take_redraw());
}

#[test]
fn a_plot_can_be_replaced() {
    let mut view = canvas();
    view.set_editor_mode(EditorMode::Grid);
    let mut plot = Plot::new();
    plot.add_block((0, 0), 1, 1);
    view.set_plot_provider(plot.clone());
    assert_eq!(*view.plot_provider(), plot);
    assert_eq!(view.editor_mode(), EditorMode::Grid);
}

#[test]
fn a_drag_within_a_grid_cell_still_states_a_move() {
    let mut view = canvas();
    view.set_editor_mode(EditorMode::Grid);
    view.drag_begin((210, 50));
    view.drag_update((3, 3));
    assert_eq!(view.plot_provider().get_block(1).unwrap().position(), (200, 40));
    // The offset is not zero, so the move is stated, though the grid has
    // brought the block back to where it was.
    assert_eq!(
        view.drag_end((3, 3), true),
        Some(EditCommand::MoveBlock(1, (200, 40), (200, 40)))
    );
}

#[test]
fn drags_to_the_left_and_upper_limits() {
    let mut plot = Plot::new();
    plot.add_block((-100, -100), 1, 1);
    let mut view = CircuitView::new(plot);
    view.drag_begin((-90, -90));
    assert!(view.can_update((i32::MIN + 6 + 100, i32::MIN + 100)));
    assert!(!view.can_update((i32::MIN + 5 + 100, 0)));
    assert!(!view.can_update((0, i32::MIN + 99)));
    view.drag_update((i32::MIN + 6 + 100, i32::MIN + 100));
    assert_eq!(view.plot_provider().get_block(0).unwrap().position(), (i32::MIN + 6, i32::MIN));
    assert_eq!(view.plot_provider().get_block_at((i32::MIN, i32::MIN)), Some(0));
}
