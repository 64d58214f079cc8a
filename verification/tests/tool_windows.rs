use egui_tool_windows::builder::{ToolWindowsBuilder, ToolWindowParameters};
use egui_tool_windows::geometry::{clamp_coord, sat_add, sat_add_sub, Pos2i, Vec2bFlags, Vec2i};
use egui_tool_windows::manager::ToolWindows;
use egui_tool_windows::stack::ToolWindowsState;
use egui_tool_windows::table_data::fake_data;
use egui_tool_windows::window::{
    FrameInput, ResizeInput, ToolWindow, ToolWindowState, DEFAULT_WINDOW_HEIGHT,
    DEFAULT_WINDOW_WIDTH, MIN_WINDOW_WIDTH, TITLE_BAR_HEIGHT,
};

fn quiet_resize() -> ResizeInput {
    ResizeInput { left: 0, right: 0, top: 0, bottom: 0, corner: None }
}

fn quiet_input(collapsed: bool) -> FrameInput {
    FrameInput {
        available: Vec2i { x: 1000, y: 800 },
        clicked: false,
        resize: quiet_resize(),
        collapsed,
        drag_started: false,
        drag_stopped: false,
        press_pointer: None,
        current_pointer: None,
    }
}

fn declare(builder: &mut ToolWindowsBuilder, id: u64, title: &str) {
    let w = builder.add_window(id);
    w.show(title.to_string(), builder);
}

#[test]
fn first_frame_order_and_topmost() {
    // two windows declared in order: rendering order is the declaration
    // order and the last declared window is topmost
    let mut builder = ToolWindowsBuilder::default();
    declare(&mut builder, 1, "A");
    declare(&mut builder, 2, "B");
    let mut state = ToolWindowsState::default();
    let order = ToolWindows::new().windows(&builder, &mut state);
    assert_eq!(order, vec![1, 2]);
    assert!(state.is_topmost(2));
    assert!(!state.is_topmost(1));
}

#[test]
fn click_brings_to_front() {
    let mut builder = ToolWindowsBuilder::default();
    declare(&mut builder, 1, "A");
    declare(&mut builder, 2, "B");
    let mut state = ToolWindowsState::default();
    ToolWindows::new().windows(&builder, &mut state);

    // a click within window 1 moves it to the end of the order
    let mut window = ToolWindow::from_params(1, builder.find(1).unwrap());
    let mut input = quiet_input(false);
    input.clicked = true;
    window.show(input, &mut state);

    assert_eq!(state.rendering_order(), vec![2, 1]);
    assert!(state.is_topmost(1));
    assert!(!state.is_topmost(2));
}

#[test]
fn only_topmost_resizes() {
    let mut state = ToolWindowsState::default();
    let mut builder = ToolWindowsBuilder::default();
    declare(&mut builder, 1, "A");
    declare(&mut builder, 2, "B");
    ToolWindows::new().windows(&builder, &mut state);

    let mut input = quiet_input(false);
    input.resize = ResizeInput { left: 0, right: 50, top: 0, bottom: 30, corner: None };

    // window 1 is not topmost: the resize input is ignored
    let mut bottom = ToolWindow::from_params(1, builder.find(1).unwrap());
    bottom.show(input, &mut state);
    assert_eq!(bottom.state.size, Vec2i { x: DEFAULT_WINDOW_WIDTH, y: DEFAULT_WINDOW_HEIGHT });

    // window 2 is topmost: the resize applies
    let mut top = ToolWindow::from_params(2, builder.find(2).unwrap());
    top.show(input, &mut state);
    assert_eq!(
        top.state.size,
        Vec2i { x: DEFAULT_WINDOW_WIDTH + 50, y: DEFAULT_WINDOW_HEIGHT + 30 }
    );
}

#[test]
fn removed_window_leaves_order() {
    // a window no longer declared is dropped from the persisted order
    let mut state = ToolWindowsState::default();

    let mut frame1 = ToolWindowsBuilder::default();
    declare(&mut frame1, 1, "A");
    declare(&mut frame1, 2, "B");
    let order1 = ToolWindows::new().windows(&frame1, &mut state);
    assert_eq!(order1, vec![1, 2]);

    let mut frame2 = ToolWindowsBuilder::default();
    declare(&mut frame2, 2, "B");
    let order2 = ToolWindows::new().windows(&frame2, &mut state);
    assert_eq!(order2, vec![2]);
    assert!(!order2.contains(&1));
}

#[test]
fn sync_retains_order_appends_new() {
    // retained identities keep their relative order; new ones are appended
    // in declaration order
    let mut state = ToolWindowsState::default();

    let mut frame1 = ToolWindowsBuilder::default();
    declare(&mut frame1, 1, "one");
    declare(&mut frame1, 2, "two");
    declare(&mut frame1, 3, "three");
    ToolWindows::new().windows(&frame1, &mut state);

    let mut frame2 = ToolWindowsBuilder::default();
    declare(&mut frame2, 3, "three");
    declare(&mut frame2, 5, "five");
    declare(&mut frame2, 1, "one");
    declare(&mut frame2, 6, "six");
    let order = ToolWindows::new().windows(&frame2, &mut state);
    assert_eq!(order, vec![1, 3, 5, 6]);
}

#[test]
fn bring_to_front_middle() {
    let mut state = ToolWindowsState::default();
    let mut frame = ToolWindowsBuilder::default();
    declare(&mut frame, 1, "one");
    declare(&mut frame, 2, "two");
    declare(&mut frame, 3, "three");
    ToolWindows::new().windows(&frame, &mut state);

    state.bring_to_front(2);
    assert_eq!(state.rendering_order(), vec![1, 3, 2]);
    assert!(state.is_topmost(2));
}

#[test]
fn bring_to_front_absent_id_is_appended() {
    let mut state = ToolWindowsState::default();
    let mut frame = ToolWindowsBuilder::default();
    declare(&mut frame, 1, "one");
    ToolWindows::new().windows(&frame, &mut state);

    state.bring_to_front(9);
    assert_eq!(state.rendering_order(), vec![1, 9]);
}

#[test]
fn clamp_within_bounds() {
    let available = Vec2i { x: 500, y: 400 };

    let mut inside = Pos2i { x: 100, y: 200 };
    ToolWindow::clamp_offset(available, &mut inside);
    assert_eq!(inside, Pos2i { x: 100, y: 200 });

    let mut negative = Pos2i { x: -35, y: -1 };
    ToolWindow::clamp_offset(available, &mut negative);
    assert_eq!(negative, Pos2i { x: 0, y: 0 });

    let mut beyond = Pos2i { x: 501, y: 100000 };
    ToolWindow::clamp_offset(available, &mut beyond);
    assert_eq!(beyond, Pos2i { x: 500, y: 400 });
}

#[test]
fn clamp_coord_bounds() {
    assert_eq!(clamp_coord(-7, 10), 0);
    assert_eq!(clamp_coord(11, 10), 10);
    assert_eq!(clamp_coord(10, 10), 10);
    assert_eq!(clamp_coord(0, 0), 0);
}

#[test]
fn resize_floor_sequence() {
    // after any run of resize interactions, the size never drops below the
    // minimum of 100 x 24
    let mut s = ToolWindowState::default();
    let shrink = ResizeInput { left: 0, right: -10000, top: 0, bottom: -10000, corner: None };
    s.apply_resize(shrink);
    assert_eq!(s.size, Vec2i { x: MIN_WINDOW_WIDTH, y: TITLE_BAR_HEIGHT });

    let grow = ResizeInput { left: 0, right: 40, top: 0, bottom: 1, corner: None };
    s.apply_resize(grow);
    assert_eq!(s.size, Vec2i { x: 140, y: 25 });

    s.apply_resize(shrink);
    assert_eq!(s.size, Vec2i { x: MIN_WINDOW_WIDTH, y: TITLE_BAR_HEIGHT });
    assert!(s.size.x >= MIN_WINDOW_WIDTH && s.size.y >= TITLE_BAR_HEIGHT);
}

#[test]
fn resize_zero_delta_leaves_size() {
    let mut s = ToolWindowState::default();
    s.size = Vec2i { x: 50, y: 10 }; // below the floor; only a resize floors it
    s.apply_resize(quiet_resize());
    assert_eq!(s.size, Vec2i { x: 50, y: 10 });
}

#[test]
fn left_edge_drag_moves_position_and_shrinks() {
    // dragging the left edge right by 30 moves the window and narrows it
    let mut s = ToolWindowState::default();
    s.position = Pos2i { x: 100, y: 100 };
    let r = ResizeInput { left: 30, right: 0, top: 0, bottom: 0, corner: None };
    s.apply_resize(r);
    assert_eq!(s.position, Pos2i { x: 130, y: 100 });
    assert_eq!(s.size, Vec2i { x: DEFAULT_WINDOW_WIDTH - 30, y: DEFAULT_WINDOW_HEIGHT });
}

#[test]
fn corner_drag_resizes_both_axes() {
    let mut s = ToolWindowState::default();
    let r = ResizeInput {
        left: 0,
        right: 0,
        top: 0,
        bottom: 0,
        corner: Some(Vec2i { x: 15, y: -20 }),
    };
    s.apply_resize(r);
    assert_eq!(s.size, Vec2i { x: DEFAULT_WINDOW_WIDTH + 15, y: DEFAULT_WINDOW_HEIGHT - 20 });
}

#[test]
fn corner_ignored_when_not_resizable() {
    let mut s = ToolWindowState::default();
    s.resizable = Vec2bFlags { x: false, y: false };
    let r = ResizeInput {
        left: 0,
        right: 0,
        top: 0,
        bottom: 0,
        corner: Some(Vec2i { x: 15, y: 20 }),
    };
    s.apply_resize(r);
    assert_eq!(s.size, Vec2i { x: DEFAULT_WINDOW_WIDTH, y: DEFAULT_WINDOW_HEIGHT });
}

#[test]
fn collapse_toggle_is_idempotent() {
    let mut s = ToolWindowState::default();
    s.position = Pos2i { x: 7, y: 9 };
    s.size = Vec2i { x: 123, y: 456 };
    let before = s;
    s.toggle_collapsed();
    assert!(s.collapsed);
    assert_eq!(s.position, before.position);
    assert_eq!(s.size, before.size);
    s.toggle_collapsed();
    assert_eq!(s, before);
}

#[test]
fn collapsed_display_size_is_title_bar() {
    let mut s = ToolWindowState::default();
    s.size = Vec2i { x: 320, y: 240 };
    assert_eq!(s.display_size(), Vec2i { x: 320, y: 240 });
    s.set_collapsed(true);
    assert_eq!(s.display_size(), Vec2i { x: 320, y: TITLE_BAR_HEIGHT });
}

#[test]
fn default_state_values() {
    let s = ToolWindowState::default();
    assert!(!s.collapsed);
    assert_eq!(s.position, Pos2i { x: 0, y: 0 });
    assert_eq!(s.size, Vec2i { x: 300, y: 200 });
    assert!(s.drag_state.is_none());
    assert_eq!(s.resizable, Vec2bFlags { x: true, y: true });
}

#[test]
fn builder_accumulates_declarations() {
    let mut builder = ToolWindowsBuilder::default();
    let w = builder
        .add_window(42)
        .default_pos(Pos2i { x: 50, y: 60 })
        .default_size(Vec2i { x: 400, y: 300 });
    w.show("Example".to_string(), &mut builder);
    declare(&mut builder, 7, "Other");

    assert_eq!(builder.ids(), vec![42, 7]);
    let p = builder.find(42).unwrap();
    assert_eq!(p.title, "Example");
    assert_eq!(p.default_pos, Pos2i { x: 50, y: 60 });
    assert_eq!(p.default_size, Vec2i { x: 400, y: 300 });
    assert!(builder.find(9).is_none());
}

#[test]
fn default_parameters_values() {
    let p = ToolWindowParameters::default();
    assert_eq!(p.title, "");
    assert_eq!(p.default_pos, Pos2i { x: 0, y: 0 });
    assert_eq!(p.default_size, Vec2i { x: DEFAULT_WINDOW_WIDTH, y: DEFAULT_WINDOW_HEIGHT });
}

#[test]
fn from_params_uses_declared_defaults() {
    let mut builder = ToolWindowsBuilder::default();
    let w = builder
        .add_window(3)
        .default_pos(Pos2i { x: 10, y: 20 })
        .default_size(Vec2i { x: 111, y: 222 });
    w.show("T".to_string(), &mut builder);

    let window = ToolWindow::from_params(3, builder.find(3).unwrap());
    assert_eq!(window.id, 3);
    assert_eq!(window.state.position, Pos2i { x: 10, y: 20 });
    assert_eq!(window.state.size, Vec2i { x: 111, y: 222 });
    assert!(!window.state.collapsed);
}

#[test]
fn drag_moves_topmost_window() {
    let mut state = ToolWindowsState::default();
    state.bring_to_front(5);

    let mut window = ToolWindow::from_params(5, &ToolWindowParameters::default());
    window.state.position = Pos2i { x: 100, y: 100 };

    let mut input = quiet_input(false);
    input.drag_started = true;
    input.press_pointer = Some(Pos2i { x: 110, y: 105 });
    input.current_pointer = Some(Pos2i { x: 130, y: 120 });
    window.show(input, &mut state);

    // the window follows the pointer: moved by (20, 15)
    assert_eq!(window.state.position, Pos2i { x: 120, y: 115 });
    assert!(window.state.drag_state.is_some());

    // next frame: the window still follows the pointer relative to where
    // the drag began: (100, 100) + ((90, 100) - (110, 105)) = (80, 95)
    let mut next = quiet_input(false);
    next.current_pointer = Some(Pos2i { x: 90, y: 100 });
    window.show(next, &mut state);
    assert_eq!(window.state.position, Pos2i { x: 80, y: 95 });

    // release: the drag state clears and the window stays put
    let mut stop = quiet_input(false);
    stop.drag_stopped = true;
    window.show(stop, &mut state);
    assert!(window.state.drag_state.is_none());
    assert_eq!(window.state.position, Pos2i { x: 80, y: 95 });
}

#[test]
fn drag_ignored_for_non_topmost() {
    let mut state = ToolWindowsState::default();
    state.bring_to_front(1);
    state.bring_to_front(2);

    let mut window = ToolWindow::from_params(1, &ToolWindowParameters::default());
    window.state.position = Pos2i { x: 100, y: 100 };

    let mut input = quiet_input(false);
    input.drag_started = true;
    input.press_pointer = Some(Pos2i { x: 110, y: 105 });
    input.current_pointer = Some(Pos2i { x: 130, y: 120 });
    window.show(input, &mut state);

    assert_eq!(window.state.position, Pos2i { x: 100, y: 100 });
    assert!(window.state.drag_state.is_none());
}

#[test]
fn show_clamps_stored_position() {
    let mut state = ToolWindowsState::default();
    let mut window = ToolWindow::from_params(1, &ToolWindowParameters::default());
    window.state.position = Pos2i { x: -40, y: 5000 };

    let input = quiet_input(false);
    window.show(input, &mut state);
    assert_eq!(window.state.position, Pos2i { x: 0, y: 800 });
}

#[test]
fn show_takes_collapse_from_toggle() {
    let mut state = ToolWindowsState::default();
    let mut window = ToolWindow::from_params(1, &ToolWindowParameters::default());
    window.show(quiet_input(true), &mut state);
    assert!(window.state.collapsed);
    assert_eq!(window.state.size, Vec2i { x: DEFAULT_WINDOW_WIDTH, y: DEFAULT_WINDOW_HEIGHT });
    window.show(quiet_input(false), &mut state);
    assert!(!window.state.collapsed);
}

#[test]
fn fake_data_rows() {
    let rows = fake_data();
    assert_eq!(rows.len(), 6);
    for (i, row) in rows.iter().enumerate() {
        assert_eq!(row.index, i + 1);
    }
    assert_eq!(rows[0].name, "Alpha");
    assert_eq!(rows[0].path, "/alpha/file.txt");
    assert_eq!(rows[5].name, "Zeta");
    assert_eq!(rows[5].path, "/zeta/presentation.pptx");
}

#[test]
fn from_order_drops_duplicates() {
    let stored: Vec<u64> = vec![4, 2, 4, 7, 2];
    let state = ToolWindowsState::from_order(&stored);
    assert_eq!(state.rendering_order(), vec![4, 2, 7]);
}

#[test]
fn saturating_arithmetic_bounds() {
    assert_eq!(sat_add(i64::MAX, 1), i64::MAX);
    assert_eq!(sat_add(i64::MIN, -1), i64::MIN);
    assert_eq!(sat_add(3, 4), 7);
    assert_eq!(sat_add_sub(10, 20, 5), 25);
    assert_eq!(sat_add_sub(i64::MAX, i64::MAX, 0), i64::MAX);
    assert_eq!(sat_add_sub(i64::MIN, 0, i64::MAX), i64::MIN);
}
