use canoe::binding::action::{Action, Direction, SnapSide};
use canoe::canoe::context::Context;
use canoe::canoe::window::{FullscreenState, Operator, SavedGeometry, SnapState, WindowEvent};
use canoe::canoe::{OutputId, WindowId};
use canoe::config::{load_config, Hotkey, Mode, WindowDecoration};
use canoe::protocol::{Request, EDGE_BOTTOM, EDGE_LEFT, EDGE_RIGHT, EDGE_TOP};

fn scale(part: i64, whole: i32, extent: i32) -> i32 {
    (part as f32 / whole as f32 * extent as f32).round() as i32
}

fn context() -> Context {
    Context::new(false, load_config(false, None, None))
}

fn output(c: &mut Context, object: u32, x: i32, width: i32, height: i32) -> OutputId {
    let id = c.create_output(object);
    let k = c.find_output(id).unwrap();
    c.outputs[k].update_position(x, 0);
    c.outputs[k].update_dimensions(width, height);
    id
}

fn window(c: &mut Context, object: u32, x: i32, y: i32, width: i32, height: i32) -> WindowId {
    let id = c.create_window(object);
    let i = c.find_window(id).unwrap();
    let w = &mut c.windows[i];
    w.x = x;
    w.y = y;
    w.width = width;
    w.height = height;
    w.rwm_node = Some(object + 1000);
    id
}

fn geometry(c: &Context, id: WindowId) -> (i32, i32, i32, i32) {
    let w = &c.windows[c.find_window(id).unwrap()];
    (w.x, w.y, w.proposed_width, w.proposed_height)
}

fn requests(c: &mut Context) -> Vec<String> {
    c.requests.take().iter().map(|request| format!("{:?}", request)).collect()
}

#[test]
fn maximized_windows_fill_the_usable_area() {
    let mut c = context();
    let o = output(&mut c, 1, 0, 800, 600);
    let k = c.find_output(o).unwrap();
    c.outputs[k].update_exclusive_area(0, 30, 800, 570);
    let id = window(&mut c, 10, 50, 60, 320, 200);
    c.maximize_window(id);
    assert_eq!(geometry(&c, id), (0, 30, 800, 570));
    assert!(c.windows[0].maximized);
    // With server-side decorations the frame fills the area.
    c.unmaximize_window(id);
    c.windows[0].decoration = Some(WindowDecoration::Ssd);
    c.maximize_window(id);
    assert_eq!(geometry(&c, id), (4, 30 + 4 + 19, 792, 570 - 8 - 19));
}

#[test]
fn unmaximizing_restores_geometry() {
    let mut c = context();
    output(&mut c, 1, 0, 800, 600);
    let id = window(&mut c, 10, 50, 60, 320, 200);
    c.maximize_window(id);
    c.unmaximize_window(id);
    assert_eq!(geometry(&c, id), (50, 60, 320, 200));
    let w = &c.windows[0];
    assert!(!w.maximized && w.snap_state.is_none() && w.pre_snap.is_none());
}

#[test]
fn snapping_twice_is_snapping_once() {
    let mut c = context();
    output(&mut c, 1, 0, 801, 600);
    let id = window(&mut c, 10, 50, 60, 320, 200);
    c.smart_snap_half(id, SnapSide::Right);
    let once = geometry(&c, id);
    assert_eq!(once.0 + once.2, 801);
    assert_eq!(c.windows[0].snap_state, Some(SnapState::Right));
    c.requests.take();
    c.smart_snap_half(id, SnapSide::Right);
    assert_eq!(geometry(&c, id), once);
    assert!(requests(&mut c).is_empty());
}

#[test]
fn snapping_back_restores_geometry() {
    let mut c = context();
    output(&mut c, 1, 0, 800, 600);
    let id = window(&mut c, 10, 50, 60, 320, 200);
    c.smart_snap_half(id, SnapSide::Left);
    assert_eq!(geometry(&c, id), (0, 0, 400, 600));
    c.smart_snap_half(id, SnapSide::Right);
    assert_eq!(geometry(&c, id), (50, 60, 320, 200));
    assert!(c.windows[0].snap_state.is_none());
}

#[test]
fn leaving_fullscreen_restores_geometry() {
    let mut c = context();
    let o = output(&mut c, 1, 0, 800, 600);
    let id = window(&mut c, 10, 50, 60, 320, 200);
    c.focus(id);
    c.toggle_fullscreen();
    assert_eq!(c.windows[0].fullscreen, FullscreenState::Output(o));
    c.windows[0].update_dimensions(800, 600);
    c.windows[0].x = 0;
    c.windows[0].y = 0;
    c.toggle_fullscreen();
    assert_eq!(c.windows[0].fullscreen, FullscreenState::Off);
    c.handle_manage_start(&scale);
    assert_eq!(geometry(&c, id), (50, 60, 320, 200));
}

#[test]
fn showing_undoes_hiding() {
    let mut c = context();
    output(&mut c, 1, 0, 800, 600);
    let id = window(&mut c, 10, 50, 60, 320, 200);
    let before = (c.windows[0].x, c.windows[0].y, c.windows[0].width, c.windows[0].height);
    c.windows[0].conceal(&mut c.requests);
    assert!(c.windows[0].hidden);
    c.windows[0].show(&mut c.requests);
    assert!(!c.windows[0].hidden);
    let w = &c.windows[c.find_window(id).unwrap()];
    assert_eq!(before, (w.x, w.y, w.width, w.height));
    assert_eq!(
        requests(&mut c),
        vec!["Hide { window: 10 }".to_string(), "Show { window: 10 }".to_string()]
    );
}

#[test]
fn later_hidden_windows_come_later() {
    let mut c = context();
    let o = output(&mut c, 1, 0, 800, 600);
    let first = window(&mut c, 10, 0, 0, 320, 200);
    let second = window(&mut c, 11, 0, 0, 320, 200);
    let third = window(&mut c, 12, 0, 0, 320, 200);
    for id in [first, second, third] {
        c.set_window_output(id, o);
    }
    c.hide_window(second);
    c.hide_window(first);
    let icons: Vec<WindowId> =
        c.collect_minimized_icons(o).iter().map(|icon| icon.window_id).collect();
    assert_eq!(icons, vec![second, first]);
    assert_eq!(c.desktop_icons(o).len(), 2);
    c.config.ui.icons_enabled = false;
    assert!(c.desktop_icons(o).is_empty());
}

#[test]
fn hiding_passes_the_focus_on() {
    let mut c = context();
    let o = output(&mut c, 1, 0, 800, 600);
    let first = window(&mut c, 10, 0, 0, 320, 200);
    let second = window(&mut c, 11, 0, 0, 320, 200);
    let third = window(&mut c, 12, 0, 0, 320, 200);
    for id in [first, second, third] {
        c.set_window_output(id, o);
    }
    for id in [third, first, second] {
        c.focus(id);
    }
    c.hide_window(second);
    assert_eq!(c.focused_window, Some(first));
}

#[test]
fn dragging_an_edge_keeps_the_other() {
    let mut c = context();
    let id = window(&mut c, 10, 100, 100, 320, 200);
    let i = c.find_window(id).unwrap();
    c.windows[i].start_resize(7, EDGE_LEFT | EDGE_TOP, &mut c.requests);
    c.windows[i].apply_op_delta(-20, 30, &mut c.requests);
    assert_eq!(geometry(&c, id), (80, 130, 340, 170));
    c.windows[i].apply_op_delta(-50, 0, &mut c.requests);
    assert_eq!(geometry(&c, id), (50, 100, 370, 200));
    c.windows[i].end_operation(&mut c.requests);
    assert_eq!(c.windows[i].operator, Operator::Idle);

    let other = window(&mut c, 11, 100, 100, 320, 200);
    let j = c.find_window(other).unwrap();
    c.windows[j].start_resize(7, EDGE_RIGHT | EDGE_BOTTOM, &mut c.requests);
    c.windows[j].apply_op_delta(15, -5, &mut c.requests);
    assert_eq!(geometry(&c, other), (100, 100, 335, 195));
}

#[test]
fn dragging_stops_at_the_smallest_size() {
    let mut c = context();
    let id = window(&mut c, 10, 100, 100, 320, 200);
    let i = c.find_window(id).unwrap();
    c.windows[i].min_width = 150;
    c.windows[i].start_resize(7, EDGE_LEFT, &mut c.requests);
    c.windows[i].apply_op_delta(1000, 0, &mut c.requests);
    let (x, _, width, _) = geometry(&c, id);
    assert_eq!((x, width), (100 + 320 - 150, 150));
}

#[test]
fn moving_depends_on_the_distance_only() {
    let mut c = context();
    let id = window(&mut c, 10, 100, 100, 320, 200);
    let i = c.find_window(id).unwrap();
    c.windows[i].start_move(7, &mut c.requests);
    c.windows[i].apply_op_delta(500, -500, &mut c.requests);
    c.windows[i].apply_op_delta(-30, 12, &mut c.requests);
    assert_eq!((c.windows[i].x, c.windows[i].y), (70, 112));
}

#[test]
fn resizing_depends_on_the_distance_only() {
    let mut c = context();
    let id = window(&mut c, 10, 100, 100, 320, 200);
    let i = c.find_window(id).unwrap();
    c.windows[i].start_resize(7, EDGE_LEFT | EDGE_TOP, &mut c.requests);
    c.windows[i].apply_op_delta(500, -500, &mut c.requests);
    c.windows[i].apply_op_delta(-30, 12, &mut c.requests);
    assert_eq!((c.windows[i].x, c.windows[i].y), (70, 112));
    assert_eq!((c.windows[i].proposed_width, c.windows[i].proposed_height), (350, 188));
}

#[test]
fn only_maximized_is_its_own_opposite() {
    assert_eq!(SnapState::Left.opposite(), SnapState::Right);
    assert_eq!(SnapState::Right.opposite(), SnapState::Left);
    assert_eq!(SnapState::Maximized.opposite(), SnapState::Maximized);
}

#[test]
fn window_is_where_most_of_it_is() {
    let mut c = context();
    let left = output(&mut c, 1, 0, 800, 600);
    let right = output(&mut c, 2, 800, 800, 600);
    let id = window(&mut c, 10, 700, 0, 300, 200);
    let i = c.find_window(id).unwrap();
    assert_eq!(c.output_for_window_rect(&c.windows[i]), Some(right));
    c.windows[i].x = 600;
    assert_eq!(c.output_for_window_rect(&c.windows[i]), Some(left));
    c.windows[i].x = 5000;
    assert_eq!(c.output_for_window_rect(&c.windows[i]), None);
}

#[test]
fn stepping_back_undoes_stepping_forward() {
    let mut c = context();
    let o = output(&mut c, 1, 0, 800, 600);
    let ids: Vec<WindowId> =
        (0..4).map(|k| window(&mut c, 10 + k, 0, 0, 320, 200)).collect();
    for id in &ids {
        c.set_window_output(*id, o);
    }
    for id in &ids {
        c.focus(*id);
        c.focus_iter(Direction::Forward);
        assert_ne!(c.focused_window, Some(*id));
        c.focus_iter(Direction::Reverse);
        assert_eq!(c.focused_window, Some(*id));
    }
}

#[test]
fn focused_window_comes_first() {
    let mut c = context();
    output(&mut c, 1, 0, 800, 600);
    let ids: Vec<WindowId> =
        (0..3).map(|k| window(&mut c, 10 + k, 0, 0, 320, 200)).collect();
    for id in &ids {
        c.focus(*id);
    }
    assert_eq!(c.focus_stack, vec![ids[2], ids[1], ids[0]]);
    c.focus(ids[0]);
    assert_eq!(c.focus_stack, vec![ids[0], ids[2], ids[1]]);
    assert_eq!(c.focused_window, Some(ids[0]));
}

#[test]
fn focus_order_has_no_duplicates() {
    let mut c = context();
    let ids: Vec<WindowId> =
        (0..3).map(|k| window(&mut c, 10 + k, 0, 0, 320, 200)).collect();
    for k in [0, 1, 1, 2, 0, 2] {
        c.focus(ids[k]);
        let mut sorted = c.focus_stack.clone();
        sorted.sort();
        sorted.dedup();
        assert_eq!(sorted.len(), c.focus_stack.len());
    }
}

#[test]
fn focusing_ends_fullscreen_elsewhere() {
    let mut c = context();
    output(&mut c, 1, 0, 800, 600);
    let first = window(&mut c, 10, 0, 0, 320, 200);
    let second = window(&mut c, 11, 0, 0, 320, 200);
    c.focus(first);
    c.toggle_fullscreen();
    c.focus(second);
    assert_eq!(c.windows[0].fullscreen, FullscreenState::Off);
}

#[test]
fn new_windows_have_new_ids() {
    let mut c = context();
    let first = window(&mut c, 10, 0, 0, 320, 200);
    let second = window(&mut c, 11, 0, 0, 320, 200);
    c.destroy_window(first);
    let third = window(&mut c, 12, 0, 0, 320, 200);
    assert!(first != second && second != third && first != third);
    assert!(c.find_window(first).is_none());
    let one = c.create_output(1);
    c.destroy_output(one);
    let two = c.create_output(2);
    assert_ne!(one, two);
}

#[test]
fn removed_window_is_gone() {
    let mut c = context();
    output(&mut c, 1, 0, 800, 600);
    let first = window(&mut c, 10, 0, 0, 320, 200);
    let second = window(&mut c, 11, 0, 0, 320, 200);
    c.focus(first);
    c.focus(second);
    c.destroy_window(second);
    assert!(c.find_window(second).is_none());
    assert_eq!(c.focus_stack, vec![first]);
    assert_eq!(c.focused_window, Some(first));
}

#[test]
fn switching_modes_switches_bindings() {
    let mut c = context();
    let id = c.create_seat(5);
    let j = c.find_seat(id).unwrap();
    let mut seat = c.seats.remove(j);
    c.setup_seat_bindings(&mut seat);
    seat.initialize_bindings();
    assert_eq!(seat.mode, Mode::Default);
    seat.switch_mode(Mode::Lock, &mut c.requests);
    assert_eq!(seat.mode, Mode::Lock);
    for (binding, _) in &seat.xkb_bindings {
        if binding.mode == Mode::Lock {
            assert!(binding.enabled);
        }
        if binding.mode == Mode::Default {
            assert!(!binding.enabled);
        }
    }
    for (binding, _) in &seat.pointer_bindings {
        if binding.mode == Mode::Default {
            assert!(!binding.enabled);
        }
    }
}

#[test]
fn locking_switches_the_mode() {
    let mut c = context();
    let id = c.create_seat(5);
    c.session_lock(true);
    let j = c.find_seat(id).unwrap();
    assert!(c.session_locked);
    assert_eq!(c.seats[j].mode, Mode::Lock);
    c.session_lock(false);
    assert!(!c.session_locked);
    assert_eq!(c.seats[j].mode, Mode::Default);
}

#[test]
fn hotkeys_replace_built_in_bindings() {
    let mut c = context();
    let id = c.create_seat(5);
    let j = c.find_seat(id).unwrap();
    let mut seat = c.seats.remove(j);
    c.populate_xkb_bindings(&mut seat);
    let (keysym, modifiers) = seat
        .xkb_bindings
        .iter()
        .find(|(binding, _)| binding.mode == Mode::Default)
        .map(|(binding, _)| (binding.keysym, binding.modifiers))
        .unwrap();
    c.config.hotkeys.push(Hotkey { keysym, modifiers, argv: vec!["foot".to_string()] });
    c.rebuild_xkb_bindings(&mut seat);
    let bound: Vec<String> = seat
        .xkb_bindings
        .iter()
        .filter(|(b, _)| b.mode == Mode::Default && b.keysym == keysym && b.modifiers == modifiers)
        .map(|(b, _)| format!("{:?}", b.action))
        .collect();
    assert_eq!(bound, vec![format!("{:?}", Action::Spawn { argv: vec!["foot".to_string()] })]);
}

#[test]
fn windows_are_carried_to_the_next_output_in_proportion() {
    let mut c = context();
    let left = output(&mut c, 1, 0, 800, 600);
    let right = output(&mut c, 2, 800, 1600, 1200);
    let id = window(&mut c, 10, 200, 150, 320, 200);
    c.set_window_output(id, left);
    c.focus(id);
    c.send_to_output(Direction::Forward, &scale);
    let w = &c.windows[c.find_window(id).unwrap()];
    assert_eq!(w.output, Some(right));
    assert_eq!((w.x, w.y), (800 + 400, 300));
}

#[test]
fn requested_states_are_entered_during_a_manage_sequence() {
    let mut c = context();
    output(&mut c, 1, 0, 800, 600);
    let id = window(&mut c, 10, 50, 60, 320, 200);
    let i = c.find_window(id).unwrap();
    c.windows[i].queue_event(WindowEvent::Maximize);
    c.handle_manage_start(&scale);
    assert!(c.windows[i].maximized);
    c.windows[i].queue_event(WindowEvent::Unmaximize);
    c.windows[i].queue_event(WindowEvent::Minimize);
    c.handle_manage_start(&scale);
    assert!(!c.windows[i].maximized && c.windows[i].hidden);
}

#[test]
fn closing_asks_the_window() {
    let mut c = context();
    let id = window(&mut c, 10, 50, 60, 320, 200);
    c.focus(id);
    c.requests.take();
    let seat = c.create_seat(5);
    c.execute_action(Action::Close, seat, &scale);
    let asked = c.requests.take();
    assert!(asked.iter().any(|request| matches!(request, Request::Close { window: 10 })));
}

#[test]
fn spawning_uses_the_configured_commands() {
    let mut c = context();
    let seat = c.create_seat(5);
    c.execute_action(Action::SpawnTerminal, seat, &scale);
    c.execute_action(Action::SpawnShell { cmd: "ls | wc".to_string() }, seat, &scale);
    let asked: Vec<Vec<String>> = c
        .requests
        .take()
        .into_iter()
        .filter_map(|request| match request {
            Request::Spawn { argv } => Some(argv),
            _ => None,
        })
        .collect();
    assert_eq!(asked[0], vec!["foot".to_string()]);
    assert_eq!(asked[1], vec!["sh".to_string(), "-c".to_string(), "ls | wc".to_string()]);
}

#[test]
fn geometry_is_saved_as_it_is() {
    let mut c = context();
    window(&mut c, 10, 50, 60, 320, 200);
    assert_eq!(
        c.windows[0].geometry(),
        SavedGeometry { x: 50, y: 60, width: 320, height: 200 }
    );
}
