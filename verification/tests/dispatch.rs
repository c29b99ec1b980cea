use canoe::binding::action::Action;
use canoe::binding::BindingEvent;
use canoe::canoe::context::Context;
use canoe::canoe::desktop::{DesktopIconLayout, DesktopSurface};
use canoe::canoe::geometry::{
    calculate_resize_edges, calculate_resize_edges_near_border, cursor_shape_for_edges,
};
use canoe::canoe::{OutputId, WindowId, WindowMenuMode};
use canoe::config::{load_config, Mode, WindowDecoration};
use canoe::dispatch::frame::FrameStep;
use canoe::dispatch::globals::{bind_version, GlobalKind, Globals, WlOutputGlobal};
use canoe::dispatch::output::OutputReport;
use canoe::dispatch::pointer::PointerReport;
use canoe::dispatch::seat::{LayerFocus, SeatReport};
use canoe::dispatch::window::WindowReport;
use canoe::protocol::{CursorShape, MenuPlan, Request, EDGE_LEFT, EDGE_TOP};

const LEFT_BUTTON: u32 = 0x110;

fn scale(part: i64, whole: i32, extent: i32) -> i32 {
    (part as f32 / whole as f32 * extent as f32).round() as i32
}

fn globals() -> Globals {
    let mut g = Globals::new();
    g.compositor = true;
    g.shm = true;
    g.wlr_layer_shell = true;
    g.wl_outputs.push(WlOutputGlobal { name: 30, object: 31, scale: 1 });
    g
}

/// A context with one output, one seat and some windows on the output.
fn desktop(windows: u32) -> (Context, Globals, OutputId, usize, Vec<WindowId>) {
    let g = globals();
    let mut c = Context::new(false, load_config(false, None, None));
    let seat = c.announce_seat(5);
    let output = c.announce_output(1);
    c.output_report(1, OutputReport::WlOutput { name: 30 }, &g);
    c.output_report(1, OutputReport::Position { x: 0, y: 0 }, &g);
    c.output_report(1, OutputReport::Dimensions { width: 800, height: 600 }, &g);
    let ids: Vec<WindowId> = (0..windows)
        .map(|k| {
            let object = 10 + k;
            let id = c.announce_window(object, &g);
            c.node_created(id, object + 1000);
            c.window_report(object, WindowReport::Dimensions { width: 320, height: 200 });
            c.window_report(object, WindowReport::Title { title: Some(format!("window {k}")) });
            c.window_report(object, WindowReport::AppId { app_id: Some(format!("app{}", k % 2)) });
            c.set_window_output(id, output);
            id
        })
        .collect();
    for id in &ids {
        c.focus(*id);
    }
    c.requests.take();
    (c, g, output, seat, ids)
}

fn plan(c: &mut Context) -> MenuPlan {
    c.requests
        .take()
        .into_iter()
        .find_map(|request| match request {
            Request::OpenMenu { plan } => Some(plan),
            _ => None,
        })
        .expect("a menu is asked for")
}

#[test]
fn interfaces_are_bound_at_known_versions() {
    assert_eq!(bind_version("wl_shm", 3), Some((GlobalKind::Shm, 1)));
    assert_eq!(bind_version("wl_compositor", 2), Some((GlobalKind::Compositor, 2)));
    assert_eq!(bind_version("wl_drm", 2), None);
}

#[test]
fn reports_are_noted() {
    let (mut c, g, output, _, ids) = desktop(2);
    let i = c.find_window(ids[0]).unwrap();
    assert_eq!((c.windows[i].width, c.windows[i].height), (320, 200));
    assert_eq!(c.windows[i].title.as_deref(), Some("window 0"));
    c.window_report(10, WindowReport::Parent { parent: Some(11) });
    assert_eq!(c.windows[i].parent, Some(ids[1]));
    c.window_report(
        10,
        WindowReport::DimensionsHint { min_width: 5, min_height: 6, max_width: 7, max_height: 8 },
    );
    assert_eq!((c.windows[i].min_width, c.windows[i].max_height), (5, 8));
    let k = c.find_output(output).unwrap();
    assert_eq!((c.outputs[k].width, c.outputs[k].wl_output), (800, Some(31)));
    c.output_report(1, OutputReport::Removed, &g);
    assert!(c.find_output(output).is_none());
    c.window_report(10, WindowReport::Closed);
    assert!(c.find_window(ids[0]).is_none());
}

#[test]
fn menu_lists_each_window_once() {
    let (mut c, g, output, _, ids) = desktop(4);
    c.ask_windows_menu(output, 0, 0, WindowMenuMode::Pointer, None, &g);
    let items: Vec<WindowId> = plan(&mut c).items.iter().map(|item| item.window_id).collect();
    assert_eq!(items, vec![ids[3], ids[2], ids[1], ids[0]]);
    let odd: Vec<WindowId> =
        c.collect_menu_items_for_app(output, "app1").iter().map(|item| item.window_id).collect();
    assert_eq!(odd, vec![ids[3], ids[1]]);
}

#[test]
fn menu_stays_on_its_output() {
    let (mut c, g, output, _, _) = desktop(3);
    c.ask_windows_menu(output, 795, 595, WindowMenuMode::Pointer, None, &g);
    let asked = plan(&mut c);
    c.open_window_menu(asked, 40, 41, Some(50), &g);
    let menu = c.window_menu.as_ref().unwrap();
    assert_eq!(menu.origin_x + menu.width, 800);
    assert_eq!(menu.origin_y + menu.height, 600);
}

#[test]
fn cancelled_alt_tab_goes_back() {
    let (mut c, g, output, _, ids) = desktop(3);
    c.hide_window(ids[0]);
    assert_eq!(c.focused_window, Some(ids[2]));
    let order = c.focus_stack.clone();
    c.ask_windows_menu(output, 0, 0, WindowMenuMode::AltTab, None, &g);
    let asked = plan(&mut c);
    c.open_window_menu(asked, 40, 41, Some(50), &g);
    c.preview_alt_tab_window(ids[0]);
    assert!(!c.windows[c.find_window(ids[0]).unwrap()].hidden);
    c.preview_alt_tab_window(ids[1]);
    assert!(c.windows[c.find_window(ids[0]).unwrap()].hidden);
    assert_eq!(c.focus_stack, order);
    c.close_window_menu();
    assert!(c.window_menu.is_none() && c.window_menu_mode.is_none());
    assert!(c.windows[c.find_window(ids[0]).unwrap()].hidden);
    assert_eq!(c.focused_window, Some(ids[2]));
    assert_eq!(c.focus_stack, order);
}

#[test]
fn previews_leave_no_trace() {
    let (mut c, g, output, _, ids) = desktop(3);
    c.hide_window(ids[1]);
    c.ask_windows_menu(output, 0, 0, WindowMenuMode::AltTab, None, &g);
    let asked = plan(&mut c);
    c.open_window_menu(asked, 40, 41, Some(50), &g);
    for id in [ids[1], ids[0], ids[1], ids[2]] {
        c.preview_alt_tab_window(id);
    }
    let hidden: Vec<bool> = c.windows.iter().map(|w| w.hidden).collect();
    assert_eq!(hidden, vec![false, true, false]);
}

#[test]
fn committed_alt_tab_stays() {
    let (mut c, g, output, _, ids) = desktop(3);
    c.ask_windows_menu(output, 0, 0, WindowMenuMode::AltTab, None, &g);
    let asked = plan(&mut c);
    c.open_window_menu(asked, 40, 41, Some(50), &g);
    c.handle_window_menu_cycle(&g);
    let chosen = c.window_menu.as_ref().unwrap().hovered_window();
    assert_ne!(chosen, Some(ids[2]));
    c.commit_alt_tab();
    assert!(c.window_menu.is_none());
    assert_eq!(c.focused_window, chosen);
}

#[test]
fn icon_steps_stay_among_the_icons() {
    let (mut c, _, output, seat, ids) = desktop(3);
    for id in &ids {
        c.hide_window(*id);
    }
    let k = c.find_output(output).unwrap();
    let mut surface = DesktopSurface::new(50, 51, output);
    surface.configure(800, 600);
    surface.icon_cols = 2;
    surface.icons = ids
        .iter()
        .enumerate()
        .map(|(i, id)| DesktopIconLayout { window_id: *id, x: i as i32 * 64, y: 550 })
        .collect();
    c.outputs[k].desktop_surface = Some(surface);
    c.enter_icon_focus(output, ids[0], seat);
    assert_eq!(c.icon_focus_output, Some(output));
    c.handle_manage_start(&scale);
    assert_eq!(c.seats[c.find_seat(seat).unwrap()].mode, Mode::DesktopIcons);
    let selected = |c: &Context| c.outputs[k].desktop_surface.as_ref().unwrap().selected_icon;
    assert_eq!(selected(&c), Some(ids[0]));
    c.icon_navigate(1, 0);
    assert_eq!(selected(&c), Some(ids[1]));
    for _ in 0..5 {
        c.icon_navigate(1, 0);
        assert!(ids.contains(&selected(&c).unwrap()));
    }
    let chosen = selected(&c).unwrap();
    c.icon_activate(seat);
    assert!(!c.windows[c.find_window(chosen).unwrap()].hidden);
    assert_eq!(c.focused_window, Some(chosen));
}

#[test]
fn grabbed_edges_have_a_shape() {
    let (mut c, _, _, _, _) = desktop(1);
    c.windows[0].x = 100;
    c.windows[0].y = 100;
    let edges = calculate_resize_edges(&c.windows[0], 110, 110);
    assert_eq!(edges, EDGE_LEFT | EDGE_TOP);
    assert_eq!(cursor_shape_for_edges(edges), Some(CursorShape::NwResize));
    assert_eq!(cursor_shape_for_edges(0), None);
    assert_eq!(calculate_resize_edges_near_border(100, 100, 320, 200, 4, 98, 150), EDGE_LEFT);
    assert_eq!(calculate_resize_edges_near_border(100, 100, 320, 200, 4, 200, 200), 0);
}

#[test]
fn new_windows_are_cascaded() {
    let (mut c, _, _, _, ids) = desktop(3);
    c.apply_initial_positions();
    let places: Vec<(i32, i32)> = ids
        .iter()
        .map(|id| {
            let w = &c.windows[c.find_window(*id).unwrap()];
            (w.x, w.y)
        })
        .collect();
    for pair in places.windows(2) {
        assert!(pair[0].0 <= pair[1].0 && pair[0].1 <= pair[1].1);
    }
    assert_ne!(places[0], places[2]);
    for (x, y) in places {
        assert!(x >= 0 && x + 320 <= 800 && y >= 0 && y + 200 <= 600);
    }
}

#[test]
fn the_titlebar_closes_on_a_double_click() {
    let (mut c, g, _, seat, ids) = desktop(1);
    let i = c.find_window(ids[0]).unwrap();
    c.windows[i].decoration = Some(WindowDecoration::Ssd);
    c.titlebar_created(ids[0], 60, 61);
    c.requests.take();
    let closes = |c: &mut Context| {
        c.requests.take().iter().any(|request| matches!(request, Request::Close { window: 10 }))
    };
    c.pointer_report(seat, PointerReport::Enter { serial: 1, surface: 60, x: 8, y: 8 }, &g);
    for (now, expected) in [(1000, false), (1300, true), (5000, false), (5401, false)] {
        c.pointer_report(seat, PointerReport::Pressed { button: LEFT_BUTTON, now }, &g);
        c.pointer_report(seat, PointerReport::Released { button: LEFT_BUTTON, now }, &g);
        c.handle_manage_start(&scale);
        assert_eq!(closes(&mut c), expected, "{now}");
    }
}

#[test]
fn dragging_follows_the_pointer() {
    let (mut c, g, _, seat, ids) = desktop(1);
    let i = c.find_window(ids[0]).unwrap();
    c.windows[i].x = 100;
    c.windows[i].y = 100;
    c.windows[i].position_undefined = false;
    c.seat_report(seat, SeatReport::PointerEnter { window: 10 }, &scale, &g);
    c.window_report(10, WindowReport::PointerMoveRequested { seat: 5 });
    c.handle_manage_start(&scale);
    c.seat_report(seat, SeatReport::OpDelta { dx: 15, dy: -20 }, &scale, &g);
    assert_eq!((c.windows[i].x, c.windows[i].y), (115, 80));
    c.seat_report(seat, SeatReport::OpRelease, &scale, &g);
    c.handle_manage_start(&scale);
    c.seat_report(seat, SeatReport::OpDelta { dx: 300, dy: 300 }, &scale, &g);
    assert_eq!((c.windows[i].x, c.windows[i].y), (115, 80));
}

#[test]
fn exclusive_layers_take_the_focus() {
    let (mut c, _, _, seat, ids) = desktop(1);
    let j = c.find_seat(seat).unwrap();
    c.layer_focus(seat, LayerFocus::Exclusive);
    assert!(c.seats[j].focus_exclusive);
    c.layer_focus(seat, LayerFocus::Nothing);
    assert!(!c.seats[j].focus_exclusive);
    assert_eq!(c.focused_window, Some(ids[0]));
}

#[test]
fn pressed_bindings_are_carried_out() {
    let (mut c, g, _, seat, _) = desktop(1);
    let j = c.find_seat(seat).unwrap();
    let index = c.seats[j]
        .xkb_bindings
        .iter()
        .position(|(binding, _)| matches!(binding.action, Action::SpawnLauncher))
        .unwrap();
    c.xkb_binding_event(seat, index, BindingEvent::Pressed, &scale, &g);
    c.handle_manage_start(&scale);
    let spawned = c.requests.take().into_iter().any(|request| match request {
        Request::Spawn { argv } => argv == vec!["fuzzel".to_string()],
        _ => false,
    });
    assert!(spawned);
}

#[test]
fn only_decorated_windows_get_a_frame() {
    let (mut c, g, _, _, ids) = desktop(1);
    c.titlebar_created(ids[0], 60, 61);
    let i = c.find_window(ids[0]).unwrap();
    c.windows[i].decoration = Some(WindowDecoration::Csd);
    assert!(!matches!(c.frame_step(i, &g), FrameStep::Draw { .. }));
    c.windows[i].decoration = Some(WindowDecoration::Ssd);
    match c.frame_step(i, &g) {
        FrameStep::Draw { content_width, content_height, x, y, .. } => {
            assert_eq!((content_width, content_height), (320, 200));
            assert_eq!((x, y), (-4, -23));
        },
        _ => panic!("a frame is drawn"),
    }
}

#[test]
fn reloading_registers_the_bindings_anew() {
    let g = globals();
    let mut c = Context::new(false, load_config(false, None, None));
    c.rwm_xkb_bindings = Some(70);
    let seat = c.announce_seat(5);
    let mut object = 1000;
    for request in c.requests.take() {
        if let Request::GetXkbBinding { id, index, .. } = request {
            assert_eq!(id, seat);
            c.xkb_binding_created(id, index, object);
            object += 1;
        }
    }
    let count = c.seats[0].xkb_bindings.len();
    assert_eq!(object, 1000 + count as u32);
    c.reload_config(load_config(false, None, None));
    c.manage_start(&scale, &g);
    let kinds: Vec<char> = c
        .requests
        .take()
        .iter()
        .filter_map(|request| match request {
            Request::DestroyXkbBinding { .. } => Some('-'),
            Request::GetXkbBinding { .. } => Some('+'),
            _ => None,
        })
        .collect();
    let mut expected = vec!['-'; count];
    expected.extend(vec!['+'; count]);
    assert_eq!(kinds, expected);
    assert!(c.seats[0].xkb_bindings.iter().all(|(_, object)| object.is_none()));
}

#[test]
fn each_window_is_in_the_focus_order_once() {
    let (mut c, g, _, seat, ids) = desktop(4);
    assert_eq!(c.focus_stack, vec![ids[3], ids[2], ids[1], ids[0]]);
    c.window_report(11, WindowReport::Closed);
    assert_eq!(c.focus_stack, vec![ids[3], ids[2], ids[0]]);
    c.seat_report(seat, SeatReport::WindowInteraction { window: 10 }, &scale, &g);
    assert_eq!(c.focus_stack, vec![ids[0], ids[3], ids[2]]);
    let late = c.announce_window(20, &g);
    assert!(ids.iter().all(|id| *id < late));
    assert_eq!(c.focus_stack, vec![ids[0], ids[3], ids[2], late]);
    let table: Vec<WindowId> = c.windows.iter().map(|w| w.id).collect();
    assert_eq!(table, vec![ids[0], ids[2], ids[3], late]);
}

#[test]
fn other_events_keep_the_tables() {
    let (mut c, g, output, seat, ids) = desktop(2);
    let tables = |c: &Context| {
        (
            c.windows.iter().map(|w| w.id).collect::<Vec<_>>(),
            c.outputs.iter().map(|o| o.id).collect::<Vec<_>>(),
            c.seats.iter().map(|s| s.id).collect::<Vec<_>>(),
            (c.next_window_id, c.next_output_id, c.next_seat_id),
        )
    };
    let before = tables(&c);
    c.manage_start(&scale, &g);
    c.handle_render_start();
    c.session_lock(true);
    c.layer_focus(seat, LayerFocus::Exclusive);
    c.window_report(10, WindowReport::Title { title: None });
    c.reload_config(load_config(false, None, None));
    assert_eq!(tables(&c), before);
    assert_eq!(before.0, ids);
    assert_eq!(before.1, vec![output]);
    assert_eq!(before.2, vec![seat]);
}

#[test]
fn dialogs_go_above_their_parents() {
    let (mut c, _, _, _, _) = desktop(3);
    c.window_report(10, WindowReport::Parent { parent: Some(11) });
    c.window_report(11, WindowReport::Parent { parent: Some(12) });
    c.requests.take();
    c.handle_render_start();
    let placed: Vec<(u32, u32)> = c
        .requests
        .take()
        .into_iter()
        .filter_map(|request| match request {
            Request::PlaceAbove { node, other } => Some((node, other)),
            _ => None,
        })
        .collect();
    assert_eq!(placed, vec![(1011, 1012), (1010, 1011)]);
}
