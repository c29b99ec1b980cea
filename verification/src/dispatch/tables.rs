//! Events leave the tables of windows, outputs and seats alone, unless they
//! tell of a new object or of the end of one: one lemma for each step.

use vstd::prelude::*;
use crate::binding::BindingEvent;
use crate::binding::action::ActionView;
use crate::canoe::{LayerSurfaceKind, OutputId, SeatId, WindowId, WindowMenuMode};
use crate::canoe::context::ContextView;
use crate::canoe::context::objects::{xkb_populated, xkb_rebuilt};
use crate::canoe::context::tables::{
    given_out, group_tables, icons_given, lemma_output_icons_given, lemma_same_id_sized,
    lemma_same_seat_id_queued, lemma_same_window_apply_op_delta, lemma_same_window_end_operation,
    lemma_same_window_ruled, lemma_steady_acted, lemma_steady_alt_tab_begun,
    lemma_steady_alt_tab_previewed, lemma_steady_ask, lemma_steady_cursor_updated,
    lemma_steady_focus, lemma_steady_icon_chosen, lemma_steady_icon_focus_entered,
    lemma_steady_icon_focus_left, lemma_steady_manage_dirty, lemma_steady_manage_finished,
    lemma_steady_managed, lemma_steady_menu_closed, lemma_steady_mode_switched,
    lemma_steady_output_followed, lemma_steady_output_followed_pointer,
    lemma_steady_window_interaction, lemma_steady_window_output_set, output_id, seat_id, steady,
    steady_given,
};
use crate::canoe::desktop::cell_has;
use crate::canoe::output::OutputView;
use crate::canoe::seat::{PointerTarget, SeatView};
use crate::canoe::titlebar::TitlebarButton;
use crate::canoe::window::{WindowEvent, WindowView};
use crate::dispatch::globals::GlobalsView;
use crate::dispatch::pointer::PointerReport;
use crate::dispatch::seat::LayerFocus;
use crate::dispatch::window::{WindowReport, is_rwm_window};
use crate::protocol::{MenuPlanView, ObjectId};
use crate::search::{first, lemma_first};

verus! {

/// The window behind a protocol object has an id that was given out.
proof fn lemma_window_of_given(c: ContextView, object: ObjectId)
    requires
        c.ids_given(),
    ensures
        c.window_of(object) matches Some(id) ==> id < c.next_window_id,
{
    reveal(given_out);
    lemma_first(c.windows, is_rwm_window(object));
    if let Some(i) = first(c.windows, is_rwm_window(object)) {
        assert(c.tables().windows[i] == c.windows[i].id);
    }
}

pub broadcast proof fn lemma_same_id_titlebar_gripped(w: WindowView)
    ensures
        (#[trigger] w.titlebar_gripped()).id == w.id,
{
}

pub broadcast proof fn lemma_same_id_titlebar_let_go(w: WindowView)
    ensures
        (#[trigger] w.titlebar_let_go()).id == w.id,
{
}

pub broadcast proof fn lemma_same_id_titlebar_left(w: WindowView)
    ensures
        (#[trigger] w.titlebar_left()).id == w.id,
{
}

pub broadcast proof fn lemma_same_id_titlebar_moved(w: WindowView, name: u32, entered: bool)
    ensures
        (#[trigger] w.titlebar_moved(name, entered)).id == w.id,
{
    reveal(WindowView::titlebar_moved);
}

pub broadcast proof fn lemma_same_id_noted(
    w: WindowView,
    report: WindowReport,
    parent: Option<WindowId>,
)
    ensures
        (#[trigger] w.noted(report, parent)).id == w.id,
{
    broadcast use lemma_same_id_sized;
    reveal(WindowView::noted);
}

pub broadcast proof fn lemma_same_seat_id_entered(
    s: SeatView,
    serial: u32,
    target: PointerTarget,
    x: i32,
    y: i32,
)
    ensures
        (#[trigger] s.entered(serial, target, x, y)).id == s.id,
{
}

pub broadcast proof fn lemma_same_seat_id_left(s: SeatView, serial: u32)
    ensures
        (#[trigger] s.left(serial)).id == s.id,
{
}

pub broadcast proof fn lemma_steady_cursor_device_asked(c: ContextView, seat: SeatId, g: GlobalsView)
    ensures
        steady(c, #[trigger] c.cursor_device_asked(seat, g)),
{
    broadcast use {group_tables, lemma_steady_ask};
    reveal(ContextView::cursor_device_asked);
}

pub broadcast proof fn lemma_steady_pointer_asked(
    c: ContextView,
    seat: SeatId,
    wl_seat: ObjectId,
    g: GlobalsView,
)
    ensures
        steady(c, #[trigger] c.pointer_asked(seat, wl_seat, g)),
{
    broadcast use {group_tables, lemma_steady_ask, lemma_steady_cursor_device_asked};
    reveal(ContextView::pointer_asked);
}

pub broadcast proof fn lemma_steady_wl_seat_attached(c: ContextView, seat: SeatId, g: GlobalsView)
    ensures
        steady(c, #[trigger] c.wl_seat_attached(seat, g)),
{
    broadcast use {group_tables, lemma_steady_pointer_asked};
    reveal(ContextView::wl_seat_attached);
}

pub broadcast proof fn lemma_steady_pointer_got(
    c: ContextView,
    seat: SeatId,
    pointer: ObjectId,
    g: GlobalsView,
)
    ensures
        steady(c, #[trigger] c.pointer_got(seat, pointer, g)),
{
    broadcast use {group_tables, lemma_steady_cursor_device_asked};
    reveal(ContextView::pointer_got);
}

pub broadcast proof fn lemma_steady_cursor_device_got(c: ContextView, seat: SeatId, device: ObjectId)
    ensures
        steady(c, #[trigger] c.cursor_device_got(seat, device)),
{
    broadcast use group_tables;
    reveal(ContextView::cursor_device_got);
}

pub broadcast proof fn lemma_steady_pointer_lost(c: ContextView, seat: SeatId)
    ensures
        steady(c, #[trigger] c.pointer_lost(seat)),
{
    broadcast use {group_tables, lemma_steady_ask};
    reveal(ContextView::pointer_lost);
}

pub broadcast proof fn lemma_steady_desktop_wanted(c: ContextView, output: OutputId, g: GlobalsView)
    ensures
        steady(c, #[trigger] c.desktop_wanted(output, g)),
{
    broadcast use {group_tables, lemma_steady_ask};
    reveal(ContextView::desktop_wanted);
}

pub broadcast proof fn lemma_steady_desktop_got(
    c: ContextView,
    output: OutputId,
    surface: ObjectId,
    layer_surface: ObjectId,
)
    ensures
        steady(c, #[trigger] c.desktop_got(output, surface, layer_surface)),
{
    broadcast use group_tables;
    reveal(ContextView::desktop_got);
}

pub broadcast proof fn lemma_steady_output_rebound(
    c: ContextView,
    k: int,
    name: u32,
    object: Option<ObjectId>,
    scale: i32,
    g: GlobalsView,
)
    requires
        0 <= k < c.outputs.len(),
    ensures
        steady(c, #[trigger] c.output_rebound(k, name, object, scale, g)),
{
    broadcast use {group_tables, lemma_steady_desktop_wanted};
    reveal(ContextView::output_rebound);
    let o = OutputView {
        wl_output_name: name,
        wl_output: object,
        scale,
        desktop_surface: None,
        ..c.outputs[k]
    };
    assert(c.outputs.update(k, o).map_values(output_id()) =~= c.outputs.map_values(output_id()));
}

pub broadcast proof fn lemma_steady_outputs_rebound(
    c: ContextView,
    n: int,
    name: u32,
    object: ObjectId,
    g: GlobalsView,
)
    requires
        n <= c.outputs.len(),
    ensures
        steady(c, #[trigger] c.outputs_rebound(n, name, object, g)),
    decreases n,
{
    broadcast use {group_tables, lemma_steady_output_rebound};
    if n > 0 {
        lemma_steady_outputs_rebound(c, n - 1, name, object, g);
        let d = c.outputs_rebound(n - 1, name, object, g);
        assert(d.tables().outputs.len() == c.tables().outputs.len());
    }
}

pub broadcast proof fn lemma_steady_desktops_wanted(c: ContextView, n: int, g: GlobalsView)
    ensures
        steady(c, #[trigger] c.desktops_wanted(n, g)),
    decreases n,
{
    broadcast use {group_tables, lemma_steady_desktop_wanted};
    if n > 0 {
        lemma_steady_desktops_wanted(c, n - 1, g);
    }
}

pub broadcast proof fn lemma_steady_cursor_devices_asked(c: ContextView, n: int, g: GlobalsView)
    ensures
        steady(c, #[trigger] c.cursor_devices_asked(n, g)),
    decreases n,
{
    broadcast use {group_tables, lemma_steady_cursor_device_asked};
    if n > 0 {
        lemma_steady_cursor_devices_asked(c, n - 1, g);
    }
}

pub broadcast proof fn lemma_steady_scaled(
    c: ContextView,
    name: Option<u32>,
    object: ObjectId,
    scale: i32,
)
    ensures
        steady(c, #[trigger] c.scaled(name, object, scale)),
{
    broadcast use group_tables;
    reveal(ContextView::scaled);
    reveal(given_out);
    let after = c.scaled(name, object, scale).outputs;
    assert(after.map_values(output_id()) =~= c.outputs.map_values(output_id()));
    if c.ids_given() {
        assert forall|k: int| 0 <= k < after.len() implies icons_given(
            #[trigger] after[k],
            c.next_window_id,
        ) by {
            assert(icons_given(c.outputs[k], c.next_window_id));
        }
    }
}

pub broadcast proof fn lemma_steady_icon_focus_checked(c: ContextView)
    ensures
        steady(c, #[trigger] c.icon_focus_checked()),
{
    broadcast use {group_tables, lemma_steady_icon_focus_left};
    reveal(ContextView::icon_focus_checked);
}

pub broadcast proof fn lemma_steady_desktop_shown(c: ContextView, output: OutputId, g: GlobalsView)
    ensures
        steady(c, #[trigger] c.desktop_shown(output, g)),
{
    broadcast use {group_tables, lemma_steady_ask};
    reveal(ContextView::desktop_shown);
}

pub broadcast proof fn lemma_steady_desktops_shown(c: ContextView, n: int, g: GlobalsView)
    ensures
        steady(c, #[trigger] c.desktops_shown(n, g)),
    decreases n,
{
    broadcast use {group_tables, lemma_steady_desktop_shown};
    if n > 0 {
        lemma_steady_desktops_shown(c, n - 1, g);
    }
}

pub broadcast proof fn lemma_steady_all_desktops_shown(c: ContextView, g: GlobalsView)
    ensures
        steady(c, #[trigger] c.all_desktops_shown(g)),
{
    broadcast use {group_tables, lemma_steady_desktops_shown};
    reveal(ContextView::all_desktops_shown);
}

pub broadcast proof fn lemma_steady_seat_registered(c: ContextView, j: int)
    ensures
        steady(c, #[trigger] c.seat_registered(j)),
{
    broadcast use group_tables;
    reveal(ContextView::seat_registered);
}

pub broadcast proof fn lemma_steady_seat_rebound(c: ContextView, j: int)
    requires
        0 <= j < c.seats.len(),
    ensures
        steady(c, #[trigger] c.seat_rebound(j)),
{
    broadcast use {group_tables, lemma_steady_seat_registered};
    reveal(ContextView::seat_rebound);
    reveal(xkb_rebuilt);
    reveal(xkb_populated);
    let s = xkb_rebuilt(c.seats[j], c.config);
    assert(c.seats.update(j, s).map_values(seat_id()) =~= c.seats.map_values(seat_id()));
}

pub broadcast proof fn lemma_steady_seats_rebound(c: ContextView, n: int)
    requires
        n <= c.seats.len(),
    ensures
        steady(c, #[trigger] c.seats_rebound(n)),
    decreases n,
{
    broadcast use {group_tables, lemma_steady_seat_rebound};
    if n > 0 {
        lemma_steady_seats_rebound(c, n - 1);
        assert(c.seats_rebound(n - 1).tables().seats.len() == c.tables().seats.len());
    }
}

pub broadcast proof fn lemma_steady_seat_buttons_registered(c: ContextView, j: int)
    ensures
        steady(c, #[trigger] c.seat_buttons_registered(j)),
{
    broadcast use group_tables;
    reveal(ContextView::seat_buttons_registered);
}

pub broadcast proof fn lemma_steady_xkb_rebound(c: ContextView)
    ensures
        steady(c, #[trigger] c.xkb_rebound()),
{
    broadcast use {group_tables, lemma_steady_seats_rebound};
    reveal(ContextView::xkb_rebound);
}

pub broadcast proof fn lemma_steady_manage_sequence(
    c: ContextView,
    scale: spec_fn(i64, i32, i32) -> i32,
    g: GlobalsView,
)
    ensures
        steady(c, #[trigger] c.manage_sequence(scale, g)),
{
    broadcast use {
        group_tables,
        lemma_steady_all_desktops_shown,
        lemma_steady_icon_focus_checked,
        lemma_steady_manage_finished,
        lemma_steady_managed,
        lemma_steady_xkb_rebound,
    };
    reveal(ContextView::manage_sequence);
}

pub broadcast proof fn lemma_steady_event_queued(c: ContextView, id: WindowId, event: WindowEvent)
    ensures
        steady(c, #[trigger] c.event_queued(id, event)),
{
    broadcast use group_tables;
    reveal(ContextView::event_queued);
}

pub broadcast proof fn lemma_steady_node_got(c: ContextView, id: WindowId, node: ObjectId)
    ensures
        steady(c, #[trigger] c.node_got(id, node)),
{
    broadcast use group_tables;
    reveal(ContextView::node_got);
}

pub broadcast proof fn lemma_steady_titlebar_got(
    c: ContextView,
    id: WindowId,
    surface: ObjectId,
    decoration: ObjectId,
)
    ensures
        steady(c, #[trigger] c.titlebar_got(id, surface, decoration)),
{
    broadcast use group_tables;
    reveal(ContextView::titlebar_got);
}

pub broadcast proof fn lemma_steady_layer_output_got(c: ContextView, id: OutputId, object: ObjectId)
    ensures
        steady(c, #[trigger] c.layer_output_got(id, object)),
{
    broadcast use group_tables;
    reveal(ContextView::layer_output_got);
}

pub broadcast proof fn lemma_steady_layer_seat_got(c: ContextView, id: SeatId, object: ObjectId)
    ensures
        steady(c, #[trigger] c.layer_seat_got(id, object)),
{
    broadcast use group_tables;
    reveal(ContextView::layer_seat_got);
}

pub broadcast proof fn lemma_steady_xkb_binding_got(
    c: ContextView,
    id: SeatId,
    index: int,
    object: ObjectId,
)
    ensures
        steady(c, #[trigger] c.xkb_binding_got(id, index, object)),
{
    broadcast use group_tables;
    reveal(ContextView::xkb_binding_got);
}

pub broadcast proof fn lemma_steady_pointer_binding_got(
    c: ContextView,
    id: SeatId,
    index: int,
    object: ObjectId,
)
    ensures
        steady(c, #[trigger] c.pointer_binding_got(id, index, object)),
{
    broadcast use group_tables;
    reveal(ContextView::pointer_binding_got);
}

pub broadcast proof fn lemma_steady_lock_changed(c: ContextView, locked: bool)
    ensures
        steady(c, #[trigger] c.lock_changed(locked)),
{
    broadcast use {group_tables, lemma_steady_mode_switched};
    reveal(ContextView::lock_changed);
}

pub broadcast proof fn lemma_steady_alt_tab_entered(
    c: ContextView,
    mode: WindowMenuMode,
    first: Option<WindowId>,
)
    ensures
        steady(c, #[trigger] c.alt_tab_entered(mode, first)),
{
    broadcast use {group_tables, lemma_steady_alt_tab_begun, lemma_steady_alt_tab_previewed};
    reveal(ContextView::alt_tab_entered);
}

pub broadcast proof fn lemma_steady_menu_shown(c: ContextView, g: GlobalsView)
    ensures
        steady(c, #[trigger] c.menu_shown(g)),
{
    broadcast use {group_tables, lemma_steady_ask};
    reveal(ContextView::menu_shown);
}

pub broadcast proof fn lemma_steady_menu_hovered(c: ContextView, x: i32, y: i32, g: GlobalsView)
    ensures
        steady(c, #[trigger] c.menu_hovered(x, y, g)),
{
    broadcast use {group_tables, lemma_steady_menu_shown};
    reveal(ContextView::menu_hovered);
}

pub broadcast proof fn lemma_steady_menu_hovered_by(c: ContextView, seat: SeatId, g: GlobalsView)
    ensures
        steady(c, #[trigger] c.menu_hovered_by(seat, g)),
{
    broadcast use {group_tables, lemma_steady_menu_hovered};
    reveal(ContextView::menu_hovered_by);
}

pub broadcast proof fn lemma_steady_hover_found(c: ContextView, seat: Option<SeatId>, g: GlobalsView)
    ensures
        steady(c, #[trigger] c.hover_found(seat, g)),
{
    broadcast use {group_tables, lemma_steady_menu_hovered_by};
    reveal(ContextView::hover_found);
}

pub broadcast proof fn lemma_steady_menu_opened(
    c: ContextView,
    plan: MenuPlanView,
    surface: ObjectId,
    layer_surface: ObjectId,
    text_width: Option<i32>,
    g: GlobalsView,
)
    ensures
        steady(c, #[trigger] c.menu_opened(plan, surface, layer_surface, text_width, g)),
{
    broadcast use {group_tables, lemma_steady_alt_tab_entered, lemma_steady_hover_found};
    reveal(ContextView::menu_opened);
}

pub broadcast proof fn lemma_steady_menu_hovered_on(
    c: ContextView,
    output: OutputId,
    x: i32,
    y: i32,
    g: GlobalsView,
)
    ensures
        steady(c, #[trigger] c.menu_hovered_on(output, x, y, g)),
{
    broadcast use {group_tables, lemma_steady_menu_hovered};
    reveal(ContextView::menu_hovered_on);
}

pub broadcast proof fn lemma_steady_menu_asked(c: ContextView, plan: MenuPlanView, g: GlobalsView)
    ensures
        steady(c, #[trigger] c.menu_asked(plan, g)),
{
    broadcast use group_tables;
    reveal(ContextView::menu_asked);
}

pub broadcast proof fn lemma_steady_shield_asked(c: ContextView, output: OutputId, g: GlobalsView)
    ensures
        steady(c, #[trigger] c.shield_asked(output, g)),
{
    broadcast use {group_tables, lemma_steady_ask};
    reveal(ContextView::shield_asked);
}

pub broadcast proof fn lemma_steady_alt_tab_advanced(c: ContextView, g: GlobalsView)
    ensures
        steady(c, #[trigger] c.alt_tab_advanced(g)),
{
    broadcast use {
        group_tables,
        lemma_steady_alt_tab_previewed,
        lemma_steady_menu_shown,
        lemma_steady_shield_asked,
    };
    reveal(ContextView::alt_tab_advanced);
}

pub broadcast proof fn lemma_steady_alt_tab_asked(c: ContextView, g: GlobalsView)
    ensures
        steady(c, #[trigger] c.alt_tab_asked(g)),
{
    broadcast use {group_tables, lemma_steady_menu_asked, lemma_steady_shield_asked};
    reveal(ContextView::alt_tab_asked);
}

pub broadcast proof fn lemma_steady_alt_tab_pressed(c: ContextView, g: GlobalsView)
    ensures
        steady(c, #[trigger] c.alt_tab_pressed(g)),
{
    broadcast use {
        group_tables,
        lemma_steady_alt_tab_advanced,
        lemma_steady_alt_tab_asked,
        lemma_steady_menu_closed,
    };
    reveal(ContextView::alt_tab_pressed);
}

pub broadcast proof fn lemma_steady_app_tab_pressed(c: ContextView, g: GlobalsView)
    ensures
        steady(c, #[trigger] c.app_tab_pressed(g)),
{
    broadcast use {
        group_tables,
        lemma_steady_alt_tab_advanced,
        lemma_steady_menu_asked,
        lemma_steady_menu_closed,
        lemma_steady_shield_asked,
    };
    reveal(ContextView::app_tab_pressed);
}

pub broadcast proof fn lemma_steady_shield_got(
    c: ContextView,
    output: OutputId,
    surface: ObjectId,
    layer_surface: ObjectId,
)
    ensures
        steady(c, #[trigger] c.shield_got(output, surface, layer_surface)),
{
    broadcast use group_tables;
}

pub broadcast proof fn lemma_steady_output_connected(
    c: ContextView,
    id: OutputId,
    name: u32,
    g: GlobalsView,
)
    ensures
        steady(c, #[trigger] c.output_connected(id, name, g)),
{
    broadcast use {group_tables, lemma_steady_output_rebound};
    reveal(ContextView::output_connected);
}

pub broadcast proof fn lemma_steady_area_reported(
    c: ContextView,
    id: OutputId,
    x: i32,
    y: i32,
    width: i32,
    height: i32,
)
    ensures
        steady(c, #[trigger] c.area_reported(id, x, y, width, height)),
{
    broadcast use group_tables;
    reveal(ContextView::area_reported);
}

pub broadcast proof fn lemma_steady_pointer_on_output(
    c: ContextView,
    seat: SeatId,
    output: OutputId,
    x: i32,
    y: i32,
)
    ensures
        steady(c, #[trigger] c.pointer_on_output(seat, output, x, y)),
{
    broadcast use group_tables;
    reveal(ContextView::pointer_on_output);
}

pub broadcast proof fn lemma_steady_cursor_for(
    c: ContextView,
    seat: SeatId,
    target: PointerTarget,
    serial: u32,
)
    ensures
        steady(c, #[trigger] c.cursor_for(seat, target, serial)),
{
    broadcast use {group_tables, lemma_steady_ask, lemma_steady_cursor_updated};
    reveal(ContextView::cursor_for);
}

pub broadcast proof fn lemma_steady_target_pointed(
    c: ContextView,
    seat: SeatId,
    target: PointerTarget,
    x: i32,
    y: i32,
    g: GlobalsView,
)
    ensures
        steady(c, #[trigger] c.target_pointed(seat, target, x, y, g)),
{
    broadcast use {group_tables, lemma_steady_pointer_on_output};
    reveal(ContextView::target_pointed);
}

pub broadcast proof fn lemma_steady_titlebar_hover_set(c: ContextView, id: WindowId, x: i32, y: i32)
    ensures
        steady(c, #[trigger] c.titlebar_hover_set(id, x, y)),
{
    broadcast use group_tables;
    reveal(ContextView::titlebar_hover_set);
}

pub broadcast proof fn lemma_steady_titlebar_hovered(c: ContextView, id: WindowId, x: i32, y: i32)
    ensures
        steady(c, #[trigger] c.titlebar_hovered(id, x, y)),
{
    broadcast use {group_tables, lemma_steady_manage_dirty, lemma_steady_titlebar_hover_set};
    reveal(ContextView::titlebar_hovered);
}

pub broadcast proof fn lemma_steady_pointer_entered(
    c: ContextView,
    seat: SeatId,
    serial: u32,
    surface: ObjectId,
    x: i32,
    y: i32,
    g: GlobalsView,
)
    ensures
        steady(c, #[trigger] c.pointer_entered(seat, serial, surface, x, y, g)),
{
    broadcast use {
        group_tables,
        lemma_steady_cursor_for,
        lemma_steady_menu_hovered,
        lemma_steady_target_pointed,
        lemma_steady_titlebar_hovered,
        lemma_same_seat_id_entered,
    };
    reveal(ContextView::pointer_entered);
}

pub broadcast proof fn lemma_steady_titlebar_cleared(c: ContextView, id: WindowId)
    ensures
        steady(c, #[trigger] c.titlebar_cleared(id)),
{
    broadcast use {group_tables, lemma_steady_manage_dirty, lemma_same_id_titlebar_left};
    reveal(ContextView::titlebar_cleared);
}

pub broadcast proof fn lemma_steady_pointer_left(c: ContextView, seat: SeatId, serial: u32)
    ensures
        steady(c, #[trigger] c.pointer_left(seat, serial)),
{
    broadcast use {group_tables, lemma_steady_titlebar_cleared, lemma_same_seat_id_left};
    reveal(ContextView::pointer_left);
}

pub broadcast proof fn lemma_steady_pointer_travelled(
    c: ContextView,
    seat: SeatId,
    x: i32,
    y: i32,
    g: GlobalsView,
)
    ensures
        steady(c, #[trigger] c.pointer_travelled(seat, x, y, g)),
{
    broadcast use {
        group_tables,
        lemma_steady_cursor_updated,
        lemma_steady_menu_hovered,
        lemma_steady_menu_hovered_on,
        lemma_steady_pointer_on_output,
        lemma_steady_titlebar_hovered,
    };
    reveal(ContextView::pointer_travelled);
}

pub broadcast proof fn lemma_steady_action_queued(c: ContextView, id: SeatId, action: ActionView)
    ensures
        steady(c, #[trigger] c.action_queued(id, action)),
{
    broadcast use {group_tables, lemma_same_seat_id_queued};
    reveal(ContextView::action_queued);
}

pub broadcast proof fn lemma_steady_unfocus_queued(c: ContextView, seat: SeatId)
    ensures
        steady(c, #[trigger] c.unfocus_queued(seat)),
{
    broadcast use {group_tables, lemma_steady_action_queued, lemma_steady_manage_dirty};
    reveal(ContextView::unfocus_queued);
}

pub broadcast proof fn lemma_steady_menu_dismissed(c: ContextView, seat: SeatId, target: PointerTarget)
    ensures
        steady(c, #[trigger] c.menu_dismissed(seat, target)),
{
    broadcast use {group_tables, lemma_steady_menu_closed, lemma_steady_unfocus_queued};
    reveal(ContextView::menu_dismissed);
}

pub broadcast proof fn lemma_steady_icon_clicked(
    c: ContextView,
    seat: SeatId,
    output: OutputId,
    id: WindowId,
    double: bool,
    now: u64,
    g: GlobalsView,
)
    ensures
        steady_given(
            c,
            #[trigger] c.icon_clicked(seat, output, id, double, now, g),
            id < c.next_window_id,
        ),
{
    broadcast use {
        group_tables,
        lemma_steady_action_queued,
        lemma_steady_desktop_shown,
        lemma_steady_icon_focus_entered,
        lemma_steady_manage_dirty,
    };
    reveal(ContextView::icon_clicked);
}

pub broadcast proof fn lemma_steady_icons_forgotten(c: ContextView)
    ensures
        steady(c, #[trigger] c.icons_forgotten()),
{
    broadcast use {group_tables, lemma_steady_icon_chosen};
    reveal(ContextView::icons_forgotten);
}

pub broadcast proof fn lemma_steady_space_clicked(
    c: ContextView,
    seat: SeatId,
    output: OutputId,
    g: GlobalsView,
)
    ensures
        steady(c, #[trigger] c.space_clicked(seat, output, g)),
{
    broadcast use {
        group_tables,
        lemma_steady_action_queued,
        lemma_steady_desktop_shown,
        lemma_steady_icons_forgotten,
        lemma_steady_manage_dirty,
    };
    reveal(ContextView::space_clicked);
}

pub broadcast proof fn lemma_steady_desktop_clicked(
    c: ContextView,
    seat: SeatId,
    output: OutputId,
    now: u64,
    g: GlobalsView,
)
    ensures
        steady(c, #[trigger] c.desktop_clicked(seat, output, now, g)),
{
    broadcast use {group_tables, lemma_steady_icon_clicked, lemma_steady_space_clicked};
    reveal(ContextView::desktop_clicked);
    if c.ids_given() {
        lemma_output_icons_given(c, output);
        if let Some(s) = c.seat(seat) {
            if let Some(o) = c.output(output) {
                if let Some(desktop) = o.desktop_surface {
                    lemma_first(desktop.icons, cell_has(s.last_surface_x, s.last_surface_y));
                }
            }
        }
    }
}

pub broadcast proof fn lemma_steady_desktop_menu(
    c: ContextView,
    seat: SeatId,
    output: OutputId,
    pressed: u32,
    g: GlobalsView,
)
    ensures
        steady(c, #[trigger] c.desktop_menu(seat, output, pressed, g)),
{
    broadcast use {group_tables, lemma_steady_menu_asked, lemma_steady_unfocus_queued};
    reveal(ContextView::desktop_menu);
}

pub broadcast proof fn lemma_steady_desktop_pressed(
    c: ContextView,
    seat: SeatId,
    output: OutputId,
    pressed: u32,
    now: u64,
    g: GlobalsView,
)
    ensures
        steady(c, #[trigger] c.desktop_pressed(seat, output, pressed, now, g)),
{
    broadcast use {
        group_tables,
        lemma_steady_desktop_clicked,
        lemma_steady_desktop_menu,
        lemma_steady_unfocus_queued,
    };
    reveal(ContextView::desktop_pressed);
}

pub broadcast proof fn lemma_steady_titlebar_pressed_at(c: ContextView, id: WindowId, x: i32, y: i32)
    ensures
        steady(c, #[trigger] c.titlebar_pressed_at(id, x, y)),
{
    broadcast use {
        group_tables,
        lemma_steady_manage_dirty,
        lemma_steady_titlebar_hover_set,
        lemma_same_id_titlebar_gripped,
    };
    reveal(ContextView::titlebar_pressed_at);
}

pub broadcast proof fn lemma_steady_pointer_pressed(
    c: ContextView,
    seat: SeatId,
    pressed: u32,
    now: u64,
    g: GlobalsView,
)
    ensures
        steady(c, #[trigger] c.pointer_pressed(seat, pressed, now, g)),
{
    broadcast use {
        group_tables,
        lemma_steady_desktop_pressed,
        lemma_steady_menu_dismissed,
        lemma_steady_titlebar_pressed_at,
    };
    reveal(ContextView::pointer_pressed);
}

pub broadcast proof fn lemma_steady_window_asked(c: ContextView, id: WindowId, event: WindowEvent)
    ensures
        steady(c, #[trigger] c.window_asked(id, event)),
{
    broadcast use {group_tables, lemma_steady_event_queued, lemma_steady_manage_dirty};
    reveal(ContextView::window_asked);
}

pub broadcast proof fn lemma_steady_close_click_noted(
    c: ContextView,
    seat: SeatId,
    last: Option<(WindowId, u64)>,
)
    ensures
        steady(c, #[trigger] c.close_click_noted(seat, last)),
{
    broadcast use group_tables;
}

pub broadcast proof fn lemma_steady_titlebar_acted(
    c: ContextView,
    seat: SeatId,
    id: WindowId,
    clicked: Option<TitlebarButton>,
    now: u64,
)
    ensures
        steady(c, #[trigger] c.titlebar_acted(seat, id, clicked, now)),
{
    broadcast use {group_tables, lemma_steady_close_click_noted, lemma_steady_window_asked};
    reveal(ContextView::titlebar_acted);
}

pub broadcast proof fn lemma_steady_titlebar_released_at(
    c: ContextView,
    seat: SeatId,
    id: WindowId,
    x: i32,
    y: i32,
    now: u64,
)
    ensures
        steady(c, #[trigger] c.titlebar_released_at(seat, id, x, y, now)),
{
    broadcast use {
        group_tables,
        lemma_steady_manage_dirty,
        lemma_steady_titlebar_acted,
        lemma_steady_titlebar_hover_set,
        lemma_same_id_titlebar_let_go,
    };
    reveal(ContextView::titlebar_released_at);
}

pub broadcast proof fn lemma_steady_menu_released(c: ContextView, seat: SeatId, released: u32)
    ensures
        steady(c, #[trigger] c.menu_released(seat, released)),
{
    broadcast use {group_tables, lemma_steady_action_queued, lemma_steady_manage_dirty};
    reveal(ContextView::menu_released);
}

pub broadcast proof fn lemma_steady_pointer_released(
    c: ContextView,
    seat: SeatId,
    released: u32,
    now: u64,
)
    ensures
        steady(c, #[trigger] c.pointer_released(seat, released, now)),
{
    broadcast use {group_tables, lemma_steady_menu_released, lemma_steady_titlebar_released_at};
    reveal(ContextView::pointer_released);
}

pub broadcast proof fn lemma_steady_pointer_reported(
    c: ContextView,
    seat: SeatId,
    report: PointerReport,
    g: GlobalsView,
)
    ensures
        steady(c, #[trigger] c.pointer_reported(seat, report, g)),
{
    broadcast use {
        group_tables,
        lemma_steady_pointer_entered,
        lemma_steady_pointer_left,
        lemma_steady_pointer_pressed,
        lemma_steady_pointer_released,
        lemma_steady_pointer_travelled,
    };
    reveal(ContextView::pointer_reported);
}

pub broadcast proof fn lemma_steady_held_titlebar_hovered(c: ContextView, x: i32, y: i32)
    ensures
        steady(c, #[trigger] c.held_titlebar_hovered(x, y)),
{
    broadcast use {group_tables, lemma_steady_titlebar_hovered};
    reveal(ContextView::held_titlebar_hovered);
}

pub broadcast proof fn lemma_steady_pointer_over(c: ContextView, seat: SeatId, object: ObjectId)
    ensures
        steady(c, #[trigger] c.pointer_over(seat, object)),
{
    broadcast use {group_tables, lemma_steady_cursor_updated, lemma_steady_focus};
    reveal(ContextView::pointer_over);
    if c.ids_given() {
        lemma_window_of_given(c, object);
    }
}

pub broadcast proof fn lemma_steady_pointer_off(c: ContextView, seat: SeatId)
    ensures
        steady(c, #[trigger] c.pointer_off(seat)),
{
    broadcast use {group_tables, lemma_steady_cursor_updated};
    reveal(ContextView::pointer_off);
}

pub broadcast proof fn lemma_steady_window_clicked(
    c: ContextView,
    seat: SeatId,
    object: ObjectId,
    scale: spec_fn(i64, i32, i32) -> i32,
)
    ensures
        steady(c, #[trigger] c.window_clicked(seat, object, scale)),
{
    broadcast use {
        group_tables,
        lemma_steady_focus,
        lemma_steady_icon_focus_left,
        lemma_steady_menu_closed,
        lemma_steady_window_interaction,
    };
    reveal(ContextView::window_clicked);
    if c.ids_given() {
        lemma_window_of_given(c, object);
    }
}

pub broadcast proof fn lemma_steady_op_moved(c: ContextView, dx: i32, dy: i32)
    ensures
        steady(c, #[trigger] c.op_moved(dx, dy)),
{
    broadcast use {group_tables, lemma_same_window_apply_op_delta};
    reveal(ContextView::op_moved);
}

pub broadcast proof fn lemma_steady_op_ended(c: ContextView)
    ensures
        steady(c, #[trigger] c.op_ended()),
{
    broadcast use {group_tables, lemma_same_window_end_operation};
    reveal(ContextView::op_ended);
}

pub broadcast proof fn lemma_steady_pointer_op_ended(c: ContextView, seat: SeatId)
    ensures
        steady(c, #[trigger] c.pointer_op_ended(seat)),
{
    broadcast use group_tables;
}

pub broadcast proof fn lemma_steady_op_released(c: ContextView, seat: SeatId)
    ensures
        steady(c, #[trigger] c.op_released(seat)),
{
    broadcast use {
        group_tables,
        lemma_steady_cursor_updated,
        lemma_steady_op_ended,
        lemma_steady_output_followed,
        lemma_steady_pointer_op_ended,
    };
    reveal(ContextView::op_released);
}

pub broadcast proof fn lemma_steady_pointer_moved(
    c: ContextView,
    seat: SeatId,
    x: i32,
    y: i32,
    g: GlobalsView,
)
    ensures
        steady(c, #[trigger] c.pointer_moved(seat, x, y, g)),
{
    broadcast use {
        group_tables,
        lemma_steady_cursor_updated,
        lemma_steady_held_titlebar_hovered,
        lemma_steady_menu_hovered_by,
        lemma_steady_output_followed_pointer,
    };
    reveal(ContextView::pointer_moved);
}

pub broadcast proof fn lemma_steady_seat_connected(
    c: ContextView,
    seat: SeatId,
    name: u32,
    g: GlobalsView,
)
    ensures
        steady(c, #[trigger] c.seat_connected(seat, name, g)),
{
    broadcast use {group_tables, lemma_steady_wl_seat_attached};
    reveal(ContextView::seat_connected);
}

pub broadcast proof fn lemma_steady_layer_focus_changed(c: ContextView, seat: SeatId, focus: LayerFocus)
    ensures
        steady(c, #[trigger] c.layer_focus_changed(seat, focus)),
{
    broadcast use {group_tables, lemma_same_seat_id_queued};
    reveal(ContextView::layer_focus_changed);
}

pub broadcast proof fn lemma_steady_key_acted(
    c: ContextView,
    seat: SeatId,
    action: ActionView,
    scale: spec_fn(i64, i32, i32) -> i32,
    g: GlobalsView,
)
    ensures
        steady(c, #[trigger] c.key_acted(seat, action, scale, g)),
{
    broadcast use {
        group_tables,
        lemma_steady_acted,
        lemma_steady_action_queued,
        lemma_steady_all_desktops_shown,
        lemma_steady_alt_tab_pressed,
        lemma_steady_app_tab_pressed,
        lemma_steady_manage_dirty,
    };
    reveal(ContextView::key_acted);
}

pub broadcast proof fn lemma_steady_key_reported(
    c: ContextView,
    seat: SeatId,
    index: int,
    event: BindingEvent,
    scale: spec_fn(i64, i32, i32) -> i32,
    g: GlobalsView,
)
    ensures
        steady(c, #[trigger] c.key_reported(seat, index, event, scale, g)),
{
    broadcast use {group_tables, lemma_steady_action_queued, lemma_steady_key_acted};
    reveal(ContextView::key_reported);
}

pub broadcast proof fn lemma_steady_button_reported(
    c: ContextView,
    seat: SeatId,
    index: int,
    event: BindingEvent,
)
    ensures
        steady(c, #[trigger] c.button_reported(seat, index, event)),
{
    broadcast use {group_tables, lemma_steady_action_queued};
    reveal(ContextView::button_reported);
}

pub broadcast proof fn lemma_steady_desktop_resized(
    c: ContextView,
    output: OutputId,
    width: i32,
    height: i32,
    g: GlobalsView,
)
    ensures
        steady(c, #[trigger] c.desktop_resized(output, width, height, g)),
{
    broadcast use {group_tables, lemma_steady_desktop_shown};
    reveal(ContextView::desktop_resized);
}

pub broadcast proof fn lemma_steady_menu_resized(
    c: ContextView,
    width: i32,
    height: i32,
    g: GlobalsView,
)
    ensures
        steady(c, #[trigger] c.menu_resized(width, height, g)),
{
    broadcast use {group_tables, lemma_steady_menu_shown};
    reveal(ContextView::menu_resized);
}

pub broadcast proof fn lemma_steady_shield_resized(
    c: ContextView,
    output: OutputId,
    width: i32,
    height: i32,
    g: GlobalsView,
)
    ensures
        steady(c, #[trigger] c.shield_resized(output, width, height, g)),
{
    broadcast use {group_tables, lemma_steady_ask};
    reveal(ContextView::shield_resized);
}

pub broadcast proof fn lemma_steady_layer_resized(
    c: ContextView,
    kind: LayerSurfaceKind,
    width: i32,
    height: i32,
    g: GlobalsView,
)
    ensures
        steady(c, #[trigger] c.layer_resized(kind, width, height, g)),
{
    broadcast use {
        group_tables,
        lemma_steady_desktop_resized,
        lemma_steady_menu_resized,
        lemma_steady_shield_resized,
    };
    reveal(ContextView::layer_resized);
}

pub broadcast proof fn lemma_steady_desktop_lost(c: ContextView, output: OutputId)
    ensures
        steady(c, #[trigger] c.desktop_lost(output)),
{
    broadcast use group_tables;
    reveal(ContextView::desktop_lost);
}

pub broadcast proof fn lemma_steady_layer_closed(c: ContextView, kind: LayerSurfaceKind)
    ensures
        steady(c, #[trigger] c.layer_closed(kind)),
{
    broadcast use {group_tables, lemma_steady_desktop_lost, lemma_steady_menu_closed};
    reveal(ContextView::layer_closed);
}

pub broadcast proof fn lemma_steady_titlebar_moved(
    c: ContextView,
    id: WindowId,
    object: ObjectId,
    entered: bool,
    g: GlobalsView,
)
    ensures
        steady(c, #[trigger] c.titlebar_moved(id, object, entered, g)),
{
    broadcast use {group_tables, lemma_same_id_titlebar_moved};
    reveal(ContextView::titlebar_moved);
}

pub broadcast proof fn lemma_steady_rules_applied_to(c: ContextView, id: WindowId)
    ensures
        steady(c, #[trigger] c.rules_applied_to(id)),
{
    broadcast use group_tables;
    reveal(ContextView::rules_applied_to);
    broadcast use lemma_same_window_ruled;
}

pub broadcast proof fn lemma_steady_output_assigned(c: ContextView, id: WindowId)
    ensures
        steady(c, #[trigger] c.output_assigned(id)),
{
    broadcast use {group_tables, lemma_steady_window_output_set};
    reveal(ContextView::output_assigned);
}

pub broadcast proof fn lemma_steady_fact_reported(c: ContextView, id: WindowId, report: WindowReport)
    ensures
        steady(c, #[trigger] c.fact_reported(id, report)),
{
    broadcast use {group_tables, lemma_same_id_noted};
    reveal(ContextView::fact_reported);
}

} // verus!
