//! How menus open and follow the pointer.

use vstd::prelude::*;
use crate::canoe::context::menus::menu_items;
use crate::canoe::context::{is_window, ContextView};
use crate::canoe::menu::{law_select_next_wraps_around, shows_window, MenuView};
use crate::canoe::{OutputId, SeatId, WindowId, WindowMenuMode};
use crate::dispatch::globals::GlobalsView;
use crate::dispatch::menus::menu_origin;
use crate::protocol::{MenuPlanView, ObjectId, RequestView};
use crate::search::{lemma_first, lemma_first_is};

verus! {

/// A menu opens where it was asked for if there is room for it; else it ends at the edge of the
/// output. A centred one leaves as much room before it as behind it, but for a pixel.
pub proof fn law_menu_opens_where_asked(wanted: i32, len: i32, extent: i32)
    requires
        0 <= len <= extent,
    ensures
        0 <= wanted && wanted + len <= extent ==> menu_origin(wanted, len, extent, true, false)
            == wanted,
        wanted + len > extent && wanted >= 0 ==> menu_origin(wanted, len, extent, true, false) + len
            == extent,
        wanted < 0 ==> menu_origin(wanted, len, extent, true, false) == 0,
        ({
            let before = menu_origin(wanted, len, extent, true, true);
            0 <= (extent - before - len) - before <= 1
        }),
{
}

/// A menu that alt-tab opens hovers the window behind the focused one; where the focused one is the
/// last, the first.
pub proof fn law_alt_tab_starts_behind_the_focused_window(
    c: ContextView,
    plan: MenuPlanView,
    k: int,
    surface: ObjectId,
    layer_surface: ObjectId,
    text_width: Option<i32>,
)
    requires
        plan.mode == WindowMenuMode::AltTab,
        0 <= k < plan.items.len() <= usize::MAX,
        c.focused_window == Some(plan.items[k].window_id),
        forall|j: int| 0 <= j < k ==> (#[trigger] plan.items[j]).window_id != plan.items[k].window_id,
    ensures
        ({
            let menu = c.planned_menu(plan, surface, layer_surface, text_width);
            &&& menu.items == plan.items
            &&& menu.header_title == Some(plan.header)
            &&& menu.output_id == plan.output_id
            &&& k + 1 < plan.items.len() ==> menu.hovered_window() == Some(
                plan.items[k + 1].window_id,
            )
            &&& k + 1 == plan.items.len() ==> menu.hovered_window() == Some(plan.items[0].window_id)
        }),
{
    let id = plan.items[k].window_id;
    lemma_first_is(plan.items, shows_window(id), k);
    let menu = c.planned_menu(plan, surface, layer_surface, text_width);
    let before = MenuView { hovered: Some(k as usize), ..menu };
    law_select_next_wraps_around(before, k);
}

/// A menu that the pointer opens hovers nothing until the pointer is on an item.
pub proof fn law_pointer_menu_opens_unhovered(
    c: ContextView,
    plan: MenuPlanView,
    surface: ObjectId,
    layer_surface: ObjectId,
    text_width: Option<i32>,
)
    requires
        plan.mode != WindowMenuMode::AltTab,
    ensures
        c.planned_menu(plan, surface, layer_surface, text_width).hovered is None,
{
}

/// The item below the pointer is the hovered one, wherever the menu is: the pointer counts from the
/// corner of the menu, and the menu from the corner of its output.
pub proof fn law_item_below_the_pointer_is_hovered(
    c: ContextView,
    menu: MenuView,
    seat: SeatId,
    x: i32,
    y: i32,
    g: GlobalsView,
)
    requires
        c.window_menu == Some(menu),
        c.window_menu_mode == Some(WindowMenuMode::Pointer),
        c.output(menu.output_id) is Some,
        c.seat(seat) matches Some(s) && s.pointer_x == c.output(menu.output_id)->0.x + menu.origin_x
            + x && s.pointer_y == c.output(menu.output_id)->0.y + menu.origin_y + y,
    ensures
        c.menu_hovered(x, y, g).window_menu matches Some(m) && m.hovered == menu.item_at(x, y),
        c.menu_hovered_by(seat, g).window_menu matches Some(m) && m.hovered == menu.item_at(x, y),
        i32::MIN <= menu.origin_x + x <= i32::MAX && i32::MIN <= menu.origin_y + y <= i32::MAX ==> (
        c.menu_hovered_on(
            menu.output_id,
            (menu.origin_x + x) as i32,
            (menu.origin_y + y) as i32,
            g,
        ).window_menu matches Some(m) && m.hovered == menu.item_at(x, y)),
{
    reveal(ContextView::menu_hovered);
    reveal(ContextView::menu_hovered_by);
    reveal(ContextView::menu_hovered_on);
    reveal(ContextView::menu_shown);
}

/// A menu is asked for only where there is an output for it and something to list.
pub proof fn law_empty_menus_do_not_open(c: ContextView, plan: MenuPlanView, g: GlobalsView)
    ensures
        plan.items.len() == 0 || c.output(plan.output_id) is None ==> c.menu_asked(plan, g) == c,
        plan.items.len() > 0 && c.output(plan.output_id) is Some && g.surfaces() ==> c.menu_asked(
            plan,
            g,
        ) == (ContextView { requests: c.requests.push(RequestView::OpenMenu(plan)), ..c }),
{
    reveal(ContextView::menu_asked);
}

/// The key that goes through the windows of one application opens a menu of the windows of the
/// focused one's application, with the name of that application, if there are two or more.
pub proof fn law_application_menu_is_of_the_focused_application(
    c: ContextView,
    id: WindowId,
    app_id: Seq<char>,
    output: OutputId,
    g: GlobalsView,
)
    requires
        c.focused_window == Some(id),
        c.window(id) matches Some(w) && w.app_id == Some(app_id),
        app_id.len() > 0,
        c.window_menu is None,
        c.menu_output() == Some(output),
        c.output(output) is Some,
        g.surfaces(),
    ensures
        ({
            let d = c.app_tab_pressed(g);
            let n = c.requests.len() as int;
            &&& menu_items(c, Some(app_id)).len() < 2 ==> d == c
            &&& menu_items(c, Some(app_id)).len() >= 2 ==> d.requests.len() > n && (
            d.requests[n] matches RequestView::OpenMenu(plan) && {
                &&& plan.items == menu_items(c, Some(app_id))
                &&& plan.header == app_id
                &&& plan.output_id == output
                &&& plan.centered
                &&& plan.mode == WindowMenuMode::AltTab
            })
        }),
{
    reveal(ContextView::app_tab_pressed);
    reveal(ContextView::menu_asked);
    reveal(ContextView::shield_asked);
    lemma_first(c.windows, is_window(id));
}

} // verus!
