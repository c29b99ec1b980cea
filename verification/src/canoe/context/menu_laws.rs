//! What the window menu, alt-tab and the icons of the desktop show and do.

use vstd::prelude::*;
use crate::binding::action::ActionView;
use crate::binding::Action;
use crate::canoe::context::action_laws::law_focusing_moves_nothing;
use crate::canoe::context::laws::{
    distinct_windows, law_focused_window_comes_first, law_menu_lists_each_window_once,
    lemma_same_places,
};
use crate::canoe::context::menus::{
    label, listed, menu_item, menu_items, next_icon, of_app, stacked_items, with_other_items,
};
use crate::canoe::context::place_laws::lemma_committed;
use crate::canoe::context::{is_output, is_seat, is_window, ContextView};
use crate::canoe::desktop::{icon_of, DesktopView};
use crate::canoe::menu::{
    law_select_next_wraps_around, menu_size, row_count, MenuItemView, MenuView,
};
use crate::canoe::seat::StagedSeat;
use crate::canoe::window::{Staged, WindowView};
use crate::canoe::{OutputId, SeatId, WindowId, WindowMenuMode};
use crate::config::Mode;
use crate::protocol::Request;
use crate::search::{first, lemma_first, lemma_first_is};

verus! {

/// A window is called by its title where that is not empty, else by its application,
/// else by a number.
pub proof fn law_window_is_called_by_its_title(w: WindowView)
    ensures
        w.title matches Some(title) ==> (title.len() > 0 ==> label(w) == title),
        w.title is None || w.title->0.len() == 0 ==> (w.app_id matches Some(app_id) ==> label(w)
            == app_id),
        (w.title is None || w.title->0.len() == 0) && w.app_id is None ==> label(w).take(7)
            == "Window "@,
{
    reveal_strlit("Window ");
    if (w.title is None || w.title->0.len() == 0) && w.app_id is None {
        assert(label(w).take(7) =~= "Window "@);
    }
}

/// The items that a focus order begins with stay where they are when others follow.
proof fn lemma_items_stay(
    items: Seq<MenuItemView>,
    focused: Option<WindowId>,
    windows: Seq<WindowView>,
    app_id: Option<Seq<char>>,
)
    ensures
        ({
            let all = with_other_items(items, focused, windows, app_id);
            items.len() <= all.len() && forall|k: int|
                0 <= k < items.len() ==> #[trigger] all[k] == items[k]
        }),
    decreases windows.len(),
{
    if windows.len() > 0 {
        lemma_items_stay(items, focused, windows.drop_last(), app_id);
    }
}

proof fn lemma_stacked_in_order(c: ContextView, stack: Seq<WindowId>)
    requires
        forall|k: int| 0 <= k < stack.len() ==> c.window(#[trigger] stack[k]) is Some,
    ensures
        ({
            let items = stacked_items(c, stack, None);
            items.len() == stack.len() && forall|k: int|
                0 <= k < stack.len() ==> #[trigger] items[k] == menu_item(
                    c.window(stack[k])->0,
                    c.focused_window,
                )
        }),
    decreases stack.len(),
{
    if stack.len() > 0 {
        let rest = stack.drop_last();
        assert forall|k: int| 0 <= k < rest.len() implies c.window(#[trigger] rest[k]) is Some by {
            assert(rest[k] == stack[k]);
        }
        lemma_stacked_in_order(c, rest);
        let earlier = stacked_items(c, rest, None);
        let items = stacked_items(c, stack, None);
        assert(c.window(stack[stack.len() - 1]) is Some);
        assert forall|k: int| 0 <= k < stack.len() implies #[trigger] items[k] == menu_item(
            c.window(stack[k])->0,
            c.focused_window,
        ) by {
            if k < rest.len() {
                assert(items[k] == earlier[k]);
                assert(rest[k] == stack[k]);
            }
        }
    }
}

/// The window menu lists the windows with the most recently focused one first, each with
/// its name, with whether it is hidden, and marked if it has the focus.
pub proof fn law_menu_begins_with_the_most_recent_window(c: ContextView, k: int)
    requires
        forall|j: int| 0 <= j < c.focus_stack.len() ==> c.window(#[trigger] c.focus_stack[j]) is Some,
        0 <= k < c.focus_stack.len(),
    ensures
        k < menu_items(c, None).len(),
        ({
            let item = menu_items(c, None)[k];
            let w = c.window(c.focus_stack[k])->0;
            &&& item.window_id == c.focus_stack[k]
            &&& item.title == label(w)
            &&& item.hidden == w.hidden
            &&& item.active <==> c.focused_window == Some(c.focus_stack[k])
        }),
{
    lemma_stacked_in_order(c, c.focus_stack);
    lemma_items_stay(stacked_items(c, c.focus_stack, None), c.focused_window, c.windows, None);
    lemma_first(c.windows, is_window(c.focus_stack[k]));
}

/// The menu of an application lists the windows of that application, and no others.
pub proof fn law_menu_of_an_application_lists_its_windows(c: ContextView, i: int, app_id: Seq<char>)
    requires
        distinct_windows(c.windows),
        c.focus_stack.no_duplicates(),
        0 <= i < c.windows.len(),
    ensures
        listed(menu_items(c, Some(app_id)), c.windows[i].id) <==> c.windows[i].app_id == Some(app_id),
{
    law_menu_lists_each_window_once(c, Some(app_id));
    let id = c.windows[i].id;
    if listed(menu_items(c, Some(app_id)), id) {
        let j = choose|j: int|
            0 <= j < c.windows.len() && (#[trigger] c.windows[j]).id == id && of_app(
                c.windows[j],
                Some(app_id),
            );
        if i < j {
            assert(c.windows[i].id != c.windows[j].id);
        } else if j < i {
            assert(c.windows[j].id != c.windows[i].id);
        }
    }
    if c.windows[i].app_id == Some(app_id) {
        assert(of_app(c.windows[i], Some(app_id)));
    }
}

/// Showing a window and bringing it to the front changes nothing else about it.
proof fn lemma_raised(c: ContextView, id: WindowId)
    requires
        c.window(id) is Some,
    ensures
        ({
            let d = c.window_raised(id);
            let i = c.window_index(id)->0;
            &&& d.window_index(id) == Some(i)
            &&& !d.windows[i].hidden
            &&& d.windows.len() == c.windows.len()
            &&& d.focus_stack == c.focus_stack
            &&& d.seats == c.seats
            &&& d.outputs == c.outputs
            &&& d.window_menu == c.window_menu
            &&& d.icon_focus_output == c.icon_focus_output
            &&& d.current_seat == c.current_seat
            &&& c.windows[i].rwm_node matches Some(node) ==> d.requests.last()
                == Request::PlaceTop { node }@
        }),
{
    reveal(ContextView::window_raised);
    reveal(Staged::raised);
    reveal(Staged::show);
    reveal(Staged::place_top);
    lemma_first(c.windows, is_window(id));
    let i = c.window_index(id)->0;
    lemma_committed(c, id, i, c.staged(i).raised());
}

proof fn lemma_brought_up(c: ContextView, id: WindowId)
    requires
        c.window(id) is Some,
    ensures
        ({
            let d = c.brought_up(id);
            &&& d.focused_window == Some(id)
            &&& d.window(id) matches Some(w) && !w.hidden
        }),
{
    reveal(ContextView::brought_up);
    reveal(ContextView::stale_if);
    reveal(ContextView::desktops_stale);
    lemma_first(c.windows, is_window(id));
    let i = c.window_index(id)->0;
    lemma_raised(c, id);
    let r = c.window_raised(id).stale_if(c.windows[i].hidden);
    law_focused_window_comes_first(r, id);
    law_focusing_moves_nothing(r, id, i);
    lemma_same_places(r, r.focus(id), id);
}

proof fn lemma_activated(c: ContextView, menu: MenuView, k: int, id: WindowId)
    requires
        c.window_menu == Some(menu),
        menu.hovered == Some(k as usize),
        0 <= k < menu.items.len(),
        k <= usize::MAX,
        menu.items[k].window_id == id,
        c.window(id) is Some,
    ensures
        ({
            let d = c.menu_activated();
            &&& d.focused_window == Some(id)
            &&& d.window(id) matches Some(w) && !w.hidden
        }),
{
    reveal(ContextView::menu_activated);
    lemma_brought_up(c.alt_tab_cleared().menu_dropped(), id);
}

/// Letting go of alt-tab, or clicking an item of the menu, brings up the window of the
/// item that is hovered: it is shown and has the focus.
pub proof fn law_hovered_window_is_brought_up(
    c: ContextView,
    menu: MenuView,
    k: int,
    id: WindowId,
    seat: SeatId,
    scale: spec_fn(i64, i32, i32) -> i32,
)
    requires
        c.window_menu == Some(menu),
        menu.hovered == Some(k as usize),
        0 <= k < menu.items.len(),
        k <= usize::MAX,
        menu.items[k].window_id == id,
        c.window(id) is Some,
    ensures
        c.window_menu_mode == Some(WindowMenuMode::AltTab) ==> ({
            let d = c.acted(ActionView::Plain(Action::WindowMenuCommit), seat, scale);
            d.focused_window == Some(id) && (d.window(id) matches Some(w) && !w.hidden)
        }),
        c.window_menu_mode == Some(WindowMenuMode::Pointer) ==> ({
            let d = c.acted(ActionView::Plain(Action::ActivateMenuHovered), seat, scale);
            d.focused_window == Some(id) && (d.window(id) matches Some(w) && !w.hidden)
        }),
        c.window_menu_mode != Some(WindowMenuMode::AltTab) ==> c.acted(
            ActionView::Plain(Action::WindowMenuCommit),
            seat,
            scale,
        ) == c,
{
    reveal(ContextView::acted);
    reveal(ContextView::menu_acted);
    reveal(ContextView::alt_tab_committed);
    reveal(ContextView::pointer_menu_activated);
    lemma_activated(c, menu, k, id);
}

/// Each press of the alt-tab key hovers the next item of the menu, and after the last one
/// the first.
pub proof fn law_alt_tab_goes_to_the_next_item(
    c: ContextView,
    menu: MenuView,
    k: int,
    seat: SeatId,
    scale: spec_fn(i64, i32, i32) -> i32,
)
    requires
        c.window_menu == Some(menu),
        c.window_menu_mode == Some(WindowMenuMode::AltTab),
        menu.hovered == Some(k as usize),
        0 <= k < menu.items.len(),
        menu.items.len() <= usize::MAX,
    ensures
        c.acted(ActionView::Plain(Action::WindowMenuCycle), seat, scale).window_menu matches Some(m)
            && m.items == menu.items && (k + 1 < menu.items.len() ==> m.hovered == Some(
            (k + 1) as usize,
        )) && (k + 1 == menu.items.len() ==> m.hovered == Some(0usize)),
{
    reveal(ContextView::acted);
    reveal(ContextView::menu_acted);
    reveal(ContextView::menu_cycled);
    law_select_next_wraps_around(menu, k);
}

/// While alt-tab hovers a window, that window is shown and looks focused; the focus order
/// stays as it was.
pub proof fn law_alt_tab_shows_what_it_hovers(c: ContextView, id: WindowId)
    requires
        c.window_menu_mode == Some(WindowMenuMode::AltTab),
        c.window(id) is Some,
        c.window_menu_alt_tab_stack is None,
    ensures
        ({
            let d = c.alt_tab_previewed(id);
            &&& d.focused_window == Some(id)
            &&& d.window(id) matches Some(w) && !w.hidden
            &&& d.focus_stack == c.focus_stack
            &&& d.window_menu_alt_tab_focused == c.focused_window
            &&& d.window_menu_alt_tab_preview_was_hidden == c.window(id)->0.hidden
        }),
{
    reveal(ContextView::alt_tab_previewed);
    reveal(ContextView::alt_tab_begun);
    reveal(ContextView::preview_withdrawn);
    reveal(ContextView::alt_tab_order_restored);
    reveal(ContextView::preview_shown);
    reveal(ContextView::focus_preview_visual);
    reveal(ContextView::keyboard_to_none);
    reveal(ContextView::preview_set);
    reveal(ContextView::stale_if);
    reveal(ContextView::desktops_stale);
    lemma_first(c.windows, is_window(id));
    let b = c.alt_tab_begun();
    let w = b.preview_withdrawn();
    lemma_stack_restored_keeps(w, c.focus_stack);
    let o = w.alt_tab_order_restored();
    assert(o.windows == c.windows);
    assert(o.window_index(id) == c.window_index(id));
    lemma_raised(o, id);
    let i = c.window_index(id)->0;
    lemma_raised_keeps_notes(o, id);
    let d = c.alt_tab_previewed(id);
    assert(d.windows == o.window_raised(id).windows);
}

proof fn lemma_raised_keeps_notes(c: ContextView, id: WindowId)
    ensures
        ({
            let d = c.window_raised(id);
            &&& d.window_menu_alt_tab_focused == c.window_menu_alt_tab_focused
            &&& d.window_menu_alt_tab_stack == c.window_menu_alt_tab_stack
        }),
{
    reveal(ContextView::window_raised);
}

proof fn lemma_stack_restored_keeps(c: ContextView, order: Seq<WindowId>)
    ensures
        ({
            let d = c.stack_restored(order);
            d == (ContextView { requests: d.requests, ..c })
        }),
    decreases order.len(),
{
    if order.len() > 0 {
        reveal(ContextView::placed_top);
        lemma_stack_restored_keeps(c.placed_top(order.last()), order.drop_last());
    }
}

/// The keys for the icons go from icon to icon: right and left to the next and the
/// previous one, around the ends; down and up by one row, and nowhere where there is none.
pub proof fn law_icon_keys_go_where_they_point(count: int, cols: int, current: int)
    requires
        0 <= current < count,
        cols >= 1,
    ensures
        next_icon(count, cols, current, 1, 0) == (if current + 1 < count {
            current + 1
        } else {
            0
        }),
        next_icon(count, cols, current, -1, 0) == (if current > 0 {
            current - 1
        } else {
            count - 1
        }),
        next_icon(count, cols, current, 0, 1) == (if current + cols < count {
            current + cols
        } else {
            current
        }),
        next_icon(count, cols, current, 0, -1) == (if current >= cols {
            current - cols
        } else {
            current
        }),
{
    if current + 1 < count {
        vstd::arithmetic::div_mod::lemma_small_mod((current + 1) as nat, count as nat);
    } else {
        vstd::arithmetic::div_mod::lemma_mod_self_0(count);
    }
    if current > 0 {
        vstd::arithmetic::div_mod::lemma_small_mod((current - 1) as nat, count as nat);
    } else {
        vstd::arithmetic::div_mod::lemma_fundamental_div_mod_converse(-1, count, -1, count - 1);
    }
    assert(1 * cols == cols && (-1) * cols == -cols);
}

/// The keys for the icons select, on the desktop that they act on, the icon in the
/// direction that they name.
pub proof fn law_icon_actions_select_the_neighbour(
    c: ContextView,
    output: OutputId,
    desktop: DesktopView,
    i: int,
    seat: SeatId,
    scale: spec_fn(i64, i32, i32) -> i32,
)
    requires
        c.icon_focus_output == Some(output),
        c.output(output) matches Some(o) && o.desktop_surface == Some(desktop),
        0 <= i < desktop.icons.len(),
        desktop.selected_icon == Some(desktop.icons[i].window_id),
        desktop.icon_cols >= 1,
        forall|j: int, k: int|
            0 <= j < desktop.icons.len() && 0 <= k < desktop.icons.len() && j != k ==> (
            #[trigger] desktop.icons[j]).window_id != (#[trigger] desktop.icons[k]).window_id,
    ensures
        ({
            let n = desktop.icons.len() as int;
            let cols = desktop.icon_cols as int;
            let next = c.acted(ActionView::Plain(Action::IconSelectNext), seat, scale);
            let prev = c.acted(ActionView::Plain(Action::IconSelectPrev), seat, scale);
            let down = c.acted(ActionView::Plain(Action::IconSelectDown), seat, scale);
            let up = c.acted(ActionView::Plain(Action::IconSelectUp), seat, scale);
            &&& i + 1 < n ==> next.selected_icon(output) == Some(desktop.icons[i + 1].window_id)
            &&& i + 1 == n ==> next.selected_icon(output) == Some(desktop.icons[0].window_id)
            &&& i > 0 ==> prev.selected_icon(output) == Some(desktop.icons[i - 1].window_id)
            &&& i == 0 ==> prev.selected_icon(output) == Some(desktop.icons[n - 1].window_id)
            &&& i + cols < n ==> down.selected_icon(output) == Some(
                desktop.icons[i + cols].window_id,
            )
            &&& i + cols >= n ==> down.selected_icon(output) == Some(desktop.icons[i].window_id)
            &&& i - cols >= 0 ==> up.selected_icon(output) == Some(desktop.icons[i - cols].window_id)
            &&& i - cols < 0 ==> up.selected_icon(output) == Some(desktop.icons[i].window_id)
        }),
{
    reveal(ContextView::acted);
    reveal(ContextView::menu_acted);
    reveal(ContextView::icon_navigated);
    let n = desktop.icons.len() as int;
    let cols = desktop.icon_cols as int;
    law_icon_keys_go_where_they_point(n, cols, i);
    let id = desktop.icons[i].window_id;
    assert forall|j: int| 0 <= j < i implies !icon_of(id)(#[trigger] desktop.icons[j]) by {
        assert(desktop.icons[j].window_id != desktop.icons[i].window_id);
    }
    lemma_first_is(desktop.icons, icon_of(id), i);
    lemma_icon_chosen(c, output, Some(desktop.navigated(1, 0)));
    lemma_icon_chosen(c, output, Some(desktop.navigated(-1, 0)));
    lemma_icon_chosen(c, output, Some(desktop.navigated(0, 1)));
    lemma_icon_chosen(c, output, Some(desktop.navigated(0, -1)));
}

pub proof fn lemma_icon_chosen(c: ContextView, output: OutputId, icon: Option<WindowId>)
    requires
        c.output(output) matches Some(o) && o.desktop_surface is Some,
    ensures
        c.icon_chosen(output, icon).selected_icon(output) == icon,
        c.icon_chosen(output, icon).windows == c.windows,
        c.icon_chosen(output, icon).seats == c.seats,
        c.icon_chosen(output, icon).icon_focus_output == c.icon_focus_output,
{
    reveal(ContextView::icon_chosen);
    lemma_first(c.outputs, is_output(output));
    let k = c.output_index(output)->0;
    let d = c.icon_chosen(output, icon);
    assert(is_output(output)(c.outputs[k]));
    assert(is_output(output)(d.outputs[k]));
    assert forall|j: int| 0 <= j < k implies !is_output(output)(#[trigger] d.outputs[j]) by {
        assert(!is_output(output)(c.outputs[j]));
    }
    lemma_first_is(d.outputs, is_output(output), k);
}

/// Activating the selected icon shows its window again and focuses it; the keyboard leaves
/// the icons and acts in the default mode again.
pub proof fn law_activated_icon_brings_its_window_back(
    c: ContextView,
    output: OutputId,
    id: WindowId,
    seat: SeatId,
    scale: spec_fn(i64, i32, i32) -> i32,
)
    requires
        c.icon_focus_output == Some(output),
        c.selected_icon(output) == Some(id),
        c.window(id) is Some,
        c.seat(seat) is Some,
    ensures
        ({
            let d = c.acted(ActionView::Plain(Action::IconActivate), seat, scale);
            &&& d.focused_window == Some(id)
            &&& d.window(id) matches Some(w) && !w.hidden
            &&& d.seats[c.seat_index(seat)->0].mode == Mode::Default
        }),
{
    reveal(ContextView::acted);
    reveal(ContextView::menu_acted);
    reveal(ContextView::icon_activated);
    lemma_first(c.windows, is_window(id));
    let i = c.window_index(id)->0;
    lemma_raised(c, id);
    let r = c.window_raised(id).desktops_stale();
    assert(r.windows == c.window_raised(id).windows && r.seats == c.seats) by {
        reveal(ContextView::desktops_stale);
    }
    lemma_icon_focus_left(r, seat);
    let l = r.icon_focus_left(seat);
    law_focused_window_comes_first(l, id);
    law_focusing_moves_nothing(l, id, i);
    lemma_same_places(l, l.focus(id), id);
    assert(l.windows == r.windows);
    assert(l.window_index(id) == Some(i));
}

proof fn lemma_icon_focus_left(c: ContextView, seat: SeatId)
    requires
        c.seat(seat) is Some,
    ensures
        ({
            let d = c.icon_focus_left(seat);
            &&& d.windows == c.windows
            &&& d.seats[c.seat_index(seat)->0].mode == Mode::Default
            &&& d.icon_focus_output is None
        }),
{
    reveal(ContextView::icon_focus_left);
    reveal(ContextView::icon_chosen);
    reveal(StagedSeat::switch_mode);
    lemma_first(c.seats, is_seat(seat));
}

/// A menu that has the size for its rows has a row for each item, one below the other, and
/// nothing below the last one.
pub proof fn law_menu_has_room_for_its_rows(menu: MenuView, text_width: i32, k: int, r: int)
    requires
        text_width >= 0,
        0 <= menu.theme.shadow_size <= 1000,
        0 <= menu.theme.font_size.ceiling <= 1000,
        text_width <= 1_000_000,
        menu.items.len() <= 100_000,
        (menu.width, menu.height) == menu_size(
            menu.theme,
            row_count(menu.items.len(), menu.header_title is Some),
            Some(text_width),
        ),
        0 <= k <= menu.items.len(),
        0 <= r < menu.theme.item_height(),
    ensures
        ({
            let h = menu.theme.item_height();
            let rows_before = k + if menu.header_title is Some {
                1int
            } else {
                0int
            };
            let x = menu.theme.shadow_left() + 1;
            let y = menu.theme.shadow_top() + 1 + rows_before * h + r;
            &&& h == menu.theme.font_size.ceiling + 8
            &&& k < menu.items.len() ==> menu.item_at(x as i32, y as i32) == Some(k as usize)
            &&& k == menu.items.len() ==> menu.item_at(x as i32, y as i32) is None
        }),
{
    let h = menu.theme.item_height();
    let header = if menu.header_title is Some {
        1int
    } else {
        0int
    };
    let n = menu.items.len() as int;
    assert(h <= 1008);
    assert(h * (n + header) == h * n + h * header) by (nonlinear_arith);
    assert(0 <= h * n <= 1008 * 100_000) by (nonlinear_arith)
        requires
            0 <= h <= 1008,
            0 <= n <= 100_000,
    ;
    assert((k + header) * h == k * h + header * h) by (nonlinear_arith);
    assert(0 <= k * h <= h * n) by (nonlinear_arith)
        requires
            0 <= k <= n,
            0 <= h,
    ;
    if k < n {
        assert(k * h + h <= h * n) by (nonlinear_arith)
            requires
                k + 1 <= n,
                0 <= h,
        ;
    }
    assert(k * h == h * n || k < n) by (nonlinear_arith)
        requires
            k <= n,
    ;
    vstd::arithmetic::div_mod::lemma_fundamental_div_mod_converse(k * h + r, h, k, r);
    assert(header * h == menu.header_height());
}

} // verus!
