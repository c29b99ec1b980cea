//! What clicks do.

use vstd::prelude::*;
use crate::binding::action::ActionView;
use crate::binding::Action;
use crate::canoe::context::menu_laws::lemma_icon_chosen;
use crate::canoe::context::menus::menu_items;
use crate::canoe::context::{is_seat, is_window, ContextView};
use crate::canoe::menu::MenuView;
use crate::canoe::seat::{PointerTarget, SeatView};
use crate::canoe::titlebar::TitlebarButton;
use crate::canoe::window::{WindowEvent, WindowView};
use crate::canoe::{OutputId, SeatId, WindowId, WindowMenuMode};
use crate::config::Mode;
use crate::dispatch::globals::GlobalsView;
use crate::dispatch::pointer::{completes, has_titlebar_on, PointerReport};
use crate::dispatch::seat::titlebar_held;
use crate::num::sat;
use crate::protocol::{ObjectId, RequestView};
use crate::search::{lemma_first, lemma_first_is};

verus! {

/// Whether `after` differs from `before` only in that `event` waits for the window
/// at a place of the table, behind what waited for it already.
pub open spec fn only_asked(
    before: ContextView,
    after: ContextView,
    i: int,
    event: WindowEvent,
) -> bool {
    after.windows == before.windows.update(
        i,
        WindowView {
            unhandled_events: before.windows[i].unhandled_events + seq![event],
            ..before.windows[i]
        },
    )
}

/// A change of a seat is found where the seat was, and there alone.
proof fn lemma_seat_changed(c: ContextView, seat: SeatId, f: spec_fn(SeatView) -> SeatView)
    requires
        c.seat(seat) is Some,
        forall|s: SeatView| (#[trigger] f(s)).id == s.id,
    ensures
        c.seat_changed(seat, f).windows == c.windows,
        c.seat_changed(seat, f).outputs == c.outputs,
        c.seat_changed(seat, f).seat(seat) == Some(f(c.seat(seat)->0)),
{
    lemma_first(c.seats, is_seat(seat));
    let j = c.seat_index(seat)->0;
    let d = c.seat_changed(seat, f);
    assert(is_seat(seat)(c.seats[j]));
    assert(d.seats[j] == f(c.seats[j]));
    assert(is_seat(seat)(d.seats[j]));
    assert forall|k: int| 0 <= k < j implies !is_seat(seat)(#[trigger] d.seats[k]) by {
        assert(!is_seat(seat)(c.seats[k]));
    }
    lemma_first_is(d.seats, is_seat(seat), j);
}

proof fn lemma_only_events(before: ContextView, after: ContextView, i: int, event: WindowEvent)
    requires
        0 <= i < before.windows.len(),
        only_asked(before, after, i, event),
    ensures
        after.windows.len() == before.windows.len(),
        forall|j: int|
            0 <= j < before.windows.len() ==> #[trigger] after.windows[j] == (WindowView {
                unhandled_events: after.windows[j].unhandled_events,
                ..before.windows[j]
            }),
{
}

/// Asking for a window's attention leaves the seats alone.
proof fn lemma_window_asked(c: ContextView, id: WindowId, event: WindowEvent)
    requires
        c.window(id) is Some,
    ensures
        only_asked(c, c.window_asked(id, event), c.window_index(id)->0, event),
        c.window_asked(id, event).seats == c.seats,
{
    reveal(ContextView::window_asked);
    reveal(ContextView::event_queued);
    lemma_first(c.windows, is_window(id));
    let i = c.window_index(id)->0;
    assert(c.windows[i].unhandled_events.push(event) =~= c.windows[i].unhandled_events + seq![event]);
}

/// A click on the hide button asks for the window to be minimized, and a click on the
/// maximize button for it to be maximized, or no longer to be if it is. A click on
/// the close button asks for it to be closed only as the second one on that window
/// within 400 milliseconds. Nothing else is asked for, and nothing of any window
/// changes otherwise. A click elsewhere between two on the close button parts them.
pub proof fn law_titlebar_click_asks_for_what_its_button_says(
    c: ContextView,
    seat: SeatId,
    id: WindowId,
    clicked: Option<TitlebarButton>,
    now: u64,
)
    requires
        c.window(id) is Some,
        c.seat(seat) is Some,
    ensures
        ({
            let d = c.titlebar_acted(seat, id, clicked, now);
            let i = c.window_index(id)->0;
            &&& clicked == Some(TitlebarButton::Hide) ==> only_asked(c, d, i, WindowEvent::Minimize)
            &&& clicked == Some(TitlebarButton::Maximize) && c.windows[i].maximized ==> only_asked(
                c,
                d,
                i,
                WindowEvent::Unmaximize,
            )
            &&& clicked == Some(TitlebarButton::Maximize) && !c.windows[i].maximized ==> only_asked(
                c,
                d,
                i,
                WindowEvent::Maximize,
            )
            &&& clicked is None ==> d.windows == c.windows
            &&& clicked == Some(TitlebarButton::Close) ==> {
                let second = c.seat(seat)->0.last_close_click matches Some(last) && last.0 == id
                    && now <= last.1 + 400;
                &&& second ==> only_asked(c, d, i, WindowEvent::Close)
                &&& !second ==> d.windows == c.windows
            }
            &&& d.seat(seat) matches Some(s) && s.last_close_click == (if clicked == Some(
                TitlebarButton::Close,
            ) {
                Some((id, now))
            } else {
                None
            })
        }),
{
    reveal(ContextView::titlebar_acted);
    lemma_first(c.windows, is_window(id));
    let last = if clicked == Some(TitlebarButton::Close) {
        Some((id, now))
    } else {
        None
    };
    lemma_seat_changed(c, seat, |s: SeatView| SeatView { last_close_click: last, ..s });
    let d = c.close_click_noted(seat, last);
    match clicked {
        None => {},
        Some(TitlebarButton::Close) => lemma_window_asked(d, id, WindowEvent::Close),
        Some(TitlebarButton::Hide) => lemma_window_asked(d, id, WindowEvent::Minimize),
        Some(TitlebarButton::Maximize) => {
            lemma_window_asked(d, id, WindowEvent::Unmaximize);
            lemma_window_asked(d, id, WindowEvent::Maximize);
        },
    }
}

/// A click on a titlebar changes nothing of any window but what waits for it.
proof fn lemma_click_changes_nothing_else(
    c: ContextView,
    seat: SeatId,
    id: WindowId,
    clicked: Option<TitlebarButton>,
    now: u64,
)
    requires
        c.window(id) is Some,
        c.seat(seat) is Some,
    ensures
        ({
            let d = c.titlebar_acted(seat, id, clicked, now);
            &&& d.windows.len() == c.windows.len()
            &&& forall|j: int|
                0 <= j < c.windows.len() ==> #[trigger] d.windows[j] == (WindowView {
                    unhandled_events: d.windows[j].unhandled_events,
                    ..c.windows[j]
                })
        }),
{
    law_titlebar_click_asks_for_what_its_button_says(c, seat, id, clicked, now);
    lemma_first(c.windows, is_window(id));
    let d = c.titlebar_acted(seat, id, clicked, now);
    let i = c.window_index(id)->0;
    if d.windows != c.windows {
        match clicked {
            None => {},
            Some(TitlebarButton::Close) => lemma_only_events(c, d, i, WindowEvent::Close),
            Some(TitlebarButton::Hide) => lemma_only_events(c, d, i, WindowEvent::Minimize),
            Some(TitlebarButton::Maximize) => if c.windows[i].maximized {
                lemma_only_events(c, d, i, WindowEvent::Unmaximize);
            } else {
                lemma_only_events(c, d, i, WindowEvent::Maximize);
            },
        }
    }
}

/// Closing a window takes two clicks on its close button within 400 milliseconds of
/// each other. Neither one click, nor two that are further apart, nor two with a click
/// on another button between them ask for it.
pub proof fn law_closing_takes_a_double_click(
    c: ContextView,
    seat: SeatId,
    id: WindowId,
    other: Option<TitlebarButton>,
    once: u64,
    again: u64,
)
    requires
        c.window(id) is Some,
        c.seat(seat) matches Some(s) && s.last_close_click is None,
        once <= again,
        other != Some(TitlebarButton::Close),
    ensures
        ({
            let close = Some(TitlebarButton::Close);
            let first = c.titlebar_acted(seat, id, close, once);
            let second = first.titlebar_acted(seat, id, close, again);
            let i = c.window_index(id)->0;
            &&& first.windows == c.windows
            &&& again - once <= 400 ==> only_asked(c, second, i, WindowEvent::Close)
            &&& again - once > 400 ==> second.windows == c.windows
            &&& ({
                let between = first.titlebar_acted(seat, id, other, once);
                between.titlebar_acted(seat, id, close, again).windows == between.windows
            })
        }),
{
    let close = Some(TitlebarButton::Close);
    law_titlebar_click_asks_for_what_its_button_says(c, seat, id, close, once);
    let first = c.titlebar_acted(seat, id, close, once);
    law_titlebar_click_asks_for_what_its_button_says(first, seat, id, close, again);
    law_titlebar_click_asks_for_what_its_button_says(first, seat, id, other, once);
    let between = first.titlebar_acted(seat, id, other, once);
    lemma_click_changes_nothing_else(first, seat, id, other, once);
    lemma_same_place(first, between, id);
    law_titlebar_click_asks_for_what_its_button_says(between, seat, id, close, again);
}

/// A button of a titlebar is clicked where the left button of the pointer goes down and
/// up again on it. Where it goes up elsewhere, nothing is asked for.
pub proof fn law_click_begins_and_ends_on_the_button(
    c: ContextView,
    seat: SeatId,
    id: WindowId,
    down: (i32, i32),
    up: (i32, i32),
    now: u64,
)
    requires
        c.window(id) is Some,
        c.seat(seat) is Some,
    ensures
        ({
            let w = c.window(id)->0;
            let i = c.window_index(id)->0;
            let d = c.titlebar_pressed_at(id, down.0, down.1);
            let e = d.titlebar_released_at(seat, id, up.0, up.1, now);
            let v = e.windows[i];
            let pressed = c.button_under(w, down.0, down.1);
            &&& d.windows[i].unhandled_events == w.unhandled_events
            &&& d.windows[i].titlebar_left_down && d.windows[i].titlebar_pressed == pressed
            &&& !v.titlebar_left_down && v.titlebar_pressed is None
            &&& c.button_under(w, up.0, up.1) != pressed ==> v.unhandled_events
                == w.unhandled_events
            &&& c.button_under(w, up.0, up.1) == pressed ==> {
                &&& pressed == Some(TitlebarButton::Hide) ==> v.unhandled_events
                    == w.unhandled_events + seq![WindowEvent::Minimize]
                &&& pressed == Some(TitlebarButton::Maximize) ==> v.unhandled_events
                    == w.unhandled_events + seq![
                    if w.maximized {
                        WindowEvent::Unmaximize
                    } else {
                        WindowEvent::Maximize
                    },
                ]
                &&& pressed is None ==> v.unhandled_events == w.unhandled_events
            }
        }),
{
    lemma_pressed(c, id, down.0, down.1);
    let d = c.titlebar_pressed_at(id, down.0, down.1);
    let i = c.window_index(id)->0;
    lemma_released(d, seat, id, up.0, up.1, now);
    lemma_button_stays(c, d, c.windows[i], d.windows[i], up.0, up.1);
}

/// What pressing the left button on a titlebar changes.
proof fn lemma_pressed(c: ContextView, id: WindowId, x: i32, y: i32)
    requires
        c.window(id) is Some,
    ensures
        ({
            let d = c.titlebar_pressed_at(id, x, y);
            let i = c.window_index(id)->0;
            let under = c.button_under(c.windows[i], x, y);
            &&& 0 <= i < c.windows.len()
            &&& d.windows == c.windows.update(
                i,
                WindowView {
                    titlebar_hovered: under,
                    titlebar_pressed: under,
                    titlebar_left_down: true,
                    ..c.windows[i]
                },
            )
            &&& d.seats == c.seats
            &&& d.config == c.config
            &&& d.window_index(id) == Some(i)
        }),
{
    reveal(ContextView::titlebar_pressed_at);
    reveal(ContextView::titlebar_hover_set);
    lemma_first(c.windows, is_window(id));
    let a = c.titlebar_hover_set(id, x, y);
    lemma_same_place(c, a, id);
    let i = c.window_index(id)->0;
    let d = c.titlebar_pressed_at(id, x, y);
    assert(d.windows =~= c.windows.update(i, a.windows[i].titlebar_gripped()));
    lemma_same_place(c, d, id);
}

/// What releasing it there changes.
proof fn lemma_released(c: ContextView, seat: SeatId, id: WindowId, x: i32, y: i32, now: u64)
    requires
        c.window(id) is Some,
        c.seat(seat) is Some,
    ensures
        ({
            let e = c.titlebar_released_at(seat, id, x, y, now);
            let i = c.window_index(id)->0;
            let w = c.windows[i];
            let v = e.windows[i];
            let under = c.button_under(w, x, y);
            &&& !v.titlebar_left_down && v.titlebar_pressed is None
            &&& under != w.titlebar_pressed || under is None ==> v.unhandled_events
                == w.unhandled_events
            &&& under == w.titlebar_pressed ==> {
                &&& under == Some(TitlebarButton::Hide) ==> v.unhandled_events == w.unhandled_events
                    + seq![WindowEvent::Minimize]
                &&& under == Some(TitlebarButton::Maximize) && w.maximized ==> v.unhandled_events
                    == w.unhandled_events + seq![WindowEvent::Unmaximize]
                &&& under == Some(TitlebarButton::Maximize) && !w.maximized ==> v.unhandled_events
                    == w.unhandled_events + seq![WindowEvent::Maximize]
            }
        }),
{
    reveal(ContextView::titlebar_released_at);
    reveal(ContextView::titlebar_hover_set);
    lemma_first(c.windows, is_window(id));
    let i = c.window_index(id)->0;
    let b = c.titlebar_hover_set(id, x, y);
    lemma_same_place(c, b, id);
    let f = b.with_window(i, b.windows[i].titlebar_let_go()).manage_dirty();
    lemma_same_place(c, f, id);
    assert(f.seats == c.seats);
    let clicked = b.windows[i].titlebar_clicked();
    law_titlebar_click_asks_for_what_its_button_says(f, seat, id, clicked, now);
    lemma_click_changes_nothing_else(f, seat, id, clicked, now);
    let e = c.titlebar_released_at(seat, id, x, y, now);
    assert(e == f.titlebar_acted(seat, id, clicked, now));
    assert(f.windows[i].unhandled_events == c.windows[i].unhandled_events);
}

/// Which button is where does not depend on what is pressed.
proof fn lemma_button_stays(c: ContextView, d: ContextView, w: WindowView, v: WindowView, x: i32, y: i32)
    requires
        c.config == d.config,
        v.width == w.width,
        v.parent == w.parent,
        v.min_width == w.min_width,
        v.min_height == w.min_height,
        v.max_width == w.max_width,
        v.max_height == w.max_height,
    ensures
        c.button_under(w, x, y) == d.button_under(v, x, y),
{
    reveal(ContextView::button_under);
}

proof fn lemma_same_place(a: ContextView, b: ContextView, id: WindowId)
    requires
        a.window(id) is Some,
        a.windows.len() == b.windows.len(),
        forall|j: int| 0 <= j < a.windows.len() ==> (#[trigger] b.windows[j]).id == a.windows[j].id,
    ensures
        b.window_index(id) == a.window_index(id),
{
    lemma_first(a.windows, is_window(id));
    let i = a.window_index(id)->0;
    assert(is_window(id)(a.windows[i]));
    assert(is_window(id)(b.windows[i]));
    assert forall|k: int| 0 <= k < i implies !is_window(id)(#[trigger] b.windows[k]) by {
        assert(!is_window(id)(a.windows[k]));
    }
    lemma_first_is(b.windows, is_window(id), i);
}

/// The left button of the pointer is what titlebars are clicked with: it presses and
/// releases what the pointer is over. Any other button does nothing there.
pub proof fn law_titlebars_are_clicked_with_the_left_button(
    c: ContextView,
    seat: SeatId,
    id: WindowId,
    used: u32,
    now: u64,
    g: GlobalsView,
)
    requires
        c.seat(seat) matches Some(s) && s.pointer_target == PointerTarget::Titlebar(id),
        c.window_menu is None,
    ensures
        ({
            let s = c.seat(seat)->0;
            let pressed = c.pointer_reported(seat, PointerReport::Pressed { button: used, now }, g);
            let released = c.pointer_reported(seat, PointerReport::Released { button: used, now }, g);
            &&& used != 0x110 ==> pressed == c && released == c
            &&& used == 0x110 ==> pressed == c.titlebar_pressed_at(
                id,
                s.last_surface_x,
                s.last_surface_y,
            )
            &&& used == 0x110 ==> released == c.titlebar_released_at(
                seat,
                id,
                s.last_surface_x,
                s.last_surface_y,
                now,
            )
        }),
{
    reveal(ContextView::pointer_reported);
    reveal(ContextView::pointer_pressed);
    reveal(ContextView::pointer_released);
}

/// A pointer on a surface that covers an output is as far from the corner of the screen as the
/// output is, and then as far as it is on the surface.
pub proof fn law_pointer_counts_from_its_output(c: ContextView, seat: SeatId, output: OutputId, x: i32, y: i32)
    requires
        c.seat(seat) is Some,
        c.output(output) matches Some(o) && i32::MIN <= o.x + x <= i32::MAX && i32::MIN <= o.y + y
            <= i32::MAX,
    ensures
        c.pointer_on_output(seat, output, x, y).seat(seat) matches Some(s) && s.pointer_x
            == c.output(output)->0.x + x && s.pointer_y == c.output(output)->0.y + y,
{
    reveal(ContextView::pointer_on_output);
    let o = c.output(output)->0;
    lemma_seat_changed(
        c,
        seat,
        |s: SeatView| SeatView { pointer_x: sat(o.x + x), pointer_y: sat(o.y + y), ..s },
    );
}

/// Showing a desktop only asks for it to be drawn.
proof fn lemma_desktop_shown(c: ContextView, output: OutputId, g: GlobalsView)
    ensures
        ({
            let d = c.desktop_shown(output, g);
            d == (ContextView { requests: d.requests, ..c })
        }),
{
    reveal(ContextView::desktop_shown);
}

/// A click on an icon selects it and gives the keyboard to the icons; a second one on the same
/// icon within 400 milliseconds activates it instead.
pub proof fn law_icon_is_selected_then_activated(
    c: ContextView,
    seat: SeatId,
    output: OutputId,
    id: WindowId,
    now: u64,
    g: GlobalsView,
)
    requires
        c.seat(seat) matches Some(s) && c.icon_hit(output, s.last_surface_x, s.last_surface_y)
            == Some(id),
    ensures
        ({
            let s = c.seat(seat)->0;
            let d = c.desktop_pressed(seat, output, 0x110, now, g);
            let second = s.last_icon_click matches Some(last) && last.0 == id && now <= last.1 + 400;
            &&& second ==> (d.seat(seat) matches Some(t) && t.unhandled_actions
                == s.unhandled_actions + seq![ActionView::Plain(Action::IconActivate)]
                && t.last_icon_click is None) && d.icon_focus_output == c.icon_focus_output
            &&& !second ==> (d.seat(seat) matches Some(t) && t.last_icon_click == Some((id, now))
                && t.unhandled_actions == s.unhandled_actions + seq![
                ActionView::Plain(Action::ClearFocus),
                ActionView::Plain(Action::SwitchMode { mode: Mode::DesktopIcons }),
            ]) && d.icon_focus_output == Some(output) && d.selected_icon(output) == Some(id)
        }),
{
    reveal(ContextView::desktop_pressed);
    reveal(ContextView::desktop_clicked);
    reveal(ContextView::icon_clicked);
    let s = c.seat(seat)->0;
    let double = completes(s.last_icon_click, id, now);
    let last = if double {
        None
    } else {
        Some((id, now))
    };
    lemma_seat_changed(c, seat, |s: SeatView| SeatView { last_icon_click: last, ..s });
    if double {
        let e = c.seat_changed(seat, |s: SeatView| SeatView { last_icon_click: None, ..s });
        lemma_action_queued(e, seat, Action::IconActivate@);
        assert(s.unhandled_actions.push(Action::IconActivate@) =~= s.unhandled_actions + seq![
            ActionView::Plain(Action::IconActivate),
        ]);
        let d = e.action_queued(seat, Action::IconActivate@);
        assert(d.manage_dirty().seats == d.seats);
    } else {
        let e = c.seat_changed(seat, |s: SeatView| SeatView { last_icon_click: Some((id, now)), ..s });
        lemma_icon_focus_entered(e, output, id, seat);
        let f = e.icon_focus_entered(output, id, seat);
        lemma_desktop_shown(f, output, g);
        let d = f.desktop_shown(output, g).manage_dirty();
        assert(d.seats == f.seats && d.outputs == f.outputs);
    }
}

proof fn lemma_action_queued(c: ContextView, seat: SeatId, action: ActionView)
    requires
        c.seat(seat) is Some,
    ensures
        ({
            let d = c.action_queued(seat, action);
            &&& d.seat(seat) == Some(c.seat(seat)->0.queued(action))
            &&& d == (ContextView { seats: d.seats, ..c })
        }),
{
    reveal(ContextView::action_queued);
    lemma_seat_changed(c, seat, |s: SeatView| s.queued(action));
}

proof fn lemma_icon_focus_entered(c: ContextView, output: OutputId, id: WindowId, seat: SeatId)
    requires
        c.seat(seat) is Some,
        c.output(output) matches Some(o) && o.desktop_surface is Some,
    ensures
        ({
            let d = c.icon_focus_entered(output, id, seat);
            &&& d.icon_focus_output == Some(output)
            &&& d.selected_icon(output) == Some(id)
            &&& d.seat(seat) matches Some(t) && t.last_icon_click == c.seat(seat)->0.last_icon_click
                && t.unhandled_actions == c.seat(seat)->0.unhandled_actions + seq![
                ActionView::Plain(Action::ClearFocus),
                ActionView::Plain(Action::SwitchMode { mode: Mode::DesktopIcons }),
            ]
        }),
{
    reveal(ContextView::icon_focus_entered);
    lemma_icon_chosen(c, output, Some(id));
    let e = ContextView { icon_focus_output: Some(output), ..c.icon_chosen(output, Some(id)) };
    let mode = (Action::SwitchMode { mode: Mode::DesktopIcons })@;
    let f = |s: SeatView| s.queued(Action::ClearFocus@).queued(mode);
    assert(e.seat(seat) == c.seat(seat));
    lemma_seat_changed(e, seat, f);
    let d = c.icon_focus_entered(output, id, seat);
    assert(d.seats =~= e.seat_changed(seat, f).seats);
    assert(d.outputs == e.outputs);
    let before = c.seat(seat)->0.unhandled_actions;
    assert(before.push(Action::ClearFocus@).push(mode) =~= before + seq![
        ActionView::Plain(Action::ClearFocus),
        ActionView::Plain(Action::SwitchMode { mode: Mode::DesktopIcons }),
    ]);
}

/// A surface of a titlebar belongs to the window of that titlebar, unless the menu or its shield
/// is on it.
pub proof fn law_titlebar_surface_belongs_to_its_window(c: ContextView, i: int, surface: ObjectId)
    requires
        c.window_menu is None,
        c.window_menu_shield is None,
        0 <= i < c.windows.len(),
        c.windows[i].titlebar matches Some(titlebar) && titlebar.surface == surface,
        forall|j: int|
            0 <= j < i ==> ((#[trigger] c.windows[j]).titlebar matches Some(titlebar)
                ==> titlebar.surface != surface),
    ensures
        c.target_of(surface) == PointerTarget::Titlebar(c.windows[i].id),
{
    lemma_first_is(c.windows, has_titlebar_on(surface), i);
}

/// The button that opened the menu, or went down on it, activates the hovered item when it goes
/// up; any other button does not.
pub proof fn law_menu_is_used_with_one_button(c: ContextView, seat: SeatId, menu: MenuView, used: u32)
    requires
        c.seat(seat) is Some,
        c.window_menu == Some(menu),
        c.window_menu_mode == Some(WindowMenuMode::Pointer),
    ensures
        ({
            let s = c.seat(seat)->0;
            let d = c.menu_released(seat, used);
            &&& s.menu_click_button == Some(used) && menu.hovered is Some ==> (d.seat(
                seat,
            ) matches Some(t) && t.unhandled_actions == s.unhandled_actions + seq![
                ActionView::Plain(Action::ActivateMenuHovered),
            ])
            &&& s.menu_click_button != Some(used) || menu.hovered is None ==> (d.seat(
                seat,
            ) matches Some(t) && t.unhandled_actions == s.unhandled_actions)
            &&& d.seat(seat)->0.menu_click_button is None
        }),
{
    reveal(ContextView::menu_released);
    lemma_seat_changed(c, seat, |s: SeatView| SeatView { menu_click_button: None, ..s });
    let e = c.seat_changed(seat, |s: SeatView| SeatView { menu_click_button: None, ..s });
    let f = e.manage_dirty();
    assert(f.seat(seat) == e.seat(seat));
    lemma_action_queued(f, seat, Action::ActivateMenuHovered@);
    let before = c.seat(seat)->0.unhandled_actions;
    assert(before.push(Action::ActivateMenuHovered@) =~= before + seq![
        ActionView::Plain(Action::ActivateMenuHovered),
    ]);
}

/// A click that leaves the titlebar before it ends is none: nothing is hovered or pressed any more, and
/// nothing waits for the window that did not wait before.
pub proof fn law_leaving_the_titlebar_cancels_the_click(c: ContextView, id: WindowId)
    requires
        c.window(id) is Some,
    ensures
        ({
            let i = c.window_index(id)->0;
            let w = c.titlebar_cleared(id).windows[i];
            &&& w.titlebar_hovered is None && w.titlebar_pressed is None && !w.titlebar_left_down
            &&& w.unhandled_events == c.windows[i].unhandled_events
            &&& w.x == c.windows[i].x && w.hidden == c.windows[i].hidden
        }),
{
    reveal(ContextView::titlebar_cleared);
    lemma_first(c.windows, is_window(id));
}

/// While the left button is held on a titlebar, what is hovered is the button below the pointer: the
/// pointer counts from the corner of the frame, which is as far left of and above the content as the
/// border and the titlebar reach.
pub proof fn law_held_titlebar_hovers_what_is_below(c: ContextView, i: int, x: i32, y: i32)
    requires
        0 <= i < c.windows.len(),
        c.windows[i].titlebar_left_down,
        forall|j: int|
            0 <= j < c.windows.len() && j != i ==> !(#[trigger] c.windows[j]).titlebar_left_down
                && c.windows[j].id != c.windows[i].id,
        c.windows[i].swallow_top == 0,
        c.windows[i].parent is None,
        c.windows[i].min_width == 0,
        0 <= c.config.ui.border_width <= 1000,
        0 <= c.config.ui.font_size.three_quarters <= 1000,
        -1_000_000 <= x <= 1_000_000,
        -1_000_000 <= y <= 1_000_000,
        -1_000_000 <= c.windows[i].x <= 1_000_000,
        -1_000_000 <= c.windows[i].y <= 1_000_000,
    ensures
        ({
            let w = c.windows[i];
            let border = c.config.ui.border_width;
            let bar = 2 * c.config.ui.font_size.three_quarters + 1;
            c.held_titlebar_hovered(x, y).windows[i].titlebar_hovered == c.button_under(
                w,
                (x - w.x + border) as i32,
                (y - w.y + border + bar) as i32,
            )
        }),
{
    reveal(ContextView::held_titlebar_hovered);
    reveal(ContextView::titlebar_hovered);
    reveal(ContextView::titlebar_hover_set);
    lemma_first_is(c.windows, titlebar_held(), i);
    lemma_first_is(c.windows, is_window(c.windows[i].id), i);
}

/// A press beside the open menu closes it, and does nothing on its shield.
pub proof fn law_press_beside_the_menu_closes_it(
    c: ContextView,
    seat: SeatId,
    used: u32,
    now: u64,
    g: GlobalsView,
)
    requires
        c.window_menu is Some,
        c.window_menu_mode == Some(WindowMenuMode::Pointer),
        c.seat(seat) is Some,
    ensures
        ({
            let d = c.pointer_pressed(seat, used, now, g);
            let target = c.seat(seat)->0.pointer_target;
            &&& target is Nothing || target is Titlebar || target is Desktop ==> d.window_menu is None
                && d.window_menu_mode is None
            &&& target is MenuShield ==> d == c
            &&& target is Menu ==> d.window_menu == c.window_menu
        }),
{
    reveal(ContextView::pointer_pressed);
    reveal(ContextView::menu_dismissed);
    reveal(ContextView::menu_closed);
    reveal(ContextView::unfocus_queued);
    reveal(ContextView::action_queued);
}

/// A click on the empty desktop takes the focus from the windows and the keyboard from the icons.
pub proof fn law_click_on_the_desktop_takes_the_focus(
    c: ContextView,
    seat: SeatId,
    output: OutputId,
    now: u64,
    g: GlobalsView,
)
    requires
        c.seat(seat) matches Some(s) && c.icon_hit(output, s.last_surface_x, s.last_surface_y) is None,
    ensures
        ({
            let d = c.desktop_pressed(seat, output, 0x110, now, g);
            &&& d.icon_focus_output is None
            &&& d.seat(seat) matches Some(t) && t.unhandled_actions
                == c.seat(seat)->0.unhandled_actions + seq![
                ActionView::Plain(Action::ClearFocus),
                ActionView::Plain(Action::SwitchMode { mode: Mode::Default }),
            ]
        }),
{
    reveal(ContextView::desktop_pressed);
    reveal(ContextView::desktop_clicked);
    reveal(ContextView::space_clicked);
    reveal(ContextView::icons_forgotten);
    reveal(ContextView::icon_chosen);
    lemma_seat_changed(c, seat, |s: SeatView| SeatView { last_icon_click: None, ..s });
    let e = c.seat_changed(seat, |s: SeatView| SeatView { last_icon_click: None, ..s });
    let f = e.icons_forgotten();
    assert(f.seats == e.seats && f.icon_focus_output is None);
    lemma_desktop_shown(f, output, g);
    let h = f.desktop_shown(output, g);
    assert(h.seat(seat) == e.seat(seat));
    let mode = (Action::SwitchMode { mode: Mode::Default })@;
    lemma_action_queued(h, seat, Action::ClearFocus@);
    let k = h.action_queued(seat, Action::ClearFocus@);
    lemma_action_queued(k, seat, mode);
    let before = c.seat(seat)->0.unhandled_actions;
    assert(before.push(Action::ClearFocus@).push(mode) =~= before + seq![
        ActionView::Plain(Action::ClearFocus),
        ActionView::Plain(Action::SwitchMode { mode: Mode::Default }),
    ]);
    let d = k.action_queued(seat, mode);
    assert(d.manage_dirty().seats == d.seats);
}

/// The right button opens the menu of all windows on the desktop that it is pressed on, where the
/// pointer is.
pub proof fn law_right_button_opens_the_menu_at_the_pointer(
    c: ContextView,
    seat: SeatId,
    output: OutputId,
    now: u64,
    g: GlobalsView,
)
    requires
        c.seat(seat) is Some,
        c.output(output) is Some,
        g.surfaces(),
        menu_items(c, None).len() > 0,
    ensures
        ({
            let s = c.seat(seat)->0;
            let d = c.desktop_pressed(seat, output, 0x111, now, g);
            let n = c.requests.len() as int;
            &&& d.requests.len() > n
            &&& d.requests[n] matches RequestView::OpenMenu(plan) && {
                &&& plan.output_id == output
                &&& plan.x == s.last_surface_x && plan.y == s.last_surface_y
                &&& !plan.centered
                &&& plan.items == menu_items(c, None)
                &&& plan.hover_seat == Some(seat)
            }
        }),
{
    reveal(ContextView::desktop_pressed);
    reveal(ContextView::desktop_menu);
    reveal(ContextView::menu_asked);
    reveal(ContextView::unfocus_queued);
    reveal(ContextView::action_queued);
}

} // verus!
