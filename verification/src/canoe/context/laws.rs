//! What holds across the operations of the window manager.

use vstd::prelude::*;
use crate::binding::action::Direction;
use crate::binding::{BindingEvent, XkbBindingView};
use crate::canoe::context::focus::{
    covered, leave_fullscreen, most_covered, step_around,
};
use crate::canoe::context::menus::{
    listed, menu_item, menu_items, next_icon, of_app, stacked_items, with_other_items,
};
use crate::canoe::context::objects::{
    hotkey_binding, row_binding, shadowed, user_has, with_defaults, with_hotkeys, xkb_populated,
};
use crate::canoe::context::{is_seat, is_window, lemma_each_window, ContextView};
use crate::canoe::menu::MenuItemView;
use crate::canoe::output::OutputView;
use crate::canoe::seat::{SeatView, StagedSeat};
use crate::canoe::window::{dragged, FullscreenState, SavedGeometry, SnapState, Staged, WindowView};
use crate::canoe::{OutputId, WindowId, WindowMenuMode};
use crate::config::{hotkey_views, Config, HotkeyView, Mode};
use crate::binding::action::XkbRowView;
use crate::num::larger;
use crate::protocol::ObjectId;
use crate::search::{first, lemma_first, lemma_first_is, lemma_first_none, lemma_without,
    lemma_without_keeps_distinct, without};

verus! {

/// Where a window goes back to when it is no longer maximized or snapped: what
/// is remembered, or where it is now.
pub open spec fn home(w: WindowView) -> SavedGeometry {
    match w.pre_snap {
        Some(saved) => saved,
        None => w.geometry(),
    }
}

/// Whether a window is at a remembered place and has been asked to take the
/// remembered size, as far as its minimum allows.
pub open spec fn is_back(w: WindowView, saved: SavedGeometry) -> bool {
    &&& w.x == saved.x
    &&& w.y == saved.y
    &&& w.proposed_width == larger(saved.width as int, w.min_width as int)
    &&& w.proposed_height == larger(saved.height as int, w.min_height as int)
}

/// A window that was maximized goes back to where it was, and nothing of it is
/// remembered any more.
pub proof fn law_unmaximizing_restores_geometry(s: Staged, place: SavedGeometry)
    requires
        !s.window.maximized,
    ensures
        ({
            let w = s.maximized_to(place).unmaximized().window;
            is_back(w, home(s.window)) && !w.maximized && w.snap_state is None && w.pre_snap is None
        }),
{
    reveal(Staged::maximized_to);
    reveal(Staged::unmaximized);
    reveal(Staged::restore_pre_snap);
    reveal(Staged::restore);
    reveal(Staged::set_position);
    reveal(Staged::propose_dimensions);
    reveal(Staged::propose_raw);
    reveal(Staged::inform_maximized);
    reveal(Staged::inform_unmaximized);
}

/// Snapping a window to the same half again changes nothing.
pub proof fn law_snapping_twice_is_snapping_once(
    s: Staged,
    target: SnapState,
    place: SavedGeometry,
    again: SavedGeometry,
    manager: Option<ObjectId>,
)
    requires
        s.window.snap_state != Some(target.opposite()),
        s.window.snap_state != Some(target),
    ensures
        s.snapped(target, place, manager).snapped(target, again, manager) == s.snapped(
            target,
            place,
            manager,
        ),
{
    reveal(Staged::snapped);
    reveal(Staged::snap_placed);
    reveal(Staged::restore);
}

/// Where a window goes back to when it is no longer snapped: what is
/// remembered, where it was before it was fullscreen, or where it is now.
pub open spec fn snap_home(w: WindowView) -> SavedGeometry {
    match w.pre_snap {
        Some(saved) => saved,
        None => match w.pre_fullscreen {
            Some(saved) => if w.fullscreen != FullscreenState::Off {
                saved
            } else {
                w.geometry()
            },
            None => w.geometry(),
        },
    }
}

/// A window snapped to one half goes back to where it was when it is snapped
/// to the other half, and nothing of it is remembered any more.
pub proof fn law_snapping_back_restores_geometry(
    s: Staged,
    target: SnapState,
    place: SavedGeometry,
    other: SavedGeometry,
    manager: Option<ObjectId>,
)
    requires
        target != SnapState::Maximized,
        s.window.snap_state != Some(target),
        s.window.snap_state != Some(target.opposite()),
    ensures
        ({
            let w = s.snapped(target, place, manager).snapped(
                target.opposite(),
                other,
                manager,
            ).window;
            is_back(w, snap_home(s.window)) && w.snap_state is None && w.pre_snap is None
        }),
{
    reveal(Staged::snapped);
    reveal(Staged::unmaximized_to_snap);
    reveal(Staged::snap_remembered);
    reveal(Staged::fullscreen_dropped);
    reveal(Staged::exit_fullscreen);
    reveal(Staged::clear_maximized_without_restore);
    reveal(Staged::inform_unmaximized);
    reveal(Staged::snap_placed);
    reveal(Staged::restore_pre_snap);
    reveal(Staged::restore);
    reveal(Staged::set_position);
    reveal(Staged::propose_dimensions);
    reveal(Staged::propose_raw);
}

/// A window that left fullscreen goes back to where it was before.
pub proof fn law_leaving_fullscreen_restores_geometry(
    s: Staged,
    saved: SavedGeometry,
    target: Option<(ObjectId, OutputId)>,
)
    requires
        s.window.pre_fullscreen is None,
    ensures
        ({
            let w = s.fullscreen_asked(saved, target).fullscreen_left().fullscreen_restored().window;
            is_back(w, saved) && w.fullscreen == FullscreenState::Off
                && !w.pending_unfullscreen_restore
        }),
{
    reveal(Staged::fullscreen_asked);
    reveal(Staged::fullscreen_entered);
    reveal(Staged::fullscreen_on);
    reveal(Staged::fullscreen_left);
    reveal(Staged::exit_fullscreen);
    reveal(Staged::fullscreen_restored);
    reveal(Staged::restore);
    reveal(Staged::set_position);
    reveal(Staged::propose_dimensions);
    reveal(Staged::propose_raw);
}

/// A window that was hidden and is shown again is what it was, but that its
/// frame is drawn anew.
pub proof fn law_showing_undoes_hiding(s: Staged)
    requires
        !s.window.hidden,
    ensures
        s.conceal().window.hidden,
        s.conceal().show().window == s.window.titlebar_stale(),
{
    reveal(Staged::conceal);
    reveal(Staged::show);
}

/// Dragging the near edge keeps the far edge in its place, and dragging the far
/// edge keeps the near one. Neither makes a window smaller than its minimum.
pub proof fn law_dragging_an_edge_keeps_the_other(
    start: int,
    length: int,
    least: int,
    delta: int,
)
    ensures
        ({
            let near = dragged(start, length, least, delta, true, false);
            near.0 + near.1 == start + length && near.1 >= least
        }),
        ({
            let far = dragged(start, length, least, delta, false, true);
            far.0 == start && far.1 >= least
        }),
{
}

/// A window that is being moved or resized follows the pointer exactly: the same
/// distance from where the operation began leads to the same place and to the
/// same proposed size, whatever came between.
pub proof fn law_moving_depends_on_the_distance_only(s: Staged, dx: i32, dy: i32, ex: i32, ey: i32)
    ensures
        ({
            let detour = s.apply_op_delta(dx, dy).apply_op_delta(ex, ey).window;
            let direct = s.apply_op_delta(ex, ey).window;
            s.window.operator !is Idle ==> {
                &&& detour.x == direct.x
                &&& detour.y == direct.y
                &&& detour.width == direct.width
                &&& detour.height == direct.height
                &&& detour.proposed_width == direct.proposed_width
                &&& detour.proposed_height == direct.proposed_height
                &&& detour.operator == direct.operator
            }
        }),
{
    reveal(Staged::apply_op_delta);
    reveal(Staged::set_position);
    reveal(Staged::propose_dimensions);
    reveal(Staged::propose_raw);
}

/// The output that a window counts as being on is one that no other output
/// holds more of.
pub proof fn law_window_is_where_most_of_it_is(w: WindowView, outputs: Seq<OutputView>, k: int)
    requires
        0 <= k < outputs.len(),
    ensures
        match most_covered(w, outputs) {
            Some((id, area)) => area > 0 && covered(w, outputs[k]) <= area && exists|i: int|
                0 <= i < outputs.len() && (#[trigger] outputs[i]).id == id && covered(w, outputs[i])
                    == area,
            None => covered(w, outputs[k]) <= 0,
        },
    decreases outputs.len(),
{
    let rest = outputs.drop_last();
    if rest.len() > 0 {
        let j = if k < rest.len() {
            k
        } else {
            0
        };
        law_window_is_where_most_of_it_is(w, rest, j);
        match most_covered(w, rest) {
            Some((id, area)) => {
                let i = choose|i: int|
                    0 <= i < rest.len() && (#[trigger] rest[i]).id == id && covered(w, rest[i])
                        == area;
                assert(outputs[i] == rest[i]);
            },
            None => {},
        }
    }
    assert(outputs.last() == outputs[outputs.len() - 1]);
}

/// Going one place forward and one place back leads to where one was, and so
/// does the other way round.
pub proof fn law_stepping_back_undoes_stepping_forward(place: int, n: int)
    requires
        0 <= place < n,
    ensures
        step_around(step_around(place, n, Direction::Forward), n, Direction::Reverse) == place,
        step_around(step_around(place, n, Direction::Reverse), n, Direction::Forward) == place,
        0 <= step_around(place, n, Direction::Forward) < n,
        0 <= step_around(place, n, Direction::Reverse) < n,
{
    if place + 1 < n {
        vstd::arithmetic::div_mod::lemma_small_mod((place + 1) as nat, n as nat);
    } else {
        vstd::arithmetic::div_mod::lemma_mod_self_0(n);
    }
    if place == 0 {
        vstd::arithmetic::div_mod::lemma_mod_self_0(n);
    } else {
        vstd::arithmetic::div_mod::lemma_small_mod(place as nat, n as nat);
    }
}

/// The keyboard moves from an icon to an icon.
pub proof fn law_icon_steps_stay_among_the_icons(count: int, cols: int, current: int, dx: int, dy: int)
    requires
        0 <= current < count,
    ensures
        0 <= next_icon(count, cols, current, dx, dy) < count,
{
    vstd::arithmetic::div_mod::lemma_fundamental_div_mod(current + dx, count);
}

/// After a seat switched modes, the bindings of the new mode are enabled and
/// those of the old mode are not. All others are as they were.
pub proof fn law_switching_modes_switches_bindings(s: StagedSeat, mode: Mode, i: int)
    requires
        s.seat.mode != mode,
        0 <= i < s.seat.xkb_bindings.len(),
    ensures
        ({
            let before = s.seat.xkb_bindings[i].0;
            let after = s.switch_mode(mode).seat.xkb_bindings[i].0;
            &&& s.switch_mode(mode).seat.mode == mode
            &&& after.mode == before.mode
            &&& after.enabled == (if before.mode == mode {
                true
            } else if before.mode == s.seat.mode {
                false
            } else {
                before.enabled
            })
            &&& after == (XkbBindingView { enabled: after.enabled, ..before })
        }),
{
    reveal(StagedSeat::switch_mode);
}

/// The same for the bindings of buttons.
pub proof fn law_switching_modes_switches_buttons(s: StagedSeat, mode: Mode, i: int)
    requires
        s.seat.mode != mode,
        0 <= i < s.seat.pointer_bindings.len(),
    ensures
        ({
            let before = s.seat.pointer_bindings[i].0;
            let after = s.switch_mode(mode).seat.pointer_bindings[i].0;
            &&& after.mode == before.mode
            &&& after.enabled == (if before.mode == mode {
                true
            } else if before.mode == s.seat.mode {
                false
            } else {
                before.enabled
            })
        }),
{
    reveal(StagedSeat::switch_mode);
}

/// Assigning a window to an output leaves the focus and its order alone, and
/// changes of the windows only where they belong.
proof fn lemma_output_set_keeps_focus(c: ContextView, id: WindowId, output: OutputId)
    ensures
        c.window_output_set(id, output).focus_stack == c.focus_stack,
        c.window_output_set(id, output).focused_window == c.focused_window,
        c.window_output_set(id, output).windows.len() == c.windows.len(),
        forall|i: int|
            0 <= i < c.windows.len() ==> (#[trigger] c.window_output_set(id, output).windows[i]).id
                == c.windows[i].id && c.window_output_set(id, output).windows[i].fullscreen
                == c.windows[i].fullscreen && c.window_output_set(id, output).windows[i].hidden
                == c.windows[i].hidden,
{
    reveal(ContextView::window_output_set);
    reveal(ContextView::default_output_set);
    lemma_first(c.windows, is_window(id));
}

proof fn lemma_output_followed_keeps_focus(c: ContextView, id: WindowId)
    ensures
        c.output_followed(id).focus_stack == c.focus_stack,
        c.output_followed(id).focused_window == c.focused_window,
        c.output_followed(id).windows.len() == c.windows.len(),
        forall|i: int|
            0 <= i < c.windows.len() ==> (#[trigger] c.output_followed(id).windows[i]).id
                == c.windows[i].id && c.output_followed(id).windows[i].fullscreen
                == c.windows[i].fullscreen && c.output_followed(id).windows[i].hidden
                == c.windows[i].hidden,
{
    reveal(ContextView::output_followed);
    match c.window(id) {
        Some(w) => match c.output_for_rect(w) {
            Some(output) => lemma_output_set_keeps_focus(c, id, output),
            None => {},
        },
        None => {},
    }
}

/// What happens to the windows when one of them is focused: the others leave
/// fullscreen.
proof fn lemma_left_fullscreen(c: ContextView, id: WindowId, n: int)
    requires
        0 <= n <= c.windows.len(),
    ensures
        ({
            let d = c.each_window(n, leave_fullscreen(id));
            forall|i: int|
                0 <= i < c.windows.len() ==> (#[trigger] d.windows[i]).id == c.windows[i].id
                    && d.windows[i].hidden == c.windows[i].hidden && d.windows[i].fullscreen == (if i
                    < n && c.windows[i].id != id {
                    FullscreenState::Off
                } else {
                    c.windows[i].fullscreen
                })
        }),
    decreases n,
{
    lemma_each_window(c, n, leave_fullscreen(id));
    if n > 0 {
        lemma_each_window(c, n - 1, leave_fullscreen(id));
        lemma_left_fullscreen(c, id, n - 1);
        let d = c.each_window(n - 1, leave_fullscreen(id));
        reveal(Staged::fullscreen_left_unless);
        reveal(Staged::fullscreen_left);
        reveal(Staged::exit_fullscreen);
        assert(leave_fullscreen(id)(d.staged(n - 1)) == d.staged(n - 1).fullscreen_left_unless(id));
    }
}

/// Focusing a window puts it first in the focus order, behind which the others
/// keep their order, and no other window stays fullscreen.
pub proof fn law_focused_window_comes_first(c: ContextView, id: WindowId)
    ensures
        c.focus(id).focused_window == Some(id),
        c.focus(id).focus_stack == without(c.focus_stack, id).insert(0, id),
        c.focus(id).windows.len() == c.windows.len(),
        forall|i: int|
            0 <= i < c.windows.len() ==> (#[trigger] c.focus(id).windows[i]).id == c.windows[i].id
                && c.focus(id).windows[i].hidden == c.windows[i].hidden && (c.windows[i].id != id
                ==> c.focus(id).windows[i].fullscreen == FullscreenState::Off),
{
    reveal(ContextView::focus);
    reveal(ContextView::others_left_fullscreen);
    reveal(ContextView::keyboard_to);
    let n = c.windows.len() as int;
    lemma_each_window(c, n, leave_fullscreen(id));
    lemma_left_fullscreen(c, id, n);
    let left = c.others_left_fullscreen(id);
    let first = ContextView {
        focus_stack: without(left.focus_stack, id).insert(0, id),
        focused_window: Some(id),
        ..left
    };
    let given = first.keyboard_to(id);
    lemma_output_followed_keeps_focus(given, id);
    let followed = given.output_followed(id);
    match followed.output_for_window(id) {
        Some(output) => lemma_output_set_keeps_focus(followed, id, output),
        None => {},
    }
}

/// A focus order in which no window occurs twice stays one.
pub proof fn law_focus_order_has_no_duplicates(c: ContextView, id: WindowId)
    requires
        c.focus_stack.no_duplicates(),
    ensures
        c.focus(id).focus_stack.no_duplicates(),
{
    law_focused_window_comes_first(c, id);
    lemma_without(c.focus_stack, id);
    lemma_without_keeps_distinct(c.focus_stack, id);
    let rest = without(c.focus_stack, id);
    let all = rest.insert(0, id);
    assert forall|i: int, j: int| 0 <= i < j < all.len() implies all[i] != all[j] by {
        assert(all[j] == rest[j - 1]);
        if i > 0 {
            assert(all[i] == rest[i - 1]);
        } else {
            assert(rest.contains(rest[j - 1]));
        }
    }
}

/// Windows with the same ids are found at the same places.
pub proof fn lemma_same_places(a: ContextView, b: ContextView, id: WindowId)
    requires
        a.windows.len() == b.windows.len(),
        forall|i: int| 0 <= i < a.windows.len() ==> (#[trigger] a.windows[i]).id == b.windows[i].id,
    ensures
        a.window_index(id) == b.window_index(id),
{
    lemma_first(a.windows, is_window(id));
    match a.window_index(id) {
        Some(i) => {
            assert(is_window(id)(b.windows[i]));
            assert forall|j: int| 0 <= j < i implies !is_window(id)(#[trigger] b.windows[j]) by {
                assert(!is_window(id)(a.windows[j]));
            }
            lemma_first_is(b.windows, is_window(id), i);
        },
        None => {
            assert forall|j: int| 0 <= j < b.windows.len() implies !is_window(id)(
                #[trigger] b.windows[j],
            ) by {
                assert(!is_window(id)(a.windows[j]));
            }
            lemma_first_none(b.windows, is_window(id));
        },
    }
}

/// Whether a window is hidden but for the preview of alt-tab.
pub open spec fn hidden_at_heart(c: ContextView, i: int) -> bool {
    c.windows[i].hidden || (c.window_menu_alt_tab_preview_was_hidden && match c.window_menu_alt_tab_preview {
        Some(id) => c.window_index(id) == Some(i),
        None => false,
    })
}

/// What always holds of alt-tab: there is a preview only once there is
/// something to go back to.
pub open spec fn alt_tab_wf(c: ContextView) -> bool {
    c.window_menu_alt_tab_stack is None ==> c.window_menu_alt_tab_preview is None
}

proof fn lemma_stack_restored(c: ContextView, order: Seq<WindowId>)
    ensures
        c.stack_restored(order) == (ContextView { requests: c.stack_restored(order).requests, ..c }),
    decreases order.len(),
{
    if order.len() > 0 {
        reveal(ContextView::placed_top);
        reveal(Staged::place_top);
        lemma_stack_restored(c.placed_top(order.last()), order.drop_last());
    }
}

proof fn lemma_order_restored(c: ContextView)
    ensures
        c.alt_tab_order_restored() == (ContextView {
            requests: c.alt_tab_order_restored().requests,
            ..c
        }),
{
    reveal(ContextView::alt_tab_order_restored);
    match c.window_menu_alt_tab_stack {
        Some(order) => lemma_stack_restored(c, order),
        None => {},
    }
}

/// Ending a preview leaves every window as it would be without it.
proof fn lemma_preview_withdrawn(c: ContextView)
    ensures
        c.preview_withdrawn().windows.len() == c.windows.len(),
        c.preview_withdrawn().window_menu_alt_tab_preview is None,
        !c.preview_withdrawn().window_menu_alt_tab_preview_was_hidden,
        c.preview_withdrawn().window_menu_alt_tab_focused == c.window_menu_alt_tab_focused,
        c.preview_withdrawn().window_menu_alt_tab_stack == c.window_menu_alt_tab_stack,
        c.preview_withdrawn().window_menu_mode == c.window_menu_mode,
        c.preview_withdrawn().focus_stack == c.focus_stack,
        forall|i: int|
            0 <= i < c.windows.len() ==> (#[trigger] c.preview_withdrawn().windows[i]).id
                == c.windows[i].id && c.preview_withdrawn().windows[i].hidden == hidden_at_heart(
                c,
                i,
            ),
{
    reveal(ContextView::preview_withdrawn);
    reveal(Staged::conceal);
    match c.window_menu_alt_tab_preview {
        Some(id) => lemma_first(c.windows, is_window(id)),
        None => {},
    }
}

/// Showing a preview leaves every window hidden at heart that was hidden.
proof fn lemma_preview_shown(c: ContextView, id: WindowId, changed: bool)
    requires
        c.window_menu_alt_tab_preview is None,
        !c.window_menu_alt_tab_preview_was_hidden,
    ensures
        ({
            let d = c.preview_shown(id, changed);
            &&& d.windows.len() == c.windows.len()
            &&& d.window_menu_alt_tab_focused == c.window_menu_alt_tab_focused
            &&& d.window_menu_alt_tab_stack == c.window_menu_alt_tab_stack
            &&& d.window_menu_mode == c.window_menu_mode
            &&& d.focus_stack == c.focus_stack
            &&& forall|i: int|
                0 <= i < c.windows.len() ==> (#[trigger] d.windows[i]).id == c.windows[i].id
                    && hidden_at_heart(d, i) == c.windows[i].hidden
        }),
{
    reveal(ContextView::preview_shown);
    reveal(ContextView::window_raised);
    reveal(ContextView::focus_preview_visual);
    reveal(ContextView::keyboard_to_none);
    reveal(ContextView::preview_set);
    reveal(ContextView::stale_if);
    reveal(ContextView::desktops_stale);
    reveal(Staged::raised);
    reveal(Staged::show);
    reveal(Staged::place_top);
    lemma_first(c.windows, is_window(id));
    let d = c.preview_shown(id, changed);
    assert(d.windows.len() == c.windows.len());
    assert forall|i: int| 0 <= i < c.windows.len() implies (#[trigger] d.windows[i]).id
        == c.windows[i].id by {}
    lemma_same_places(c, d, id);
}

/// Previewing one window after another in alt-tab never changes which windows
/// are hidden at heart, nor what is gone back to.
pub proof fn law_previews_leave_no_trace(c: ContextView, id: WindowId, i: int)
    requires
        alt_tab_wf(c),
        0 <= i < c.windows.len(),
    ensures
        alt_tab_wf(c.alt_tab_previewed(id)),
        c.alt_tab_previewed(id).windows.len() == c.windows.len(),
        c.alt_tab_previewed(id).windows[i].id == c.windows[i].id,
        hidden_at_heart(c.alt_tab_previewed(id), i) == hidden_at_heart(c, i),
        c.alt_tab_previewed(id).focus_stack == c.focus_stack,
        c.window_menu_alt_tab_stack is Some ==> c.alt_tab_previewed(
            id,
        ).window_menu_alt_tab_focused == c.window_menu_alt_tab_focused && c.alt_tab_previewed(
            id,
        ).window_menu_alt_tab_stack == c.window_menu_alt_tab_stack,
{
    reveal(ContextView::alt_tab_previewed);
    reveal(ContextView::alt_tab_begun);
    if c.window_menu_mode == Some(WindowMenuMode::AltTab) {
        let b = c.alt_tab_begun();
        assert(b.windows == c.windows);
        match c.window_menu_alt_tab_preview {
            Some(p) => lemma_same_places(b, c, p),
            None => {},
        }
        assert(hidden_at_heart(b, i) == hidden_at_heart(c, i));
        if b.window_menu_alt_tab_preview != Some(id) {
            lemma_preview_withdrawn(b);
            let withdrawn = b.preview_withdrawn();
            lemma_order_restored(withdrawn);
            let ordered = withdrawn.alt_tab_order_restored();
            lemma_preview_shown(ordered, id, b.preview_uncovered());
            assert(ordered.windows[i].hidden == hidden_at_heart(b, i));
        }
    }
}

/// Closing the menu of alt-tab gives the focus back to the window that had it
/// before, hides what was only previewed, and forgets all about alt-tab.
pub proof fn law_cancelled_alt_tab_goes_back(c: ContextView, i: int)
    requires
        c.window_menu_mode == Some(WindowMenuMode::AltTab),
        0 <= i < c.windows.len(),
    ensures
        c.menu_closed().window_menu is None,
        c.menu_closed().window_menu_mode is None,
        alt_tab_wf(c.menu_closed()),
        c.menu_closed().windows.len() == c.windows.len(),
        c.menu_closed().windows[i].hidden == hidden_at_heart(c, i),
        c.menu_closed().focus_stack == c.focus_stack,
        c.window_menu_alt_tab_focused matches Some(f) ==> c.window_index(f) is Some
            ==> c.menu_closed().focused_window == Some(f),
{
    reveal(ContextView::menu_closed);
    reveal(ContextView::alt_tab_undone);
    reveal(ContextView::stale_if);
    reveal(ContextView::desktops_stale);
    reveal(ContextView::focus_preview);
    reveal(ContextView::keyboard_to);
    lemma_preview_withdrawn(c);
    let withdrawn = c.preview_withdrawn();
    lemma_order_restored(withdrawn);
    let ordered = withdrawn.alt_tab_order_restored();
    match c.window_menu_alt_tab_focused {
        Some(f) => {
            lemma_same_places(c, ordered, f);
        },
        None => {},
    }
}

/// Whether no two windows have the same id.
pub open spec fn distinct_windows(windows: Seq<WindowView>) -> bool {
    forall|i: int, j: int|
        0 <= i < j < windows.len() ==> (#[trigger] windows[i]).id != (#[trigger] windows[j]).id
}

/// Whether no two items are of the same window.
pub open spec fn distinct_items(items: Seq<MenuItemView>) -> bool {
    forall|i: int, j: int|
        0 <= i < j < items.len() ==> (#[trigger] items[i]).window_id
            != (#[trigger] items[j]).window_id
}

proof fn lemma_stacked_items(c: ContextView, stack: Seq<WindowId>, app_id: Option<Seq<char>>)
    requires
        stack.no_duplicates(),
    ensures
        distinct_items(stacked_items(c, stack, app_id)),
        forall|id: WindowId|
            #[trigger] listed(stacked_items(c, stack, app_id), id) <==> stack.contains(id)
                && c.window(id) is Some && of_app(c.window(id)->0, app_id),
    decreases stack.len(),
{
    let items = stacked_items(c, stack, app_id);
    if stack.len() > 0 {
        let rest = stack.drop_last();
        let last = stack.last();
        assert(rest.no_duplicates()) by {
            assert forall|i: int, j: int|
                0 <= i < rest.len() && 0 <= j < rest.len() && i != j implies rest[i] != rest[j] by {
                assert(stack[i] != stack[j]);
            }
        }
        lemma_stacked_items(c, rest, app_id);
        let earlier = stacked_items(c, rest, app_id);
        assert(!rest.contains(last)) by {
            if rest.contains(last) {
                let i = choose|i: int| 0 <= i < rest.len() && rest[i] == last;
                assert(stack[i] != stack[stack.len() - 1]);
            }
        }
        assert(!listed(earlier, last));
        lemma_first(c.windows, is_window(last));
        assert forall|id: WindowId|
            #[trigger] listed(items, id) <==> stack.contains(id) && c.window(id) is Some && of_app(
                c.window(id)->0,
                app_id,
            ) by {
            assert(stack =~= rest.push(last));
            assert(stack.contains(id) <==> rest.contains(id) || id == last) by {
                if rest.contains(id) {
                    let i = choose|i: int| 0 <= i < rest.len() && rest[i] == id;
                    assert(stack[i] == id);
                }
                if id == last {
                    assert(stack[stack.len() - 1] == id);
                }
                if stack.contains(id) {
                    let i = choose|i: int| 0 <= i < stack.len() && stack[i] == id;
                    if i < rest.len() {
                        assert(rest[i] == id);
                    }
                }
            }
            let grew = c.window(last) is Some && of_app(c.window(last)->0, app_id);
            if grew {
                assert(items =~= earlier.push(menu_item(c.window(last)->0, c.focused_window)));
                assert(items.last().window_id == last);
                assert(listed(items, id) <==> listed(earlier, id) || id == last) by {
                    if listed(earlier, id) {
                        let k = choose|k: int|
                            0 <= k < earlier.len() && (#[trigger] earlier[k]).window_id == id;
                        assert(items[k].window_id == id);
                    }
                    if id == last {
                        assert(items[items.len() - 1].window_id == id);
                    }
                    if listed(items, id) {
                        let k = choose|k: int|
                            0 <= k < items.len() && (#[trigger] items[k]).window_id == id;
                        if k < earlier.len() {
                            assert(earlier[k].window_id == id);
                        }
                    }
                }
            } else {
                assert(items == earlier);
            }
        }
        assert forall|i: int, j: int| 0 <= i < j < items.len() implies (
        #[trigger] items[i]).window_id != (#[trigger] items[j]).window_id by {
            assert(items[i] == earlier[i]);
            if j < earlier.len() {
                assert(items[j] == earlier[j]);
            } else {
                if earlier[i].window_id == last {
                    assert(listed(earlier, last));
                }
            }
        }
    }
}

proof fn lemma_other_items(
    items: Seq<MenuItemView>,
    focused: Option<WindowId>,
    windows: Seq<WindowView>,
    app_id: Option<Seq<char>>,
)
    requires
        distinct_items(items),
        distinct_windows(windows),
    ensures
        ({
            let all = with_other_items(items, focused, windows, app_id);
            &&& distinct_items(all)
            &&& forall|id: WindowId| #[trigger]
                listed(all, id) <==> listed(items, id) || exists|i: int|
                    0 <= i < windows.len() && (#[trigger] windows[i]).id == id && of_app(
                        windows[i],
                        app_id,
                    )
        }),
    decreases windows.len(),
{
    let all = with_other_items(items, focused, windows, app_id);
    if windows.len() > 0 {
        let rest = windows.drop_last();
        let w = windows.last();
        assert(distinct_windows(rest)) by {
            assert forall|i: int, j: int| 0 <= i < j < rest.len() implies (#[trigger] rest[i]).id
                != (#[trigger] rest[j]).id by {
                assert(windows[i].id != windows[j].id);
            }
        }
        lemma_other_items(items, focused, rest, app_id);
        let earlier = with_other_items(items, focused, rest, app_id);
        let grew = of_app(w, app_id) && !listed(items, w.id);
        if grew {
            assert(!listed(earlier, w.id)) by {
                if listed(earlier, w.id) {
                    let i = choose|i: int|
                        0 <= i < rest.len() && (#[trigger] rest[i]).id == w.id && of_app(
                            rest[i],
                            app_id,
                        );
                    assert(windows[i].id != windows[windows.len() - 1].id);
                }
            }
            assert(all == earlier.push(menu_item(w, focused)));
        }
        assert forall|id: WindowId| #[trigger]
            listed(all, id) <==> listed(items, id) || exists|i: int|
                0 <= i < windows.len() && (#[trigger] windows[i]).id == id && of_app(
                    windows[i],
                    app_id,
                ) by {
            if listed(all, id) {
                let k = choose|k: int| 0 <= k < all.len() && (#[trigger] all[k]).window_id == id;
                if k < earlier.len() {
                    assert(earlier[k].window_id == id);
                    assert(listed(earlier, id));
                    if !listed(items, id) {
                        let i = choose|i: int|
                            0 <= i < rest.len() && (#[trigger] rest[i]).id == id && of_app(
                                rest[i],
                                app_id,
                            );
                        assert(windows[i] == rest[i]);
                    }
                } else {
                    assert(windows[windows.len() - 1].id == id);
                }
            }
            if listed(items, id) {
                assert(listed(earlier, id));
                let k = choose|k: int|
                    0 <= k < earlier.len() && (#[trigger] earlier[k]).window_id == id;
                assert(all[k].window_id == id);
            }
            if exists|i: int|
                0 <= i < windows.len() && (#[trigger] windows[i]).id == id && of_app(
                    windows[i],
                    app_id,
                ) {
                let i = choose|i: int|
                    0 <= i < windows.len() && (#[trigger] windows[i]).id == id && of_app(
                        windows[i],
                        app_id,
                    );
                if i < rest.len() {
                    assert(rest[i] == windows[i]);
                    assert(listed(earlier, id));
                    let k = choose|k: int|
                        0 <= k < earlier.len() && (#[trigger] earlier[k]).window_id == id;
                    assert(all[k].window_id == id);
                } else if grew {
                    assert(all[all.len() - 1].window_id == id);
                }
            }
        }
        assert forall|i: int, j: int| 0 <= i < j < all.len() implies (#[trigger] all[i]).window_id
            != (#[trigger] all[j]).window_id by {
            assert(all[i] == earlier[i]);
            if j < earlier.len() {
                assert(all[j] == earlier[j]);
            } else {
                if earlier[i].window_id == w.id {
                    assert(listed(earlier, w.id));
                }
            }
        }
    }
}

/// The window menu lists every window, or every window of an application,
/// exactly once, and nothing else.
pub proof fn law_menu_lists_each_window_once(c: ContextView, app_id: Option<Seq<char>>)
    requires
        distinct_windows(c.windows),
        c.focus_stack.no_duplicates(),
    ensures
        distinct_items(menu_items(c, app_id)),
        forall|id: WindowId| #[trigger]
            listed(menu_items(c, app_id), id) <==> exists|i: int|
                0 <= i < c.windows.len() && (#[trigger] c.windows[i]).id == id && of_app(
                    c.windows[i],
                    app_id,
                ),
{
    lemma_stacked_items(c, c.focus_stack, app_id);
    let stacked = stacked_items(c, c.focus_stack, app_id);
    lemma_other_items(stacked, c.focused_window, c.windows, app_id);
    assert forall|id: WindowId| #[trigger]
        listed(menu_items(c, app_id), id) <==> exists|i: int|
            0 <= i < c.windows.len() && (#[trigger] c.windows[i]).id == id && of_app(
                c.windows[i],
                app_id,
            ) by {
        if listed(stacked, id) {
            lemma_first(c.windows, is_window(id));
            let i = c.window_index(id)->0;
            assert(c.windows[i].id == id && of_app(c.windows[i], app_id));
        }
    }
}

/// What always holds of the tables: no two windows, outputs or seats have the
/// same id, and ids that were given out are below the next one.
pub open spec fn ids_wf(c: ContextView) -> bool {
    &&& distinct_windows(c.windows)
    &&& forall|i: int| 0 <= i < c.windows.len() ==> (#[trigger] c.windows[i]).id < c.next_window_id
    &&& c.focus_stack.no_duplicates()
    &&& forall|i: int| 0 <= i < c.focus_stack.len() ==> #[trigger] c.focus_stack[i] < c.next_window_id
    &&& forall|i: int, j: int|
        0 <= i < j < c.outputs.len() ==> (#[trigger] c.outputs[i]).id != (
        #[trigger] c.outputs[j]).id
    &&& forall|i: int| 0 <= i < c.outputs.len() ==> (#[trigger] c.outputs[i]).id < c.next_output_id
}

/// A new window has an id of its own, and ids stay unique.
pub proof fn law_new_windows_have_new_ids(c: ContextView, rwm_window: ObjectId)
    requires
        ids_wf(c),
        c.next_window_id < usize::MAX,
    ensures
        ids_wf(c.window_created(rwm_window)),
        c.window_created(rwm_window).windows.len() == c.windows.len() + 1,
        c.window_created(rwm_window).windows.last().id == c.next_window_id,
        c.window(c.next_window_id) is None,
{
    reveal(ContextView::window_created);
    lemma_first(c.windows, is_window(c.next_window_id));
    let d = c.window_created(rwm_window);
    let stack = d.focus_stack;
    assert forall|i: int, j: int| 0 <= i < stack.len() && 0 <= j < stack.len() && i != j implies
        stack[i] != stack[j] by {
        let n = c.focus_stack.len();
        if i < n {
            assert(stack[i] == c.focus_stack[i]);
        }
        if j < n {
            assert(stack[j] == c.focus_stack[j]);
        }
    }
}

/// A new output has an id of its own, and ids stay unique.
pub proof fn law_new_outputs_have_new_ids(c: ContextView, rwm_output: ObjectId)
    requires
        ids_wf(c),
        c.next_output_id < usize::MAX,
    ensures
        ids_wf(c.output_created(rwm_output)),
        c.output_created(rwm_output).outputs.last().id == c.next_output_id,
{
    reveal(ContextView::output_created);
}

/// Removing a window keeps ids unique, and the window is gone.
pub proof fn law_removed_window_is_gone(c: ContextView, id: WindowId)
    requires
        ids_wf(c),
    ensures
        distinct_windows(c.window_removed(id).windows),
        c.window_removed(id).window(id) is None,
{
    reveal(ContextView::window_removed);
    lemma_first(c.windows, is_window(id));
    let d = c.window_removed(id);
    match c.window_index(id) {
        Some(k) => {
            assert forall|i: int| 0 <= i < d.windows.len() implies !is_window(id)(
                #[trigger] d.windows[i],
            ) by {
                if i < k {
                    assert(d.windows[i] == c.windows[i]);
                    assert(!is_window(id)(c.windows[i]));
                } else {
                    assert(d.windows[i] == c.windows[i + 1]);
                    assert(c.windows[k].id != c.windows[i + 1].id);
                }
            }
            lemma_first_none(d.windows, is_window(id));
            assert forall|i: int, j: int| 0 <= i < j < d.windows.len() implies (
            #[trigger] d.windows[i]).id != (#[trigger] d.windows[j]).id by {
                let i0 = if i < k {
                    i
                } else {
                    i + 1
                };
                let j0 = if j < k {
                    j
                } else {
                    j + 1
                };
                assert(c.windows[i0].id != c.windows[j0].id);
            }
        },
        None => {},
    }
}

/// Whether a key binding fires for a chord in the default mode, on press.
pub open spec fn fires(b: XkbBindingView, keysym: u32, modifiers: u32) -> bool {
    b.mode == Mode::Default && b.event == BindingEvent::Pressed && b.keysym == keysym
        && b.modifiers == modifiers
}

proof fn lemma_defaults_yield(
    bindings: Seq<(XkbBindingView, Option<ObjectId>)>,
    rows: Seq<XkbRowView>,
    hotkeys: Seq<HotkeyView>,
    keysym: u32,
    modifiers: u32,
)
    requires
        user_has(hotkeys, keysym, modifiers),
        forall|i: int|
            0 <= i < bindings.len() ==> !fires((#[trigger] bindings[i]).0, keysym, modifiers),
    ensures
        ({
            let all = with_defaults(bindings, rows, hotkeys);
            forall|i: int| 0 <= i < all.len() ==> !fires((#[trigger] all[i]).0, keysym, modifiers)
        }),
    decreases rows.len(),
{
    if rows.len() > 0 {
        lemma_defaults_yield(bindings, rows.drop_last(), hotkeys, keysym, modifiers);
        let row = rows.last();
        let earlier = with_defaults(bindings, rows.drop_last(), hotkeys);
        let all = with_defaults(bindings, rows, hotkeys);
        if fires(row_binding(row), keysym, modifiers) {
            assert(shadowed(row, hotkeys));
        }
        assert forall|i: int| 0 <= i < all.len() implies !fires(
            (#[trigger] all[i]).0,
            keysym,
            modifiers,
        ) by {
            if i < earlier.len() {
                assert(all[i] == earlier[i]);
            }
        }
    }
}

proof fn lemma_hotkeys_appended(
    bindings: Seq<(XkbBindingView, Option<ObjectId>)>,
    hotkeys: Seq<HotkeyView>,
)
    ensures
        ({
            let all = with_hotkeys(bindings, hotkeys);
            &&& all.len() == bindings.len() + hotkeys.len()
            &&& forall|i: int| 0 <= i < bindings.len() ==> #[trigger] all[i] == bindings[i]
            &&& forall|i: int|
                bindings.len() <= i < all.len() ==> (#[trigger] all[i]).0 == hotkey_binding(
                    hotkeys[i - bindings.len()],
                )
        }),
    decreases hotkeys.len(),
{
    if hotkeys.len() > 0 {
        lemma_hotkeys_appended(bindings, hotkeys.drop_last());
    }
}

/// A hotkey of the user takes the place of a built-in binding on the same
/// chord: whatever fires on that chord, in the default mode and on press, is a
/// hotkey.
pub proof fn law_hotkeys_replace_built_in_bindings(
    seat: SeatView,
    config: Config,
    keysym: u32,
    modifiers: u32,
    i: int,
)
    requires
        seat.xkb_bindings.len() == 0,
        user_has(hotkey_views(config.hotkeys@), keysym, modifiers),
        0 <= i < xkb_populated(seat, config).xkb_bindings.len(),
        fires(xkb_populated(seat, config).xkb_bindings[i].0, keysym, modifiers),
    ensures
        exists|k: int|
            0 <= k < config.hotkeys@.len() && xkb_populated(seat, config).xkb_bindings[i].0
                == hotkey_binding(#[trigger] hotkey_views(config.hotkeys@)[k]),
{
    reveal(xkb_populated);
    let hotkeys = hotkey_views(config.hotkeys@);
    let rows = crate::binding::action::default_xkb_table(config.main_modifier);
    let defaults = with_defaults(seat.xkb_bindings, rows, hotkeys);
    lemma_defaults_yield(seat.xkb_bindings, rows, hotkeys, keysym, modifiers);
    lemma_hotkeys_appended(defaults, hotkeys);
    let k = i - defaults.len();
    assert(xkb_populated(seat, config).xkb_bindings[i].0 == hotkey_binding(hotkeys[k]));
}

/// While the session is locked, the current seat is in the mode for that, and
/// afterwards in the default mode.
pub proof fn law_locking_switches_the_mode(c: ContextView, locked: bool)
    requires
        c.current_seat matches Some(seat) && c.seat_index(seat) is Some,
    ensures
        c.lock_changed(locked).session_locked == locked,
        ({
            let d = c.lock_changed(locked);
            let j = c.seat_index(c.current_seat->0)->0;
            d.seats[j].mode == (if locked {
                Mode::Lock
            } else {
                Mode::Default
            })
        }),
{
    reveal(ContextView::lock_changed);
    reveal(ContextView::mode_switched);
    reveal(StagedSeat::switch_mode);
    lemma_first(c.seats, is_seat(c.current_seat->0));
}

/// Of two windows hidden one after the other, the later one gets the higher
/// number, by which the icons are ordered.
pub proof fn law_later_hidden_windows_come_later(c: ContextView, a: WindowId, b: WindowId)
    requires
        distinct_windows(c.windows),
        a != b,
        c.window_index(a) is Some,
        c.window_index(b) is Some,
        c.next_minimize_seq < u64::MAX - 1,
    ensures
        ({
            let d = c.window_hidden(a).window_hidden(b);
            &&& d.window(a) matches Some(first) && first.hidden
            &&& d.window(b) matches Some(second) && second.hidden
            &&& d.window(a)->0.minimize_seq < d.window(b)->0.minimize_seq
        }),
{
    reveal(ContextView::window_hidden);
    reveal(ContextView::desktops_stale);
    reveal(Staged::minimized);
    reveal(Staged::conceal);
    lemma_first(c.windows, is_window(a));
    lemma_first(c.windows, is_window(b));
    let h = c.window_hidden(a);
    lemma_same_places(c, h, a);
    lemma_same_places(c, h, b);
    let d = h.window_hidden(b);
    lemma_same_places(h, d, a);
    lemma_same_places(h, d, b);
}

} // verus!
