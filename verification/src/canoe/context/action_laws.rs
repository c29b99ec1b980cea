//! What actions and the wishes of windows lead to.

use vstd::prelude::*;
use crate::binding::action::{ActionView, Direction, SnapSide};
use crate::binding::Action;
use crate::canoe::context::focus::leave_fullscreen;
use crate::canoe::context::focus_laws::lemma_window_hidden;
use crate::canoe::context::laws::{law_focused_window_comes_first, lemma_same_places};
use crate::canoe::context::place_laws::{
    lemma_committed, lemma_following_keeps_the_place, lemma_maximized_to, lemma_snapped,
    lemma_unmaximized,
};
use crate::canoe::context::placement::{half, snapped_to};
use crate::canoe::context::pointer::grabs_titlebar;
use crate::canoe::context::{is_seat, is_window, lemma_each_window, ContextView};
use crate::canoe::geometry::{edges_near_border, resize_edges, shape_for_edges};
use crate::canoe::seat::StagedSeat;
use crate::canoe::titlebar::spec_titlebar_height;
use crate::canoe::window::{
    FullscreenState, Operator, SnapState, Staged, WindowEvent, WindowView,
};
use crate::canoe::{OutputId, SeatId, WindowId};
use crate::config::{Mode, WindowDecoration};
use crate::num::larger;
use crate::protocol::{ObjectId, Request, RequestView};
use crate::search::{lemma_first, without};
use crate::text::texts;

verus! {

/// A window that is moved is, at any time, as far from where it was when the move
/// began as the pointer has gone since.
pub proof fn law_moved_window_goes_as_far_as_the_pointer(s: Staged, seat: SeatId, dx: i32, dy: i32)
    requires
        i32::MIN <= s.window.x + dx <= i32::MAX,
        i32::MIN <= s.window.y + dy <= i32::MAX,
    ensures
        ({
            let w = s.start_move(seat).apply_op_delta(dx, dy).window;
            &&& w.x == s.window.x + dx
            &&& w.y == s.window.y + dy
            &&& w.width == s.window.width
            &&& w.height == s.window.height
            &&& w.proposed_width == s.window.proposed_width
            &&& w.proposed_height == s.window.proposed_height
            &&& w.operator is Move
        }),
{
    reveal(Staged::start_move);
    reveal(Staged::apply_op_delta);
    reveal(Staged::set_position);
}

/// A window that is resized by its right or bottom edge stays where it is and is asked
/// to grow as the pointer goes right or down. By its left or top edge it follows the
/// pointer with that edge and is asked to shrink as much, down to its minimum. Across
/// the edges that are not dragged nothing changes.
pub proof fn law_resized_window_follows_with_its_edge(
    s: Staged,
    seat: SeatId,
    edges: u32,
    dx: i32,
    dy: i32,
)
    requires
        1 <= edges <= 15,
        edges & 4 == 0 || edges & 8 == 0,
        edges & 1 == 0 || edges & 2 == 0,
        0 <= s.window.min_width <= s.window.width,
        0 <= s.window.min_height <= s.window.height,
        i32::MIN <= s.window.x + dx && s.window.x + s.window.width <= i32::MAX,
        i32::MIN <= s.window.y + dy && s.window.y + s.window.height <= i32::MAX,
        s.window.width + dx <= i32::MAX && s.window.width - dx <= i32::MAX,
        s.window.height + dy <= i32::MAX && s.window.height - dy <= i32::MAX,
    ensures
        ({
            let v = s.window;
            let w = s.start_resize(seat, edges).apply_op_delta(dx, dy).window;
            &&& edges & 8 != 0 ==> w.x == v.x && w.proposed_width == larger(
                v.width + dx,
                v.min_width as int,
            )
            &&& edges & 4 != 0 && v.width - dx >= v.min_width ==> w.x == v.x + dx
                && w.proposed_width == v.width - dx
            &&& edges & 4 != 0 && v.width - dx < v.min_width ==> w.x == v.x + v.width - v.min_width
                && w.proposed_width == v.min_width
            &&& edges & 12 == 0 ==> w.x == v.x && w.proposed_width == v.width
            &&& edges & 2 != 0 ==> w.y == v.y && w.proposed_height == larger(
                v.height + dy,
                v.min_height as int,
            )
            &&& edges & 1 != 0 && v.height - dy >= v.min_height ==> w.y == v.y + dy
                && w.proposed_height == v.height - dy
            &&& edges & 1 != 0 && v.height - dy < v.min_height ==> w.y == v.y + v.height
                - v.min_height && w.proposed_height == v.min_height
            &&& edges & 3 == 0 ==> w.y == v.y && w.proposed_height == v.height
        }),
{
    reveal(Staged::start_resize);
    reveal(Staged::apply_op_delta);
    reveal(Staged::set_position);
    reveal(Staged::propose_dimensions);
    reveal(Staged::propose_raw);
    assert(edges & 12 == 0 ==> edges & 4 == 0 && edges & 8 == 0) by (bit_vector);
    assert(edges & 3 == 0 ==> edges & 1 == 0 && edges & 2 == 0) by (bit_vector);
}

/// After a move or a resize has ended, the pointer no longer moves or resizes the
/// window.
pub proof fn law_ended_operation_has_no_effect(s: Staged, dx: i32, dy: i32)
    ensures
        s.end_operation().window.operator is Idle,
        s.end_operation().apply_op_delta(dx, dy) == s.end_operation(),
        s.end_operation().window == (WindowView { operator: Operator::Idle, ..s.window }),
        s.window.operator is Resize ==> (s.window.rwm_window matches Some(window)
            ==> s.end_operation().requests == s.requests.push(
            Request::InformResizeEnd { window }@,
        )),
        s.window.operator !is Resize ==> s.end_operation().requests == s.requests,
{
    reveal(Staged::end_operation);
    reveal(Staged::apply_op_delta);
}

/// Being asked to close is passed on to the client of that window, and to no other;
/// no window changes.
proof fn lemma_close_asked(c: ContextView, id: WindowId, window: ObjectId)
    requires
        c.window(id) matches Some(w) && w.rwm_window == Some(window),
    ensures
        c.close_asked(id) == (ContextView {
            requests: c.requests.push(Request::Close { window }@),
            ..c
        }),
{
    reveal(ContextView::close_asked);
    reveal(Staged::close);
}

/// What a window or the frame of a window asks for happens to that window: closing is
/// passed on to its client, minimizing hides it, maximizing makes it maximized and
/// unmaximizing ends that, leaving fullscreen ends fullscreen.
pub proof fn law_wishes_of_windows_come_true(
    c: ContextView,
    id: WindowId,
    window: ObjectId,
    scale: spec_fn(i64, i32, i32) -> i32,
)
    requires
        c.window(id) matches Some(w) && w.rwm_window == Some(window),
    ensures
        c.event_handled(id, WindowEvent::Close, scale) == (ContextView {
            requests: c.requests.push(Request::Close { window }@),
            ..c
        }),
        c.focused_window != Some(id) ==> c.event_handled(
            id,
            WindowEvent::Minimize,
            scale,
        ).windows[c.window_index(id)->0].hidden,
        c.placement_output(id) is Some ==> (c.event_handled(
            id,
            WindowEvent::Maximize,
            scale,
        ).window(id) matches Some(w) && w.maximized && !(c.window(id)->0.hidden != w.hidden)),
        c.event_handled(id, WindowEvent::Unmaximize, scale).window(id) matches Some(w)
            && !w.maximized && w.snap_state is None,
        c.event_handled(id, WindowEvent::Unfullscreen, scale).window(id) matches Some(w)
            && w.fullscreen == FullscreenState::Off && w.pending_unfullscreen_restore,
        c.event_handled(id, WindowEvent::Init, scale).focused_window == Some(id),
{
    reveal(ContextView::event_handled);
    reveal(ContextView::hide_window);
    reveal(ContextView::unmaximized);
    reveal(ContextView::unfullscreened);
    reveal(ContextView::window_initialized);
    lemma_first(c.windows, is_window(id));
    let i = c.window_index(id)->0;
    lemma_close_asked(c, id, window);
    lemma_window_hidden(c, id);
    if c.placement_output(id) is Some {
        lemma_maximized(c, id);
    }
    lemma_unmaximized(c.staged(i));
    lemma_unmaximized_flags(c.staged(i));
    lemma_committed(c, id, i, c.staged(i).unmaximized());
    lemma_fullscreen_left(c.staged(i));
    lemma_committed(c, id, i, c.staged(i).fullscreen_left());
    let f = c.commit(i, c.staged(i).fullscreen_left());
    assert(c.unfullscreened(id).windows == f.windows);
    let d = c.commit(i, c.staged(i).initialized(c.config.rules@));
    law_focused_window_comes_first(d, id);
}

proof fn lemma_unmaximized_flags(s: Staged)
    ensures
        !s.unmaximized().window.maximized,
        s.unmaximized().window.snap_state is None,
        s.unmaximized().window.hidden == s.window.hidden,
        s.unmaximized().window.fullscreen == s.window.fullscreen,
{
    reveal(Staged::unmaximized);
    reveal(Staged::restore_pre_snap);
    reveal(Staged::restore);
    reveal(Staged::set_position);
    reveal(Staged::propose_dimensions);
    reveal(Staged::propose_raw);
    reveal(Staged::inform_unmaximized);
}

proof fn lemma_fullscreen_left(s: Staged)
    ensures
        s.fullscreen_left().window == (WindowView {
            fullscreen: FullscreenState::Off,
            pending_unfullscreen_restore: true,
            ..s.window
        }),
{
    reveal(Staged::fullscreen_left);
    reveal(Staged::exit_fullscreen);
}

proof fn lemma_maximized(c: ContextView, id: WindowId)
    requires
        c.window(id) is Some,
        c.placement_output(id) is Some,
    ensures
        c.maximized(id).window(id) matches Some(w) && w.maximized && w.hidden
            == c.window(id)->0.hidden,
{
    reveal(ContextView::maximized);
    lemma_following_keeps_the_place(c, id);
    lemma_first(c.windows, is_window(id));
    let d = c.output_followed(id);
    let i = c.window_index(id)->0;
    let o = c.placement_output(id)->0;
    let place = d.insets(d.windows[i]).content(o.usable_area());
    lemma_maximized_to(d.staged(i), place);
    lemma_committed(d, id, i, d.staged(i).maximized_to(place));
    reveal(Staged::maximized_to);
    reveal(Staged::restore);
    reveal(Staged::set_position);
    reveal(Staged::propose_dimensions);
    reveal(Staged::propose_raw);
    reveal(Staged::inform_maximized);
}

/// A window that asks to be resized by the pointer is resized by the edges that it
/// names, from where it is now, unless it has a fixed size or belongs to another window;
/// the compositor is told that the pointer is in use.
pub proof fn law_resizing_begins_at_the_window_as_it_is(
    c: ContextView,
    id: WindowId,
    seat: SeatId,
    edges: u32,
    scale: spec_fn(i64, i32, i32) -> i32,
)
    requires
        c.window(id) is Some,
        c.seat(seat) is Some,
    ensures
        ({
            let w = c.window(id)->0;
            let d = c.event_handled(id, WindowEvent::Resize(seat, edges), scale);
            let fixed = w.min_width > 0 && w.min_height > 0 && w.max_width == w.min_width
                && w.max_height == w.min_height;
            &&& w.parent is None && !fixed ==> {
                &&& d.window(id) matches Some(v) && v.operator == (Operator::Resize {
                    start_x: w.x,
                    start_y: w.y,
                    start_width: w.width,
                    start_height: w.height,
                    edges,
                    seat: Some(seat),
                }) && !v.maximized
                &&& c.seat(seat)->0.rwm_seat matches Some(rwm_seat) ==> d.requests.last()
                    == Request::OpStartPointer { seat: rwm_seat }@
            }
            &&& w.parent is Some || fixed ==> d == c
        }),
{
    reveal(ContextView::event_handled);
    reveal(ContextView::resize_begun);
    reveal(Staged::resize_asked);
    reveal(Staged::clear_maximized_without_restore);
    reveal(Staged::inform_unmaximized);
    reveal(Staged::start_resize);
    reveal(ContextView::pointer_op);
    lemma_first(c.windows, is_window(id));
    let i = c.window_index(id)->0;
    let s = c.staged(i).resize_asked(seat, edges);
    lemma_committed(c, id, i, s);
    let d = c.commit(i, s);
    assert(d.pointer_op(seat).windows == d.windows);
    assert(d.seat(seat) == c.seat(seat));
}

/// What waits for a window is handled in the order in which it came.
pub proof fn law_first_wish_is_handled_first(
    c: ContextView,
    id: WindowId,
    event: WindowEvent,
    rest: Seq<WindowEvent>,
    scale: spec_fn(i64, i32, i32) -> i32,
)
    ensures
        c.events_handled(id, seq![event] + rest, scale) == c.event_handled(
            id,
            event,
            scale,
        ).events_handled(id, rest, scale),
    decreases rest.len(),
{
    let all = seq![event] + rest;
    if rest.len() > 0 {
        law_first_wish_is_handled_first(c, id, event, rest.drop_last(), scale);
        assert(all.drop_last() =~= seq![event] + rest.drop_last());
        assert(all.last() == rest.last());
    } else {
        assert(all.drop_last() =~= Seq::<WindowEvent>::empty());
        assert(all.last() == event);
        assert(c.events_handled(id, all.drop_last(), scale) == c);
    }
}

/// What was asked for through a seat is done in the order in which it was asked for.
pub proof fn law_first_action_is_done_first(
    c: ContextView,
    action: ActionView,
    rest: Seq<ActionView>,
    seat: SeatId,
    scale: spec_fn(i64, i32, i32) -> i32,
)
    ensures
        c.all_acted(seq![action] + rest, seat, scale) == c.acted(action, seat, scale).all_acted(
            rest,
            seat,
            scale,
        ),
    decreases rest.len(),
{
    let all = seq![action] + rest;
    if rest.len() > 0 {
        law_first_action_is_done_first(c, action, rest.drop_last(), seat, scale);
        assert(all.drop_last() =~= seq![action] + rest.drop_last());
        assert(all.last() == rest.last());
    } else {
        assert(all.drop_last() =~= Seq::<ActionView>::empty());
        assert(all.last() == action);
        assert(c.all_acted(all.drop_last(), seat, scale) == c);
    }
}

/// The actions that start a program start the one that is configured for them, or the
/// one they name; a shell command goes to the shell.
pub proof fn law_spawning_starts_the_program_meant(
    c: ContextView,
    argv: Seq<Seq<char>>,
    cmd: Seq<char>,
    seat: SeatId,
    scale: spec_fn(i64, i32, i32) -> i32,
)
    ensures
        argv.len() > 0 ==> c.acted(ActionView::Spawn(argv), seat, scale).requests
            == c.requests.push(RequestView::Spawn(argv)),
        c.acted(ActionView::SpawnShell(cmd), seat, scale).requests == c.requests.push(
            RequestView::Spawn(seq!["sh"@, "-c"@, cmd]),
        ),
        c.config.terminal_cmd@.len() > 0 ==> c.acted(
            ActionView::Plain(Action::SpawnTerminal),
            seat,
            scale,
        ).requests == c.requests.push(RequestView::Spawn(texts(c.config.terminal_cmd@))),
        c.config.launcher_cmd@.len() > 0 ==> c.acted(
            ActionView::Plain(Action::SpawnLauncher),
            seat,
            scale,
        ).requests == c.requests.push(RequestView::Spawn(texts(c.config.launcher_cmd@))),
        c.config.lock_cmd@.len() > 0 ==> c.acted(
            ActionView::Plain(Action::SpawnLock),
            seat,
            scale,
        ).requests == c.requests.push(RequestView::Spawn(texts(c.config.lock_cmd@))),
        !c.acted(ActionView::Plain(Action::Quit), seat, scale).running,
        c.acted(ActionView::Plain(Action::ClearFocus), seat, scale).focused_window is None,
{
    reveal(ContextView::acted);
    reveal(ContextView::keyboard_focus_cleared);
    reveal(ContextView::keyboard_to_none);
}

/// Whether two windows are the same but for being fullscreen and for their outputs.
pub open spec fn same_but_fullscreen(v: WindowView, w: WindowView) -> bool {
    v == (WindowView {
        fullscreen: v.fullscreen,
        pending_unfullscreen_restore: v.pending_unfullscreen_restore,
        output: v.output,
        ..w
    })
}

proof fn lemma_leaving_moves_nothing(c: ContextView, id: WindowId, n: int)
    requires
        0 <= n <= c.windows.len(),
    ensures
        ({
            let d = c.each_window(n, leave_fullscreen(id));
            forall|i: int|
                0 <= i < c.windows.len() ==> same_but_fullscreen(
                    #[trigger] d.windows[i],
                    c.windows[i],
                )
        }),
    decreases n,
{
    lemma_each_window(c, n, leave_fullscreen(id));
    if n > 0 {
        lemma_each_window(c, n - 1, leave_fullscreen(id));
        lemma_leaving_moves_nothing(c, id, n - 1);
        let d = c.each_window(n - 1, leave_fullscreen(id));
        reveal(Staged::fullscreen_left_unless);
        lemma_fullscreen_left(d.staged(n - 1));
        assert(leave_fullscreen(id)(d.staged(n - 1)) == d.staged(n - 1).fullscreen_left_unless(id));
        assert(same_but_fullscreen(d.windows[n - 1], c.windows[n - 1]));
    }
}

/// Focusing a window neither moves nor resizes any window, nor maximizes, snaps or
/// hides one.
pub proof fn law_focusing_moves_nothing(c: ContextView, id: WindowId, i: int)
    requires
        0 <= i < c.windows.len(),
    ensures
        c.focus(id).windows.len() == c.windows.len(),
        same_but_fullscreen(c.focus(id).windows[i], c.windows[i]),
        c.focus(id).seats == c.seats,
        c.focus(id).config == c.config,
{
    reveal(ContextView::focus);
    reveal(ContextView::others_left_fullscreen);
    reveal(ContextView::keyboard_to);
    let n = c.windows.len() as int;
    lemma_each_window(c, n, leave_fullscreen(id));
    lemma_leaving_moves_nothing(c, id, n);
    let left = c.others_left_fullscreen(id);
    let first = ContextView {
        focus_stack: without(left.focus_stack, id).insert(0, id),
        focused_window: Some(id),
        ..left
    };
    let given = first.keyboard_to(id);
    lemma_assigning_moves_nothing(given, id, i);
    let followed = given.output_followed(id);
    match followed.output_for_window(id) {
        Some(output) => lemma_setting_moves_nothing(followed, id, output, i),
        None => {},
    }
}

proof fn lemma_setting_moves_nothing(c: ContextView, id: WindowId, output: OutputId, i: int)
    requires
        0 <= i < c.windows.len(),
    ensures
        ({
            let d = c.window_output_set(id, output);
            &&& d.windows.len() == c.windows.len()
            &&& d.windows[i] == (WindowView { output: d.windows[i].output, ..c.windows[i] })
            &&& d.seats == c.seats
            &&& d.config == c.config
        }),
{
    reveal(ContextView::window_output_set);
    reveal(ContextView::default_output_set);
    lemma_first(c.windows, is_window(id));
}

proof fn lemma_assigning_moves_nothing(c: ContextView, id: WindowId, i: int)
    requires
        0 <= i < c.windows.len(),
    ensures
        ({
            let d = c.output_followed(id);
            &&& d.windows.len() == c.windows.len()
            &&& d.windows[i] == (WindowView { output: d.windows[i].output, ..c.windows[i] })
            &&& d.seats == c.seats
            &&& d.config == c.config
        }),
{
    reveal(ContextView::output_followed);
    match c.window(id) {
        Some(w) => match c.output_for_rect(w) {
            Some(output) => lemma_setting_moves_nothing(c, id, output, i),
            None => {},
        },
        None => {},
    }
}

proof fn lemma_focus_finds(c: ContextView, id: WindowId, x: WindowId)
    ensures
        c.focus(id).window_index(x) == c.window_index(x),
{
    law_focused_window_comes_first(c, id);
    lemma_same_places(c, c.focus(id), x);
}

/// A hidden window is hidden, whoever gets the focus.
proof fn lemma_hides(c: ContextView, id: WindowId)
    requires
        c.window(id) is Some,
    ensures
        c.hide_window(id).window(id) matches Some(w) && w.hidden,
{
    reveal(ContextView::hide_window);
    reveal(ContextView::focus_passed_on);
    reveal(ContextView::keyboard_focus_cleared);
    reveal(ContextView::keyboard_to_none);
    lemma_first(c.windows, is_window(id));
    lemma_window_hidden(c, id);
    let h = c.window_hidden(id);
    let i = c.window_index(id)->0;
    lemma_same_places(c, h, id);
    if c.focused_window == Some(id) {
        let p = h.focus_passed_on(id);
        if p.windows != h.windows {
            let heir = p.focused_window->0;
            let output = if h.current_output is Some && h.output_index(h.current_output->0) is Some {
                h.current_output
            } else {
                h.live_output(h.windows[i])
            };
            let next = h.heir(output->0)->0;
            law_focusing_moves_nothing(h, next, i);
            lemma_focus_finds(h, next, id);
        }
    }
}

/// The actions on the focused window act on that window: closing is passed on to its
/// client, hiding hides it, maximizing maximizes it, and snapping to a side snaps it to
/// that side.
pub proof fn law_actions_act_on_the_focused_window(
    c: ContextView,
    id: WindowId,
    window: ObjectId,
    seat: SeatId,
    scale: spec_fn(i64, i32, i32) -> i32,
)
    requires
        c.focused_window == Some(id),
        c.window(id) matches Some(w) && w.rwm_window == Some(window),
        c.placement_output(id) is Some,
        c.window(id)->0.snap_state is None,
    ensures
        c.acted(ActionView::Plain(Action::Close), seat, scale) == (ContextView {
            requests: c.requests.push(Request::Close { window }@),
            ..c
        }),
        c.acted(ActionView::Plain(Action::HideFocused), seat, scale).window(id) matches Some(w)
            && w.hidden,
        c.acted(ActionView::Plain(Action::MaximizeFocused), seat, scale).window(id) matches Some(w)
            && w.maximized,
        c.acted(
            ActionView::Plain(Action::SmartSnapHalf { side: SnapSide::Left }),
            seat,
            scale,
        ).window(id) matches Some(w) && w.snap_state == Some(SnapState::Left),
        c.acted(
            ActionView::Plain(Action::SmartSnapHalf { side: SnapSide::Right }),
            seat,
            scale,
        ).window(id) matches Some(w) && w.snap_state == Some(SnapState::Right),
{
    reveal(ContextView::acted);
    reveal(ContextView::window_acted);
    lemma_close_asked(c, id, window);
    lemma_hides(c, id);
    lemma_maximized(c, id);
    lemma_snaps(c, id, SnapSide::Left);
    lemma_snaps(c, id, SnapSide::Right);
}

proof fn lemma_snaps(c: ContextView, id: WindowId, side: SnapSide)
    requires
        c.window(id) is Some,
        c.placement_output(id) is Some,
        c.window(id)->0.snap_state is None,
    ensures
        c.snapped_half(id, side).window(id) matches Some(w) && w.snap_state == Some(
            (match side {
                SnapSide::Left => SnapState::Left,
                SnapSide::Right => SnapState::Right,
            }),
        ),
{
    reveal(ContextView::snapped_half);
    lemma_following_keeps_the_place(c, id);
    lemma_first(c.windows, is_window(id));
    let d = c.output_followed(id);
    let i = c.window_index(id)->0;
    let o = c.placement_output(id)->0;
    let place = d.insets(d.windows[i]).content(half(o.usable_area(), side));
    lemma_snapped(d.staged(i), snapped_to(side), place, d.rwm);
    lemma_committed(d, id, i, d.staged(i).snapped(snapped_to(side), place, d.rwm));
}

/// Hiding step by step: a fullscreen window only leaves fullscreen, else a maximized one
/// is only made smaller again, and any other is hidden.
pub proof fn law_smart_hiding_takes_one_step(
    c: ContextView,
    id: WindowId,
    seat: SeatId,
    scale: spec_fn(i64, i32, i32) -> i32,
)
    requires
        c.focused_window == Some(id),
        c.window(id) is Some,
    ensures
        ({
            let w = c.window(id)->0;
            let d = c.acted(ActionView::Plain(Action::SmartHideFocused), seat, scale);
            &&& w.fullscreen != FullscreenState::Off ==> (d.window(id) matches Some(v)
                && v.fullscreen == FullscreenState::Off && v.hidden == w.hidden && v.maximized
                == w.maximized)
            &&& w.fullscreen == FullscreenState::Off && w.maximized ==> (d.window(id) matches Some(v)
                && !v.maximized && v.hidden == w.hidden)
            &&& w.fullscreen == FullscreenState::Off && !w.maximized ==> (d.window(
                id,
            ) matches Some(v) && v.hidden)
        }),
{
    reveal(ContextView::acted);
    reveal(ContextView::window_acted);
    reveal(ContextView::smart_hidden);
    reveal(ContextView::unfullscreened);
    reveal(ContextView::unmaximized);
    lemma_first(c.windows, is_window(id));
    let i = c.window_index(id)->0;
    lemma_hides(c, id);
    lemma_unmaximized(c.staged(i));
    lemma_unmaximized_flags(c.staged(i));
    lemma_committed(c, id, i, c.staged(i).unmaximized());
    lemma_fullscreen_left(c.staged(i));
    lemma_committed(c, id, i, c.staged(i).fullscreen_left());
    let f = c.commit(i, c.staged(i).fullscreen_left());
    assert(c.unfullscreened(id).windows == f.windows);
}

/// The other actions on windows, outputs and modes do what they are named for, in the
/// direction that they name.
pub proof fn law_actions_keep_their_direction(
    c: ContextView,
    direction: Direction,
    mode: Mode,
    seat: SeatId,
    scale: spec_fn(i64, i32, i32) -> i32,
)
    ensures
        c.acted(ActionView::Plain(Action::FocusIter { direction }), seat, scale) == c.focus_iter(
            direction,
        ),
        c.acted(ActionView::Plain(Action::FocusOutputIter { direction }), seat, scale)
            == c.focus_output_iter(direction),
        c.acted(ActionView::Plain(Action::SendToOutput { direction }), seat, scale)
            == c.sent_to_output(direction, scale),
        c.acted(ActionView::Plain(Action::RestoreFocus), seat, scale) == c.focus_restored(),
        c.seat(seat) matches Some(s) ==> (c.acted(
            ActionView::Plain(Action::SwitchMode { mode }),
            seat,
            scale,
        ).seats[c.seat_index(seat)->0].mode == mode),
{
    reveal(ContextView::acted);
    reveal(ContextView::mode_switched);
    reveal(StagedSeat::switch_mode);
    lemma_first(c.seats, is_seat(seat));
}

/// Starting to move or resize with the pointer takes the window below the pointer, which
/// is focused. A move starts from where the window is. A resize starts from the window as
/// it is and takes the edges on the sides of its centre that the pointer is on.
pub proof fn law_pointer_takes_the_window_below_it(
    c: ContextView,
    id: WindowId,
    seat: SeatId,
    scale: spec_fn(i64, i32, i32) -> i32,
)
    requires
        c.window(id) is Some,
        c.seat(seat) matches Some(s) && s.window_below_pointer == Some(id),
        c.window(id)->0.width >= 0,
        c.window(id)->0.height >= 0,
        !c.window(id)->0.maximized,
        c.window(id)->0.snap_state is None,
        c.window(id)->0.parent is None,
        c.window(id)->0.min_width == 0,
    ensures
        ({
            let w = c.window(id)->0;
            let s = c.seat(seat)->0;
            let moved = c.acted(ActionView::Plain(Action::PointerMove), seat, scale);
            let resized = c.acted(ActionView::Plain(Action::PointerResize), seat, scale);
            &&& moved.focused_window == Some(id)
            &&& moved.window(id) matches Some(v) && v.operator == (Operator::Move {
                start_x: w.x,
                start_y: w.y,
                seat: Some(seat),
            })
            &&& resized.focused_window == Some(id)
            &&& resized.window(id) matches Some(v) && (v.operator matches Operator::Resize {
                start_x,
                start_y,
                start_width,
                start_height,
                edges,
                seat: dragger,
            } && {
                &&& start_x == w.x && start_y == w.y
                &&& start_width == w.width && start_height == w.height
                &&& dragger == Some(seat)
                &&& (s.pointer_x - w.x) * 2 >= w.width ==> edges == 9 || edges == 10
                &&& (s.pointer_x - w.x) * 2 + 1 < w.width ==> edges == 5 || edges == 6
                &&& (s.pointer_y - w.y) * 2 >= w.height ==> edges == 6 || edges == 10
                &&& (s.pointer_y - w.y) * 2 + 1 < w.height ==> edges == 5 || edges == 9
            })
        }),
{
    reveal(ContextView::acted);
    reveal(ContextView::pointer_move_started);
    reveal(ContextView::pointer_resize_started);
    lemma_first(c.windows, is_window(id));
    let i = c.window_index(id)->0;
    law_focused_window_comes_first(c, id);
    law_focusing_moves_nothing(c, id, i);
    lemma_focus_finds(c, id, id);
    let f = c.focus(id);
    assert(f.seat(seat) == c.seat(seat));
    lemma_move_started(f, id, seat, scale);
    lemma_corner_grabbed(f, id, seat);
}

proof fn lemma_move_started(
    c: ContextView,
    id: WindowId,
    seat: SeatId,
    scale: spec_fn(i64, i32, i32) -> i32,
)
    requires
        c.window(id) is Some,
        c.seat(seat) is Some,
        !c.window(id)->0.maximized,
        c.window(id)->0.snap_state is None,
    ensures
        ({
            let d = c.move_started(id, seat, true, scale);
            &&& d.focused_window == c.focused_window
            &&& d.window(id) matches Some(v) && v.operator == (Operator::Move {
                start_x: c.window(id)->0.x,
                start_y: c.window(id)->0.y,
                seat: Some(seat),
            })
        }),
{
    reveal(ContextView::move_started);
    reveal(ContextView::pointer_op);
    reveal(Staged::move_started);
    reveal(Staged::unmaximized_for_move);
    reveal(Staged::start_move);
    lemma_first(c.windows, is_window(id));
    let i = c.window_index(id)->0;
    let s = c.seat(seat)->0;
    let t = c.staged(i).move_started(seat, s.pointer_x, s.pointer_y, true, scale);
    lemma_committed(c, id, i, t);
    let d = c.commit(i, t);
    assert(d.pointer_op(seat).windows == d.windows);
}

proof fn lemma_corner_grabbed(c: ContextView, id: WindowId, seat: SeatId)
    requires
        c.window(id) is Some,
        c.seat(seat) is Some,
        c.window(id)->0.resizable(),
    ensures
        ({
            let d = c.corner_grabbed(id, seat);
            let w = c.window(id)->0;
            let s = c.seat(seat)->0;
            &&& d.focused_window == c.focused_window
            &&& d.window(id) matches Some(v) && v.operator == (Operator::Resize {
                start_x: w.x,
                start_y: w.y,
                start_width: w.width,
                start_height: w.height,
                edges: resize_edges(w, s.pointer_x, s.pointer_y),
                seat: Some(seat),
            })
        }),
{
    reveal(ContextView::corner_grabbed);
    reveal(ContextView::pointer_op);
    reveal(ContextView::cursor_updated);
    reveal(Staged::resize_grabbed);
    reveal(Staged::clear_maximized_without_restore);
    reveal(Staged::inform_unmaximized);
    reveal(Staged::start_resize);
    lemma_first(c.windows, is_window(id));
    let i = c.window_index(id)->0;
    let s = c.seat(seat)->0;
    let w = c.windows[i];
    let edges = resize_edges(w, s.pointer_x, s.pointer_y);
    let t = c.staged(i).with(WindowView { snap_state: None, ..w }).resize_grabbed(seat, edges);
    lemma_committed(c, id, i, t);
    let d = c.commit(i, t);
    assert(d.pointer_op(seat).windows == d.windows);
    assert(d.pointer_op(seat).cursor_updated(seat).windows == d.windows);
}

/// A titlebar is grabbed on itself and not on its buttons: right of the close button and left of
/// the other two, and in the gap between those. The titlebar of a dialog is grabbed anywhere right of
/// the close button.
pub proof fn law_titlebar_is_grabbed_beside_its_buttons(w: WindowView, height: i32, px: i32, py: i32)
    requires
        height >= 1,
        w.width >= height * 3 + 1,
        w.swallow_top <= 0,
        0 <= px - w.x < w.width,
        w.y - height <= py < w.y,
        w.min_width == 0,
    ensures
        ({
            let across = px - w.x;
            &&& w.parent is None ==> (grabs_titlebar(w, height, px, py) <==> height <= across
                < w.width - 2 * height - 1 || across == w.width - height - 1)
            &&& w.parent is Some ==> (grabs_titlebar(w, height, px, py) <==> height <= across)
        }),
{
}

/// A click on the frame of a window takes the edges that the pointer is close to and resizes by them.
/// Away from the edges a click on the titlebar moves the window, where the window manager drew one. A
/// click elsewhere does neither.
pub proof fn law_click_on_the_frame_drags_the_window(
    c: ContextView,
    id: WindowId,
    seat: SeatId,
    scale: spec_fn(i64, i32, i32) -> i32,
)
    requires
        c.window(id) is Some,
        c.seat(seat) is Some,
        c.window(id)->0.swallow_top <= 0,
        !c.window(id)->0.maximized,
        c.window(id)->0.snap_state is None,
    ensures
        ({
            let w = c.window(id)->0;
            let s = c.seat(seat)->0;
            let border = c.config.ui.border_width;
            let bar = spec_titlebar_height(c.config.ui.font_size);
            let fixed = w.min_width > 0 && w.min_height > 0 && w.max_width == w.min_width
                && w.max_height == w.min_height;
            let near = edges_near_border(
                w.x - border,
                w.y - border - bar,
                w.width + border * 2,
                w.height + border * 2 + bar,
                border as int,
                s.pointer_x as int,
                s.pointer_y as int,
            );
            let edges = if w.parent is None && !fixed {
                near
            } else {
                0
            };
            let on_bar = w.decoration == Some(WindowDecoration::Ssd) && grabs_titlebar(
                w,
                bar,
                s.pointer_x,
                s.pointer_y,
            );
            let d = c.window_interaction(seat, id, scale);
            &&& edges != 0 ==> (d.window(id) matches Some(v) && v.operator == (Operator::Resize {
                start_x: w.x,
                start_y: w.y,
                start_width: w.width,
                start_height: w.height,
                edges,
                seat: Some(seat),
            }))
            &&& edges == 0 && on_bar ==> (d.window(id) matches Some(v) && v.operator == (
            Operator::Move { start_x: w.x, start_y: w.y, seat: Some(seat) }))
            &&& edges == 0 && !on_bar ==> d == c
        }),
{
    reveal(ContextView::window_interaction);
    let w = c.window(id)->0;
    let s = c.seat(seat)->0;
    let edges = c.frame_edges(w, 0, s.pointer_x, s.pointer_y);
    lemma_edges_grabbed(c, id, seat, edges);
    lemma_dragged_by_the_titlebar(c, id, seat, scale);
}

proof fn lemma_edges_grabbed(c: ContextView, id: WindowId, seat: SeatId, edges: u32)
    requires
        c.window(id) is Some,
    ensures
        c.edges_grabbed(id, seat, edges).window(id) matches Some(v) && v.operator == (
        Operator::Resize {
            start_x: c.window(id)->0.x,
            start_y: c.window(id)->0.y,
            start_width: c.window(id)->0.width,
            start_height: c.window(id)->0.height,
            edges,
            seat: Some(seat),
        }),
{
    reveal(ContextView::edges_grabbed);
    reveal(ContextView::pointer_op);
    reveal(ContextView::cursor_updated);
    reveal(Staged::resize_grabbed);
    reveal(Staged::clear_maximized_without_restore);
    reveal(Staged::inform_unmaximized);
    reveal(Staged::start_resize);
    lemma_first(c.windows, is_window(id));
    let i = c.window_index(id)->0;
    let t = c.staged(i).resize_grabbed(seat, edges);
    lemma_committed(c, id, i, t);
    let d = c.commit(i, t);
    assert(d.pointer_op(seat).windows == d.windows);
    assert(d.pointer_op(seat).cursor_updated(seat).windows == d.windows);
}

proof fn lemma_dragged_by_the_titlebar(
    c: ContextView,
    id: WindowId,
    seat: SeatId,
    scale: spec_fn(i64, i32, i32) -> i32,
)
    requires
        c.window(id) is Some,
        c.seat(seat) is Some,
        !c.window(id)->0.maximized,
        c.window(id)->0.snap_state is None,
    ensures
        c.move_started(id, seat, false, scale).window(id) matches Some(v) && v.operator == (
        Operator::Move {
            start_x: c.window(id)->0.x,
            start_y: c.window(id)->0.y,
            seat: Some(seat),
        }),
{
    reveal(ContextView::move_started);
    reveal(ContextView::pointer_op);
    reveal(Staged::move_started);
    reveal(Staged::unmaximized_for_move);
    reveal(Staged::start_move);
    lemma_first(c.windows, is_window(id));
    let i = c.window_index(id)->0;
    let s = c.seat(seat)->0;
    let t = c.staged(i).move_started(seat, s.pointer_x, s.pointer_y, false, scale);
    lemma_committed(c, id, i, t);
    let d = c.commit(i, t);
    assert(d.pointer_op(seat).windows == d.windows);
}

/// Over the border of a window that can be resized the pointer has the shape of the edges that it would
/// grab; while it drags a window by its edges it has the shape of those.
pub proof fn law_pointer_shows_what_it_would_grab(
    c: ContextView,
    seat: SeatId,
    id: WindowId,
    device: ObjectId,
    edges: u32,
)
    requires
        c.window_menu_mode is None,
        c.seat(seat) matches Some(s) && s.cursor_shape_device == Some(device) && s.pointer_enter_serial
            != 0,
        edges != 0,
        shape_for_edges(edges) is Some,
        ({
            let w = c.window(id)->0;
            let s = c.seat(seat)->0;
            let border = c.config.ui.border_width;
            let bar = spec_titlebar_height(c.config.ui.font_size);
            ||| c.window(id) is Some && c.focused_window is None && s.window_below_pointer == Some(id)
                && w.parent is None && w.min_width == 0 && edges == edges_near_border(
                w.x - border,
                w.y - border - bar,
                w.width + border * 2,
                w.height + border * 2 + bar,
                border as int,
                s.pointer_x as int,
                s.pointer_y as int,
            )
            ||| c.window(id) is Some && c.focused_window == Some(id) && (
            w.operator matches Operator::Resize { edges: dragged, seat: dragger, .. } && dragged
                == edges && dragger == Some(seat))
        }),
    ensures
        c.cursor_updated(seat).seats[c.seat_index(seat)->0].cursor_shape == shape_for_edges(edges),
{
    reveal(ContextView::cursor_updated);
    reveal(ContextView::cursor_edges);
    reveal(StagedSeat::set_cursor_shape);
    lemma_first(c.seats, is_seat(seat));
}

} // verus!
