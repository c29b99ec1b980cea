//! What the reports of the compositor lead to.

use vstd::prelude::*;
use crate::binding::action::ActionView;
use crate::binding::{Action, BindingEvent};
use crate::canoe::context::action_laws::law_focusing_moves_nothing;
use crate::canoe::context::laws::law_focused_window_comes_first;
use crate::canoe::context::place_laws::lemma_committed;
use crate::canoe::context::{is_output, is_seat, is_window, ContextView};
use crate::canoe::output::OutputView;
use crate::canoe::seat::{SeatView, StagedSeat};
use crate::canoe::window::{Staged, WindowEvent, WindowView};
use crate::canoe::{SeatId, WindowId};
use crate::config::WindowDecoration;
use crate::dispatch::frame::{largest_scale, FrameStep};
use crate::dispatch::globals::GlobalsView;
use crate::dispatch::output::OutputReport;
use crate::dispatch::seat::{LayerFocus, SeatReport};
use crate::dispatch::window::{is_rwm_output, is_rwm_seat, is_rwm_window, WindowReport};
use crate::protocol::ObjectId;
use crate::search::{lemma_first, lemma_first_is};
use crate::text::opt_text;

verus! {

/// Whether the window at a place of the table, and no other, is behind a protocol object and
/// has its id.
pub open spec fn only_window(c: ContextView, i: int, object: ObjectId) -> bool {
    &&& 0 <= i < c.windows.len()
    &&& c.windows[i].rwm_window == Some(object)
    &&& forall|j: int|
        0 <= j < c.windows.len() && j != i ==> (#[trigger] c.windows[j]).rwm_window != Some(object)
            && c.windows[j].id != c.windows[i].id
}

proof fn lemma_only_window(c: ContextView, i: int, object: ObjectId)
    requires
        only_window(c, i, object),
    ensures
        c.window_of(object) == Some(c.windows[i].id),
        c.window_index(c.windows[i].id) == Some(i),
{
    lemma_first_is(c.windows, is_rwm_window(object), i);
    lemma_first_is(c.windows, is_window(c.windows[i].id), i);
}

/// What a client asks for waits to be handled for its window: moving, resizing, fullscreen,
/// maximizing, minimizing, each as it was asked for and behind what was asked before.
pub proof fn law_wishes_of_clients_are_queued(c: ContextView, i: int, object: ObjectId)
    requires
        only_window(c, i, object),
    ensures
        ({
            let events = |report: WindowReport|
                c.window_reported(object, report).windows[i].unhandled_events;
            let before = c.windows[i].unhandled_events;
            &&& events(WindowReport::MaximizeRequested) == before + seq![WindowEvent::Maximize]
            &&& events(WindowReport::UnmaximizeRequested) == before + seq![WindowEvent::Unmaximize]
            &&& events(WindowReport::MinimizeRequested) == before + seq![WindowEvent::Minimize]
            &&& events(WindowReport::ExitFullscreenRequested) == before + seq![
                WindowEvent::Unfullscreen,
            ]
            &&& events(WindowReport::FullscreenRequested { output: None }) == before + seq![
                WindowEvent::Fullscreen(None),
            ]
        }),
{
    lemma_wish(c, i, object, WindowReport::MaximizeRequested, WindowEvent::Maximize);
    lemma_wish(c, i, object, WindowReport::UnmaximizeRequested, WindowEvent::Unmaximize);
    lemma_wish(c, i, object, WindowReport::MinimizeRequested, WindowEvent::Minimize);
    lemma_wish(c, i, object, WindowReport::ExitFullscreenRequested, WindowEvent::Unfullscreen);
    lemma_wish(
        c,
        i,
        object,
        WindowReport::FullscreenRequested { output: None },
        WindowEvent::Fullscreen(None),
    );
}

proof fn lemma_wish(c: ContextView, i: int, object: ObjectId, report: WindowReport, event: WindowEvent)
    requires
        only_window(c, i, object),
        report is MaximizeRequested || report is UnmaximizeRequested || report is MinimizeRequested
            || report is ExitFullscreenRequested || report is FullscreenRequested,
        c.wished(report) == Some(event),
    ensures
        c.window_reported(object, report).windows[i].unhandled_events
            == c.windows[i].unhandled_events + seq![event],
{
    reveal(ContextView::window_reported);
    reveal(ContextView::event_queued);
    lemma_only_window(c, i, object);
    let before = c.windows[i].unhandled_events;
    assert(before.push(event) =~= before + seq![event]);
}

/// A client that asks to be moved or resized with the pointer of a seat is moved or resized
/// with that seat, and by the edges that it names.
pub proof fn law_dragging_wishes_name_their_seat(
    c: ContextView,
    i: int,
    object: ObjectId,
    j: int,
    seat: ObjectId,
    edges: u32,
)
    requires
        only_window(c, i, object),
        0 <= j < c.seats.len(),
        c.seats[j].rwm_seat == Some(seat),
        forall|k: int|
            0 <= k < c.seats.len() && k != j ==> (#[trigger] c.seats[k]).rwm_seat != Some(seat),
    ensures
        ({
            let moving = c.window_reported(object, WindowReport::PointerMoveRequested { seat });
            let resizing = c.window_reported(
                object,
                WindowReport::PointerResizeRequested { seat, edges },
            );
            &&& moving.windows[i].unhandled_events == c.windows[i].unhandled_events + seq![
                WindowEvent::Move(c.seats[j].id),
            ]
            &&& resizing.windows[i].unhandled_events == c.windows[i].unhandled_events + seq![
                WindowEvent::Resize(c.seats[j].id, edges),
            ]
        }),
{
    reveal(ContextView::window_reported);
    reveal(ContextView::event_queued);
    lemma_only_window(c, i, object);
    lemma_first_is(c.seats, is_rwm_seat(seat), j);
    let before = c.windows[i].unhandled_events;
    assert forall|event: WindowEvent| #[trigger] before.push(event) == before + seq![event] by {
        assert(before.push(event) =~= before + seq![event]);
    }
}

/// What is reported about the size of a window is what is known of it from then on, and only
/// that changes. A size that is reported is what fullscreen goes back to, unless the window is
/// fullscreen.
pub proof fn law_sizes_are_remembered(c: ContextView, i: int, object: ObjectId, width: i32, height: i32)
    requires
        only_window(c, i, object),
    ensures
        ({
            let d = c.window_reported(object, WindowReport::Dimensions { width, height });
            let w = c.windows[i];
            let v = d.windows[i];
            &&& v.width == width && v.height == height
            &&& v == (WindowView { width, height, pre_fullscreen: v.pre_fullscreen, ..w })
            &&& w.fullscreen is Off && !w.pending_unfullscreen_restore ==> (
            v.pre_fullscreen matches Some(saved) && saved.width == width && saved.height == height
                && saved.x == w.x && saved.y == w.y)
            &&& !(w.fullscreen is Off) ==> v.pre_fullscreen == w.pre_fullscreen
            &&& forall|k: int|
                0 <= k < c.windows.len() && k != i ==> #[trigger] d.windows[k] == c.windows[k]
        }),
{
    reveal(ContextView::window_reported);
    reveal(ContextView::fact_reported);
    reveal(WindowView::noted);
    lemma_only_window(c, i, object);
}

/// The limits that are reported for the size of a window are those of the window from then on.
pub proof fn law_size_limits_are_remembered(
    c: ContextView,
    i: int,
    object: ObjectId,
    min_width: i32,
    min_height: i32,
    max_width: i32,
    max_height: i32,
)
    requires
        only_window(c, i, object),
    ensures
        c.window_reported(
            object,
            WindowReport::DimensionsHint { min_width, min_height, max_width, max_height },
        ).windows[i] == (WindowView {
            min_width,
            min_height,
            max_width,
            max_height,
            ..c.windows[i]
        }),
{
    reveal(ContextView::window_reported);
    reveal(ContextView::fact_reported);
    reveal(WindowView::noted);
    lemma_only_window(c, i, object);
}

/// A title or an application that is reported is that of the window from then on.
pub proof fn law_names_are_remembered(c: ContextView, i: int, object: ObjectId, text: Option<String>)
    requires
        only_window(c, i, object),
    ensures
        c.window_reported(object, WindowReport::Title { title: text }).windows[i].title == opt_text(
            text,
        ),
        c.window_reported(object, WindowReport::Title { title: text }).windows[i].app_id
            == c.windows[i].app_id,
        c.window_reported(object, WindowReport::AppId { app_id: text }).windows[i].app_id
            == opt_text(text),
        c.window_reported(object, WindowReport::AppId { app_id: text }).windows[i].title
            == c.windows[i].title,
{
    lemma_only_window(c, i, object);
    lemma_named(c, i, WindowReport::Title { title: text });
    lemma_named(c, i, WindowReport::AppId { app_id: text });
    reveal(ContextView::window_reported);
}

proof fn lemma_named(c: ContextView, i: int, report: WindowReport)
    requires
        0 <= i < c.windows.len(),
        c.window_index(c.windows[i].id) == Some(i),
        report is Title || report is AppId,
    ensures
        ({
            let d = c.fact_reported(c.windows[i].id, report).rules_applied_to(c.windows[i].id);
            &&& d.windows[i].title == c.windows[i].noted(report, None).title
            &&& d.windows[i].app_id == c.windows[i].noted(report, None).app_id
            &&& d.windows[i].title == (match report {
                WindowReport::Title { title } => opt_text(title),
                _ => c.windows[i].title,
            })
            &&& d.windows[i].app_id == (match report {
                WindowReport::AppId { app_id } => opt_text(app_id),
                _ => c.windows[i].app_id,
            })
        }),
{
    reveal(ContextView::fact_reported);
    reveal(WindowView::noted);
    reveal(ContextView::rules_applied_to);
    reveal(Staged::ruled);
    reveal(Staged::set_capabilities);
    let id = c.windows[i].id;
    let e = c.fact_reported(id, report);
    lemma_first(c.windows, is_window(id));
    assert(is_window(id)(e.windows[i]));
    assert forall|k: int| 0 <= k < i implies !is_window(id)(#[trigger] e.windows[k]) by {
        assert(!is_window(id)(c.windows[k]));
    }
    lemma_first_is(e.windows, is_window(id), i);
}

/// The place and the size that are reported of an output are known of it from then on, and of no
/// other one.
pub proof fn law_outputs_are_where_they_are_reported(
    c: ContextView,
    k: int,
    object: ObjectId,
    a: i32,
    b: i32,
    g: GlobalsView,
)
    requires
        0 <= k < c.outputs.len(),
        c.outputs[k].rwm_output == Some(object),
        forall|j: int|
            0 <= j < c.outputs.len() && j != k ==> (#[trigger] c.outputs[j]).rwm_output != Some(
                object,
            ) && c.outputs[j].id != c.outputs[k].id,
    ensures
        c.output_reported(object, OutputReport::Position { x: a, y: b }, g).outputs
            == c.outputs.update(k, OutputView { x: a, y: b, ..c.outputs[k] }),
        c.output_reported(object, OutputReport::Dimensions { width: a, height: b }, g).outputs
            == c.outputs.update(k, OutputView { width: a, height: b, ..c.outputs[k] }),
{
    reveal(ContextView::output_reported);
    lemma_first_is(c.outputs, is_rwm_output(object), k);
    lemma_first_is(c.outputs, is_output(c.outputs[k].id), k);
}

/// The area that is left free on an output is used as reported where it begins on the output;
/// else it counts from the corner of the output. In both cases it keeps its size, and windows use
/// it from then on.
pub proof fn law_free_area_lies_on_its_output(
    c: ContextView,
    k: int,
    x: i32,
    y: i32,
    width: i32,
    height: i32,
)
    requires
        0 <= k < c.outputs.len(),
        forall|j: int|
            0 <= j < c.outputs.len() && j != k ==> (#[trigger] c.outputs[j]).id != c.outputs[k].id,
        i32::MIN <= x + c.outputs[k].x <= i32::MAX,
        i32::MIN <= y + c.outputs[k].y <= i32::MAX,
    ensures
        ({
            let o = c.outputs[k];
            let p = c.area_reported(o.id, x, y, width, height).outputs[k];
            let inside = o.x <= x < o.x + o.width && o.y <= y < o.y + o.height;
            &&& inside ==> p.usable_area() == (x, y, width, height)
            &&& !inside ==> p.usable_area() == (
                (o.x + x) as i32,
                (o.y + y) as i32,
                width,
                height,
            )
            &&& o.exclusive_area is None ==> o.usable_area() == (o.x, o.y, o.width, o.height)
        }),
{
    reveal(ContextView::area_reported);
    lemma_first_is(c.outputs, is_output(c.outputs[k].id), k);
}

/// While the pointer drags the focused window, its place follows the pointer; once released, it
/// stays, and the compositor is told that the drag is over.
pub proof fn law_drag_moves_the_focused_window(
    c: ContextView,
    id: WindowId,
    seat: SeatId,
    dx: i32,
    dy: i32,
    scale: spec_fn(i64, i32, i32) -> i32,
    g: GlobalsView,
)
    requires
        c.seat(seat) is Some,
        c.focused_window == Some(id),
        c.window(id) matches Some(w) && w.operator is Move,
        i32::MIN <= c.window(id)->0.operator->Move_start_x + dx <= i32::MAX,
        i32::MIN <= c.window(id)->0.operator->Move_start_y + dy <= i32::MAX,
    ensures
        ({
            let w = c.window(id)->0;
            let d = c.seat_reported(seat, SeatReport::OpDelta { dx, dy }, scale, g);
            &&& d.window(id) matches Some(v) && v.x == w.operator->Move_start_x + dx && v.y
                == w.operator->Move_start_y + dy && v.operator == w.operator
            &&& d.focused_window == Some(id)
        }),
        c.op_ended().window(id) matches Some(v) && v.operator is Idle && v.x == c.window(id)->0.x,
{
    reveal(ContextView::seat_reported);
    reveal(ContextView::op_moved);
    reveal(ContextView::op_ended);
    reveal(Staged::apply_op_delta);
    reveal(Staged::set_position);
    reveal(Staged::end_operation);
    lemma_first(c.windows, is_window(id));
    let i = c.window_index(id)->0;
    lemma_committed(c, id, i, c.staged(i).apply_op_delta(dx, dy));
    lemma_committed(c, id, i, c.staged(i).end_operation());
}

/// A surface that takes the keyboard for itself has the focus cleared; when it gives the
/// keyboard back, the focus is restored. Nothing is restored that was not taken.
pub proof fn law_layers_borrow_the_keyboard(c: ContextView, seat: SeatId)
    requires
        c.seat(seat) is Some,
    ensures
        ({
            let j = c.seat_index(seat)->0;
            let s = c.seats[j];
            let taken = c.layer_focus_changed(seat, LayerFocus::Exclusive).seats[j];
            let given = c.layer_focus_changed(seat, LayerFocus::Nothing).seats[j];
            let shared = c.layer_focus_changed(seat, LayerFocus::NonExclusive).seats[j];
            &&& taken.focus_exclusive
            &&& taken.unhandled_actions == s.unhandled_actions + seq![
                ActionView::Plain(Action::ClearFocus),
            ]
            &&& !given.focus_exclusive
            &&& s.focus_exclusive ==> given.unhandled_actions == s.unhandled_actions + seq![
                ActionView::Plain(Action::RestoreFocus),
            ]
            &&& !s.focus_exclusive ==> given == s
            &&& !shared.focus_exclusive && shared.unhandled_actions == s.unhandled_actions
        }),
{
    reveal(ContextView::layer_focus_changed);
    lemma_first(c.seats, is_seat(seat));
    let j = c.seat_index(seat)->0;
    let before = c.seats[j].unhandled_actions;
    assert forall|action: ActionView| #[trigger] before.push(action) == before + seq![action] by {
        assert(before.push(action) =~= before + seq![action]);
    }
}

/// A key or a button does what it is bound to, when it goes down or when it goes up as its
/// binding says, and only while the binding is enabled.
pub proof fn law_bindings_fire_when_they_should(
    c: ContextView,
    seat: SeatId,
    index: int,
    event: BindingEvent,
    scale: spec_fn(i64, i32, i32) -> i32,
    g: GlobalsView,
)
    requires
        c.seat(seat) matches Some(s) && 0 <= index < s.xkb_bindings.len() && 0 <= index
            < s.pointer_bindings.len(),
    ensures
        ({
            let j = c.seat_index(seat)->0;
            let key = c.seats[j].xkb_bindings[index].0;
            let button = c.seats[j].pointer_bindings[index].0;
            let pressed = c.key_reported(seat, index, event, scale, g);
            let clicked = c.button_reported(seat, index, event);
            let before = c.seats[j].unhandled_actions;
            &&& !key.enabled || key.event != event ==> pressed == c
            &&& key.enabled && key.event == event && key.action == ActionView::Plain(Action::Close)
                ==> pressed.seats[j].unhandled_actions == before + seq![key.action]
            &&& key.enabled && key.event == event && key.action is Spawn
                ==> pressed.seats[j].unhandled_actions == before + seq![key.action]
            &&& key.enabled && key.event == event && event is Released
                ==> pressed.seats[j].unhandled_actions == before + seq![key.action]
            &&& !button.enabled || button.event != event ==> clicked == c
            &&& button.enabled && button.event == event ==> clicked.seats[j].unhandled_actions
                == before + seq![button.action]
        }),
{
    reveal(ContextView::key_reported);
    reveal(ContextView::key_acted);
    reveal(ContextView::button_reported);
    reveal(ContextView::action_queued);
    lemma_first(c.seats, is_seat(seat));
    let j = c.seat_index(seat)->0;
    let before = c.seats[j].unhandled_actions;
    assert forall|action: ActionView| #[trigger] before.push(action) == before + seq![action] by {
        assert(before.push(action) =~= before + seq![action]);
    }
}

/// The scale for a surface on several outputs is the largest of theirs, and at least one.
pub proof fn law_largest_scale_is_taken(names: Seq<u32>, g: GlobalsView)
    ensures
        largest_scale(names, g) >= 1,
        forall|i: int|
            0 <= i < names.len() ==> largest_scale(names, g) >= g.scale_of(#[trigger] names[i]),
        largest_scale(names, g) == 1 || exists|i: int|
            0 <= i < names.len() && largest_scale(names, g) == g.scale_of(#[trigger] names[i]),
    decreases names.len(),
{
    if names.len() > 0 {
        let rest = names.drop_last();
        law_largest_scale_is_taken(rest, g);
        assert forall|i: int| 0 <= i < names.len() implies largest_scale(names, g) >= g.scale_of(
            #[trigger] names[i],
        ) by {
            if i < rest.len() {
                assert(rest[i] == names[i]);
            }
        }
        if largest_scale(names, g) == largest_scale(rest, g) {
            if largest_scale(rest, g) != 1 {
                let i = choose|i: int|
                    0 <= i < rest.len() && largest_scale(rest, g) == g.scale_of(#[trigger] rest[i]);
                assert(names[i] == rest[i]);
            }
        } else {
            assert(names[names.len() - 1] == names.last());
        }
    }
}

/// The frame of a window is drawn around its visible content, so that its border touches it on
/// each side and its titlebar above; it looks active exactly on the focused window. A hidden window,
/// or one that decorates itself, gets none.
pub proof fn law_frame_surrounds_its_window(c: ContextView, i: int, g: GlobalsView)
    requires
        c.windows[i].titlebar is Some,
        c.windows[i].parent is None,
        c.windows[i].min_width == 0,
        0 <= c.config.ui.border_width <= 1000,
        0 <= c.config.ui.font_size.three_quarters <= 1000,
        0 <= c.windows[i].swallow_top < c.windows[i].height,
        g.shm,
    ensures
        ({
            let w = c.windows[i];
            let bar = 2 * c.config.ui.font_size.three_quarters + 1;
            let shown = !w.hidden && w.decoration != Some(WindowDecoration::Csd) && w.width > 0;
            &&& shown ==> (c.frame_step(i, g) matches FrameStep::Draw {
                content_width,
                content_height,
                look,
                x,
                y,
                ..
            } && {
                &&& content_width == w.width
                &&& content_height == w.height - w.swallow_top
                &&& x + c.config.ui.border_width == 0
                &&& y + c.config.ui.border_width + bar == w.swallow_top
                &&& look.is_active <==> c.focused_window == Some(w.id)
                &&& look.is_maximized == w.maximized
                &&& look.show_minimize && look.show_maximize
            })
            &&& w.hidden ==> !(c.frame_step(i, g) is Draw)
            &&& w.decoration == Some(WindowDecoration::Csd) ==> !(c.frame_step(i, g) is Draw)
            &&& w.hidden && w.titlebar->0.mapped ==> c.frame_step(i, g) is Unmap
        }),
{
}

/// The window that the pointer comes over is noted; it gets the focus only where the focus follows the
/// pointer. When the pointer leaves, no window is below it.
pub proof fn law_focus_follows_the_pointer_if_asked_to(
    c: ContextView,
    i: int,
    object: ObjectId,
    seat: SeatId,
)
    requires
        only_window(c, i, object),
        c.seat(seat) is Some,
    ensures
        c.config.sloppy_focus ==> c.pointer_over(seat, object).focused_window == Some(
            c.windows[i].id,
        ),
        !c.config.sloppy_focus ==> c.pointer_over(seat, object).focused_window == c.focused_window,
        c.pointer_over(seat, object).seats[c.seat_index(seat)->0].window_below_pointer == Some(
            c.windows[i].id,
        ),
        c.pointer_off(seat).seats[c.seat_index(seat)->0].window_below_pointer is None,
{
    reveal(ContextView::pointer_over);
    reveal(ContextView::pointer_off);
    lemma_only_window(c, i, object);
    lemma_first(c.seats, is_seat(seat));
    let id = c.windows[i].id;
    let d = c.seat_changed(seat, |s: SeatView| SeatView { window_below_pointer: Some(id), ..s });
    law_focused_window_comes_first(d, id);
    law_focusing_moves_nothing(d, id, i);
    lemma_cursor_keeps(d, seat, c.seat_index(seat)->0);
    lemma_cursor_keeps(d.focus(id), seat, c.seat_index(seat)->0);
    let e = c.seat_changed(seat, |s: SeatView| SeatView { window_below_pointer: None, ..s });
    lemma_cursor_keeps(e, seat, c.seat_index(seat)->0);
}

proof fn lemma_cursor_keeps(c: ContextView, seat: SeatId, j: int)
    requires
        0 <= j < c.seats.len(),
    ensures
        ({
            let d = c.cursor_updated(seat);
            &&& d.focused_window == c.focused_window
            &&& d.windows == c.windows
            &&& d.seats.len() == c.seats.len()
            &&& d.seats[j].window_below_pointer == c.seats[j].window_below_pointer
        }),
{
    reveal(ContextView::cursor_updated);
    reveal(StagedSeat::set_cursor_shape);
    lemma_first(c.seats, is_seat(seat));
}

} // verus!
