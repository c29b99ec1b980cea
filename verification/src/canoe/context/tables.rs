//! Which windows, outputs and seats there are does not change by itself: one
//! lemma for each step of the window manager.

use vstd::prelude::*;
use crate::binding::action::{Action, ActionView, Direction, SnapSide};
use crate::canoe::context::focus::{is_id, leave_fullscreen, place_of, step_around, visible_ids};
use crate::canoe::context::laws::law_icon_steps_stay_among_the_icons;
use crate::canoe::context::manage::restoring;
use crate::canoe::context::menus::next_icon;
use crate::canoe::context::objects::ruled;
use crate::canoe::context::placement::among;
use crate::canoe::context::render::{dialog_step, render_step, show_step};
use crate::canoe::context::{is_output, is_seat, is_window, ContextView};
use crate::canoe::desktop::{icon_of, DesktopView};
use crate::canoe::output::{Area, OutputView};
use crate::canoe::seat::{SeatView, StagedSeat};
use crate::canoe::window::{SavedGeometry, SnapState, Staged, WindowEvent, WindowView};
use crate::canoe::{OutputId, SeatId, WindowId};
use crate::config::{Config, Mode, WindowDecoration};
use crate::protocol::{Capabilities, CursorShape, ObjectId, Request};
use crate::rule::Rule;
use crate::search::{lemma_first, lemma_without, lemma_without_keeps_distinct, without};

verus! {

/// Which windows, outputs and seats there are, and which ids come next.
#[verifier::ext_equal]
pub struct Tables {
    pub windows: Seq<WindowId>,
    pub outputs: Seq<OutputId>,
    pub seats: Seq<SeatId>,
    pub next_window_id: WindowId,
    pub next_output_id: OutputId,
    pub next_seat_id: SeatId,
}

pub open spec fn window_id() -> spec_fn(WindowView) -> WindowId {
    |w: WindowView| w.id
}

pub open spec fn output_id() -> spec_fn(OutputView) -> OutputId {
    |o: OutputView| o.id
}

pub open spec fn seat_id() -> spec_fn(SeatView) -> SeatId {
    |s: SeatView| s.id
}

impl ContextView {
    pub open spec fn tables(self) -> Tables {
        Tables {
            windows: self.windows.map_values(window_id()),
            outputs: self.outputs.map_values(output_id()),
            seats: self.seats.map_values(seat_id()),
            next_window_id: self.next_window_id,
            next_output_id: self.next_output_id,
            next_seat_id: self.next_seat_id,
        }
    }
}

/// Whether the windows of the icons of an output have ids below the next one.
pub open spec fn icons_given(o: OutputView, next: WindowId) -> bool {
    o.desktop_surface matches Some(desktop) ==> {
        &&& desktop.selected_icon matches Some(id) ==> id < next
        &&& forall|i: int|
            0 <= i < desktop.icons.len() ==> (#[trigger] desktop.icons[i]).window_id < next
    }
}

/// Whether no window is in the focus order twice, and all windows, those of the
/// focus order and those of the icons among them, have ids below the next one.
#[verifier::opaque]
pub open spec fn given_out(
    order: Seq<WindowId>,
    outputs: Seq<OutputView>,
    windows: Seq<WindowId>,
    next: WindowId,
) -> bool {
    &&& order.no_duplicates()
    &&& forall|i: int| 0 <= i < order.len() ==> #[trigger] order[i] < next
    &&& forall|i: int| 0 <= i < windows.len() ==> #[trigger] windows[i] < next
    &&& forall|k: int| 0 <= k < outputs.len() ==> icons_given(#[trigger] outputs[k], next)
}

impl ContextView {
    /// Whether no window is in the focus order twice, and every id of a window
    /// in use was given out.
    pub open spec fn ids_given(self) -> bool {
        given_out(self.focus_stack, self.outputs, self.tables().windows, self.next_window_id)
    }
}

/// Holds if the windows, outputs and seats are the same as before, no window
/// left the focus order, and no id came into use that was not given out.
pub open spec fn steady(before: ContextView, after: ContextView) -> bool {
    steady_given(before, after, true)
}

/// Holds if the windows, outputs and seats are the same as before, no window
/// left the focus order, and, under a condition, no id came into use that was
/// not given out.
pub open spec fn steady_given(before: ContextView, after: ContextView, condition: bool) -> bool {
    &&& after.tables() == before.tables()
    &&& condition && before.ids_given() ==> after.ids_given()
    &&& forall|id: WindowId|
        before.focus_stack.contains(id) ==> #[trigger] after.focus_stack.contains(id)
}

pub broadcast proof fn lemma_output_given(
    order: Seq<WindowId>,
    outputs: Seq<OutputView>,
    i: int,
    o: OutputView,
    windows: Seq<WindowId>,
    next: WindowId,
)
    requires
        0 <= i < outputs.len(),
        given_out(order, outputs, windows, next),
        icons_given(outputs[i], next) ==> icons_given(o, next),
    ensures
        #[trigger] given_out(order, outputs.update(i, o), windows, next),
{
    reveal(given_out);
}

pub broadcast proof fn lemma_window_ids(s: Seq<WindowView>, i: int, w: WindowView)
    requires
        0 <= i < s.len(),
        w.id == s[i].id,
    ensures
        (#[trigger] s.update(i, w)).map_values(window_id()) == s.map_values(window_id()),
{
    assert(s.update(i, w).map_values(window_id()) =~= s.map_values(window_id()));
}

pub broadcast proof fn lemma_output_ids(s: Seq<OutputView>, i: int, o: OutputView)
    requires
        0 <= i < s.len(),
        o.id == s[i].id,
    ensures
        (#[trigger] s.update(i, o)).map_values(output_id()) == s.map_values(output_id()),
{
    assert(s.update(i, o).map_values(output_id()) =~= s.map_values(output_id()));
}

pub broadcast proof fn lemma_seat_ids(s: Seq<SeatView>, i: int, seat: SeatView)
    requires
        0 <= i < s.len(),
        seat.id == s[i].id,
    ensures
        (#[trigger] s.update(i, seat)).map_values(seat_id()) == s.map_values(seat_id()),
{
    assert(s.update(i, seat).map_values(seat_id()) =~= s.map_values(seat_id()));
}

pub broadcast proof fn lemma_found_window(c: ContextView, id: WindowId)
    ensures
        (#[trigger] c.window_index(id)) matches Some(i) ==> 0 <= i < c.windows.len()
            && c.windows[i].id == id,
        c.window_index(id) is Some && c.ids_given() ==> id < c.next_window_id,
{
    reveal(given_out);
    lemma_first(c.windows, is_window(id));
    if let Some(i) = c.window_index(id) {
        assert(c.tables().windows[i] == id);
    }
}

pub broadcast proof fn lemma_found_output(c: ContextView, id: OutputId)
    ensures
        (#[trigger] c.output_index(id)) matches Some(i) ==> 0 <= i < c.outputs.len()
            && c.outputs[i].id == id,
{
    lemma_first(c.outputs, is_output(id));
}

pub broadcast proof fn lemma_found_seat(c: ContextView, id: SeatId)
    ensures
        (#[trigger] c.seat_index(id)) matches Some(i) ==> 0 <= i < c.seats.len()
            && c.seats[i].id == id,
{
    lemma_first(c.seats, is_seat(id));
}

pub broadcast group group_tables {
    lemma_window_ids,
    lemma_output_given,
    lemma_output_ids,
    lemma_seat_ids,
    lemma_found_window,
    lemma_found_output,
    lemma_found_seat,
}

/// A step that keeps the id of a window, carried out on some windows.
proof fn lemma_steady_each_window(c: ContextView, n: int, step: spec_fn(Staged) -> Staged)
    requires
        0 <= n <= c.windows.len(),
        forall|s: Staged| (#[trigger] step(s)).window.id == s.window.id,
    ensures
        steady(c, c.each_window(n, step)),
        c.each_window(n, step).windows.len() == c.windows.len(),
    decreases n,
{
    broadcast use group_tables;
    if n > 0 {
        lemma_steady_each_window(c, n - 1, step);
        let d = c.each_window(n - 1, step);
        assert(step(d.staged(n - 1)).window.id == d.windows[n - 1].id);
    }
}

/// Putting a window first in the focus order leaves all others in it.
proof fn lemma_put_first(order: Seq<WindowId>, id: WindowId)
    ensures
        forall|x: WindowId|
            order.contains(x) ==> #[trigger] without(order, id).insert(0, id).contains(x),
{
    let s = without(order, id);
    let t = s.insert(0, id);
    lemma_without(order, id);
    assert forall|x: WindowId| order.contains(x) implies #[trigger] t.contains(x) by {
        if x == id {
            assert(t[0] == x);
        } else {
            let i = choose|i: int| 0 <= i < s.len() && s[i] == x;
            assert(t[i + 1] == x);
        }
    }
}

/// Putting a window first in the focus order brings no id into use.
proof fn lemma_focus_order(
    order: Seq<WindowId>,
    outputs: Seq<OutputView>,
    windows: Seq<WindowId>,
    next: WindowId,
    id: WindowId,
)
    requires
        given_out(order, outputs, windows, next),
        id < next,
    ensures
        given_out(without(order, id).insert(0, id), outputs, windows, next),
{
    reveal(given_out);
    lemma_without(order, id);
    lemma_without_keeps_distinct(order, id);
    let s = without(order, id);
    let t = s.insert(0, id);
    assert forall|i: int, j: int| 0 <= i < t.len() && 0 <= j < t.len() && i != j implies t[i]
        != t[j] by {
        if i > 0 {
            assert(s.contains(s[i - 1]));
        }
        if j > 0 {
            assert(s.contains(s[j - 1]));
        }
    }
    assert forall|i: int| 0 <= i < t.len() implies #[trigger] t[i] < next by {
        if i > 0 {
            assert(s.contains(s[i - 1]));
            assert(order.contains(s[i - 1]));
        }
    }
}

/// The windows visible on an output have ids that were given out.
proof fn lemma_visible_given(c: ContextView, output: OutputId)
    requires
        c.ids_given(),
    ensures
        forall|i: int|
            0 <= i < visible_ids(c, c.windows, output).len() ==> #[trigger] visible_ids(
                c,
                c.windows,
                output,
            )[i] < c.next_window_id,
{
    reveal(given_out);
    assert forall|j: int| 0 <= j < c.windows.len() implies (#[trigger] c.windows[j]).id
        < c.next_window_id by {
        assert(c.tables().windows[j] == c.windows[j].id);
    }
    lemma_visible_below(c, c.windows, output, c.next_window_id);
}

proof fn lemma_visible_below(
    c: ContextView,
    windows: Seq<WindowView>,
    output: OutputId,
    next: WindowId,
)
    requires
        forall|j: int| 0 <= j < windows.len() ==> (#[trigger] windows[j]).id < next,
    ensures
        forall|i: int|
            0 <= i < visible_ids(c, windows, output).len() ==> #[trigger] visible_ids(
                c,
                windows,
                output,
            )[i] < next,
    decreases windows.len(),
{
    if windows.len() > 0 {
        let earlier = windows.drop_last();
        assert forall|j: int| 0 <= j < earlier.len() implies (#[trigger] earlier[j]).id < next by {
            assert(earlier[j] == windows[j]);
        }
        lemma_visible_below(c, earlier, output, next);
        assert(windows.last().id < next);
        let ids = visible_ids(c, windows, output);
        assert forall|i: int| 0 <= i < ids.len() implies #[trigger] ids[i] < next by {
            if i < visible_ids(c, earlier, output).len() {
                assert(ids[i] == visible_ids(c, earlier, output)[i]);
            }
        }
    }
}

proof fn lemma_step_in_range(ids: Seq<usize>, id: Option<usize>, direction: Direction)
    ensures
        ids.len() > 0 ==> 0 <= step_around(place_of(ids, id), ids.len() as int, direction)
            < ids.len(),
{
    if let Some(id) = id {
        lemma_first(ids, is_id(id));
    }
}

proof fn lemma_candidate_given(c: ContextView)
    requires
        c.ids_given(),
    ensures
        c.restore_candidate() matches Some(id) ==> id < c.next_window_id,
{
    reveal(given_out);
    reveal(ContextView::restore_candidate);
    lemma_first(c.focus_stack, c.shown());
    if c.current_output is Some {
        lemma_first(c.focus_stack, c.shown_on(c.current_output->0));
    } else if c.last_focused_output is Some {
        lemma_first(c.focus_stack, c.shown_on(c.last_focused_output->0));
    }
}

proof fn lemma_heir_given(c: ContextView)
    requires
        c.ids_given(),
    ensures
        forall|output: OutputId|
            (#[trigger] c.heir(output)) is Some ==> c.heir(output)->0 < c.next_window_id,
{
    assert forall|output: OutputId| (#[trigger] c.heir(output)) is Some implies c.heir(output)->0
        < c.next_window_id by {
        reveal(given_out);
        reveal(ContextView::heir);
        lemma_visible_given(c, output);
        lemma_first(c.focus_stack, among(visible_ids(c, c.windows, output)));
    }
}

pub proof fn lemma_output_icons_given(c: ContextView, output: OutputId)
    requires
        c.ids_given(),
    ensures
        c.output(output) matches Some(o) ==> icons_given(o, c.next_window_id),
{
    broadcast use group_tables;
    reveal(given_out);
}

proof fn lemma_navigated_in_range(desktop: DesktopView, dx: int, dy: int)
    requires
        desktop.icons.len() > 0,
    ensures
        exists|i: int|
            0 <= i < desktop.icons.len() && desktop.navigated(dx, dy) == (
            #[trigger] desktop.icons[i]).window_id,
{
    let current = match desktop.selected_index() {
        Some(i) => i,
        None => 0,
    };
    if let Some(id) = desktop.selected_icon {
        lemma_first(desktop.icons, icon_of(id));
    }
    let cols = if desktop.icon_cols > 1 {
        desktop.icon_cols as int
    } else {
        1
    };
    let count = desktop.icons.len() as int;
    law_icon_steps_stay_among_the_icons(count, cols, current, dx, dy);
    let next = next_icon(count, cols, current, dx, dy);
    assert(desktop.navigated(dx, dy) == desktop.icons[next].window_id);
}

pub broadcast proof fn lemma_same_id_at(w: WindowView, x: i32, y: i32)
    ensures
        (#[trigger] w.at(x, y)).id == w.id,
{
}

pub broadcast proof fn lemma_same_id_sized(w: WindowView, width: i32, height: i32)
    ensures
        (#[trigger] w.sized(width, height)).id == w.id,
{
}

pub broadcast proof fn lemma_same_id_titlebar_stale(w: WindowView)
    ensures
        (#[trigger] w.titlebar_stale()).id == w.id,
{
}

pub broadcast proof fn lemma_same_output_id_desktop_stale(o: OutputView)
    ensures
        (#[trigger] o.desktop_stale()).id == o.id,
{
}

pub broadcast proof fn lemma_same_output_id_icon_selected(o: OutputView, icon: Option<usize>)
    ensures
        (#[trigger] o.icon_selected(icon)).id == o.id,
{
}

pub broadcast proof fn lemma_same_seat_id_queued(s: SeatView, action: ActionView)
    ensures
        (#[trigger] s.queued(action)).id == s.id,
{
}

pub broadcast proof fn lemma_same_window_tell(s: Staged, request: spec_fn(ObjectId) -> Request)
    ensures
        (#[trigger] s.tell(request)).window.id == s.window.id,
{
}

pub broadcast proof fn lemma_same_seat_tell(s: StagedSeat, request: spec_fn(ObjectId) -> Request)
    ensures
        (#[trigger] s.tell(request)).seat.id == s.seat.id,
{
}

pub broadcast proof fn lemma_same_window_exit_fullscreen(s: Staged)
    ensures
        (#[trigger] s.exit_fullscreen()).window.id == s.window.id,
{
    broadcast use {lemma_same_window_tell, lemma_same_seat_tell};
    reveal(Staged::exit_fullscreen);
}

pub broadcast proof fn lemma_same_window_fullscreen_left(s: Staged)
    ensures
        (#[trigger] s.fullscreen_left()).window.id == s.window.id,
{
    broadcast use lemma_same_window_exit_fullscreen;
    reveal(Staged::fullscreen_left);
}

pub broadcast proof fn lemma_same_window_fullscreen_left_unless(s: Staged, except: WindowId)
    ensures
        (#[trigger] s.fullscreen_left_unless(except)).window.id == s.window.id,
{
    broadcast use lemma_same_window_fullscreen_left;
    reveal(Staged::fullscreen_left_unless);
}

pub broadcast proof fn lemma_same_window_propose_raw(s: Staged, width: i32, height: i32)
    ensures
        (#[trigger] s.propose_raw(width, height)).window.id == s.window.id,
{
    broadcast use {lemma_same_window_tell, lemma_same_seat_tell};
    reveal(Staged::propose_raw);
}

pub broadcast proof fn lemma_same_window_set_capabilities(s: Staged, capabilities: Capabilities)
    ensures
        (#[trigger] s.set_capabilities(capabilities)).window.id == s.window.id,
{
    broadcast use {lemma_same_window_tell, lemma_same_seat_tell};
    reveal(Staged::set_capabilities);
}

pub broadcast proof fn lemma_same_window_ruled(s: Staged, rules: Seq<Rule>)
    ensures
        (#[trigger] s.ruled(rules)).window.id == s.window.id,
{
    broadcast use lemma_same_window_set_capabilities;
    reveal(Staged::ruled);
}

pub broadcast proof fn lemma_same_window_set_decoration(s: Staged, decoration: WindowDecoration)
    ensures
        (#[trigger] s.set_decoration(decoration)).window.id == s.window.id,
{
    broadcast use {lemma_same_window_tell, lemma_same_seat_tell};
    reveal(Staged::set_decoration);
}

pub broadcast proof fn lemma_same_window_initialized(s: Staged, rules: Seq<Rule>)
    ensures
        (#[trigger] s.initialized(rules)).window.id == s.window.id,
{
    broadcast use {
        lemma_same_window_propose_raw,
        lemma_same_window_ruled,
        lemma_same_window_set_decoration,
    };
    reveal(Staged::initialized);
}

pub broadcast proof fn lemma_same_window_propose_dimensions(s: Staged, width: i32, height: i32)
    ensures
        (#[trigger] s.propose_dimensions(width, height)).window.id == s.window.id,
{
    broadcast use lemma_same_window_propose_raw;
    reveal(Staged::propose_dimensions);
}

pub broadcast proof fn lemma_same_window_tell_node(s: Staged, request: spec_fn(ObjectId) -> Request)
    ensures
        (#[trigger] s.tell_node(request)).window.id == s.window.id,
{
}

pub broadcast proof fn lemma_same_window_set_position(s: Staged, x: i32, y: i32)
    ensures
        (#[trigger] s.set_position(x, y)).window.id == s.window.id,
{
    broadcast use {lemma_same_window_tell_node, lemma_same_id_at};
    reveal(Staged::set_position);
}

pub broadcast proof fn lemma_same_window_restore(s: Staged, saved: SavedGeometry)
    ensures
        (#[trigger] s.restore(saved)).window.id == s.window.id,
{
    broadcast use {lemma_same_window_propose_dimensions, lemma_same_window_set_position};
    reveal(Staged::restore);
}

pub broadcast proof fn lemma_same_window_fullscreen_restored(s: Staged)
    ensures
        (#[trigger] s.fullscreen_restored()).window.id == s.window.id,
{
    broadcast use lemma_same_window_restore;
    reveal(Staged::fullscreen_restored);
}

pub broadcast proof fn lemma_same_window_inform_unmaximized(s: Staged)
    ensures
        (#[trigger] s.inform_unmaximized()).window.id == s.window.id,
{
    broadcast use {lemma_same_window_tell, lemma_same_seat_tell};
    reveal(Staged::inform_unmaximized);
}

pub broadcast proof fn lemma_same_window_clear_maximized_without_restore(s: Staged)
    ensures
        (#[trigger] s.clear_maximized_without_restore()).window.id == s.window.id,
{
    broadcast use lemma_same_window_inform_unmaximized;
    reveal(Staged::clear_maximized_without_restore);
}

pub broadcast proof fn lemma_same_window_start_resize(s: Staged, seat: SeatId, edges: u32)
    ensures
        (#[trigger] s.start_resize(seat, edges)).window.id == s.window.id,
{
    broadcast use {lemma_same_window_tell, lemma_same_seat_tell};
    reveal(Staged::start_resize);
}

pub broadcast proof fn lemma_same_window_resize_asked(s: Staged, seat: SeatId, edges: u32)
    ensures
        (#[trigger] s.resize_asked(seat, edges)).window.id == s.window.id,
{
    broadcast use {
        lemma_same_window_clear_maximized_without_restore,
        lemma_same_window_start_resize,
    };
    reveal(Staged::resize_asked);
}

pub broadcast proof fn lemma_same_window_place_top(s: Staged)
    ensures
        (#[trigger] s.place_top()).window.id == s.window.id,
{
    broadcast use lemma_same_window_tell_node;
    reveal(Staged::place_top);
}

pub broadcast proof fn lemma_same_window_show(s: Staged)
    ensures
        (#[trigger] s.show()).window.id == s.window.id,
{
    broadcast use {lemma_same_window_tell, lemma_same_seat_tell, lemma_same_id_titlebar_stale};
    reveal(Staged::show);
}

pub broadcast proof fn lemma_same_window_raised(s: Staged)
    ensures
        (#[trigger] s.raised()).window.id == s.window.id,
{
    broadcast use {lemma_same_window_place_top, lemma_same_window_show};
    reveal(Staged::raised);
}

pub broadcast proof fn lemma_same_window_fullscreen_on(s: Staged, output: ObjectId)
    ensures
        (#[trigger] s.fullscreen_on(output)).window.id == s.window.id,
{
    broadcast use {lemma_same_window_tell, lemma_same_seat_tell};
    reveal(Staged::fullscreen_on);
}

pub broadcast proof fn lemma_same_window_fullscreen_entered(
    s: Staged,
    rwm_output: ObjectId,
    output: OutputId,
)
    ensures
        (#[trigger] s.fullscreen_entered(rwm_output, output)).window.id == s.window.id,
{
    broadcast use lemma_same_window_fullscreen_on;
    reveal(Staged::fullscreen_entered);
}

pub broadcast proof fn lemma_same_window_fullscreen_asked(
    s: Staged,
    saved: SavedGeometry,
    target: Option<(ObjectId, OutputId)>,
)
    ensures
        (#[trigger] s.fullscreen_asked(saved, target)).window.id == s.window.id,
{
    broadcast use lemma_same_window_fullscreen_entered;
    reveal(Staged::fullscreen_asked);
}

pub broadcast proof fn lemma_same_window_conceal(s: Staged)
    ensures
        (#[trigger] s.conceal()).window.id == s.window.id,
{
    broadcast use {lemma_same_window_tell, lemma_same_seat_tell};
    reveal(Staged::conceal);
}

pub broadcast proof fn lemma_same_window_minimized(s: Staged, seq: u64)
    ensures
        (#[trigger] s.minimized(seq)).window.id == s.window.id,
{
    broadcast use lemma_same_window_conceal;
    reveal(Staged::minimized);
}

pub broadcast proof fn lemma_same_window_resize_grabbed(s: Staged, seat: SeatId, edges: u32)
    ensures
        (#[trigger] s.resize_grabbed(seat, edges)).window.id == s.window.id,
{
    broadcast use {
        lemma_same_window_clear_maximized_without_restore,
        lemma_same_window_start_resize,
    };
    reveal(Staged::resize_grabbed);
}

pub broadcast proof fn lemma_same_window_set_borders(
    s: Staged,
    edges: u32,
    width: i32,
    r: u32,
    g: u32,
    b: u32,
    a: u32,
)
    ensures
        (#[trigger] s.set_borders(edges, width, r, g, b, a)).window.id == s.window.id,
{
    broadcast use {lemma_same_window_tell, lemma_same_seat_tell};
    reveal(Staged::set_borders);
}

pub broadcast proof fn lemma_same_window_set_content_clip_box(
    s: Staged,
    x: i32,
    y: i32,
    width: i32,
    height: i32,
)
    ensures
        (#[trigger] s.set_content_clip_box(x, y, width, height)).window.id == s.window.id,
{
    broadcast use {lemma_same_window_tell, lemma_same_seat_tell};
    reveal(Staged::set_content_clip_box);
}

pub broadcast proof fn lemma_same_window_rendered(s: Staged, visible: bool)
    ensures
        (#[trigger] s.rendered(visible)).window.id == s.window.id,
{
    broadcast use {
        lemma_same_window_conceal,
        lemma_same_window_set_borders,
        lemma_same_window_set_content_clip_box,
        lemma_same_window_show,
    };
    reveal(Staged::rendered);
}

pub broadcast proof fn lemma_same_window_put(s: Staged, place: Option<(i32, i32)>)
    ensures
        (#[trigger] s.put(place)).window.id == s.window.id,
{
    broadcast use lemma_same_window_set_position;
    reveal(Staged::put);
}

pub broadcast proof fn lemma_same_window_inform_maximized(s: Staged)
    ensures
        (#[trigger] s.inform_maximized()).window.id == s.window.id,
{
    broadcast use {lemma_same_window_tell, lemma_same_seat_tell};
    reveal(Staged::inform_maximized);
}

pub broadcast proof fn lemma_same_window_maximized_to(s: Staged, place: SavedGeometry)
    ensures
        (#[trigger] s.maximized_to(place)).window.id == s.window.id,
{
    broadcast use {lemma_same_window_inform_maximized, lemma_same_window_restore};
    reveal(Staged::maximized_to);
}

pub broadcast proof fn lemma_same_window_restore_pre_snap(s: Staged)
    ensures
        (#[trigger] s.restore_pre_snap()).window.id == s.window.id,
{
    broadcast use lemma_same_window_restore;
    reveal(Staged::restore_pre_snap);
}

pub broadcast proof fn lemma_same_window_unmaximized(s: Staged)
    ensures
        (#[trigger] s.unmaximized()).window.id == s.window.id,
{
    broadcast use {lemma_same_window_inform_unmaximized, lemma_same_window_restore_pre_snap};
    reveal(Staged::unmaximized);
}

pub broadcast proof fn lemma_same_window_unmaximized_for_move(
    s: Staged,
    pointer_x: i32,
    pointer_y: i32,
    adjust_y: bool,
    scale: spec_fn(i64, i32, i32) -> i32,
)
    ensures
        (#[trigger] s.unmaximized_for_move(pointer_x, pointer_y, adjust_y, scale)).window.id == s.window.id,
{
    broadcast use {
        lemma_same_window_inform_unmaximized,
        lemma_same_window_propose_dimensions,
        lemma_same_window_set_position,
    };
    reveal(Staged::unmaximized_for_move);
}

pub broadcast proof fn lemma_same_window_fullscreen_dropped(s: Staged, manager: Option<ObjectId>)
    ensures
        (#[trigger] s.fullscreen_dropped(manager)).window.id == s.window.id,
{
    broadcast use lemma_same_window_exit_fullscreen;
    reveal(Staged::fullscreen_dropped);
}

pub broadcast proof fn lemma_same_window_snap_placed(s: Staged, target: SnapState, place: SavedGeometry)
    ensures
        (#[trigger] s.snap_placed(target, place)).window.id == s.window.id,
{
    broadcast use lemma_same_window_restore;
    reveal(Staged::snap_placed);
}

pub broadcast proof fn lemma_same_window_snap_remembered(s: Staged)
    ensures
        (#[trigger] s.snap_remembered()).window.id == s.window.id,
{
    reveal(Staged::snap_remembered);
}

pub broadcast proof fn lemma_same_window_unmaximized_to_snap(s: Staged)
    ensures
        (#[trigger] s.unmaximized_to_snap()).window.id == s.window.id,
{
    broadcast use {lemma_same_window_inform_unmaximized, lemma_same_window_restore};
    reveal(Staged::unmaximized_to_snap);
}

pub broadcast proof fn lemma_same_window_snapped(
    s: Staged,
    target: SnapState,
    place: SavedGeometry,
    manager: Option<ObjectId>,
)
    ensures
        (#[trigger] s.snapped(target, place, manager)).window.id == s.window.id,
{
    broadcast use {
        lemma_same_window_clear_maximized_without_restore,
        lemma_same_window_fullscreen_dropped,
        lemma_same_window_restore_pre_snap,
        lemma_same_window_snap_placed,
        lemma_same_window_snap_remembered,
        lemma_same_window_unmaximized_to_snap,
    };
    reveal(Staged::snapped);
}

pub broadcast proof fn lemma_same_window_carried_over(
    s: Staged,
    place: SavedGeometry,
    pre_snap: Option<SavedGeometry>,
    resize: bool,
)
    ensures
        (#[trigger] s.carried_over(place, pre_snap, resize)).window.id == s.window.id,
{
    broadcast use {lemma_same_window_propose_dimensions, lemma_same_window_set_position};
    reveal(Staged::carried_over);
}

pub broadcast proof fn lemma_same_window_start_move(s: Staged, seat: SeatId)
    ensures
        (#[trigger] s.start_move(seat)).window.id == s.window.id,
{
    reveal(Staged::start_move);
}

pub broadcast proof fn lemma_same_window_move_started(
    s: Staged,
    seat: SeatId,
    pointer_x: i32,
    pointer_y: i32,
    adjust_y: bool,
    scale: spec_fn(i64, i32, i32) -> i32,
)
    ensures
        (#[trigger] s.move_started(seat, pointer_x, pointer_y, adjust_y, scale)).window.id == s.window.id,
{
    broadcast use {lemma_same_window_start_move, lemma_same_window_unmaximized_for_move};
    reveal(Staged::move_started);
}

pub broadcast proof fn lemma_same_window_close(s: Staged)
    ensures
        (#[trigger] s.close()).window.id == s.window.id,
{
    broadcast use {lemma_same_window_tell, lemma_same_seat_tell};
    reveal(Staged::close);
}

pub broadcast proof fn lemma_same_window_end_operation(s: Staged)
    ensures
        (#[trigger] s.end_operation()).window.id == s.window.id,
{
    broadcast use {lemma_same_window_tell, lemma_same_seat_tell};
    reveal(Staged::end_operation);
}

pub broadcast proof fn lemma_same_window_apply_op_delta(s: Staged, dx: i32, dy: i32)
    ensures
        (#[trigger] s.apply_op_delta(dx, dy)).window.id == s.window.id,
{
    broadcast use {lemma_same_window_propose_dimensions, lemma_same_window_set_position};
    reveal(Staged::apply_op_delta);
}

pub broadcast proof fn lemma_same_seat_switch_mode(s: StagedSeat, mode: Mode)
    ensures
        (#[trigger] s.switch_mode(mode)).seat.id == s.seat.id,
{
    reveal(StagedSeat::switch_mode);
}

pub broadcast proof fn lemma_same_seat_set_cursor_shape(s: StagedSeat, shape: Option<CursorShape>)
    ensures
        (#[trigger] s.set_cursor_shape(shape)).seat.id == s.seat.id,
{
    reveal(StagedSeat::set_cursor_shape);
}

pub broadcast proof fn lemma_steady_default_output_set(c: ContextView, output: OutputId)
    ensures
        steady(c, #[trigger] c.default_output_set(output)),
{
    broadcast use group_tables;
    reveal(ContextView::default_output_set);
}

pub broadcast proof fn lemma_steady_window_output_set(c: ContextView, id: WindowId, output: OutputId)
    ensures
        steady(c, #[trigger] c.window_output_set(id, output)),
{
    broadcast use {group_tables, lemma_steady_default_output_set};
    reveal(ContextView::window_output_set);
}

pub broadcast proof fn lemma_steady_output_followed(c: ContextView, id: WindowId)
    ensures
        steady(c, #[trigger] c.output_followed(id)),
{
    broadcast use {group_tables, lemma_steady_window_output_set};
    reveal(ContextView::output_followed);
}

pub broadcast proof fn lemma_steady_output_followed_pointer(
    c: ContextView,
    seat: SeatId,
    x: int,
    y: int,
)
    ensures
        steady(c, #[trigger] c.output_followed_pointer(seat, x, y)),
{
    broadcast use {group_tables, lemma_steady_window_output_set};
    reveal(ContextView::output_followed_pointer);
}

pub broadcast proof fn lemma_steady_ask(c: ContextView, request: Request)
    ensures
        steady(c, #[trigger] c.ask(request)),
{
    broadcast use group_tables;
}

pub broadcast proof fn lemma_steady_keyboard_to(c: ContextView, id: WindowId)
    ensures
        steady(c, #[trigger] c.keyboard_to(id)),
{
    broadcast use {group_tables, lemma_steady_ask};
    reveal(ContextView::keyboard_to);
}

pub broadcast proof fn lemma_steady_keyboard_to_none(c: ContextView)
    ensures
        steady(c, #[trigger] c.keyboard_to_none()),
{
    broadcast use {group_tables, lemma_same_window_tell, lemma_same_seat_tell};
    reveal(ContextView::keyboard_to_none);
}

pub broadcast proof fn lemma_steady_keyboard_focus_cleared(c: ContextView)
    ensures
        steady(c, #[trigger] c.keyboard_focus_cleared()),
{
    broadcast use {group_tables, lemma_steady_keyboard_to_none};
    reveal(ContextView::keyboard_focus_cleared);
}

pub broadcast proof fn lemma_steady_tell_manager(c: ContextView, request: spec_fn(ObjectId) -> Request)
    ensures
        steady(c, #[trigger] c.tell_manager(request)),
{
    broadcast use group_tables;
}

pub broadcast proof fn lemma_steady_manage_dirty(c: ContextView)
    ensures
        steady(c, #[trigger] c.manage_dirty()),
{
    broadcast use {group_tables, lemma_steady_tell_manager};
}

pub broadcast proof fn lemma_steady_others_left_fullscreen(c: ContextView, id: WindowId)
    ensures
        steady(c, #[trigger] c.others_left_fullscreen(id)),
{
    broadcast use {group_tables, lemma_steady_manage_dirty};
    reveal(ContextView::others_left_fullscreen);
    broadcast use lemma_same_window_fullscreen_left_unless;
    lemma_steady_each_window(c, c.windows.len() as int, leave_fullscreen(id));
}

pub broadcast proof fn lemma_steady_focus(c: ContextView, id: WindowId)
    ensures
        steady_given(c, #[trigger] c.focus(id), id < c.next_window_id),
{
    broadcast use {
        group_tables,
        lemma_steady_keyboard_to,
        lemma_steady_others_left_fullscreen,
        lemma_steady_output_followed,
        lemma_steady_window_output_set,
    };
    reveal(ContextView::focus);
    let d = c.others_left_fullscreen(id);
    lemma_put_first(d.focus_stack, id);
    if c.ids_given() && id < c.next_window_id {
        lemma_focus_order(d.focus_stack, d.outputs, d.tables().windows, d.next_window_id, id);
    }
}

pub broadcast proof fn lemma_steady_focus_preview(c: ContextView, id: WindowId)
    ensures
        steady(c, #[trigger] c.focus_preview(id)),
{
    broadcast use {group_tables, lemma_steady_keyboard_to};
    reveal(ContextView::focus_preview);
}

pub broadcast proof fn lemma_steady_focus_preview_visual(c: ContextView, id: WindowId)
    ensures
        steady(c, #[trigger] c.focus_preview_visual(id)),
{
    broadcast use {group_tables, lemma_steady_keyboard_to_none};
    reveal(ContextView::focus_preview_visual);
}

pub broadcast proof fn lemma_steady_focus_iter(c: ContextView, direction: Direction)
    ensures
        steady(c, #[trigger] c.focus_iter(direction)),
{
    broadcast use {group_tables, lemma_steady_focus};
    reveal(ContextView::focus_iter);
    if c.ids_given() && c.current_output is Some {
        let visible = visible_ids(c, c.windows, c.current_output->0);
        lemma_visible_given(c, c.current_output->0);
        lemma_step_in_range(visible, c.focused_window, direction);
    }
}

pub broadcast proof fn lemma_steady_focus_output_iter(c: ContextView, direction: Direction)
    ensures
        steady(c, #[trigger] c.focus_output_iter(direction)),
{
    broadcast use {group_tables, lemma_steady_default_output_set, lemma_steady_focus};
    reveal(ContextView::focus_output_iter);
    let ids = c.output_ids();
    let next = ids[step_around(
        place_of(ids, c.current_output),
        ids.len() as int,
        direction,
    )];
    let d = (ContextView { current_output: Some(next), ..c }).default_output_set(next);
    if d.ids_given() {
        lemma_visible_given(d, next);
    }
}

pub broadcast proof fn lemma_steady_focus_restored(c: ContextView)
    ensures
        steady(c, #[trigger] c.focus_restored()),
{
    broadcast use {group_tables, lemma_steady_focus, lemma_steady_keyboard_focus_cleared};
    reveal(ContextView::focus_restored);
    if c.ids_given() {
        lemma_candidate_given(c);
    }
}

pub broadcast proof fn lemma_steady_close_asked(c: ContextView, id: WindowId)
    ensures
        steady(c, #[trigger] c.close_asked(id)),
{
    broadcast use {group_tables, lemma_same_window_close};
    reveal(ContextView::close_asked);
}

pub broadcast proof fn lemma_steady_mode_switched(c: ContextView, seat: SeatId, mode: Mode)
    ensures
        steady(c, #[trigger] c.mode_switched(seat, mode)),
{
    broadcast use {group_tables, lemma_same_seat_switch_mode};
    reveal(ContextView::mode_switched);
}

pub broadcast proof fn lemma_steady_focus_passed_on(c: ContextView, id: WindowId)
    ensures
        steady(c, #[trigger] c.focus_passed_on(id)),
{
    broadcast use {group_tables, lemma_steady_focus, lemma_steady_keyboard_focus_cleared};
    reveal(ContextView::focus_passed_on);
    if c.ids_given() {
        lemma_heir_given(c);
    }
}

pub broadcast proof fn lemma_steady_desktops_stale(c: ContextView)
    ensures
        steady(c, #[trigger] c.desktops_stale()),
{
    broadcast use {group_tables, lemma_same_output_id_desktop_stale};
    reveal(ContextView::desktops_stale);
    reveal(given_out);
    let after = c.desktops_stale().outputs;
    assert(after.map_values(output_id()) =~= c.outputs.map_values(output_id()));
    if c.ids_given() {
        assert forall|k: int| 0 <= k < after.len() implies icons_given(
            #[trigger] after[k],
            c.next_window_id,
        ) by {
            assert(icons_given(c.outputs[k], c.next_window_id));
        }
    }
}

pub broadcast proof fn lemma_steady_window_hidden(c: ContextView, id: WindowId)
    ensures
        steady(c, #[trigger] c.window_hidden(id)),
{
    broadcast use {group_tables, lemma_steady_desktops_stale, lemma_same_window_minimized};
    reveal(ContextView::window_hidden);
}

pub broadcast proof fn lemma_steady_hide_window(c: ContextView, id: WindowId)
    ensures
        steady(c, #[trigger] c.hide_window(id)),
{
    broadcast use {group_tables, lemma_steady_focus_passed_on, lemma_steady_window_hidden};
    reveal(ContextView::hide_window);
}

pub broadcast proof fn lemma_steady_unfullscreened(c: ContextView, id: WindowId)
    ensures
        steady(c, #[trigger] c.unfullscreened(id)),
{
    broadcast use {group_tables, lemma_steady_manage_dirty, lemma_same_window_fullscreen_left};
    reveal(ContextView::unfullscreened);
}

pub broadcast proof fn lemma_steady_unmaximized(c: ContextView, id: WindowId)
    ensures
        steady(c, #[trigger] c.unmaximized(id)),
{
    broadcast use {group_tables, lemma_same_window_unmaximized};
    reveal(ContextView::unmaximized);
}

pub broadcast proof fn lemma_steady_smart_hidden(c: ContextView, id: WindowId)
    ensures
        steady(c, #[trigger] c.smart_hidden(id)),
{
    broadcast use {
        group_tables,
        lemma_steady_hide_window,
        lemma_steady_unfullscreened,
        lemma_steady_unmaximized,
        lemma_same_window_unmaximized,
    };
    reveal(ContextView::smart_hidden);
}

pub broadcast proof fn lemma_steady_menu_cycled(c: ContextView)
    ensures
        steady(c, #[trigger] c.menu_cycled()),
{
    broadcast use group_tables;
    reveal(ContextView::menu_cycled);
}

pub broadcast proof fn lemma_steady_alt_tab_cleared(c: ContextView)
    ensures
        steady(c, #[trigger] c.alt_tab_cleared()),
{
    broadcast use group_tables;
}

pub broadcast proof fn lemma_steady_stale_if(c: ContextView, changed: bool)
    ensures
        steady(c, #[trigger] c.stale_if(changed)),
{
    broadcast use {group_tables, lemma_steady_desktops_stale};
    reveal(ContextView::stale_if);
}

pub broadcast proof fn lemma_steady_window_raised(c: ContextView, id: WindowId)
    ensures
        steady(c, #[trigger] c.window_raised(id)),
{
    broadcast use {group_tables, lemma_same_window_raised};
    reveal(ContextView::window_raised);
}

pub broadcast proof fn lemma_steady_brought_up(c: ContextView, id: WindowId)
    ensures
        steady(c, #[trigger] c.brought_up(id)),
{
    broadcast use {
        group_tables,
        lemma_steady_focus,
        lemma_steady_stale_if,
        lemma_steady_window_raised,
    };
    reveal(ContextView::brought_up);
}

pub broadcast proof fn lemma_steady_menu_dropped(c: ContextView)
    ensures
        steady(c, #[trigger] c.menu_dropped()),
{
    broadcast use group_tables;
}

pub broadcast proof fn lemma_steady_menu_activated(c: ContextView)
    ensures
        steady(c, #[trigger] c.menu_activated()),
{
    broadcast use {
        group_tables,
        lemma_steady_alt_tab_cleared,
        lemma_steady_brought_up,
        lemma_steady_menu_dropped,
    };
    reveal(ContextView::menu_activated);
}

pub broadcast proof fn lemma_steady_pointer_menu_activated(c: ContextView)
    ensures
        steady(c, #[trigger] c.pointer_menu_activated()),
{
    broadcast use {group_tables, lemma_steady_menu_activated};
    reveal(ContextView::pointer_menu_activated);
}

pub broadcast proof fn lemma_steady_placed_top(c: ContextView, id: WindowId)
    ensures
        steady(c, #[trigger] c.placed_top(id)),
{
    broadcast use {group_tables, lemma_same_window_place_top};
    reveal(ContextView::placed_top);
}

pub broadcast proof fn lemma_steady_stack_restored(c: ContextView, order: Seq<WindowId>)
    ensures
        steady(c, #[trigger] c.stack_restored(order)),
    decreases order.len(),
{
    broadcast use {group_tables, lemma_steady_placed_top};
    if order.len() > 0 {
        lemma_steady_stack_restored(c.placed_top(order.last()), order.drop_last());
    }
}

pub broadcast proof fn lemma_steady_alt_tab_order_restored(c: ContextView)
    ensures
        steady(c, #[trigger] c.alt_tab_order_restored()),
{
    broadcast use {group_tables, lemma_steady_stack_restored};
    reveal(ContextView::alt_tab_order_restored);
}

pub broadcast proof fn lemma_steady_preview_withdrawn(c: ContextView)
    ensures
        steady(c, #[trigger] c.preview_withdrawn()),
{
    broadcast use {group_tables, lemma_same_window_conceal};
    reveal(ContextView::preview_withdrawn);
}

pub broadcast proof fn lemma_steady_alt_tab_undone(c: ContextView)
    ensures
        steady(c, #[trigger] c.alt_tab_undone()),
{
    broadcast use {
        group_tables,
        lemma_steady_alt_tab_cleared,
        lemma_steady_alt_tab_order_restored,
        lemma_steady_focus_preview,
        lemma_steady_preview_withdrawn,
        lemma_steady_stale_if,
    };
    reveal(ContextView::alt_tab_undone);
}

pub broadcast proof fn lemma_steady_menu_closed(c: ContextView)
    ensures
        steady(c, #[trigger] c.menu_closed()),
{
    broadcast use {
        group_tables,
        lemma_steady_alt_tab_cleared,
        lemma_steady_alt_tab_undone,
        lemma_steady_menu_dropped,
    };
    reveal(ContextView::menu_closed);
}

pub broadcast proof fn lemma_steady_alt_tab_committed(c: ContextView)
    ensures
        steady(c, #[trigger] c.alt_tab_committed()),
{
    broadcast use {group_tables, lemma_steady_menu_activated, lemma_steady_menu_closed};
    reveal(ContextView::alt_tab_committed);
}

pub broadcast proof fn lemma_steady_alt_tab_cancelled(c: ContextView)
    ensures
        steady(c, #[trigger] c.alt_tab_cancelled()),
{
    broadcast use {group_tables, lemma_steady_menu_closed};
    reveal(ContextView::alt_tab_cancelled);
}

pub broadcast proof fn lemma_steady_maximized(c: ContextView, id: WindowId)
    ensures
        steady(c, #[trigger] c.maximized(id)),
{
    broadcast use {group_tables, lemma_steady_output_followed, lemma_same_window_maximized_to};
    reveal(ContextView::maximized);
}

pub broadcast proof fn lemma_steady_snapped_half(c: ContextView, id: WindowId, side: SnapSide)
    ensures
        steady(c, #[trigger] c.snapped_half(id, side)),
{
    broadcast use {group_tables, lemma_steady_output_followed, lemma_same_window_snapped};
    reveal(ContextView::snapped_half);
}

pub broadcast proof fn lemma_steady_window_acted(c: ContextView, action: Action, id: WindowId)
    ensures
        steady(c, #[trigger] c.window_acted(action, id)),
{
    broadcast use {
        group_tables,
        lemma_steady_close_asked,
        lemma_steady_hide_window,
        lemma_steady_maximized,
        lemma_steady_smart_hidden,
        lemma_steady_snapped_half,
    };
    reveal(ContextView::window_acted);
}

pub broadcast proof fn lemma_steady_icon_chosen(
    c: ContextView,
    output: OutputId,
    icon: Option<WindowId>,
)
    ensures
        steady_given(
            c,
            #[trigger] c.icon_chosen(output, icon),
            icon is Some ==> icon->0 < c.next_window_id,
        ),
{
    broadcast use {group_tables, lemma_same_output_id_icon_selected};
    reveal(ContextView::icon_chosen);
}

pub broadcast proof fn lemma_steady_icon_focus_left(c: ContextView, seat: SeatId)
    ensures
        steady(c, #[trigger] c.icon_focus_left(seat)),
{
    broadcast use {group_tables, lemma_steady_icon_chosen, lemma_same_seat_switch_mode};
    reveal(ContextView::icon_focus_left);
}

pub broadcast proof fn lemma_steady_icon_activated(c: ContextView, seat: SeatId)
    ensures
        steady(c, #[trigger] c.icon_activated(seat)),
{
    broadcast use {
        group_tables,
        lemma_steady_desktops_stale,
        lemma_steady_focus,
        lemma_steady_icon_focus_left,
        lemma_steady_window_raised,
    };
    reveal(ContextView::icon_activated);
    if c.ids_given() && c.icon_focus_output is Some {
        lemma_output_icons_given(c, c.icon_focus_output->0);
    }
}

pub broadcast proof fn lemma_steady_icon_navigated(c: ContextView, dx: int, dy: int)
    ensures
        steady(c, #[trigger] c.icon_navigated(dx, dy)),
{
    broadcast use {group_tables, lemma_steady_icon_chosen};
    reveal(ContextView::icon_navigated);
    if c.ids_given() && c.icon_focus_output is Some {
        lemma_output_icons_given(c, c.icon_focus_output->0);
        if let Some(o) = c.output(c.icon_focus_output->0) {
            if let Some(desktop) = o.desktop_surface {
                if desktop.icons.len() > 0 {
                    lemma_navigated_in_range(desktop, dx, dy);
                }
            }
        }
    }
}

pub broadcast proof fn lemma_steady_menu_acted(c: ContextView, action: Action, seat: SeatId)
    ensures
        steady(c, #[trigger] c.menu_acted(action, seat)),
{
    broadcast use {
        group_tables,
        lemma_steady_alt_tab_cancelled,
        lemma_steady_alt_tab_committed,
        lemma_steady_icon_activated,
        lemma_steady_icon_focus_left,
        lemma_steady_icon_navigated,
        lemma_steady_menu_cycled,
        lemma_steady_pointer_menu_activated,
    };
    reveal(ContextView::menu_acted);
}

pub broadcast proof fn lemma_steady_fullscreen_toggled(c: ContextView)
    ensures
        steady(c, #[trigger] c.fullscreen_toggled()),
{
    broadcast use {group_tables, lemma_steady_unfullscreened, lemma_same_window_fullscreen_asked};
    reveal(ContextView::fullscreen_toggled);
}

pub broadcast proof fn lemma_steady_pointer_op(c: ContextView, seat: SeatId)
    ensures
        steady(c, #[trigger] c.pointer_op(seat)),
{
    broadcast use group_tables;
}

pub broadcast proof fn lemma_steady_move_started(
    c: ContextView,
    id: WindowId,
    seat: SeatId,
    adjust_y: bool,
    scale: spec_fn(i64, i32, i32) -> i32,
)
    ensures
        steady(c, #[trigger] c.move_started(id, seat, adjust_y, scale)),
{
    broadcast use {group_tables, lemma_steady_pointer_op, lemma_same_window_move_started};
    reveal(ContextView::move_started);
}

pub broadcast proof fn lemma_steady_pointer_move_started(
    c: ContextView,
    seat: SeatId,
    scale: spec_fn(i64, i32, i32) -> i32,
)
    ensures
        steady(c, #[trigger] c.pointer_move_started(seat, scale)),
{
    broadcast use {
        group_tables,
        lemma_steady_focus,
        lemma_steady_move_started,
        lemma_same_window_move_started,
    };
    reveal(ContextView::pointer_move_started);
}

pub broadcast proof fn lemma_steady_cursor_updated(c: ContextView, seat: SeatId)
    ensures
        steady(c, #[trigger] c.cursor_updated(seat)),
{
    broadcast use {group_tables, lemma_same_seat_set_cursor_shape};
    reveal(ContextView::cursor_updated);
}

pub broadcast proof fn lemma_steady_corner_grabbed(c: ContextView, id: WindowId, seat: SeatId)
    ensures
        steady(c, #[trigger] c.corner_grabbed(id, seat)),
{
    broadcast use {
        group_tables,
        lemma_steady_cursor_updated,
        lemma_steady_pointer_op,
        lemma_same_window_resize_grabbed,
    };
    reveal(ContextView::corner_grabbed);
}

pub broadcast proof fn lemma_steady_pointer_resize_started(c: ContextView, seat: SeatId)
    ensures
        steady(c, #[trigger] c.pointer_resize_started(seat)),
{
    broadcast use {group_tables, lemma_steady_corner_grabbed, lemma_steady_focus};
    reveal(ContextView::pointer_resize_started);
}

pub broadcast proof fn lemma_steady_carried_across(
    c: ContextView,
    id: WindowId,
    w: WindowView,
    from: Area,
    to: Area,
    scale: spec_fn(i64, i32, i32) -> i32,
)
    ensures
        steady(c, #[trigger] c.carried_across(id, w, from, to, scale)),
{
    broadcast use {group_tables, lemma_same_window_carried_over};
    reveal(ContextView::carried_across);
}

pub broadcast proof fn lemma_steady_fullscreen_moved(c: ContextView, id: WindowId, to: OutputId)
    ensures
        steady(c, #[trigger] c.fullscreen_moved(id, to)),
{
    broadcast use {group_tables, lemma_same_window_fullscreen_entered};
    reveal(ContextView::fullscreen_moved);
}

pub broadcast proof fn lemma_steady_sent_across(
    c: ContextView,
    id: WindowId,
    from: OutputId,
    to: OutputId,
    scale: spec_fn(i64, i32, i32) -> i32,
)
    ensures
        steady(c, #[trigger] c.sent_across(id, from, to, scale)),
{
    broadcast use {
        group_tables,
        lemma_steady_carried_across,
        lemma_steady_fullscreen_moved,
        lemma_steady_window_output_set,
    };
    reveal(ContextView::sent_across);
}

pub broadcast proof fn lemma_steady_sent_to_output(
    c: ContextView,
    direction: Direction,
    scale: spec_fn(i64, i32, i32) -> i32,
)
    ensures
        steady(c, #[trigger] c.sent_to_output(direction, scale)),
{
    broadcast use {group_tables, lemma_steady_sent_across};
    reveal(ContextView::sent_to_output);
}

pub broadcast proof fn lemma_steady_spawned(c: ContextView, argv: Seq<Seq<char>>)
    ensures
        steady(c, #[trigger] c.spawned(argv)),
{
    broadcast use group_tables;
}

pub broadcast proof fn lemma_steady_acted(
    c: ContextView,
    action: ActionView,
    seat: SeatId,
    scale: spec_fn(i64, i32, i32) -> i32,
)
    ensures
        steady(c, #[trigger] c.acted(action, seat, scale)),
{
    broadcast use {
        group_tables,
        lemma_steady_ask,
        lemma_steady_focus_iter,
        lemma_steady_focus_output_iter,
        lemma_steady_focus_restored,
        lemma_steady_fullscreen_toggled,
        lemma_steady_keyboard_focus_cleared,
        lemma_steady_menu_acted,
        lemma_steady_mode_switched,
        lemma_steady_pointer_move_started,
        lemma_steady_pointer_resize_started,
        lemma_steady_sent_to_output,
        lemma_steady_spawned,
        lemma_steady_window_acted,
    };
    reveal(ContextView::acted);
}

pub broadcast proof fn lemma_steady_all_acted(
    c: ContextView,
    actions: Seq<ActionView>,
    seat: SeatId,
    scale: spec_fn(i64, i32, i32) -> i32,
)
    ensures
        steady(c, #[trigger] c.all_acted(actions, seat, scale)),
    decreases actions.len(),
{
    broadcast use {group_tables, lemma_steady_acted};
    if actions.len() > 0 {
        lemma_steady_all_acted(c, actions.drop_last(), seat, scale);
    }
}

pub broadcast proof fn lemma_steady_seat_served(
    c: ContextView,
    seat: SeatId,
    scale: spec_fn(i64, i32, i32) -> i32,
)
    ensures
        steady(c, #[trigger] c.seat_served(seat, scale)),
{
    broadcast use {group_tables, lemma_steady_all_acted};
    reveal(ContextView::seat_served);
}

pub broadcast proof fn lemma_steady_seats_served(
    c: ContextView,
    seats: Seq<SeatId>,
    scale: spec_fn(i64, i32, i32) -> i32,
)
    ensures
        steady(c, #[trigger] c.seats_served(seats, scale)),
    decreases seats.len(),
{
    broadcast use {group_tables, lemma_steady_seat_served};
    if seats.len() > 0 {
        lemma_steady_seats_served(c, seats.drop_last(), scale);
    }
}

pub broadcast proof fn lemma_steady_window_initialized(c: ContextView, id: WindowId)
    ensures
        steady_given(c, #[trigger] c.window_initialized(id), id < c.next_window_id),
{
    broadcast use {group_tables, lemma_steady_focus, lemma_same_window_initialized};
    reveal(ContextView::window_initialized);
}

pub broadcast proof fn lemma_steady_resize_begun(c: ContextView, id: WindowId, seat: SeatId, edges: u32)
    ensures
        steady(c, #[trigger] c.resize_begun(id, seat, edges)),
{
    broadcast use {group_tables, lemma_steady_pointer_op, lemma_same_window_resize_asked};
    reveal(ContextView::resize_begun);
}

pub broadcast proof fn lemma_steady_fullscreened(c: ContextView, id: WindowId, wanted: Option<OutputId>)
    ensures
        steady(c, #[trigger] c.fullscreened(id, wanted)),
{
    broadcast use {group_tables, lemma_same_window_fullscreen_asked};
    reveal(ContextView::fullscreened);
}

pub broadcast proof fn lemma_steady_event_handled(
    c: ContextView,
    id: WindowId,
    event: WindowEvent,
    scale: spec_fn(i64, i32, i32) -> i32,
)
    ensures
        steady_given(c, #[trigger] c.event_handled(id, event, scale), id < c.next_window_id),
{
    broadcast use {
        group_tables,
        lemma_steady_close_asked,
        lemma_steady_fullscreened,
        lemma_steady_hide_window,
        lemma_steady_maximized,
        lemma_steady_pointer_move_started,
        lemma_steady_resize_begun,
        lemma_steady_unfullscreened,
        lemma_steady_unmaximized,
        lemma_steady_window_initialized,
        lemma_same_window_unmaximized,
    };
    reveal(ContextView::event_handled);
}

pub broadcast proof fn lemma_steady_events_handled(
    c: ContextView,
    id: WindowId,
    events: Seq<WindowEvent>,
    scale: spec_fn(i64, i32, i32) -> i32,
)
    ensures
        steady_given(c, #[trigger] c.events_handled(id, events, scale), id < c.next_window_id),
    decreases events.len(),
{
    broadcast use {group_tables, lemma_steady_event_handled};
    if events.len() > 0 {
        lemma_steady_events_handled(c, id, events.drop_last(), scale);
    }
}

pub broadcast proof fn lemma_steady_window_served(
    c: ContextView,
    id: WindowId,
    scale: spec_fn(i64, i32, i32) -> i32,
)
    ensures
        steady(c, #[trigger] c.window_served(id, scale)),
{
    broadcast use {group_tables, lemma_steady_events_handled};
    reveal(ContextView::window_served);
}

pub broadcast proof fn lemma_steady_windows_served(
    c: ContextView,
    ids: Seq<WindowId>,
    scale: spec_fn(i64, i32, i32) -> i32,
)
    ensures
        steady(c, #[trigger] c.windows_served(ids, scale)),
    decreases ids.len(),
{
    broadcast use {group_tables, lemma_steady_window_served};
    if ids.len() > 0 {
        lemma_steady_windows_served(c, ids.drop_last(), scale);
    }
}

pub broadcast proof fn lemma_steady_outputs_followed(c: ContextView, ids: Seq<WindowId>)
    ensures
        steady(c, #[trigger] c.outputs_followed(ids)),
    decreases ids.len(),
{
    broadcast use {group_tables, lemma_steady_output_followed};
    if ids.len() > 0 {
        lemma_steady_outputs_followed(c, ids.drop_last());
    }
}

pub broadcast proof fn lemma_steady_rules_reapplied(c: ContextView)
    ensures
        steady(c, #[trigger] c.rules_reapplied()),
{
    broadcast use group_tables;
    reveal(ContextView::rules_reapplied);
    broadcast use lemma_same_window_ruled;
    lemma_steady_each_window(
        ContextView { pending_reapply_rules: false, ..c },
        c.windows.len() as int,
        ruled(c.config.rules@),
    );
}

pub broadcast proof fn lemma_steady_managed(c: ContextView, scale: spec_fn(i64, i32, i32) -> i32)
    ensures
        steady(c, #[trigger] c.managed(scale)),
{
    broadcast use {
        group_tables,
        lemma_steady_outputs_followed,
        lemma_steady_rules_reapplied,
        lemma_steady_seats_served,
        lemma_steady_windows_served,
    };
    reveal(ContextView::managed);
    broadcast use lemma_same_window_fullscreen_restored;
    let d = c.rules_reapplied();
    lemma_steady_each_window(d, d.windows.len() as int, restoring());
}

pub broadcast proof fn lemma_steady_manage_finished(c: ContextView)
    ensures
        steady(c, #[trigger] c.manage_finished()),
{
    broadcast use {group_tables, lemma_steady_manage_dirty, lemma_steady_tell_manager};
    reveal(ContextView::manage_finished);
}

pub broadcast proof fn lemma_steady_render_finished(c: ContextView)
    ensures
        steady(c, #[trigger] c.render_finished()),
{
    broadcast use {group_tables, lemma_steady_tell_manager};
}

pub broadcast proof fn lemma_steady_alt_tab_begun(c: ContextView)
    ensures
        steady(c, #[trigger] c.alt_tab_begun()),
{
    broadcast use group_tables;
    reveal(ContextView::alt_tab_begun);
}

pub broadcast proof fn lemma_steady_preview_set(c: ContextView, id: WindowId, was_hidden: bool)
    ensures
        steady(c, #[trigger] c.preview_set(id, was_hidden)),
{
    broadcast use group_tables;
    reveal(ContextView::preview_set);
}

pub broadcast proof fn lemma_steady_preview_shown(c: ContextView, id: WindowId, changed: bool)
    ensures
        steady(c, #[trigger] c.preview_shown(id, changed)),
{
    broadcast use {
        group_tables,
        lemma_steady_focus_preview_visual,
        lemma_steady_preview_set,
        lemma_steady_stale_if,
        lemma_steady_window_raised,
    };
    reveal(ContextView::preview_shown);
}

pub broadcast proof fn lemma_steady_alt_tab_previewed(c: ContextView, id: WindowId)
    ensures
        steady(c, #[trigger] c.alt_tab_previewed(id)),
{
    broadcast use {
        group_tables,
        lemma_steady_alt_tab_begun,
        lemma_steady_alt_tab_order_restored,
        lemma_steady_preview_shown,
        lemma_steady_preview_withdrawn,
    };
    reveal(ContextView::alt_tab_previewed);
}

pub broadcast proof fn lemma_steady_icon_focus_entered(
    c: ContextView,
    output: OutputId,
    window: WindowId,
    seat: SeatId,
)
    ensures
        steady_given(
            c,
            #[trigger] c.icon_focus_entered(output, window, seat),
            window < c.next_window_id,
        ),
{
    broadcast use {group_tables, lemma_steady_icon_chosen, lemma_same_seat_id_queued};
    reveal(ContextView::icon_focus_entered);
}

pub broadcast proof fn lemma_steady_reloaded(c: ContextView, config: Config)
    ensures
        steady(c, #[trigger] c.reloaded(config)),
{
    broadcast use {
        group_tables,
        lemma_steady_desktops_stale,
        lemma_steady_manage_dirty,
        lemma_same_id_titlebar_stale,
    };
    assert(c.windows.map_values(|w: WindowView| w.titlebar_stale()).map_values(window_id())
        =~= c.windows.map_values(window_id()));
}

pub broadcast proof fn lemma_steady_edges_grabbed(
    c: ContextView,
    id: WindowId,
    seat: SeatId,
    edges: u32,
)
    ensures
        steady(c, #[trigger] c.edges_grabbed(id, seat, edges)),
{
    broadcast use {
        group_tables,
        lemma_steady_cursor_updated,
        lemma_steady_pointer_op,
        lemma_same_window_resize_grabbed,
    };
    reveal(ContextView::edges_grabbed);
}

pub broadcast proof fn lemma_steady_window_interaction(
    c: ContextView,
    seat: SeatId,
    id: WindowId,
    scale: spec_fn(i64, i32, i32) -> i32,
)
    ensures
        steady(c, #[trigger] c.window_interaction(seat, id, scale)),
{
    broadcast use {
        group_tables,
        lemma_steady_edges_grabbed,
        lemma_steady_move_started,
        lemma_same_window_move_started,
    };
    reveal(ContextView::window_interaction);
}

pub broadcast proof fn lemma_steady_put_at(c: ContextView, id: WindowId, place: (i32, i32))
    ensures
        steady(c, #[trigger] c.put_at(id, place)),
{
    broadcast use {group_tables, lemma_same_window_set_position};
    reveal(ContextView::put_at);
}

pub broadcast proof fn lemma_steady_cascaded(c: ContextView, ids: Seq<WindowId>, area: Area, n: int)
    ensures
        steady(c, #[trigger] c.cascaded(ids, area, n)),
    decreases n,
{
    broadcast use {group_tables, lemma_steady_put_at};
    if n > 0 {
        lemma_steady_cascaded(c, ids, area, n - 1);
    }
}

pub broadcast proof fn lemma_steady_cascaded_on(c: ContextView, ids: Seq<WindowId>, output: OutputView)
    ensures
        steady(c, #[trigger] c.cascaded_on(ids, output)),
{
    broadcast use {group_tables, lemma_steady_cascaded};
    reveal(ContextView::cascaded_on);
}

pub broadcast proof fn lemma_steady_all_cascaded(d: ContextView, c: ContextView, n: int)
    ensures
        steady(d, #[trigger] d.all_cascaded(c, n)),
    decreases n,
{
    broadcast use {group_tables, lemma_steady_cascaded_on};
    if n > 0 {
        lemma_steady_all_cascaded(d, c, n - 1);
    }
}

pub broadcast proof fn lemma_steady_positions_applied(c: ContextView)
    ensures
        steady(c, #[trigger] c.positions_applied()),
{
    broadcast use {group_tables, lemma_steady_all_cascaded};
    reveal(ContextView::positions_applied);
    broadcast use lemma_same_window_put;
    lemma_steady_each_window(c, c.windows.len() as int, dialog_step(c));
}

pub broadcast proof fn lemma_steady_unminimized(c: ContextView)
    ensures
        steady(c, #[trigger] c.unminimized()),
{
    broadcast use group_tables;
    reveal(ContextView::unminimized);
    broadcast use lemma_same_window_show;
    lemma_steady_each_window(c, c.windows.len() as int, show_step());
}

pub broadcast proof fn lemma_steady_focused_root_raised(c: ContextView)
    ensures
        steady(c, #[trigger] c.focused_root_raised()),
{
    broadcast use {group_tables, lemma_steady_placed_top};
    reveal(ContextView::focused_root_raised);
}

pub broadcast proof fn lemma_steady_child_placed(c: ContextView, i: int, depth: nat)
    ensures
        steady(c, #[trigger] c.child_placed(i, depth)),
{
    broadcast use group_tables;
    reveal(ContextView::child_placed);
}

pub broadcast proof fn lemma_steady_level_placed(c: ContextView, n: int, depth: nat)
    ensures
        steady(c, #[trigger] c.level_placed(n, depth)),
    decreases n,
{
    broadcast use {group_tables, lemma_steady_child_placed};
    if n > 0 {
        lemma_steady_level_placed(c, n - 1, depth);
    }
}

pub broadcast proof fn lemma_steady_levels_placed(c: ContextView, depth: nat)
    ensures
        steady(c, #[trigger] c.levels_placed(depth)),
    decreases depth,
{
    broadcast use {group_tables, lemma_steady_level_placed};
    if depth > 0 {
        lemma_steady_levels_placed(c, (depth - 1) as nat);
    }
}

pub broadcast proof fn lemma_steady_rendered(c: ContextView)
    ensures
        steady(c, #[trigger] c.rendered()),
{
    broadcast use {
        group_tables,
        lemma_steady_focused_root_raised,
        lemma_steady_levels_placed,
        lemma_steady_positions_applied,
        lemma_steady_unminimized,
    };
    reveal(ContextView::rendered);
    broadcast use lemma_same_window_rendered;
    let d = c.positions_applied().unminimized();
    lemma_steady_each_window(
        d,
        d.windows.len() as int,
        render_step(d, !c.startup_unminimize_done),
    );
}

} // verus!
