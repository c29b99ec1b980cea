//! Where windows end up when they are maximized, snapped, made fullscreen or
//! sent to another output.

use vstd::prelude::*;
use crate::binding::action::{Direction, SnapSide};
use crate::canoe::context::focus::{covered, is_id, most_covered, overlap, place_of, step_around};
use crate::canoe::context::laws::{
    is_back, law_unmaximizing_restores_geometry, law_window_is_where_most_of_it_is,
};
use crate::canoe::context::placement::{half, windowed_geometry};
use crate::canoe::context::{is_output, is_window, ContextView};
use crate::canoe::output::{Area, OutputView};
use crate::canoe::snap::{carried, law_carried_rect_lies_inside};
use crate::canoe::titlebar::spec_titlebar_height;
use crate::canoe::window::{FullscreenState, SavedGeometry, SnapState, Staged, WindowView};
use crate::canoe::{OutputId, WindowId};
use crate::config::WindowDecoration;
use crate::num::larger;
use crate::protocol::{ObjectId, Request};
use crate::search::{lemma_first, lemma_first_is};

verus! {

/// The two halves of an area meet without a gap or an overlap, reach from one
/// side of the area to the other, and are as tall as it. Their widths differ by
/// one pixel at most, and that one is in the right half.
pub proof fn law_halves_partition_the_area(area: Area)
    requires
        area.2 >= 0,
        area.0 + area.2 <= i32::MAX,
    ensures
        half(area, SnapSide::Left).0 == area.0,
        half(area, SnapSide::Right).0 == half(area, SnapSide::Left).0 + half(area, SnapSide::Left).2,
        half(area, SnapSide::Right).0 + half(area, SnapSide::Right).2 == area.0 + area.2,
        0 <= half(area, SnapSide::Right).2 - half(area, SnapSide::Left).2 <= 1,
        half(area, SnapSide::Left).1 == area.1,
        half(area, SnapSide::Right).1 == area.1,
        half(area, SnapSide::Left).3 == area.3,
        half(area, SnapSide::Right).3 == area.3,
{
}

/// The border that is drawn around a window: none unless the window manager
/// decorates it.
pub open spec fn border_of(c: ContextView, w: WindowView) -> int {
    if w.decoration == Some(WindowDecoration::Ssd) {
        c.config.ui.border_width as int
    } else {
        0
    }
}

/// How much the titlebar adds above the visible content of a window. What the
/// window asked to be swallowed of its top is covered.
pub open spec fn top_of(c: ContextView, w: WindowView) -> int {
    let titlebar = if w.decoration == Some(WindowDecoration::Ssd) {
        spec_titlebar_height(c.config.ui.font_size) as int
    } else {
        0
    };
    if w.swallow_top > 0 {
        titlebar - w.swallow_top
    } else {
        titlebar
    }
}

/// Whether a window, in the size it was last asked to take, and its decorations
/// reach exactly from `left` to `right` and from `top` to `bottom`.
pub open spec fn spans(
    c: ContextView,
    w: WindowView,
    left: int,
    top: int,
    right: int,
    bottom: int,
) -> bool {
    &&& w.x - border_of(c, w) == left
    &&& w.y - border_of(c, w) - top_of(c, w) == top
    &&& w.x + w.proposed_width + border_of(c, w) == right
    &&& w.y + w.proposed_height + border_of(c, w) == bottom
}

/// Whether a window with its decorations can be made to fill an area of this
/// place and size.
pub open spec fn fits(c: ContextView, w: WindowView, area: Area, width: int) -> bool {
    &&& 0 <= border_of(c, w)
    &&& 1 <= width - 2 * border_of(c, w)
    &&& w.min_width <= width - 2 * border_of(c, w)
    &&& 1 <= area.3 - 2 * border_of(c, w) - top_of(c, w) <= i32::MAX
    &&& w.min_height <= area.3 - 2 * border_of(c, w) - top_of(c, w)
    &&& area.0 + area.2 <= i32::MAX
    &&& area.1 + area.3 <= i32::MAX
    &&& i32::MIN <= area.1 + border_of(c, w) + top_of(c, w)
}

/// Following a window to its output changes nothing that decides where the
/// window is placed.
pub proof fn lemma_following_keeps_the_place(c: ContextView, id: WindowId)
    ensures
        ({
            let d = c.output_followed(id);
            &&& d.window_index(id) == c.window_index(id)
            &&& d.placement_output(id) == c.placement_output(id)
            &&& d.config == c.config
            &&& d.rwm == c.rwm
            &&& d.outputs == c.outputs
            &&& d.windows.len() == c.windows.len()
            &&& c.window_index(id) matches Some(i) ==> d.windows[i] == (WindowView {
                output: d.windows[i].output,
                ..c.windows[i]
            })
        }),
{
    reveal(ContextView::output_followed);
    reveal(ContextView::window_output_set);
    reveal(ContextView::default_output_set);
    reveal(ContextView::placement_output);
    reveal(ContextView::output_for_rect);
    reveal(ContextView::output_at_point);
    lemma_first(c.windows, is_window(id));
    let d = c.output_followed(id);
    match c.window_index(id) {
        Some(i) => {
            assert forall|j: int| 0 <= j < i implies !is_window(id)(#[trigger] d.windows[j]) by {
                assert(!is_window(id)(c.windows[j]));
            }
            lemma_first_is(d.windows, is_window(id), i);
            lemma_cover_ignores_the_assignment(c.windows[i], d.windows[i], c.outputs);
        },
        None => {},
    }
}

proof fn lemma_cover_ignores_the_assignment(v: WindowView, w: WindowView, outputs: Seq<OutputView>)
    requires
        v.x == w.x,
        v.y == w.y,
        v.width == w.width,
        v.height == w.height,
    ensures
        most_covered(v, outputs) == most_covered(w, outputs),
    decreases outputs.len(),
{
    if outputs.len() > 0 {
        lemma_cover_ignores_the_assignment(v, w, outputs.drop_last());
    }
}

/// A step on a window is found where the window was.
pub proof fn lemma_committed(c: ContextView, id: WindowId, i: int, s: Staged)
    requires
        c.window_index(id) == Some(i),
        s.window.id == c.windows[i].id,
    ensures
        c.commit(i, s).window_index(id) == Some(i),
        c.commit(i, s).window(id) == Some(s.window),
        c.commit(i, s).windows[i] == s.window,
{
    lemma_first(c.windows, is_window(id));
    let d = c.commit(i, s);
    assert(is_window(id)(c.windows[i]));
    assert(is_window(id)(d.windows[i]));
    assert forall|j: int| 0 <= j < i implies !is_window(id)(#[trigger] d.windows[j]) by {
        assert(!is_window(id)(c.windows[j]));
    }
    lemma_first_is(d.windows, is_window(id), i);
}

/// What a maximized window is: at its place, with the size asked for.
pub proof fn lemma_maximized_to(s: Staged, place: SavedGeometry)
    ensures
        ({
            let w = s.maximized_to(place).window;
            &&& is_back(w, place)
            &&& w.id == s.window.id
            &&& w.maximized
            &&& w.snap_state == Some(SnapState::Maximized)
            &&& w.min_width == s.window.min_width
            &&& w.min_height == s.window.min_height
            &&& w.decoration == s.window.decoration
            &&& w.swallow_top == s.window.swallow_top
            &&& w.pre_snap == (if !s.window.maximized && s.window.pre_snap is None {
                Some(s.window.geometry())
            } else {
                s.window.pre_snap
            })
        }),
{
    reveal(Staged::maximized_to);
    reveal(Staged::restore);
    reveal(Staged::set_position);
    reveal(Staged::propose_dimensions);
    reveal(Staged::propose_raw);
    reveal(Staged::inform_maximized);
}

/// What a freshly snapped window is.
pub proof fn lemma_snapped(s: Staged, target: SnapState, place: SavedGeometry, manager: Option<ObjectId>)
    requires
        s.window.snap_state != Some(target),
        s.window.snap_state != Some(target.opposite()),
    ensures
        ({
            let w = s.snapped(target, place, manager).window;
            &&& is_back(w, place)
            &&& w.id == s.window.id
            &&& !w.maximized
            &&& w.snap_state == Some(target)
            &&& w.fullscreen == FullscreenState::Off
            &&& w.min_width == s.window.min_width
            &&& w.min_height == s.window.min_height
            &&& w.decoration == s.window.decoration
            &&& w.swallow_top == s.window.swallow_top
        }),
{
    reveal(Staged::snapped);
    reveal(Staged::unmaximized_to_snap);
    reveal(Staged::snap_remembered);
    reveal(Staged::fullscreen_dropped);
    reveal(Staged::exit_fullscreen);
    reveal(Staged::clear_maximized_without_restore);
    reveal(Staged::inform_unmaximized);
    reveal(Staged::snap_placed);
    reveal(Staged::restore);
    reveal(Staged::set_position);
    reveal(Staged::propose_dimensions);
    reveal(Staged::propose_raw);
}

/// A maximized window and its decorations fill the usable area of the output
/// that it is placed on: from its left to its right edge and from its top to its
/// bottom edge. Where the window was is remembered.
pub proof fn law_maximized_window_fills_its_output(c: ContextView, id: WindowId, o: OutputView, area: Area)
    requires
        c.window(id) is Some,
        c.placement_output(id) == Some(o),
        area == (match o.exclusive_area {
            Some(free) => free,
            None => (o.x, o.y, o.width, o.height),
        }),
        fits(c, c.window(id)->0, area, area.2 as int),
    ensures
        c.maximized(id).window(id) matches Some(w) && {
            &&& spans(
                c,
                w,
                area.0 as int,
                area.1 as int,
                area.0 + area.2,
                area.1 + area.3,
            )
            &&& w.maximized
            &&& w.snap_state == Some(SnapState::Maximized)
            &&& c.window(id)->0.pre_snap is None && !c.window(id)->0.maximized ==> w.pre_snap
                == Some(
                SavedGeometry {
                    x: c.window(id)->0.x,
                    y: c.window(id)->0.y,
                    width: c.window(id)->0.width,
                    height: c.window(id)->0.height,
                },
            )
        },
{
    reveal(ContextView::maximized);
    lemma_following_keeps_the_place(c, id);
    lemma_first(c.windows, is_window(id));
    let d = c.output_followed(id);
    let i = c.window_index(id)->0;
    let place = d.insets(d.windows[i]).content(o.usable_area());
    lemma_maximized_to(d.staged(i), place);
    lemma_committed(d, id, i, d.staged(i).maximized_to(place));
}

/// A window that is snapped to the left and the same window snapped to the right
/// divide the usable area between them: with its decorations the one reaches from
/// the left edge of the area to where the other begins, which reaches to the right
/// edge. Both are as tall as the area, and the left one is as wide as the right
/// one or one pixel narrower.
pub proof fn law_snapped_windows_divide_the_area(c: ContextView, id: WindowId, o: OutputView, area: Area)
    requires
        c.window(id) is Some,
        c.window(id)->0.snap_state is None || c.window(id)->0.snap_state == Some(
            SnapState::Maximized,
        ),
        c.placement_output(id) == Some(o),
        area == (match o.exclusive_area {
            Some(free) => free,
            None => (o.x, o.y, o.width, o.height),
        }),
        fits(c, c.window(id)->0, area, area.2 as int / 2),
    ensures
        exists|middle: int| #[trigger]
            spans(
                c,
                c.snapped_half(id, SnapSide::Left).window(id)->0,
                area.0 as int,
                area.1 as int,
                middle,
                area.1 + area.3,
            ) && spans(
                c,
                c.snapped_half(id, SnapSide::Right).window(id)->0,
                middle,
                area.1 as int,
                area.0 + area.2,
                area.1 + area.3,
            ) && 0 <= (area.0 + area.2 - middle) - (middle - area.0) <= 1,
        c.snapped_half(id, SnapSide::Left).window(id) matches Some(w) && w.snap_state == Some(
            SnapState::Left,
        ) && !w.maximized && w.fullscreen == FullscreenState::Off,
        c.snapped_half(id, SnapSide::Right).window(id) matches Some(w) && w.snap_state == Some(
            SnapState::Right,
        ) && !w.maximized && w.fullscreen == FullscreenState::Off,
{
    reveal(ContextView::snapped_half);
    lemma_following_keeps_the_place(c, id);
    lemma_first(c.windows, is_window(id));
    let d = c.output_followed(id);
    let i = c.window_index(id)->0;
    let left = d.insets(d.windows[i]).content(half(o.usable_area(), SnapSide::Left));
    let right = d.insets(d.windows[i]).content(half(o.usable_area(), SnapSide::Right));
    lemma_snapped(d.staged(i), SnapState::Left, left, d.rwm);
    lemma_snapped(d.staged(i), SnapState::Right, right, d.rwm);
    lemma_committed(d, id, i, d.staged(i).snapped(SnapState::Left, left, d.rwm));
    lemma_committed(d, id, i, d.staged(i).snapped(SnapState::Right, right, d.rwm));
    let middle = area.0 + area.2 / 2;
    assert(spans(
        c,
        c.snapped_half(id, SnapSide::Left).window(id)->0,
        area.0 as int,
        area.1 as int,
        middle,
        area.1 + area.3,
    ));
}

/// A window that lies on one output alone is placed on that one.
pub proof fn law_window_is_placed_where_it_lies(c: ContextView, id: WindowId, k: int)
    requires
        c.window(id) is Some,
        0 <= k < c.outputs.len(),
        forall|j: int|
            0 <= j < c.outputs.len() && j != k ==> (#[trigger] c.outputs[j]).id != c.outputs[k].id,
    ensures
        ({
            let w = c.window(id)->0;
            let o = c.outputs[k];
            o.x <= w.x && w.x + w.width <= o.x + o.width && o.y <= w.y && w.y + w.height <= o.y
                + o.height && w.width > 0 && w.height > 0 && (forall|j: int|
                0 <= j < c.outputs.len() && j != k ==> {
                    let p = #[trigger] c.outputs[j];
                    w.x + w.width <= p.x || p.x + p.width <= w.x || w.y + w.height <= p.y || p.y
                        + p.height <= w.y
                }) ==> c.placement_output(id) == Some(o)
        }),
{
    reveal(ContextView::placement_output);
    reveal(ContextView::output_for_rect);
    let w = c.window(id)->0;
    let o = c.outputs[k];
    if o.x <= w.x && w.x + w.width <= o.x + o.width && o.y <= w.y && w.y + w.height <= o.y + o.height
        && w.width > 0 && w.height > 0 && (forall|j: int|
        0 <= j < c.outputs.len() && j != k ==> {
            let p = #[trigger] c.outputs[j];
            w.x + w.width <= p.x || p.x + p.width <= w.x || w.y + w.height <= p.y || p.y + p.height
                <= w.y
        }) {
        assert(covered(w, o) == w.width * w.height);
        assert(w.width * w.height > 0) by (nonlinear_arith)
            requires
                w.width > 0,
                w.height > 0,
        ;
        law_window_is_where_most_of_it_is(w, c.outputs, k);
        let (found, area) = most_covered(w, c.outputs)->0;
        let i = choose|i: int|
            0 <= i < c.outputs.len() && (#[trigger] c.outputs[i]).id == found && covered(
                w,
                c.outputs[i],
            ) == area;
        if i != k {
            let p = c.outputs[i];
            assert(overlap(w.x as int, w.width as int, p.x as int, p.width as int) == 0 || overlap(
                w.y as int,
                w.height as int,
                p.y as int,
                p.height as int,
            ) == 0);
            vstd::arithmetic::mul::lemma_mul_basics(
                overlap(w.x as int, w.width as int, p.x as int, p.width as int),
            );
            vstd::arithmetic::mul::lemma_mul_basics(
                overlap(w.y as int, w.height as int, p.y as int, p.height as int),
            );
            assert(covered(w, p) == 0);
        }
        lemma_found_output(c, k);
    }
}

/// The output at a place of the table, where no other has its id, is found by it.
proof fn lemma_found_output(c: ContextView, k: int)
    requires
        0 <= k < c.outputs.len(),
        forall|j: int|
            0 <= j < c.outputs.len() && j != k ==> (#[trigger] c.outputs[j]).id != c.outputs[k].id,
    ensures
        c.output_index(c.outputs[k].id) == Some(k),
        c.output(c.outputs[k].id) == Some(c.outputs[k]),
{
    lemma_first_is(c.outputs, is_output(c.outputs[k].id), k);
}

/// A window that was maximized and no longer is goes back to where it was.
pub proof fn law_unmaximized_window_is_back(c: ContextView, id: WindowId)
    requires
        c.window(id) is Some,
        c.placement_output(id) is Some,
        !c.window(id)->0.maximized,
        c.window(id)->0.pre_snap is None,
    ensures
        c.maximized(id).unmaximized(id).window(id) matches Some(w) && {
            &&& w.x == c.window(id)->0.x
            &&& w.y == c.window(id)->0.y
            &&& w.proposed_width == larger(
                c.window(id)->0.width as int,
                c.window(id)->0.min_width as int,
            )
            &&& w.proposed_height == larger(
                c.window(id)->0.height as int,
                c.window(id)->0.min_height as int,
            )
            &&& !w.maximized
            &&& w.snap_state is None
            &&& w.pre_snap is None
        },
{
    reveal(ContextView::maximized);
    reveal(ContextView::unmaximized);
    lemma_following_keeps_the_place(c, id);
    lemma_first(c.windows, is_window(id));
    let d = c.output_followed(id);
    let i = c.window_index(id)->0;
    let o = c.placement_output(id)->0;
    let place = d.insets(d.windows[i]).content(o.usable_area());
    let s = d.staged(i).maximized_to(place);
    law_unmaximizing_restores_geometry(d.staged(i), place);
    lemma_maximized_to(d.staged(i), place);
    lemma_committed(d, id, i, s);
    let e = d.commit(i, s);
    lemma_unmaximized(e.staged(i));
    assert(e.staged(i) == s);
    lemma_committed(e, id, i, s.unmaximized());
}

pub proof fn lemma_unmaximized(s: Staged)
    ensures
        s.unmaximized().window.id == s.window.id,
        s.unmaximized().window.min_width == s.window.min_width,
        s.unmaximized().window.min_height == s.window.min_height,
{
    reveal(Staged::unmaximized);
    reveal(Staged::restore_pre_snap);
    reveal(Staged::restore);
    reveal(Staged::set_position);
    reveal(Staged::propose_dimensions);
    reveal(Staged::propose_raw);
    reveal(Staged::inform_unmaximized);
}

/// What a window is that has gone fullscreen.
proof fn lemma_fullscreen_asked(s: Staged, saved: SavedGeometry, obj: ObjectId, output: OutputId)
    ensures
        ({
            let t = s.fullscreen_asked(saved, Some((obj, output)));
            &&& t.window == (WindowView {
                fullscreen: FullscreenState::Output(output),
                pending_unfullscreen_restore: false,
                pre_fullscreen: if s.window.pre_fullscreen is None {
                    Some(saved)
                } else {
                    s.window.pre_fullscreen
                },
                ..s.window
            })
            &&& s.window.rwm_window matches Some(window) ==> t.requests == s.requests.push(
                Request::Fullscreen { window, output: obj }@,
            ).push(Request::InformFullscreen { window }@)
        }),
{
    reveal(Staged::fullscreen_asked);
    reveal(Staged::fullscreen_entered);
    reveal(Staged::fullscreen_on);
}

/// A window that asks for fullscreen gets it on the output it asks for, if there
/// is that one; else on the output it is on, else on the current one, else on the
/// first. The compositor and the window are told so. Where the window goes back to
/// stays known from an earlier time.
pub proof fn law_fullscreen_goes_where_it_is_asked(
    c: ContextView,
    id: WindowId,
    wanted: Option<OutputId>,
    target: OutputId,
    obj: ObjectId,
)
    requires
        c.window(id) is Some,
        c.output(target) matches Some(o) && o.rwm_output == Some(obj),
        ({
            let own = c.window(id)->0.output;
            let no_wish = wanted is None || c.output(wanted->0) is None;
            let homeless = own is None || c.output(own->0) is None;
            let nowhere = c.current_output is None || c.output(c.current_output->0) is None;
            ||| wanted == Some(target)
            ||| no_wish && own == Some(target)
            ||| no_wish && homeless && c.current_output == Some(target)
            ||| no_wish && homeless && nowhere && c.outputs[0].id == target
        }),
    ensures
        ({
            let d = c.fullscreened(id, wanted);
            &&& d.window(id) matches Some(w) && w.fullscreen == FullscreenState::Output(target)
                && !w.pending_unfullscreen_restore
            &&& c.window(id)->0.pre_fullscreen matches Some(saved) ==> d.window(
                id,
            )->0.pre_fullscreen == Some(saved)
            &&& c.window(id)->0.rwm_window matches Some(window) ==> d.requests == c.requests.push(
                Request::Fullscreen { window, output: obj }@,
            ).push(Request::InformFullscreen { window }@)
        }),
{
    reveal(ContextView::fullscreened);
    reveal(ContextView::fullscreen_output);
    lemma_first(c.windows, is_window(id));
    lemma_first(c.outputs, is_output(target));
    let i = c.window_index(id)->0;
    let usable = Some(c.output(target)->0.usable_area());
    let saved = windowed_geometry(c.windows[i], usable);
    assert(c.fullscreen_output(id, wanted) == Some(target));
    lemma_fullscreen_asked(c.staged(i), saved, obj, target);
    lemma_committed(c, id, i, c.staged(i).fullscreen_asked(saved, Some((obj, target))));
}

/// A window that has a place and a size goes back to that place and size from
/// fullscreen, whatever it went fullscreen on.
pub proof fn law_window_goes_back_where_it_was(w: WindowView, usable: Option<Area>)
    requires
        !w.position_undefined,
        w.width > 0,
        w.height > 0,
    ensures
        ({
            let g = windowed_geometry(w, usable);
            g.x == w.x && g.y == w.y && g.width == w.width && g.height == w.height
        }),
{
}

/// A window that has no place yet goes back to the middle of the usable area, and
/// one that has no size to half the width and half the height of it.
pub proof fn law_unplaced_window_goes_back_to_the_middle(w: WindowView, area: Area)
    requires
        w.position_undefined,
        area.2 > 0,
        area.3 > 0,
        area.0 + area.2 <= i32::MAX,
        area.1 + area.3 <= i32::MAX,
    ensures
        ({
            let g = windowed_geometry(w, Some(area));
            let left = g.x - area.0;
            let right = area.0 + area.2 - (g.x + g.width);
            let above = g.y - area.1;
            let below = area.1 + area.3 - (g.y + g.height);
            &&& g.width <= area.2 ==> left >= 0 && 0 <= right - left <= 1
            &&& g.height <= area.3 ==> above >= 0 && 0 <= below - above <= 1
            &&& g.width > area.2 ==> left == 0
            &&& g.height > area.3 ==> above == 0
            &&& w.width > 0 && w.height > 0 ==> g.width == w.width && g.height == w.height
            &&& w.width <= 0 || w.height <= 0 ==> 0 <= area.2 - 2 * g.width <= 1 && 0 <= area.3 - 2
                * g.height <= 1
        }),
{
}

/// The key for fullscreen makes the focused window fullscreen on the current
/// output and remembers where the window was; pressed again, it ends that and has
/// the window put back.
pub proof fn law_toggling_fullscreen_goes_there_and_back(
    c: ContextView,
    id: WindowId,
    output: OutputId,
    obj: ObjectId,
)
    requires
        c.focused_window == Some(id),
        c.window(id) is Some,
        c.window(id)->0.fullscreen == FullscreenState::Off,
        c.current_output == Some(output),
        c.output(output) matches Some(o) && o.rwm_output == Some(obj),
    ensures
        ({
            let d = c.fullscreen_toggled();
            let e = d.fullscreen_toggled();
            let w = c.window(id)->0;
            &&& d.window(id) matches Some(v) && v.fullscreen == FullscreenState::Output(output)
            &&& w.pre_fullscreen is None ==> d.window(id)->0.pre_fullscreen == Some(
                SavedGeometry { x: w.x, y: w.y, width: w.width, height: w.height },
            )
            &&& w.rwm_window matches Some(window) ==> d.requests == c.requests.push(
                Request::Fullscreen { window, output: obj }@,
            ).push(Request::InformFullscreen { window }@)
            &&& e.window(id) matches Some(v) && v.fullscreen == FullscreenState::Off
                && v.pending_unfullscreen_restore
            &&& w.rwm_window matches Some(window) ==> (c.rwm matches Some(manager) ==> e.requests
                == d.requests.push(Request::ExitFullscreen { window }@).push(
                Request::InformNotFullscreen { window }@,
            ).push(Request::ManageDirty { manager }@))
        }),
{
    reveal(ContextView::fullscreen_toggled);
    reveal(ContextView::unfullscreened);
    reveal(Staged::fullscreen_left);
    reveal(Staged::exit_fullscreen);
    lemma_first(c.windows, is_window(id));
    let i = c.window_index(id)->0;
    let s = c.staged(i).fullscreen_asked(c.windows[i].geometry(), Some((obj, output)));
    lemma_fullscreen_asked(c.staged(i), c.windows[i].geometry(), obj, output);
    lemma_committed(c, id, i, s);
    let d = c.fullscreen_toggled();
    assert(d == c.commit(i, s));
    lemma_committed(d, id, i, d.staged(i).fullscreen_left());
    let f = d.commit(i, d.staged(i).fullscreen_left());
    let e = d.fullscreen_toggled();
    assert(e == f.manage_dirty());
    assert(e.windows == f.windows);
    assert(e.window(id) == f.window(id));
    let w = c.windows[i];
    if let Some(window) = w.rwm_window {
        assert(f.requests == d.requests.push(Request::ExitFullscreen { window }@).push(
            Request::InformNotFullscreen { window }@,
        ));
    }
}

/// Whether `to` comes next to `from` in a circle of `n`, in a direction.
pub open spec fn follows(from: int, to: int, n: int, direction: Direction) -> bool {
    match direction {
        Direction::Forward => to == from + 1 || from == n - 1 && to == 0,
        Direction::Reverse => to == from - 1 || from == 0 && to == n - 1,
    }
}

/// Assigning a window to an output changes nothing else about the windows.
proof fn lemma_output_set(c: ContextView, id: WindowId, output: OutputId)
    requires
        c.window(id) is Some,
        c.output(output) is Some,
    ensures
        ({
            let d = c.window_output_set(id, output);
            let i = c.window_index(id)->0;
            &&& d.window_index(id) == Some(i)
            &&& d.windows == c.windows.update(
                i,
                WindowView { output: Some(output), ..c.windows[i] },
            )
            &&& d.outputs == c.outputs
        }),
{
    reveal(ContextView::window_output_set);
    reveal(ContextView::default_output_set);
    lemma_first(c.windows, is_window(id));
    let i = c.window_index(id)->0;
    let s = Staged {
        window: WindowView { output: Some(output), ..c.windows[i] },
        requests: c.requests,
    };
    lemma_committed(c, id, i, s);
    assert(c.window_output_set(id, output).windows == c.commit(i, s).windows);
}

/// The focused window, sent on, belongs to the neighbour of the output that it
/// was on, in the direction asked for. A fullscreen window becomes fullscreen
/// there. Any other window comes to lie inside the usable area of that output; one
/// that filled the area that it came from, maximized, fills the new one.
pub proof fn law_sent_window_comes_to_the_neighbour(
    c: ContextView,
    id: WindowId,
    from: int,
    to: int,
    direction: Direction,
    scale: spec_fn(i64, i32, i32) -> i32,
)
    requires
        c.focused_window == Some(id),
        c.window(id) is Some,
        c.outputs.len() >= 2,
        forall|j: int, k: int|
            0 <= j < c.outputs.len() && 0 <= k < c.outputs.len() && j != k ==> (
            #[trigger] c.outputs[j]).id != (#[trigger] c.outputs[k]).id,
        0 <= from < c.outputs.len(),
        0 <= to < c.outputs.len(),
        follows(from, to, c.outputs.len() as int, direction),
        ({
            let own = c.window(id)->0.output;
            ||| own == Some(c.outputs[from].id)
            ||| own is None && c.current_output == Some(c.outputs[from].id)
            ||| own is None && c.current_output is None && from == 0
        }),
    ensures
        ({
            let d = c.sent_to_output(direction, scale);
            let w = c.window(id)->0;
            let old_area = c.outputs[from].usable_area();
            let area = c.outputs[to].usable_area();
            let roomy = old_area.2 > 0 && old_area.3 > 0 && area.2 > 0 && area.3 > 0 && area.0
                + area.2 <= i32::MAX && area.1 + area.3 <= i32::MAX;
            &&& d.window(id) matches Some(v) && v.output == Some(c.outputs[to].id)
            &&& w.fullscreen is Output && c.outputs[to].rwm_output is Some ==> d.window(
                id,
            )->0.fullscreen == FullscreenState::Output(c.outputs[to].id)
            &&& w.fullscreen is Off ==> d.window(id)->0.fullscreen is Off
            &&& w.fullscreen !is Output && roomy ==> {
                let v = d.window(id)->0;
                let wide = if w.snap_state is Some || w.maximized || w.width > area.2 || w.height
                    > area.3 {
                    v.proposed_width as int
                } else {
                    larger(w.width as int, 1)
                };
                &&& area.0 <= v.x && area.1 <= v.y
                &&& v.min_width <= 1 ==> v.x + wide <= area.0 + area.2
            }
            &&& w.fullscreen !is Output && roomy && w.maximized && w.min_width <= area.2
                && w.min_height <= area.3 && (w.x, w.y, w.width, w.height) == old_area && scale(
                0,
                old_area.2,
                area.2,
            ) == 0 && scale(0, old_area.3, area.3) == 0 && scale(
                old_area.2 as i64,
                old_area.2,
                area.2,
            ) == area.2 && scale(old_area.3 as i64, old_area.3, area.3) == area.3 ==> {
                let v = d.window(id)->0;
                (v.x, v.y, v.proposed_width, v.proposed_height) == area
            }
        }),
{
    lemma_sent_to(c, id, from, to, direction, scale);
    lemma_found_output(c, from);
    lemma_found_output(c, to);
    lemma_first(c.windows, is_window(id));
    reveal(ContextView::sent_across);
    let b = c.outputs[to].id;
    lemma_output_set(c, id, b);
    let e = c.window_output_set(id, b);
    let i = c.window_index(id)->0;
    let w = c.windows[i];
    let old_area = c.outputs[from].usable_area();
    let area = c.outputs[to].usable_area();
    if w.fullscreen is Output {
        lemma_found_output(e, to);
        lemma_fullscreen_moved(e, id, b);
    } else {
        lemma_carried_across(e, id, w, old_area, area, scale);
        if area.2 > 0 && area.3 > 0 && area.0 + area.2 <= i32::MAX && area.1 + area.3 <= i32::MAX {
            law_carried_rect_lies_inside(w.geometry(), old_area, area, true, scale);
            law_carried_rect_lies_inside(w.geometry(), old_area, area, false, scale);
        }
    }
}

/// The outputs that a window is sent from and to.
proof fn lemma_sent_to(
    c: ContextView,
    id: WindowId,
    from: int,
    to: int,
    direction: Direction,
    scale: spec_fn(i64, i32, i32) -> i32,
)
    requires
        c.focused_window == Some(id),
        c.window(id) is Some,
        c.outputs.len() >= 2,
        forall|j: int, k: int|
            0 <= j < c.outputs.len() && 0 <= k < c.outputs.len() && j != k ==> (
            #[trigger] c.outputs[j]).id != (#[trigger] c.outputs[k]).id,
        0 <= from < c.outputs.len(),
        0 <= to < c.outputs.len(),
        follows(from, to, c.outputs.len() as int, direction),
        ({
            let own = c.window(id)->0.output;
            ||| own == Some(c.outputs[from].id)
            ||| own is None && c.current_output == Some(c.outputs[from].id)
            ||| own is None && c.current_output is None && from == 0
        }),
    ensures
        c.sent_to_output(direction, scale) == c.sent_across(
            id,
            c.outputs[from].id,
            c.outputs[to].id,
            scale,
        ),
{
    reveal(ContextView::sent_to_output);
    lemma_found_output(c, from);
    let n = c.outputs.len() as int;
    let ids = c.output_ids();
    assert(ids[from] == c.outputs[from].id);
    assert forall|j: int| 0 <= j < from implies !is_id(ids[from])(#[trigger] ids[j]) by {
        assert(ids[j] == c.outputs[j].id);
    }
    lemma_first_is(ids, is_id(ids[from]), from);
    assert(c.sending_output(id) == ids[from]);
    assert(place_of(ids, Some(c.sending_output(id))) == from);
    if from + 1 < n {
        vstd::arithmetic::div_mod::lemma_small_mod((from + 1) as nat, n as nat);
    } else {
        vstd::arithmetic::div_mod::lemma_mod_self_0(n);
    }
    assert(step_around(from, n, direction) == to);
}

proof fn lemma_fullscreen_moved(c: ContextView, id: WindowId, to: OutputId)
    requires
        c.window(id) is Some,
        c.output(to) is Some,
    ensures
        c.fullscreen_moved(id, to).window(id) matches Some(v) && v.output == c.window(id)->0.output
            && (c.output(to)->0.rwm_output is Some ==> v.fullscreen == FullscreenState::Output(to)),
{
    reveal(ContextView::fullscreen_moved);
    reveal(Staged::fullscreen_entered);
    reveal(Staged::fullscreen_on);
    lemma_first(c.windows, is_window(id));
    let i = c.window_index(id)->0;
    if let Some(obj) = c.output(to)->0.rwm_output {
        lemma_committed(c, id, i, c.staged(i).fullscreen_entered(obj, to));
    }
}

proof fn lemma_carried_across(
    c: ContextView,
    id: WindowId,
    w: WindowView,
    from: Area,
    to: Area,
    scale: spec_fn(i64, i32, i32) -> i32,
)
    requires
        c.window(id) is Some,
        w == (WindowView { output: w.output, ..c.window(id)->0 }),
    ensures
        c.carried_across(id, w, from, to, scale).window(id) matches Some(v) && {
            let resize = w.snap_state is Some || w.maximized || larger(w.width as int, 1) > to.2
                || larger(w.height as int, 1) > to.3;
            let place = carried(w.geometry(), from, to, resize, scale);
            &&& v.output == c.window(id)->0.output
            &&& v.fullscreen == w.fullscreen
            &&& v.min_width == w.min_width
            &&& from.2 > 0 && from.3 > 0 && to.2 > 0 && to.3 > 0 ==> {
                &&& v.x == place.x && v.y == place.y
                &&& resize ==> is_back(v, place)
                &&& v.min_height == w.min_height
            }
        },
{
    reveal(ContextView::carried_across);
    reveal(Staged::carried_over);
    reveal(Staged::set_position);
    reveal(Staged::propose_dimensions);
    reveal(Staged::propose_raw);
    lemma_first(c.windows, is_window(id));
    let i = c.window_index(id)->0;
    let resize = w.snap_state is Some || w.maximized || larger(w.width as int, 1) > to.2 || larger(
        w.height as int,
        1,
    ) > to.3;
    let place = carried(w.geometry(), from, to, resize, scale);
    let pre_snap = match w.pre_snap {
        Some(saved) => if w.snap_state is Some {
            Some(carried(saved, from, to, true, scale))
        } else {
            None
        },
        None => None,
    };
    lemma_committed(c, id, i, c.staged(i).carried_over(place, pre_snap, resize));
}

/// A window that is snapped to one side and then to the other goes back to where it was; snapped
/// twice to the same side it stays there.
pub proof fn law_other_side_releases_a_snapped_window(c: ContextView, id: WindowId, side: SnapSide)
    requires
        c.window(id) is Some,
        c.placement_output(id) is Some,
    ensures
        ({
            let w = c.window(id)->0;
            let d = c.snapped_half(id, side);
            let here = (side == SnapSide::Left && w.snap_state == Some(SnapState::Left)) || (side
                == SnapSide::Right && w.snap_state == Some(SnapState::Right));
            let there = (side == SnapSide::Left && w.snap_state == Some(SnapState::Right)) || (side
                == SnapSide::Right && w.snap_state == Some(SnapState::Left));
            &&& here ==> (d.window(id) matches Some(v) && v == (WindowView {
                output: v.output,
                ..w
            }))
            &&& there ==> (w.pre_snap matches Some(saved) ==> (d.window(id) matches Some(v) && v.x
                == saved.x && v.y == saved.y && v.proposed_width == larger(
                saved.width as int,
                w.min_width as int,
            ) && v.proposed_height == larger(saved.height as int, w.min_height as int)
                && v.snap_state is None && v.pre_snap is None))
        }),
{
    reveal(ContextView::snapped_half);
    lemma_following_keeps_the_place(c, id);
    lemma_first(c.windows, is_window(id));
    let d = c.output_followed(id);
    let i = c.window_index(id)->0;
    let o = c.placement_output(id)->0;
    let place = d.insets(d.windows[i]).content(half(o.usable_area(), side));
    let target = match side {
        SnapSide::Left => SnapState::Left,
        SnapSide::Right => SnapState::Right,
    };
    let s = d.staged(i);
    if s.window.snap_state == Some(SnapState::Left) || s.window.snap_state == Some(SnapState::Right) {
        assert(s.snapped(target, place, d.rwm).window.id == s.window.id) by {
            reveal(Staged::snapped);
            reveal(Staged::restore_pre_snap);
            reveal(Staged::restore);
            reveal(Staged::set_position);
            reveal(Staged::propose_dimensions);
            reveal(Staged::propose_raw);
        }
        lemma_committed(d, id, i, s.snapped(target, place, d.rwm));
        reveal(Staged::snapped);
        reveal(Staged::restore_pre_snap);
        reveal(Staged::restore);
        reveal(Staged::set_position);
        reveal(Staged::propose_dimensions);
        reveal(Staged::propose_raw);
    }
}

/// Where a snapped window goes back to comes along to another output: it lies inside the new area.
pub proof fn law_remembered_place_comes_along(
    c: ContextView,
    id: WindowId,
    from: Area,
    to: Area,
    scale: spec_fn(i64, i32, i32) -> i32,
)
    requires
        c.window(id) matches Some(w) && w.snap_state is Some && w.pre_snap is Some,
        from.2 > 0,
        from.3 > 0,
        to.2 > 0,
        to.3 > 0,
        to.0 + to.2 <= i32::MAX,
        to.1 + to.3 <= i32::MAX,
    ensures
        c.carried_across(id, c.window(id)->0, from, to, scale).window(id) matches Some(v) && (
        v.pre_snap matches Some(saved) && {
            &&& to.0 <= saved.x && saved.x + saved.width <= to.0 + to.2
            &&& to.1 <= saved.y && saved.y + saved.height <= to.1 + to.3
        }) && v.snap_state == c.window(id)->0.snap_state,
{
    reveal(ContextView::carried_across);
    reveal(Staged::carried_over);
    reveal(Staged::set_position);
    reveal(Staged::propose_dimensions);
    reveal(Staged::propose_raw);
    lemma_first(c.windows, is_window(id));
    let i = c.window_index(id)->0;
    let w = c.windows[i];
    let place = carried(w.geometry(), from, to, true, scale);
    let saved = carried(w.pre_snap->0, from, to, true, scale);
    law_carried_rect_lies_inside(w.pre_snap->0, from, to, true, scale);
    lemma_committed(c, id, i, c.staged(i).carried_over(place, Some(saved), true));
}

} // verus!
