//! Where windows appear, and which of them are shown.

use vstd::prelude::*;
use crate::canoe::context::render::{
    centered, law_cascade_is_monotone, render_step, show_step,
};
use crate::canoe::context::{is_window, lemma_each_window, ContextView};
use crate::canoe::output::Area;
use crate::canoe::titlebar::spec_titlebar_height;
use crate::canoe::window::{Staged, WindowView};
use crate::canoe::WindowId;
use crate::protocol::{ObjectId, Request};
use crate::search::lemma_first;

verus! {

/// A dialog that has no place yet is put over the middle of its parent, as far as its
/// decorations then stay inside the usable area. Where they would not, it is moved inside,
/// no further than needed; where it is too large for the area, it begins where the area
/// begins.
pub proof fn law_dialog_is_centred_and_stays_inside(
    parent: int,
    parent_len: int,
    len: int,
    start: int,
    area_len: int,
    before: int,
    after: int,
)
    requires
        len > 0,
    ensures
        ({
            let free = centered(parent, parent_len, len, None);
            let r = centered(parent, parent_len, len, Some((start, area_len, before, after)));
            let room = len <= area_len - before - after;
            &&& -1 <= (free - parent) - (parent + parent_len - (free + len)) <= 1
            &&& start + before <= r
            &&& room ==> r + len <= start + area_len - after
            &&& !room ==> r == start + before
            &&& room && start + before <= free && free + len <= start + area_len - after ==> r == free
            &&& free < start + before ==> r == start + before
            &&& room && free + len > start + area_len - after && free >= start + before ==> r + len
                == start + area_len - after
        }),
{
}

/// A dialog is put over its parent only where both have a size, the parent has a place and
/// the dialog has none. It is then centred across the parent between the borders of the
/// usable area, and down it between the titlebar and the lower border.
pub proof fn law_dialog_goes_over_its_parent(c: ContextView, w: WindowView, parent: WindowId)
    requires
        w.parent == Some(parent),
        w.output is None,
        c.window(parent) matches Some(p) && p.output is None,
    ensures
        ({
            let p = c.window(parent)->0;
            let placed = w.position_undefined && !p.position_undefined && w.width > 0 && w.height > 0
                && p.width > 0 && p.height > 0;
            &&& c.dialog_place(w) is Some <==> placed
            &&& c.dialog_place(w) matches Some((x, y)) ==> {
                let across = 2 * p.x + p.width - w.width;
                let down = 2 * p.y + p.height - w.height;
                &&& 2 * i32::MIN <= across <= 2 * i32::MAX ==> -1 <= 2 * x - across <= 1
                &&& 2 * i32::MIN <= down <= 2 * i32::MAX ==> -1 <= 2 * y - down <= 1
            }
        }),
{
    reveal(ContextView::dialog_place);
    reveal(ContextView::over_parent);
    reveal(ContextView::dialog_area);
}

/// The first window of a cascade appears in the upper left corner of the area, away from its
/// edges by the padding and its decorations, and the last one where half the area still lies
/// to its right and below, less the padding.
pub proof fn law_cascade_goes_from_corner_to_middle(c: ContextView, area: Area, count: int)
    requires
        count >= 1,
        0 <= c.config.ui.border_width <= 1000,
        0 <= c.config.ui.font_size.three_quarters <= 1000,
        2 <= area.2,
        2 <= area.3,
        area.2 - area.2 / 2 >= 2 * (10 + c.config.ui.border_width),
        area.3 - area.3 / 2 >= 2 * (11 + c.config.ui.border_width + 2
            * c.config.ui.font_size.three_quarters),
        area.0 + area.2 <= i32::MAX,
        area.1 + area.3 <= i32::MAX,
    ensures
        ({
            let border = c.config.ui.border_width;
            let bar = 2 * c.config.ui.font_size.three_quarters + 1;
            let first = c.cascade_place(area, 0, count);
            let last = c.cascade_place(area, count - 1, count);
            &&& first.0 == area.0 + 10 + border
            &&& first.1 == area.1 + 10 + border + bar
            &&& count > 1 ==> area.0 + area.2 - last.0 == area.2 / 2 + 10 + border
            &&& count > 1 ==> area.1 + area.3 - last.1 == area.3 / 2 + 10 + border + bar
        }),
{
    reveal(ContextView::cascade_place);
    let border = c.config.ui.border_width;
    let bar = spec_titlebar_height(c.config.ui.font_size);
    law_cascade_is_monotone(area.0 as int, area.2 as int, 10 + border, 0, count);
    law_cascade_is_monotone(area.1 as int, area.3 as int, 10 + border + bar, 0, count);
}

/// A window that is to be seen is shown when a frame is rendered, and any other is hidden.
/// What of its top is to be swallowed is cut off.
pub proof fn law_rendering_shows_what_is_to_be_seen(s: Staged, visible: bool, window: ObjectId)
    requires
        s.window.rwm_window == Some(window),
    ensures
        s.rendered(visible).window.hidden == !visible,
        s.rendered(visible).window.x == s.window.x,
        s.rendered(visible).window.y == s.window.y,
        s.rendered(visible).requests.len() > s.requests.len(),
        s.window.swallow_top > 0 && s.window.width > 0 && s.window.height > s.window.swallow_top
            ==> s.rendered(visible).requests[s.requests.len() as int] == (Request::SetContentClipBox {
            window,
            x: 0,
            y: s.window.swallow_top,
            width: s.window.width,
            height: (s.window.height - s.window.swallow_top) as i32,
        })@,
        s.window.swallow_top <= 0 ==> s.rendered(visible).requests[s.requests.len() as int]
            == (Request::SetContentClipBox { window, x: 0, y: 0, width: 0, height: 0 })@,
{
    reveal(Staged::rendered);
    reveal(Staged::set_content_clip_box);
    reveal(Staged::show);
    reveal(Staged::conceal);
    reveal(Staged::set_borders);
}

/// Rendering a window goes by the outputs: it is shown if it is not hidden and its output is
/// there, or if it has none and there is some output.
pub proof fn law_windows_of_known_outputs_are_shown(c: ContextView, s: Staged, k: int)
    requires
        0 <= k < c.outputs.len(),
    ensures
        !s.window.hidden && (s.window.output is None || s.window.output == Some(c.outputs[k].id))
            ==> !render_step(c, false)(s).window.hidden,
        s.window.hidden ==> render_step(c, false)(s).window.hidden,
        !render_step(c, true)(s).window.hidden,
{
    reveal(Staged::rendered);
    reveal(Staged::set_content_clip_box);
    reveal(Staged::show);
    reveal(Staged::conceal);
    reveal(Staged::set_borders);
    if !s.window.hidden && (s.window.output is None || s.window.output == Some(c.outputs[k].id)) {
        assert(c.visible_on(s.window, c.outputs[k].id));
        assert(c.seen(s.window));
    }
}

/// The focused window comes to the front: itself where it has no parent, else the window
/// that it belongs to.
pub proof fn law_focused_window_comes_to_the_front(c: ContextView, id: WindowId, top: WindowId, node: ObjectId)
    requires
        c.focused_window == Some(id),
        c.window(id) is Some,
        c.window(top) matches Some(t) && !t.hidden && t.parent is None && t.rwm_node == Some(node),
        top == id || c.window(id)->0.parent == Some(top),
    ensures
        c.focused_root_raised() == (ContextView {
            requests: c.requests.push(Request::PlaceTop { node }@),
            ..c
        }),
{
    reveal(ContextView::focused_root_raised);
    reveal(ContextView::placed_top);
    reveal(Staged::place_top);
    reveal_with_fuel(ContextView::ancestor, 3);
    lemma_first(c.windows, is_window(id));
    assert(c.root(id) == top);
}

/// When the first frame is rendered, every window is shown; later none is for that reason.
pub proof fn law_windows_are_shown_once_at_the_start(c: ContextView, i: int)
    requires
        0 <= i < c.windows.len(),
    ensures
        !c.startup_unminimize_done ==> !c.unminimized().windows[i].hidden,
        c.unminimized().startup_unminimize_done,
        c.startup_unminimize_done ==> c.unminimized() == c,
{
    reveal(ContextView::unminimized);
    lemma_each_shown(c, c.windows.len() as int, i);
    lemma_each_window(c, c.windows.len() as int, show_step());
}

proof fn lemma_each_shown(c: ContextView, n: int, i: int)
    requires
        0 <= i < n <= c.windows.len(),
    ensures
        !c.each_window(n, show_step()).windows[i].hidden,
    decreases n,
{
    reveal(Staged::show);
    lemma_each_window(c, n - 1, show_step());
    if i < n - 1 {
        lemma_each_shown(c, n - 1, i);
    }
}

} // verus!
