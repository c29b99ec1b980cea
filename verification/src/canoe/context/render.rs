//! The render sequence: where new windows appear, what is shown and what is on
//! top.

use vstd::prelude::*;
use crate::canoe::context::{lemma_each_window, Context, ContextView};
use crate::canoe::output::{Area, OutputView};
use crate::canoe::titlebar::{spec_titlebar_height, titlebar_height};
use crate::canoe::window::{placed, Staged, Window, WindowView};
use crate::canoe::{OutputId, WindowId};
use crate::num::{clamp_i64, larger, max_i32, max_i64, quot, sat, to_i32, within};
use crate::protocol::{ObjectId, Request, RequestView, Requests, EDGES_ALL};

verus! {

/// Padding between the first or last window of a cascade and the edge of the
/// area, decorations not counted.
pub const CASCADE_PADDING: i32 = 10;

/// Whether a window has a size.
pub open spec fn sized(w: WindowView) -> bool {
    w.width > 0 && w.height > 0
}

/// Where along one axis a dialog goes: in the middle of its parent, and inside
/// the area where one is given by its start, its length and what decorations
/// take from its two ends.
pub open spec fn centered(
    parent: int,
    parent_len: int,
    len: int,
    area: Option<(int, int, int, int)>,
) -> int {
    let middle = parent + quot(parent_len - len, 2);
    match area {
        Some((start, area_len, before, after)) => {
            let least = start + before;
            within(middle, least, larger(start + area_len - after - len, least))
        },
        None => middle,
    }
}

fn center(parent: i32, parent_len: i32, len: i32, area: Option<(i32, i32, i64, i32)>) -> (r: i64)
    requires
        area matches Some((_, _, before, _)) ==> -0x2_0000_0000 <= before <= 0x2_0000_0000,
    ensures
        r == centered(
            parent as int,
            parent_len as int,
            len as int,
            match area {
                Some((start, area_len, before, after)) => Some(
                    (start as int, area_len as int, before as int, after as int),
                ),
                None => None,
            },
        ),
{
    let middle: i64 = parent as i64 + (parent_len as i64 - len as i64) / 2;
    match area {
        Some((start, area_len, before, after)) => {
            let least: i64 = start as i64 + before;
            let most: i64 = max_i64(start as i64 + area_len as i64 - after as i64 - len as i64, least);
            clamp_i64(middle, least, most)
        },
        None => middle,
    }
}

/// Where along one axis the windows of a cascade start and end.
pub open spec fn cascade_span(start: int, len: int, pad: int) -> (int, int) {
    let first = start + pad;
    let last = start + len - larger(quot(len, 2), 1) - pad;
    (first, larger(last, first))
}

/// Where along one axis the window at a place of a cascade of `count` goes:
/// the windows are spread evenly from start to end.
pub open spec fn cascade_at(span: (int, int), place: int, count: int) -> int {
    if count <= 1 {
        span.0
    } else {
        span.0 + (span.1 - span.0) * place / (count - 1)
    }
}

fn span_of(start: i32, len: i32, pad: i64) -> (r: (i64, i64))
    requires
        -0x2_0000_0000 <= pad <= 0x2_0000_0000,
    ensures
        (r.0 as int, r.1 as int) == cascade_span(start as int, len as int, pad as int),
        -0x8_0000_0000 <= r.0 <= r.1 <= 0x8_0000_0000,
{
    let first: i64 = start as i64 + pad;
    let half: i32 = max_i32(len / 2, 1);
    let last: i64 = start as i64 + len as i64 - half as i64 - pad;
    (first, max_i64(last, first))
}

fn spot(span: (i64, i64), place: usize, count: usize) -> (r: i32)
    requires
        place < count,
        -0x8_0000_0000 <= span.0 <= span.1 <= 0x8_0000_0000,
    ensures
        r == sat(cascade_at((span.0 as int, span.1 as int), place as int, count as int)),
{
    if count <= 1 {
        return to_i32(span.0);
    }
    let reach: i128 = (span.1 - span.0) as i128;
    assert(0 <= reach * place <= 0x10_0000_0000 * 0xffff_ffff_ffff_ffff) by (nonlinear_arith)
        requires
            0 <= reach <= 0x10_0000_0000,
            0 <= place <= 0xffff_ffff_ffff_ffff,
    ;
    let offset: i128 = reach * place as i128 / (count as i128 - 1);
    proof {
        lemma_cascade_offset(reach as int, place as int, count as int);
    }
    to_i32(span.0 + offset as i64)
}

proof fn lemma_cascade_offset(reach: int, place: int, count: int)
    requires
        0 <= reach,
        0 <= place < count,
        count > 1,
    ensures
        0 <= reach * place / (count - 1) <= reach,
{
    assert(0 <= reach * place <= reach * (count - 1)) by (nonlinear_arith)
        requires
            0 <= reach,
            0 <= place <= count - 1,
    ;
    vstd::arithmetic::div_mod::lemma_div_is_ordered(reach * place, reach * (count - 1), count - 1);
    vstd::arithmetic::div_mod::lemma_div_multiples_vanish(reach, count - 1);
    assert(reach * (count - 1) == (count - 1) * reach) by (nonlinear_arith);
    vstd::arithmetic::div_mod::lemma_div_pos_is_pos(reach * place, count - 1);
}

/// A cascade stays between its start and its end, begins at the start, ends at
/// the end, and never goes back.
pub proof fn law_cascade_is_monotone(start: int, len: int, pad: int, place: int, count: int)
    requires
        0 <= place < count,
    ensures
        ({
            let span = cascade_span(start, len, pad);
            &&& span.0 <= cascade_at(span, place, count) <= span.1
            &&& cascade_at(span, 0, count) == span.0
            &&& count > 1 ==> cascade_at(span, count - 1, count) == span.1
            &&& place + 1 < count ==> cascade_at(span, place, count) <= cascade_at(
                span,
                place + 1,
                count,
            )
        }),
{
    let span = cascade_span(start, len, pad);
    let reach = span.1 - span.0;
    if count > 1 {
        lemma_cascade_offset(reach, place, count);
        assert(reach * 0 == 0) by (nonlinear_arith);
        vstd::arithmetic::div_mod::lemma_div_of0(count - 1);
        assert(reach * (count - 1) == (count - 1) * reach) by (nonlinear_arith);
        vstd::arithmetic::div_mod::lemma_div_multiples_vanish(reach, count - 1);
        if place + 1 < count {
            assert(reach * place <= reach * (place + 1)) by (nonlinear_arith)
                requires
                    0 <= reach,
            ;
            vstd::arithmetic::div_mod::lemma_div_is_ordered(
                reach * place,
                reach * (place + 1),
                count - 1,
            );
        }
    }
}

impl Staged {
    /// Cuts off what is swallowed of the content, and shows or hides the
    /// window. Its border is drawn by the decoration.
    #[verifier::opaque]
    pub open spec fn rendered(self, visible: bool) -> Staged {
        let w = self.window;
        let s = if w.swallow_top > 0 && w.width > 0 && w.height > 0 {
            self.set_content_clip_box(
                0,
                w.swallow_top,
                w.width,
                larger(w.height - w.swallow_top, 1) as i32,
            )
        } else {
            self.set_content_clip_box(0, 0, 0, 0)
        };
        if visible {
            s.show().set_borders(EDGES_ALL, 0, 0, 0, 0, 0)
        } else {
            s.conceal()
        }
    }

    /// Goes to a place, if there is one.
    #[verifier::opaque]
    pub open spec fn put(self, place: Option<(i32, i32)>) -> Staged {
        match place {
            Some((x, y)) => self.set_position(x, y),
            None => self,
        }
    }
}

impl Window {
    /// Cut off what is swallowed of the content, and show or hide the window
    pub fn render(&mut self, visible: bool, requests: &mut Requests)
        ensures
            final(self).staged(final(requests)) == old(self).staged(old(requests)).rendered(
                visible,
            ),
    {
        proof {
            reveal(Staged::rendered);
        }
        let swallow_top: i32 = self.swallow_top;
        if swallow_top > 0 && self.width > 0 && self.height > 0 {
            let clip_h: i32 = max_i32(self.height - swallow_top, 1);
            self.set_content_clip_box(0, swallow_top, self.width, clip_h, requests);
        } else {
            self.set_content_clip_box(0, 0, 0, 0, requests);
        }
        if visible {
            self.show(requests);

            // Disable compositor borders; custom decoration handles borders.
            self.set_borders(EDGES_ALL, 0, 0, 0, 0, 0, requests);
        } else {
            self.conceal(requests);
        }
    }

    /// Go to a place, if there is one
    pub fn put(&mut self, place: Option<(i32, i32)>, requests: &mut Requests)
        ensures
            final(self).staged(final(requests)) == old(self).staged(old(requests)).put(place),
    {
        proof {
            reveal(Staged::put);
        }
        if let Some((x, y)) = place {
            self.set_position(x, y, requests);
        }
    }
}

/// The step that puts the dialogs of a context over their parents.
pub open spec fn dialog_step(c: ContextView) -> spec_fn(Staged) -> Staged {
    |s: Staged| s.put(c.dialog_place(s.window))
}

/// The step that shows a window.
pub open spec fn show_step() -> spec_fn(Staged) -> Staged {
    |s: Staged| s.show()
}

/// The step that renders a window, given the outputs.
pub open spec fn render_step(c: ContextView, all: bool) -> spec_fn(Staged) -> Staged {
    |s: Staged| s.rendered(all || c.seen(s.window))
}

impl ContextView {
    /// The usable area of the output of a dialog, or else of its parent. One
    /// without any extent counts for nothing.
    #[verifier::opaque]
    pub open spec fn dialog_area(self, w: WindowView, parent: WindowView) -> Option<Area> {
        let output = if self.live_output(w) is Some {
            self.live_output(w)
        } else {
            self.live_output(parent)
        };
        match output {
            Some(id) => match self.output(id) {
                Some(o) => if o.usable_area().2 > 0 && o.usable_area().3 > 0 {
                    Some(o.usable_area())
                } else {
                    None
                },
                None => None,
            },
            None => None,
        }
    }

    /// Where a dialog that has no place yet goes: centred over its parent.
    #[verifier::opaque]
    pub open spec fn dialog_place(self, w: WindowView) -> Option<(i32, i32)> {
        match w.parent {
            Some(parent) => match self.window(parent) {
                Some(p) => if w.position_undefined && sized(w) && !p.position_undefined && sized(
                    p,
                ) {
                    Some(self.over_parent(w, p))
                } else {
                    None
                },
                None => None,
            },
            None => None,
        }
    }

    #[verifier::opaque]
    pub open spec fn over_parent(self, w: WindowView, p: WindowView) -> (i32, i32) {
        let border = self.config.ui.border_width as int;
        let titlebar = spec_titlebar_height(self.config.ui.font_size);
        let area = self.dialog_area(w, p);
        let across = match area {
            Some((x, _, width, _)) => Some((x as int, width as int, border, border)),
            None => None,
        };
        let down = match area {
            Some((_, y, _, height)) => Some((y as int, height as int, border + titlebar, border)),
            None => None,
        };
        (
            sat(centered(p.x as int, p.width as int, w.width as int, across)),
            sat(centered(p.y as int, p.height as int, w.height as int, down)),
        )
    }

    /// The output on which a window without a place appears.
    #[verifier::opaque]
    pub open spec fn cascade_output(self, w: WindowView) -> Option<OutputId> {
        let preferred = self.preferred_output(w.id);
        if !w.position_undefined {
            None
        } else if self.live_output(w) is Some {
            self.live_output(w)
        } else if preferred is Some {
            preferred
        } else {
            self.current_output
        }
    }

    /// Whether a window appears in the cascade of an output.
    pub open spec fn cascades_on(self, w: WindowView, output: OutputId) -> bool {
        self.cascade_output(w) == Some(output) && self.visible_on(w, output)
    }

    /// Spreads windows over the usable area of an output, the first `n` of
    /// them.
    pub open spec fn cascaded(self, ids: Seq<WindowId>, area: Area, n: int) -> ContextView
        decreases n,
    {
        if n <= 0 {
            self
        } else {
            self.cascaded(ids, area, n - 1).put_at(
                ids[n - 1],
                self.cascade_place(area, n - 1, ids.len() as int),
            )
        }
    }

    /// Where the window at a place of a cascade goes.
    pub open spec fn cascade_place(self, area: Area, place: int, count: int) -> (i32, i32) {
        let pad_x = CASCADE_PADDING + self.config.ui.border_width;
        let pad_y = pad_x + spec_titlebar_height(self.config.ui.font_size);
        (
            sat(cascade_at(cascade_span(area.0 as int, area.2 as int, pad_x), place, count)),
            sat(cascade_at(cascade_span(area.1 as int, area.3 as int, pad_y), place, count)),
        )
    }

    /// Puts a window at a place.
    #[verifier::opaque]
    pub open spec fn put_at(self, id: WindowId, place: (i32, i32)) -> ContextView {
        match self.window_index(id) {
            Some(i) => self.commit(i, self.staged(i).set_position(place.0, place.1)),
            None => self,
        }
    }

    /// Spreads windows over an output, if it has any usable area.
    #[verifier::opaque]
    pub open spec fn cascaded_on(self, ids: Seq<WindowId>, output: OutputView) -> ContextView {
        let area = output.usable_area();
        if area.2 <= 0 || area.3 <= 0 {
            self
        } else {
            self.cascaded(ids, area, ids.len() as int)
        }
    }

    /// Spreads the windows that `c` has no place for over the first `n` of its
    /// outputs.
    pub open spec fn all_cascaded(self, c: ContextView, n: int) -> ContextView
        decreases n,
    {
        if n <= 0 {
            self
        } else {
            self.all_cascaded(c, n - 1).cascaded_on(
                cascade_ids(c, c.windows, c.outputs[n - 1].id),
                c.outputs[n - 1],
            )
        }
    }

    /// Gives the windows without a place one: dialogs over their parents, the
    /// others in a cascade on their output.
    #[verifier::opaque]
    pub open spec fn positions_applied(self) -> ContextView {
        let c = self.each_window(self.windows.len() as int, dialog_step(self));
        c.all_cascaded(c, c.outputs.len() as int)
    }

    /// Whether a window is visible on any output.
    pub open spec fn seen(self, w: WindowView) -> bool {
        exists|k: int|
            0 <= k < self.outputs.len() && self.visible_on(w, (#[trigger] self.outputs[k]).id)
    }

    /// Shows every window, the first time.
    #[verifier::opaque]
    pub open spec fn unminimized(self) -> ContextView {
        if self.startup_unminimize_done {
            self
        } else {
            ContextView {
                startup_unminimize_done: true,
                ..self.each_window(self.windows.len() as int, show_step())
            }
        }
    }

    /// How many ancestors a window has, no more than `limit`.
    pub open spec fn ancestors(self, id: WindowId, limit: nat) -> nat
        decreases limit,
    {
        if limit == 0 {
            0
        } else {
            match self.window(id) {
                Some(w) => match w.parent {
                    Some(parent) => 1 + self.ancestors(parent, (limit - 1) as nat),
                    None => 0,
                },
                None => 0,
            }
        }
    }

    /// The depth of a window in its chain of parents.
    pub open spec fn chain_depth(self, id: WindowId) -> nat {
        self.ancestors(id, self.windows.len() + 1)
    }

    /// The parent of a window, if it exists.
    pub open spec fn known_parent(self, id: WindowId) -> Option<WindowId> {
        match self.window(id) {
            Some(w) => match w.parent {
                Some(parent) => if self.window_index(parent) is Some {
                    Some(parent)
                } else {
                    None
                },
                None => None,
            },
            None => None,
        }
    }

    /// The ancestor of a window that is reached after at most `limit` steps.
    pub open spec fn ancestor(self, id: WindowId, limit: nat) -> WindowId
        decreases limit,
    {
        if limit == 0 {
            id
        } else {
            match self.known_parent(id) {
                Some(parent) => self.ancestor(parent, (limit - 1) as nat),
                None => id,
            }
        }
    }

    /// The topmost ancestor of a window.
    pub open spec fn root(self, id: WindowId) -> WindowId {
        self.ancestor(id, self.windows.len() + 1)
    }

    /// Brings the topmost ancestor of the focused window to the front, unless
    /// it is hidden.
    #[verifier::opaque]
    pub open spec fn focused_root_raised(self) -> ContextView {
        match self.focused_window {
            Some(id) => match self.window(self.root(id)) {
                Some(w) => if w.hidden {
                    self
                } else {
                    self.placed_top(self.root(id))
                },
                None => self,
            },
            None => self,
        }
    }

    /// Places a window above its parent if it is of some depth and not hidden.
    #[verifier::opaque]
    pub open spec fn child_placed(self, i: int, depth: nat) -> ContextView {
        let child = self.windows[i];
        match child.parent {
            Some(parent) => match self.window(parent) {
                Some(p) => if self.chain_depth(child.id) == depth && !child.hidden {
                    ContextView {
                        requests: placed(
                            self.requests,
                            child.rwm_node,
                            p.rwm_node,
                            |node: ObjectId, other: ObjectId| Request::PlaceAbove { node, other },
                        ),
                        ..self
                    }
                } else {
                    self
                },
                None => self,
            },
            None => self,
        }
    }

    /// Places those of the first `n` windows that are of some depth above their
    /// parents.
    pub open spec fn level_placed(self, n: int, depth: nat) -> ContextView
        decreases n,
    {
        if n <= 0 {
            self
        } else {
            self.level_placed(n - 1, depth).child_placed(n - 1, depth)
        }
    }

    /// Places the windows of the first `depth` depths above their parents, the
    /// least deep ones first.
    pub open spec fn levels_placed(self, depth: nat) -> ContextView
        decreases depth,
    {
        if depth == 0 {
            self
        } else {
            self.levels_placed((depth - 1) as nat).level_placed(self.windows.len() as int, depth)
        }
    }

    /// A whole render sequence: new windows get their place, windows are shown
    /// or hidden, the focused one comes to the front and dialogs go above their
    /// parents.
    #[verifier::opaque]
    pub open spec fn rendered(self) -> ContextView {
        let all = !self.startup_unminimize_done;
        let c = self.positions_applied().unminimized();
        let c = c.each_window(c.windows.len() as int, render_step(c, all)).focused_root_raised();
        c.levels_placed(c.windows.len() + 1)
    }
}

/// The windows that appear in the cascade of an output.
pub open spec fn cascade_ids(c: ContextView, windows: Seq<WindowView>, output: OutputId) -> Seq<WindowId>
    decreases windows.len(),
{
    if windows.len() == 0 {
        Seq::empty()
    } else {
        let earlier = cascade_ids(c, windows.drop_last(), output);
        if c.cascades_on(windows.last(), output) {
            earlier.push(windows.last().id)
        } else {
            earlier
        }
    }
}

/// Placing windows above their parents changes nothing but the requests.
proof fn lemma_child_placed(c: ContextView, i: int, depth: nat)
    ensures
        c.child_placed(i, depth) == (ContextView {
            requests: c.child_placed(i, depth).requests,
            ..c
        }),
{
    reveal(ContextView::child_placed);
}

proof fn lemma_level_placed(c: ContextView, n: int, depth: nat)
    ensures
        c.level_placed(n, depth) == (ContextView {
            requests: c.level_placed(n, depth).requests,
            ..c
        }),
    decreases n,
{
    if n > 0 {
        lemma_level_placed(c, n - 1, depth);
        lemma_child_placed(c.level_placed(n - 1, depth), n - 1, depth);
    }
}

proof fn lemma_levels_placed(c: ContextView, depth: nat)
    ensures
        c.levels_placed(depth) == (ContextView {
            requests: c.levels_placed(depth).requests,
            ..c
        }),
    decreases depth,
{
    if depth > 0 {
        lemma_levels_placed(c, (depth - 1) as nat);
        lemma_level_placed(
            c.levels_placed((depth - 1) as nat),
            c.windows.len() as int,
            depth,
        );
    }
}

/// The request that places a window above its parent, if the window is to be
/// seen and both are known to the compositor.
pub open spec fn above_parent(c: ContextView, child: WindowView) -> Option<RequestView> {
    match (child.parent, child.rwm_node) {
        (Some(parent), Some(node)) => match c.window(parent) {
            Some(p) => match p.rwm_node {
                Some(other) => if child.hidden {
                    None
                } else {
                    Some(Request::PlaceAbove { node, other }@)
                },
                None => None,
            },
            None => None,
        },
        _ => None,
    }
}

/// Whether a request is among those from place `from` on, before place `to`.
pub open spec fn asked_between(
    requests: Seq<RequestView>,
    from: int,
    to: int,
    request: RequestView,
) -> bool {
    exists|k: int| from <= k < to && k < requests.len() && #[trigger] requests[k] == request
}

/// The depth of a window depends on the windows only.
proof fn lemma_same_depth(c: ContextView, d: ContextView, id: WindowId, limit: nat)
    requires
        c.windows == d.windows,
    ensures
        c.ancestors(id, limit) == d.ancestors(id, limit),
    decreases limit,
{
    if limit > 0 {
        match c.window(id) {
            Some(w) => match w.parent {
                Some(parent) => lemma_same_depth(c, d, parent, (limit - 1) as nat),
                None => {},
            },
            None => {},
        }
    }
}

proof fn lemma_level_asks(c: ContextView, n: int, depth: nat, i: int)
    requires
        n <= c.windows.len(),
    ensures
        c.requests.is_prefix_of(c.level_placed(n, depth).requests),
        0 <= i < n && c.chain_depth(c.windows[i].id) == depth ==> (above_parent(c, c.windows[i])
            matches Some(request) ==> asked_between(
            c.level_placed(n, depth).requests,
            c.requests.len() as int,
            c.level_placed(n, depth).requests.len() as int,
            request,
        )),
    decreases n,
{
    if n > 0 {
        lemma_level_asks(c, n - 1, depth, i);
        lemma_level_placed(c, n - 1, depth);
        let d = c.level_placed(n - 1, depth);
        let child = c.windows[n - 1];
        lemma_same_depth(c, d, child.id, c.windows.len() + 1);
        reveal(ContextView::child_placed);
        let after = d.child_placed(n - 1, depth).requests;
        assert(d.requests.is_prefix_of(after));
        assert(c.requests.is_prefix_of(after)) by {
            assert(after.take(d.requests.len() as int) =~= d.requests);
            assert(after.take(c.requests.len() as int) =~= d.requests.take(
                c.requests.len() as int,
            ));
        }
        if 0 <= i < n && c.chain_depth(c.windows[i].id) == depth && above_parent(
            c,
            c.windows[i],
        ) is Some {
            let request = above_parent(c, c.windows[i])->0;
            if i == n - 1 {
                assert(after[d.requests.len() as int] == request);
            } else {
                let k = choose|k: int|
                    c.requests.len() <= k < d.requests.len() && #[trigger] d.requests[k] == request;
                assert(after[k] == request);
            }
        }
    }
}

proof fn lemma_levels_ask(c: ContextView, depth: nat, i: int)
    requires
        0 <= i < c.windows.len(),
    ensures
        c.requests.is_prefix_of(c.levels_placed(depth).requests),
        1 <= c.chain_depth(c.windows[i].id) <= depth ==> (above_parent(c, c.windows[i]) matches Some(
            request,
        ) ==> asked_between(
            c.levels_placed(depth).requests,
            c.levels_placed((c.chain_depth(c.windows[i].id) - 1) as nat).requests.len() as int,
            c.levels_placed(c.chain_depth(c.windows[i].id)).requests.len() as int,
            request,
        )),
    decreases depth,
{
    if depth > 0 {
        lemma_levels_ask(c, (depth - 1) as nat, i);
        lemma_levels_placed(c, (depth - 1) as nat);
        let d = c.levels_placed((depth - 1) as nat);
        let after = c.levels_placed(depth).requests;
        lemma_level_asks(d, c.windows.len() as int, depth, i);
        lemma_same_depth(c, d, c.windows[i].id, c.windows.len() + 1);
        assert(c.requests.is_prefix_of(after)) by {
            assert(after.take(c.requests.len() as int) =~= d.requests.take(
                c.requests.len() as int,
            ));
        }
        let own = c.chain_depth(c.windows[i].id);
        if 1 <= own < depth && above_parent(c, c.windows[i]) is Some {
            let request = above_parent(c, c.windows[i])->0;
            let from = c.levels_placed((own - 1) as nat).requests.len() as int;
            let to = c.levels_placed(own).requests.len() as int;
            let k = choose|k: int|
                from <= k < to && k < d.requests.len() && #[trigger] d.requests[k] == request;
            assert(after[k] == request);
        }
    }
}

proof fn lemma_levels_grow(c: ContextView, m: nat, n: nat)
    requires
        m <= n,
    ensures
        c.levels_placed(m).requests.len() <= c.levels_placed(n).requests.len(),
    decreases n,
{
    if m < n {
        lemma_levels_grow(c, m, (n - 1) as nat);
        lemma_levels_placed(c, (n - 1) as nat);
        lemma_level_asks(c.levels_placed((n - 1) as nat), c.windows.len() as int, n, 0);
    }
}

proof fn lemma_depth_in_range(c: ContextView, id: WindowId, limit: nat)
    ensures
        c.ancestors(id, limit) <= limit,
    decreases limit,
{
    if limit > 0 {
        match c.window(id) {
            Some(w) => match w.parent {
                Some(parent) => lemma_depth_in_range(c, parent, (limit - 1) as nat),
                None => {},
            },
            None => {},
        }
    }
}

/// In a render sequence every visible dialog is placed above its parent.
pub proof fn law_dialogs_go_above_their_parents(c: ContextView, i: int)
    requires
        0 <= i < c.windows.len(),
        c.window(c.windows[i].id) == Some(c.windows[i]),
    ensures
        above_parent(c, c.windows[i]) matches Some(request) ==> asked_between(
            c.levels_placed(c.windows.len() + 1).requests,
            c.requests.len() as int,
            c.levels_placed(c.windows.len() + 1).requests.len() as int,
            request,
        ),
{
    if above_parent(c, c.windows[i]) is Some {
        let depth = c.chain_depth(c.windows[i].id);
        lemma_depth_in_range(c, c.windows[i].id, c.windows.len() + 1);
        lemma_levels_ask(c, c.windows.len() + 1, i);
        lemma_levels_ask(c, (depth - 1) as nat, i);
        lemma_levels_grow(c, depth, c.windows.len() + 1);
    }
}

/// Whether a request comes somewhere before another one.
pub open spec fn asked_before(
    requests: Seq<RequestView>,
    earlier: RequestView,
    later: RequestView,
) -> bool {
    exists|k: int, m: int|
        0 <= k < m < requests.len() && #[trigger] requests[k] == earlier && #[trigger] requests[m]
            == later
}

/// Of two dialogs the one less deep in its chain of parents is placed first: a
/// parent has its place before a dialog goes above it.
pub proof fn law_parents_are_placed_first(c: ContextView, i: int, j: int)
    requires
        0 <= i < c.windows.len(),
        0 <= j < c.windows.len(),
        c.window(c.windows[j].id) == Some(c.windows[j]),
        above_parent(c, c.windows[i]) is Some,
        above_parent(c, c.windows[j]) is Some,
        c.chain_depth(c.windows[j].id) < c.chain_depth(c.windows[i].id),
    ensures
        asked_before(
            c.levels_placed(c.windows.len() + 1).requests,
            above_parent(c, c.windows[j])->0,
            above_parent(c, c.windows[i])->0,
        ),
{
    let all = c.windows.len() + 1;
    let requests = c.levels_placed(all).requests;
    let outer = c.chain_depth(c.windows[j].id);
    let inner = c.chain_depth(c.windows[i].id);
    lemma_depth_in_range(c, c.windows[i].id, all);
    lemma_levels_ask(c, all, i);
    lemma_levels_ask(c, all, j);
    lemma_levels_grow(c, outer, (inner - 1) as nat);
    let earlier = above_parent(c, c.windows[j])->0;
    let later = above_parent(c, c.windows[i])->0;
    let k = choose|k: int|
        c.levels_placed((outer - 1) as nat).requests.len() <= k < c.levels_placed(
            outer,
        ).requests.len() && k < requests.len() && #[trigger] requests[k] == earlier;
    let m = choose|m: int|
        c.levels_placed((inner - 1) as nat).requests.len() <= m < c.levels_placed(
            inner,
        ).requests.len() && m < requests.len() && #[trigger] requests[m] == later;
    assert(requests[k] == earlier && requests[m] == later && k < m);
}

impl Context {
    fn area_for_dialog(&self, w: &Window, parent: &Window) -> (r: Option<Area>)
        ensures
            r == self@.dialog_area(w@, parent@),
    {
        proof {
            reveal(ContextView::dialog_area);
        }
        let own: Option<OutputId> = self.live_output(w.output);
        assert(own == self@.live_output(w@));
        let output: Option<OutputId> = if own.is_some() {
            own
        } else {
            self.live_output(parent.output)
        };
        match output {
            Some(id) => match self.find_output(id) {
                Some(k) => {
                    let area = self.outputs[k].usable_area();
                    if area.2 > 0 && area.3 > 0 {
                        Some(area)
                    } else {
                        None
                    }
                },
                None => None,
            },
            None => None,
        }
    }

    fn place_over_parent(&self, w: &Window, p: &Window) -> (r: (i32, i32))
        ensures
            r == self@.over_parent(w@, p@),
    {
        proof {
            reveal(ContextView::over_parent);
        }
        let border: i32 = self.config.ui.border_width;
        let titlebar: i32 = titlebar_height(&self.config.ui);
        let area = self.area_for_dialog(w, p);
        let across: Option<(i32, i32, i64, i32)> = match area {
            Some((x, _, width, _)) => Some((x, width, border as i64, border)),
            None => None,
        };
        let down: Option<(i32, i32, i64, i32)> = match area {
            Some((_, y, _, height)) => Some((y, height, border as i64 + titlebar as i64, border)),
            None => None,
        };
        let cx: i64 = center(p.x, p.width, w.width, across);
        let cy: i64 = center(p.y, p.height, w.height, down);
        (to_i32(cx), to_i32(cy))
    }

    fn place_for_dialog(&self, w: &Window) -> (r: Option<(i32, i32)>)
        ensures
            r == self@.dialog_place(w@),
    {
        proof {
            reveal(ContextView::dialog_place);
        }
        if !w.position_undefined || w.width <= 0 || w.height <= 0 {
            return None;
        }
        match w.parent {
            Some(parent) => match self.find_window(parent) {
                Some(j) => {
                    let p = &self.windows[j];
                    if p.position_undefined || p.width <= 0 || p.height <= 0 {
                        None
                    } else {
                        Some(self.place_over_parent(w, p))
                    }
                },
                None => None,
            },
            None => None,
        }
    }

    fn dialog_places(&self) -> (r: Vec<Option<(i32, i32)>>)
        ensures
            r@.len() == self@.windows.len(),
            forall|j: int|
                0 <= j < r@.len() ==> #[trigger] r@[j] == self@.dialog_place(self@.windows[j]),
    {
        let mut places: Vec<Option<(i32, i32)>> = Vec::new();
        let mut i: usize = 0;
        while i < self.windows.len()
            invariant
                i <= self.windows@.len(),
                places@.len() == i,
                forall|j: int|
                    0 <= j < i ==> #[trigger] places@[j] == self@.dialog_place(self@.windows[j]),
            decreases self.windows@.len() - i,
        {
            assert(self@.windows[i as int] == self.windows@[i as int]@);
            places.push(self.place_for_dialog(&self.windows[i]));
            i = i + 1;
        }
        places
    }

    fn place_dialogs(&mut self)
        ensures
            final(self)@ == old(self)@.each_window(
                old(self)@.windows.len() as int,
                dialog_step(old(self)@),
            ),
            final(self).windows@.len() == old(self).windows@.len(),
    {
        let ghost start = self@;
        let ghost step = dialog_step(start);
        let places = self.dialog_places();
        let mut i: usize = 0;
        while i < self.windows.len()
            invariant
                i <= self.windows@.len(),
                step == dialog_step(start),
                self.windows@.len() == start.windows.len(),
                places@.len() == start.windows.len(),
                forall|j: int|
                    0 <= j < places@.len() ==> #[trigger] places@[j] == start.dialog_place(
                        start.windows[j],
                    ),
                self@ == start.each_window(i as int, step),
            decreases self.windows@.len() - i,
        {
            proof {
                lemma_each_window(start, i as int, step);
            }
            let ghost before = self@;
            assert(before.windows[i as int] == self.windows@[i as int]@);
            assert(before.windows[i as int] == start.windows[i as int]);
            let place = places[i];
            self.windows[i].put(place, &mut self.requests);
            assert(self@ =~= before.commit(i as int, before.staged(i as int).put(place)));
            i = i + 1;
        }
    }

    fn output_for_cascade(&self, w: &Window) -> (r: Option<OutputId>)
        ensures
            r == self@.cascade_output(w@),
    {
        proof {
            reveal(ContextView::cascade_output);
        }
        if !w.position_undefined {
            return None;
        }
        let own: Option<OutputId> = self.live_output(w.output);
        assert(own == self@.live_output(w@));
        if own.is_some() {
            return own;
        }
        let preferred: Option<OutputId> = self.preferred_output_for_window_id(w.id);
        if preferred.is_some() {
            return preferred;
        }
        self.current_output
    }

    fn windows_in_cascade(&self, output: OutputId) -> (r: Vec<WindowId>)
        ensures
            r@ == cascade_ids(self@, self@.windows, output),
    {
        let mut ids: Vec<WindowId> = Vec::new();
        let mut i: usize = 0;
        assert(self@.windows.take(0).len() == 0);
        while i < self.windows.len()
            invariant
                i <= self.windows@.len(),
                ids@ == cascade_ids(self@, self@.windows.take(i as int), output),
            decreases self.windows@.len() - i,
        {
            assert(self@.windows.take(i + 1).drop_last() =~= self@.windows.take(i as int));
            assert(self@.windows[i as int] == self.windows@[i as int]@);
            let w = &self.windows[i];
            if self.output_for_cascade(w) == Some(output) && self.is_visible_on(w, output) {
                ids.push(w.id);
            }
            i = i + 1;
        }
        assert(self@.windows.take(i as int) =~= self@.windows);
        ids
    }

    fn cascades(&self) -> (r: Vec<(Area, Vec<WindowId>)>)
        ensures
            r@.len() == self@.outputs.len(),
            forall|k: int|
                0 <= k < r@.len() ==> (#[trigger] r@[k]).0 == self@.outputs[k].usable_area()
                    && r@[k].1@ == cascade_ids(self@, self@.windows, self@.outputs[k].id),
    {
        let mut r: Vec<(Area, Vec<WindowId>)> = Vec::new();
        let mut k: usize = 0;
        while k < self.outputs.len()
            invariant
                k <= self.outputs@.len(),
                r@.len() == k,
                forall|j: int|
                    0 <= j < r@.len() ==> (#[trigger] r@[j]).0 == self@.outputs[j].usable_area()
                        && r@[j].1@ == cascade_ids(self@, self@.windows, self@.outputs[j].id),
            decreases self.outputs@.len() - k,
        {
            assert(self@.outputs[k as int] == self.outputs@[k as int]@);
            let ids = self.windows_in_cascade(self.outputs[k].id);
            r.push((self.outputs[k].usable_area(), ids));
            k = k + 1;
        }
        r
    }

    fn place_at(&mut self, window_id: WindowId, place: (i32, i32))
        ensures
            final(self)@ == old(self)@.put_at(window_id, place),
            final(self).windows@.len() == old(self).windows@.len(),
    {
        proof {
            reveal(ContextView::put_at);
        }
        if let Some(i) = self.find_window(window_id) {
            let ghost before = self@;
            self.windows[i].set_position(place.0, place.1, &mut self.requests);
            assert(self@ =~= before.commit(
                i as int,
                before.staged(i as int).set_position(place.0, place.1),
            ));
        }
    }

    fn place_in_cascade(&self, area: Area, place: usize, count: usize) -> (r: (i32, i32))
        requires
            place < count,
        ensures
            r == self@.cascade_place(area, place as int, count as int),
    {
        let pad_x: i64 = CASCADE_PADDING as i64 + self.config.ui.border_width as i64;
        let pad_y: i64 = pad_x + titlebar_height(&self.config.ui) as i64;
        let across: (i64, i64) = span_of(area.0, area.2, pad_x);
        let down: (i64, i64) = span_of(area.1, area.3, pad_y);
        (spot(across, place, count), spot(down, place, count))
    }

    fn cascade(&mut self, ids: &Vec<WindowId>, area: Area)
        ensures
            final(self)@ == old(self)@.cascaded(ids@, area, ids@.len() as int),
            final(self).windows@.len() == old(self).windows@.len(),
    {
        let ghost start = self@;
        let mut n: usize = 0;
        while n < ids.len()
            invariant
                n <= ids@.len(),
                self@.config == start.config,
                self.windows@.len() == old(self).windows@.len(),
                self@ == start.cascaded(ids@, area, n as int),
            decreases ids@.len() - n,
        {
            let place = self.place_in_cascade(area, n, ids.len());
            let ghost before = self@;
            self.place_at(ids[n], place);
            assert(self@.config == before.config) by {
                reveal(ContextView::put_at);
            }
            n = n + 1;
        }
    }

    fn place_cascades(&mut self)
        ensures
            final(self)@ == old(self)@.all_cascaded(old(self)@, old(self)@.outputs.len() as int),
            final(self).windows@.len() == old(self).windows@.len(),
    {
        let ghost start = self@;
        let groups = self.cascades();
        let mut k: usize = 0;
        while k < groups.len()
            invariant
                k <= groups@.len(),
                self.windows@.len() == old(self).windows@.len(),
                groups@.len() == start.outputs.len(),
                forall|j: int|
                    0 <= j < groups@.len() ==> (#[trigger] groups@[j]).0
                        == start.outputs[j].usable_area() && groups@[j].1@ == cascade_ids(
                        start,
                        start.windows,
                        start.outputs[j].id,
                    ),
                self@ == start.all_cascaded(start, k as int),
            decreases groups@.len() - k,
        {
            proof {
                reveal(ContextView::cascaded_on);
            }
            let area = groups[k].0;
            if area.2 > 0 && area.3 > 0 {
                self.cascade(&groups[k].1, area);
            }
            k = k + 1;
        }
    }

    /// Give the windows without a place one
    ///
    /// Dialogs (windows with a parent) get centred over their parent rather
    /// than being cascaded along with regular toplevels.
    pub fn apply_initial_positions(&mut self)
        ensures
            final(self)@ == old(self)@.positions_applied(),
            final(self).windows@.len() == old(self).windows@.len(),
    {
        proof {
            reveal(ContextView::positions_applied);
        }
        self.place_dialogs();
        self.place_cascades();
    }

    fn unminimize_all(&mut self)
        ensures
            final(self)@ == old(self)@.unminimized(),
            final(self).windows@.len() == old(self).windows@.len(),
    {
        proof {
            reveal(ContextView::unminimized);
        }
        if self.startup_unminimize_done {
            return;
        }
        let ghost start = self@;
        let ghost step = show_step();
        let mut i: usize = 0;
        while i < self.windows.len()
            invariant
                i <= self.windows@.len(),
                step == show_step(),
                self.windows@.len() == start.windows.len(),
                self@ == start.each_window(i as int, step),
            decreases self.windows@.len() - i,
        {
            proof {
                lemma_each_window(start, i as int, step);
            }
            let ghost before = self@;
            assert(before.windows[i as int] == self.windows@[i as int]@);
            self.windows[i].show(&mut self.requests);
            assert(self@ =~= before.commit(i as int, before.staged(i as int).show()));
            i = i + 1;
        }
        self.startup_unminimize_done = true;
    }

    fn is_seen(&self, w: &Window) -> (r: bool)
        ensures
            r == self@.seen(w@),
    {
        let mut k: usize = 0;
        while k < self.outputs.len()
            invariant
                k <= self.outputs@.len(),
                forall|j: int|
                    0 <= j < k ==> !self@.visible_on(w@, (#[trigger] self@.outputs[j]).id),
            decreases self.outputs@.len() - k,
        {
            assert(self@.outputs[k as int] == self.outputs@[k as int]@);
            if self.is_visible_on(w, self.outputs[k].id) {
                return true;
            }
            k = k + 1;
        }
        false
    }

    fn render_windows(&mut self, all: bool)
        ensures
            final(self)@ == old(self)@.each_window(
                old(self)@.windows.len() as int,
                render_step(old(self)@, all),
            ),
            final(self).windows@.len() == old(self).windows@.len(),
    {
        let ghost start = self@;
        let ghost step = render_step(start, all);
        let mut i: usize = 0;
        while i < self.windows.len()
            invariant
                i <= self.windows@.len(),
                step == render_step(start, all),
                self.windows@.len() == start.windows.len(),
                self@ == start.each_window(i as int, step),
            decreases self.windows@.len() - i,
        {
            proof {
                lemma_each_window(start, i as int, step);
            }
            let ghost before = self@;
            assert(before.windows[i as int] == self.windows@[i as int]@);
            assert(before.outputs == start.outputs);
            let seen = self.is_seen(&self.windows[i]);
            assert(seen == start.seen(before.windows[i as int])) by {
                let w = before.windows[i as int];
                assert(before.live_output(w) == start.live_output(w));
                assert forall|k: int| 0 <= k < start.outputs.len() implies before.visible_on(
                    w,
                    (#[trigger] start.outputs[k]).id,
                ) == start.visible_on(w, start.outputs[k].id) by {}
            }
            self.windows[i].render(all || seen, &mut self.requests);
            assert(self@ =~= before.commit(i as int, before.staged(i as int).rendered(all || seen)));
            i = i + 1;
        }
    }

    /// Number of ancestors a window has via its parent chain (0 if no parent).
    /// Cycles are not possible per the river protocol but we cap iteration
    /// defensively at the total window count.
    pub fn parent_chain_depth(&self, window_id: WindowId) -> (depth: usize)
        requires
            self.windows@.len() < usize::MAX,
        ensures
            depth == self@.chain_depth(window_id),
            depth <= self.windows@.len() + 1,
    {
        let mut depth: usize = 0;
        let mut current: WindowId = window_id;
        let limit: usize = self.windows.len();
        assert(limit == self@.windows.len());
        while depth <= limit
            invariant
                depth <= limit + 1,
                limit == self@.windows.len(),
                limit < usize::MAX,
                self@.chain_depth(window_id) == depth + self@.ancestors(
                    current,
                    (limit + 1 - depth) as nat,
                ),
            decreases limit + 1 - depth,
        {
            let parent: Option<WindowId> = match self.find_window(current) {
                Some(i) => self.windows[i].parent,
                None => None,
            };
            match parent {
                Some(p) => {
                    depth = depth + 1;
                    current = p;
                },
                None => {
                    return depth;
                },
            }
        }
        depth
    }

    /// The topmost ancestor reachable via the parent chain, or the window
    /// itself if it has no (known) parent.
    pub fn root_ancestor(&self, window_id: WindowId) -> (r: WindowId)
        requires
            self.windows@.len() < usize::MAX,
        ensures
            r == self@.root(window_id),
    {
        let mut current: WindowId = window_id;
        let limit: usize = self.windows.len();
        assert(limit == self@.windows.len());
        let mut steps: usize = 0;
        while steps <= limit
            invariant
                steps <= limit + 1,
                limit < usize::MAX,
                limit == self@.windows.len(),
                self@.root(window_id) == self@.ancestor(current, (limit + 1 - steps) as nat),
            decreases limit + 1 - steps,
        {
            let parent: Option<WindowId> = match self.find_window(current) {
                Some(i) => match self.windows[i].parent {
                    Some(p) => if self.find_window(p).is_some() {
                        Some(p)
                    } else {
                        None
                    },
                    None => None,
                },
                None => None,
            };
            match parent {
                Some(p) => {
                    current = p;
                    steps = steps + 1;
                },
                None => {
                    return current;
                },
            }
        }
        current
    }

    fn raise_focused_root(&mut self)
        requires
            old(self).windows@.len() < usize::MAX,
        ensures
            final(self)@ == old(self)@.focused_root_raised(),
            final(self).windows@.len() == old(self).windows@.len(),
    {
        proof {
            reveal(ContextView::focused_root_raised);
        }
        proof {
            reveal(ContextView::placed_top);
        }
        assert(self.windows@.len() == self@.windows.len());
        if let Some(focused_id) = self.focused_window {
            let root_id: WindowId = self.root_ancestor(focused_id);
            if let Some(i) = self.find_window(root_id) {
                if !self.windows[i].hidden {
                    self.raise(root_id);
                    assert(self.windows@.len() == self@.windows.len());
                }
            }
        }
    }

    fn place_child(&mut self, i: usize, depth: usize)
        requires
            i < old(self).windows@.len(),
            old(self).windows@.len() < usize::MAX,
        ensures
            final(self)@ == old(self)@.child_placed(i as int, depth as nat),
    {
        proof {
            reveal(ContextView::child_placed);
        }
        assert(self@.windows[i as int] == self.windows@[i as int]@);
        if let Some(parent) = self.windows[i].parent {
            if let Some(j) = self.find_window(parent) {
                if self.parent_chain_depth(self.windows[i].id) == depth && !self.windows[i].hidden {
                    self.windows[i].place_above(&self.windows[j], &mut self.requests);
                }
            }
        }
    }

    /// Dialogs render directly above their parent (river-window-management-v1
    /// recommends this for parented windows). They are placed by parent-chain
    /// depth so nested dialogs end up stacked above their immediate parent
    /// without disturbing the order established by deeper iterations.
    fn place_children(&mut self)
        requires
            old(self).windows@.len() < usize::MAX,
        ensures
            final(self)@ == old(self)@.levels_placed(old(self)@.windows.len() + 1),
    {
        let ghost start = self@;
        let count: usize = self.windows.len();
        assert(count == start.windows.len());
        let mut depth: usize = 0;
        while depth < count + 1
            invariant
                depth <= count + 1,
                count < usize::MAX,
                count == start.windows.len(),
                self@ == start.levels_placed(depth as nat),
            decreases count + 1 - depth,
        {
            proof {
                lemma_levels_placed(start, depth as nat);
            }
            depth = depth + 1;
            let ghost level = self@;
            let mut i: usize = 0;
            while i < count
                invariant
                    i <= count,
                    count < usize::MAX,
                    count == level.windows.len(),
                    self@ == level.level_placed(i as int, depth as nat),
                decreases count - i,
            {
                proof {
                    lemma_level_placed(level, i as int, depth as nat);
                }
                assert(self.windows@.len() == self@.windows.len());
                self.place_child(i, depth);
                i = i + 1;
            }
        }
    }

    /// Handle render_start event - position windows and set borders
    pub fn handle_render_start(&mut self)
        requires
            old(self).windows@.len() < usize::MAX,
        ensures
            final(self)@ == old(self)@.rendered(),
    {
        proof {
            reveal(ContextView::rendered);
        }
        let all: bool = !self.startup_unminimize_done;
        self.apply_initial_positions();
        self.unminimize_all();
        self.render_windows(all);

        // Raise the focused window's root ancestor to the top. For a focused
        // dialog this lifts the whole parent chain so the chains-above-parents
        // pass below ends up stacking the focused child at the very top.
        self.raise_focused_root();
        self.place_children();
    }
}

} // verus!
