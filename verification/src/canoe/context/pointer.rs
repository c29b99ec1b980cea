//! Moving and resizing windows with the pointer, and the pointer's shape.

use vstd::prelude::*;
use crate::canoe::context::{Context, ContextView};
use crate::canoe::geometry::{
    calculate_resize_edges, calculate_resize_edges_near_border, cursor_shape_for_edges,
    edges_near_border, in_titlebar, point_in_titlebar, resize_edges, shape_for_edges,
};
use crate::canoe::scale::{is_scaling, scaling};
use crate::canoe::seat::{PointerTarget, Seat, SeatView};
use crate::canoe::titlebar::{button_rects, holds, spec_button_rects, spec_titlebar_height, titlebar_height};
use crate::canoe::window::{to_object, Operator, Staged, Window, WindowView};
use crate::canoe::{SeatId, WindowId, WindowMenuMode};
use crate::config::WindowDecoration;
use crate::num::{larger, max_i32};
use crate::protocol::{CursorShape, ObjectId, Request, Requests};

verus! {

impl Staged {
    /// Gets ready for an interactive resize.
    #[verifier::opaque]
    pub open spec fn resize_grabbed(self, seat: SeatId, edges: u32) -> Staged {
        let s = self.clear_maximized_without_restore();
        s.with(WindowView { floating: true, ..s.window }).start_resize(seat, edges)
    }
}

impl Window {
    /// Get ready for an interactive resize
    pub fn grab_for_resize(&mut self, seat: SeatId, edges: u32, requests: &mut Requests)
        ensures
            final(self).staged(final(requests)) == old(self).staged(old(requests)).resize_grabbed(
                seat,
                edges,
            ),
    {
        proof {
            reveal(Staged::resize_grabbed);
        }
        self.clear_maximized_without_restore(requests);
        let ghost w = self@;
        self.floating = true;
        assert(self@ == WindowView { floating: true, ..w });
        self.start_resize(seat, edges, requests);
    }
}

/// Whether a click at a point takes hold of the titlebar above a window. Its
/// buttons do not count.
pub open spec fn grabs_titlebar(w: WindowView, titlebar_height: i32, px: i32, py: i32) -> bool {
    let swallow = larger(w.swallow_top as int, 0);
    let local_x = px - w.x;
    let local_y = py - (w.y - titlebar_height + swallow);
    if 0 <= local_x < w.width && 0 <= local_y < titlebar_height {
        let buttons = spec_button_rects(
            w.width,
            titlebar_height,
            w.minimizable(),
            w.resizable(),
        );
        !buttons.close.contains(local_x as i32, local_y as i32) && !holds(
            buttons.hide,
            local_x as i32,
            local_y as i32,
        ) && !holds(buttons.maximize, local_x as i32, local_y as i32)
    } else {
        in_titlebar(
            w.x as int,
            w.y + swallow,
            w.width as int,
            titlebar_height as int,
            px as int,
            py as int,
        )
    }
}

fn takes_titlebar(w: &Window, titlebar_height: i32, px: i32, py: i32) -> (r: bool)
    ensures
        r == grabs_titlebar(w@, titlebar_height, px, py),
{
    let swallow: i32 = max_i32(w.swallow_top, 0);
    let local_x: i64 = px as i64 - w.x as i64;
    let local_y: i64 = py as i64 - (w.y as i64 - titlebar_height as i64 + swallow as i64);
    if local_x >= 0 && local_x < w.width as i64 && local_y >= 0 && local_y
        < titlebar_height as i64 {
        let local_x: i32 = local_x as i32;
        let local_y: i32 = local_y as i32;
        let buttons = button_rects(
            w.width,
            titlebar_height,
            w.has_minimize_button(),
            w.has_maximize_button(),
        );
        let on_hide: bool = match buttons.hide {
            Some(rect) => rect.contains(local_x, local_y),
            None => false,
        };
        let on_maximize: bool = match buttons.maximize {
            Some(rect) => rect.contains(local_x, local_y),
            None => false,
        };
        !buttons.close.contains(local_x, local_y) && !on_hide && !on_maximize
    } else {
        point_in_titlebar(w.x, w.y as i64 + swallow as i64, w.width, titlebar_height, px, py)
    }
}

impl ContextView {
    /// Starts a pointer operation on a seat.
    pub open spec fn pointer_op(self, seat: SeatId) -> ContextView {
        match self.seat(seat) {
            Some(s) => ContextView {
                requests: to_object(
                    self.requests,
                    s.rwm_seat,
                    |seat: ObjectId| Request::OpStartPointer { seat },
                ),
                ..self
            },
            None => self,
        }
    }

    /// The edges of a window's frame that a point is close to.
    pub open spec fn frame_edges(self, w: WindowView, swallow: int, px: i32, py: i32) -> u32 {
        let border = self.config.ui.border_width;
        let titlebar = spec_titlebar_height(self.config.ui.font_size);
        edges_near_border(
            w.x - border,
            w.y - border - titlebar + swallow,
            w.width + border * 2,
            w.height + border * 2 + titlebar - swallow,
            border as int,
            px as int,
            py as int,
        )
    }

    /// The edges of a window that a seat is dragging.
    pub open spec fn dragged_edges(self, w: WindowView, seat: SeatId) -> u32 {
        match w.operator {
            Operator::Resize { edges, seat: dragger, .. } => if dragger == Some(seat)
                && self.seat_index(seat) is Some {
                edges
            } else {
                0
            },
            _ => 0,
        }
    }

    /// The edges that the pointer of a seat drags on the focused window, or
    /// else those of the window below it that it could drag.
    #[verifier::opaque]
    pub open spec fn cursor_edges(self, s: SeatView) -> u32 {
        let dragged = match self.focused_window {
            Some(id) => match self.window(id) {
                Some(w) => self.dragged_edges(w, s.id),
                None => 0,
            },
            None => 0,
        };
        if dragged != 0 {
            dragged
        } else {
            match s.window_below_pointer {
                Some(id) => match self.window(id) {
                    Some(w) => if w.resizable() {
                        self.frame_edges(w, 0, s.pointer_x, s.pointer_y)
                    } else {
                        0
                    },
                    None => 0,
                },
                None => 0,
            }
        }
    }

    /// The pointer shape on a surface of the window manager: a hand over icons
    /// of the desktop, and an arrow elsewhere. Other surfaces have their own.
    #[verifier::opaque]
    pub open spec fn surface_shape(self, s: SeatView) -> Option<CursorShape> {
        match s.pointer_target {
            PointerTarget::Desktop(output) => {
                let on_icon = match self.output(output) {
                    Some(o) => match o.desktop_surface {
                        Some(desktop) => desktop.icon_at(s.last_surface_x, s.last_surface_y) is Some,
                        None => false,
                    },
                    None => false,
                };
                if on_icon {
                    Some(CursorShape::Pointer)
                } else {
                    Some(CursorShape::Default)
                }
            },
            PointerTarget::Menu => Some(CursorShape::Default),
            PointerTarget::Titlebar(_) => Some(CursorShape::Default),
            PointerTarget::MenuShield(_) => None,
            PointerTarget::Nothing => None,
        }
    }

    /// Gives the pointer of a seat the shape that fits where it is. While
    /// alt-tab is going on it stays as it is.
    #[verifier::opaque]
    pub open spec fn cursor_updated(self, seat: SeatId) -> ContextView {
        if self.window_menu_mode == Some(WindowMenuMode::AltTab) {
            self
        } else {
            match self.seat_index(seat) {
                Some(j) => {
                    let edges = self.cursor_edges(self.seats[j]);
                    let shape = if edges != 0 {
                        shape_for_edges(edges)
                    } else {
                        self.surface_shape(self.seats[j])
                    };
                    self.commit_seat(j, self.staged_seat(j).set_cursor_shape(shape))
                },
                None => self,
            }
        }
    }

    /// The window below the pointer of a seat, if it still exists.
    pub open spec fn window_below(self, seat: SeatId) -> Option<WindowId> {
        match self.seat(seat) {
            Some(s) => match s.window_below_pointer {
                Some(id) => if self.window_index(id) is Some {
                    Some(id)
                } else {
                    None
                },
                None => None,
            },
            None => None,
        }
    }

    /// Focuses the window below the pointer and starts moving it.
    #[verifier::opaque]
    pub open spec fn pointer_move_started(
        self,
        seat: SeatId,
        scale: spec_fn(i64, i32, i32) -> i32,
    ) -> ContextView {
        match self.window_below(seat) {
            Some(below) => {
                let c = self.focus(below);
                match c.focused_window {
                    Some(id) => c.move_started(id, seat, true, scale),
                    None => c,
                }
            },
            None => self,
        }
    }

    /// Starts moving a window with the pointer of a seat.
    #[verifier::opaque]
    pub open spec fn move_started(
        self,
        id: WindowId,
        seat: SeatId,
        adjust_y: bool,
        scale: spec_fn(i64, i32, i32) -> i32,
    ) -> ContextView {
        match (self.window_index(id), self.seat_index(seat)) {
            (Some(i), Some(j)) => self.commit(
                i,
                self.staged(i).move_started(
                    seat,
                    self.seats[j].pointer_x,
                    self.seats[j].pointer_y,
                    adjust_y,
                    scale,
                ),
            ).pointer_op(seat),
            _ => self,
        }
    }

    /// Focuses the window below the pointer and starts resizing it, if it can
    /// be resized.
    #[verifier::opaque]
    pub open spec fn pointer_resize_started(self, seat: SeatId) -> ContextView {
        match self.window_below(seat) {
            Some(below) => {
                let c = self.focus(below);
                match c.focused_window {
                    Some(id) => c.corner_grabbed(id, seat),
                    None => c,
                }
            },
            None => self,
        }
    }

    /// Starts resizing a window at the corner nearest to the pointer.
    #[verifier::opaque]
    pub open spec fn corner_grabbed(self, id: WindowId, seat: SeatId) -> ContextView {
        match (self.window_index(id), self.seat_index(seat)) {
            (Some(i), Some(j)) => {
                let w = self.windows[i];
                let edges = resize_edges(w, self.seats[j].pointer_x, self.seats[j].pointer_y);
                if w.resizable() {
                    self.commit(
                        i,
                        self.staged(i).with(WindowView { snap_state: None, ..w }).resize_grabbed(
                            seat,
                            edges,
                        ),
                    ).pointer_op(seat).cursor_updated(seat)
                } else {
                    self
                }
            },
            _ => self,
        }
    }

    /// Starts resizing a window at some edges.
    #[verifier::opaque]
    pub open spec fn edges_grabbed(self, id: WindowId, seat: SeatId, edges: u32) -> ContextView {
        match self.window_index(id) {
            Some(i) => self.commit(i, self.staged(i).resize_grabbed(seat, edges)).pointer_op(
                seat,
            ).cursor_updated(seat),
            None => self,
        }
    }

    /// Answers a click into a window: near the border it starts a resize, on
    /// the titlebar a move.
    #[verifier::opaque]
    pub open spec fn window_interaction(
        self,
        seat: SeatId,
        id: WindowId,
        scale: spec_fn(i64, i32, i32) -> i32,
    ) -> ContextView {
        match (self.seat(seat), self.window(id)) {
            (Some(s), Some(w)) => {
                let swallow = larger(w.swallow_top as int, 0);
                let edges = if w.resizable() {
                    self.frame_edges(w, swallow, s.pointer_x, s.pointer_y)
                } else {
                    0
                };
                let titlebar = spec_titlebar_height(self.config.ui.font_size);
                if edges != 0 {
                    self.edges_grabbed(id, seat, edges)
                } else if w.decoration == Some(WindowDecoration::Ssd) && grabs_titlebar(
                    w,
                    titlebar,
                    s.pointer_x,
                    s.pointer_y,
                ) {
                    self.move_started(id, seat, false, scale)
                } else {
                    self
                }
            },
            _ => self,
        }
    }
}

impl Context {
    pub fn start_pointer_op(&mut self, seat_id: SeatId)
        ensures
            final(self)@ == old(self)@.pointer_op(seat_id),
    {
        if let Some(j) = self.find_seat(seat_id) {
            self.seats[j].start_pointer_op(&mut self.requests);
        }
    }

    fn edges_of_frame(&self, w: &Window, swallow: i32, px: i32, py: i32) -> (r: u32)
        ensures
            r == self@.frame_edges(w@, swallow as int, px, py),
    {
        let border: i64 = self.config.ui.border_width as i64;
        let titlebar: i64 = titlebar_height(&self.config.ui) as i64;
        calculate_resize_edges_near_border(
            w.x as i64 - border,
            w.y as i64 - border - titlebar + swallow as i64,
            w.width as i64 + border * 2,
            w.height as i64 + border * 2 + titlebar - swallow as i64,
            self.config.ui.border_width,
            px,
            py,
        )
    }

    fn edges_under_cursor(&self, s: &Seat) -> (r: u32)
        ensures
            r == self@.cursor_edges(s@),
    {
        proof {
            reveal(ContextView::cursor_edges);
        }
        if let Some(id) = self.focused_window {
            if let Some(i) = self.find_window(id) {
                if let Operator::Resize { edges, seat, .. } = self.windows[i].operator {
                    if seat == Some(s.id) && self.find_seat(s.id).is_some() && edges != 0 {
                        return edges;
                    }
                }
            }
        }
        if let Some(id) = s.window_below_pointer {
            if let Some(i) = self.find_window(id) {
                if self.windows[i].is_resizable() {
                    return self.edges_of_frame(&self.windows[i], 0, s.pointer_x, s.pointer_y);
                }
            }
        }
        0
    }

    fn shape_on_surface(&self, s: &Seat) -> (r: Option<CursorShape>)
        ensures
            r == self@.surface_shape(s@),
    {
        proof {
            reveal(ContextView::surface_shape);
        }
        match s.pointer_target {
            PointerTarget::Desktop(output) => {
                let mut on_icon: bool = false;
                if let Some(k) = self.find_output(output) {
                    if let Some(desktop) = &self.outputs[k].desktop_surface {
                        on_icon = desktop.icon_at(
                            s.last_surface_x,
                            s.last_surface_y,
                            self.outputs[k].scale,
                        ).is_some();
                    }
                }
                if on_icon {
                    Some(CursorShape::Pointer)
                } else {
                    Some(CursorShape::Default)
                }
            },
            PointerTarget::Menu => Some(CursorShape::Default),
            PointerTarget::Titlebar(_) => Some(CursorShape::Default),
            PointerTarget::MenuShield(_) => None,
            PointerTarget::Nothing => None,
        }
    }

    /// Update the cursor shape based on resize state or border hover.
    pub fn update_cursor_for_seat(&mut self, seat_id: SeatId)
        ensures
            final(self)@ == old(self)@.cursor_updated(seat_id),
    {
        proof {
            reveal(ContextView::cursor_updated);
        }
        if let Some(WindowMenuMode::AltTab) = self.window_menu_mode {
            return;
        }
        if let Some(j) = self.find_seat(seat_id) {
            let edges: u32 = self.edges_under_cursor(&self.seats[j]);
            // For WM-owned surfaces, force a sensible cursor so the previous
            // application's cursor doesn't leak through.
            let shape: Option<CursorShape> = if edges != 0 {
                cursor_shape_for_edges(edges)
            } else {
                self.shape_on_surface(&self.seats[j])
            };
            let ghost before = self@;
            self.seats[j].set_cursor_shape(shape, &mut self.requests);
            assert(self@ =~= before.commit_seat(
                j as int,
                before.staged_seat(j as int).set_cursor_shape(shape),
            ));
        }
    }

    fn existing_window_below(&self, seat_id: SeatId) -> (r: Option<WindowId>)
        ensures
            r == self@.window_below(seat_id),
    {
        match self.find_seat(seat_id) {
            Some(j) => match self.seats[j].window_below_pointer {
                Some(id) => if self.find_window(id).is_some() {
                    Some(id)
                } else {
                    None
                },
                None => None,
            },
            None => None,
        }
    }

    /// Start pointer move operation
    ///
    /// Does nothing when there is no window below the pointer (e.g. on the
    /// desktop) so that no unrelated window is moved.
    pub fn start_pointer_move<F: Fn(i64, i32, i32) -> i32>(&mut self, seat_id: SeatId, scale: &F)
        requires
            is_scaling(*scale),
        ensures
            final(self)@ == old(self)@.pointer_move_started(seat_id, scaling(*scale)),
    {
        proof {
            reveal(ContextView::pointer_move_started);
        }
        if let Some(below) = self.existing_window_below(seat_id) {
            self.focus(below);
            if let Some(window_id) = self.focused_window {
                self.start_move(window_id, seat_id, true, scale);
            }
        }
    }

    fn start_move<F: Fn(i64, i32, i32) -> i32>(&mut self, window_id: WindowId, seat_id: SeatId, adjust_y: bool, scale: &F)
        requires
            is_scaling(*scale),
        ensures
            final(self)@ == old(self)@.move_started(window_id, seat_id, adjust_y, scaling(*scale)),
    {
        proof {
            reveal(ContextView::move_started);
        }
        if let Some(i) = self.find_window(window_id) {
            if let Some(j) = self.find_seat(seat_id) {
                let ghost before = self@;
                let px: i32 = self.seats[j].pointer_x;
                let py: i32 = self.seats[j].pointer_y;
                self.windows[i].begin_move(seat_id, px, py, adjust_y, scale, &mut self.requests);
                assert(self@ =~= before.commit(
                    i as int,
                    before.staged(i as int).move_started(
                        seat_id,
                        px,
                        py,
                        adjust_y,
                        scaling(*scale),
                    ),
                ));
                self.start_pointer_op(seat_id);
            }
        }
    }

    /// Start pointer resize operation
    ///
    /// Fixed-size toplevels and dialogs are focused but not resized.
    pub fn start_pointer_resize(&mut self, seat_id: SeatId)
        ensures
            final(self)@ == old(self)@.pointer_resize_started(seat_id),
    {
        proof {
            reveal(ContextView::pointer_resize_started);
        }
        if let Some(below) = self.existing_window_below(seat_id) {
            self.focus(below);
            if let Some(window_id) = self.focused_window {
                self.grab_corner(window_id, seat_id);
            }
        }
    }

    fn grab_corner(&mut self, window_id: WindowId, seat_id: SeatId)
        ensures
            final(self)@ == old(self)@.corner_grabbed(window_id, seat_id),
    {
        proof {
            reveal(ContextView::corner_grabbed);
        }
        if let Some(i) = self.find_window(window_id) {
            if !self.windows[i].is_resizable() {
                return;
            }
            if let Some(j) = self.find_seat(seat_id) {
                let ghost before = self@;
                let edges: u32 = calculate_resize_edges(
                    &self.windows[i],
                    self.seats[j].pointer_x,
                    self.seats[j].pointer_y,
                );
                self.windows[i].snap_state = None;
                let ghost w = WindowView { snap_state: None, ..before.windows[i as int] };
                assert(self.windows@[i as int]@ == w);
                self.windows[i].grab_for_resize(seat_id, edges, &mut self.requests);
                assert(self@ =~= before.commit(
                    i as int,
                    before.staged(i as int).with(w).resize_grabbed(seat_id, edges),
                ));
                self.start_pointer_op(seat_id);
                self.update_cursor_for_seat(seat_id);
            }
        }
    }

    fn grab_edges(&mut self, window_id: WindowId, seat_id: SeatId, edges: u32)
        ensures
            final(self)@ == old(self)@.edges_grabbed(window_id, seat_id, edges),
    {
        proof {
            reveal(ContextView::edges_grabbed);
        }
        if let Some(i) = self.find_window(window_id) {
            let ghost before = self@;
            self.windows[i].grab_for_resize(seat_id, edges, &mut self.requests);
            assert(self@ =~= before.commit(
                i as int,
                before.staged(i as int).resize_grabbed(seat_id, edges),
            ));
            self.start_pointer_op(seat_id);
            self.update_cursor_for_seat(seat_id);
        }
    }

    /// Start move/resize based on pointer location within the window frame
    pub fn handle_window_interaction<F: Fn(i64, i32, i32) -> i32>(
        &mut self,
        seat_id: SeatId,
        window_id: WindowId,
        scale: &F,
    )
        requires
            is_scaling(*scale),
        ensures
            final(self)@ == old(self)@.window_interaction(seat_id, window_id, scaling(*scale)),
    {
        proof {
            reveal(ContextView::window_interaction);
        }
        let j: usize = match self.find_seat(seat_id) {
            Some(j) => j,
            None => return,
        };
        let i: usize = match self.find_window(window_id) {
            Some(i) => i,
            None => return,
        };
        let px: i32 = self.seats[j].pointer_x;
        let py: i32 = self.seats[j].pointer_y;
        let w = &self.windows[i];
        let edges: u32 = if w.is_resizable() {
            self.edges_of_frame(w, max_i32(w.swallow_top, 0), px, py)
        } else {
            0
        };
        let has_titlebar: bool = w.decoration == Some(WindowDecoration::Ssd);
        if edges != 0 {
            self.grab_edges(window_id, seat_id, edges);
        } else if has_titlebar && takes_titlebar(w, titlebar_height(&self.config.ui), px, py) {
            self.start_move(window_id, seat_id, false, scale);
        }
    }
}

} // verus!
