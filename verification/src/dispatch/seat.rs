//! Events of a seat, of its layer shell object and of its bindings.

use vstd::prelude::*;
use crate::binding::action::ActionView;
use crate::binding::{Action, BindingEvent};
use crate::canoe::context::{Context, ContextView};
use crate::canoe::scale::{is_scaling, scaling};
use crate::canoe::seat::SeatView;
use crate::canoe::titlebar::{
    border_width, button_at, spec_border_width, spec_button_at, spec_titlebar_height,
    titlebar_height, TitlebarButton,
};
use crate::canoe::window::{to_object, Operator, WindowView};
use crate::canoe::{SeatId, WindowId};
use crate::dispatch::globals::{Globals, GlobalsView};
use crate::num::{sat, to_i32};
use crate::protocol::{ObjectId, Request};
use crate::search::{first, lemma_first_is, lemma_first_none};

verus! {

/// What the compositor reports about a seat.
#[derive(Debug, Clone, Copy, PartialEq, Eq, Structural)]
pub enum SeatReport {
    Removed,
    WlSeat { name: u32 },
    PointerEnter { window: ObjectId },
    PointerLeave,
    WindowInteraction { window: ObjectId },
    OpDelta { dx: i32, dy: i32 },
    OpRelease,
    PointerPosition { x: i32, y: i32 },
}

/// What the compositor reports about keyboard focus of panels and the like.
#[derive(Debug, Clone, Copy, PartialEq, Eq, Structural)]
pub enum LayerFocus {
    Exclusive,
    NonExclusive,
    Nothing,
}

/// Holds of the windows on whose titlebar the left button is down.
pub open spec fn titlebar_held() -> spec_fn(WindowView) -> bool {
    |w: WindowView| w.titlebar_left_down
}

impl ContextView {
    /// With a seat changed by `f`, if it exists.
    pub open spec fn seat_changed(self, id: SeatId, f: spec_fn(SeatView) -> SeatView) -> ContextView {
        match self.seat_index(id) {
            Some(j) => self.with_seat(j, f(self.seats[j])),
            None => self,
        }
    }

    /// Queues an action for a seat.
    #[verifier::opaque]
    pub open spec fn action_queued(self, id: SeatId, action: ActionView) -> ContextView {
        self.seat_changed(id, |s: SeatView| s.queued(action))
    }

    /// The button of a window's titlebar at a point of its decoration.
    #[verifier::opaque]
    pub open spec fn button_under(self, w: WindowView, x: i32, y: i32) -> Option<TitlebarButton> {
        spec_button_at(
            w.width,
            spec_border_width(self.config.ui.border_width, w.frame_style()),
            x,
            y,
            spec_titlebar_height(self.config.ui.font_size),
            w.minimizable(),
            w.resizable(),
        )
    }

    /// Hovers the button of a window's titlebar at a point of its decoration.
    #[verifier::opaque]
    pub open spec fn titlebar_hover_set(self, id: WindowId, x: i32, y: i32) -> ContextView {
        match self.window_index(id) {
            Some(i) => self.with_window(
                i,
                WindowView {
                    titlebar_hovered: self.button_under(self.windows[i], x, y),
                    ..self.windows[i]
                },
            ),
            None => self,
        }
    }

    /// Whether another button would be hovered.
    pub open spec fn titlebar_hover_changes(self, id: WindowId, x: i32, y: i32) -> bool {
        match self.window(id) {
            Some(w) => w.titlebar_hovered != self.button_under(w, x, y),
            None => false,
        }
    }

    /// Hovers a button of a titlebar and has it drawn if that changed.
    #[verifier::opaque]
    pub open spec fn titlebar_hovered(self, id: WindowId, x: i32, y: i32) -> ContextView {
        let c = self.titlebar_hover_set(id, x, y);
        if self.titlebar_hover_changes(id, x, y) {
            c.manage_dirty()
        } else {
            c
        }
    }

    /// Hovers the button of a titlebar at a point of the screen, while the left
    /// button is held down on it.
    #[verifier::opaque]
    pub open spec fn held_titlebar_hovered(self, x: i32, y: i32) -> ContextView {
        match first(self.windows, titlebar_held()) {
            Some(i) => {
                let w = self.windows[i];
                let border = spec_border_width(self.config.ui.border_width, w.frame_style());
                let titlebar = spec_titlebar_height(self.config.ui.font_size);
                self.titlebar_hovered(
                    w.id,
                    sat(x - (w.x - border)),
                    sat(y - (w.y - border - titlebar + w.swallow_top)),
                )
            },
            None => self,
        }
    }

    /// The pointer of a seat came over a window.
    #[verifier::opaque]
    pub open spec fn pointer_over(self, seat: SeatId, object: ObjectId) -> ContextView {
        match self.window_of(object) {
            Some(id) => {
                let c = self.seat_changed(
                    seat,
                    |s: SeatView| SeatView { window_below_pointer: Some(id), ..s },
                );
                let c = if c.config.sloppy_focus {
                    c.focus(id)
                } else {
                    c
                };
                c.cursor_updated(seat)
            },
            None => self,
        }
    }

    /// The pointer of a seat left all windows.
    #[verifier::opaque]
    pub open spec fn pointer_off(self, seat: SeatId) -> ContextView {
        self.seat_changed(
            seat,
            |s: SeatView| SeatView { window_below_pointer: None, ..s },
        ).cursor_updated(seat)
    }

    /// A window was clicked: any menu closes, the window gets the focus, and a
    /// click on its frame moves or resizes it.
    #[verifier::opaque]
    pub open spec fn window_clicked(
        self,
        seat: SeatId,
        object: ObjectId,
        scale: spec_fn(i64, i32, i32) -> i32,
    ) -> ContextView {
        match self.window_of(object) {
            Some(id) => {
                let c = self.menu_closed();
                let c = if c.icon_focus_output is Some {
                    c.icon_focus_left(seat)
                } else {
                    c
                };
                c.focus(id).window_interaction(seat, id, scale)
            },
            None => self,
        }
    }

    /// The pointer travelled during an operation on the focused window.
    #[verifier::opaque]
    pub open spec fn op_moved(self, dx: i32, dy: i32) -> ContextView {
        match self.focused_window {
            Some(id) => match self.window_index(id) {
                Some(i) => self.commit(i, self.staged(i).apply_op_delta(dx, dy)),
                None => self,
            },
            None => self,
        }
    }

    /// The operation on the focused window ended.
    #[verifier::opaque]
    pub open spec fn op_ended(self) -> ContextView {
        match self.focused_window {
            Some(id) => match self.window_index(id) {
                Some(i) => self.commit(i, self.staged(i).end_operation()),
                None => self,
            },
            None => self,
        }
    }

    /// The focused window, if it is being moved.
    pub open spec fn moved_window(self) -> Option<WindowId> {
        match self.focused_window {
            Some(id) => match self.window(id) {
                Some(w) => if w.operator is Move {
                    Some(id)
                } else {
                    None
                },
                None => None,
            },
            None => None,
        }
    }

    /// Ends the pointer operation of a seat.
    pub open spec fn pointer_op_ended(self, seat: SeatId) -> ContextView {
        match self.seat(seat) {
            Some(s) => ContextView {
                requests: to_object(
                    self.requests,
                    s.rwm_seat,
                    |seat: ObjectId| Request::OpEnd { seat },
                ),
                ..self
            },
            None => self,
        }
    }

    /// The button that an operation is done with was released.
    #[verifier::opaque]
    pub open spec fn op_released(self, seat: SeatId) -> ContextView {
        let c = self.op_ended().pointer_op_ended(seat);
        let c = match self.moved_window() {
            Some(id) => c.output_followed(id),
            None => c,
        };
        c.cursor_updated(seat)
    }

    /// The pointer of a seat is somewhere else.
    #[verifier::opaque]
    pub open spec fn pointer_moved(self, seat: SeatId, x: i32, y: i32, g: GlobalsView) -> ContextView {
        self.seat_changed(
            seat,
            |s: SeatView| SeatView { pointer_x: x, pointer_y: y, ..s },
        ).output_followed_pointer(seat, x as int, y as int).cursor_updated(seat).menu_hovered_by(
            seat,
            g,
        ).held_titlebar_hovered(x, y)
    }

    /// Connects a seat with the `wl_seat` of a name.
    #[verifier::opaque]
    pub open spec fn seat_connected(self, seat: SeatId, name: u32, g: GlobalsView) -> ContextView {
        self.seat_changed(
            seat,
            |s: SeatView| SeatView { wl_seat_name: name, ..s },
        ).wl_seat_attached(seat, g)
    }

    /// What a report about a seat does.
    #[verifier::opaque]
    pub open spec fn seat_reported(
        self,
        seat: SeatId,
        report: SeatReport,
        scale: spec_fn(i64, i32, i32) -> i32,
        g: GlobalsView,
    ) -> ContextView {
        if self.seat_index(seat) is None {
            self
        } else {
            match report {
                SeatReport::Removed => self.seat_destroyed(seat),
                SeatReport::WlSeat { name } => self.seat_connected(seat, name, g),
                SeatReport::PointerEnter { window } => self.pointer_over(seat, window),
                SeatReport::PointerLeave => self.pointer_off(seat),
                SeatReport::WindowInteraction { window } => self.window_clicked(
                    seat,
                    window,
                    scale,
                ),
                SeatReport::OpDelta { dx, dy } => self.op_moved(dx, dy),
                SeatReport::OpRelease => self.op_released(seat),
                SeatReport::PointerPosition { x, y } => self.pointer_moved(seat, x, y, g),
            }
        }
    }

    /// A panel or the like took the keyboard, or gave it back.
    #[verifier::opaque]
    pub open spec fn layer_focus_changed(self, seat: SeatId, focus: LayerFocus) -> ContextView {
        self.seat_changed(
            seat,
            |s: SeatView|
                match focus {
                    LayerFocus::Exclusive => (SeatView { focus_exclusive: true, ..s }).queued(
                        Action::ClearFocus@,
                    ),
                    LayerFocus::NonExclusive => SeatView { focus_exclusive: false, ..s },
                    LayerFocus::Nothing => if s.focus_exclusive {
                        (SeatView { focus_exclusive: false, ..s }).queued(Action::RestoreFocus@)
                    } else {
                        s
                    },
                },
        )
    }

    /// What pressing the key of an action does. Menus and icons answer at once;
    /// everything else waits for the manage sequence.
    #[verifier::opaque]
    pub open spec fn key_acted(
        self,
        seat: SeatId,
        action: ActionView,
        scale: spec_fn(i64, i32, i32) -> i32,
        g: GlobalsView,
    ) -> ContextView {
        match action {
            ActionView::Plain(plain) => match plain {
                Action::WindowMenuCycle => self.alt_tab_pressed(g),
                Action::WindowMenuCycleApp => self.app_tab_pressed(g),
                Action::IconSelectNext
                | Action::IconSelectPrev
                | Action::IconSelectUp
                | Action::IconSelectDown
                | Action::IconCancel => self.acted(action, seat, scale).all_desktops_shown(g),
                Action::IconActivate => self.acted(action, seat, scale).all_desktops_shown(
                    g,
                ).manage_dirty(),
                _ => self.action_queued(seat, action),
            },
            _ => self.action_queued(seat, action),
        }
    }

    /// What a key binding of a seat does when its key goes down or up.
    #[verifier::opaque]
    pub open spec fn key_reported(
        self,
        seat: SeatId,
        index: int,
        event: BindingEvent,
        scale: spec_fn(i64, i32, i32) -> i32,
        g: GlobalsView,
    ) -> ContextView {
        match self.seat(seat) {
            Some(s) => if 0 <= index < s.xkb_bindings.len() && s.xkb_bindings[index].0.enabled
                && s.xkb_bindings[index].0.event == event {
                match event {
                    BindingEvent::Pressed => self.key_acted(
                        seat,
                        s.xkb_bindings[index].0.action,
                        scale,
                        g,
                    ),
                    BindingEvent::Released => self.action_queued(
                        seat,
                        s.xkb_bindings[index].0.action,
                    ),
                }
            } else {
                self
            },
            None => self,
        }
    }

    /// What a pointer binding of a seat does when its button goes down or up.
    #[verifier::opaque]
    pub open spec fn button_reported(self, seat: SeatId, index: int, event: BindingEvent) -> ContextView {
        match self.seat(seat) {
            Some(s) => if 0 <= index < s.pointer_bindings.len()
                && s.pointer_bindings[index].0.enabled && s.pointer_bindings[index].0.event
                == event {
                self.action_queued(seat, s.pointer_bindings[index].0.action)
            } else {
                self
            },
            None => self,
        }
    }
}

impl Context {
    /// Queue an action for a seat
    pub fn queue_action(&mut self, seat_id: SeatId, action: Action)
        ensures
            final(self)@ == old(self)@.action_queued(seat_id, action@),
    {
        proof {
            reveal(ContextView::action_queued);
        }
        if let Some(j) = self.find_seat(seat_id) {
            let ghost before = self@;
            self.seats[j].queue_action(action);
            assert(self@ =~= before.with_seat(
                j as int,
                before.seats[j as int].queued(action@),
            ));
        }
    }

    fn button_under(&self, i: usize, x: i32, y: i32) -> (r: Option<TitlebarButton>)
        requires
            i < self.windows@.len(),
        ensures
            r == self@.button_under(self.windows@[i as int]@, x, y),
    {
        proof {
            reveal(ContextView::button_under);
        }
        let w = &self.windows[i];
        button_at(
            w.width,
            border_width(&self.config.ui, w.frame_style()),
            x,
            y,
            titlebar_height(&self.config.ui),
            w.has_minimize_button(),
            w.has_maximize_button(),
        )
    }

    /// Hover the button of a window's titlebar at a point of its decoration;
    /// tells whether that changed
    pub fn set_titlebar_hover(&mut self, window_id: WindowId, x: i32, y: i32) -> (changed: bool)
        ensures
            final(self)@ == old(self)@.titlebar_hover_set(window_id, x, y),
            changed == old(self)@.titlebar_hover_changes(window_id, x, y),
    {
        proof {
            reveal(ContextView::titlebar_hover_set);
        }
        if let Some(i) = self.find_window(window_id) {
            let ghost before = self@;
            let new_hover = self.button_under(i, x, y);
            let changed: bool = self.windows[i].titlebar_hovered != new_hover;
            self.windows[i].titlebar_hovered = new_hover;
            assert(self@ =~= before.with_window(
                i as int,
                WindowView { titlebar_hovered: new_hover, ..before.windows[i as int] },
            ));
            return changed;
        }
        false
    }

    /// Hover a button of a titlebar and have it drawn if that changed
    pub fn update_titlebar_hover_from_surface(&mut self, window_id: WindowId, x: i32, y: i32)
        ensures
            final(self)@ == old(self)@.titlebar_hovered(window_id, x, y),
    {
        proof {
            reveal(ContextView::titlebar_hovered);
        }
        if self.set_titlebar_hover(window_id, x, y) {
            self.manage_dirty();
        }
    }

    fn held_titlebar(&self) -> (r: Option<usize>)
        ensures
            (match r {
                Some(i) => Some(i as int),
                None => None,
            }) == first(self@.windows, titlebar_held()),
            r matches Some(i) ==> i < self.windows@.len(),
    {
        let mut i: usize = 0;
        while i < self.windows.len()
            invariant
                i <= self.windows@.len(),
                forall|j: int| 0 <= j < i ==> !titlebar_held()(#[trigger] self@.windows[j]),
            decreases self.windows@.len() - i,
        {
            assert(self@.windows[i as int] == self.windows@[i as int]@);
            if self.windows[i].titlebar_left_down {
                proof {
                    lemma_first_is(self@.windows, titlebar_held(), i as int);
                }
                return Some(i);
            }
            i = i + 1;
        }
        proof {
            lemma_first_none(self@.windows, titlebar_held());
        }
        None
    }

    /// Hover the button of a titlebar at a point of the screen, while the left
    /// button is held down on it
    pub fn update_titlebar_hover_from_global(&mut self, pointer_x: i32, pointer_y: i32)
        ensures
            final(self)@ == old(self)@.held_titlebar_hovered(pointer_x, pointer_y),
    {
        proof {
            reveal(ContextView::held_titlebar_hovered);
        }
        if let Some(i) = self.held_titlebar() {
            assert(self@.windows[i as int] == self.windows@[i as int]@);
            let w = &self.windows[i];
            let border: i64 = border_width(&self.config.ui, w.frame_style()) as i64;
            let titlebar: i64 = titlebar_height(&self.config.ui) as i64;
            let x: i64 = pointer_x as i64 - (w.x as i64 - border);
            let y: i64 = pointer_y as i64 - (w.y as i64 - border - titlebar + w.swallow_top as i64);
            let id: WindowId = w.id;
            self.update_titlebar_hover_from_surface(id, to_i32(x), to_i32(y));
        }
    }

    fn note_window_below(&mut self, seat_id: SeatId, below: Option<WindowId>)
        ensures
            final(self)@ == old(self)@.seat_changed(
                seat_id,
                |s: SeatView| SeatView { window_below_pointer: below, ..s },
            ),
    {
        if let Some(j) = self.find_seat(seat_id) {
            let ghost before = self@;
            self.seats[j].window_below_pointer = below;
            assert(self@ =~= before.with_seat(
                j as int,
                SeatView { window_below_pointer: below, ..before.seats[j as int] },
            ));
        }
    }

    fn pointer_enters_window(&mut self, seat_id: SeatId, object: ObjectId)
        ensures
            final(self)@ == old(self)@.pointer_over(seat_id, object),
    {
        proof {
            reveal(ContextView::pointer_over);
        }
        if let Some(id) = self.window_of(object) {
            self.note_window_below(seat_id, Some(id));

            // Focus on hover if sloppy focus is enabled
            if self.config.sloppy_focus {
                self.focus(id);
            }
            self.update_cursor_for_seat(seat_id);
        }
    }

    fn pointer_leaves_windows(&mut self, seat_id: SeatId)
        ensures
            final(self)@ == old(self)@.pointer_off(seat_id),
    {
        proof {
            reveal(ContextView::pointer_off);
        }
        self.note_window_below(seat_id, None);
        self.update_cursor_for_seat(seat_id);
    }

    fn click_window<F: Fn(i64, i32, i32) -> i32>(&mut self, seat_id: SeatId, object: ObjectId, scale: &F)
        requires
            is_scaling(*scale),
        ensures
            final(self)@ == old(self)@.window_clicked(seat_id, object, scaling(*scale)),
    {
        proof {
            reveal(ContextView::window_clicked);
        }
        if let Some(id) = self.window_of(object) {
            self.close_window_menu();
            if self.icon_focus_output.is_some() {
                self.exit_icon_focus(seat_id);
            }
            self.focus(id);
            self.handle_window_interaction(seat_id, id, scale);
        }
    }

    fn op_delta(&mut self, dx: i32, dy: i32)
        ensures
            final(self)@ == old(self)@.op_moved(dx, dy),
    {
        proof {
            reveal(ContextView::op_moved);
        }
        if let Some(id) = self.focused_window {
            if let Some(i) = self.find_window(id) {
                let ghost before = self@;
                self.windows[i].apply_op_delta(dx, dy, &mut self.requests);
                assert(self@ =~= before.commit(
                    i as int,
                    before.staged(i as int).apply_op_delta(dx, dy),
                ));
            }
        }
    }

    fn end_op(&mut self)
        ensures
            final(self)@ == old(self)@.op_ended(),
    {
        proof {
            reveal(ContextView::op_ended);
        }
        if let Some(id) = self.focused_window {
            if let Some(i) = self.find_window(id) {
                let ghost before = self@;
                self.windows[i].end_operation(&mut self.requests);
                assert(self@ =~= before.commit(i as int, before.staged(i as int).end_operation()));
            }
        }
    }

    fn moved_window(&self) -> (r: Option<WindowId>)
        ensures
            r == self@.moved_window(),
    {
        if let Some(id) = self.focused_window {
            if let Some(i) = self.find_window(id) {
                if let Operator::Move { .. } = self.windows[i].operator {
                    return Some(id);
                }
            }
        }
        None
    }

    fn end_pointer_op(&mut self, seat_id: SeatId)
        ensures
            final(self)@ == old(self)@.pointer_op_ended(seat_id),
    {
        if let Some(j) = self.find_seat(seat_id) {
            self.seats[j].end_pointer_op(&mut self.requests);
        }
    }

    fn op_release(&mut self, seat_id: SeatId)
        ensures
            final(self)@ == old(self)@.op_released(seat_id),
    {
        proof {
            reveal(ContextView::op_released);
        }
        let moved: Option<WindowId> = self.moved_window();
        self.end_op();
        self.end_pointer_op(seat_id);
        if let Some(window_id) = moved {
            self.update_window_output_from_position(window_id);
        }
        self.update_cursor_for_seat(seat_id);
    }

    /// Note where the pointer of a seat is on the screen
    pub fn note_pointer_position(&mut self, seat_id: SeatId, x: i32, y: i32)
        ensures
            final(self)@ == old(self)@.seat_changed(
                seat_id,
                |s: SeatView| SeatView { pointer_x: x, pointer_y: y, ..s },
            ),
    {
        if let Some(j) = self.find_seat(seat_id) {
            let ghost before = self@;
            self.seats[j].update_pointer_position(x, y);
            assert(self@ =~= before.with_seat(
                j as int,
                SeatView { pointer_x: x, pointer_y: y, ..before.seats[j as int] },
            ));
        }
    }

    fn pointer_position(&mut self, seat_id: SeatId, x: i32, y: i32, globals: &Globals)
        ensures
            final(self)@ == old(self)@.pointer_moved(seat_id, x, y, globals@),
    {
        proof {
            reveal(ContextView::pointer_moved);
        }
        self.note_pointer_position(seat_id, x, y);
        self.update_window_output_from_pointer(seat_id, x, y);
        self.update_cursor_for_seat(seat_id);
        self.update_menu_hover_from_global(seat_id, globals);
        self.update_titlebar_hover_from_global(x, y);
    }

    fn connect_seat(&mut self, seat_id: SeatId, name: u32, globals: &Globals)
        ensures
            final(self)@ == old(self)@.seat_connected(seat_id, name, globals@),
    {
        proof {
            reveal(ContextView::seat_connected);
        }
        if let Some(j) = self.find_seat(seat_id) {
            let ghost before = self@;
            self.seats[j].wl_seat_name = name;
            assert(self@ =~= before.with_seat(
                j as int,
                SeatView { wl_seat_name: name, ..before.seats[j as int] },
            ));
        }
        self.attach_wl_seat(seat_id, globals);
    }

    /// The compositor reported something about a seat
    pub fn seat_report<F: Fn(i64, i32, i32) -> i32>(&mut self, seat_id: SeatId, report: SeatReport, scale: &F, globals: &Globals)
        requires
            is_scaling(*scale),
        ensures
            final(self)@ == old(self)@.seat_reported(seat_id, report, scaling(*scale), globals@),
    {
        proof {
            reveal(ContextView::seat_reported);
        }
        if self.find_seat(seat_id).is_none() {
            return;
        }
        match report {
            SeatReport::Removed => self.destroy_seat(seat_id),
            SeatReport::WlSeat { name } => self.connect_seat(seat_id, name, globals),
            SeatReport::PointerEnter { window } => self.pointer_enters_window(seat_id, window),
            SeatReport::PointerLeave => self.pointer_leaves_windows(seat_id),
            SeatReport::WindowInteraction { window } => self.click_window(seat_id, window, scale),
            SeatReport::OpDelta { dx, dy } => self.op_delta(dx, dy),
            SeatReport::OpRelease => self.op_release(seat_id),
            SeatReport::PointerPosition { x, y } => self.pointer_position(seat_id, x, y, globals),
        }
    }

    /// A panel or the like took the keyboard, or gave it back
    #[verifier::spinoff_prover]
    #[verifier::rlimit(30)]
    pub fn layer_focus(&mut self, seat_id: SeatId, focus: LayerFocus)
        ensures
            final(self)@ == old(self)@.layer_focus_changed(seat_id, focus),
    {
        proof {
            reveal(ContextView::layer_focus_changed);
        }
        if let Some(j) = self.find_seat(seat_id) {
            let ghost before = self@;
            let ghost s = before.seats[j as int];
            let was_exclusive: bool = self.seats[j].focus_exclusive;
            match focus {
                LayerFocus::Exclusive => {
                    self.seats[j].focus_exclusive = true;
                    self.seats[j].queue_action(Action::ClearFocus);
                },
                LayerFocus::NonExclusive => {
                    self.seats[j].focus_exclusive = false;
                },
                LayerFocus::Nothing => {
                    self.seats[j].focus_exclusive = false;
                    if was_exclusive {
                        self.seats[j].queue_action(Action::RestoreFocus);
                    }
                },
            }
            assert(self@.seats =~= before.seats.update(j as int, self.seats@[j as int]@));
        }
    }

    fn key_act<F: Fn(i64, i32, i32) -> i32>(&mut self, seat_id: SeatId, action: Action, scale: &F, globals: &Globals)
        requires
            is_scaling(*scale),
        ensures
            final(self)@ == old(self)@.key_acted(seat_id, action@, scaling(*scale), globals@),
    {
        proof {
            reveal(ContextView::key_acted);
        }
        match &action {
            Action::WindowMenuCycle => self.handle_window_menu_cycle(globals),
            Action::WindowMenuCycleApp => self.handle_window_menu_cycle_app(globals),
            Action::IconSelectNext
            | Action::IconSelectPrev
            | Action::IconSelectUp
            | Action::IconSelectDown
            | Action::IconCancel => {
                self.execute_action(action, seat_id, scale);
                self.render_all_desktop_surfaces(globals);
            },
            Action::IconActivate => {
                self.execute_action(action, seat_id, scale);
                self.render_all_desktop_surfaces(globals);
                self.manage_dirty();
            },
            _ => self.queue_action(seat_id, action),
        }
    }

    /// The key of a binding went down or up
    pub fn xkb_binding_event<F: Fn(i64, i32, i32) -> i32>(&mut self, seat_id: SeatId, index: usize, event: BindingEvent, scale: &F, globals: &Globals)
        requires
            is_scaling(*scale),
        ensures
            final(self)@ == old(self)@.key_reported(
                seat_id,
                index as int,
                event,
                scaling(*scale),
                globals@,
            ),
    {
        proof {
            reveal(ContextView::key_reported);
        }
        if let Some(j) = self.find_seat(seat_id) {
            assert(self@.seats[j as int].xkb_bindings.len()
                == self.seats@[j as int].xkb_bindings@.len());
            if index < self.seats[j].xkb_bindings.len() {
                let binding = &self.seats[j].xkb_bindings[index].0;
                assert(self@.seats[j as int].xkb_bindings[index as int].0 == binding@);
                if binding.enabled && binding.event == event {
                    let action: Action = binding.action.clone();
                    match event {
                        BindingEvent::Pressed => self.key_act(seat_id, action, scale, globals),
                        BindingEvent::Released => self.queue_action(seat_id, action),
                    }
                }
            }
        }
    }

    /// The button of a binding went down or up
    pub fn pointer_binding_event(&mut self, seat_id: SeatId, index: usize, event: BindingEvent)
        ensures
            final(self)@ == old(self)@.button_reported(seat_id, index as int, event),
    {
        proof {
            reveal(ContextView::button_reported);
        }
        if let Some(j) = self.find_seat(seat_id) {
            assert(self@.seats[j as int].pointer_bindings.len()
                == self.seats@[j as int].pointer_bindings@.len());
            if index < self.seats[j].pointer_bindings.len() {
                let binding = &self.seats[j].pointer_bindings[index].0;
                assert(self@.seats[j as int].pointer_bindings[index as int].0 == binding@);
                if binding.enabled && binding.event == event {
                    let action: Action = binding.action.clone();
                    self.queue_action(seat_id, action);
                }
            }
        }
    }
}

} // verus!
