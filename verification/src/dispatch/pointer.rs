//! Events of a pointer on the surfaces that the window manager owns.

use vstd::prelude::*;
use crate::binding::Action;
use crate::canoe::context::{Context, ContextView};
use crate::canoe::output::OutputView;
use crate::canoe::seat::{PointerTarget, SeatView};
use crate::canoe::titlebar::TitlebarButton;
use crate::canoe::window::{WindowEvent, WindowView};
use crate::canoe::{OutputId, SeatId, WindowId, WindowMenuMode};
use crate::config::{button, Mode};
use crate::dispatch::globals::{Globals, GlobalsView};
use crate::num::{sat, to_i32};
use crate::protocol::{ObjectId, Request};
use crate::search::{first, lemma_first_is, lemma_first_none};

verus! {

/// Longest time in milliseconds between the clicks of a double click.
pub const CLOSE_DOUBLE_CLICK: u64 = 400;

/// What the compositor reports about a pointer. Points are relative to the
/// surface below it; times are in milliseconds.
#[derive(Debug, Clone, Copy, PartialEq, Eq, Structural)]
pub enum PointerReport {
    Enter { serial: u32, surface: ObjectId, x: i32, y: i32 },
    Leave { serial: u32 },
    Motion { x: i32, y: i32 },
    Pressed { button: u32, now: u64 },
    Released { button: u32, now: u64 },
}

/// Holds of the windows with a titlebar on a surface.
pub open spec fn has_titlebar_on(surface: ObjectId) -> spec_fn(WindowView) -> bool {
    |w: WindowView| w.titlebar matches Some(titlebar) && titlebar.surface == surface
}

/// Holds of the outputs with a desktop on a surface.
pub open spec fn has_desktop_on(surface: ObjectId) -> spec_fn(OutputView) -> bool {
    |o: OutputView| o.desktop_surface matches Some(desktop) && desktop.surface == surface
}

/// Whether a click on a window at `now` completes a double click.
pub open spec fn completes(last: Option<(WindowId, u64)>, id: WindowId, now: u64) -> bool {
    match last {
        Some((window, when)) => window == id && now - when <= CLOSE_DOUBLE_CLICK,
        None => false,
    }
}

fn is_double_click(last: Option<(WindowId, u64)>, id: WindowId, now: u64) -> (r: bool)
    ensures
        r == completes(last, id, now),
{
    match last {
        Some((window, when)) => window == id && (now <= when || now - when <= CLOSE_DOUBLE_CLICK),
        None => false,
    }
}

impl WindowView {
    /// The left button went down on the titlebar.
    pub open spec fn titlebar_gripped(self) -> WindowView {
        WindowView {
            titlebar_left_down: true,
            titlebar_pressed: self.titlebar_hovered,
            ..self
        }
    }

    /// The left button went up again.
    pub open spec fn titlebar_let_go(self) -> WindowView {
        WindowView { titlebar_left_down: false, titlebar_pressed: None, ..self }
    }

    /// The pointer left the titlebar.
    pub open spec fn titlebar_left(self) -> WindowView {
        WindowView {
            titlebar_hovered: None,
            titlebar_pressed: None,
            titlebar_left_down: false,
            ..self
        }
    }

    /// The button that a click was completed on: where the left button went
    /// down and where it goes up.
    pub open spec fn titlebar_clicked(self) -> Option<TitlebarButton> {
        if self.titlebar_pressed == self.titlebar_hovered {
            self.titlebar_pressed
        } else {
            None
        }
    }
}

impl SeatView {
    /// The pointer came over a surface.
    pub open spec fn entered(self, serial: u32, target: PointerTarget, x: i32, y: i32) -> SeatView {
        SeatView {
            pointer_enter_serial: serial,
            pointer_target: target,
            last_surface_x: x,
            last_surface_y: y,
            ..self
        }
    }

    /// The pointer left a surface.
    pub open spec fn left(self, serial: u32) -> SeatView {
        SeatView {
            pointer_enter_serial: serial,
            pointer_target: PointerTarget::Nothing,
            cursor_shape: None,
            ..self
        }
    }
}

impl ContextView {
    /// What a surface belongs to.
    pub open spec fn target_of(self, surface: ObjectId) -> PointerTarget {
        if self.window_menu matches Some(menu) && menu.surface == surface {
            PointerTarget::Menu
        } else if self.window_menu_shield matches Some(shield) && shield.surface == surface {
            PointerTarget::MenuShield(self.window_menu_shield.unwrap().output_id)
        } else {
            match first(self.windows, has_titlebar_on(surface)) {
                Some(i) => PointerTarget::Titlebar(self.windows[i].id),
                None => match first(self.outputs, has_desktop_on(surface)) {
                    Some(k) => PointerTarget::Desktop(self.outputs[k].id),
                    None => PointerTarget::Nothing,
                },
            }
        }
    }

    /// The pointer of a seat is at a point of an output.
    #[verifier::opaque]
    pub open spec fn pointer_on_output(self, seat: SeatId, output: OutputId, x: i32, y: i32) -> ContextView {
        match self.output(output) {
            Some(o) => self.seat_changed(
                seat,
                |s: SeatView| SeatView { pointer_x: sat(o.x + x), pointer_y: sat(o.y + y), ..s },
            ),
            None => self,
        }
    }

    /// Shows the pointer as fits what it is over. Over the shield of a menu it
    /// is hidden.
    #[verifier::opaque]
    pub open spec fn cursor_for(self, seat: SeatId, target: PointerTarget, serial: u32) -> ContextView {
        match target {
            PointerTarget::MenuShield(_) => match self.seat(seat) {
                Some(s) => match s.wl_pointer {
                    Some(pointer) => self.ask(Request::HideCursor { pointer, serial }),
                    None => self,
                },
                None => self,
            },
            _ => self.cursor_updated(seat),
        }
    }

    /// What changes on the surface that the pointer is now over.
    #[verifier::opaque]
    pub open spec fn target_pointed(
        self,
        seat: SeatId,
        target: PointerTarget,
        x: i32,
        y: i32,
        g: GlobalsView,
    ) -> ContextView {
        match target {
            PointerTarget::Desktop(output) | PointerTarget::MenuShield(
                output,
            ) => self.pointer_on_output(seat, output, x, y),
            _ => self,
        }
    }

    /// The pointer of a seat came over a surface.
    #[verifier::opaque]
    pub open spec fn pointer_entered(
        self,
        seat: SeatId,
        serial: u32,
        surface: ObjectId,
        x: i32,
        y: i32,
        g: GlobalsView,
    ) -> ContextView {
        let target = self.target_of(surface);
        let c = if target == PointerTarget::Menu {
            self.menu_hovered(x, y, g)
        } else {
            self
        };
        let c = c.seat_changed(seat, |s: SeatView| s.entered(serial, target, x, y)).target_pointed(
            seat,
            target,
            x,
            y,
            g,
        ).cursor_for(seat, target, serial);
        match target {
            PointerTarget::Titlebar(id) => c.titlebar_hovered(id, x, y),
            _ => c,
        }
    }

    /// The pointer left the titlebar of a window.
    #[verifier::opaque]
    pub open spec fn titlebar_cleared(self, id: WindowId) -> ContextView {
        match self.window_index(id) {
            Some(i) => {
                let w = self.windows[i];
                let c = self.with_window(i, w.titlebar_left());
                if w.titlebar_hovered is Some || w.titlebar_pressed is Some
                    || w.titlebar_left_down {
                    c.manage_dirty()
                } else {
                    c
                }
            },
            None => self,
        }
    }

    /// The pointer of a seat left a surface.
    #[verifier::opaque]
    pub open spec fn pointer_left(self, seat: SeatId, serial: u32) -> ContextView {
        let c = match self.seat(seat) {
            Some(s) => match s.pointer_target {
                PointerTarget::Titlebar(id) => self.titlebar_cleared(id),
                _ => self,
            },
            None => self,
        };
        c.seat_changed(seat, |s: SeatView| s.left(serial))
    }

    /// The pointer of a seat moved on a surface.
    #[verifier::opaque]
    pub open spec fn pointer_travelled(self, seat: SeatId, x: i32, y: i32, g: GlobalsView) -> ContextView {
        match self.seat(seat) {
            Some(s) => {
                let c = self.seat_changed(
                    seat,
                    |s: SeatView| SeatView { last_surface_x: x, last_surface_y: y, ..s },
                );
                match s.pointer_target {
                    PointerTarget::Menu => c.menu_hovered(x, y, g),
                    PointerTarget::Desktop(output) => c.pointer_on_output(
                        seat,
                        output,
                        x,
                        y,
                    ).menu_hovered_on(output, x, y, g).cursor_updated(seat),
                    PointerTarget::MenuShield(output) => c.pointer_on_output(
                        seat,
                        output,
                        x,
                        y,
                    ).menu_hovered_on(output, x, y, g),
                    PointerTarget::Titlebar(id) => c.titlebar_hovered(id, x, y),
                    PointerTarget::Nothing => c,
                }
            },
            None => self,
        }
    }

    /// The focus is to be cleared.
    #[verifier::opaque]
    pub open spec fn unfocus_queued(self, seat: SeatId) -> ContextView {
        self.action_queued(seat, Action::ClearFocus@).manage_dirty()
    }

    /// A button went down beside the menu, which closes it.
    #[verifier::opaque]
    pub open spec fn menu_dismissed(self, seat: SeatId, target: PointerTarget) -> ContextView {
        let c = self.menu_closed().seat_changed(
            seat,
            |s: SeatView| SeatView { menu_click_button: None, ..s },
        );
        match target {
            PointerTarget::Desktop(_) => c.unfocus_queued(seat),
            _ => c,
        }
    }

    /// The window whose icon is at a point of the desktop of an output.
    pub open spec fn icon_hit(self, output: OutputId, x: i32, y: i32) -> Option<WindowId> {
        match self.output(output) {
            Some(o) => match o.desktop_surface {
                Some(desktop) => desktop.icon_at(x, y),
                None => None,
            },
            None => None,
        }
    }

    /// An icon was clicked. One click selects it, two activate its window.
    #[verifier::opaque]
    pub open spec fn icon_clicked(
        self,
        seat: SeatId,
        output: OutputId,
        id: WindowId,
        double: bool,
        now: u64,
        g: GlobalsView,
    ) -> ContextView {
        if double {
            self.seat_changed(
                seat,
                |s: SeatView| SeatView { last_icon_click: None, ..s },
            ).action_queued(seat, Action::IconActivate@).manage_dirty()
        } else {
            self.seat_changed(
                seat,
                |s: SeatView| SeatView { last_icon_click: Some((id, now)), ..s },
            ).icon_focus_entered(output, id, seat).desktop_shown(output, g).manage_dirty()
        }
    }

    /// No icon is selected any more on the desktop that had the keyboard.
    #[verifier::opaque]
    pub open spec fn icons_forgotten(self) -> ContextView {
        match self.icon_focus_output {
            Some(output) => (ContextView { icon_focus_output: None, ..self }).icon_chosen(
                output,
                None,
            ),
            None => self,
        }
    }

    /// Empty space of a desktop was clicked.
    #[verifier::opaque]
    pub open spec fn space_clicked(self, seat: SeatId, output: OutputId, g: GlobalsView) -> ContextView {
        self.seat_changed(
            seat,
            |s: SeatView| SeatView { last_icon_click: None, ..s },
        ).icons_forgotten().desktop_shown(output, g).action_queued(
            seat,
            Action::ClearFocus@,
        ).action_queued(seat, (Action::SwitchMode { mode: Mode::Default })@).manage_dirty()
    }

    /// The left button went down on a desktop.
    #[verifier::opaque]
    pub open spec fn desktop_clicked(
        self,
        seat: SeatId,
        output: OutputId,
        now: u64,
        g: GlobalsView,
    ) -> ContextView {
        match self.seat(seat) {
            Some(s) => match self.icon_hit(output, s.last_surface_x, s.last_surface_y) {
                Some(id) => self.icon_clicked(
                    seat,
                    output,
                    id,
                    completes(s.last_icon_click, id, now),
                    now,
                    g,
                ),
                None => self.space_clicked(seat, output, g),
            },
            None => self,
        }
    }

    /// The right button went down on a desktop: the menu of all windows opens
    /// there.
    #[verifier::opaque]
    pub open spec fn desktop_menu(
        self,
        seat: SeatId,
        output: OutputId,
        pressed: u32,
        g: GlobalsView,
    ) -> ContextView {
        match self.seat(seat) {
            Some(s) => self.menu_asked(
                self.windows_plan(
                    output,
                    s.last_surface_x,
                    s.last_surface_y,
                    WindowMenuMode::Pointer,
                    Some(seat),
                ),
                g,
            ).seat_changed(
                seat,
                |s: SeatView| SeatView { menu_click_button: Some(pressed), ..s },
            ).unfocus_queued(seat),
            None => self,
        }
    }

    /// A button went down on a desktop.
    #[verifier::opaque]
    pub open spec fn desktop_pressed(
        self,
        seat: SeatId,
        output: OutputId,
        pressed: u32,
        now: u64,
        g: GlobalsView,
    ) -> ContextView {
        if pressed == button::LEFT {
            self.desktop_clicked(seat, output, now, g)
        } else if pressed == button::RIGHT {
            self.desktop_menu(seat, output, pressed, g)
        } else {
            self.unfocus_queued(seat)
        }
    }

    /// The left button went down on a titlebar.
    #[verifier::opaque]
    pub open spec fn titlebar_pressed_at(self, id: WindowId, x: i32, y: i32) -> ContextView {
        let c = self.titlebar_hover_set(id, x, y);
        match c.window_index(id) {
            Some(i) => c.with_window(i, c.windows[i].titlebar_gripped()).manage_dirty(),
            None => c,
        }
    }

    /// A button of the pointer of a seat went down.
    #[verifier::opaque]
    pub open spec fn pointer_pressed(
        self,
        seat: SeatId,
        pressed: u32,
        now: u64,
        g: GlobalsView,
    ) -> ContextView {
        match self.seat(seat) {
            Some(s) => if self.window_menu is Some && s.pointer_target != PointerTarget::Menu {
                match s.pointer_target {
                    PointerTarget::MenuShield(_) => self,
                    target => self.menu_dismissed(seat, target),
                }
            } else {
                match s.pointer_target {
                    PointerTarget::Desktop(output) => self.desktop_pressed(
                        seat,
                        output,
                        pressed,
                        now,
                        g,
                    ),
                    PointerTarget::Menu => self.seat_changed(
                        seat,
                        |s: SeatView| SeatView { menu_click_button: Some(pressed), ..s },
                    ),
                    PointerTarget::Titlebar(id) => if pressed == button::LEFT {
                        self.titlebar_pressed_at(id, s.last_surface_x, s.last_surface_y)
                    } else {
                        self
                    },
                    _ => self,
                }
            },
            None => self,
        }
    }

    /// An event of a window is to be handled.
    #[verifier::opaque]
    pub open spec fn window_asked(self, id: WindowId, event: WindowEvent) -> ContextView {
        match self.window_index(id) {
            Some(_) => self.event_queued(id, event).manage_dirty(),
            None => self,
        }
    }

    /// With the last click on a close button.
    pub open spec fn close_click_noted(self, seat: SeatId, last: Option<(WindowId, u64)>) -> ContextView {
        self.seat_changed(seat, |s: SeatView| SeatView { last_close_click: last, ..s })
    }

    /// A button of a titlebar was clicked. Closing takes two clicks.
    #[verifier::opaque]
    pub open spec fn titlebar_acted(
        self,
        seat: SeatId,
        id: WindowId,
        clicked: Option<TitlebarButton>,
        now: u64,
    ) -> ContextView {
        match clicked {
            Some(TitlebarButton::Close) => {
                let c = self.close_click_noted(seat, Some((id, now)));
                match self.seat(seat) {
                    Some(s) => if completes(s.last_close_click, id, now) {
                        c.window_asked(id, WindowEvent::Close)
                    } else {
                        c
                    },
                    None => c,
                }
            },
            Some(TitlebarButton::Hide) => self.close_click_noted(seat, None).window_asked(
                id,
                WindowEvent::Minimize,
            ),
            Some(TitlebarButton::Maximize) => {
                let c = self.close_click_noted(seat, None);
                if c.window(id) matches Some(w) && w.maximized {
                    c.window_asked(id, WindowEvent::Unmaximize)
                } else {
                    c.window_asked(id, WindowEvent::Maximize)
                }
            },
            None => self.close_click_noted(seat, None),
        }
    }

    /// The left button went up on a titlebar.
    #[verifier::opaque]
    pub open spec fn titlebar_released_at(
        self,
        seat: SeatId,
        id: WindowId,
        x: i32,
        y: i32,
        now: u64,
    ) -> ContextView {
        let c = self.titlebar_hover_set(id, x, y);
        match c.window_index(id) {
            Some(i) => c.with_window(
                i,
                c.windows[i].titlebar_let_go(),
            ).manage_dirty().titlebar_acted(seat, id, c.windows[i].titlebar_clicked(), now),
            None => c,
        }
    }

    /// Whether the item of a menu opened by the pointer is hovered.
    pub open spec fn menu_item_hovered(self) -> bool {
        &&& self.window_menu_mode == Some(WindowMenuMode::Pointer)
        &&& self.window_menu matches Some(menu)
        &&& menu.hovered is Some
    }

    /// The button that a menu is used with went up.
    #[verifier::opaque]
    pub open spec fn menu_released(self, seat: SeatId, released: u32) -> ContextView {
        match self.seat(seat) {
            Some(s) => {
                let c = self.seat_changed(
                    seat,
                    |s: SeatView| SeatView { menu_click_button: None, ..s },
                );
                if s.menu_click_button == Some(released) && self.menu_item_hovered() {
                    c.manage_dirty().action_queued(seat, Action::ActivateMenuHovered@)
                } else {
                    c
                }
            },
            None => self,
        }
    }

    /// A button of the pointer of a seat went up.
    #[verifier::opaque]
    pub open spec fn pointer_released(self, seat: SeatId, released: u32, now: u64) -> ContextView {
        match self.seat(seat) {
            Some(s) => match s.pointer_target {
                PointerTarget::MenuShield(_) => self,
                PointerTarget::Titlebar(id) => if released == button::LEFT {
                    self.titlebar_released_at(seat, id, s.last_surface_x, s.last_surface_y, now)
                } else {
                    self
                },
                _ => self.menu_released(seat, released),
            },
            None => self,
        }
    }

    /// What a report about the pointer of a seat does.
    #[verifier::opaque]
    pub open spec fn pointer_reported(
        self,
        seat: SeatId,
        report: PointerReport,
        g: GlobalsView,
    ) -> ContextView {
        if self.seat_index(seat) is None {
            self
        } else {
            match report {
                PointerReport::Enter { serial, surface, x, y } => self.pointer_entered(
                    seat,
                    serial,
                    surface,
                    x,
                    y,
                    g,
                ),
                PointerReport::Leave { serial } => self.pointer_left(seat, serial),
                PointerReport::Motion { x, y } => self.pointer_travelled(seat, x, y, g),
                PointerReport::Pressed { button, now } => self.pointer_pressed(
                    seat,
                    button,
                    now,
                    g,
                ),
                PointerReport::Released { button, now } => self.pointer_released(
                    seat,
                    button,
                    now,
                ),
            }
        }
    }
}

impl Context {
    fn titlebar_on(&self, surface: ObjectId) -> (r: Option<WindowId>)
        ensures
            r == (match first(self@.windows, has_titlebar_on(surface)) {
                Some(i) => Some(self@.windows[i].id),
                None => None,
            }),
    {
        let mut i: usize = 0;
        while i < self.windows.len()
            invariant
                i <= self.windows@.len(),
                forall|j: int|
                    0 <= j < i ==> !has_titlebar_on(surface)(#[trigger] self@.windows[j]),
            decreases self.windows@.len() - i,
        {
            assert(self@.windows[i as int] == self.windows@[i as int]@);
            if let Some(titlebar) = &self.windows[i].titlebar {
                if titlebar.surface == surface {
                    proof {
                        lemma_first_is(self@.windows, has_titlebar_on(surface), i as int);
                    }
                    return Some(self.windows[i].id);
                }
            }
            i = i + 1;
        }
        proof {
            lemma_first_none(self@.windows, has_titlebar_on(surface));
        }
        None
    }

    fn desktop_on(&self, surface: ObjectId) -> (r: Option<OutputId>)
        ensures
            r == (match first(self@.outputs, has_desktop_on(surface)) {
                Some(k) => Some(self@.outputs[k].id),
                None => None,
            }),
    {
        let mut k: usize = 0;
        while k < self.outputs.len()
            invariant
                k <= self.outputs@.len(),
                forall|j: int|
                    0 <= j < k ==> !has_desktop_on(surface)(#[trigger] self@.outputs[j]),
            decreases self.outputs@.len() - k,
        {
            assert(self@.outputs[k as int] == self.outputs@[k as int]@);
            if let Some(desktop) = &self.outputs[k].desktop_surface {
                if desktop.surface == surface {
                    proof {
                        lemma_first_is(self@.outputs, has_desktop_on(surface), k as int);
                    }
                    return Some(self.outputs[k].id);
                }
            }
            k = k + 1;
        }
        proof {
            lemma_first_none(self@.outputs, has_desktop_on(surface));
        }
        None
    }

    /// What a surface belongs to
    pub fn target_of(&self, surface: ObjectId) -> (r: PointerTarget)
        ensures
            r == self@.target_of(surface),
    {
        if let Some(menu) = &self.window_menu {
            if menu.surface == surface {
                return PointerTarget::Menu;
            }
        }
        if let Some(shield) = &self.window_menu_shield {
            if shield.surface == surface {
                return PointerTarget::MenuShield(shield.output_id);
            }
        }
        if let Some(window_id) = self.titlebar_on(surface) {
            return PointerTarget::Titlebar(window_id);
        }
        match self.desktop_on(surface) {
            Some(output_id) => PointerTarget::Desktop(output_id),
            None => PointerTarget::Nothing,
        }
    }

    /// The pointer of a seat is at a point of an output
    pub fn update_pointer_position_from_output(&mut self, seat_id: SeatId, output_id: OutputId, x: i32, y: i32)
        ensures
            final(self)@ == old(self)@.pointer_on_output(seat_id, output_id, x, y),
    {
        proof {
            reveal(ContextView::pointer_on_output);
        }
        if let Some(k) = self.find_output(output_id) {
            let px: i32 = to_i32(self.outputs[k].x as i64 + x as i64);
            let py: i32 = to_i32(self.outputs[k].y as i64 + y as i64);
            self.note_pointer_position(seat_id, px, py);
        }
    }

    fn set_cursor_for(&mut self, seat_id: SeatId, target: PointerTarget, serial: u32)
        ensures
            final(self)@ == old(self)@.cursor_for(seat_id, target, serial),
    {
        proof {
            reveal(ContextView::cursor_for);
        }
        if let PointerTarget::MenuShield(_) = target {
            if let Some(j) = self.find_seat(seat_id) {
                if let Some(pointer) = self.seats[j].wl_pointer {
                    self.requests.push(Request::HideCursor { pointer, serial });
                }
            }
        } else {
            self.update_cursor_for_seat(seat_id);
        }
    }

    fn note_enter(&mut self, seat_id: SeatId, serial: u32, target: PointerTarget, x: i32, y: i32)
        ensures
            final(self)@ == old(self)@.seat_changed(
                seat_id,
                |s: SeatView| s.entered(serial, target, x, y),
            ),
    {
        if let Some(j) = self.find_seat(seat_id) {
            let ghost before = self@;
            self.seats[j].pointer_enter_serial = serial;
            self.seats[j].pointer_target = target;
            self.seats[j].last_surface_x = x;
            self.seats[j].last_surface_y = y;
            assert(self@ =~= before.with_seat(
                j as int,
                before.seats[j as int].entered(serial, target, x, y),
            ));
        }
    }

    fn point_at_target(&mut self, seat_id: SeatId, target: PointerTarget, x: i32, y: i32, globals: &Globals)
        ensures
            final(self)@ == old(self)@.target_pointed(seat_id, target, x, y, globals@),
    {
        proof {
            reveal(ContextView::target_pointed);
        }
        match target {
            PointerTarget::Desktop(output_id) | PointerTarget::MenuShield(output_id) => {
                self.update_pointer_position_from_output(seat_id, output_id, x, y);
            },
            _ => {},
        }
    }

    fn pointer_enter(&mut self, seat_id: SeatId, serial: u32, surface: ObjectId, x: i32, y: i32, globals: &Globals)
        ensures
            final(self)@ == old(self)@.pointer_entered(seat_id, serial, surface, x, y, globals@),
    {
        proof {
            reveal(ContextView::pointer_entered);
        }
        let target = self.target_of(surface);
        if target == PointerTarget::Menu {
            self.hover_menu(x, y, globals);
        }
        self.note_enter(seat_id, serial, target, x, y);
        self.point_at_target(seat_id, target, x, y, globals);
        self.set_cursor_for(seat_id, target, serial);
        if let PointerTarget::Titlebar(window_id) = target {
            self.update_titlebar_hover_from_surface(window_id, x, y);
        }
    }

    /// Forget what the pointer did on the titlebar of a window
    pub fn clear_titlebar_state(&mut self, window_id: WindowId)
        ensures
            final(self)@ == old(self)@.titlebar_cleared(window_id),
    {
        proof {
            reveal(ContextView::titlebar_cleared);
        }
        if let Some(i) = self.find_window(window_id) {
            let ghost before = self@;
            let changed: bool = self.windows[i].titlebar_hovered.is_some()
                || self.windows[i].titlebar_pressed.is_some() || self.windows[i].titlebar_left_down;
            self.windows[i].titlebar_hovered = None;
            self.windows[i].titlebar_pressed = None;
            self.windows[i].titlebar_left_down = false;
            assert(self@ =~= before.with_window(
                i as int,
                before.windows[i as int].titlebar_left(),
            ));
            if changed {
                self.manage_dirty();
            }
        }
    }

    fn pointer_target(&self, seat_id: SeatId) -> (r: PointerTarget)
        ensures
            r == (match self@.seat(seat_id) {
                Some(s) => s.pointer_target,
                None => PointerTarget::Nothing,
            }),
    {
        match self.find_seat(seat_id) {
            Some(j) => self.seats[j].pointer_target,
            None => PointerTarget::Nothing,
        }
    }

    fn note_leave(&mut self, seat_id: SeatId, serial: u32)
        ensures
            final(self)@ == old(self)@.seat_changed(seat_id, |s: SeatView| s.left(serial)),
    {
        if let Some(j) = self.find_seat(seat_id) {
            let ghost before = self@;
            self.seats[j].pointer_enter_serial = serial;
            self.seats[j].pointer_target = PointerTarget::Nothing;
            self.seats[j].cursor_shape = None;
            assert(self@ =~= before.with_seat(j as int, before.seats[j as int].left(serial)));
        }
    }

    fn pointer_leave(&mut self, seat_id: SeatId, serial: u32)
        ensures
            final(self)@ == old(self)@.pointer_left(seat_id, serial),
    {
        proof {
            reveal(ContextView::pointer_left);
        }
        if let PointerTarget::Titlebar(window_id) = self.pointer_target(seat_id) {
            self.clear_titlebar_state(window_id);
        }
        self.note_leave(seat_id, serial);
    }

    fn note_motion(&mut self, seat_id: SeatId, x: i32, y: i32)
        ensures
            final(self)@ == old(self)@.seat_changed(
                seat_id,
                |s: SeatView| SeatView { last_surface_x: x, last_surface_y: y, ..s },
            ),
    {
        if let Some(j) = self.find_seat(seat_id) {
            let ghost before = self@;
            self.seats[j].last_surface_x = x;
            self.seats[j].last_surface_y = y;
            assert(self@ =~= before.with_seat(
                j as int,
                SeatView { last_surface_x: x, last_surface_y: y, ..before.seats[j as int] },
            ));
        }
    }

    fn pointer_motion(&mut self, seat_id: SeatId, x: i32, y: i32, globals: &Globals)
        ensures
            final(self)@ == old(self)@.pointer_travelled(seat_id, x, y, globals@),
    {
        proof {
            reveal(ContextView::pointer_travelled);
        }
        let target = self.pointer_target(seat_id);
        self.note_motion(seat_id, x, y);
        match target {
            PointerTarget::Menu => self.hover_menu(x, y, globals),
            PointerTarget::Desktop(output_id) => {
                self.update_pointer_position_from_output(seat_id, output_id, x, y);
                self.update_menu_hover_from_surface(output_id, x, y, globals);
                self.update_cursor_for_seat(seat_id);
            },
            PointerTarget::MenuShield(output_id) => {
                self.update_pointer_position_from_output(seat_id, output_id, x, y);
                self.update_menu_hover_from_surface(output_id, x, y, globals);
            },
            PointerTarget::Titlebar(window_id) => {
                self.update_titlebar_hover_from_surface(window_id, x, y);
            },
            PointerTarget::Nothing => {},
        }
    }

    fn queue_unfocus(&mut self, seat_id: SeatId)
        ensures
            final(self)@ == old(self)@.unfocus_queued(seat_id),
    {
        proof {
            reveal(ContextView::unfocus_queued);
        }
        self.queue_action(seat_id, Action::ClearFocus);
        self.manage_dirty();
    }

    fn note_menu_click(&mut self, seat_id: SeatId, pressed: Option<u32>)
        ensures
            final(self)@ == old(self)@.seat_changed(
                seat_id,
                |s: SeatView| SeatView { menu_click_button: pressed, ..s },
            ),
    {
        if let Some(j) = self.find_seat(seat_id) {
            let ghost before = self@;
            self.seats[j].menu_click_button = pressed;
            assert(self@ =~= before.with_seat(
                j as int,
                SeatView { menu_click_button: pressed, ..before.seats[j as int] },
            ));
        }
    }

    fn note_icon_click(&mut self, seat_id: SeatId, last: Option<(WindowId, u64)>)
        ensures
            final(self)@ == old(self)@.seat_changed(
                seat_id,
                |s: SeatView| SeatView { last_icon_click: last, ..s },
            ),
    {
        if let Some(j) = self.find_seat(seat_id) {
            let ghost before = self@;
            self.seats[j].last_icon_click = last;
            assert(self@ =~= before.with_seat(
                j as int,
                SeatView { last_icon_click: last, ..before.seats[j as int] },
            ));
        }
    }

    fn note_close_click(&mut self, seat_id: SeatId, last: Option<(WindowId, u64)>)
        ensures
            final(self)@ == old(self)@.close_click_noted(seat_id, last),
    {
        if let Some(j) = self.find_seat(seat_id) {
            let ghost before = self@;
            self.seats[j].last_close_click = last;
            assert(self@ =~= before.with_seat(
                j as int,
                SeatView { last_close_click: last, ..before.seats[j as int] },
            ));
        }
    }

    fn dismiss_menu(&mut self, seat_id: SeatId, target: PointerTarget)
        ensures
            final(self)@ == old(self)@.menu_dismissed(seat_id, target),
    {
        proof {
            reveal(ContextView::menu_dismissed);
        }
        self.close_window_menu();
        self.note_menu_click(seat_id, None);
        if let PointerTarget::Desktop(_) = target {
            self.queue_unfocus(seat_id);
        }
    }

    fn icon_hit(&self, output_id: OutputId, x: i32, y: i32) -> (r: Option<WindowId>)
        ensures
            r == self@.icon_hit(output_id, x, y),
    {
        if let Some(k) = self.find_output(output_id) {
            if let Some(desktop) = &self.outputs[k].desktop_surface {
                return desktop.icon_at(x, y, self.outputs[k].scale);
            }
        }
        None
    }

    fn click_icon(&mut self, seat_id: SeatId, output_id: OutputId, window_id: WindowId, double: bool, now: u64, globals: &Globals)
        ensures
            final(self)@ == old(self)@.icon_clicked(
                seat_id,
                output_id,
                window_id,
                double,
                now,
                globals@,
            ),
    {
        proof {
            reveal(ContextView::icon_clicked);
        }
        if double {
            self.note_icon_click(seat_id, None);
            self.queue_action(seat_id, Action::IconActivate);
            self.manage_dirty();
        } else {
            self.note_icon_click(seat_id, Some((window_id, now)));
            self.enter_icon_focus(output_id, window_id, seat_id);
            self.render_desktop_surface(output_id, globals);
            self.manage_dirty();
        }
    }

    fn forget_icons(&mut self)
        ensures
            final(self)@ == old(self)@.icons_forgotten(),
    {
        proof {
            reveal(ContextView::icons_forgotten);
        }
        if let Some(output_id) = self.icon_focus_output {
            self.icon_focus_output = None;
            assert(self@ =~= ContextView { icon_focus_output: None, ..old(self)@ });
            self.choose_icon(output_id, None);
        }
    }

    fn click_space(&mut self, seat_id: SeatId, output_id: OutputId, globals: &Globals)
        ensures
            final(self)@ == old(self)@.space_clicked(seat_id, output_id, globals@),
    {
        proof {
            reveal(ContextView::space_clicked);
        }
        self.note_icon_click(seat_id, None);
        self.forget_icons();
        self.render_desktop_surface(output_id, globals);
        self.queue_action(seat_id, Action::ClearFocus);
        self.queue_action(seat_id, Action::SwitchMode { mode: Mode::Default });
        self.manage_dirty();
    }

    fn click_desktop(&mut self, seat_id: SeatId, output_id: OutputId, now: u64, globals: &Globals)
        ensures
            final(self)@ == old(self)@.desktop_clicked(seat_id, output_id, now, globals@),
    {
        proof {
            reveal(ContextView::desktop_clicked);
        }
        if let Some(j) = self.find_seat(seat_id) {
            let px: i32 = self.seats[j].last_surface_x;
            let py: i32 = self.seats[j].last_surface_y;
            match self.icon_hit(output_id, px, py) {
                Some(window_id) => {
                    let double: bool = is_double_click(
                        self.seats[j].last_icon_click,
                        window_id,
                        now,
                    );
                    self.click_icon(seat_id, output_id, window_id, double, now, globals);
                },
                None => self.click_space(seat_id, output_id, globals),
            }
        }
    }

    fn open_desktop_menu(&mut self, seat_id: SeatId, output_id: OutputId, pressed: u32, globals: &Globals)
        ensures
            final(self)@ == old(self)@.desktop_menu(seat_id, output_id, pressed, globals@),
    {
        proof {
            reveal(ContextView::desktop_menu);
        }
        if let Some(j) = self.find_seat(seat_id) {
            let px: i32 = self.seats[j].last_surface_x;
            let py: i32 = self.seats[j].last_surface_y;
            self.ask_windows_menu(
                output_id,
                px,
                py,
                WindowMenuMode::Pointer,
                Some(seat_id),
                globals,
            );
            self.note_menu_click(seat_id, Some(pressed));
            self.queue_unfocus(seat_id);
        }
    }

    fn press_desktop(&mut self, seat_id: SeatId, output_id: OutputId, pressed: u32, now: u64, globals: &Globals)
        ensures
            final(self)@ == old(self)@.desktop_pressed(
                seat_id,
                output_id,
                pressed,
                now,
                globals@,
            ),
    {
        proof {
            reveal(ContextView::desktop_pressed);
        }
        if pressed == button::LEFT {
            self.click_desktop(seat_id, output_id, now, globals);
        } else if pressed == button::RIGHT {
            self.open_desktop_menu(seat_id, output_id, pressed, globals);
        } else {
            self.queue_unfocus(seat_id);
        }
    }

    fn press_titlebar(&mut self, window_id: WindowId, x: i32, y: i32)
        ensures
            final(self)@ == old(self)@.titlebar_pressed_at(window_id, x, y),
    {
        proof {
            reveal(ContextView::titlebar_pressed_at);
        }
        self.set_titlebar_hover(window_id, x, y);
        if let Some(i) = self.find_window(window_id) {
            let ghost before = self@;
            self.windows[i].titlebar_left_down = true;
            self.windows[i].titlebar_pressed = self.windows[i].titlebar_hovered;
            assert(self@ =~= before.with_window(
                i as int,
                before.windows[i as int].titlebar_gripped(),
            ));
            self.manage_dirty();
        }
    }

    fn pointer_press(&mut self, seat_id: SeatId, pressed: u32, now: u64, globals: &Globals)
        ensures
            final(self)@ == old(self)@.pointer_pressed(seat_id, pressed, now, globals@),
    {
        proof {
            reveal(ContextView::pointer_pressed);
        }
        if let Some(j) = self.find_seat(seat_id) {
            let target = self.seats[j].pointer_target;
            if let PointerTarget::MenuShield(_) = target {
                return;
            }
            if self.window_menu.is_some() && target != PointerTarget::Menu {
                self.dismiss_menu(seat_id, target);
                return;
            }
            match target {
                PointerTarget::Desktop(output_id) => {
                    self.press_desktop(seat_id, output_id, pressed, now, globals);
                },
                PointerTarget::Menu => self.note_menu_click(seat_id, Some(pressed)),
                PointerTarget::Titlebar(window_id) => {
                    if pressed == button::LEFT {
                        let px: i32 = self.seats[j].last_surface_x;
                        let py: i32 = self.seats[j].last_surface_y;
                        self.press_titlebar(window_id, px, py);
                    }
                },
                _ => {},
            }
        }
    }

    fn ask_window(&mut self, window_id: WindowId, event: WindowEvent)
        ensures
            final(self)@ == old(self)@.window_asked(window_id, event),
    {
        proof {
            reveal(ContextView::window_asked);
        }
        if self.find_window(window_id).is_some() {
            self.queue_window_event(window_id, event);
            self.manage_dirty();
        }
    }

    fn act_on_titlebar(&mut self, seat_id: SeatId, window_id: WindowId, clicked: Option<TitlebarButton>, now: u64)
        ensures
            final(self)@ == old(self)@.titlebar_acted(seat_id, window_id, clicked, now),
    {
        proof {
            reveal(ContextView::titlebar_acted);
        }
        match clicked {
            Some(TitlebarButton::Close) => {
                let double: bool = match self.find_seat(seat_id) {
                    Some(j) => is_double_click(self.seats[j].last_close_click, window_id, now),
                    None => false,
                };
                self.note_close_click(seat_id, Some((window_id, now)));
                if double {
                    self.ask_window(window_id, WindowEvent::Close);
                }
            },
            Some(TitlebarButton::Hide) => {
                self.note_close_click(seat_id, None);
                self.ask_window(window_id, WindowEvent::Minimize);
            },
            Some(TitlebarButton::Maximize) => {
                self.note_close_click(seat_id, None);
                let maximized: bool = match self.find_window(window_id) {
                    Some(i) => self.windows[i].maximized,
                    None => false,
                };
                if maximized {
                    self.ask_window(window_id, WindowEvent::Unmaximize);
                } else {
                    self.ask_window(window_id, WindowEvent::Maximize);
                }
            },
            None => self.note_close_click(seat_id, None),
        }
    }

    fn release_titlebar(&mut self, seat_id: SeatId, window_id: WindowId, x: i32, y: i32, now: u64)
        ensures
            final(self)@ == old(self)@.titlebar_released_at(seat_id, window_id, x, y, now),
    {
        proof {
            reveal(ContextView::titlebar_released_at);
        }
        self.set_titlebar_hover(window_id, x, y);
        if let Some(i) = self.find_window(window_id) {
            let ghost before = self@;
            let hovered = self.windows[i].titlebar_hovered;
            let pressed = self.windows[i].titlebar_pressed;
            self.windows[i].titlebar_left_down = false;
            self.windows[i].titlebar_pressed = None;
            assert(self@ =~= before.with_window(
                i as int,
                before.windows[i as int].titlebar_let_go(),
            ));
            let clicked = if pressed == hovered {
                pressed
            } else {
                None
            };
            self.manage_dirty();
            self.act_on_titlebar(seat_id, window_id, clicked, now);
        }
    }

    fn release_menu(&mut self, seat_id: SeatId, released: u32)
        ensures
            final(self)@ == old(self)@.menu_released(seat_id, released),
    {
        proof {
            reveal(ContextView::menu_released);
        }
        if let Some(j) = self.find_seat(seat_id) {
            let hovered: bool = match &self.window_menu {
                Some(menu) => menu.hovered.is_some(),
                None => false,
            };
            let activate: bool = self.seats[j].menu_click_button == Some(released)
                && self.window_menu_mode == Some(WindowMenuMode::Pointer) && hovered;
            self.note_menu_click(seat_id, None);
            if activate {
                self.manage_dirty();
                self.queue_action(seat_id, Action::ActivateMenuHovered);
            }
        }
    }

    fn pointer_release(&mut self, seat_id: SeatId, released: u32, now: u64)
        ensures
            final(self)@ == old(self)@.pointer_released(seat_id, released, now),
    {
        proof {
            reveal(ContextView::pointer_released);
        }
        if let Some(j) = self.find_seat(seat_id) {
            match self.seats[j].pointer_target {
                PointerTarget::MenuShield(_) => {},
                PointerTarget::Titlebar(window_id) => {
                    if released == button::LEFT {
                        let px: i32 = self.seats[j].last_surface_x;
                        let py: i32 = self.seats[j].last_surface_y;
                        self.release_titlebar(seat_id, window_id, px, py, now);
                    }
                },
                _ => self.release_menu(seat_id, released),
            }
        }
    }

    /// The compositor reported something about the pointer of a seat
    pub fn pointer_report(&mut self, seat_id: SeatId, report: PointerReport, globals: &Globals)
        ensures
            final(self)@ == old(self)@.pointer_reported(seat_id, report, globals@),
    {
        proof {
            reveal(ContextView::pointer_reported);
        }
        if self.find_seat(seat_id).is_none() {
            return;
        }
        match report {
            PointerReport::Enter { serial, surface, x, y } => {
                self.pointer_enter(seat_id, serial, surface, x, y, globals);
            },
            PointerReport::Leave { serial } => self.pointer_leave(seat_id, serial),
            PointerReport::Motion { x, y } => self.pointer_motion(seat_id, x, y, globals),
            PointerReport::Pressed { button, now } => {
                self.pointer_press(seat_id, button, now, globals);
            },
            PointerReport::Released { button, now } => self.pointer_release(seat_id, button, now),
        }
    }
}

} // verus!
