//! Seat (input) management

use vstd::prelude::*;
use std::collections::VecDeque;
use crate::binding::action::ActionView;
use crate::binding::{Action, PointerBinding, PointerBindingView, XkbBinding, XkbBindingView};
use crate::canoe::window::{to_object, Window};
use crate::canoe::{OutputId, SeatId, WindowId};
use crate::config::Mode;
use crate::protocol::{CursorShape, ObjectId, Request, RequestView, Requests};

verus! {

/// Pointer target for WM-owned surfaces
#[derive(Debug, Clone, Copy, PartialEq, Eq, Structural)]
pub enum PointerTarget {
    /// No surface of the window manager
    Nothing,
    Desktop(OutputId),
    Menu,
    MenuShield(OutputId),
    Titlebar(WindowId),
}

/// A managed seat (input device group)
#[derive(Debug)]
pub struct Seat {
    /// Unique seat ID
    pub id: SeatId,
    /// River seat protocol object
    pub rwm_seat: Option<ObjectId>,
    /// Layer shell seat object
    pub layer_shell_seat: Option<ObjectId>,
    /// Wayland seat object
    pub wl_seat: Option<ObjectId>,
    /// Global name of the wl_seat
    pub wl_seat_name: u32,
    /// Wayland pointer object
    pub wl_pointer: Option<ObjectId>,
    /// Cursor shape device for this seat
    pub cursor_shape_device: Option<ObjectId>,
    /// Last pointer enter serial for cursor shape updates
    pub pointer_enter_serial: u32,
    /// Last cursor shape set for this seat
    pub cursor_shape: Option<CursorShape>,
    /// Current input mode
    pub mode: Mode,
    /// Whether focus is exclusive (layer shell has keyboard)
    pub focus_exclusive: bool,
    /// Pointer position
    pub pointer_x: i32,
    pub pointer_y: i32,
    /// Last pointer position in surface-local coordinates
    pub last_surface_x: i32,
    pub last_surface_y: i32,
    /// Pointer target for WM-owned surfaces
    pub pointer_target: PointerTarget,
    /// Window currently under the pointer
    pub window_below_pointer: Option<WindowId>,
    /// Mouse button pressed for menu activation
    pub menu_click_button: Option<u32>,
    /// Last close-button click (window, milliseconds) for double-click detection
    pub last_close_click: Option<(WindowId, u64)>,
    /// Last desktop icon click (window, milliseconds) for double-click detection
    pub last_icon_click: Option<(WindowId, u64)>,
    /// Pending actions to execute during manage phase
    pub unhandled_actions: VecDeque<Action>,
    /// Active XKB bindings
    pub xkb_bindings: Vec<(XkbBinding, Option<ObjectId>)>,
    /// Active pointer bindings
    pub pointer_bindings: Vec<(PointerBinding, Option<ObjectId>)>,
    /// Whether this seat has been removed
    pub removed: bool,
}

/// A [`Seat`] by its contents.
#[verifier::ext_equal]
pub struct SeatView {
    pub id: SeatId,
    pub rwm_seat: Option<ObjectId>,
    pub layer_shell_seat: Option<ObjectId>,
    pub wl_seat: Option<ObjectId>,
    pub wl_seat_name: u32,
    pub wl_pointer: Option<ObjectId>,
    pub cursor_shape_device: Option<ObjectId>,
    pub pointer_enter_serial: u32,
    pub cursor_shape: Option<CursorShape>,
    pub mode: Mode,
    pub focus_exclusive: bool,
    pub pointer_x: i32,
    pub pointer_y: i32,
    pub last_surface_x: i32,
    pub last_surface_y: i32,
    pub pointer_target: PointerTarget,
    pub window_below_pointer: Option<WindowId>,
    pub menu_click_button: Option<u32>,
    pub last_close_click: Option<(WindowId, u64)>,
    pub last_icon_click: Option<(WindowId, u64)>,
    pub unhandled_actions: Seq<ActionView>,
    pub xkb_bindings: Seq<(XkbBindingView, Option<ObjectId>)>,
    pub pointer_bindings: Seq<(PointerBindingView, Option<ObjectId>)>,
    pub removed: bool,
}

pub open spec fn action_views(s: Seq<Action>) -> Seq<ActionView> {
    s.map_values(|a: Action| a@)
}

pub open spec fn xkb_views(s: Seq<(XkbBinding, Option<ObjectId>)>) -> Seq<(XkbBindingView, Option<ObjectId>)> {
    s.map_values(|b: (XkbBinding, Option<ObjectId>)| (b.0@, b.1))
}

pub open spec fn pointer_views(s: Seq<(PointerBinding, Option<ObjectId>)>) -> Seq<(PointerBindingView, Option<ObjectId>)> {
    s.map_values(|b: (PointerBinding, Option<ObjectId>)| (b.0@, b.1))
}

impl View for Seat {
    type V = SeatView;

    open spec fn view(&self) -> SeatView {
        SeatView {
            id: self.id,
            rwm_seat: self.rwm_seat,
            layer_shell_seat: self.layer_shell_seat,
            wl_seat: self.wl_seat,
            wl_seat_name: self.wl_seat_name,
            wl_pointer: self.wl_pointer,
            cursor_shape_device: self.cursor_shape_device,
            pointer_enter_serial: self.pointer_enter_serial,
            cursor_shape: self.cursor_shape,
            mode: self.mode,
            focus_exclusive: self.focus_exclusive,
            pointer_x: self.pointer_x,
            pointer_y: self.pointer_y,
            last_surface_x: self.last_surface_x,
            last_surface_y: self.last_surface_y,
            pointer_target: self.pointer_target,
            window_below_pointer: self.window_below_pointer,
            menu_click_button: self.menu_click_button,
            last_close_click: self.last_close_click,
            last_icon_click: self.last_icon_click,
            unhandled_actions: action_views(self.unhandled_actions@),
            xkb_bindings: xkb_views(self.xkb_bindings@),
            pointer_bindings: pointer_views(self.pointer_bindings@),
            removed: self.removed,
        }
    }
}

/// What a new seat looks like.
pub open spec fn fresh_seat(id: SeatId) -> SeatView {
    SeatView {
        id,
        rwm_seat: None,
        layer_shell_seat: None,
        wl_seat: None,
        wl_seat_name: 0,
        wl_pointer: None,
        cursor_shape_device: None,
        pointer_enter_serial: 0,
        cursor_shape: None,
        mode: Mode::Default,
        focus_exclusive: false,
        pointer_x: 0,
        pointer_y: 0,
        last_surface_x: 0,
        last_surface_y: 0,
        pointer_target: PointerTarget::Nothing,
        window_below_pointer: None,
        menu_click_button: None,
        last_close_click: None,
        last_icon_click: None,
        unhandled_actions: Seq::empty(),
        xkb_bindings: Seq::empty(),
        pointer_bindings: Seq::empty(),
        removed: false,
    }
}

/// What switching modes looks at in a binding: its mode, whether it is enabled
/// and the protocol object behind it.
pub struct Toggle {
    pub mode: Mode,
    pub enabled: bool,
    pub object: Option<ObjectId>,
}

pub open spec fn xkb_toggles(s: Seq<(XkbBindingView, Option<ObjectId>)>) -> Seq<Toggle> {
    s.map_values(
        |b: (XkbBindingView, Option<ObjectId>)|
            Toggle { mode: b.0.mode, enabled: b.0.enabled, object: b.1 },
    )
}

pub open spec fn pointer_toggles(s: Seq<(PointerBindingView, Option<ObjectId>)>) -> Seq<Toggle> {
    s.map_values(
        |b: (PointerBindingView, Option<ObjectId>)|
            Toggle { mode: b.0.mode, enabled: b.0.enabled, object: b.1 },
    )
}

/// The requests with one more for each binding of `mode` that is not in the
/// wanted state yet, in the order of the bindings.
pub open spec fn toggled(
    requests: Seq<RequestView>,
    toggles: Seq<Toggle>,
    mode: Mode,
    enable: bool,
    request: spec_fn(ObjectId) -> Request,
) -> Seq<RequestView>
    decreases toggles.len(),
{
    if toggles.len() == 0 {
        requests
    } else {
        let earlier = toggled(requests, toggles.drop_last(), mode, enable, request);
        let last = toggles.last();
        if last.mode == mode && last.enabled != enable {
            to_object(earlier, last.object, request)
        } else {
            earlier
        }
    }
}

/// The bindings with those of `mode` enabled or disabled.
pub open spec fn xkb_switched(
    s: Seq<(XkbBindingView, Option<ObjectId>)>,
    mode: Mode,
    enable: bool,
) -> Seq<(XkbBindingView, Option<ObjectId>)> {
    s.map_values(
        |b: (XkbBindingView, Option<ObjectId>)|
            if b.0.mode == mode {
                (XkbBindingView { enabled: enable, ..b.0 }, b.1)
            } else {
                b
            },
    )
}

/// The bindings with those of `mode` enabled or disabled.
pub open spec fn pointer_switched(
    s: Seq<(PointerBindingView, Option<ObjectId>)>,
    mode: Mode,
    enable: bool,
) -> Seq<(PointerBindingView, Option<ObjectId>)> {
    s.map_values(
        |b: (PointerBindingView, Option<ObjectId>)|
            if b.0.mode == mode {
                (PointerBindingView { enabled: enable, ..b.0 }, b.1)
            } else {
                b
            },
    )
}

/// A seat together with the requests sent so far.
#[verifier::ext_equal]
pub struct StagedSeat {
    pub seat: SeatView,
    pub requests: Seq<RequestView>,
}

impl SeatView {
    /// The seat with `action` queued last.
    pub open spec fn queued(self, action: ActionView) -> SeatView {
        SeatView { unhandled_actions: self.unhandled_actions.push(action), ..self }
    }

    /// The seat with the bindings of its mode enabled.
    pub open spec fn bindings_initialized(self) -> SeatView {
        SeatView {
            xkb_bindings: xkb_switched(self.xkb_bindings, self.mode, true),
            pointer_bindings: pointer_switched(self.pointer_bindings, self.mode, true),
            ..self
        }
    }
}

impl StagedSeat {
    /// Sends to the seat's own protocol object.
    pub open spec fn tell(self, request: spec_fn(ObjectId) -> Request) -> StagedSeat {
        StagedSeat { requests: to_object(self.requests, self.seat.rwm_seat, request), ..self }
    }

    /// Disables the bindings of the old mode, then enables those of the new
    /// one, the keys before the buttons.
    #[verifier::opaque]
    pub open spec fn switch_mode(self, mode: Mode) -> StagedSeat {
        if self.seat.mode == mode {
            self
        } else {
            let was = self.seat.mode;
            let xkb_off = xkb_switched(self.seat.xkb_bindings, was, false);
            let pointer_off = pointer_switched(self.seat.pointer_bindings, was, false);
            let r1 = toggled(
                self.requests,
                xkb_toggles(self.seat.xkb_bindings),
                was,
                false,
                |binding: ObjectId| Request::DisableXkbBinding { binding },
            );
            let r2 = toggled(
                r1,
                pointer_toggles(self.seat.pointer_bindings),
                was,
                false,
                |binding: ObjectId| Request::DisablePointerBinding { binding },
            );
            let r3 = toggled(
                r2,
                xkb_toggles(xkb_off),
                mode,
                true,
                |binding: ObjectId| Request::EnableXkbBinding { binding },
            );
            let r4 = toggled(
                r3,
                pointer_toggles(pointer_off),
                mode,
                true,
                |binding: ObjectId| Request::EnablePointerBinding { binding },
            );
            StagedSeat {
                seat: SeatView {
                    mode,
                    xkb_bindings: xkb_switched(xkb_off, mode, true),
                    pointer_bindings: pointer_switched(pointer_off, mode, true),
                    ..self.seat
                },
                requests: r4,
            }
        }
    }

    /// Asks for a pointer shape, unless the pointer has it already or there is
    /// no way to ask.
    #[verifier::opaque]
    pub open spec fn set_cursor_shape(self, shape: Option<CursorShape>) -> StagedSeat {
        let desired = match shape {
            Some(shape) => shape,
            None => CursorShape::Default,
        };
        match self.seat.cursor_shape_device {
            Some(device) if self.seat.pointer_enter_serial != 0 && self.seat.cursor_shape != Some(
                desired,
            ) => StagedSeat {
                seat: SeatView { cursor_shape: Some(desired), ..self.seat },
                requests: self.requests.push(
                    (Request::SetCursorShape {
                        device,
                        serial: self.seat.pointer_enter_serial,
                        shape: desired,
                    })@,
                ),
            },
            _ => self,
        }
    }
}

fn toggle_xkb(bindings: &mut Vec<(XkbBinding, Option<ObjectId>)>, mode: Mode, enable: bool, requests: &mut Requests)
    ensures
        xkb_views(final(bindings)@) == xkb_switched(xkb_views(old(bindings)@), mode, enable),
        final(requests)@ == toggled(
            old(requests)@,
            xkb_toggles(xkb_views(old(bindings)@)),
            mode,
            enable,
            if enable {
                |binding: ObjectId| Request::EnableXkbBinding { binding }
            } else {
                |binding: ObjectId| Request::DisableXkbBinding { binding }
            },
        ),
{
    let ghost request = if enable {
        |binding: ObjectId| Request::EnableXkbBinding { binding }
    } else {
        |binding: ObjectId| Request::DisableXkbBinding { binding }
    };
    let ghost before = xkb_views(bindings@);
    let ghost toggles = xkb_toggles(before);
    let mut i: usize = 0;
    while i < bindings.len()
        invariant
            0 <= i <= bindings@.len(),
            bindings@.len() == old(bindings)@.len(),
            before == xkb_views(old(bindings)@),
            toggles == xkb_toggles(before),
            request == (if enable {
                |binding: ObjectId| Request::EnableXkbBinding { binding }
            } else {
                |binding: ObjectId| Request::DisableXkbBinding { binding }
            }),
            forall|j: int|
                0 <= j < i ==> ((#[trigger] bindings@[j]).0@, bindings@[j].1) == xkb_switched(
                    before,
                    mode,
                    enable,
                )[j],
            forall|j: int| i <= j < bindings@.len() ==> #[trigger] bindings@[j] == old(bindings)@[j],
            requests@ == toggled(old(requests)@, toggles.take(i as int), mode, enable, request),
        decreases bindings@.len() - i,
    {
        proof {
            assert(toggles.take(i + 1).drop_last() =~= toggles.take(i as int));
            assert(bindings@[i as int] == old(bindings)@[i as int]);
        }
        if bindings[i].0.mode == mode && bindings[i].0.enabled != enable {
            if let Some(binding) = bindings[i].1 {
                if enable {
                    requests.push(Request::EnableXkbBinding { binding });
                } else {
                    requests.push(Request::DisableXkbBinding { binding });
                }
            }
            bindings[i].0.enabled = enable;
        }
        i = i + 1;
    }
    assert(toggles.take(i as int) =~= toggles);
    assert(xkb_views(bindings@) =~= xkb_switched(before, mode, enable));
}

fn toggle_pointer(bindings: &mut Vec<(PointerBinding, Option<ObjectId>)>, mode: Mode, enable: bool, requests: &mut Requests)
    ensures
        pointer_views(final(bindings)@) == pointer_switched(
            pointer_views(old(bindings)@),
            mode,
            enable,
        ),
        final(requests)@ == toggled(
            old(requests)@,
            pointer_toggles(pointer_views(old(bindings)@)),
            mode,
            enable,
            if enable {
                |binding: ObjectId| Request::EnablePointerBinding { binding }
            } else {
                |binding: ObjectId| Request::DisablePointerBinding { binding }
            },
        ),
{
    let ghost request = if enable {
        |binding: ObjectId| Request::EnablePointerBinding { binding }
    } else {
        |binding: ObjectId| Request::DisablePointerBinding { binding }
    };
    let ghost before = pointer_views(bindings@);
    let ghost toggles = pointer_toggles(before);
    let mut i: usize = 0;
    while i < bindings.len()
        invariant
            0 <= i <= bindings@.len(),
            bindings@.len() == old(bindings)@.len(),
            before == pointer_views(old(bindings)@),
            toggles == pointer_toggles(before),
            request == (if enable {
                |binding: ObjectId| Request::EnablePointerBinding { binding }
            } else {
                |binding: ObjectId| Request::DisablePointerBinding { binding }
            }),
            forall|j: int|
                0 <= j < i ==> ((#[trigger] bindings@[j]).0@, bindings@[j].1) == pointer_switched(
                    before,
                    mode,
                    enable,
                )[j],
            forall|j: int| i <= j < bindings@.len() ==> #[trigger] bindings@[j] == old(bindings)@[j],
            requests@ == toggled(old(requests)@, toggles.take(i as int), mode, enable, request),
        decreases bindings@.len() - i,
    {
        proof {
            assert(toggles.take(i + 1).drop_last() =~= toggles.take(i as int));
            assert(bindings@[i as int] == old(bindings)@[i as int]);
        }
        if bindings[i].0.mode == mode && bindings[i].0.enabled != enable {
            if let Some(binding) = bindings[i].1 {
                if enable {
                    requests.push(Request::EnablePointerBinding { binding });
                } else {
                    requests.push(Request::DisablePointerBinding { binding });
                }
            }
            bindings[i].0.enabled = enable;
        }
        i = i + 1;
    }
    assert(toggles.take(i as int) =~= toggles);
    assert(pointer_views(bindings@) =~= pointer_switched(before, mode, enable));
}

impl Seat {
    pub open spec fn staged(&self, requests: &Requests) -> StagedSeat {
        StagedSeat { seat: self@, requests: requests@ }
    }

    /// Create a new seat
    pub fn new(id: SeatId) -> (r: Self)
        ensures
            r@ == fresh_seat(id),
    {
        let r = Seat {
            id,
            rwm_seat: None,
            layer_shell_seat: None,
            wl_seat: None,
            wl_seat_name: 0,
            wl_pointer: None,
            cursor_shape_device: None,
            pointer_enter_serial: 0,
            cursor_shape: None,
            mode: Mode::Default,
            focus_exclusive: false,
            pointer_x: 0,
            pointer_y: 0,
            last_surface_x: 0,
            last_surface_y: 0,
            pointer_target: PointerTarget::Nothing,
            window_below_pointer: None,
            menu_click_button: None,
            last_close_click: None,
            last_icon_click: None,
            unhandled_actions: VecDeque::new(),
            xkb_bindings: Vec::new(),
            pointer_bindings: Vec::new(),
            removed: false,
        };
        assert(r@ =~= fresh_seat(id));
        r
    }

    /// Queue an action for execution during manage phase
    pub fn queue_action(&mut self, action: Action)
        ensures
            final(self)@ == old(self)@.queued(action@),
    {
        self.unhandled_actions.push_back(action);
        assert(action_views(self.unhandled_actions@) =~= action_views(
            old(self).unhandled_actions@,
        ).push(action@));
    }

    /// Drain and return all pending actions
    pub fn drain_actions(&mut self) -> (actions: Vec<Action>)
        ensures
            action_views(actions@) == old(self)@.unhandled_actions,
            final(self)@ == (SeatView { unhandled_actions: Seq::empty(), ..old(self)@ }),
    {
        let mut actions: Vec<Action> = Vec::new();
        let ghost queued = self.unhandled_actions@;
        while self.unhandled_actions.len() > 0
            invariant
                actions@ + self.unhandled_actions@ == queued,
                action_views(queued) == old(self)@.unhandled_actions,
                self@ == (SeatView {
                    unhandled_actions: action_views(self.unhandled_actions@),
                    ..old(self)@
                }),
            decreases self.unhandled_actions@.len(),
        {
            if let Some(action) = self.unhandled_actions.pop_front() {
                actions.push(action);
            }
            assert(actions@ + self.unhandled_actions@ =~= queued);
        }
        assert(action_views(self.unhandled_actions@) =~= Seq::empty());
        assert(actions@ =~= queued);
        actions
    }

    /// Switch to a different input mode
    pub fn switch_mode(&mut self, mode: Mode, requests: &mut Requests)
        ensures
            final(self).staged(final(requests)) == old(self).staged(old(requests)).switch_mode(
                mode,
            ),
    {
        proof {
            reveal(StagedSeat::switch_mode);
        }
        if self.mode == mode {
            return;
        }
        let old_mode = self.mode;
        self.mode = mode;

        // Disable bindings for old mode
        toggle_xkb(&mut self.xkb_bindings, old_mode, false, requests);
        toggle_pointer(&mut self.pointer_bindings, old_mode, false, requests);

        // Enable bindings for new mode
        toggle_xkb(&mut self.xkb_bindings, mode, true, requests);
        toggle_pointer(&mut self.pointer_bindings, mode, true, requests);
    }

    /// Update pointer position
    pub fn update_pointer_position(&mut self, x: i32, y: i32)
        ensures
            final(self)@ == (SeatView { pointer_x: x, pointer_y: y, ..old(self)@ }),
    {
        self.pointer_x = x;
        self.pointer_y = y;
    }

    /// Focus a window
    pub fn focus_window(&self, window: &Window, requests: &mut Requests)
        ensures
            final(requests)@ == (match (self.rwm_seat, window.rwm_window) {
                (Some(seat), Some(window)) => old(requests)@.push(
                    (Request::FocusWindow { seat, window })@,
                ),
                _ => old(requests)@,
            }),
    {
        if let Some(seat) = self.rwm_seat {
            if let Some(window) = window.rwm_window {
                requests.push(Request::FocusWindow { seat, window });
            }
        }
    }

    /// Clear keyboard focus
    pub fn clear_focus(&self, requests: &mut Requests)
        ensures
            self.staged(final(requests)) == self.staged(old(requests)).tell(
                |seat: ObjectId| Request::ClearFocus { seat },
            ),
    {
        if let Some(seat) = self.rwm_seat {
            requests.push(Request::ClearFocus { seat });
        }
    }

    /// Start a pointer operation
    pub fn start_pointer_op(&self, requests: &mut Requests)
        ensures
            self.staged(final(requests)) == self.staged(old(requests)).tell(
                |seat: ObjectId| Request::OpStartPointer { seat },
            ),
    {
        if let Some(seat) = self.rwm_seat {
            requests.push(Request::OpStartPointer { seat });
        }
    }

    /// End a pointer operation
    pub fn end_pointer_op(&self, requests: &mut Requests)
        ensures
            self.staged(final(requests)) == self.staged(old(requests)).tell(
                |seat: ObjectId| Request::OpEnd { seat },
            ),
    {
        if let Some(seat) = self.rwm_seat {
            requests.push(Request::OpEnd { seat });
        }
    }

    /// Set XCursor theme
    pub fn set_xcursor_theme(&self, name: &str, size: u32, requests: &mut Requests)
        ensures
            final(requests)@ == (match self.rwm_seat {
                Some(seat) => old(requests)@.push(
                    RequestView::SetXcursorTheme { seat, name: name@, size },
                ),
                None => old(requests)@,
            }),
    {
        if let Some(seat) = self.rwm_seat {
            requests.push(Request::SetXcursorTheme { seat, name: name.to_string(), size });
        }
    }

    /// Set cursor shape if supported by the compositor
    pub fn set_cursor_shape(&mut self, shape: Option<CursorShape>, requests: &mut Requests)
        ensures
            final(self).staged(final(requests)) == old(self).staged(
                old(requests),
            ).set_cursor_shape(shape),
    {
        proof {
            reveal(StagedSeat::set_cursor_shape);
        }
        let device: ObjectId = match self.cursor_shape_device {
            Some(device) => device,
            None => return,
        };
        if self.pointer_enter_serial == 0 {
            return;
        }
        let desired = match shape {
            Some(shape) => shape,
            None => CursorShape::Default,
        };
        if let Some(current) = self.cursor_shape {
            if current == desired {
                return;
            }
        }
        requests.push(
            Request::SetCursorShape { device, serial: self.pointer_enter_serial, shape: desired },
        );
        self.cursor_shape = Some(desired);
    }

    /// Add an XKB binding
    pub fn add_xkb_binding(&mut self, binding: XkbBinding)
        ensures
            final(self)@ == (SeatView {
                xkb_bindings: old(self)@.xkb_bindings.push((binding@, None)),
                ..old(self)@
            }),
    {
        self.xkb_bindings.push((binding, None));
        assert(xkb_views(self.xkb_bindings@) =~= xkb_views(old(self).xkb_bindings@).push(
            (binding@, None),
        ));
    }

    /// Add a pointer binding
    pub fn add_pointer_binding(&mut self, binding: PointerBinding)
        ensures
            final(self)@ == (SeatView {
                pointer_bindings: old(self)@.pointer_bindings.push((binding@, None)),
                ..old(self)@
            }),
    {
        self.pointer_bindings.push((binding, None));
        assert(pointer_views(self.pointer_bindings@) =~= pointer_views(
            old(self).pointer_bindings@,
        ).push((binding@, None)));
    }

    /// Forget every XKB binding
    pub fn clear_xkb_bindings(&mut self)
        ensures
            final(self)@ == (SeatView { xkb_bindings: Seq::empty(), ..old(self)@ }),
    {
        self.xkb_bindings.clear();
        assert(xkb_views(self.xkb_bindings@) =~= Seq::empty());
    }

    /// Initialize all bindings (call after seat is fully set up)
    pub fn initialize_bindings(&mut self)
        ensures
            final(self)@ == old(self)@.bindings_initialized(),
    {
        let mut unsent = Requests::new();
        toggle_xkb(&mut self.xkb_bindings, self.mode, true, &mut unsent);
        toggle_pointer(&mut self.pointer_bindings, self.mode, true, &mut unsent);
    }
}

} // verus!
