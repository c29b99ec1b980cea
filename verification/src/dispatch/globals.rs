//! The globals of the compositor, and what depends on them.

use vstd::prelude::*;
use crate::canoe::context::{Context, ContextView};
use crate::canoe::desktop::{fresh_desktop, DesktopSurface};
use crate::canoe::output::OutputView;
use crate::canoe::seat::SeatView;
use crate::canoe::{OutputId, SeatId};
use crate::protocol::{ObjectId, Request};
use crate::search::{first, lemma_first_is, lemma_first_none};
use crate::text::same;

verus! {

/// Kinds of globals that the window manager binds.
#[derive(Debug, Clone, Copy, PartialEq, Eq, Structural)]
pub enum GlobalKind {
    Compositor,
    Shm,
    WlOutput,
    WlSeat,
    WindowManager,
    XkbBindings,
    LayerShell,
    WlrLayerShell,
    InputManager,
    LibinputConfig,
    CursorShapeManager,
}

/// The kind of an interface and the highest version of it that is understood.
pub open spec fn known_interface(interface: Seq<char>) -> Option<(GlobalKind, u32)> {
    if interface == "wl_compositor"@ {
        Some((GlobalKind::Compositor, 4))
    } else if interface == "wl_shm"@ {
        Some((GlobalKind::Shm, 1))
    } else if interface == "wl_output"@ {
        Some((GlobalKind::WlOutput, 4))
    } else if interface == "wl_seat"@ {
        Some((GlobalKind::WlSeat, 7))
    } else if interface == "river_window_manager_v1"@ {
        Some((GlobalKind::WindowManager, 3))
    } else if interface == "river_xkb_bindings_v1"@ {
        Some((GlobalKind::XkbBindings, 1))
    } else if interface == "river_layer_shell_v1"@ {
        Some((GlobalKind::LayerShell, 1))
    } else if interface == "zwlr_layer_shell_v1"@ {
        Some((GlobalKind::WlrLayerShell, 4))
    } else if interface == "river_input_manager_v1"@ {
        Some((GlobalKind::InputManager, 1))
    } else if interface == "river_libinput_config_v1"@ {
        Some((GlobalKind::LibinputConfig, 1))
    } else if interface == "wp_cursor_shape_manager_v1"@ {
        Some((GlobalKind::CursorShapeManager, 2))
    } else {
        None
    }
}

/// The version of a global to bind: what the compositor offers, but nothing
/// newer than what is understood.
pub open spec fn version_to_bind(interface: Seq<char>, version: u32) -> Option<(GlobalKind, u32)> {
    match known_interface(interface) {
        Some((kind, highest)) => Some(
            (
                kind,
                if version < highest {
                    version
                } else {
                    highest
                },
            ),
        ),
        None => None,
    }
}

fn interface_known(interface: &str) -> (r: Option<(GlobalKind, u32)>)
    ensures
        r == known_interface(interface@),
{
    if same(interface, "wl_compositor") {
        Some((GlobalKind::Compositor, 4))
    } else if same(interface, "wl_shm") {
        Some((GlobalKind::Shm, 1))
    } else if same(interface, "wl_output") {
        Some((GlobalKind::WlOutput, 4))
    } else if same(interface, "wl_seat") {
        Some((GlobalKind::WlSeat, 7))
    } else if same(interface, "river_window_manager_v1") {
        Some((GlobalKind::WindowManager, 3))
    } else if same(interface, "river_xkb_bindings_v1") {
        Some((GlobalKind::XkbBindings, 1))
    } else if same(interface, "river_layer_shell_v1") {
        Some((GlobalKind::LayerShell, 1))
    } else if same(interface, "zwlr_layer_shell_v1") {
        Some((GlobalKind::WlrLayerShell, 4))
    } else if same(interface, "river_input_manager_v1") {
        Some((GlobalKind::InputManager, 1))
    } else if same(interface, "river_libinput_config_v1") {
        Some((GlobalKind::LibinputConfig, 1))
    } else if same(interface, "wp_cursor_shape_manager_v1") {
        Some((GlobalKind::CursorShapeManager, 2))
    } else {
        None
    }
}

/// Whether and in which version to bind a global
pub fn bind_version(interface: &str, version: u32) -> (r: Option<(GlobalKind, u32)>)
    ensures
        r == version_to_bind(interface@, version),
{
    match interface_known(interface) {
        Some((kind, highest)) => Some(
            (
                kind,
                if version < highest {
                    version
                } else {
                    highest
                },
            ),
        ),
        None => None,
    }
}

/// A `wl_seat` global.
#[derive(Debug, Clone, Copy, PartialEq, Eq, Structural)]
pub struct WlSeatGlobal {
    pub name: u32,
    pub object: ObjectId,
    pub has_pointer: bool,
}

/// A `wl_output` global.
#[derive(Debug, Clone, Copy, PartialEq, Eq, Structural)]
pub struct WlOutputGlobal {
    pub name: u32,
    pub object: ObjectId,
    pub scale: i32,
}

/// Collected Wayland globals. Of some it matters only that they are there.
#[derive(Debug)]
pub struct Globals {
    pub compositor: bool,
    pub shm: bool,
    pub wlr_layer_shell: bool,
    pub cursor_shape_manager: bool,
    pub wl_seats: Vec<WlSeatGlobal>,
    pub wl_outputs: Vec<WlOutputGlobal>,
}

/// [`Globals`] by their contents.
#[verifier::ext_equal]
pub struct GlobalsView {
    pub compositor: bool,
    pub shm: bool,
    pub wlr_layer_shell: bool,
    pub cursor_shape_manager: bool,
    pub wl_seats: Seq<WlSeatGlobal>,
    pub wl_outputs: Seq<WlOutputGlobal>,
}

impl View for Globals {
    type V = GlobalsView;

    open spec fn view(&self) -> GlobalsView {
        GlobalsView {
            compositor: self.compositor,
            shm: self.shm,
            wlr_layer_shell: self.wlr_layer_shell,
            cursor_shape_manager: self.cursor_shape_manager,
            wl_seats: self.wl_seats@,
            wl_outputs: self.wl_outputs@,
        }
    }
}

/// Holds of the `wl_seat` with this name.
pub open spec fn seat_named(name: u32) -> spec_fn(WlSeatGlobal) -> bool {
    |s: WlSeatGlobal| s.name == name
}

/// Holds of the `wl_output` with this name.
pub open spec fn output_named(name: u32) -> spec_fn(WlOutputGlobal) -> bool {
    |o: WlOutputGlobal| o.name == name
}

/// Holds of the `wl_output` that is this object.
pub open spec fn output_object(object: ObjectId) -> spec_fn(WlOutputGlobal) -> bool {
    |o: WlOutputGlobal| o.object == object
}

impl GlobalsView {
    /// Whether surfaces can be put on the screen.
    pub open spec fn surfaces(self) -> bool {
        self.compositor && self.wlr_layer_shell
    }

    /// Whether surfaces can be drawn.
    pub open spec fn drawing(self) -> bool {
        self.shm && self.compositor
    }

    pub open spec fn wl_seat(self, name: u32) -> Option<WlSeatGlobal> {
        match first(self.wl_seats, seat_named(name)) {
            Some(i) => Some(self.wl_seats[i]),
            None => None,
        }
    }

    pub open spec fn wl_output(self, name: u32) -> Option<WlOutputGlobal> {
        match first(self.wl_outputs, output_named(name)) {
            Some(i) => Some(self.wl_outputs[i]),
            None => None,
        }
    }

    /// The name of an output object.
    pub open spec fn output_name(self, object: ObjectId) -> Option<u32> {
        match first(self.wl_outputs, output_object(object)) {
            Some(i) => Some(self.wl_outputs[i].name),
            None => None,
        }
    }

    /// The scale of the output with a name, one if it is not known.
    pub open spec fn scale_of(self, name: u32) -> i32 {
        match self.wl_output(name) {
            Some(o) => o.scale,
            None => 1,
        }
    }

    /// With a seat bound, its pointer not known yet.
    pub open spec fn seat_bound(self, name: u32, object: ObjectId) -> GlobalsView {
        let global = WlSeatGlobal { name, object, has_pointer: false };
        GlobalsView {
            wl_seats: match first(self.wl_seats, seat_named(name)) {
                Some(i) => self.wl_seats.update(i, global),
                None => self.wl_seats.push(global),
            },
            ..self
        }
    }

    /// With an output bound. A scale that is known already stays.
    pub open spec fn output_bound(self, name: u32, object: ObjectId) -> GlobalsView {
        GlobalsView {
            wl_outputs: match first(self.wl_outputs, output_named(name)) {
                Some(i) => self.wl_outputs.update(
                    i,
                    WlOutputGlobal { object, ..self.wl_outputs[i] },
                ),
                None => self.wl_outputs.push(WlOutputGlobal { name, object, scale: 1 }),
            },
            ..self
        }
    }

    /// With the pointer of a seat there or gone.
    pub open spec fn pointer_noted(self, name: u32, has_pointer: bool) -> GlobalsView {
        match first(self.wl_seats, seat_named(name)) {
            Some(i) => GlobalsView {
                wl_seats: self.wl_seats.update(
                    i,
                    WlSeatGlobal { has_pointer, ..self.wl_seats[i] },
                ),
                ..self
            },
            None => self,
        }
    }

    /// With the scale of an output.
    pub open spec fn scale_noted(self, name: u32, scale: i32) -> GlobalsView {
        match first(self.wl_outputs, output_named(name)) {
            Some(i) => GlobalsView {
                wl_outputs: self.wl_outputs.update(
                    i,
                    WlOutputGlobal { scale, ..self.wl_outputs[i] },
                ),
                ..self
            },
            None => self,
        }
    }
}

impl Globals {
    pub fn new() -> (r: Self)
        ensures
            r@ == (GlobalsView {
                compositor: false,
                shm: false,
                wlr_layer_shell: false,
                cursor_shape_manager: false,
                wl_seats: Seq::empty(),
                wl_outputs: Seq::empty(),
            }),
    {
        Globals {
            compositor: false,
            shm: false,
            wlr_layer_shell: false,
            cursor_shape_manager: false,
            wl_seats: Vec::new(),
            wl_outputs: Vec::new(),
        }
    }

    fn find_seat(&self, name: u32) -> (r: Option<usize>)
        ensures
            (match r {
                Some(i) => Some(i as int),
                None => None,
            }) == first(self@.wl_seats, seat_named(name)),
            r matches Some(i) ==> i < self.wl_seats@.len(),
    {
        let mut i: usize = 0;
        while i < self.wl_seats.len()
            invariant
                i <= self.wl_seats@.len(),
                forall|j: int| 0 <= j < i ==> !seat_named(name)(#[trigger] self.wl_seats@[j]),
            decreases self.wl_seats@.len() - i,
        {
            if self.wl_seats[i].name == name {
                proof {
                    lemma_first_is(self.wl_seats@, seat_named(name), i as int);
                }
                return Some(i);
            }
            i = i + 1;
        }
        proof {
            lemma_first_none(self.wl_seats@, seat_named(name));
        }
        None
    }

    fn find_output(&self, name: u32) -> (r: Option<usize>)
        ensures
            (match r {
                Some(i) => Some(i as int),
                None => None,
            }) == first(self@.wl_outputs, output_named(name)),
            r matches Some(i) ==> i < self.wl_outputs@.len(),
    {
        let mut i: usize = 0;
        while i < self.wl_outputs.len()
            invariant
                i <= self.wl_outputs@.len(),
                forall|j: int| 0 <= j < i ==> !output_named(name)(#[trigger] self.wl_outputs@[j]),
            decreases self.wl_outputs@.len() - i,
        {
            if self.wl_outputs[i].name == name {
                proof {
                    lemma_first_is(self.wl_outputs@, output_named(name), i as int);
                }
                return Some(i);
            }
            i = i + 1;
        }
        proof {
            lemma_first_none(self.wl_outputs@, output_named(name));
        }
        None
    }

    /// The name of an output object
    pub fn output_name(&self, object: ObjectId) -> (r: Option<u32>)
        ensures
            r == self@.output_name(object),
    {
        let mut i: usize = 0;
        while i < self.wl_outputs.len()
            invariant
                i <= self.wl_outputs@.len(),
                forall|j: int|
                    0 <= j < i ==> !output_object(object)(#[trigger] self.wl_outputs@[j]),
            decreases self.wl_outputs@.len() - i,
        {
            if self.wl_outputs[i].object == object {
                proof {
                    lemma_first_is(self.wl_outputs@, output_object(object), i as int);
                }
                return Some(self.wl_outputs[i].name);
            }
            i = i + 1;
        }
        proof {
            lemma_first_none(self.wl_outputs@, output_object(object));
        }
        None
    }

    pub fn wl_seat(&self, name: u32) -> (r: Option<WlSeatGlobal>)
        ensures
            r == self@.wl_seat(name),
    {
        match self.find_seat(name) {
            Some(i) => Some(self.wl_seats[i]),
            None => None,
        }
    }

    pub fn wl_output(&self, name: u32) -> (r: Option<WlOutputGlobal>)
        ensures
            r == self@.wl_output(name),
    {
        match self.find_output(name) {
            Some(i) => Some(self.wl_outputs[i]),
            None => None,
        }
    }

    /// The scale of the output with a name, one if it is not known
    pub fn scale_of(&self, name: u32) -> (r: i32)
        ensures
            r == self@.scale_of(name),
    {
        match self.wl_output(name) {
            Some(o) => o.scale,
            None => 1,
        }
    }

    fn bind_seat(&mut self, name: u32, object: ObjectId)
        ensures
            final(self)@ == old(self)@.seat_bound(name, object),
    {
        let global = WlSeatGlobal { name, object, has_pointer: false };
        match self.find_seat(name) {
            Some(i) => {
                self.wl_seats.set(i, global);
            },
            None => self.wl_seats.push(global),
        }
    }

    fn bind_output(&mut self, name: u32, object: ObjectId)
        ensures
            final(self)@ == old(self)@.output_bound(name, object),
    {
        match self.find_output(name) {
            Some(i) => {
                let scale: i32 = self.wl_outputs[i].scale;
                let name: u32 = self.wl_outputs[i].name;
                self.wl_outputs.set(i, WlOutputGlobal { name, object, scale });
            },
            None => self.wl_outputs.push(WlOutputGlobal { name, object, scale: 1 }),
        }
    }

    fn note_pointer(&mut self, name: u32, has_pointer: bool)
        ensures
            final(self)@ == old(self)@.pointer_noted(name, has_pointer),
    {
        if let Some(i) = self.find_seat(name) {
            let was = self.wl_seats[i];
            self.wl_seats.set(i, WlSeatGlobal { name: was.name, object: was.object, has_pointer });
        }
    }

    fn note_scale(&mut self, name: u32, scale: i32)
        ensures
            final(self)@ == old(self)@.scale_noted(name, scale),
    {
        if let Some(i) = self.find_output(name) {
            let was = self.wl_outputs[i];
            self.wl_outputs.set(i, WlOutputGlobal { name: was.name, object: was.object, scale });
        }
    }
}

impl ContextView {
    /// With a seat changed.
    pub open spec fn with_seat(self, j: int, seat: SeatView) -> ContextView {
        ContextView { seats: self.seats.update(j, seat), ..self }
    }

    /// With an output changed.
    pub open spec fn with_output(self, k: int, output: OutputView) -> ContextView {
        ContextView { outputs: self.outputs.update(k, output), ..self }
    }

    /// Asks for the cursor shape device of a seat that has a pointer but no
    /// device yet.
    #[verifier::opaque]
    pub open spec fn cursor_device_asked(self, seat: SeatId, g: GlobalsView) -> ContextView {
        match self.seat(seat) {
            Some(s) => match (s.wl_pointer, s.cursor_shape_device) {
                (Some(pointer), None) => if g.cursor_shape_manager {
                    self.ask(Request::GetCursorShapeDevice { pointer, seat_id: seat })
                } else {
                    self
                },
                _ => self,
            },
            None => self,
        }
    }

    /// Asks for the pointer of a seat, or for what belongs to one that is
    /// there.
    #[verifier::opaque]
    pub open spec fn pointer_asked(self, seat: SeatId, wl_seat: ObjectId, g: GlobalsView) -> ContextView {
        match self.seat(seat) {
            Some(s) => if s.wl_pointer is None {
                self.ask(Request::GetPointer { wl_seat, seat_id: seat })
            } else {
                self.cursor_device_asked(seat, g)
            },
            None => self,
        }
    }

    /// Connects a seat with the `wl_seat` of its name.
    #[verifier::opaque]
    pub open spec fn wl_seat_attached(self, seat: SeatId, g: GlobalsView) -> ContextView {
        match self.seat_index(seat) {
            Some(j) => {
                let s = self.seats[j];
                match g.wl_seat(s.wl_seat_name) {
                    Some(global) => if s.wl_seat_name == 0 || s.wl_seat is Some {
                        self
                    } else {
                        let c = self.with_seat(
                            j,
                            SeatView { wl_seat: Some(global.object), ..s },
                        );
                        if global.has_pointer {
                            c.pointer_asked(seat, global.object, g)
                        } else {
                            c
                        }
                    },
                    None => self,
                }
            },
            None => self,
        }
    }

    /// With the pointer of a seat, which may need a cursor shape device.
    #[verifier::opaque]
    pub open spec fn pointer_got(self, seat: SeatId, pointer: ObjectId, g: GlobalsView) -> ContextView {
        match self.seat_index(seat) {
            Some(j) => self.with_seat(
                j,
                SeatView { wl_pointer: Some(pointer), ..self.seats[j] },
            ).cursor_device_asked(seat, g),
            None => self,
        }
    }

    /// With the cursor shape device of a seat.
    #[verifier::opaque]
    pub open spec fn cursor_device_got(self, seat: SeatId, device: ObjectId) -> ContextView {
        match self.seat_index(seat) {
            Some(j) => self.with_seat(
                j,
                SeatView { cursor_shape_device: Some(device), ..self.seats[j] },
            ),
            None => self,
        }
    }

    /// With the pointer of a seat gone.
    #[verifier::opaque]
    pub open spec fn pointer_lost(self, seat: SeatId) -> ContextView {
        match self.seat_index(seat) {
            Some(j) => {
                let s = self.seats[j];
                let c = self.with_seat(
                    j,
                    SeatView {
                        wl_pointer: None,
                        cursor_shape_device: None,
                        pointer_enter_serial: 0,
                        cursor_shape: None,
                        ..s
                    },
                );
                match s.wl_pointer {
                    Some(pointer) => c.ask(Request::ReleasePointer { pointer }),
                    None => c,
                }
            },
            None => self,
        }
    }

    /// The first seat with a `wl_seat` name.
    pub open spec fn seat_with_name(self, name: u32) -> Option<SeatId> {
        match first(self.seats, has_wl_seat_name(name)) {
            Some(j) => Some(self.seats[j].id),
            None => None,
        }
    }

    /// Asks for the desktop surface of an output that has none, if surfaces can
    /// be put on the screen.
    #[verifier::opaque]
    pub open spec fn desktop_wanted(self, output: OutputId, g: GlobalsView) -> ContextView {
        match self.output(output) {
            Some(o) => if o.desktop_surface is None && g.surfaces() {
                self.ask(Request::EnsureDesktop { output_id: output })
            } else {
                self
            },
            None => self,
        }
    }

    /// With the desktop surface of an output.
    #[verifier::opaque]
    pub open spec fn desktop_got(
        self,
        output: OutputId,
        surface: ObjectId,
        layer_surface: ObjectId,
    ) -> ContextView {
        match self.output_index(output) {
            Some(k) => self.with_output(
                k,
                OutputView {
                    desktop_surface: Some(fresh_desktop(surface, layer_surface, output)),
                    ..self.outputs[k]
                },
            ),
            None => self,
        }
    }

    /// Connects an output with a `wl_output`. Its desktop is made anew.
    #[verifier::opaque]
    pub open spec fn output_rebound(
        self,
        k: int,
        name: u32,
        object: Option<ObjectId>,
        scale: i32,
        g: GlobalsView,
    ) -> ContextView {
        self.with_output(
            k,
            OutputView {
                wl_output_name: name,
                wl_output: object,
                scale,
                desktop_surface: None,
                ..self.outputs[k]
            },
        ).desktop_wanted(self.outputs[k].id, g)
    }

    /// Connects those of the first `n` outputs that have a name with the
    /// `wl_output` of that name.
    pub open spec fn outputs_rebound(self, n: int, name: u32, object: ObjectId, g: GlobalsView) -> ContextView
        decreases n,
    {
        if n <= 0 {
            self
        } else {
            let c = self.outputs_rebound(n - 1, name, object, g);
            if c.outputs[n - 1].wl_output_name == name {
                c.output_rebound(n - 1, name, Some(object), g.scale_of(name), g)
            } else {
                c
            }
        }
    }

    /// Asks for the desktops of the first `n` outputs.
    pub open spec fn desktops_wanted(self, n: int, g: GlobalsView) -> ContextView
        decreases n,
    {
        if n <= 0 {
            self
        } else {
            let c = self.desktops_wanted(n - 1, g);
            c.desktop_wanted(c.outputs[n - 1].id, g)
        }
    }

    /// Asks for the cursor shape devices of the first `n` seats.
    pub open spec fn cursor_devices_asked(self, n: int, g: GlobalsView) -> ContextView
        decreases n,
    {
        if n <= 0 {
            self
        } else {
            let c = self.cursor_devices_asked(n - 1, g);
            c.cursor_device_asked(c.seats[n - 1].id, g)
        }
    }

    /// Gives the scale to those of the outputs that a `wl_output` stands for,
    /// by its name if it has one.
    #[verifier::opaque]
    pub open spec fn scaled(self, name: Option<u32>, object: ObjectId, scale: i32) -> ContextView {
        ContextView {
            outputs: self.outputs.map_values(
                |o: OutputView|
                    if is_wl_output(o, name, object) {
                        OutputView { scale, ..o }
                    } else {
                        o
                    },
            ),
            ..self
        }
    }
}

/// Whether a `wl_output` stands for an output.
pub open spec fn is_wl_output(o: OutputView, name: Option<u32>, object: ObjectId) -> bool {
    match name {
        Some(name) => o.wl_output_name == name,
        None => o.wl_output == Some(object),
    }
}

/// Holds of the seats with this `wl_seat` name.
pub open spec fn has_wl_seat_name(name: u32) -> spec_fn(SeatView) -> bool {
    |s: SeatView| s.wl_seat_name == name
}

/// Rebinding outputs leaves all other outputs alone.
proof fn lemma_output_rebound(
    c: ContextView,
    k: int,
    name: u32,
    object: Option<ObjectId>,
    scale: i32,
    g: GlobalsView,
)
    requires
        0 <= k < c.outputs.len(),
    ensures
        c.output_rebound(k, name, object, scale, g).outputs.len() == c.outputs.len(),
{
    reveal(ContextView::output_rebound);
    reveal(ContextView::desktop_wanted);
}

impl Context {
    fn ask_cursor_device(&mut self, seat_id: SeatId, globals: &Globals)
        ensures
            final(self)@ == old(self)@.cursor_device_asked(seat_id, globals@),
    {
        proof {
            reveal(ContextView::cursor_device_asked);
        }
        if let Some(j) = self.find_seat(seat_id) {
            if globals.cursor_shape_manager && self.seats[j].cursor_shape_device.is_none() {
                if let Some(pointer) = self.seats[j].wl_pointer {
                    self.requests.push(Request::GetCursorShapeDevice { pointer, seat_id });
                }
            }
        }
    }

    fn ask_pointer(&mut self, seat_id: SeatId, wl_seat: ObjectId, globals: &Globals)
        ensures
            final(self)@ == old(self)@.pointer_asked(seat_id, wl_seat, globals@),
    {
        proof {
            reveal(ContextView::pointer_asked);
        }
        if let Some(j) = self.find_seat(seat_id) {
            if self.seats[j].wl_pointer.is_none() {
                self.requests.push(Request::GetPointer { wl_seat, seat_id });
            } else {
                self.ask_cursor_device(seat_id, globals);
            }
        }
    }

    /// Connect a seat with the `wl_seat` of its name
    pub fn attach_wl_seat(&mut self, seat_id: SeatId, globals: &Globals)
        ensures
            final(self)@ == old(self)@.wl_seat_attached(seat_id, globals@),
    {
        proof {
            reveal(ContextView::wl_seat_attached);
        }
        if let Some(j) = self.find_seat(seat_id) {
            let name: u32 = self.seats[j].wl_seat_name;
            if name == 0 || self.seats[j].wl_seat.is_some() {
                return;
            }
            if let Some(global) = globals.wl_seat(name) {
                let ghost before = self@;
                self.seats[j].wl_seat = Some(global.object);
                assert(self@ =~= before.with_seat(
                    j as int,
                    SeatView { wl_seat: Some(global.object), ..before.seats[j as int] },
                ));
                if global.has_pointer {
                    self.ask_pointer(seat_id, global.object, globals);
                }
            }
        }
    }

    /// The pointer of a seat was created
    pub fn pointer_created(&mut self, seat_id: SeatId, pointer: ObjectId, globals: &Globals)
        ensures
            final(self)@ == old(self)@.pointer_got(seat_id, pointer, globals@),
    {
        proof {
            reveal(ContextView::pointer_got);
        }
        if let Some(j) = self.find_seat(seat_id) {
            let ghost before = self@;
            self.seats[j].wl_pointer = Some(pointer);
            assert(self@ =~= before.with_seat(
                j as int,
                SeatView { wl_pointer: Some(pointer), ..before.seats[j as int] },
            ));
            self.ask_cursor_device(seat_id, globals);
        }
    }

    /// The cursor shape device of a seat was created
    pub fn cursor_device_created(&mut self, seat_id: SeatId, device: ObjectId)
        ensures
            final(self)@ == old(self)@.cursor_device_got(seat_id, device),
    {
        proof {
            reveal(ContextView::cursor_device_got);
        }
        if let Some(j) = self.find_seat(seat_id) {
            let ghost before = self@;
            self.seats[j].cursor_shape_device = Some(device);
            assert(self@ =~= before.with_seat(
                j as int,
                SeatView { cursor_shape_device: Some(device), ..before.seats[j as int] },
            ));
        }
    }

    fn lose_pointer(&mut self, seat_id: SeatId)
        ensures
            final(self)@ == old(self)@.pointer_lost(seat_id),
    {
        proof {
            reveal(ContextView::pointer_lost);
        }
        if let Some(j) = self.find_seat(seat_id) {
            let ghost before = self@;
            let pointer: Option<ObjectId> = self.seats[j].wl_pointer;
            self.seats[j].wl_pointer = None;
            self.seats[j].cursor_shape_device = None;
            self.seats[j].pointer_enter_serial = 0;
            self.seats[j].cursor_shape = None;
            assert(self@ =~= before.with_seat(
                j as int,
                SeatView {
                    wl_pointer: None,
                    cursor_shape_device: None,
                    pointer_enter_serial: 0,
                    cursor_shape: None,
                    ..before.seats[j as int]
                },
            ));
            if let Some(pointer) = pointer {
                self.requests.push(Request::ReleasePointer { pointer });
            }
        }
    }

    fn seat_with_name(&self, name: u32) -> (r: Option<SeatId>)
        ensures
            r == self@.seat_with_name(name),
    {
        let mut j: usize = 0;
        while j < self.seats.len()
            invariant
                j <= self.seats@.len(),
                forall|i: int| 0 <= i < j ==> !has_wl_seat_name(name)(#[trigger] self@.seats[i]),
            decreases self.seats@.len() - j,
        {
            assert(self@.seats[j as int] == self.seats@[j as int]@);
            if self.seats[j].wl_seat_name == name {
                proof {
                    lemma_first_is(self@.seats, has_wl_seat_name(name), j as int);
                }
                return Some(self.seats[j].id);
            }
            j = j + 1;
        }
        proof {
            lemma_first_none(self@.seats, has_wl_seat_name(name));
        }
        None
    }

    /// Ask for the desktop surface of an output that has none
    pub fn ensure_desktop_surface(&mut self, output_id: OutputId, globals: &Globals)
        ensures
            final(self)@ == old(self)@.desktop_wanted(output_id, globals@),
            final(self)@.outputs == old(self)@.outputs,
    {
        proof {
            reveal(ContextView::desktop_wanted);
        }
        if let Some(k) = self.find_output(output_id) {
            if self.outputs[k].desktop_surface.is_none() && globals.compositor
                && globals.wlr_layer_shell {
                self.requests.push(Request::EnsureDesktop { output_id });
            }
        }
    }

    /// The desktop surface of an output was created
    pub fn desktop_created(&mut self, output_id: OutputId, surface: ObjectId, layer_surface: ObjectId)
        ensures
            final(self)@ == old(self)@.desktop_got(output_id, surface, layer_surface),
    {
        proof {
            reveal(ContextView::desktop_got);
        }
        if let Some(k) = self.find_output(output_id) {
            let ghost before = self@;
            self.outputs[k].desktop_surface = Some(
                DesktopSurface::new(surface, layer_surface, output_id),
            );
            assert(self@ =~= before.with_output(
                k as int,
                OutputView {
                    desktop_surface: Some(fresh_desktop(surface, layer_surface, output_id)),
                    ..before.outputs[k as int]
                },
            ));
        }
    }

    /// Connect the output at a place with a `wl_output`
    pub fn rebind_output(&mut self, k: usize, name: u32, object: Option<ObjectId>, scale: i32, globals: &Globals)
        requires
            k < old(self).outputs@.len(),
        ensures
            final(self)@ == old(self)@.output_rebound(k as int, name, object, scale, globals@),
    {
        proof {
            reveal(ContextView::output_rebound);
        }
        let ghost before = self@;
        assert(before.outputs[k as int] == self.outputs@[k as int]@);
        self.outputs[k].wl_output_name = name;
        self.outputs[k].wl_output = object;
        self.outputs[k].scale = scale;
        self.outputs[k].desktop_surface = None;
        assert(self@ =~= before.with_output(
            k as int,
            OutputView {
                wl_output_name: name,
                wl_output: object,
                scale,
                desktop_surface: None,
                ..before.outputs[k as int]
            },
        ));
        self.ensure_desktop_surface(self.outputs[k].id, globals);
    }

    fn rebind_outputs(&mut self, name: u32, object: ObjectId, globals: &Globals)
        ensures
            final(self)@ == old(self)@.outputs_rebound(
                old(self)@.outputs.len() as int,
                name,
                object,
                globals@,
            ),
    {
        let ghost start = self@;
        let count: usize = self.outputs.len();
        let mut k: usize = 0;
        while k < count
            invariant
                k <= count,
                count == self.outputs@.len(),
                count == start.outputs.len(),
                self@ == start.outputs_rebound(k as int, name, object, globals@),
            decreases count - k,
        {
            assert(self@.outputs[k as int] == self.outputs@[k as int]@);
            let ghost before = self@;
            if self.outputs[k].wl_output_name == name {
                let scale: i32 = globals.scale_of(name);
                self.rebind_output(k, name, Some(object), scale, globals);
                proof {
                    lemma_output_rebound(before, k as int, name, Some(object), scale, globals@);
                }
                assert(self.outputs@.len() == self@.outputs.len());
            }
            k = k + 1;
        }
    }

    fn ensure_desktops(&mut self, globals: &Globals)
        ensures
            final(self)@ == old(self)@.desktops_wanted(old(self)@.outputs.len() as int, globals@),
    {
        let ghost start = self@;
        let count: usize = self.outputs.len();
        let mut k: usize = 0;
        while k < count
            invariant
                k <= count,
                count == self.outputs@.len(),
                count == start.outputs.len(),
                self@ == start.desktops_wanted(k as int, globals@),
            decreases count - k,
        {
            assert(self@.outputs[k as int] == self.outputs@[k as int]@);
            let ghost before = self@;
            let id: OutputId = self.outputs[k].id;
            self.ensure_desktop_surface(id, globals);
            assert(self.outputs@.len() == self@.outputs.len());
            k = k + 1;
        }
    }

    fn ask_cursor_devices(&mut self, globals: &Globals)
        ensures
            final(self)@ == old(self)@.cursor_devices_asked(old(self)@.seats.len() as int, globals@),
    {
        let ghost start = self@;
        let count: usize = self.seats.len();
        let mut j: usize = 0;
        while j < count
            invariant
                j <= count,
                count == self.seats@.len(),
                count == start.seats.len(),
                self@ == start.cursor_devices_asked(j as int, globals@),
            decreases count - j,
        {
            assert(self@.seats[j as int] == self.seats@[j as int]@);
            let ghost before = self@;
            let id: SeatId = self.seats[j].id;
            self.ask_cursor_device(id, globals);
            assert(self@.seats == before.seats) by {
                reveal(ContextView::cursor_device_asked);
            }
            assert(self.seats@.len() == self@.seats.len());
            j = j + 1;
        }
    }

    fn rescale(&mut self, name: Option<u32>, object: ObjectId, scale: i32)
        ensures
            final(self)@ == old(self)@.scaled(name, object, scale),
    {
        proof {
            reveal(ContextView::scaled);
        }
        let ghost start = self@;
        let mut k: usize = 0;
        while k < self.outputs.len()
            invariant
                k <= self.outputs@.len(),
                self.outputs@.len() == start.outputs.len(),
                self@ == (ContextView { outputs: self@.outputs, ..start }),
                forall|j: int|
                    0 <= j < k ==> (#[trigger] self.outputs@[j])@ == (if is_wl_output(
                        start.outputs[j],
                        name,
                        object,
                    ) {
                        OutputView { scale, ..start.outputs[j] }
                    } else {
                        start.outputs[j]
                    }),
                forall|j: int|
                    k <= j < self.outputs@.len() ==> (#[trigger] self.outputs@[j])@
                        == start.outputs[j],
            decreases self.outputs@.len() - k,
        {
            let hit: bool = match name {
                Some(name) => self.outputs[k].wl_output_name == name,
                None => self.outputs[k].wl_output == Some(object),
            };
            if hit {
                self.outputs[k].scale = scale;
            }
            k = k + 1;
        }
        assert(self@.outputs =~= start.scaled(name, object, scale).outputs);
    }
}

/// What binding a global does to the globals.
pub open spec fn globals_bound(g: GlobalsView, kind: GlobalKind, name: u32, object: ObjectId) -> GlobalsView {
    match kind {
        GlobalKind::Compositor => GlobalsView { compositor: true, ..g },
        GlobalKind::Shm => GlobalsView { shm: true, ..g },
        GlobalKind::WlrLayerShell => GlobalsView { wlr_layer_shell: true, ..g },
        GlobalKind::CursorShapeManager => GlobalsView { cursor_shape_manager: true, ..g },
        GlobalKind::WlOutput => g.output_bound(name, object),
        GlobalKind::WlSeat => g.seat_bound(name, object),
        _ => g,
    }
}

/// What binding a global does to the context, given the globals with it.
#[verifier::opaque]
pub open spec fn context_bound(
    c: ContextView,
    kind: GlobalKind,
    name: u32,
    object: ObjectId,
    g: GlobalsView,
) -> ContextView {
    match kind {
        GlobalKind::WindowManager => ContextView { rwm: Some(object), ..c },
        GlobalKind::XkbBindings => ContextView { rwm_xkb_bindings: Some(object), ..c },
        GlobalKind::LayerShell => ContextView { rwm_layer_shell: Some(object), ..c },
        GlobalKind::InputManager => ContextView { rwm_input_manager: Some(object), ..c },
        GlobalKind::LibinputConfig => ContextView { rwm_libinput_config: Some(object), ..c },
        GlobalKind::WlOutput => c.outputs_rebound(c.outputs.len() as int, name, object, g),
        GlobalKind::WlSeat => match c.seat_with_name(name) {
            Some(seat) => c.wl_seat_attached(seat, g),
            None => c,
        },
        GlobalKind::WlrLayerShell => c.desktops_wanted(c.outputs.len() as int, g),
        GlobalKind::CursorShapeManager => c.cursor_devices_asked(c.seats.len() as int, g),
        _ => c,
    }
}

impl Globals {
    /// A global was bound
    pub fn global_bound(&mut self, kind: GlobalKind, name: u32, object: ObjectId, context: &mut Context)
        ensures
            final(self)@ == globals_bound(old(self)@, kind, name, object),
            final(context)@ == context_bound(
                old(context)@,
                kind,
                name,
                object,
                globals_bound(old(self)@, kind, name, object),
            ),
    {
        proof {
            reveal(context_bound);
        }
        match kind {
            GlobalKind::Compositor => {
                self.compositor = true;
            },
            GlobalKind::Shm => {
                self.shm = true;
            },
            GlobalKind::WlOutput => {
                self.bind_output(name, object);
                context.rebind_outputs(name, object, self);
            },
            GlobalKind::WlSeat => {
                self.bind_seat(name, object);
                if let Some(seat_id) = context.seat_with_name(name) {
                    context.attach_wl_seat(seat_id, self);
                }
            },
            GlobalKind::WindowManager => {
                context.rwm = Some(object);
            },
            GlobalKind::XkbBindings => {
                context.rwm_xkb_bindings = Some(object);
            },
            GlobalKind::LayerShell => {
                context.rwm_layer_shell = Some(object);
            },
            GlobalKind::WlrLayerShell => {
                self.wlr_layer_shell = true;
                context.ensure_desktops(self);
            },
            GlobalKind::InputManager => {
                context.rwm_input_manager = Some(object);
            },
            GlobalKind::LibinputConfig => {
                context.rwm_libinput_config = Some(object);
            },
            GlobalKind::CursorShapeManager => {
                self.cursor_shape_manager = true;
                context.ask_cursor_devices(self);
            },
        }
    }

    /// A `wl_seat` has a pointer now, or has none any more
    pub fn seat_capabilities(&mut self, name: u32, object: ObjectId, has_pointer: bool, context: &mut Context)
        ensures
            final(self)@ == old(self)@.pointer_noted(name, has_pointer),
            final(context)@ == (match old(context)@.seat_with_name(name) {
                Some(seat) => if has_pointer {
                    old(context)@.pointer_asked(
                        seat,
                        object,
                        old(self)@.pointer_noted(name, has_pointer),
                    )
                } else {
                    old(context)@.pointer_lost(seat)
                },
                None => old(context)@,
            }),
    {
        self.note_pointer(name, has_pointer);
        if let Some(seat_id) = context.seat_with_name(name) {
            if has_pointer {
                context.ask_pointer(seat_id, object, self);
            } else {
                context.lose_pointer(seat_id);
            }
        }
    }

    /// A `wl_output` got a scale; anything below one counts as one
    pub fn output_scale(&mut self, object: ObjectId, factor: i32, context: &mut Context)
        ensures
            ({
                let scale = if factor > 1 {
                    factor
                } else {
                    1
                };
                let name = old(self)@.output_name(object);
                &&& final(self)@ == (match name {
                    Some(name) => old(self)@.scale_noted(name, scale),
                    None => old(self)@,
                })
                &&& final(context)@ == old(context)@.scaled(name, object, scale)
            }),
    {
        let scale: i32 = if factor > 1 {
            factor
        } else {
            1
        };
        let name: Option<u32> = self.output_name(object);
        if let Some(name) = name {
            self.note_scale(name, scale);
        }
        context.rescale(name, object, scale);
    }
}

} // verus!
