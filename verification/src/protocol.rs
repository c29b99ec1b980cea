//! What the window manager asks of the compositor.

use vstd::prelude::*;
use crate::binding::action::{Arg, CustomFn};
use crate::canoe::menu::{item_views, MenuItem, MenuItemView};
use crate::canoe::WindowMenuMode;
use crate::text::clone_strings;

verus! {

/// Names an object that lives on the connection to the compositor.
pub type ObjectId = u32;

/// Top edge bit.
pub const EDGE_TOP: u32 = 1;

/// Bottom edge bit.
pub const EDGE_BOTTOM: u32 = 2;

/// Left edge bit.
pub const EDGE_LEFT: u32 = 4;

/// Right edge bit.
pub const EDGE_RIGHT: u32 = 8;

/// All four edge bits.
pub const EDGES_ALL: u32 = 15;

/// Pointer shapes that the window manager asks for.
#[derive(Debug, Clone, Copy, PartialEq, Eq, Structural)]
pub enum CursorShape {
    Default,
    Pointer,
    NwResize,
    NeResize,
    SwResize,
    SeResize,
    WResize,
    EResize,
    NResize,
    SResize,
    EwResize,
    NsResize,
    AllResize,
}

/// Window-management operations that a window is told it supports.
#[derive(Debug, Clone, Copy, PartialEq, Eq, Structural)]
pub struct Capabilities {
    pub window_menu: bool,
    pub maximize: bool,
    pub fullscreen: bool,
    pub minimize: bool,
}

/// A window menu that is about to be opened.
#[derive(Debug)]
pub struct MenuPlan {
    pub output_id: usize,
    /// Where on the output it is to appear, unless it is centered.
    pub x: i32,
    pub y: i32,
    pub centered: bool,
    pub mode: WindowMenuMode,
    pub items: Vec<MenuItem>,
    pub header: String,
    /// The seat whose pointer may already be over an item.
    pub hover_seat: Option<usize>,
}

/// A [`MenuPlan`] by its contents.
pub struct MenuPlanView {
    pub output_id: usize,
    pub x: i32,
    pub y: i32,
    pub centered: bool,
    pub mode: WindowMenuMode,
    pub items: Seq<MenuItemView>,
    pub header: Seq<char>,
    pub hover_seat: Option<usize>,
}

impl View for MenuPlan {
    type V = MenuPlanView;

    open spec fn view(&self) -> MenuPlanView {
        MenuPlanView {
            output_id: self.output_id,
            x: self.x,
            y: self.y,
            centered: self.centered,
            mode: self.mode,
            items: item_views(self.items@),
            header: self.header@,
            hover_seat: self.hover_seat,
        }
    }
}

/// One thing to be done outside the library, in the order of the queue.
#[derive(Debug)]
pub enum Request {
    // river_window_manager_v1
    ManageDirty { manager: ObjectId },
    ManageFinish { manager: ObjectId },
    RenderFinish { manager: ObjectId },

    // river_window_v1
    ProposeDimensions { window: ObjectId, width: i32, height: i32 },
    Hide { window: ObjectId },
    Show { window: ObjectId },
    Close { window: ObjectId },
    SetBorders { window: ObjectId, edges: u32, width: i32, r: u32, g: u32, b: u32, a: u32 },
    SetTiled { window: ObjectId, edges: u32 },
    Fullscreen { window: ObjectId, output: ObjectId },
    InformFullscreen { window: ObjectId },
    ExitFullscreen { window: ObjectId },
    InformNotFullscreen { window: ObjectId },
    InformMaximized { window: ObjectId },
    InformUnmaximized { window: ObjectId },
    InformResizeStart { window: ObjectId },
    InformResizeEnd { window: ObjectId },
    UseCsd { window: ObjectId },
    UseSsd { window: ObjectId },
    SetClipBox { window: ObjectId, x: i32, y: i32, width: i32, height: i32 },
    SetContentClipBox { window: ObjectId, x: i32, y: i32, width: i32, height: i32 },
    SetCapabilities { window: ObjectId, capabilities: Capabilities },

    // river_node_v1
    SetPosition { node: ObjectId, x: i32, y: i32 },
    PlaceAbove { node: ObjectId, other: ObjectId },
    PlaceBelow { node: ObjectId, other: ObjectId },
    PlaceTop { node: ObjectId },
    PlaceBottom { node: ObjectId },

    // river_seat_v1
    FocusWindow { seat: ObjectId, window: ObjectId },
    ClearFocus { seat: ObjectId },
    OpStartPointer { seat: ObjectId },
    OpEnd { seat: ObjectId },
    SetXcursorTheme { seat: ObjectId, name: String, size: u32 },

    // river_xkb_binding_v1, river_pointer_binding_v1
    EnableXkbBinding { binding: ObjectId },
    DisableXkbBinding { binding: ObjectId },
    DestroyXkbBinding { binding: ObjectId },
    EnablePointerBinding { binding: ObjectId },
    DisablePointerBinding { binding: ObjectId },

    // river_layer_shell_output_v1
    SetDefaultOutput { layer_shell_output: ObjectId },

    // wp_cursor_shape_device_v1, wl_pointer
    SetCursorShape { device: ObjectId, serial: u32, shape: CursorShape },
    HideCursor { pointer: ObjectId, serial: u32 },
    ReleasePointer { pointer: ObjectId },
    GetPointer { wl_seat: ObjectId, seat_id: usize },
    GetCursorShapeDevice { pointer: ObjectId, seat_id: usize },

    // objects that belong to a freshly announced window, output or seat
    GetNode { window: ObjectId, id: usize },
    CreateTitlebar { window: ObjectId, id: usize },
    GetLayerShellOutput { output: ObjectId, id: usize },
    GetLayerShellSeat { seat: ObjectId, id: usize },
    GetXkbBinding { seat: ObjectId, keysym: u32, modifiers: u32, id: usize, index: usize, enable: bool },
    GetPointerBinding { seat: ObjectId, button: u32, modifiers: u32, id: usize, index: usize, enable: bool },

    // surfaces that the window manager draws itself
    EnsureDesktop { output_id: usize },
    RenderDesktop { output_id: usize },
    OpenMenu { plan: MenuPlan },
    RenderMenu,
    EnsureMenuShield { output_id: usize },
    RenderMenuShield,

    // processes and user code
    Spawn { argv: Vec<String> },
    RunCustom { func: CustomFn, arg: Arg },
}

/// A [`Request`] with its strings taken by their characters.
pub enum RequestView {
    Plain(Request),
    Spawn(Seq<Seq<char>>),
    SetXcursorTheme { seat: ObjectId, name: Seq<char>, size: u32 },
    OpenMenu(MenuPlanView),
}

impl View for Request {
    type V = RequestView;

    open spec fn view(&self) -> RequestView {
        match *self {
            Request::Spawn { argv } => RequestView::Spawn(crate::text::texts(argv@)),
            Request::SetXcursorTheme { seat, name, size } => RequestView::SetXcursorTheme {
                seat,
                name: name@,
                size,
            },
            Request::OpenMenu { plan } => RequestView::OpenMenu(plan@),
            plain => RequestView::Plain(plain),
        }
    }
}

/// The requests that have not been carried out yet, oldest first.
#[derive(Debug)]
pub struct Requests {
    list: Vec<Request>,
}

impl View for Requests {
    type V = Seq<RequestView>;

    closed spec fn view(&self) -> Seq<RequestView> {
        self.list@.map_values(|r: Request| r@)
    }
}

impl Requests {
    pub fn new() -> (r: Self)
        ensures
            r@ == Seq::<RequestView>::empty(),
    {
        let r = Requests { list: Vec::new() };
        assert(r@ =~= Seq::<RequestView>::empty());
        r
    }

    /// Appends one request.
    pub fn push(&mut self, request: Request)
        ensures
            final(self)@ == old(self)@.push(request@),
    {
        self.list.push(request);
        assert(self@ =~= old(self)@.push(request@));
    }

    /// Appends the command `argv`.
    pub fn spawn(&mut self, argv: &Vec<String>)
        ensures
            final(self)@ == old(self)@.push(RequestView::Spawn(crate::text::texts(argv@))),
    {
        let copy = clone_strings(argv);
        self.push(Request::Spawn { argv: copy });
    }

    /// Hands out everything queued so far and leaves the queue empty.
    pub fn take(&mut self) -> (out: Vec<Request>)
        ensures
            out@.map_values(|r: Request| r@) == old(self)@,
            final(self)@ == Seq::<RequestView>::empty(),
    {
        let mut out: Vec<Request> = Vec::new();
        std::mem::swap(&mut out, &mut self.list);
        assert(self@ =~= Seq::<RequestView>::empty());
        out
    }
}

} // verus!
