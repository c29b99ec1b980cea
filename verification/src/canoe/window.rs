//! Window management

use vstd::prelude::*;
use std::collections::VecDeque;
use crate::canoe::shadow::{WindowShadow, WindowShadowView};
use crate::canoe::titlebar::{FrameStyle, Titlebar, TitlebarButton, TitlebarView};
use crate::canoe::{OutputId, SeatId, WindowId};
use crate::config::WindowDecoration;
use crate::num::{larger, max_i32, max_i64, sat, to_i32};
use crate::protocol::{Capabilities, ObjectId, Request, RequestView, Requests};
use crate::text::opt_text;

verus! {

/// Fullscreen state
#[derive(Debug, Clone, Copy, PartialEq, Eq, Structural)]
pub enum FullscreenState {
    /// Not fullscreen
    Off,
    /// Fullscreen within window bounds
    Window,
    /// Fullscreen on a specific output
    Output(OutputId),
}

/// Window snap state
#[derive(Debug, Clone, Copy, PartialEq, Eq, Structural)]
pub enum SnapState {
    Left,
    Right,
    Maximized,
}

impl SnapState {
    pub open spec fn spec_opposite(self) -> Self {
        match self {
            SnapState::Left => SnapState::Right,
            SnapState::Right => SnapState::Left,
            SnapState::Maximized => SnapState::Maximized,
        }
    }

    #[verifier::when_used_as_spec(spec_opposite)]
    pub fn opposite(self) -> (r: Self)
        ensures
            r == self.opposite(),
    {
        match self {
            Self::Left => Self::Right,
            Self::Right => Self::Left,
            Self::Maximized => Self::Maximized,
        }
    }
}

/// The opposite of the opposite snap state is the state itself, and only a
/// maximized window is its own opposite.
pub proof fn law_snap_state_opposite_is_an_involution(snap: SnapState)
    ensures
        snap.opposite().opposite() == snap,
        snap.opposite() == snap <==> snap is Maximized,
{
}

/// Window clip state
#[derive(Debug, Clone, Copy, PartialEq, Eq, Structural)]
pub enum ClipState {
    Unknown,
    Normal,
    Clipped,
}

impl Default for ClipState {
    fn default() -> (r: Self)
        ensures
            r == ClipState::Unknown,
    {
        ClipState::Unknown
    }
}

/// Saved geometry for restoring after maximize
#[derive(Debug, Clone, Copy, PartialEq, Eq, Structural)]
pub struct SavedGeometry {
    pub x: i32,
    pub y: i32,
    pub width: i32,
    pub height: i32,
}

/// Operator state for move/resize operations
#[derive(Debug, Clone, Copy, PartialEq, Eq, Structural)]
pub enum Operator {
    /// No operation in progress
    Idle,
    Move { start_x: i32, start_y: i32, seat: Option<SeatId> },
    Resize {
        start_x: i32,
        start_y: i32,
        start_width: i32,
        start_height: i32,
        edges: u32,
        seat: Option<SeatId>,
    },
}

impl Default for Operator {
    fn default() -> (r: Self)
        ensures
            r == Operator::Idle,
    {
        Operator::Idle
    }
}

/// Window event types
#[derive(Debug, Clone, Copy, PartialEq, Eq, Structural)]
pub enum WindowEvent {
    Init,
    Close,
    Fullscreen(Option<OutputId>),
    Unfullscreen,
    Maximize,
    Unmaximize,
    Minimize,
    Move(SeatId),
    /// seat, edges
    Resize(SeatId, u32),
}

/// A managed window
#[derive(Debug)]
pub struct Window {
    /// Unique window ID
    pub id: WindowId,
    /// River window protocol object
    pub rwm_window: Option<ObjectId>,
    /// River node protocol object for rendering
    pub rwm_node: Option<ObjectId>,
    /// Associated output
    pub output: Option<OutputId>,
    /// Process ID
    pub pid: i32,
    /// Application ID
    pub app_id: Option<String>,
    /// Window title
    pub title: Option<String>,
    /// Parent window (if any)
    pub parent: Option<WindowId>,
    /// Swallow top pixels from window content
    pub swallow_top: i32,
    /// Position X
    pub x: i32,
    /// Position Y
    pub y: i32,
    /// Width
    pub width: i32,
    /// Height
    pub height: i32,
    /// Minimum width
    pub min_width: i32,
    /// Minimum height
    pub min_height: i32,
    /// Maximum width (0 = no limit)
    pub max_width: i32,
    /// Maximum height (0 = no limit)
    pub max_height: i32,
    /// Fullscreen state
    pub fullscreen: FullscreenState,
    /// Maximized state
    pub maximized: bool,
    /// Geometry to restore when exiting fullscreen
    pub pre_fullscreen: Option<SavedGeometry>,
    /// Geometry to restore when unsnapping
    pub pre_snap: Option<SavedGeometry>,
    /// Current snap state
    pub snap_state: Option<SnapState>,
    /// Restore geometry on the next manage sequence after exiting fullscreen
    pub pending_unfullscreen_restore: bool,
    /// Floating state
    pub floating: bool,
    /// Hidden state
    pub hidden: bool,
    /// Sequence number assigned when minimized (for ordering icons)
    pub minimize_seq: u64,
    /// Clip state
    pub clip_state: ClipState,
    /// Decoration mode
    pub decoration: Option<WindowDecoration>,
    /// Decoration hint from client (None = not received yet)
    pub decoration_hint: Option<u32>,
    /// Current operator (move/resize)
    pub operator: Operator,
    /// Pending events queue
    pub unhandled_events: VecDeque<WindowEvent>,
    /// Position is undefined (newly created)
    pub position_undefined: bool,
    /// Titlebar for server-side decoration
    pub titlebar: Option<Titlebar>,
    /// Shadow decoration surface
    pub shadow: Option<WindowShadow>,
    /// Hovered titlebar button (if any)
    pub titlebar_hovered: Option<TitlebarButton>,
    /// Pressed titlebar button (if any)
    pub titlebar_pressed: Option<TitlebarButton>,
    /// Whether left mouse is currently held on the titlebar surface
    pub titlebar_left_down: bool,
    /// Window needs to be configured (propose_dimensions)
    pub needs_configure: bool,
    /// Proposed dimensions (for sizing)
    pub proposed_width: i32,
    pub proposed_height: i32,
}

/// A [`Window`] by its contents.
pub struct WindowView {
    pub id: WindowId,
    pub rwm_window: Option<ObjectId>,
    pub rwm_node: Option<ObjectId>,
    pub output: Option<OutputId>,
    pub pid: i32,
    pub app_id: Option<Seq<char>>,
    pub title: Option<Seq<char>>,
    pub parent: Option<WindowId>,
    pub swallow_top: i32,
    pub x: i32,
    pub y: i32,
    pub width: i32,
    pub height: i32,
    pub min_width: i32,
    pub min_height: i32,
    pub max_width: i32,
    pub max_height: i32,
    pub fullscreen: FullscreenState,
    pub maximized: bool,
    pub pre_fullscreen: Option<SavedGeometry>,
    pub pre_snap: Option<SavedGeometry>,
    pub snap_state: Option<SnapState>,
    pub pending_unfullscreen_restore: bool,
    pub floating: bool,
    pub hidden: bool,
    pub minimize_seq: u64,
    pub clip_state: ClipState,
    pub decoration: Option<WindowDecoration>,
    pub decoration_hint: Option<u32>,
    pub operator: Operator,
    pub unhandled_events: Seq<WindowEvent>,
    pub position_undefined: bool,
    pub titlebar: Option<TitlebarView>,
    pub shadow: Option<WindowShadowView>,
    pub titlebar_hovered: Option<TitlebarButton>,
    pub titlebar_pressed: Option<TitlebarButton>,
    pub titlebar_left_down: bool,
    pub needs_configure: bool,
    pub proposed_width: i32,
    pub proposed_height: i32,
}

impl View for Window {
    type V = WindowView;

    open spec fn view(&self) -> WindowView {
        WindowView {
            id: self.id,
            rwm_window: self.rwm_window,
            rwm_node: self.rwm_node,
            output: self.output,
            pid: self.pid,
            app_id: opt_text(self.app_id),
            title: opt_text(self.title),
            parent: self.parent,
            swallow_top: self.swallow_top,
            x: self.x,
            y: self.y,
            width: self.width,
            height: self.height,
            min_width: self.min_width,
            min_height: self.min_height,
            max_width: self.max_width,
            max_height: self.max_height,
            fullscreen: self.fullscreen,
            maximized: self.maximized,
            pre_fullscreen: self.pre_fullscreen,
            pre_snap: self.pre_snap,
            snap_state: self.snap_state,
            pending_unfullscreen_restore: self.pending_unfullscreen_restore,
            floating: self.floating,
            hidden: self.hidden,
            minimize_seq: self.minimize_seq,
            clip_state: self.clip_state,
            decoration: self.decoration,
            decoration_hint: self.decoration_hint,
            operator: self.operator,
            unhandled_events: self.unhandled_events@,
            position_undefined: self.position_undefined,
            titlebar: match self.titlebar {
                Some(titlebar) => Some(titlebar@),
                None => None,
            },
            shadow: match self.shadow {
                Some(shadow) => Some(shadow@),
                None => None,
            },
            titlebar_hovered: self.titlebar_hovered,
            titlebar_pressed: self.titlebar_pressed,
            titlebar_left_down: self.titlebar_left_down,
            needs_configure: self.needs_configure,
            proposed_width: self.proposed_width,
            proposed_height: self.proposed_height,
        }
    }
}

/// What a new window looks like.
pub open spec fn fresh_window(id: WindowId) -> WindowView {
    WindowView {
        id,
        rwm_window: None,
        rwm_node: None,
        output: None,
        pid: 0,
        app_id: None,
        title: None,
        parent: None,
        swallow_top: 0,
        x: 0,
        y: 0,
        width: 0,
        height: 0,
        min_width: 0,
        min_height: 0,
        max_width: 0,
        max_height: 0,
        fullscreen: FullscreenState::Off,
        maximized: false,
        pre_fullscreen: None,
        pre_snap: None,
        snap_state: None,
        pending_unfullscreen_restore: false,
        floating: false,
        hidden: false,
        minimize_seq: 0,
        clip_state: ClipState::Unknown,
        decoration: None,
        decoration_hint: None,
        operator: Operator::Idle,
        unhandled_events: Seq::empty(),
        position_undefined: true,
        titlebar: None,
        shadow: None,
        titlebar_hovered: None,
        titlebar_pressed: None,
        titlebar_left_down: false,
        needs_configure: true,
        proposed_width: 0,
        proposed_height: 0,
    }
}

impl WindowView {
    /// Where the window is now.
    pub open spec fn geometry(self) -> SavedGeometry {
        SavedGeometry { x: self.x, y: self.y, width: self.width, height: self.height }
    }

    /// A window whose minimum and maximum size are the same.
    pub open spec fn fixed_size(self) -> bool {
        self.min_width > 0 && self.min_height > 0 && self.max_width == self.min_width
            && self.max_height == self.min_height
    }

    /// Dialogs and windows of a fixed size cannot be resized.
    pub open spec fn resizable(self) -> bool {
        self.parent is None && !self.fixed_size()
    }

    /// Dialogs cannot be minimized.
    pub open spec fn minimizable(self) -> bool {
        self.parent is None
    }

    pub open spec fn frame_style(self) -> FrameStyle {
        if self.parent is Some {
            FrameStyle::Dialog
        } else if self.fixed_size() {
            FrameStyle::FixedSize
        } else {
            FrameStyle::Normal
        }
    }

    /// What the client is told it may ask for.
    pub open spec fn capabilities(self) -> Capabilities {
        Capabilities {
            window_menu: true,
            maximize: self.resizable(),
            fullscreen: self.resizable(),
            minimize: self.minimizable(),
        }
    }

    /// Whether positions and sizes are remembered for leaving fullscreen.
    pub open spec fn tracks_geometry(self) -> bool {
        self.fullscreen == FullscreenState::Off && !self.pending_unfullscreen_restore
    }

    /// The window with position `(x, y)`.
    pub open spec fn at(self, x: i32, y: i32) -> WindowView {
        WindowView {
            x,
            y,
            position_undefined: false,
            pre_fullscreen: if self.tracks_geometry() {
                match self.pre_fullscreen {
                    Some(saved) => Some(SavedGeometry { x, y, ..saved }),
                    None => Some(SavedGeometry { x, y, width: self.width, height: self.height }),
                }
            } else {
                self.pre_fullscreen
            },
            ..self
        }
    }

    /// The window with its size confirmed as `width` by `height`.
    pub open spec fn sized(self, width: i32, height: i32) -> WindowView {
        WindowView {
            width,
            height,
            pre_fullscreen: if self.tracks_geometry() {
                Some(SavedGeometry { x: self.x, y: self.y, width, height })
            } else {
                self.pre_fullscreen
            },
            ..self
        }
    }

    /// The window with its titlebar, if it has one, marked for redrawing.
    pub open spec fn titlebar_stale(self) -> WindowView {
        WindowView {
            titlebar: match self.titlebar {
                Some(titlebar) => Some(TitlebarView { dirty: true, ..titlebar }),
                None => None,
            },
            ..self
        }
    }
}

/// A window together with the requests sent so far: what one step on a window
/// may change.
pub struct Staged {
    pub window: WindowView,
    pub requests: Seq<RequestView>,
}

/// The requests with `request(object)` behind them, if there is an object to
/// send it to.
pub open spec fn to_object(
    requests: Seq<RequestView>,
    object: Option<ObjectId>,
    request: spec_fn(ObjectId) -> Request,
) -> Seq<RequestView> {
    match object {
        Some(object) => requests.push(request(object)@),
        None => requests,
    }
}

impl Staged {
    pub open spec fn with(self, window: WindowView) -> Staged {
        Staged { window, ..self }
    }

    /// Sends to the window's own protocol object.
    pub open spec fn tell(self, request: spec_fn(ObjectId) -> Request) -> Staged {
        Staged {
            requests: to_object(self.requests, self.window.rwm_window, request),
            ..self
        }
    }

    /// Sends to the window's node.
    pub open spec fn tell_node(self, request: spec_fn(ObjectId) -> Request) -> Staged {
        Staged {
            requests: to_object(self.requests, self.window.rwm_node, request),
            ..self
        }
    }

    #[verifier::opaque]
    pub open spec fn propose_raw(self, width: i32, height: i32) -> Staged {
        self.with(
            WindowView { proposed_width: width, proposed_height: height, ..self.window },
        ).tell(|window: ObjectId| Request::ProposeDimensions { window, width, height })
    }

    /// Proposes a size, not below the window's minimum.
    #[verifier::opaque]
    pub open spec fn propose_dimensions(self, width: i32, height: i32) -> Staged {
        self.propose_raw(
            larger(width as int, self.window.min_width as int) as i32,
            larger(height as int, self.window.min_height as int) as i32,
        )
    }

    #[verifier::opaque]
    pub open spec fn set_position(self, x: i32, y: i32) -> Staged {
        self.with(self.window.at(x, y)).tell_node(
            |node: ObjectId| Request::SetPosition { node, x, y },
        )
    }

    /// Moves and resizes to a remembered geometry.
    #[verifier::opaque]
    pub open spec fn restore(self, saved: SavedGeometry) -> Staged {
        self.set_position(saved.x, saved.y).propose_dimensions(saved.width, saved.height)
    }

    /// Restores what was remembered, if anything was, and forgets it.
    #[verifier::opaque]
    pub open spec fn restore_pre_snap(self) -> Staged {
        match self.window.pre_snap {
            Some(saved) => self.with(WindowView { pre_snap: None, ..self.window }).restore(saved),
            None => self,
        }
    }

    #[verifier::opaque]
    pub open spec fn conceal(self) -> Staged {
        if self.window.hidden {
            self
        } else {
            self.with(WindowView { hidden: true, ..self.window }).tell(
                |window: ObjectId| Request::Hide { window },
            )
        }
    }

    #[verifier::opaque]
    pub open spec fn show(self) -> Staged {
        if self.window.hidden {
            self.with(WindowView { hidden: false, ..self.window.titlebar_stale() }).tell(
                |window: ObjectId| Request::Show { window },
            )
        } else {
            self
        }
    }

    #[verifier::opaque]
    pub open spec fn close(self) -> Staged {
        self.tell(|window: ObjectId| Request::Close { window })
    }

    #[verifier::opaque]
    pub open spec fn set_borders(self, edges: u32, width: i32, r: u32, g: u32, b: u32, a: u32) -> Staged {
        self.tell(|window: ObjectId| Request::SetBorders { window, edges, width, r, g, b, a })
    }

    #[verifier::opaque]
    pub open spec fn set_tiled(self, edges: u32) -> Staged {
        self.tell(|window: ObjectId| Request::SetTiled { window, edges })
    }

    #[verifier::opaque]
    pub open spec fn fullscreen_on(self, output: ObjectId) -> Staged {
        self.tell(|window: ObjectId| Request::Fullscreen { window, output }).tell(
            |window: ObjectId| Request::InformFullscreen { window },
        )
    }

    #[verifier::opaque]
    pub open spec fn exit_fullscreen(self) -> Staged {
        self.tell(|window: ObjectId| Request::ExitFullscreen { window }).tell(
            |window: ObjectId| Request::InformNotFullscreen { window },
        ).with(WindowView { fullscreen: FullscreenState::Off, ..self.window })
    }

    #[verifier::opaque]
    pub open spec fn inform_maximized(self) -> Staged {
        self.tell(|window: ObjectId| Request::InformMaximized { window })
    }

    #[verifier::opaque]
    pub open spec fn inform_unmaximized(self) -> Staged {
        self.tell(|window: ObjectId| Request::InformUnmaximized { window })
    }

    #[verifier::opaque]
    pub open spec fn clear_maximized_without_restore(self) -> Staged {
        if self.window.maximized {
            self.with(WindowView { maximized: false, ..self.window }).inform_unmaximized()
        } else {
            self
        }
    }

    #[verifier::opaque]
    pub open spec fn unmaximize_restore_size_only(self) -> Staged {
        if self.window.maximized {
            let freed = self.with(
                WindowView { maximized: false, snap_state: None, pre_snap: None, ..self.window },
            );
            match self.window.pre_snap {
                Some(saved) => freed.propose_dimensions(saved.width, saved.height),
                None => freed,
            }.inform_unmaximized()
        } else {
            self
        }
    }

    #[verifier::opaque]
    pub open spec fn set_decoration(self, decoration: WindowDecoration) -> Staged {
        match decoration {
            WindowDecoration::Csd => self.tell(|window: ObjectId| Request::UseCsd { window }),
            WindowDecoration::Ssd => self.tell(|window: ObjectId| Request::UseSsd { window }),
        }
    }

    #[verifier::opaque]
    pub open spec fn set_capabilities(self, capabilities: Capabilities) -> Staged {
        self.tell(|window: ObjectId| Request::SetCapabilities { window, capabilities })
    }

    #[verifier::opaque]
    pub open spec fn set_clip_box(self, x: i32, y: i32, width: i32, height: i32) -> Staged {
        self.tell(|window: ObjectId| Request::SetClipBox { window, x, y, width, height }).with(
            WindowView {
                clip_state: if width > 0 && height > 0 {
                    ClipState::Clipped
                } else {
                    ClipState::Normal
                },
                ..self.window
            },
        )
    }

    #[verifier::opaque]
    pub open spec fn set_content_clip_box(self, x: i32, y: i32, width: i32, height: i32) -> Staged {
        self.tell(|window: ObjectId| Request::SetContentClipBox { window, x, y, width, height })
    }

    #[verifier::opaque]
    pub open spec fn place_top(self) -> Staged {
        self.tell_node(|node: ObjectId| Request::PlaceTop { node })
    }

    #[verifier::opaque]
    pub open spec fn place_bottom(self) -> Staged {
        self.tell_node(|node: ObjectId| Request::PlaceBottom { node })
    }

    #[verifier::opaque]
    pub open spec fn start_move(self, seat: SeatId) -> Staged {
        self.with(
            WindowView {
                operator: Operator::Move {
                    start_x: self.window.x,
                    start_y: self.window.y,
                    seat: Some(seat),
                },
                ..self.window
            },
        )
    }

    #[verifier::opaque]
    pub open spec fn start_resize(self, seat: SeatId, edges: u32) -> Staged {
        self.with(
            WindowView {
                operator: Operator::Resize {
                    start_x: self.window.x,
                    start_y: self.window.y,
                    start_width: self.window.width,
                    start_height: self.window.height,
                    edges,
                    seat: Some(seat),
                },
                ..self.window
            },
        ).tell(|window: ObjectId| Request::InformResizeStart { window })
    }

    #[verifier::opaque]
    pub open spec fn end_operation(self) -> Staged {
        let ended = self.with(WindowView { operator: Operator::Idle, ..self.window });
        if self.window.operator is Resize {
            ended.tell(|window: ObjectId| Request::InformResizeEnd { window })
        } else {
            ended
        }
    }

    /// Moves or resizes by how far the pointer has travelled since the
    /// operation began.
    #[verifier::opaque]
    pub open spec fn apply_op_delta(self, dx: i32, dy: i32) -> Staged {
        match self.window.operator {
            Operator::Move { start_x, start_y, .. } => self.set_position(
                sat(start_x + dx),
                sat(start_y + dy),
            ),
            Operator::Resize { start_x, start_y, start_width, start_height, edges, .. } => {
                let (x, width) = dragged(
                    start_x as int,
                    start_width as int,
                    self.window.min_width as int,
                    dx as int,
                    edges & 4 != 0,
                    edges & 8 != 0,
                );
                let (y, height) = dragged(
                    start_y as int,
                    start_height as int,
                    self.window.min_height as int,
                    dy as int,
                    edges & 1 != 0,
                    edges & 2 != 0,
                );
                let moved = if sat(x) != self.window.x || sat(y) != self.window.y {
                    self.set_position(sat(x), sat(y))
                } else {
                    self
                };
                moved.propose_dimensions(sat(width), sat(height))
            },
            Operator::Idle => self,
        }
    }
}

/// Position and length along one axis after dragging the near or far edge by
/// `delta`. Dragging the near edge keeps the far edge where it was.
pub open spec fn dragged(
    start: int,
    length: int,
    least: int,
    delta: int,
    near: bool,
    far: bool,
) -> (int, int) {
    let near_length = larger(length - delta, least);
    let position = if near {
        start + (length - near_length)
    } else {
        start
    };
    if far {
        (position, larger(length + delta, least))
    } else if near {
        (position, near_length)
    } else {
        (position, length)
    }
}

fn drag(start: i32, length: i32, least: i32, delta: i32, near: bool, far: bool) -> (r: (i64, i64))
    ensures
        (r.0 as int, r.1 as int) == dragged(
            start as int,
            length as int,
            least as int,
            delta as int,
            near,
            far,
        ),
{
    let mut new_length: i64 = length as i64;
    let mut new_start: i64 = start as i64;
    if near {
        new_length = max_i64(length as i64 - delta as i64, least as i64);
        new_start = start as i64 + (length as i64 - new_length);
    }
    if far {
        new_length = max_i64(length as i64 + delta as i64, least as i64);
    }
    (new_start, new_length)
}

impl Window {
    /// The window and the requests, for the contracts of single steps.
    pub open spec fn staged(&self, requests: &Requests) -> Staged {
        Staged { window: self@, requests: requests@ }
    }

    /// Create a new window
    pub fn new(id: WindowId) -> (r: Self)
        ensures
            r@ == fresh_window(id),
    {
        Window {
            id,
            rwm_window: None,
            rwm_node: None,
            output: None,
            pid: 0,
            app_id: None,
            title: None,
            parent: None,
            swallow_top: 0,
            x: 0,
            y: 0,
            width: 0,
            height: 0,
            min_width: 0,
            min_height: 0,
            max_width: 0,
            max_height: 0,
            fullscreen: FullscreenState::Off,
            maximized: false,
            pre_fullscreen: None,
            pre_snap: None,
            snap_state: None,
            pending_unfullscreen_restore: false,
            floating: false,
            hidden: false,
            minimize_seq: 0,
            clip_state: ClipState::Unknown,
            decoration: None,
            decoration_hint: None,
            operator: Operator::Idle,
            unhandled_events: VecDeque::new(),
            position_undefined: true,
            titlebar: None,
            shadow: None,
            titlebar_hovered: None,
            titlebar_pressed: None,
            titlebar_left_down: false,
            needs_configure: true,
            proposed_width: 0,
            proposed_height: 0,
        }
    }

    pub fn geometry(&self) -> (r: SavedGeometry)
        ensures
            r == self@.geometry(),
    {
        SavedGeometry { x: self.x, y: self.y, width: self.width, height: self.height }
    }

    /// Whether minimum and maximum size are the same
    pub fn is_fixed_size(&self) -> (r: bool)
        ensures
            r == self@.fixed_size(),
    {
        self.min_width > 0 && self.min_height > 0 && self.max_width == self.min_width
            && self.max_height == self.min_height
    }

    /// Whether the window can be resized
    pub fn is_resizable(&self) -> (r: bool)
        ensures
            r == self@.resizable(),
    {
        self.parent.is_none() && !self.is_fixed_size()
    }

    /// Whether the titlebar has a minimize button
    pub fn has_minimize_button(&self) -> (r: bool)
        ensures
            r == self@.minimizable(),
    {
        self.parent.is_none()
    }

    /// Whether the titlebar has a maximize button
    pub fn has_maximize_button(&self) -> (r: bool)
        ensures
            r == self@.resizable(),
    {
        self.is_resizable()
    }

    pub fn frame_style(&self) -> (r: FrameStyle)
        ensures
            r == self@.frame_style(),
    {
        if self.parent.is_some() {
            FrameStyle::Dialog
        } else if self.is_fixed_size() {
            FrameStyle::FixedSize
        } else {
            FrameStyle::Normal
        }
    }

    /// What the client is told it may ask for
    ///
    /// Regular windows: full set. Fixed-size toplevels: no maximize/fullscreen,
    /// but minimize stays. Parented dialogs: close only.
    pub fn capabilities(&self) -> (r: Capabilities)
        ensures
            r == self@.capabilities(),
    {
        let resizable = self.has_maximize_button();
        Capabilities {
            window_menu: true,
            maximize: resizable,
            fullscreen: resizable,
            minimize: self.has_minimize_button(),
        }
    }

    /// Propose dimensions for the window
    pub fn propose_dimensions(&mut self, width: i32, height: i32, requests: &mut Requests)
        ensures
            final(self).staged(final(requests)) == old(self).staged(
                old(requests),
            ).propose_dimensions(width, height),
    {
        proof {
            reveal(Staged::propose_dimensions);
            reveal(Staged::propose_raw);
        }
        self.proposed_width = max_i32(width, self.min_width);
        self.proposed_height = max_i32(height, self.min_height);
        if let Some(window) = self.rwm_window {
            requests.push(
                Request::ProposeDimensions {
                    window,
                    width: self.proposed_width,
                    height: self.proposed_height,
                },
            );
        }
    }

    /// Let the window pick its own size
    pub fn propose_preferred_dimensions(&mut self, requests: &mut Requests)
        ensures
            final(self).staged(final(requests)) == old(self).staged(old(requests)).propose_raw(0, 0),
    {
        proof {
            reveal(Staged::propose_raw);
        }
        self.proposed_width = 0;
        self.proposed_height = 0;
        if let Some(window) = self.rwm_window {
            requests.push(Request::ProposeDimensions { window, width: 0, height: 0 });
        }
    }

    /// Set window position
    pub fn set_position(&mut self, x: i32, y: i32, requests: &mut Requests)
        ensures
            final(self).staged(final(requests)) == old(self).staged(old(requests)).set_position(
                x,
                y,
            ),
    {
        proof {
            reveal(Staged::set_position);
        }
        if self.fullscreen == FullscreenState::Off && !self.pending_unfullscreen_restore {
            self.pre_fullscreen = Some(
                match self.pre_fullscreen {
                    Some(saved) => SavedGeometry { x, y, width: saved.width, height: saved.height },
                    None => SavedGeometry { x, y, width: self.width, height: self.height },
                },
            );
        }
        self.x = x;
        self.y = y;
        self.position_undefined = false;
        if let Some(node) = self.rwm_node {
            requests.push(Request::SetPosition { node, x, y });
        }
    }

    /// Move and resize to a remembered geometry
    pub fn restore(&mut self, saved: SavedGeometry, requests: &mut Requests)
        ensures
            final(self).staged(final(requests)) == old(self).staged(old(requests)).restore(saved),
    {
        proof {
            reveal(Staged::restore);
        }
        self.set_position(saved.x, saved.y, requests);
        self.propose_dimensions(saved.width, saved.height, requests);
    }

    /// Restore the geometry from before snapping, if it is known
    pub fn restore_pre_snap(&mut self, requests: &mut Requests)
        ensures
            final(self).staged(final(requests)) == old(self).staged(
                old(requests),
            ).restore_pre_snap(),
    {
        proof {
            reveal(Staged::restore_pre_snap);
        }
        if let Some(saved) = self.pre_snap {
            self.pre_snap = None;
            self.restore(saved, requests);
        }
    }

    /// Update window dimensions (called when compositor confirms dimensions)
    pub fn update_dimensions(&mut self, width: i32, height: i32)
        ensures
            final(self)@ == old(self)@.sized(width, height),
    {
        self.width = width;
        self.height = height;
        if self.fullscreen == FullscreenState::Off && !self.pending_unfullscreen_restore {
            self.pre_fullscreen = Some(SavedGeometry { x: self.x, y: self.y, width, height });
        }
    }

    /// Set the number of pixels to swallow from the top of the window
    pub fn set_swallow_top(&mut self, swallow_top: i32)
        ensures
            final(self)@ == (WindowView {
                swallow_top: larger(swallow_top as int, 0) as i32,
                ..old(self)@
            }),
    {
        self.swallow_top = max_i32(swallow_top, 0);
    }

    /// Hide the window
    pub fn conceal(&mut self, requests: &mut Requests)
        ensures
            final(self).staged(final(requests)) == old(self).staged(old(requests)).conceal(),
    {
        proof {
            reveal(Staged::conceal);
        }
        if !self.hidden {
            self.hidden = true;
            if let Some(window) = self.rwm_window {
                requests.push(Request::Hide { window });
            }
        }
    }

    /// Force the titlebar to be drawn again
    pub fn mark_titlebar_dirty(&mut self)
        ensures
            final(self)@ == old(self)@.titlebar_stale(),
    {
        if let Some(titlebar) = &mut self.titlebar {
            titlebar.dirty = true;
        }
    }

    /// Show the window
    ///
    /// The titlebar is drawn and committed again on the next render sequence:
    /// without a fresh commit its surface would stay unmapped and receive no
    /// pointer events.
    pub fn show(&mut self, requests: &mut Requests)
        ensures
            final(self).staged(final(requests)) == old(self).staged(old(requests)).show(),
    {
        proof {
            reveal(Staged::show);
        }
        if self.hidden {
            self.hidden = false;
            if let Some(window) = self.rwm_window {
                requests.push(Request::Show { window });
            }
            self.mark_titlebar_dirty();
        }
    }

    /// Request window close
    pub fn close(&self, requests: &mut Requests)
        ensures
            self.staged(final(requests)) == self.staged(old(requests)).close(),
    {
        proof {
            reveal(Staged::close);
        }
        if let Some(window) = self.rwm_window {
            requests.push(Request::Close { window });
        }
    }

    /// Set window borders
    pub fn set_borders(&self, edges: u32, width: i32, r: u32, g: u32, b: u32, a: u32, requests: &mut Requests)
        ensures
            self.staged(final(requests)) == self.staged(old(requests)).set_borders(
                edges,
                width,
                r,
                g,
                b,
                a,
            ),
    {
        proof {
            reveal(Staged::set_borders);
        }
        if let Some(window) = self.rwm_window {
            requests.push(Request::SetBorders { window, edges, width, r, g, b, a });
        }
    }

    /// Set window tiled edges
    pub fn set_tiled(&self, edges: u32, requests: &mut Requests)
        ensures
            self.staged(final(requests)) == self.staged(old(requests)).set_tiled(edges),
    {
        proof {
            reveal(Staged::set_tiled);
        }
        if let Some(window) = self.rwm_window {
            requests.push(Request::SetTiled { window, edges });
        }
    }

    /// Request fullscreen on output
    pub fn fullscreen_on(&mut self, output: ObjectId, requests: &mut Requests)
        ensures
            final(self).staged(final(requests)) == old(self).staged(old(requests)).fullscreen_on(
                output,
            ),
    {
        proof {
            reveal(Staged::fullscreen_on);
        }
        if let Some(window) = self.rwm_window {
            requests.push(Request::Fullscreen { window, output });
            requests.push(Request::InformFullscreen { window });
        }
    }

    /// Exit fullscreen
    pub fn exit_fullscreen(&mut self, requests: &mut Requests)
        ensures
            final(self).staged(final(requests)) == old(self).staged(
                old(requests),
            ).exit_fullscreen(),
    {
        proof {
            reveal(Staged::exit_fullscreen);
        }
        if let Some(window) = self.rwm_window {
            requests.push(Request::ExitFullscreen { window });
            requests.push(Request::InformNotFullscreen { window });
        }
        self.fullscreen = FullscreenState::Off;
    }

    /// Inform window it's maximized
    pub fn inform_maximized(&self, requests: &mut Requests)
        ensures
            self.staged(final(requests)) == self.staged(old(requests)).inform_maximized(),
    {
        proof {
            reveal(Staged::inform_maximized);
        }
        if let Some(window) = self.rwm_window {
            requests.push(Request::InformMaximized { window });
        }
    }

    /// Inform window it's unmaximized
    pub fn inform_unmaximized(&self, requests: &mut Requests)
        ensures
            self.staged(final(requests)) == self.staged(old(requests)).inform_unmaximized(),
    {
        proof {
            reveal(Staged::inform_unmaximized);
        }
        if let Some(window) = self.rwm_window {
            requests.push(Request::InformUnmaximized { window });
        }
    }

    pub fn clear_maximized_without_restore(&mut self, requests: &mut Requests)
        ensures
            final(self).staged(final(requests)) == old(self).staged(
                old(requests),
            ).clear_maximized_without_restore(),
    {
        proof {
            reveal(Staged::clear_maximized_without_restore);
        }
        if self.maximized {
            self.maximized = false;
            self.inform_unmaximized(requests);
        }
    }

    pub fn unmaximize_restore_size_only(&mut self, requests: &mut Requests)
        ensures
            final(self).staged(final(requests)) == old(self).staged(
                old(requests),
            ).unmaximize_restore_size_only(),
    {
        proof {
            reveal(Staged::unmaximize_restore_size_only);
        }
        if self.maximized {
            self.maximized = false;
            self.snap_state = None;
            if let Some(saved) = self.pre_snap {
                self.pre_snap = None;
                self.propose_dimensions(saved.width, saved.height, requests);
            }
            self.inform_unmaximized(requests);
        }
    }

    /// Set decoration mode
    pub fn set_decoration(&self, decoration: WindowDecoration, requests: &mut Requests)
        ensures
            self.staged(final(requests)) == self.staged(old(requests)).set_decoration(decoration),
    {
        proof {
            reveal(Staged::set_decoration);
        }
        if let Some(window) = self.rwm_window {
            match decoration {
                WindowDecoration::Csd => requests.push(Request::UseCsd { window }),
                WindowDecoration::Ssd => requests.push(Request::UseSsd { window }),
            }
        }
    }

    /// Tell the client which operations apply to it
    pub fn set_capabilities(&self, capabilities: Capabilities, requests: &mut Requests)
        ensures
            self.staged(final(requests)) == self.staged(old(requests)).set_capabilities(
                capabilities,
            ),
    {
        proof {
            reveal(Staged::set_capabilities);
        }
        if let Some(window) = self.rwm_window {
            requests.push(Request::SetCapabilities { window, capabilities });
        }
    }

    /// Set clip box for rendering
    pub fn set_clip_box(&mut self, x: i32, y: i32, width: i32, height: i32, requests: &mut Requests)
        ensures
            final(self).staged(final(requests)) == old(self).staged(old(requests)).set_clip_box(
                x,
                y,
                width,
                height,
            ),
    {
        proof {
            reveal(Staged::set_clip_box);
        }
        if let Some(window) = self.rwm_window {
            requests.push(Request::SetClipBox { window, x, y, width, height });
        }
        self.clip_state = if width > 0 && height > 0 {
            ClipState::Clipped
        } else {
            ClipState::Normal
        };
    }

    /// Set clip box for content rendering (excludes decorations)
    pub fn set_content_clip_box(&mut self, x: i32, y: i32, width: i32, height: i32, requests: &mut Requests)
        ensures
            final(self).staged(final(requests)) == old(self).staged(
                old(requests),
            ).set_content_clip_box(x, y, width, height),
    {
        proof {
            reveal(Staged::set_content_clip_box);
        }
        if let Some(window) = self.rwm_window {
            requests.push(Request::SetContentClipBox { window, x, y, width, height });
        }
    }

    /// Clear clip box
    pub fn clear_clip_box(&mut self, requests: &mut Requests)
        ensures
            final(self).staged(final(requests)) == old(self).staged(old(requests)).set_clip_box(
                0,
                0,
                0,
                0,
            ),
    {
        self.set_clip_box(0, 0, 0, 0, requests);
    }

    /// Place this window's node above another
    pub fn place_above(&self, other: &Window, requests: &mut Requests)
        ensures
            final(requests)@ == placed(
                old(requests)@,
                self.rwm_node,
                other.rwm_node,
                |node: ObjectId, other: ObjectId| Request::PlaceAbove { node, other },
            ),
    {
        if let Some(node) = self.rwm_node {
            if let Some(other) = other.rwm_node {
                requests.push(Request::PlaceAbove { node, other });
            }
        }
    }

    /// Place this window's node below another
    pub fn place_below(&self, other: &Window, requests: &mut Requests)
        ensures
            final(requests)@ == placed(
                old(requests)@,
                self.rwm_node,
                other.rwm_node,
                |node: ObjectId, other: ObjectId| Request::PlaceBelow { node, other },
            ),
    {
        if let Some(node) = self.rwm_node {
            if let Some(other) = other.rwm_node {
                requests.push(Request::PlaceBelow { node, other });
            }
        }
    }

    /// Place this window at top of render list
    pub fn place_top(&self, requests: &mut Requests)
        ensures
            self.staged(final(requests)) == self.staged(old(requests)).place_top(),
    {
        proof {
            reveal(Staged::place_top);
        }
        if let Some(node) = self.rwm_node {
            requests.push(Request::PlaceTop { node });
        }
    }

    /// Place this window at bottom of render list
    pub fn place_bottom(&self, requests: &mut Requests)
        ensures
            self.staged(final(requests)) == self.staged(old(requests)).place_bottom(),
    {
        proof {
            reveal(Staged::place_bottom);
        }
        if let Some(node) = self.rwm_node {
            requests.push(Request::PlaceBottom { node });
        }
    }

    /// Queue an event for processing during manage phase
    pub fn queue_event(&mut self, event: WindowEvent)
        ensures
            final(self)@ == (WindowView {
                unhandled_events: old(self)@.unhandled_events.push(event),
                ..old(self)@
            }),
    {
        self.unhandled_events.push_back(event);
    }

    /// Process queued events
    pub fn handle_events(&mut self) -> (events: Vec<WindowEvent>)
        ensures
            events@ == old(self)@.unhandled_events,
            final(self)@ == (WindowView { unhandled_events: Seq::empty(), ..old(self)@ }),
    {
        let mut events: Vec<WindowEvent> = Vec::new();
        let ghost queued = self.unhandled_events@;
        while self.unhandled_events.len() > 0
            invariant
                events@ + self.unhandled_events@ == queued,
                queued == old(self)@.unhandled_events,
                self@ == (WindowView { unhandled_events: self.unhandled_events@, ..old(self)@ }),
            decreases self.unhandled_events@.len(),
        {
            if let Some(event) = self.unhandled_events.pop_front() {
                events.push(event);
            }
            assert(events@ + self.unhandled_events@ =~= queued);
        }
        assert(self.unhandled_events@ =~= Seq::empty());
        assert(events@ =~= queued);
        events
    }

    /// Start a move operation
    pub fn start_move(&mut self, seat: SeatId, requests: &mut Requests)
        ensures
            final(self).staged(final(requests)) == old(self).staged(old(requests)).start_move(seat),
    {
        proof {
            reveal(Staged::start_move);
        }
        self.operator = Operator::Move { start_x: self.x, start_y: self.y, seat: Some(seat) };
    }

    /// Start a resize operation
    pub fn start_resize(&mut self, seat: SeatId, edges: u32, requests: &mut Requests)
        ensures
            final(self).staged(final(requests)) == old(self).staged(old(requests)).start_resize(
                seat,
                edges,
            ),
    {
        proof {
            reveal(Staged::start_resize);
        }
        self.operator = Operator::Resize {
            start_x: self.x,
            start_y: self.y,
            start_width: self.width,
            start_height: self.height,
            edges,
            seat: Some(seat),
        };
        if let Some(window) = self.rwm_window {
            requests.push(Request::InformResizeStart { window });
        }
    }

    /// End current operation
    pub fn end_operation(&mut self, requests: &mut Requests)
        ensures
            final(self).staged(final(requests)) == old(self).staged(old(requests)).end_operation(),
    {
        proof {
            reveal(Staged::end_operation);
        }
        if let Operator::Resize { .. } = self.operator {
            if let Some(window) = self.rwm_window {
                requests.push(Request::InformResizeEnd { window });
            }
        }
        self.operator = Operator::Idle;
    }

    /// Apply operation delta
    pub fn apply_op_delta(&mut self, dx: i32, dy: i32, requests: &mut Requests)
        ensures
            final(self).staged(final(requests)) == old(self).staged(old(requests)).apply_op_delta(
                dx,
                dy,
            ),
    {
        proof {
            reveal(Staged::apply_op_delta);
        }
        match self.operator {
            Operator::Move { start_x, start_y, seat } => {
                let x: i32 = to_i32(start_x as i64 + dx as i64);
                let y: i32 = to_i32(start_y as i64 + dy as i64);
                self.set_position(x, y, requests);
            },
            Operator::Resize { start_x, start_y, start_width, start_height, edges, seat } => {
                let (x, width): (i64, i64) = drag(
                    start_x,
                    start_width,
                    self.min_width,
                    dx,
                    edges & 4 != 0,
                    edges & 8 != 0,
                );
                let (y, height): (i64, i64) = drag(
                    start_y,
                    start_height,
                    self.min_height,
                    dy,
                    edges & 1 != 0,
                    edges & 2 != 0,
                );
                let x: i32 = to_i32(x);
                let y: i32 = to_i32(y);
                if x != self.x || y != self.y {
                    self.set_position(x, y, requests);
                }
                self.propose_dimensions(to_i32(width), to_i32(height), requests);
            },
            Operator::Idle => {},
        }
    }
}

/// The requests with the relative placement of two nodes behind them, if both
/// nodes are there.
pub open spec fn placed(
    requests: Seq<RequestView>,
    node: Option<ObjectId>,
    other: Option<ObjectId>,
    request: spec_fn(ObjectId, ObjectId) -> Request,
) -> Seq<RequestView> {
    match (node, other) {
        (Some(node), Some(other)) => requests.push(request(node, other)@),
        _ => requests,
    }
}

} // verus!
