//! Desktop background surface for pointer input and minimized window icons.

use vstd::prelude::*;
use crate::canoe::{OutputId, WindowId};
use crate::num::{larger, max_i32, sat, to_i32};
use crate::protocol::ObjectId;
use crate::text::opt_text;
use crate::search::{first, lemma_first_is, lemma_first_none};

verus! {

// Icon layout constants (logical pixels, scaled by output scale)
pub const ICON_SIZE: i32 = 32;

pub const ICON_LABEL_HEIGHT: i32 = 14;

pub const ICON_CELL_WIDTH: i32 = 64;

pub const ICON_CELL_HEIGHT: i32 = 50;

pub const ICON_MARGIN: i32 = 4;

/// Side of an icon in pixels, on an output of some scale.
pub fn icon_size_px(scale: i32) -> (r: i32)
    ensures
        r == sat(ICON_SIZE * larger(scale as int, 1)),
{
    to_i32(ICON_SIZE as i64 * max_i32(scale, 1) as i64)
}

/// Data for a minimized window icon.
#[derive(Debug)]
pub struct DesktopIcon {
    pub window_id: WindowId,
    pub title: String,
    pub app_id: Option<String>,
    /// Names the image of the application, once one was found.
    pub icon: Option<usize>,
}

/// A [`DesktopIcon`] by its contents.
pub struct DesktopIconView {
    pub window_id: WindowId,
    pub title: Seq<char>,
    pub app_id: Option<Seq<char>>,
    pub icon: Option<usize>,
}

impl View for DesktopIcon {
    type V = DesktopIconView;

    open spec fn view(&self) -> DesktopIconView {
        DesktopIconView {
            window_id: self.window_id,
            title: self.title@,
            app_id: opt_text(self.app_id),
            icon: self.icon,
        }
    }
}

pub open spec fn icon_views(s: Seq<DesktopIcon>) -> Seq<DesktopIconView> {
    s.map_values(|icon: DesktopIcon| icon@)
}

/// Computed icon position on the desktop surface.
#[derive(Debug, Clone, Copy, PartialEq, Eq, Structural)]
pub struct DesktopIconLayout {
    pub window_id: WindowId,
    pub x: i32,
    pub y: i32,
}

/// Desktop surface with minimized window icons.
#[derive(Debug)]
pub struct DesktopSurface {
    pub surface: ObjectId,
    pub layer_surface: ObjectId,
    /// Whether a buffer exists.
    pub buffer: bool,
    pub width: i32,
    pub height: i32,
    pub buf_width: i32,
    pub buf_height: i32,
    pub configured: bool,
    pub output_id: OutputId,
    pub selected_icon: Option<WindowId>,
    pub icon_cols: i32,
    pub icons: Vec<DesktopIconLayout>,
    pub dirty: bool,
}

/// A [`DesktopSurface`] by its contents.
#[verifier::ext_equal]
pub struct DesktopView {
    pub surface: ObjectId,
    pub layer_surface: ObjectId,
    pub buffer: bool,
    pub width: i32,
    pub height: i32,
    pub buf_width: i32,
    pub buf_height: i32,
    pub configured: bool,
    pub output_id: OutputId,
    pub selected_icon: Option<WindowId>,
    pub icon_cols: i32,
    pub icons: Seq<DesktopIconLayout>,
    pub dirty: bool,
}

impl View for DesktopSurface {
    type V = DesktopView;

    open spec fn view(&self) -> DesktopView {
        DesktopView {
            surface: self.surface,
            layer_surface: self.layer_surface,
            buffer: self.buffer,
            width: self.width,
            height: self.height,
            buf_width: self.buf_width,
            buf_height: self.buf_height,
            configured: self.configured,
            output_id: self.output_id,
            selected_icon: self.selected_icon,
            icon_cols: self.icon_cols,
            icons: self.icons@,
            dirty: self.dirty,
        }
    }
}

/// What a new desktop surface looks like.
pub open spec fn fresh_desktop(
    surface: ObjectId,
    layer_surface: ObjectId,
    output_id: OutputId,
) -> DesktopView {
    DesktopView {
        surface,
        layer_surface,
        buffer: false,
        width: 0,
        height: 0,
        buf_width: 0,
        buf_height: 0,
        configured: false,
        output_id,
        selected_icon: None,
        icon_cols: 1,
        icons: Seq::empty(),
        dirty: true,
    }
}

/// Holds of the icons whose cell contains the point.
pub open spec fn cell_has(x: i32, y: i32) -> spec_fn(DesktopIconLayout) -> bool {
    |l: DesktopIconLayout|
        l.x <= x < l.x + ICON_CELL_WIDTH && l.y <= y < l.y + ICON_CELL_HEIGHT
}

/// Holds of the icons of a window.
pub open spec fn icon_of(window_id: WindowId) -> spec_fn(DesktopIconLayout) -> bool {
    |l: DesktopIconLayout| l.window_id == window_id
}

impl DesktopView {
    /// The window whose icon is at a point.
    pub open spec fn icon_at(self, x: i32, y: i32) -> Option<WindowId> {
        match first(self.icons, cell_has(x, y)) {
            Some(i) => Some(self.icons[i].window_id),
            None => None,
        }
    }

    /// The place of the selected icon.
    pub open spec fn selected_index(self) -> Option<int> {
        match self.selected_icon {
            Some(id) => first(self.icons, icon_of(id)),
            None => None,
        }
    }
}

impl DesktopSurface {
    pub fn new(surface: ObjectId, layer_surface: ObjectId, output_id: OutputId) -> (r: Self)
        ensures
            r@ == fresh_desktop(surface, layer_surface, output_id),
    {
        let r = DesktopSurface {
            surface,
            layer_surface,
            buffer: false,
            width: 0,
            height: 0,
            buf_width: 0,
            buf_height: 0,
            configured: false,
            output_id,
            selected_icon: None,
            icon_cols: 1,
            icons: Vec::new(),
            dirty: true,
        };
        assert(r@ =~= fresh_desktop(surface, layer_surface, output_id));
        r
    }

    /// The compositor gave the surface a size
    pub fn configure(&mut self, width: i32, height: i32)
        ensures
            final(self)@ == (DesktopView {
                width: if width > 1 {
                    width
                } else {
                    1
                },
                height: if height > 1 {
                    height
                } else {
                    1
                },
                configured: true,
                dirty: true,
                ..old(self)@
            }),
    {
        self.width = max_i32(width, 1);
        self.height = max_i32(height, 1);
        self.configured = true;
        self.dirty = true;
    }

    /// Give the buffer up
    pub fn reset_buffer(&mut self)
        ensures
            final(self)@ == (DesktopView { buffer: false, dirty: true, ..old(self)@ }),
    {
        self.buffer = false;
        self.dirty = true;
    }

    /// Hit test: return the window id of the icon at the given surface-local coordinates.
    /// Coordinates are in logical (surface-local) pixels; layouts are stored in logical pixels.
    pub fn icon_at(&self, x: i32, y: i32, _scale: i32) -> (r: Option<WindowId>)
        ensures
            r == self@.icon_at(x, y),
    {
        let mut i: usize = 0;
        while i < self.icons.len()
            invariant
                i <= self.icons@.len(),
                forall|j: int| 0 <= j < i ==> !cell_has(x, y)(#[trigger] self.icons@[j]),
            decreases self.icons@.len() - i,
        {
            let layout = &self.icons[i];
            if x >= layout.x && (x as i64) < layout.x as i64 + ICON_CELL_WIDTH as i64 && y
                >= layout.y && (y as i64) < layout.y as i64 + ICON_CELL_HEIGHT as i64 {
                proof {
                    lemma_first_is(self.icons@, cell_has(x, y), i as int);
                }
                return Some(layout.window_id);
            }
            i = i + 1;
        }
        proof {
            lemma_first_none(self.icons@, cell_has(x, y));
        }
        None
    }

    /// Find the index of the currently selected icon.
    pub fn selected_icon_index(&self) -> (r: Option<usize>)
        ensures
            (match r {
                Some(i) => Some(i as int),
                None => None,
            }) == self@.selected_index(),
            r matches Some(i) ==> i < self@.icons.len(),
    {
        let selected: WindowId = match self.selected_icon {
            Some(id) => id,
            None => return None,
        };
        let mut i: usize = 0;
        while i < self.icons.len()
            invariant
                i <= self.icons@.len(),
                self.selected_icon == Some(selected),
                forall|j: int| 0 <= j < i ==> !icon_of(selected)(#[trigger] self.icons@[j]),
            decreases self.icons@.len() - i,
        {
            if self.icons[i].window_id == selected {
                proof {
                    lemma_first_is(self.icons@, icon_of(selected), i as int);
                }
                return Some(i);
            }
            i = i + 1;
        }
        proof {
            lemma_first_none(self.icons@, icon_of(selected));
        }
        None
    }

    /// Get the window id at a given index in the icons list.
    pub fn icon_window_at_index(&self, idx: usize) -> (r: Option<WindowId>)
        ensures
            r == (if idx < self@.icons.len() {
                Some(self@.icons[idx as int].window_id)
            } else {
                None
            }),
    {
        if idx < self.icons.len() {
            Some(self.icons[idx].window_id)
        } else {
            None
        }
    }

    /// Get the number of icons.
    pub fn icon_count(&self) -> (r: usize)
        ensures
            r == self@.icons.len(),
    {
        self.icons.len()
    }
}

} // verus!
