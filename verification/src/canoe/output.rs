//! Output (monitor) management

use vstd::prelude::*;
use crate::canoe::desktop::{DesktopSurface, DesktopView};
use crate::canoe::OutputId;
use crate::protocol::ObjectId;

verus! {

/// A rectangle as x, y, width, height.
pub type Area = (i32, i32, i32, i32);

/// A managed output
#[derive(Debug)]
pub struct Output {
    /// Unique output ID
    pub id: OutputId,
    /// River output protocol object
    pub rwm_output: Option<ObjectId>,
    /// Layer shell output object
    pub layer_shell_output: Option<ObjectId>,
    /// Wayland output object
    pub wl_output: Option<ObjectId>,
    /// Global name of the wl_output
    pub wl_output_name: u32,
    pub x: i32,
    pub y: i32,
    pub width: i32,
    pub height: i32,
    /// Output scale factor
    pub scale: i32,
    /// The part of the output that panels leave free, if they reported one
    pub exclusive_area: Option<Area>,
    /// Desktop background surface
    pub desktop_surface: Option<DesktopSurface>,
}

/// An [`Output`] by its contents.
#[verifier::ext_equal]
pub struct OutputView {
    pub id: OutputId,
    pub rwm_output: Option<ObjectId>,
    pub layer_shell_output: Option<ObjectId>,
    pub wl_output: Option<ObjectId>,
    pub wl_output_name: u32,
    pub x: i32,
    pub y: i32,
    pub width: i32,
    pub height: i32,
    pub scale: i32,
    pub exclusive_area: Option<Area>,
    pub desktop_surface: Option<DesktopView>,
}

impl View for Output {
    type V = OutputView;

    open spec fn view(&self) -> OutputView {
        OutputView {
            id: self.id,
            rwm_output: self.rwm_output,
            layer_shell_output: self.layer_shell_output,
            wl_output: self.wl_output,
            wl_output_name: self.wl_output_name,
            x: self.x,
            y: self.y,
            width: self.width,
            height: self.height,
            scale: self.scale,
            exclusive_area: self.exclusive_area,
            desktop_surface: match self.desktop_surface {
                Some(desktop) => Some(desktop@),
                None => None,
            },
        }
    }
}

/// What a new output looks like.
pub open spec fn fresh_output(id: OutputId) -> OutputView {
    OutputView {
        id,
        rwm_output: None,
        layer_shell_output: None,
        wl_output: None,
        wl_output_name: 0,
        x: 0,
        y: 0,
        width: 0,
        height: 0,
        scale: 1,
        exclusive_area: None,
        desktop_surface: None,
    }
}

impl OutputView {
    /// The area that windows may use.
    pub open spec fn usable_area(self) -> Area {
        match self.exclusive_area {
            Some(area) => area,
            None => (self.x, self.y, self.width, self.height),
        }
    }

    /// Whether the point lies on the output; its right and bottom edges do not.
    pub open spec fn contains_point(self, x: int, y: int) -> bool {
        self.x <= x < self.x + self.width && self.y <= y < self.y + self.height
    }

    /// The output with its desktop, if it has one, marked for redrawing.
    pub open spec fn desktop_stale(self) -> OutputView {
        OutputView {
            desktop_surface: match self.desktop_surface {
                Some(desktop) => Some(DesktopView { dirty: true, ..desktop }),
                None => None,
            },
            ..self
        }
    }

    /// The output with `icon` selected on its desktop, if it has one.
    pub open spec fn icon_selected(self, icon: Option<usize>) -> OutputView {
        OutputView {
            desktop_surface: match self.desktop_surface {
                Some(desktop) => Some(DesktopView { selected_icon: icon, dirty: true, ..desktop }),
                None => None,
            },
            ..self
        }
    }
}

impl Output {
    /// Create a new output
    pub fn new(id: OutputId) -> (r: Self)
        ensures
            r@ == fresh_output(id),
    {
        Output {
            id,
            rwm_output: None,
            layer_shell_output: None,
            wl_output: None,
            wl_output_name: 0,
            x: 0,
            y: 0,
            width: 0,
            height: 0,
            scale: 1,
            exclusive_area: None,
            desktop_surface: None,
        }
    }

    /// The area that windows may use
    pub fn usable_area(&self) -> (r: Area)
        ensures
            r == self@.usable_area(),
    {
        match self.exclusive_area {
            Some(area) => area,
            None => (self.x, self.y, self.width, self.height),
        }
    }

    /// Whether a point lies on the output
    pub fn contains_point(&self, x: i64, y: i64) -> (r: bool)
        ensures
            r == self@.contains_point(x as int, y as int),
    {
        x >= self.x as i64 && x < self.x as i64 + self.width as i64 && y >= self.y as i64 && y
            < self.y as i64 + self.height as i64
    }

    pub fn update_position(&mut self, x: i32, y: i32)
        ensures
            final(self)@ == (OutputView { x, y, ..old(self)@ }),
    {
        self.x = x;
        self.y = y;
    }

    pub fn update_dimensions(&mut self, width: i32, height: i32)
        ensures
            final(self)@ == (OutputView { width, height, ..old(self)@ }),
    {
        self.width = width;
        self.height = height;
    }

    pub fn update_exclusive_area(&mut self, x: i32, y: i32, width: i32, height: i32)
        ensures
            final(self)@ == (OutputView {
                exclusive_area: Some((x, y, width, height)),
                ..old(self)@
            }),
    {
        self.exclusive_area = Some((x, y, width, height));
    }

    /// Mark the desktop as needing to be drawn again
    pub fn mark_desktop_dirty(&mut self)
        ensures
            final(self)@ == old(self)@.desktop_stale(),
    {
        if let Some(desktop) = &mut self.desktop_surface {
            desktop.dirty = true;
        }
    }

    /// Select an icon on the desktop, or none
    pub fn select_icon(&mut self, icon: Option<usize>)
        ensures
            final(self)@ == old(self)@.icon_selected(icon),
    {
        if let Some(desktop) = &mut self.desktop_surface {
            desktop.selected_icon = icon;
            desktop.dirty = true;
        }
    }
}

} // verus!
