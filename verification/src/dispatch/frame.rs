//! What happens to the frame of each window in a render sequence.

use vstd::prelude::*;
use crate::canoe::context::{Context, ContextView};
use crate::canoe::titlebar::{
    border_width, spec_border_width, spec_titlebar_height, titlebar_height,
};
use crate::canoe::titlebar_picture::TitlebarLook;
use crate::canoe::window::WindowView;
use crate::config::WindowDecoration;
use crate::dispatch::globals::{Globals, GlobalsView};
use crate::num::{larger, max_i32, max_i64, sat, to_i32};

verus! {

/// What is to be done with the frame of a window.
#[derive(Debug, Clone, Copy, PartialEq, Eq, Structural)]
pub enum FrameStep {
    /// Nothing.
    Keep,
    /// Take it off the screen.
    Unmap,
    /// Draw it, around contents of some size, if what it shows changed.
    Draw {
        content_width: i32,
        content_height: i32,
        scale: i32,
        look: TitlebarLook,
        /// Where the frame goes, relative to the contents.
        x: i32,
        y: i32,
    },
}

/// The largest scale among some outputs, at least one.
pub open spec fn largest_scale(names: Seq<u32>, g: GlobalsView) -> i32
    decreases names.len(),
{
    if names.len() == 0 {
        1
    } else {
        larger(largest_scale(names.drop_last(), g) as int, g.scale_of(names.last()) as int) as i32
    }
}

fn max_scale(names: &Vec<u32>, globals: &Globals) -> (r: i32)
    ensures
        r == largest_scale(names@, globals@),
{
    let mut r: i32 = 1;
    let mut i: usize = 0;
    assert(names@.take(0) =~= Seq::empty());
    while i < names.len()
        invariant
            i <= names@.len(),
            r == largest_scale(names@.take(i as int), globals@),
        decreases names@.len() - i,
    {
        assert(names@.take(i as int + 1).drop_last() =~= names@.take(i as int));
        r = max_i32(r, globals.scale_of(names[i]));
        i = i + 1;
    }
    assert(names@.take(i as int) =~= names@);
    r
}

impl ContextView {
    /// The scale at which the frame of a window is drawn: the largest of the
    /// outputs that it is on, or that of the window's own output.
    pub open spec fn frame_scale(self, w: WindowView, names: Seq<u32>, g: GlobalsView) -> i32 {
        if names.len() > 0 {
            largest_scale(names, g)
        } else {
            match w.output {
                Some(id) => match self.output(id) {
                    Some(o) => o.scale,
                    None => 1,
                },
                None => 1,
            }
        }
    }

    /// What the frame of a window is to show.
    pub open spec fn frame_look(self, w: WindowView) -> TitlebarLook {
        TitlebarLook {
            is_active: self.focused_window == Some(w.id),
            is_maximized: w.maximized,
            show_minimize: w.minimizable(),
            show_maximize: w.resizable(),
            frame_style: w.frame_style(),
            hovered: w.titlebar_hovered,
            left_down: w.titlebar_left_down,
        }
    }

    /// What is to be done with the frame of a window. Hidden windows and
    /// windows that decorate themselves have none.
    pub open spec fn frame_step(self, i: int, g: GlobalsView) -> FrameStep {
        let w = self.windows[i];
        let border = spec_border_width(self.config.ui.border_width, w.frame_style());
        match w.titlebar {
            Some(titlebar) => if !g.shm {
                FrameStep::Keep
            } else if w.hidden || w.decoration == Some(WindowDecoration::Csd) {
                if titlebar.mapped {
                    FrameStep::Unmap
                } else {
                    FrameStep::Keep
                }
            } else if w.width > 0 && w.height > 0 {
                FrameStep::Draw {
                    content_width: w.width,
                    content_height: sat(larger(w.height - w.swallow_top, 1)),
                    scale: self.frame_scale(w, titlebar.output_names, g),
                    look: self.frame_look(w),
                    x: sat(-border),
                    y: sat(
                        -border - spec_titlebar_height(self.config.ui.font_size) + w.swallow_top,
                    ),
                }
            } else {
                FrameStep::Keep
            },
            None => FrameStep::Keep,
        }
    }
}

impl Context {
    fn frame_scale(&self, i: usize, names: &Vec<u32>, globals: &Globals) -> (r: i32)
        requires
            i < self.windows@.len(),
        ensures
            r == self@.frame_scale(self.windows@[i as int]@, names@, globals@),
    {
        if names.len() > 0 {
            return max_scale(names, globals);
        }
        if let Some(id) = self.windows[i].output {
            if let Some(k) = self.find_output(id) {
                return self.outputs[k].scale;
            }
        }
        1
    }

    /// What is to be done with the frame of a window
    pub fn frame_step(&self, i: usize, globals: &Globals) -> (r: FrameStep)
        requires
            i < self.windows@.len(),
        ensures
            r == self@.frame_step(i as int, globals@),
    {
        assert(self@.windows[i as int] == self.windows@[i as int]@);
        let w = &self.windows[i];
        if let Some(titlebar) = &w.titlebar {
            if !globals.shm {
                return FrameStep::Keep;
            }
            if w.hidden || w.decoration == Some(WindowDecoration::Csd) {
                return if titlebar.mapped {
                    FrameStep::Unmap
                } else {
                    FrameStep::Keep
                };
            }
            if w.width > 0 && w.height > 0 {
                let border: i64 = border_width(&self.config.ui, w.frame_style()) as i64;
                let title: i64 = titlebar_height(&self.config.ui) as i64;
                let look = TitlebarLook {
                    is_active: self.focused_window == Some(w.id),
                    is_maximized: w.maximized,
                    show_minimize: w.has_minimize_button(),
                    show_maximize: w.has_maximize_button(),
                    frame_style: w.frame_style(),
                    hovered: w.titlebar_hovered,
                    left_down: w.titlebar_left_down,
                };
                return FrameStep::Draw {
                    content_width: w.width,
                    content_height: to_i32(
                        max_i64(w.height as i64 - w.swallow_top as i64, 1),
                    ),
                    scale: self.frame_scale(i, &titlebar.output_names, globals),
                    look,
                    x: to_i32(0 - border),
                    y: to_i32(0 - border - title + w.swallow_top as i64),
                };
            }
        }
        FrameStep::Keep
    }
}

} // verus!
