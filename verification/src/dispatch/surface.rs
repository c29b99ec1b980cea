//! Events of the surfaces that the window manager owns.

use vstd::prelude::*;
use crate::canoe::context::{Context, ContextView};
use crate::canoe::desktop::{DesktopSurface, DesktopView};
use crate::canoe::menu::{MenuView, WindowMenu};
use crate::canoe::output::OutputView;
use crate::canoe::shield::ShieldSurface;
use crate::canoe::titlebar::{Titlebar, TitlebarView};
use crate::canoe::window::{Window, WindowView};
use crate::canoe::{LayerSurfaceKind, OutputId, WindowId};
use crate::dispatch::globals::{Globals, GlobalsView};
use crate::protocol::{ObjectId, Request};

verus! {

impl DesktopView {
    /// With the size that the compositor gave it. A buffer of another size is
    /// given up.
    pub open spec fn resized(self, width: i32, height: i32) -> DesktopView {
        DesktopView {
            buffer: self.buffer && self.width == width && self.height == height,
            width: if width > 1 {
                width
            } else {
                1
            },
            height: if height > 1 {
                height
            } else {
                1
            },
            configured: true,
            dirty: true,
            ..self
        }
    }
}

impl DesktopSurface {
    /// Take the size that the compositor gave the surface
    pub fn resize(&mut self, width: i32, height: i32)
        ensures
            final(self)@ == old(self)@.resized(width, height),
    {
        if self.width != width || self.height != height {
            self.reset_buffer();
        }
        self.configure(width, height);
    }
}

impl MenuView {
    /// With the size that the compositor gave it, unless that leaves the choice
    /// to the menu.
    pub open spec fn resized(self, width: i32, height: i32) -> MenuView {
        if width > 0 && height > 0 && !(self.width == width && self.height == height) {
            MenuView { buffer: false, width, height, configured: true, ..self }
        } else {
            MenuView { configured: true, ..self }
        }
    }
}

impl WindowMenu {
    /// Take the size that the compositor gave the surface
    pub fn resize(&mut self, width: i32, height: i32)
        ensures
            final(self)@ == old(self)@.resized(width, height),
    {
        if width > 0 && height > 0 && (self.width != width || self.height != height) {
            self.reset_buffer();
            self.width = width;
            self.height = height;
        }
        self.configured = true;
    }
}

impl ShieldSurface {
    /// With the size that the compositor gave it, unless that leaves the choice
    /// to the window manager.
    pub open spec fn resized(self, width: i32, height: i32) -> ShieldSurface {
        if width > 0 && height > 0 && !(self.width == width && self.height == height) {
            ShieldSurface { buffer: false, width, height, configured: true, ..self }
        } else {
            ShieldSurface { configured: true, ..self }
        }
    }

    /// Take the size that the compositor gave the surface
    pub fn resize(&mut self, width: i32, height: i32)
        ensures
            *final(self) == old(self).resized(width, height),
    {
        if width > 0 && height > 0 && (self.width != width || self.height != height) {
            self.reset_buffer();
            self.width = width;
            self.height = height;
        }
        self.configured = true;
    }
}

/// Holds of all names but one.
pub open spec fn other_than(name: u32) -> spec_fn(u32) -> bool {
    |n: u32| n != name
}

impl TitlebarView {
    /// With the outputs that its surface is on after it entered or left one.
    #[verifier::opaque]
    pub open spec fn moved_over(self, name: u32, entered: bool) -> TitlebarView {
        TitlebarView {
            output_names: if !entered {
                self.output_names.filter(other_than(name))
            } else if self.output_names.contains(name) {
                self.output_names
            } else {
                self.output_names.push(name)
            },
            ..self
        }
    }
}

impl Titlebar {
    fn is_on(&self, name: u32) -> (r: bool)
        ensures
            r == self@.output_names.contains(name),
    {
        let mut i: usize = 0;
        while i < self.output_names.len()
            invariant
                i <= self.output_names@.len(),
                forall|j: int| 0 <= j < i ==> self.output_names@[j] != name,
            decreases self.output_names@.len() - i,
        {
            if self.output_names[i] == name {
                return true;
            }
            i = i + 1;
        }
        false
    }

    fn names_but(&self, name: u32) -> (r: Vec<u32>)
        ensures
            r@ == self@.output_names.filter(other_than(name)),
    {
        let ghost others = other_than(name);
        let ghost names = self.output_names@;
        let mut r: Vec<u32> = Vec::new();
        let mut i: usize = 0;
        proof {
            reveal(Seq::filter);
            assert(names.take(0).filter(others) =~= Seq::empty());
        }
        while i < self.output_names.len()
            invariant
                i <= self.output_names@.len(),
                names == self.output_names@,
                others == other_than(name),
                r@ == names.take(i as int).filter(others),
            decreases self.output_names@.len() - i,
        {
            proof {
                reveal(Seq::filter);
                assert(names.take(i as int + 1).drop_last() =~= names.take(i as int));
            }
            if self.output_names[i] != name {
                r.push(self.output_names[i]);
            }
            i = i + 1;
        }
        assert(names.take(i as int) =~= names);
        r
    }

    /// The surface entered or left an output
    pub fn output_change(&mut self, name: u32, entered: bool)
        ensures
            final(self)@ == old(self)@.moved_over(name, entered),
    {
        proof {
            reveal(TitlebarView::moved_over);
        }
        if !entered {
            self.output_names = self.names_but(name);
        } else if !self.is_on(name) {
            self.output_names.push(name);
        }
    }
}

impl WindowView {
    /// With the outputs that its titlebar is on.
    #[verifier::opaque]
    pub open spec fn titlebar_moved(self, name: u32, entered: bool) -> WindowView {
        match self.titlebar {
            Some(titlebar) => WindowView {
                titlebar: Some(titlebar.moved_over(name, entered)),
                ..self
            },
            None => self,
        }
    }
}

impl Window {
    fn move_titlebar(&mut self, name: u32, entered: bool)
        ensures
            final(self)@ == old(self)@.titlebar_moved(name, entered),
    {
        proof {
            reveal(WindowView::titlebar_moved);
        }
        if let Some(titlebar) = &mut self.titlebar {
            titlebar.output_change(name, entered);
        }
    }
}

impl ContextView {
    /// The desktop of an output was given a size.
    #[verifier::opaque]
    pub open spec fn desktop_resized(
        self,
        output: OutputId,
        width: i32,
        height: i32,
        g: GlobalsView,
    ) -> ContextView {
        match self.output_index(output) {
            Some(k) => match self.outputs[k].desktop_surface {
                Some(desktop) => self.with_output(
                    k,
                    OutputView {
                        desktop_surface: Some(desktop.resized(width, height)),
                        ..self.outputs[k]
                    },
                ).desktop_shown(output, g),
                None => self,
            },
            None => self,
        }
    }

    /// The menu was given a size.
    #[verifier::opaque]
    pub open spec fn menu_resized(self, width: i32, height: i32, g: GlobalsView) -> ContextView {
        match self.window_menu {
            Some(menu) => (ContextView {
                window_menu: Some(menu.resized(width, height)),
                ..self
            }).menu_shown(g),
            None => self,
        }
    }

    /// The shield of the menu was given a size.
    #[verifier::opaque]
    pub open spec fn shield_resized(
        self,
        output: OutputId,
        width: i32,
        height: i32,
        g: GlobalsView,
    ) -> ContextView {
        match self.window_menu_shield {
            Some(shield) => if shield.output_id == output {
                let c = ContextView {
                    window_menu_shield: Some(shield.resized(width, height)),
                    ..self
                };
                if g.drawing() {
                    c.ask(Request::RenderMenuShield)
                } else {
                    c
                }
            } else {
                self
            },
            None => self,
        }
    }

    /// A surface of the window manager was given a size and is drawn at it.
    #[verifier::opaque]
    pub open spec fn layer_resized(
        self,
        kind: LayerSurfaceKind,
        width: i32,
        height: i32,
        g: GlobalsView,
    ) -> ContextView {
        match kind {
            LayerSurfaceKind::Desktop(output) => self.desktop_resized(output, width, height, g),
            LayerSurfaceKind::Menu => self.menu_resized(width, height, g),
            LayerSurfaceKind::MenuShield(output) => self.shield_resized(output, width, height, g),
        }
    }

    /// Without the desktop of an output.
    #[verifier::opaque]
    pub open spec fn desktop_lost(self, output: OutputId) -> ContextView {
        match self.output_index(output) {
            Some(k) => self.with_output(
                k,
                OutputView { desktop_surface: None, ..self.outputs[k] },
            ),
            None => self,
        }
    }

    /// The compositor closed a surface of the window manager.
    #[verifier::opaque]
    pub open spec fn layer_closed(self, kind: LayerSurfaceKind) -> ContextView {
        match kind {
            LayerSurfaceKind::Desktop(output) => self.desktop_lost(output),
            LayerSurfaceKind::Menu => self.menu_closed(),
            LayerSurfaceKind::MenuShield(output) => match self.window_menu_shield {
                Some(shield) => if shield.output_id == output {
                    ContextView { window_menu_shield: None, ..self }
                } else {
                    self
                },
                None => self,
            },
        }
    }

    /// The surface of a titlebar entered or left an output.
    #[verifier::opaque]
    pub open spec fn titlebar_moved(
        self,
        id: WindowId,
        object: ObjectId,
        entered: bool,
        g: GlobalsView,
    ) -> ContextView {
        match (g.output_name(object), self.window_index(id)) {
            (Some(name), Some(i)) => self.with_window(
                i,
                self.windows[i].titlebar_moved(name, entered),
            ),
            _ => self,
        }
    }
}

impl Context {
    fn resize_desktop(&mut self, output_id: OutputId, width: i32, height: i32, globals: &Globals)
        ensures
            final(self)@ == old(self)@.desktop_resized(output_id, width, height, globals@),
    {
        proof {
            reveal(ContextView::desktop_resized);
        }
        if let Some(k) = self.find_output(output_id) {
            let ghost before = self@;
            if let Some(desktop) = &mut self.outputs[k].desktop_surface {
                desktop.resize(width, height);
            } else {
                return;
            }
            assert(self@ =~= before.with_output(
                k as int,
                OutputView {
                    desktop_surface: Some(
                        before.outputs[k as int].desktop_surface.unwrap().resized(width, height),
                    ),
                    ..before.outputs[k as int]
                },
            ));
            self.render_desktop_surface(output_id, globals);
        }
    }

    fn resize_menu(&mut self, width: i32, height: i32, globals: &Globals)
        ensures
            final(self)@ == old(self)@.menu_resized(width, height, globals@),
    {
        proof {
            reveal(ContextView::menu_resized);
        }
        if let Some(menu) = &mut self.window_menu {
            menu.resize(width, height);
        } else {
            return;
        }
        self.render_window_menu(globals);
    }

    fn resize_shield(&mut self, output_id: OutputId, width: i32, height: i32, globals: &Globals)
        ensures
            final(self)@ == old(self)@.shield_resized(output_id, width, height, globals@),
    {
        proof {
            reveal(ContextView::shield_resized);
        }
        if let Some(shield) = &mut self.window_menu_shield {
            if shield.output_id != output_id {
                return;
            }
            shield.resize(width, height);
        } else {
            return;
        }
        if globals.shm && globals.compositor {
            self.requests.push(Request::RenderMenuShield);
        }
    }

    /// The compositor gave a surface of the window manager a size
    pub fn layer_configure(&mut self, kind: LayerSurfaceKind, width: i32, height: i32, globals: &Globals)
        ensures
            final(self)@ == old(self)@.layer_resized(kind, width, height, globals@),
    {
        proof {
            reveal(ContextView::layer_resized);
        }
        match kind {
            LayerSurfaceKind::Desktop(output_id) => {
                self.resize_desktop(output_id, width, height, globals)
            },
            LayerSurfaceKind::Menu => self.resize_menu(width, height, globals),
            LayerSurfaceKind::MenuShield(output_id) => {
                self.resize_shield(output_id, width, height, globals)
            },
        }
    }

    fn lose_desktop(&mut self, output_id: OutputId)
        ensures
            final(self)@ == old(self)@.desktop_lost(output_id),
    {
        proof {
            reveal(ContextView::desktop_lost);
        }
        if let Some(k) = self.find_output(output_id) {
            let ghost before = self@;
            self.outputs[k].desktop_surface = None;
            assert(self@ =~= before.with_output(
                k as int,
                OutputView { desktop_surface: None, ..before.outputs[k as int] },
            ));
        }
    }

    /// The compositor closed a surface of the window manager
    pub fn layer_close(&mut self, kind: LayerSurfaceKind)
        ensures
            final(self)@ == old(self)@.layer_closed(kind),
    {
        proof {
            reveal(ContextView::layer_closed);
        }
        match kind {
            LayerSurfaceKind::Desktop(output_id) => self.lose_desktop(output_id),
            LayerSurfaceKind::Menu => self.close_window_menu(),
            LayerSurfaceKind::MenuShield(output_id) => {
                if let Some(shield) = self.window_menu_shield {
                    if shield.output_id == output_id {
                        self.window_menu_shield = None;
                    }
                }
            },
        }
    }

    /// The surface of a titlebar entered or left an output
    pub fn titlebar_output(&mut self, window_id: WindowId, object: ObjectId, entered: bool, globals: &Globals)
        ensures
            final(self)@ == old(self)@.titlebar_moved(window_id, object, entered, globals@),
    {
        proof {
            reveal(ContextView::titlebar_moved);
        }
        if let Some(name) = globals.output_name(object) {
            if let Some(i) = self.find_window(window_id) {
                let ghost before = self@;
                self.windows[i].move_titlebar(name, entered);
                assert(self@ =~= before.with_window(
                    i as int,
                    before.windows[i as int].titlebar_moved(name, entered),
                ));
            }
        }
    }
}

} // verus!
