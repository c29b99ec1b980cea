//! Opening, cycling and hovering the window menu.

use vstd::prelude::*;
use crate::canoe::context::menus::menu_items;
use crate::canoe::context::{Context, ContextView};
use crate::canoe::menu::{
    item_of, item_views, menu_size, row_count, theme_from_ui, MenuItem, MenuTheme, MenuView,
    WindowMenu,
};
use crate::canoe::shield::ShieldSurface;
use crate::canoe::window::WindowView;
use crate::canoe::{OutputId, SeatId, WindowId, WindowMenuMode};
use crate::dispatch::globals::{Globals, GlobalsView};
use crate::num::{larger, max_i64, quot, sat, to_i32};
use crate::protocol::{MenuPlan, MenuPlanView, ObjectId, Request, RequestView};
use crate::text::same;

verus! {

/// Where along one axis a menu goes on an output of length `extent`: in the
/// middle, or at the pointer unless it would stick out.
pub open spec fn menu_origin(wanted: i32, len: i32, extent: i32, known: bool, centered: bool) -> i32 {
    let at = larger(wanted as int, 0);
    if !known {
        at as i32
    } else if centered {
        sat(larger(quot(extent - len, 2), 0))
    } else if at + len > extent {
        sat(larger(extent - len, 0))
    } else {
        at as i32
    }
}

fn origin_for(wanted: i32, len: i32, extent: i32, known: bool, centered: bool) -> (r: i32)
    ensures
        r == menu_origin(wanted, len, extent, known, centered),
{
    let at: i32 = if wanted > 0 {
        wanted
    } else {
        0
    };
    if !known {
        at
    } else if centered {
        to_i32(max_i64((extent as i64 - len as i64) / 2, 0))
    } else if at as i64 + len as i64 > extent as i64 {
        to_i32(max_i64(extent as i64 - len as i64, 0))
    } else {
        at
    }
}

/// A menu on the screen keeps inside an output that is large enough for it.
pub proof fn law_menu_stays_on_its_output(wanted: i32, len: i32, extent: i32, centered: bool)
    requires
        0 <= len <= extent,
    ensures
        0 <= menu_origin(wanted, len, extent, true, centered),
        menu_origin(wanted, len, extent, true, centered) + len <= extent,
{
}

impl ContextView {
    /// The menu that a plan makes, before it is placed.
    pub open spec fn planned_menu(
        self,
        plan: MenuPlanView,
        surface: ObjectId,
        layer_surface: ObjectId,
        text_width: Option<i32>,
    ) -> MenuView {
        let theme = theme_from_ui(self.config.ui@);
        let size = menu_size(theme, row_count(plan.items.len(), true), text_width);
        let menu = MenuView {
            surface,
            layer_surface,
            buffer: false,
            width: size.0,
            height: size.1,
            buffer_width: size.0,
            buffer_height: size.1,
            scale: 1,
            configured: false,
            items: plan.items,
            header_title: Some(plan.header),
            hovered: None,
            output_id: plan.output_id,
            origin_x: plan.x,
            origin_y: plan.y,
            theme,
            cache: None,
        };
        if plan.mode == WindowMenuMode::AltTab {
            let menu = MenuView { hovered: item_of(menu.items, self.focused_window), ..menu };
            MenuView { hovered: menu.next_item(), ..menu }
        } else {
            menu
        }
    }

    /// Opens the menu of a plan on its output. In alt-tab the window after the
    /// focused one is selected and previewed.
    #[verifier::opaque]
    pub open spec fn menu_opened(
        self,
        plan: MenuPlanView,
        surface: ObjectId,
        layer_surface: ObjectId,
        text_width: Option<i32>,
        g: GlobalsView,
    ) -> ContextView {
        match self.output(plan.output_id) {
            Some(o) => {
                let menu = self.planned_menu(plan, surface, layer_surface, text_width);
                let known = o.width > 0 && o.height > 0;
                let placed = MenuView {
                    origin_x: menu_origin(plan.x, menu.width, o.width, known, plan.centered),
                    origin_y: menu_origin(plan.y, menu.height, o.height, known, plan.centered),
                    ..menu
                };
                let c = ContextView {
                    window_menu: Some(placed),
                    window_menu_mode: Some(plan.mode),
                    ..self
                };
                c.alt_tab_entered(plan.mode, placed.hovered_window()).hover_found(
                    plan.hover_seat,
                    g,
                )
            },
            None => self,
        }
    }

    /// Begins alt-tab, if that is what the menu was opened for.
    #[verifier::opaque]
    pub open spec fn alt_tab_entered(self, mode: WindowMenuMode, first: Option<WindowId>) -> ContextView {
        if mode == WindowMenuMode::AltTab {
            match first {
                Some(id) => self.alt_tab_begun().alt_tab_previewed(id),
                None => self.alt_tab_begun(),
            }
        } else {
            self
        }
    }

    /// Hovers the item that the pointer of a seat is over, if a seat is given.
    #[verifier::opaque]
    pub open spec fn hover_found(self, seat: Option<SeatId>, g: GlobalsView) -> ContextView {
        match seat {
            Some(seat) => self.menu_hovered_by(seat, g),
            None => self,
        }
    }

    /// Asks for the menu to be drawn, once it can be.
    #[verifier::opaque]
    pub open spec fn menu_shown(self, g: GlobalsView) -> ContextView {
        match self.window_menu {
            Some(menu) => if g.drawing() && menu.configured {
                self.ask(Request::RenderMenu)
            } else {
                self
            },
            None => self,
        }
    }

    /// Hovers the item at a point of the menu and draws it if that changed.
    #[verifier::opaque]
    pub open spec fn menu_hovered(self, x: i32, y: i32, g: GlobalsView) -> ContextView {
        match self.window_menu {
            Some(menu) => {
                let c = ContextView {
                    window_menu: Some(MenuView { hovered: menu.item_at(x, y), ..menu }),
                    ..self
                };
                if menu.hovered != menu.item_at(x, y) {
                    c.menu_shown(g)
                } else {
                    c
                }
            },
            None => self,
        }
    }

    /// Hovers the item of a menu opened by the pointer that the pointer of a
    /// seat is over.
    #[verifier::opaque]
    pub open spec fn menu_hovered_by(self, seat: SeatId, g: GlobalsView) -> ContextView {
        match (self.seat(seat), self.window_menu) {
            (Some(s), Some(menu)) => match self.output(menu.output_id) {
                Some(o) => if self.window_menu_mode == Some(WindowMenuMode::Pointer) {
                    self.menu_hovered(
                        sat(s.pointer_x - o.x - menu.origin_x),
                        sat(s.pointer_y - o.y - menu.origin_y),
                        g,
                    )
                } else {
                    self
                },
                None => self,
            },
            _ => self,
        }
    }

    /// Hovers the item of a menu opened by the pointer that is at a point of
    /// its output.
    #[verifier::opaque]
    pub open spec fn menu_hovered_on(self, output: OutputId, x: i32, y: i32, g: GlobalsView) -> ContextView {
        match self.window_menu {
            Some(menu) => if self.window_menu_mode == Some(WindowMenuMode::Pointer)
                && menu.output_id == output {
                self.menu_hovered(sat(x - menu.origin_x), sat(y - menu.origin_y), g)
            } else {
                self
            },
            None => self,
        }
    }

    /// Asks for a menu, if it would list anything and can be put on its output.
    #[verifier::opaque]
    pub open spec fn menu_asked(self, plan: MenuPlanView, g: GlobalsView) -> ContextView {
        if g.surfaces() && self.output_index(plan.output_id) is Some && plan.items.len() > 0 {
            ContextView { requests: self.requests.push(RequestView::OpenMenu(plan)), ..self }
        } else {
            self
        }
    }

    /// The plan of the menu of all windows.
    pub open spec fn windows_plan(
        self,
        output: OutputId,
        x: i32,
        y: i32,
        mode: WindowMenuMode,
        hover_seat: Option<SeatId>,
    ) -> MenuPlanView {
        MenuPlanView {
            output_id: output,
            x,
            y,
            centered: mode == WindowMenuMode::AltTab,
            mode,
            items: menu_items(self, None),
            header: "Windows"@,
            hover_seat,
        }
    }

    /// Asks for the surface that covers an output while a menu is open, unless
    /// it is there. One on another output goes.
    #[verifier::opaque]
    pub open spec fn shield_asked(self, output: OutputId, g: GlobalsView) -> ContextView {
        match self.output(output) {
            Some(o) => if !g.surfaces() {
                self
            } else if self.window_menu_shield matches Some(shield) && shield.output_id == output {
                self
            } else {
                let c = ContextView { window_menu_shield: None, ..self };
                if o.wl_output is Some {
                    c.ask(Request::EnsureMenuShield { output_id: output })
                } else {
                    c
                }
            },
            None => self,
        }
    }

    /// The output that an alt-tab menu appears on: the one with the middle of
    /// the focused window, or else the current one.
    #[verifier::opaque]
    pub open spec fn menu_output(self) -> Option<OutputId> {
        let focused = match self.focused_window {
            Some(id) => match self.window(id) {
                Some(w) => self.output_under(w),
                None => None,
            },
            None => None,
        };
        if focused is Some {
            focused
        } else {
            self.current_output
        }
    }

    /// The output with the middle of a window, its own one first.
    #[verifier::opaque]
    pub open spec fn output_under(self, w: WindowView) -> Option<OutputId> {
        let x = w.x + quot(w.width as int, 2);
        let y = w.y + quot(w.height as int, 2);
        let own = match self.live_output(w) {
            Some(id) => match self.output(id) {
                Some(o) => if o.contains_point(x, y) {
                    Some(id)
                } else {
                    None
                },
                None => None,
            },
            None => None,
        };
        if own is Some {
            own
        } else {
            self.output_at_point(x, y)
        }
    }

    /// Moves on in an alt-tab menu and previews the window.
    #[verifier::opaque]
    pub open spec fn alt_tab_advanced(self, g: GlobalsView) -> ContextView {
        match self.window_menu {
            Some(menu) => {
                let next = MenuView { hovered: menu.next_item(), ..menu };
                let c = ContextView { window_menu: Some(next), ..self };
                let c = if menu.hovered != next.hovered {
                    match next.hovered_window() {
                        Some(id) => c.alt_tab_previewed(id),
                        None => c,
                    }.menu_shown(g)
                } else {
                    c
                };
                c.shield_asked(menu.output_id, g)
            },
            None => self,
        }
    }

    /// Asks for the alt-tab menu of all windows.
    #[verifier::opaque]
    pub open spec fn alt_tab_asked(self, g: GlobalsView) -> ContextView {
        match self.menu_output() {
            Some(output) => self.menu_asked(
                self.windows_plan(output, 0, 0, WindowMenuMode::AltTab, None),
                g,
            ).shield_asked(output, g),
            None => self,
        }
    }

    /// Answers the alt-tab key: moves on in an alt-tab menu, or opens one.
    #[verifier::opaque]
    pub open spec fn alt_tab_pressed(self, g: GlobalsView) -> ContextView {
        if self.window_menu is Some {
            if self.window_menu_mode == Some(WindowMenuMode::AltTab) {
                self.alt_tab_advanced(g)
            } else {
                self.menu_closed().alt_tab_asked(g)
            }
        } else {
            self.alt_tab_asked(g)
        }
    }

    /// The application id of the focused window, if it is not empty.
    pub open spec fn focused_app(self) -> Option<Seq<char>> {
        match self.focused_window {
            Some(id) => match self.window(id) {
                Some(w) => match w.app_id {
                    Some(app_id) => if app_id.len() > 0 {
                        Some(app_id)
                    } else {
                        None
                    },
                    None => None,
                },
                None => None,
            },
            None => None,
        }
    }

    /// Whether a menu lists windows of one application only.
    #[verifier::opaque]
    pub open spec fn menu_of_app(self, menu: MenuView, app_id: Seq<char>) -> bool {
        menu.items.len() > 0 && forall|i: int|
            0 <= i < menu.items.len() ==> (self.window(
                (#[trigger] menu.items[i]).window_id,
            ) matches Some(w) && w.app_id == Some(app_id))
    }

    /// Answers the key for the windows of the focused application, if there are
    /// at least two.
    #[verifier::opaque]
    pub open spec fn app_tab_pressed(self, g: GlobalsView) -> ContextView {
        match (self.focused_app(), self.menu_output()) {
            (Some(app_id), Some(output)) => {
                let plan = MenuPlanView {
                    items: menu_items(self, Some(app_id)),
                    header: app_id,
                    ..self.windows_plan(output, 0, 0, WindowMenuMode::AltTab, None)
                };
                if plan.items.len() < 2 {
                    self
                } else {
                    match self.window_menu {
                        Some(menu) => if self.window_menu_mode == Some(WindowMenuMode::AltTab)
                            && self.menu_of_app(menu, app_id) {
                            self.alt_tab_advanced(g)
                        } else {
                            self.menu_closed().menu_asked(plan, g).shield_asked(output, g)
                        },
                        None => self.menu_asked(plan, g).shield_asked(output, g),
                    }
                }
            },
            _ => self,
        }
    }

    /// With the surface that covers an output while a menu is open.
    pub open spec fn shield_got(
        self,
        output: OutputId,
        surface: ObjectId,
        layer_surface: ObjectId,
    ) -> ContextView {
        ContextView {
            window_menu_shield: Some(
                ShieldSurface {
                    surface,
                    layer_surface,
                    output_id: output,
                    width: 0,
                    height: 0,
                    configured: false,
                    buffer: false,
                },
            ),
            ..self
        }
    }
}

impl Context {
    /// Ask for the menu to be drawn, once it can be
    pub fn render_window_menu(&mut self, globals: &Globals)
        ensures
            final(self)@ == old(self)@.menu_shown(globals@),
    {
        proof {
            reveal(ContextView::menu_shown);
        }
        let configured: bool = match &self.window_menu {
            Some(menu) => menu.configured,
            None => false,
        };
        if globals.shm && globals.compositor && configured {
            self.requests.push(Request::RenderMenu);
        }
    }

    /// Hover the item at a point of the menu
    pub fn hover_menu(&mut self, x: i32, y: i32, globals: &Globals)
        ensures
            final(self)@ == old(self)@.menu_hovered(x, y, globals@),
    {
        proof {
            reveal(ContextView::menu_hovered);
        }
        if self.update_menu_hover(x, y) {
            self.render_window_menu(globals);
        }
    }

    /// Hover the item that the pointer of a seat is over
    pub fn update_menu_hover_from_global(&mut self, seat_id: SeatId, globals: &Globals)
        ensures
            final(self)@ == old(self)@.menu_hovered_by(seat_id, globals@),
    {
        proof {
            reveal(ContextView::menu_hovered_by);
        }
        let j: usize = match self.find_seat(seat_id) {
            Some(j) => j,
            None => return,
        };
        if self.window_menu_mode != Some(WindowMenuMode::Pointer) {
            return;
        }
        let (output_id, origin_x, origin_y): (OutputId, i32, i32) = match &self.window_menu {
            Some(menu) => (menu.output_id, menu.origin_x, menu.origin_y),
            None => return,
        };
        if let Some(k) = self.find_output(output_id) {
            let x: i64 = self.seats[j].pointer_x as i64 - self.outputs[k].x as i64
                - origin_x as i64;
            let y: i64 = self.seats[j].pointer_y as i64 - self.outputs[k].y as i64
                - origin_y as i64;
            self.hover_menu(to_i32(x), to_i32(y), globals);
        }
    }

    /// Hover the item that is at a point of an output
    pub fn update_menu_hover_from_surface(&mut self, output_id: OutputId, x: i32, y: i32, globals: &Globals)
        ensures
            final(self)@ == old(self)@.menu_hovered_on(output_id, x, y, globals@),
    {
        proof {
            reveal(ContextView::menu_hovered_on);
        }
        if self.window_menu_mode != Some(WindowMenuMode::Pointer) {
            return;
        }
        let (menu_output, origin_x, origin_y): (OutputId, i32, i32) = match &self.window_menu {
            Some(menu) => (menu.output_id, menu.origin_x, menu.origin_y),
            None => return,
        };
        if menu_output == output_id {
            let x: i32 = to_i32(x as i64 - origin_x as i64);
            let y: i32 = to_i32(y as i64 - origin_y as i64);
            self.hover_menu(x, y, globals);
        }
    }

    /// The surfaces for a menu were created; the widest of its texts is
    /// `text_width` wide, if texts can be measured
    pub fn open_window_menu(&mut self, plan: MenuPlan, surface: ObjectId, layer_surface: ObjectId, text_width: Option<i32>, globals: &Globals)
        ensures
            final(self)@ == old(self)@.menu_opened(
                plan@,
                surface,
                layer_surface,
                text_width,
                globals@,
            ),
    {
        proof {
            reveal(ContextView::menu_opened);
        }
        let ghost planned = plan@;
        let k: usize = match self.find_output(plan.output_id) {
            Some(k) => k,
            None => return,
        };
        let mut plan = plan;
        let mut items: Vec<MenuItem> = Vec::new();
        std::mem::swap(&mut items, &mut plan.items);
        let mut menu = self.menu_from_plan(
            plan.output_id,
            plan.x,
            plan.y,
            plan.mode,
            items,
            plan.header,
            surface,
            layer_surface,
            text_width,
        );
        let ow: i32 = self.outputs[k].width;
        let oh: i32 = self.outputs[k].height;
        let known: bool = ow > 0 && oh > 0;
        menu.origin_x = origin_for(plan.x, menu.width, ow, known, plan.centered);
        menu.origin_y = origin_for(plan.y, menu.height, oh, known, plan.centered);
        let first: Option<WindowId> = menu.hovered_window();
        let mode = plan.mode;
        let hover_seat: Option<SeatId> = plan.hover_seat;
        self.window_menu = Some(menu);
        self.window_menu_mode = Some(mode);
        self.enter_alt_tab(mode, first);
        self.find_hover(hover_seat, globals);
    }

    fn enter_alt_tab(&mut self, mode: WindowMenuMode, first: Option<WindowId>)
        ensures
            final(self)@ == old(self)@.alt_tab_entered(mode, first),
    {
        proof {
            reveal(ContextView::alt_tab_entered);
        }
        if mode == WindowMenuMode::AltTab {
            self.begin_alt_tab();
            if let Some(window_id) = first {
                self.preview_alt_tab_window(window_id);
            }
        }
    }

    fn find_hover(&mut self, seat: Option<SeatId>, globals: &Globals)
        ensures
            final(self)@ == old(self)@.hover_found(seat, globals@),
    {
        proof {
            reveal(ContextView::hover_found);
        }
        if let Some(seat_id) = seat {
            self.update_menu_hover_from_global(seat_id, globals);
        }
    }

    fn menu_from_plan(&self, output_id: OutputId, x: i32, y: i32, mode: WindowMenuMode, items: Vec<MenuItem>, header: String, surface: ObjectId, layer_surface: ObjectId, text_width: Option<i32>) -> (r: WindowMenu)
        ensures
            forall|centered: bool, hover_seat: Option<SeatId>|
                r@ == #[trigger] self@.planned_menu(
                    MenuPlanView {
                        output_id,
                        x,
                        y,
                        centered,
                        mode,
                        items: item_views(items@),
                        header: header@,
                        hover_seat,
                    },
                    surface,
                    layer_surface,
                    text_width,
                ),
    {
        assert(item_views(items@).len() == items@.len());
        let mut menu = WindowMenu::new(
            surface,
            layer_surface,
            output_id,
            items,
            Some(header),
            x,
            y,
            MenuTheme::from_ui(&self.config.ui),
            text_width,
        );
        if mode == WindowMenuMode::AltTab {
            let _ = menu.select_window(self.focused_window);
            let _ = menu.select_next();
        }
        menu
    }

    fn ask_menu(&mut self, plan: MenuPlan, globals: &Globals)
        ensures
            final(self)@ == old(self)@.menu_asked(plan@, globals@),
    {
        proof {
            reveal(ContextView::menu_asked);
            assert(plan@.items.len() == plan.items@.len());
        }
        if globals.compositor && globals.wlr_layer_shell && self.find_output(
            plan.output_id,
        ).is_some() && plan.items.len() > 0 {
            self.requests.push(Request::OpenMenu { plan });
        }
    }

    /// Ask for the menu of all windows
    pub fn ask_windows_menu(&mut self, output_id: OutputId, x: i32, y: i32, mode: WindowMenuMode, hover_seat: Option<SeatId>, globals: &Globals)
        ensures
            final(self)@ == old(self)@.menu_asked(
                old(self)@.windows_plan(output_id, x, y, mode, hover_seat),
                globals@,
            ),
    {
        let items = self.collect_menu_items(output_id);
        let plan = MenuPlan {
            output_id,
            x,
            y,
            centered: mode == WindowMenuMode::AltTab,
            mode,
            items,
            header: "Windows".to_string(),
            hover_seat,
        };
        assert(plan@ == self@.windows_plan(output_id, x, y, mode, hover_seat));
        self.ask_menu(plan, globals);
    }

    /// Ask for the surface that covers an output while a menu is open
    pub fn ensure_window_menu_shield(&mut self, output_id: OutputId, globals: &Globals)
        ensures
            final(self)@ == old(self)@.shield_asked(output_id, globals@),
    {
        proof {
            reveal(ContextView::shield_asked);
        }
        if !globals.compositor || !globals.wlr_layer_shell {
            return;
        }
        if let Some(k) = self.find_output(output_id) {
            if let Some(shield) = self.window_menu_shield {
                if shield.output_id == output_id {
                    return;
                }
            }
            self.window_menu_shield = None;
            if self.outputs[k].wl_output.is_some() {
                self.requests.push(Request::EnsureMenuShield { output_id });
            }
        }
    }

    /// The surface that covers an output while a menu is open was created
    pub fn shield_created(&mut self, output_id: OutputId, surface: ObjectId, layer_surface: ObjectId)
        ensures
            final(self)@ == old(self)@.shield_got(output_id, surface, layer_surface),
    {
        self.window_menu_shield = Some(ShieldSurface::new(surface, layer_surface, output_id));
    }

    fn output_under(&self, i: usize) -> (r: Option<OutputId>)
        requires
            i < self.windows@.len(),
        ensures
            r == self@.output_under(self.windows@[i as int]@),
    {
        proof {
            reveal(ContextView::output_under);
        }
        let w = &self.windows[i];
        let x: i64 = w.x as i64 + (w.width / 2) as i64;
        let y: i64 = w.y as i64 + (w.height / 2) as i64;
        let own: Option<OutputId> = self.live_output(w.output);
        assert(own == self@.live_output(w@));
        if let Some(id) = own {
            if let Some(k) = self.find_output(id) {
                if self.outputs[k].contains_point(x, y) {
                    return Some(id);
                }
            }
        }
        self.output_at_point(x, y)
    }

    /// The output that an alt-tab menu appears on
    pub fn menu_output(&self) -> (r: Option<OutputId>)
        ensures
            r == self@.menu_output(),
    {
        proof {
            reveal(ContextView::menu_output);
        }
        if let Some(id) = self.focused_window {
            if let Some(i) = self.find_window(id) {
                let under: Option<OutputId> = self.output_under(i);
                if under.is_some() {
                    return under;
                }
            }
        }
        self.current_output
    }

    fn advance_alt_tab(&mut self, globals: &Globals)
        ensures
            final(self)@ == old(self)@.alt_tab_advanced(globals@),
    {
        proof {
            reveal(ContextView::alt_tab_advanced);
        }
        let mut changed: bool = false;
        let mut preview: Option<WindowId> = None;
        let output_id: OutputId = match &mut self.window_menu {
            Some(menu) => {
                changed = menu.select_next();
                preview = menu.hovered_window();
                menu.output_id
            },
            None => return,
        };
        if changed {
            if let Some(window_id) = preview {
                self.preview_alt_tab_window(window_id);
            }
            self.render_window_menu(globals);
        }
        self.ensure_window_menu_shield(output_id, globals);
    }

    fn ask_alt_tab(&mut self, globals: &Globals)
        ensures
            final(self)@ == old(self)@.alt_tab_asked(globals@),
    {
        proof {
            reveal(ContextView::alt_tab_asked);
        }
        if let Some(output_id) = self.menu_output() {
            self.ask_windows_menu(output_id, 0, 0, WindowMenuMode::AltTab, None, globals);
            self.ensure_window_menu_shield(output_id, globals);
        }
    }

    /// Answer the alt-tab key
    pub fn handle_window_menu_cycle(&mut self, globals: &Globals)
        ensures
            final(self)@ == old(self)@.alt_tab_pressed(globals@),
    {
        proof {
            reveal(ContextView::alt_tab_pressed);
        }
        if self.window_menu.is_some() {
            if self.window_menu_mode == Some(WindowMenuMode::AltTab) {
                self.advance_alt_tab(globals);
            } else {
                self.close_window_menu();
                self.ask_alt_tab(globals);
            }
        } else {
            self.ask_alt_tab(globals);
        }
    }

    fn focused_app(&self) -> (r: Option<String>)
        ensures
            (match r {
                Some(app_id) => Some(app_id@),
                None => None,
            }) == self@.focused_app(),
    {
        if let Some(id) = self.focused_window {
            if let Some(i) = self.find_window(id) {
                if let Some(app_id) = &self.windows[i].app_id {
                    if app_id.as_str().unicode_len() > 0 {
                        return Some(app_id.clone());
                    }
                }
            }
        }
        None
    }

    /// Whether a menu lists windows of one application only
    pub fn menu_matches_app_id(&self, menu: &WindowMenu, app_id: &str) -> (r: bool)
        ensures
            r == self@.menu_of_app(menu@, app_id@),
    {
        proof {
            reveal(ContextView::menu_of_app);
            assert(menu@.items.len() == menu.items@.len());
        }
        if menu.items.len() == 0 {
            return false;
        }
        let mut n: usize = 0;
        while n < menu.items.len()
            invariant
                n <= menu.items@.len(),
                menu@.items.len() == menu.items@.len(),
                menu@.items.len() > 0,
                forall|i: int|
                    0 <= i < n ==> (self@.window((#[trigger] menu@.items[i]).window_id) matches Some(
                        w,
                    ) && w.app_id == Some(app_id@)),
            decreases menu.items@.len() - n,
        {
            assert(menu@.items[n as int] == menu.items@[n as int]@);
            let mut ok: bool = false;
            if let Some(i) = self.find_window(menu.items[n].window_id) {
                if let Some(own) = &self.windows[i].app_id {
                    ok = same(own.as_str(), app_id);
                }
            }
            if !ok {
                proof {
                    reveal(ContextView::menu_of_app);
                }
                return false;
            }
            n = n + 1;
        }
        true
    }

    fn in_app_menu(&self, app_id: &str) -> (r: bool)
        ensures
            r == (self@.window_menu matches Some(menu) && self@.window_menu_mode == Some(
                WindowMenuMode::AltTab,
            ) && self@.menu_of_app(menu, app_id@)),
    {
        match &self.window_menu {
            Some(menu) => self.window_menu_mode == Some(WindowMenuMode::AltTab)
                && self.menu_matches_app_id(menu, app_id),
            None => false,
        }
    }

    /// Answer the key for the windows of the focused application
    pub fn handle_window_menu_cycle_app(&mut self, globals: &Globals)
        ensures
            final(self)@ == old(self)@.app_tab_pressed(globals@),
    {
        proof {
            reveal(ContextView::app_tab_pressed);
        }
        let app_id: String = match self.focused_app() {
            Some(app_id) => app_id,
            None => return,
        };
        let output_id: OutputId = match self.menu_output() {
            Some(output_id) => output_id,
            None => return,
        };
        let items = self.collect_menu_items_for_app(output_id, app_id.as_str());
        assert(item_views(items@).len() == items@.len());
        if items.len() < 2 {
            return;
        }
        let in_menu: bool = self.in_app_menu(app_id.as_str());
        let plan = MenuPlan {
            output_id,
            x: 0,
            y: 0,
            centered: true,
            mode: WindowMenuMode::AltTab,
            items,
            header: app_id,
            hover_seat: None,
        };
        let ghost planned = MenuPlanView {
            items: menu_items(self@, Some(app_id@)),
            header: app_id@,
            ..self@.windows_plan(output_id, 0, 0, WindowMenuMode::AltTab, None)
        };
        assert(plan@ == planned);
        if in_menu {
            self.advance_alt_tab(globals);
        } else {
            if self.window_menu.is_some() {
                self.close_window_menu();
            }
            self.ask_menu(plan, globals);
            self.ensure_window_menu_shield(output_id, globals);
        }
    }
}

} // verus!
