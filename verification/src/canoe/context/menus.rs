//! The window menu, alt-tab and the icons of minimized windows.

use vstd::prelude::*;
use vstd::string::StringExecFns;
use crate::binding::Action;
use crate::canoe::context::{Context, ContextView};
use crate::canoe::desktop::{DesktopSurface, DesktopView};
use crate::canoe::menu::{MenuItem, MenuItemView, MenuView};
use crate::canoe::window::{Staged, Window, WindowView};
use crate::canoe::{OutputId, SeatId, WindowId, WindowMenuMode};
use crate::config::Mode;
use crate::protocol::Requests;
use crate::search::copy_ids;
use crate::text::{decimal, push_decimal, same};

verus! {

/// What a window is called in menus: its title, or else its application id, or
/// else its number.
pub open spec fn label(w: WindowView) -> Seq<char> {
    match (w.title, w.app_id) {
        (Some(title), _) if title.len() > 0 => title,
        (_, Some(app_id)) => app_id,
        _ => "Window "@ + decimal(w.id as nat),
    }
}

/// What a window is called in menus
pub fn window_label(window: &Window) -> (r: String)
    ensures
        r@ == label(window@),
{
    if let Some(title) = &window.title {
        if title.as_str().unicode_len() > 0 {
            return title.clone();
        }
    }
    if let Some(app_id) = &window.app_id {
        return app_id.clone();
    }
    let mut r = "Window ".to_string();
    push_decimal(&mut r, window.id);
    r
}

/// The item of a window in a menu.
pub open spec fn menu_item(w: WindowView, focused: Option<WindowId>) -> MenuItemView {
    MenuItemView {
        window_id: w.id,
        title: label(w),
        hidden: w.hidden,
        active: focused == Some(w.id),
    }
}

/// The item of a window in a menu
pub fn menu_item_from_window(focused: Option<WindowId>, window: &Window) -> (r: MenuItem)
    ensures
        r@ == menu_item(window@, focused),
{
    MenuItem {
        window_id: window.id,
        title: window_label(window),
        hidden: window.hidden,
        active: focused == Some(window.id),
    }
}

/// Whether a window is of an application; every window is when none is asked
/// for.
pub open spec fn of_app(w: WindowView, app_id: Option<Seq<char>>) -> bool {
    app_id is None || w.app_id == app_id
}

fn is_of_app(w: &Window, app_id: Option<&str>) -> (r: bool)
    ensures
        r == of_app(w@, crate::text::opt_str(app_id)),
{
    match app_id {
        Some(wanted) => match &w.app_id {
            Some(own) => same(own.as_str(), wanted),
            None => false,
        },
        None => true,
    }
}

/// Whether a menu has an item for a window.
pub open spec fn listed(items: Seq<MenuItemView>, id: WindowId) -> bool {
    exists|k: int| 0 <= k < items.len() && (#[trigger] items[k]).window_id == id
}

fn is_listed(items: &Vec<MenuItem>, n: usize, id: WindowId) -> (r: bool)
    requires
        n <= items@.len(),
    ensures
        r == listed(crate::canoe::menu::item_views(items@).take(n as int), id),
{
    let ghost views = crate::canoe::menu::item_views(items@).take(n as int);
    let mut k: usize = 0;
    while k < n
        invariant
            k <= n <= items@.len(),
            views == crate::canoe::menu::item_views(items@).take(n as int),
            forall|j: int| 0 <= j < k ==> (#[trigger] views[j]).window_id != id,
        decreases n - k,
    {
        assert(views[k as int] == items@[k as int]@);
        if items[k].window_id == id {
            return true;
        }
        k = k + 1;
    }
    false
}

/// The items of the windows of a focus order, in that order.
pub open spec fn stacked_items(
    c: ContextView,
    stack: Seq<WindowId>,
    app_id: Option<Seq<char>>,
) -> Seq<MenuItemView>
    decreases stack.len(),
{
    if stack.len() == 0 {
        Seq::empty()
    } else {
        let earlier = stacked_items(c, stack.drop_last(), app_id);
        match c.window(stack.last()) {
            Some(w) if of_app(w, app_id) => earlier.push(menu_item(w, c.focused_window)),
            _ => earlier,
        }
    }
}

/// The items of a menu with the windows that it does not list yet behind them.
pub open spec fn with_other_items(
    items: Seq<MenuItemView>,
    focused: Option<WindowId>,
    windows: Seq<WindowView>,
    app_id: Option<Seq<char>>,
) -> Seq<MenuItemView>
    decreases windows.len(),
{
    if windows.len() == 0 {
        items
    } else {
        let earlier = with_other_items(items, focused, windows.drop_last(), app_id);
        let w = windows.last();
        if of_app(w, app_id) && !listed(items, w.id) {
            earlier.push(menu_item(w, focused))
        } else {
            earlier
        }
    }
}

/// What the window menu lists: the windows in the order of their last focus,
/// then those that never had it.
pub open spec fn menu_items(c: ContextView, app_id: Option<Seq<char>>) -> Seq<MenuItemView> {
    with_other_items(
        stacked_items(c, c.focus_stack, app_id),
        c.focused_window,
        c.windows,
        app_id,
    )
}

/// Adding windows to a menu keeps the items that it has.
pub proof fn lemma_other_items_extend(
    items: Seq<MenuItemView>,
    focused: Option<WindowId>,
    windows: Seq<WindowView>,
    app_id: Option<Seq<char>>,
)
    ensures
        with_other_items(items, focused, windows, app_id).len() >= items.len(),
        with_other_items(items, focused, windows, app_id).take(items.len() as int) == items,
    decreases windows.len(),
{
    if windows.len() > 0 {
        lemma_other_items_extend(items, focused, windows.drop_last(), app_id);
        let earlier = with_other_items(items, focused, windows.drop_last(), app_id);
        let all = with_other_items(items, focused, windows, app_id);
        assert(all.take(items.len() as int) =~= earlier.take(items.len() as int));
    } else {
        assert(items.take(items.len() as int) =~= items);
    }
}

impl Staged {
    /// Comes to the front, visible.
    #[verifier::opaque]
    pub open spec fn raised(self) -> Staged {
        self.show().place_top()
    }
}

impl Window {
    /// Come to the front, visible
    pub fn bring_up(&mut self, requests: &mut Requests)
        ensures
            final(self).staged(final(requests)) == old(self).staged(old(requests)).raised(),
    {
        proof {
            reveal(Staged::raised);
        }
        self.show(requests);
        self.place_top(requests);
    }
}

impl ContextView {
    /// Forgets everything about alt-tab.
    pub open spec fn alt_tab_cleared(self) -> ContextView {
        ContextView {
            window_menu_alt_tab_stack: None,
            window_menu_alt_tab_focused: None,
            window_menu_alt_tab_preview: None,
            window_menu_alt_tab_preview_was_hidden: false,
            ..self
        }
    }

    /// Takes the menu away.
    pub open spec fn menu_dropped(self) -> ContextView {
        ContextView {
            window_menu: None,
            window_menu_mode: None,
            window_menu_shield: None,
            ..self
        }
    }

    /// Remembers focus and focus order before alt-tab changes them.
    #[verifier::opaque]
    pub open spec fn alt_tab_begun(self) -> ContextView {
        if self.window_menu_alt_tab_stack is Some {
            self
        } else {
            ContextView {
                window_menu_alt_tab_stack: Some(self.focus_stack),
                window_menu_alt_tab_focused: self.focused_window,
                window_menu_alt_tab_preview: None,
                window_menu_alt_tab_preview_was_hidden: false,
                ..self
            }
        }
    }

    /// Whether a window is only visible because alt-tab shows it.
    pub open spec fn preview_uncovered(self) -> bool {
        match self.window_menu_alt_tab_preview {
            Some(id) => self.window_menu_alt_tab_preview_was_hidden && self.window_index(id) is Some,
            None => false,
        }
    }

    /// Ends the preview of a window; one that was hidden is hidden again.
    #[verifier::opaque]
    pub open spec fn preview_withdrawn(self) -> ContextView {
        let c = match self.window_menu_alt_tab_preview {
            Some(id) => match self.window_index(id) {
                Some(i) => if self.window_menu_alt_tab_preview_was_hidden {
                    self.commit(i, self.staged(i).conceal())
                } else {
                    self
                },
                None => self,
            },
            None => self,
        };
        ContextView {
            window_menu_alt_tab_preview: None,
            window_menu_alt_tab_preview_was_hidden: false,
            ..c
        }
    }

    /// Brings a window to the front, visible, if it exists.
    #[verifier::opaque]
    pub open spec fn window_raised(self, id: WindowId) -> ContextView {
        match self.window_index(id) {
            Some(i) => self.commit(i, self.staged(i).raised()),
            None => self,
        }
    }

    /// Brings a window to the front, if it exists.
    #[verifier::opaque]
    pub open spec fn placed_top(self, id: WindowId) -> ContextView {
        match self.window_index(id) {
            Some(i) => ContextView { requests: self.staged(i).place_top().requests, ..self },
            None => self,
        }
    }

    /// Brings windows to the front, the last one first, so that they end up in
    /// this order from the top.
    pub open spec fn stack_restored(self, order: Seq<WindowId>) -> ContextView
        decreases order.len(),
    {
        if order.len() == 0 {
            self
        } else {
            self.placed_top(order.last()).stack_restored(order.drop_last())
        }
    }

    /// Puts the windows back into the order from before alt-tab.
    #[verifier::opaque]
    pub open spec fn alt_tab_order_restored(self) -> ContextView {
        match self.window_menu_alt_tab_stack {
            Some(order) => self.stack_restored(order),
            None => self,
        }
    }

    /// Marks the desktops for redrawing if the windows shown have changed.
    #[verifier::opaque]
    pub open spec fn stale_if(self, changed: bool) -> ContextView {
        if changed {
            self.desktops_stale()
        } else {
            self
        }
    }

    /// Shows a window as the one that alt-tab would switch to.
    #[verifier::opaque]
    pub open spec fn alt_tab_previewed(self, id: WindowId) -> ContextView {
        if self.window_menu_mode != Some(WindowMenuMode::AltTab) {
            self
        } else {
            let c = self.alt_tab_begun();
            if c.window_menu_alt_tab_preview == Some(id) {
                c
            } else {
                c.preview_withdrawn().alt_tab_order_restored().preview_shown(
                    id,
                    c.preview_uncovered(),
                )
            }
        }
    }

    /// Remembers which window is previewed.
    #[verifier::opaque]
    pub open spec fn preview_set(self, id: WindowId, was_hidden: bool) -> ContextView {
        ContextView {
            window_menu_alt_tab_preview: Some(id),
            window_menu_alt_tab_preview_was_hidden: was_hidden,
            ..self
        }
    }

    /// Shows a window in front with the looks of the focus; `changed` tells
    /// whether another window disappeared just before.
    #[verifier::opaque]
    pub open spec fn preview_shown(self, id: WindowId, changed: bool) -> ContextView {
        match self.window_index(id) {
            Some(i) => {
                let was_hidden = self.windows[i].hidden;
                self.window_raised(id).focus_preview_visual(id).preview_set(
                    id,
                    was_hidden,
                ).stale_if(changed || was_hidden)
            },
            None => self.stale_if(changed),
        }
    }

    /// Undoes what alt-tab changed: the previewed window is hidden again, the
    /// windows come back in their order and the focus to its window.
    #[verifier::opaque]
    pub open spec fn alt_tab_undone(self) -> ContextView {
        let c = self.preview_withdrawn().alt_tab_order_restored();
        let c = match c.window_menu_alt_tab_focused {
            Some(id) => if c.window_index(id) is Some {
                c.focus_preview(id)
            } else {
                c
            },
            None => c,
        };
        c.alt_tab_cleared().stale_if(self.preview_uncovered())
    }

    /// Closes the menu. A menu of alt-tab undoes what it changed.
    #[verifier::opaque]
    pub open spec fn menu_closed(self) -> ContextView {
        if self.window_menu_mode == Some(WindowMenuMode::AltTab) {
            self.alt_tab_undone().menu_dropped()
        } else {
            self.alt_tab_cleared().menu_dropped()
        }
    }

    /// The window of the hovered item of the menu.
    pub open spec fn hovered_item(self) -> Option<usize> {
        match self.window_menu {
            Some(menu) => menu.hovered,
            None => None,
        }
    }

    /// Closes the menu and goes to the window of the hovered item.
    #[verifier::opaque]
    pub open spec fn menu_activated(self) -> ContextView {
        match self.window_menu {
            Some(menu) => if menu.hovered is Some {
                let c = self.alt_tab_cleared().menu_dropped();
                match menu.hovered_window() {
                    Some(id) => c.brought_up(id),
                    None => c,
                }
            } else {
                self
            },
            None => self,
        }
    }

    /// Shows a window in front of all others and focuses it, if it exists.
    #[verifier::opaque]
    pub open spec fn brought_up(self, id: WindowId) -> ContextView {
        match self.window_index(id) {
            Some(i) => self.window_raised(id).stale_if(self.windows[i].hidden).focus(id),
            None => self,
        }
    }

    /// Selects an icon, or none, on the desktop of an output.
    #[verifier::opaque]
    pub open spec fn icon_chosen(self, output: OutputId, icon: Option<WindowId>) -> ContextView {
        match self.output_index(output) {
            Some(k) => ContextView {
                outputs: self.outputs.update(k, self.outputs[k].icon_selected(icon)),
                ..self
            },
            None => self,
        }
    }

    /// Gives the keyboard to the icons of a desktop.
    #[verifier::opaque]
    pub open spec fn icon_focus_entered(
        self,
        output: OutputId,
        window: WindowId,
        seat: SeatId,
    ) -> ContextView {
        let c = ContextView {
            icon_focus_output: Some(output),
            ..self.icon_chosen(output, Some(window))
        };
        match c.seat_index(seat) {
            Some(j) => ContextView {
                seats: c.seats.update(
                    j,
                    c.seats[j].queued(Action::ClearFocus@).queued(
                        (Action::SwitchMode { mode: Mode::DesktopIcons })@,
                    ),
                ),
                ..c
            },
            None => c,
        }
    }

    /// Takes the keyboard from the icons of a desktop.
    #[verifier::opaque]
    pub open spec fn icon_focus_left(self, seat: SeatId) -> ContextView {
        let c = match self.icon_focus_output {
            Some(output) => (ContextView { icon_focus_output: None, ..self }).icon_chosen(
                output,
                None,
            ),
            None => self,
        };
        match c.seat_index(seat) {
            Some(j) => c.commit_seat(j, c.staged_seat(j).switch_mode(Mode::Default)),
            None => c,
        }
    }

    /// Selects another icon of the desktop that has the keyboard.
    #[verifier::opaque]
    pub open spec fn icon_navigated(self, dx: int, dy: int) -> ContextView {
        match self.icon_focus_output {
            Some(output) => match self.output(output) {
                Some(o) => match o.desktop_surface {
                    Some(desktop) => if desktop.icons.len() == 0 {
                        self
                    } else {
                        self.icon_chosen(output, Some(desktop.navigated(dx, dy)))
                    },
                    None => self,
                },
                None => self,
            },
            None => self,
        }
    }

    /// The selected icon of the desktop of an output.
    pub open spec fn selected_icon(self, output: OutputId) -> Option<WindowId> {
        match self.output(output) {
            Some(o) => match o.desktop_surface {
                Some(desktop) => desktop.selected_icon,
                None => None,
            },
            None => None,
        }
    }

    /// Goes back to the window of the selected icon.
    #[verifier::opaque]
    pub open spec fn icon_activated(self, seat: SeatId) -> ContextView {
        match self.icon_focus_output {
            Some(output) => match self.selected_icon(output) {
                Some(id) => self.window_raised(id).desktops_stale().icon_focus_left(seat).focus(id),
                None => self.icon_focus_left(seat),
            },
            None => self,
        }
    }
}

/// The icon that is reached from one by a step. Steps along a row wrap around;
/// a step up or down that would leave the icons is not taken.
pub open spec fn next_icon(count: int, cols: int, current: int, dx: int, dy: int) -> int {
    if dy != 0 {
        let candidate = current + dy * cols;
        if 0 <= candidate < count {
            candidate
        } else {
            current
        }
    } else {
        (current + dx) % count
    }
}

fn step_icon(count: usize, cols: i32, current: usize, dx: i32, dy: i32) -> (r: usize)
    requires
        current < count,
        cols >= 1,
    ensures
        r == next_icon(count as int, cols as int, current as int, dx as int, dy as int),
        r < count,
{
    if dy != 0 {
        assert(-0x8000_0000 * 0x7fff_ffff <= dy * cols <= 0x7fff_ffff * 0x7fff_ffff)
            by (nonlinear_arith)
            requires
                -0x8000_0000 <= dy <= 0x7fff_ffff,
                1 <= cols <= 0x7fff_ffff,
        ;
        let step: i64 = dy as i64 * cols as i64;
        let candidate: i128 = current as i128 + step as i128;
        if candidate < 0 || candidate >= count as i128 {
            current
        } else {
            candidate as usize
        }
    } else {
        let candidate: i128 = current as i128 + dx as i128;
        let n: i128 = count as i128;
        if candidate >= 0 {
            (candidate % n) as usize
        } else {
            let back: i128 = -candidate;
            let over: i128 = back % n;
            let r: i128 = if over == 0 {
                0
            } else {
                n - over
            };
            proof {
                let q = back as int / n as int;
                vstd::arithmetic::div_mod::lemma_fundamental_div_mod(back as int, n as int);
                if over == 0 {
                    assert(candidate == (-q) * n + 0) by (nonlinear_arith)
                        requires
                            candidate == -back,
                            back == n * q + over,
                            over == 0,
                    ;
                    vstd::arithmetic::div_mod::lemma_fundamental_div_mod_converse(
                        candidate as int,
                        n as int,
                        -q,
                        0,
                    );
                } else {
                    assert(candidate == (-q - 1) * n + (n - over)) by (nonlinear_arith)
                        requires
                            candidate == -back,
                            back == n * q + over,
                    ;
                    vstd::arithmetic::div_mod::lemma_fundamental_div_mod_converse(
                        candidate as int,
                        n as int,
                        -q - 1,
                        n - over,
                    );
                }
            }
            r as usize
        }
    }
}

impl DesktopView {
    /// The window of the icon that is reached from the selected one by a step.
    pub open spec fn navigated(self, dx: int, dy: int) -> WindowId {
        let current = match self.selected_index() {
            Some(i) => i,
            None => 0,
        };
        let cols = if self.icon_cols > 1 {
            self.icon_cols as int
        } else {
            1
        };
        self.icons[next_icon(self.icons.len() as int, cols, current, dx, dy)].window_id
    }
}

impl DesktopSurface {
    /// The window of the icon that is reached from the selected one by a step
    pub fn navigate(&self, dx: i32, dy: i32) -> (r: Option<WindowId>)
        ensures
            r == (if self@.icons.len() == 0 {
                None
            } else {
                Some(self@.navigated(dx as int, dy as int))
            }),
    {
        let count: usize = self.icon_count();
        if count == 0 {
            return None;
        }
        let cols: i32 = if self.icon_cols > 1 {
            self.icon_cols
        } else {
            1
        };
        let current: usize = match self.selected_icon_index() {
            Some(i) => i,
            None => 0,
        };
        self.icon_window_at_index(step_icon(count, cols, current, dx, dy))
    }
}

impl Context {
    fn collect_items(&self, app_id: Option<&str>) -> (r: Vec<MenuItem>)
        ensures
            crate::canoe::menu::item_views(r@) == menu_items(self@, crate::text::opt_str(app_id)),
    {
        let ghost wanted = crate::text::opt_str(app_id);
        let mut items: Vec<MenuItem> = Vec::new();
        let mut k: usize = 0;
        assert(crate::canoe::menu::item_views(items@) =~= stacked_items(
            self@,
            self@.focus_stack.take(0),
            wanted,
        ));
        while k < self.focus_stack.len()
            invariant
                k <= self.focus_stack@.len(),
                wanted == crate::text::opt_str(app_id),
                crate::canoe::menu::item_views(items@) == stacked_items(
                    self@,
                    self@.focus_stack.take(k as int),
                    wanted,
                ),
            decreases self.focus_stack@.len() - k,
        {
            assert(self@.focus_stack.take(k + 1).drop_last() =~= self@.focus_stack.take(k as int));
            let ghost before = crate::canoe::menu::item_views(items@);
            if let Some(i) = self.find_window(self.focus_stack[k]) {
                if is_of_app(&self.windows[i], app_id) {
                    items.push(menu_item_from_window(self.focused_window, &self.windows[i]));
                    assert(crate::canoe::menu::item_views(items@) =~= before.push(
                        menu_item(self@.windows[i as int], self@.focused_window),
                    ));
                }
            }
            k = k + 1;
        }
        assert(self@.focus_stack.take(k as int) =~= self@.focus_stack);
        let ghost stacked = crate::canoe::menu::item_views(items@);
        let known: usize = items.len();
        let mut i: usize = 0;
        assert(self@.windows.take(0).len() == 0);
        while i < self.windows.len()
            invariant
                i <= self.windows@.len(),
                known == stacked.len(),
                wanted == crate::text::opt_str(app_id),
                crate::canoe::menu::item_views(items@) == with_other_items(
                    stacked,
                    self@.focused_window,
                    self@.windows.take(i as int),
                    wanted,
                ),
            decreases self.windows@.len() - i,
        {
            let ghost before = crate::canoe::menu::item_views(items@);
            proof {
                assert(self@.windows.take(i + 1).drop_last() =~= self@.windows.take(i as int));
                assert(self@.windows[i as int] == self.windows@[i as int]@);
                lemma_other_items_extend(
                    stacked,
                    self@.focused_window,
                    self@.windows.take(i as int),
                    wanted,
                );
                assert(before.len() == items@.len());
            }
            let w = &self.windows[i];
            if is_of_app(w, app_id) && !is_listed(&items, known, w.id) {
                items.push(menu_item_from_window(self.focused_window, w));
                assert(crate::canoe::menu::item_views(items@) =~= before.push(
                    menu_item(self@.windows[i as int], self@.focused_window),
                ));
            }
            i = i + 1;
        }
        assert(self@.windows.take(i as int) =~= self@.windows);
        items
    }

    /// Build menu items for windows (including hidden).
    pub fn collect_menu_items(&self, _output_id: OutputId) -> (r: Vec<MenuItem>)
        ensures
            crate::canoe::menu::item_views(r@) == menu_items(self@, None),
    {
        self.collect_items(None)
    }

    /// Build menu items for windows sharing the given app id (including hidden).
    pub fn collect_menu_items_for_app(&self, _output_id: OutputId, app_id: &str) -> (r: Vec<MenuItem>)
        ensures
            crate::canoe::menu::item_views(r@) == menu_items(self@, Some(app_id@)),
    {
        self.collect_items(Some(app_id))
    }

    /// Update menu hover based on surface-local pointer position.
    pub fn update_menu_hover(&mut self, x: i32, y: i32) -> (changed: bool)
        ensures
            final(self)@ == (match old(self)@.window_menu {
                Some(menu) => ContextView {
                    window_menu: Some(MenuView { hovered: menu.item_at(x, y), ..menu }),
                    ..old(self)@
                },
                None => old(self)@,
            }),
            changed == (match old(self)@.window_menu {
                Some(menu) => menu.hovered != menu.item_at(x, y),
                None => false,
            }),
    {
        if let Some(menu) = &mut self.window_menu {
            return menu.update_hover(x, y);
        }
        false
    }

    fn drop_menu(&mut self)
        ensures
            final(self)@ == old(self)@.menu_dropped(),
    {
        self.window_menu = None;
        self.window_menu_mode = None;
        self.window_menu_shield = None;
    }

    fn clear_alt_tab_state(&mut self)
        ensures
            final(self)@ == old(self)@.alt_tab_cleared(),
    {
        self.window_menu_alt_tab_stack = None;
        self.window_menu_alt_tab_focused = None;
        self.window_menu_alt_tab_preview = None;
        self.window_menu_alt_tab_preview_was_hidden = false;
    }

    fn stale_if(&mut self, changed: bool)
        ensures
            final(self)@ == old(self)@.stale_if(changed),
    {
        proof {
            reveal(ContextView::stale_if);
        }
        if changed {
            self.mark_all_desktops_dirty();
        }
    }

    fn raise_window(&mut self, window_id: WindowId)
        ensures
            final(self)@ == old(self)@.window_raised(window_id),
    {
        proof {
            reveal(ContextView::window_raised);
        }
        if let Some(i) = self.find_window(window_id) {
            let ghost before = self@;
            self.windows[i].bring_up(&mut self.requests);
            assert(self@ =~= before.commit(i as int, before.staged(i as int).raised()));
        }
    }

    /// Show a window in front of all others and focus it, if it exists
    pub fn bring_up(&mut self, window_id: WindowId)
        ensures
            final(self)@ == old(self)@.brought_up(window_id),
    {
        proof {
            reveal(ContextView::brought_up);
        }
        if let Some(i) = self.find_window(window_id) {
            let was_hidden: bool = self.windows[i].hidden;
            self.raise_window(window_id);
            self.stale_if(was_hidden);
            self.focus(window_id);
        }
    }

    /// Activate the currently hovered menu item.
    pub fn activate_menu_hovered(&mut self)
        ensures
            final(self)@ == old(self)@.menu_activated(),
    {
        proof {
            reveal(ContextView::menu_activated);
        }
        let window_id: Option<WindowId> = match &self.window_menu {
            Some(menu) => {
                if menu.hovered.is_none() {
                    return;
                }
                menu.hovered_window()
            },
            None => return,
        };
        self.clear_alt_tab_state();
        self.drop_menu();
        if let Some(window_id) = window_id {
            self.bring_up(window_id);
        }
    }

    /// Close the window menu if open.
    pub fn close_window_menu(&mut self)
        ensures
            final(self)@ == old(self)@.menu_closed(),
    {
        proof {
            reveal(ContextView::menu_closed);
        }
        if self.window_menu_mode == Some(WindowMenuMode::AltTab) {
            self.restore_alt_tab_state();
        } else {
            self.clear_alt_tab_state();
        }
        self.drop_menu();
    }

    /// Remember focus and focus order before alt-tab changes them
    pub fn begin_alt_tab(&mut self)
        ensures
            final(self)@ == old(self)@.alt_tab_begun(),
    {
        proof {
            reveal(ContextView::alt_tab_begun);
        }
        if self.window_menu_alt_tab_stack.is_some() {
            return;
        }
        self.window_menu_alt_tab_stack = Some(copy_ids(&self.focus_stack));
        self.window_menu_alt_tab_focused = self.focused_window;
        self.window_menu_alt_tab_preview = None;
        self.window_menu_alt_tab_preview_was_hidden = false;
    }

    fn withdraw_preview(&mut self) -> (changed: bool)
        ensures
            final(self)@ == old(self)@.preview_withdrawn(),
            changed == old(self)@.preview_uncovered(),
    {
        proof {
            reveal(ContextView::preview_withdrawn);
        }
        let mut changed: bool = false;
        if let Some(prev_id) = self.window_menu_alt_tab_preview {
            if self.window_menu_alt_tab_preview_was_hidden {
                if let Some(i) = self.find_window(prev_id) {
                    let ghost before = self@;
                    self.windows[i].conceal(&mut self.requests);
                    assert(self@ =~= before.commit(i as int, before.staged(i as int).conceal()));
                    changed = true;
                }
            }
        }
        self.window_menu_alt_tab_preview = None;
        self.window_menu_alt_tab_preview_was_hidden = false;
        changed
    }

    fn restore_stack_order(&mut self)
        ensures
            final(self)@ == old(self)@.alt_tab_order_restored(),
    {
        proof {
            reveal(ContextView::alt_tab_order_restored);
        }
        let order: Vec<WindowId> = match &self.window_menu_alt_tab_stack {
            Some(order) => copy_ids(order),
            None => return,
        };
        let ghost goal = self@.stack_restored(order@);
        let mut k: usize = order.len();
        assert(order@.take(k as int) =~= order@);
        while k > 0
            invariant
                k <= order@.len(),
                self@.stack_restored(order@.take(k as int)) == goal,
            decreases k,
        {
            k = k - 1;
            assert(order@.take(k + 1).drop_last() =~= order@.take(k as int));
            self.raise(order[k]);
        }
    }

    pub fn raise(&mut self, window_id: WindowId)
        ensures
            final(self)@ == old(self)@.placed_top(window_id),
    {
        proof {
            reveal(ContextView::placed_top);
        }
        if let Some(i) = self.find_window(window_id) {
            self.windows[i].place_top(&mut self.requests);
        }
    }

    /// Show a window as the one that alt-tab would switch to
    pub fn preview_alt_tab_window(&mut self, window_id: WindowId)
        ensures
            final(self)@ == old(self)@.alt_tab_previewed(window_id),
    {
        proof {
            reveal(ContextView::alt_tab_previewed);
        }
        if self.window_menu_mode != Some(WindowMenuMode::AltTab) {
            return;
        }
        self.begin_alt_tab();
        if self.window_menu_alt_tab_preview == Some(window_id) {
            return;
        }
        let changed: bool = self.withdraw_preview();
        self.restore_stack_order();
        self.show_preview(window_id, changed);
    }

    fn set_preview(&mut self, window_id: WindowId, was_hidden: bool)
        ensures
            final(self)@ == old(self)@.preview_set(window_id, was_hidden),
    {
        proof {
            reveal(ContextView::preview_set);
        }
        self.window_menu_alt_tab_preview = Some(window_id);
        self.window_menu_alt_tab_preview_was_hidden = was_hidden;
    }

    fn show_preview(&mut self, window_id: WindowId, changed: bool)
        ensures
            final(self)@ == old(self)@.preview_shown(window_id, changed),
    {
        proof {
            reveal(ContextView::preview_shown);
        }
        if let Some(i) = self.find_window(window_id) {
            let was_hidden: bool = self.windows[i].hidden;
            self.raise_window(window_id);
            self.focus_preview_visual(window_id);
            self.set_preview(window_id, was_hidden);
            self.stale_if(changed || was_hidden);
        } else {
            self.stale_if(changed);
        }
    }

    fn restore_alt_tab_state(&mut self)
        ensures
            final(self)@ == old(self)@.alt_tab_undone(),
    {
        proof {
            reveal(ContextView::alt_tab_undone);
        }
        let changed: bool = self.withdraw_preview();
        self.restore_stack_order();
        if let Some(window_id) = self.window_menu_alt_tab_focused {
            if self.find_window(window_id).is_some() {
                self.focus_preview(window_id);
            }
        }
        self.clear_alt_tab_state();
        self.stale_if(changed);
    }

    pub fn choose_icon(&mut self, output_id: OutputId, icon: Option<WindowId>)
        ensures
            final(self)@ == old(self)@.icon_chosen(output_id, icon),
    {
        proof {
            reveal(ContextView::icon_chosen);
        }
        if let Some(k) = self.find_output(output_id) {
            let ghost before = self@;
            self.outputs[k].select_icon(icon);
            assert(self@ =~= ContextView {
                outputs: before.outputs.update(
                    k as int,
                    before.outputs[k as int].icon_selected(icon),
                ),
                ..before
            });
        }
    }

    /// Enter desktop icon keyboard focus mode.
    ///
    /// Sets local selection state synchronously and queues the protocol-bound
    /// work (clear keyboard focus, switch seat mode) as actions so they run
    /// inside the next manage sequence. Callers must follow up with
    /// `manage_dirty` to trigger that sequence.
    pub fn enter_icon_focus(&mut self, output_id: OutputId, window_id: WindowId, seat_id: SeatId)
        ensures
            final(self)@ == old(self)@.icon_focus_entered(output_id, window_id, seat_id),
    {
        proof {
            reveal(ContextView::icon_focus_entered);
        }
        self.choose_icon(output_id, Some(window_id));
        self.icon_focus_output = Some(output_id);
        if let Some(j) = self.find_seat(seat_id) {
            let ghost before = self@;
            self.seats[j].queue_action(Action::ClearFocus);
            self.seats[j].queue_action(Action::SwitchMode { mode: Mode::DesktopIcons });
            assert(self@.seats =~= before.seats.update(
                j as int,
                before.seats[j as int].queued(Action::ClearFocus@).queued(
                    (Action::SwitchMode { mode: Mode::DesktopIcons })@,
                ),
            ));
        }
    }

    /// Exit desktop icon keyboard focus mode.
    pub fn exit_icon_focus(&mut self, seat_id: SeatId)
        ensures
            final(self)@ == old(self)@.icon_focus_left(seat_id),
    {
        proof {
            reveal(ContextView::icon_focus_left);
        }
        if let Some(output_id) = self.icon_focus_output {
            self.icon_focus_output = None;
            assert(self@ =~= ContextView { icon_focus_output: None, ..old(self)@ });
            self.choose_icon(output_id, None);
        }
        if let Some(j) = self.find_seat(seat_id) {
            let ghost before = self@;
            self.seats[j].switch_mode(Mode::Default, &mut self.requests);
            assert(self@ =~= before.commit_seat(
                j as int,
                before.staged_seat(j as int).switch_mode(Mode::Default),
            ));
        }
    }

    /// Navigate icon selection by (dx, dy) in the icon grid.
    pub fn icon_navigate(&mut self, dx: i32, dy: i32)
        ensures
            final(self)@ == old(self)@.icon_navigated(dx as int, dy as int),
    {
        proof {
            reveal(ContextView::icon_navigated);
        }
        let output_id: OutputId = match self.icon_focus_output {
            Some(id) => id,
            None => return,
        };
        let mut chosen: Option<WindowId> = None;
        if let Some(k) = self.find_output(output_id) {
            if let Some(desktop) = &self.outputs[k].desktop_surface {
                chosen = desktop.navigate(dx, dy);
            }
        }
        if chosen.is_some() {
            self.choose_icon(output_id, chosen);
        }
    }

    /// Activate (restore) the selected desktop icon window.
    pub fn icon_activate(&mut self, seat_id: SeatId)
        ensures
            final(self)@ == old(self)@.icon_activated(seat_id),
    {
        proof {
            reveal(ContextView::icon_activated);
        }
        let output_id: OutputId = match self.icon_focus_output {
            Some(id) => id,
            None => return,
        };
        let mut selected: Option<WindowId> = None;
        if let Some(k) = self.find_output(output_id) {
            if let Some(desktop) = &self.outputs[k].desktop_surface {
                selected = desktop.selected_icon;
            }
        }
        match selected {
            Some(window_id) => {
                self.raise_window(window_id);
                self.mark_all_desktops_dirty();
                self.exit_icon_focus(seat_id);
                self.focus(window_id);
            },
            None => self.exit_icon_focus(seat_id),
        }
    }
}

} // verus!
