//! Window menu rendering and interaction.

use vstd::prelude::*;
use crate::canoe::{OutputId, WindowId};
use crate::config::{FontSize, UiConfig, UiConfigView};
use crate::num::{larger, max_i32, max_i64, quot, sat, smaller, to_i32};
use crate::protocol::ObjectId;
use crate::search::{first, lemma_first_is, lemma_first_none};
use crate::text::{clone_opt, opt_text};

verus! {

/// Menu entry data.
#[derive(Debug)]
pub struct MenuItem {
    pub window_id: WindowId,
    pub title: String,
    pub hidden: bool,
    pub active: bool,
}

/// A [`MenuItem`] by its contents.
pub struct MenuItemView {
    pub window_id: WindowId,
    pub title: Seq<char>,
    pub hidden: bool,
    pub active: bool,
}

impl View for MenuItem {
    type V = MenuItemView;

    open spec fn view(&self) -> MenuItemView {
        MenuItemView {
            window_id: self.window_id,
            title: self.title@,
            hidden: self.hidden,
            active: self.active,
        }
    }
}

pub open spec fn item_views(s: Seq<MenuItem>) -> Seq<MenuItemView> {
    s.map_values(|item: MenuItem| item@)
}

pub const MENU_BORDER: i32 = 1;

pub const ITEM_PADDING_X: i32 = 8;

pub const ITEM_PADDING_Y: i32 = 4;

pub const ICON_SIZE: i32 = 10;

pub const ICON_GAP: i32 = 6;

pub const ACTIVE_DIAMOND_SIZE: i32 = 8;

/// Fallback flat drop-shadow size used when soft shadows are disabled.
pub const L_SHADOW_SIZE: i32 = 3;

pub const L_SHADOW_COLOR: u32 = 0x404040FF;

pub const BORDER_COLOR: u32 = 0x000000FF;

/// Menu width, without shadows, where no text can be measured.
pub const FALLBACK_WIDTH: i32 = 120;

#[derive(Debug)]
pub struct MenuTheme {
    pub font_name: Option<String>,
    pub font_size: FontSize,
    pub bg: u32,
    pub text: u32,
    pub highlight_bg: u32,
    pub highlight_text: u32,
    pub titlebar_bg: u32,
    pub titlebar_text: u32,
    /// When true, render a soft drop shadow with `shadow_size` / `shadow_color`.
    /// When false, fall back to the flat L-shape drop shadow.
    pub shadows_enabled: bool,
    pub shadow_size: i32,
    pub shadow_color: u32,
}

/// A [`MenuTheme`] by its contents.
pub struct MenuThemeView {
    pub font_name: Option<Seq<char>>,
    pub font_size: FontSize,
    pub bg: u32,
    pub text: u32,
    pub highlight_bg: u32,
    pub highlight_text: u32,
    pub titlebar_bg: u32,
    pub titlebar_text: u32,
    pub shadows_enabled: bool,
    pub shadow_size: i32,
    pub shadow_color: u32,
}

impl View for MenuTheme {
    type V = MenuThemeView;

    open spec fn view(&self) -> MenuThemeView {
        MenuThemeView {
            font_name: opt_text(self.font_name),
            font_size: self.font_size,
            bg: self.bg,
            text: self.text,
            highlight_bg: self.highlight_bg,
            highlight_text: self.highlight_text,
            titlebar_bg: self.titlebar_bg,
            titlebar_text: self.titlebar_text,
            shadows_enabled: self.shadows_enabled,
            shadow_size: self.shadow_size,
            shadow_color: self.shadow_color,
        }
    }
}

/// The menu colours of a theme.
pub open spec fn theme_from_ui(ui: UiConfigView) -> MenuThemeView {
    MenuThemeView {
        font_name: ui.font_name,
        font_size: ui.font_size,
        bg: ui.menu_bg,
        text: ui.menu_text,
        highlight_bg: ui.menu_highlight_bg,
        highlight_text: ui.menu_highlight_text,
        titlebar_bg: ui.titlebar_bg_inactive,
        titlebar_text: ui.titlebar_text_inactive,
        shadows_enabled: ui.shadows_enabled,
        shadow_size: larger(ui.shadows_active_size as int, 0) as i32,
        shadow_color: ui.shadows_color,
    }
}

impl MenuThemeView {
    pub open spec fn shadow_left(self) -> int {
        if self.shadows_enabled {
            self.shadow_size as int
        } else {
            0
        }
    }

    pub open spec fn shadow_top(self) -> int {
        if self.shadows_enabled {
            quot(self.shadow_size as int, 2)
        } else {
            0
        }
    }

    pub open spec fn shadow_right(self) -> int {
        if self.shadows_enabled {
            self.shadow_size as int
        } else {
            L_SHADOW_SIZE as int
        }
    }

    pub open spec fn shadow_bottom(self) -> int {
        if self.shadows_enabled {
            self.shadow_size + quot(self.shadow_size as int, 2)
        } else {
            L_SHADOW_SIZE as int
        }
    }

    /// Height of one row.
    pub open spec fn item_height(self) -> int {
        larger(self.font_size.ceiling + ITEM_PADDING_Y * 2, 1)
    }
}

impl MenuTheme {
    pub fn from_ui(ui: &UiConfig) -> (r: Self)
        ensures
            r@ == theme_from_ui(ui@),
    {
        MenuTheme {
            font_name: clone_opt(&ui.font_name),
            font_size: ui.font_size,
            bg: ui.menu_bg,
            text: ui.menu_text,
            highlight_bg: ui.menu_highlight_bg,
            highlight_text: ui.menu_highlight_text,
            titlebar_bg: ui.titlebar_bg_inactive,
            titlebar_text: ui.titlebar_text_inactive,
            shadows_enabled: ui.shadows_enabled,
            shadow_size: max_i32(ui.shadows_active_size, 0),
            shadow_color: ui.shadows_color,
        }
    }

    /// Pixels of shadow that extend to the left of the menu content.
    pub fn shadow_left(&self) -> (r: i64)
        ensures
            r == self@.shadow_left(),
    {
        if self.shadows_enabled {
            self.shadow_size as i64
        } else {
            0
        }
    }

    /// Pixels of shadow that extend above the menu content. Soft mode uses
    /// half the nominal size so the shadow looks like it's cast by a light
    /// source above the menu (matching the window drop shadow).
    pub fn shadow_top(&self) -> (r: i64)
        ensures
            r == self@.shadow_top(),
    {
        if self.shadows_enabled {
            (self.shadow_size / 2) as i64
        } else {
            0
        }
    }

    /// Pixels of shadow that extend to the right of the menu content.
    pub fn shadow_right(&self) -> (r: i64)
        ensures
            r == self@.shadow_right(),
    {
        if self.shadows_enabled {
            self.shadow_size as i64
        } else {
            L_SHADOW_SIZE as i64
        }
    }

    /// Pixels of shadow that extend below the menu content. Soft mode uses
    /// 1.5x the nominal size to account for the downward offset of the
    /// rendered shape; matches the window drop shadow.
    pub fn shadow_bottom(&self) -> (r: i64)
        ensures
            r == self@.shadow_bottom(),
    {
        if self.shadows_enabled {
            self.shadow_size as i64 + (self.shadow_size / 2) as i64
        } else {
            L_SHADOW_SIZE as i64
        }
    }

    /// Height of one row
    pub fn item_height(&self) -> (r: i64)
        ensures
            r == self@.item_height(),
            r >= 1,
    {
        max_i64(self.font_size.ceiling as i64 + ITEM_PADDING_Y as i64 * 2, 1)
    }
}

/// What a drawn menu depends on.
#[derive(Debug, Clone, Copy, PartialEq, Eq, Structural)]
pub struct MenuCacheKey {
    pub width: i32,
    pub height: i32,
    pub scale: i32,
    pub font_size: FontSize,
    pub bg: u32,
    pub text: u32,
    pub highlight_bg: u32,
    pub highlight_text: u32,
    pub titlebar_bg: u32,
    pub titlebar_text: u32,
    pub items_hash: u64,
    pub header_hash: u64,
}

/// Window menu surface and state.
#[derive(Debug)]
pub struct WindowMenu {
    pub surface: ObjectId,
    pub layer_surface: ObjectId,
    /// Whether a buffer exists.
    pub buffer: bool,
    pub width: i32,
    pub height: i32,
    pub buffer_width: i32,
    pub buffer_height: i32,
    pub scale: i32,
    pub configured: bool,
    pub items: Vec<MenuItem>,
    pub header_title: Option<String>,
    pub hovered: Option<usize>,
    pub output_id: OutputId,
    pub origin_x: i32,
    pub origin_y: i32,
    pub theme: MenuTheme,
    /// What the cached picture of the menu shows, if there is one.
    pub cache: Option<MenuCacheKey>,
}

/// A [`WindowMenu`] by its contents.
#[verifier::ext_equal]
pub struct MenuView {
    pub surface: ObjectId,
    pub layer_surface: ObjectId,
    pub buffer: bool,
    pub width: i32,
    pub height: i32,
    pub buffer_width: i32,
    pub buffer_height: i32,
    pub scale: i32,
    pub configured: bool,
    pub items: Seq<MenuItemView>,
    pub header_title: Option<Seq<char>>,
    pub hovered: Option<usize>,
    pub output_id: OutputId,
    pub origin_x: i32,
    pub origin_y: i32,
    pub theme: MenuThemeView,
    pub cache: Option<MenuCacheKey>,
}

impl View for WindowMenu {
    type V = MenuView;

    open spec fn view(&self) -> MenuView {
        MenuView {
            surface: self.surface,
            layer_surface: self.layer_surface,
            buffer: self.buffer,
            width: self.width,
            height: self.height,
            buffer_width: self.buffer_width,
            buffer_height: self.buffer_height,
            scale: self.scale,
            configured: self.configured,
            items: item_views(self.items@),
            header_title: opt_text(self.header_title),
            hovered: self.hovered,
            output_id: self.output_id,
            origin_x: self.origin_x,
            origin_y: self.origin_y,
            theme: self.theme@,
            cache: self.cache,
        }
    }
}

/// Width and height of a menu with `rows` rows whose widest text, where text
/// could be measured, is `text_width` wide.
pub open spec fn menu_size(theme: MenuThemeView, rows: int, text_width: Option<i32>) -> (i32, i32) {
    let pad_w = theme.shadow_left() + theme.shadow_right();
    let pad_h = theme.shadow_top() + theme.shadow_bottom();
    match text_width {
        Some(text_width) => (
            sat(ITEM_PADDING_X * 2 + ICON_SIZE + ICON_GAP + text_width + MENU_BORDER * 2 + pad_w),
            sat(theme.item_height() * rows + MENU_BORDER * 2 + pad_h),
        ),
        None => (
            sat(FALLBACK_WIDTH + pad_w),
            sat(larger(rows * theme.item_height(), 1) + MENU_BORDER * 2 + pad_h),
        ),
    }
}

/// Holds of the width of the widest text, which is never below zero, among
/// those that could be measured; `None` if none could.
pub open spec fn is_widest(widths: Seq<Option<i32>>, r: Option<i32>) -> bool {
    match r {
        Some(width) => {
            &&& width >= 0
            &&& exists|i: int| 0 <= i < widths.len() && #[trigger] widths[i] is Some
            &&& forall|i: int|
                0 <= i < widths.len() ==> (#[trigger] widths[i] matches Some(w) ==> w <= width)
            &&& width == 0 || widths.contains(Some(width))
        },
        None => forall|i: int| 0 <= i < widths.len() ==> #[trigger] widths[i] is None,
    }
}

/// The width of the widest of some texts, each with its width if it could be
/// measured
pub fn widest_text(widths: &Vec<Option<i32>>) -> (r: Option<i32>)
    ensures
        is_widest(widths@, r),
{
    let mut r: Option<i32> = None;
    let mut i: usize = 0;
    while i < widths.len()
        invariant
            i <= widths@.len(),
            is_widest(widths@.take(i as int), r),
        decreases widths@.len() - i,
    {
        let ghost earlier = widths@.take(i as int);
        let ghost now = widths@.take(i + 1);
        assert(now =~= earlier.push(widths@[i as int]));
        let ghost before = r;
        if let Some(w) = widths[i] {
            let least: i32 = match r {
                Some(width) => width,
                None => 0,
            };
            r = Some(max_i32(w, least));
        }
        proof {
            assert forall|j: int| 0 <= j < now.len() implies (#[trigger] now[j] matches Some(w)
                ==> r matches Some(width) && w <= width) by {
                if j < i {
                    assert(now[j] == earlier[j]);
                }
            }
            assert(now[i as int] == widths@[i as int]);
            if before is Some {
                let k = choose|k: int| 0 <= k < earlier.len() && #[trigger] earlier[k] is Some;
                assert(now[k] is Some);
                if earlier.contains(before) {
                    let k = choose|k: int| 0 <= k < earlier.len() && earlier[k] == before;
                    assert(now[k] == before);
                }
            }
        }
        i = i + 1;
    }
    assert(widths@.take(i as int) =~= widths@);
    r
}

/// The number of rows: one per item, and one for the header where there is one.
pub open spec fn row_count(items: nat, header: bool) -> int {
    smaller(items as int, i32::MAX as int) + if header {
        1int
    } else {
        0int
    }
}

/// The shape of a menu: how many rows of what height, and how wide.
///
/// `text_width` is the width of the widest title in whole pixels, rounded up,
/// or `None` if no title could be measured.
pub fn measure_menu(items: usize, theme: &MenuTheme, header: bool, text_width: Option<i32>) -> (r: (i32, i32))
    ensures
        r == menu_size(theme@, row_count(items as nat, header), text_width),
{
    let count: i64 = if items <= i32::MAX as usize {
        items as i64
    } else {
        i32::MAX as i64
    };
    let rows: i64 = count + if header {
        1
    } else {
        0
    };
    let pad_w: i64 = theme.shadow_left() + theme.shadow_right();
    let pad_h: i64 = theme.shadow_top() + theme.shadow_bottom();
    let item_h: i64 = theme.item_height();
    assert(0 <= item_h * rows <= 0x8000_0007 * 0x8000_0000) by (nonlinear_arith)
        requires
            1 <= item_h <= 0x8000_0007,
            0 <= rows <= 0x8000_0000,
    ;
    let body: i64 = item_h * rows;
    assert(rows * item_h == item_h * rows) by (nonlinear_arith);
    match text_width {
        Some(text_width) => {
            let menu_w: i64 = ITEM_PADDING_X as i64 * 2 + ICON_SIZE as i64 + ICON_GAP as i64
                + text_width as i64 + MENU_BORDER as i64 * 2;
            let menu_h: i64 = body + MENU_BORDER as i64 * 2;
            (to_i32(menu_w + pad_w), to_i32(menu_h + pad_h))
        },
        None => {
            let menu_h: i64 = max_i64(body, 1) + MENU_BORDER as i64 * 2;
            (to_i32(FALLBACK_WIDTH as i64 + pad_w), to_i32(menu_h + pad_h))
        },
    }
}

impl MenuView {
    /// Width of the menu without its shadow.
    pub open spec fn menu_width(self) -> int {
        larger(self.width - self.theme.shadow_left() - self.theme.shadow_right(), 0)
    }

    /// Height of the menu without its shadow.
    pub open spec fn menu_height(self) -> int {
        larger(self.height - self.theme.shadow_top() - self.theme.shadow_bottom(), 0)
    }

    pub open spec fn header_height(self) -> int {
        if self.header_title is Some {
            self.theme.item_height()
        } else {
            0
        }
    }

    /// The item at a point of the surface. The border, the shadow and the
    /// header belong to no item.
    pub open spec fn item_at(self, x: i32, y: i32) -> Option<usize> {
        let left = self.theme.shadow_left() + MENU_BORDER;
        let top = self.theme.shadow_top() + MENU_BORDER;
        let right = left + self.menu_width() - MENU_BORDER * 2;
        let bottom = top + self.menu_height() - MENU_BORDER * 2;
        let first_row = top + self.header_height();
        let row = (y - first_row) / self.theme.item_height();
        if left <= x < right && top <= y < bottom && first_row <= y && row < self.items.len() {
            Some(row as usize)
        } else {
            None
        }
    }

    /// The window of the hovered item.
    pub open spec fn hovered_window(self) -> Option<WindowId> {
        match self.hovered {
            Some(i) if i < self.items.len() => Some(self.items[i as int].window_id),
            _ => None,
        }
    }

    /// The item after the hovered one, the first one after the last.
    pub open spec fn next_item(self) -> Option<usize> {
        if self.items.len() == 0 {
            self.hovered
        } else {
            match self.hovered {
                Some(i) if i < usize::MAX => Some(((i + 1) % (self.items.len() as int)) as usize),
                _ => Some(0),
            }
        }
    }

    /// Surface-local point that should sit under the pointer when the menu is
    /// opened.
    pub open spec fn pointer_anchor(self) -> (i32, i32) {
        let half_row = self.theme.item_height() / 2;
        (
            sat(self.theme.shadow_left() + half_row),
            sat(self.theme.shadow_top() + MENU_BORDER + half_row),
        )
    }
}

/// Holds of the items of one window.
pub open spec fn shows_window(window_id: WindowId) -> spec_fn(MenuItemView) -> bool {
    |item: MenuItemView| item.window_id == window_id
}

impl WindowMenu {
    /// Create a menu of the given items
    pub fn new(
        surface: ObjectId,
        layer_surface: ObjectId,
        output_id: OutputId,
        items: Vec<MenuItem>,
        header_title: Option<String>,
        origin_x: i32,
        origin_y: i32,
        theme: MenuTheme,
        text_width: Option<i32>,
    ) -> (r: Self)
        ensures
            r@ == ({
                let size = menu_size(
                    theme@,
                    row_count(items@.len(), header_title is Some),
                    text_width,
                );
                MenuView {
                    surface,
                    layer_surface,
                    buffer: false,
                    width: size.0,
                    height: size.1,
                    buffer_width: size.0,
                    buffer_height: size.1,
                    scale: 1,
                    configured: false,
                    items: item_views(items@),
                    header_title: opt_text(header_title),
                    hovered: None,
                    output_id,
                    origin_x,
                    origin_y,
                    theme: theme@,
                    cache: None,
                }
            }),
    {
        let (width, height): (i32, i32) = measure_menu(
            items.len(),
            &theme,
            header_title.is_some(),
            text_width,
        );
        WindowMenu {
            surface,
            layer_surface,
            buffer: false,
            width,
            height,
            buffer_width: width,
            buffer_height: height,
            scale: 1,
            configured: false,
            items,
            header_title,
            hovered: None,
            output_id,
            origin_x,
            origin_y,
            theme,
            cache: None,
        }
    }

    /// Give the buffer up
    pub fn reset_buffer(&mut self)
        ensures
            final(self)@ == (MenuView { buffer: false, ..old(self)@ }),
    {
        self.buffer = false;
    }

    pub fn menu_width(&self) -> (r: i64)
        ensures
            r == self@.menu_width(),
    {
        max_i64(self.width as i64 - self.theme.shadow_left() - self.theme.shadow_right(), 0)
    }

    pub fn menu_height(&self) -> (r: i64)
        ensures
            r == self@.menu_height(),
    {
        max_i64(self.height as i64 - self.theme.shadow_top() - self.theme.shadow_bottom(), 0)
    }

    pub fn header_height(&self) -> (r: i64)
        ensures
            r == self@.header_height(),
    {
        if self.header_title.is_some() {
            self.theme.item_height()
        } else {
            0
        }
    }

    /// The item at a point of the surface
    pub fn item_at(&self, x: i32, y: i32) -> (r: Option<usize>)
        ensures
            r == self@.item_at(x, y),
    {
        let content_x: i64 = self.theme.shadow_left() + MENU_BORDER as i64;
        let content_y: i64 = self.theme.shadow_top() + MENU_BORDER as i64;
        let content_w: i64 = self.menu_width() - MENU_BORDER as i64 * 2;
        let content_h: i64 = self.menu_height() - MENU_BORDER as i64 * 2;
        let x: i64 = x as i64;
        let y: i64 = y as i64;
        if x < content_x || y < content_y || x >= content_x + content_w || y >= content_y
            + content_h {
            return None;
        }
        let header_h: i64 = self.header_height();
        let item_h: i64 = self.theme.item_height();
        if y < content_y + header_h {
            return None;
        }
        let row: i64 = (y - content_y - header_h) / item_h;
        assert(0 <= row <= y - content_y - header_h) by (nonlinear_arith)
            requires
                row == (y - content_y - header_h) as int / item_h as int,
                y - content_y - header_h >= 0,
                item_h >= 1,
        ;
        let row: usize = row as usize;
        if row < self.items.len() {
            Some(row)
        } else {
            None
        }
    }

    /// Hover the item at a point of the surface; tells whether that changed
    pub fn update_hover(&mut self, x: i32, y: i32) -> (changed: bool)
        ensures
            final(self)@ == (MenuView { hovered: old(self)@.item_at(x, y), ..old(self)@ }),
            changed == (old(self)@.hovered != old(self)@.item_at(x, y)),
    {
        let next = self.item_at(x, y);
        if next != self.hovered {
            self.hovered = next;
            return true;
        }
        false
    }

    /// Hover the next item, the first one after the last; tells whether that
    /// changed anything
    pub fn select_next(&mut self) -> (changed: bool)
        ensures
            final(self)@ == (MenuView { hovered: old(self)@.next_item(), ..old(self)@ }),
            changed == (old(self)@.hovered != old(self)@.next_item()),
    {
        if self.items.len() == 0 {
            return false;
        }
        let next: usize = match self.hovered {
            Some(idx) => if idx < usize::MAX {
                (idx + 1) % self.items.len()
            } else {
                0
            },
            None => 0,
        };
        if self.hovered != Some(next) {
            self.hovered = Some(next);
            return true;
        }
        false
    }

    /// Hover the item of a window; tells whether that changed anything
    pub fn select_window(&mut self, window_id: Option<WindowId>) -> (changed: bool)
        ensures
            final(self)@ == (MenuView {
                hovered: item_of(old(self)@.items, window_id),
                ..old(self)@
            }),
            changed == (old(self)@.hovered != item_of(old(self)@.items, window_id)),
    {
        let mut next: Option<usize> = None;
        if let Some(id) = window_id {
            let ghost items = self@.items;
            let mut i: usize = 0;
            while i < self.items.len() && next.is_none()
                invariant
                    i <= self.items@.len(),
                    self@ == old(self)@,
                    items == self@.items,
                    window_id == Some(id),
                    match next {
                        Some(k) => item_of(items, window_id) == Some(k),
                        None => forall|j: int|
                            0 <= j < i ==> !shows_window(id)(#[trigger] items[j]),
                    },
                decreases self.items@.len() - i,
            {
                assert(items[i as int] == self.items@[i as int]@);
                if self.items[i].window_id == id {
                    proof {
                        lemma_first_is(items, shows_window(id), i as int);
                    }
                    next = Some(i);
                }
                i = i + 1;
            }
            proof {
                if next is None {
                    lemma_first_none(items, shows_window(id));
                }
            }
        }
        if self.hovered != next {
            self.hovered = next;
            return true;
        }
        false
    }

    /// The window of the hovered item
    pub fn hovered_window(&self) -> (r: Option<WindowId>)
        ensures
            r == self@.hovered_window(),
    {
        match self.hovered {
            Some(i) => if i < self.items.len() {
                Some(self.items[i].window_id)
            } else {
                None
            },
            None => None,
        }
    }

    /// Surface-local offset (x, y) of the point that should sit under the
    /// pointer when the menu is opened: horizontally one half-row-height in
    /// from the menu's left edge, vertically at the vertical center of the
    /// title (first) row.
    pub fn pointer_anchor(&self) -> (r: (i32, i32))
        ensures
            r == self@.pointer_anchor(),
    {
        let half_row: i64 = self.theme.item_height() / 2;
        (
            to_i32(self.theme.shadow_left() + half_row),
            to_i32(self.theme.shadow_top() + MENU_BORDER as i64 + half_row),
        )
    }
}

/// The position of the item of a window.
pub open spec fn item_of(items: Seq<MenuItemView>, window_id: Option<WindowId>) -> Option<usize> {
    match window_id {
        Some(id) => match first(items, shows_window(id)) {
            Some(i) => Some(i as usize),
            None => None,
        },
        None => None,
    }
}

/// Selecting the next item goes from each item to the one below it, and from
/// the last item to the first.
pub proof fn law_select_next_wraps_around(menu: MenuView, i: int)
    requires
        menu.items.len() <= usize::MAX,
        menu.hovered == Some(i as usize),
        0 <= i < menu.items.len(),
    ensures
        menu.next_item() == (if i + 1 < menu.items.len() {
            Some((i + 1) as usize)
        } else {
            Some(0usize)
        }),
{
    let n = menu.items.len() as int;
    if i + 1 < n {
        vstd::arithmetic::div_mod::lemma_small_mod((i + 1) as nat, n as nat);
    } else {
        vstd::arithmetic::div_mod::lemma_mod_self_0(n);
    }
}

} // verus!
