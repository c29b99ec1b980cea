//! Titlebars: their buttons, their frame and what is drawn into them.

use vstd::prelude::*;
use crate::canoe::shmfile::{fresh_slot, ShmPool};
use crate::config::{FontSize, UiConfig};
use crate::num::{larger, max_i64, sat, to_i32};
use crate::protocol::ObjectId;
use crate::text::opt_text;

verus! {

/// Button background color (pressed left edge)
pub const BUTTON_BG_PRESSED_LEFT: u32 = 0xA0A0A0FF;

pub const BORDER_OUTER: i32 = 1;

pub const BORDER_INNER: i32 = 1;

pub const BUTTON_PADDING_X: i32 = 0;

pub const BUTTON_GAP: i32 = 1;

#[derive(Clone, Copy, Debug, PartialEq, Eq, Structural)]
pub struct Rect {
    pub x: i32,
    pub y: i32,
    pub width: i32,
    pub height: i32,
}

impl Rect {
    pub open spec fn spec_contains(&self, px: i32, py: i32) -> bool {
        self.x <= px < self.x + self.width && self.y <= py < self.y + self.height
    }

    /// Whether the point lies inside; the right and bottom edges are outside.
    #[verifier::when_used_as_spec(spec_contains)]
    pub fn contains(&self, px: i32, py: i32) -> (r: bool)
        ensures
            r == self.contains(px, py),
    {
        px >= self.x && (px as i64) < self.x as i64 + self.width as i64 && py >= self.y
            && (py as i64) < self.y as i64 + self.height as i64
    }
}

#[derive(Clone, Copy, Debug, PartialEq, Eq, Structural)]
pub struct TitlebarButtons {
    pub close: Rect,
    pub hide: Option<Rect>,
    pub maximize: Option<Rect>,
}

#[derive(Clone, Copy, Debug, PartialEq, Eq, Structural)]
pub enum TitlebarButton {
    Close,
    Hide,
    Maximize,
}

/// How the SSD frame around a window should be painted.
#[derive(Clone, Copy, Debug, PartialEq, Eq, Structural)]
pub enum FrameStyle {
    /// Standard 3-layer border using the configured palette.
    Normal,
    /// Parented dialog: mid layer takes the titlebar background colour.
    Dialog,
    /// Non-resizable toplevel: a single 1px outline in the outer border
    /// colour, hugging the content/titlebar with no chunky multi-layer band.
    FixedSize,
}

/// Titlebar height in pixels: odd, and one and a half times the font size.
pub open spec fn spec_titlebar_height(font_size: FontSize) -> i32 {
    sat(larger(font_size.three_quarters * 2 + 1, 1))
}

/// Titlebar height in pixels
pub fn titlebar_height(ui: &UiConfig) -> (r: i32)
    ensures
        r == spec_titlebar_height(ui.font_size),
        r >= 1,
{
    to_i32(max_i64(ui.font_size.three_quarters as i64 * 2 + 1, 1))
}

/// The SSD border thickness of a frame style.
pub open spec fn spec_border_width(configured: i32, frame_style: FrameStyle) -> i32 {
    match frame_style {
        FrameStyle::FixedSize => BORDER_OUTER,
        _ => configured,
    }
}

/// The SSD border thickness to reserve and draw for a given frame style.
///
/// Non-resizable toplevels ([`FrameStyle::FixedSize`]) collapse the border to
/// a single 1px outline that sits directly against the content/titlebar;
/// every other style uses the configured border width.
pub fn border_width(ui: &UiConfig, frame_style: FrameStyle) -> (r: i32)
    ensures
        r == spec_border_width(ui.border_width, frame_style),
{
    match frame_style {
        FrameStyle::FixedSize => BORDER_OUTER,
        _ => ui.border_width,
    }
}

/// A square button of the titlebar whose left edge is at `x`, kept from
/// leaving the titlebar on the left.
pub open spec fn button_square(x: int, size: i32) -> Rect {
    Rect { x: sat(larger(x, 0)), y: 0, width: size, height: size }
}

/// Where the buttons of a titlebar sit. The maximize button is the rightmost;
/// the hide button sits to its left, or in its place when there is none.
pub open spec fn spec_button_rects(
    content_width: i32,
    titlebar_height: i32,
    show_minimize: bool,
    show_maximize: bool,
) -> TitlebarButtons {
    let size = titlebar_height;
    let rightmost = content_width - BUTTON_PADDING_X - size;
    let hide_x = if show_maximize {
        rightmost - (size + BUTTON_GAP)
    } else {
        rightmost
    };
    TitlebarButtons {
        close: Rect { x: BUTTON_PADDING_X, y: 0, width: size, height: size },
        hide: if show_minimize {
            Some(button_square(hide_x, size))
        } else {
            None
        },
        maximize: if show_maximize {
            Some(button_square(rightmost, size))
        } else {
            None
        },
    }
}

#[verifier::when_used_as_spec(spec_button_rects)]
pub fn button_rects(
    content_width: i32,
    titlebar_height: i32,
    show_minimize: bool,
    show_maximize: bool,
) -> (r: TitlebarButtons)
    ensures
        r == button_rects(content_width, titlebar_height, show_minimize, show_maximize),
{
    let size: i32 = titlebar_height;
    let close = Rect { x: BUTTON_PADDING_X, y: 0, width: size, height: size };

    // Right-to-left: maximize is the rightmost (if present), then hide; if
    // maximize is hidden, the hide button slides into the rightmost slot.
    let mut right_x: i64 = content_width as i64 - BUTTON_PADDING_X as i64 - size as i64;
    let maximize = if show_maximize {
        let r = Rect { x: to_i32(max_i64(right_x, 0)), y: 0, width: size, height: size };
        right_x = right_x - (size as i64 + BUTTON_GAP as i64);
        Some(r)
    } else {
        None
    };
    let hide = if show_minimize {
        Some(Rect { x: to_i32(max_i64(right_x, 0)), y: 0, width: size, height: size })
    } else {
        None
    };
    TitlebarButtons { close, hide, maximize }
}

/// Whether an optional rectangle is there and holds the point.
pub open spec fn holds(r: Option<Rect>, px: i32, py: i32) -> bool {
    match r {
        Some(rect) => rect.contains(px, py),
        None => false,
    }
}

/// The button of the frame at a point of the frame: the close button wins over
/// the hide button, and that one over the maximize button.
pub open spec fn spec_button_at(
    content_width: i32,
    border_width: i32,
    local_x: i32,
    local_y: i32,
    titlebar_height: i32,
    show_minimize: bool,
    show_maximize: bool,
) -> Option<TitlebarButton> {
    let rel_x = local_x - border_width;
    let rel_y = local_y - border_width;
    let buttons = spec_button_rects(content_width, titlebar_height, show_minimize, show_maximize);
    if !(0 <= rel_x < content_width && 0 <= rel_y < titlebar_height) {
        None
    } else if buttons.close.contains(rel_x as i32, rel_y as i32) {
        Some(TitlebarButton::Close)
    } else if holds(buttons.hide, rel_x as i32, rel_y as i32) {
        Some(TitlebarButton::Hide)
    } else if holds(buttons.maximize, rel_x as i32, rel_y as i32) {
        Some(TitlebarButton::Maximize)
    } else {
        None
    }
}

#[verifier::when_used_as_spec(spec_button_at)]
pub fn button_at(
    content_width: i32,
    border_width: i32,
    local_x: i32,
    local_y: i32,
    titlebar_height: i32,
    show_minimize: bool,
    show_maximize: bool,
) -> (r: Option<TitlebarButton>)
    ensures
        r == button_at(
            content_width,
            border_width,
            local_x,
            local_y,
            titlebar_height,
            show_minimize,
            show_maximize,
        ),
{
    if content_width <= 0 {
        return None;
    }
    let rel_x: i64 = local_x as i64 - border_width as i64;
    let rel_y: i64 = local_y as i64 - border_width as i64;
    if rel_x < 0 || rel_y < 0 || rel_x >= content_width as i64 || rel_y >= titlebar_height as i64 {
        return None;
    }
    let rel_x: i32 = rel_x as i32;
    let rel_y: i32 = rel_y as i32;

    let buttons = button_rects(content_width, titlebar_height, show_minimize, show_maximize);
    if buttons.close.contains(rel_x, rel_y) {
        return Some(TitlebarButton::Close);
    }
    if let Some(hide) = buttons.hide {
        if hide.contains(rel_x, rel_y) {
            return Some(TitlebarButton::Hide);
        }
    }
    if let Some(maximize) = buttons.maximize {
        if maximize.contains(rel_x, rel_y) {
            return Some(TitlebarButton::Maximize);
        }
    }
    None
}

/// The place of a button among those that are shown.
pub open spec fn rect_of(buttons: TitlebarButtons, button: TitlebarButton) -> Option<Rect> {
    match button {
        TitlebarButton::Close => Some(buttons.close),
        TitlebarButton::Hide => buttons.hide,
        TitlebarButton::Maximize => buttons.maximize,
    }
}

/// A button is only hit inside its place, and one that is not shown is never
/// hit.
pub proof fn law_hit_button_is_at_the_point(
    content_width: i32,
    border_width: i32,
    local_x: i32,
    local_y: i32,
    titlebar_height: i32,
    show_minimize: bool,
    show_maximize: bool,
)
    ensures
        spec_button_at(
            content_width,
            border_width,
            local_x,
            local_y,
            titlebar_height,
            show_minimize,
            show_maximize,
        ) matches Some(button) ==> holds(
            rect_of(
                spec_button_rects(content_width, titlebar_height, show_minimize, show_maximize),
                button,
            ),
            (local_x - border_width) as i32,
            (local_y - border_width) as i32,
        ),
{
}

/// The buttons of a titlebar that is wide enough for all of them do not
/// overlap.
pub proof fn law_buttons_do_not_overlap(content_width: i32, titlebar_height: i32, px: i32, py: i32)
    requires
        titlebar_height >= 1,
        content_width >= titlebar_height * 3 + BUTTON_GAP,
    ensures
        ({
            let buttons = spec_button_rects(content_width, titlebar_height, true, true);
            &&& !(buttons.close.contains(px, py) && holds(buttons.hide, px, py))
            &&& !(buttons.close.contains(px, py) && holds(buttons.maximize, px, py))
            &&& !(holds(buttons.hide, px, py) && holds(buttons.maximize, px, py))
        }),
{
}

/// Colours that the cached button images depend on.
#[derive(Clone, Copy, Debug, PartialEq, Eq, Structural)]
pub struct ButtonCacheKey {
    pub button_bg: u32,
    pub button_highlight: u32,
    pub button_shadow: u32,
}

/// Button images, drawn once and copied into every frame.
#[derive(Debug)]
pub struct ButtonCache {
    pub size_px: i32,
    pub titlebar_height: i32,
    pub key: ButtonCacheKey,
    pub close_normal: Vec<u32>,
    pub close_pressed: Vec<u32>,
    pub hide_normal: Vec<u32>,
    pub hide_pressed: Vec<u32>,
    pub maximize_normal: Vec<u32>,
    pub maximize_pressed: Vec<u32>,
}

#[verifier::ext_equal]
pub struct ButtonCacheView {
    pub size_px: i32,
    pub titlebar_height: i32,
    pub key: ButtonCacheKey,
    pub close_normal: Seq<u32>,
    pub close_pressed: Seq<u32>,
    pub hide_normal: Seq<u32>,
    pub hide_pressed: Seq<u32>,
    pub maximize_normal: Seq<u32>,
    pub maximize_pressed: Seq<u32>,
}

impl View for ButtonCache {
    type V = ButtonCacheView;

    open spec fn view(&self) -> ButtonCacheView {
        ButtonCacheView {
            size_px: self.size_px,
            titlebar_height: self.titlebar_height,
            key: self.key,
            close_normal: self.close_normal@,
            close_pressed: self.close_pressed@,
            hide_normal: self.hide_normal@,
            hide_pressed: self.hide_pressed@,
            maximize_normal: self.maximize_normal@,
            maximize_pressed: self.maximize_pressed@,
        }
    }
}

/// Titlebar state for a window
#[derive(Debug)]
pub struct Titlebar {
    /// The surface for the titlebar
    pub surface: ObjectId,
    /// The river decoration object
    pub decoration: ObjectId,
    /// Double-buffered shm pool backing the buffer.
    pub shm_pool: ShmPool,
    /// Current buffer width
    pub width: i32,
    /// Current buffer height
    pub height: i32,
    /// Current buffer width in pixels
    pub buffer_width: i32,
    /// Current buffer height in pixels
    pub buffer_height: i32,
    /// Current content width
    pub content_width: i32,
    /// Current content height
    pub content_height: i32,
    /// Border width (logical px) of the current frame
    pub border_width: i32,
    /// Titlebar height (logical px) of the current frame
    pub titlebar_height: i32,
    /// Output scale factor
    pub scale: i32,
    /// Size for which the icon bitmaps are loaded, if they are
    pub icon_cache: Option<i32>,
    pub button_cache: Option<ButtonCache>,
    /// wl_output names the titlebar surface is currently on
    pub output_names: Vec<u32>,
    /// Whether titlebar needs redraw
    pub dirty: bool,
    /// Whether the surface currently has a buffer attached (i.e. is visible)
    pub mapped: bool,
    /// Force a full-surface damage on the next commit (set after a (re)alloc
    /// so the compositor picks up the whole new buffer).
    pub needs_full_damage: bool,
    pub last_title: Option<String>,
    pub last_is_active: bool,
    pub last_is_maximized: bool,
    pub last_show_minimize: bool,
    pub last_show_maximize: bool,
    pub last_frame_style: FrameStyle,
    pub last_hovered: Option<TitlebarButton>,
    pub last_left_down: bool,
}

/// A [`Titlebar`] by its contents.
pub struct TitlebarView {
    pub surface: ObjectId,
    pub decoration: ObjectId,
    pub shm_pool: ShmPool,
    pub width: i32,
    pub height: i32,
    pub buffer_width: i32,
    pub buffer_height: i32,
    pub content_width: i32,
    pub content_height: i32,
    pub border_width: i32,
    pub titlebar_height: i32,
    pub scale: i32,
    pub icon_cache: Option<i32>,
    pub button_cache: Option<ButtonCacheView>,
    pub output_names: Seq<u32>,
    pub dirty: bool,
    pub mapped: bool,
    pub needs_full_damage: bool,
    pub last_title: Option<Seq<char>>,
    pub last_is_active: bool,
    pub last_is_maximized: bool,
    pub last_show_minimize: bool,
    pub last_show_maximize: bool,
    pub last_frame_style: FrameStyle,
    pub last_hovered: Option<TitlebarButton>,
    pub last_left_down: bool,
}

impl View for Titlebar {
    type V = TitlebarView;

    open spec fn view(&self) -> TitlebarView {
        TitlebarView {
            surface: self.surface,
            decoration: self.decoration,
            shm_pool: self.shm_pool,
            width: self.width,
            height: self.height,
            buffer_width: self.buffer_width,
            buffer_height: self.buffer_height,
            content_width: self.content_width,
            content_height: self.content_height,
            border_width: self.border_width,
            titlebar_height: self.titlebar_height,
            scale: self.scale,
            icon_cache: self.icon_cache,
            button_cache: match self.button_cache {
                Some(cache) => Some(cache@),
                None => None,
            },
            output_names: self.output_names@,
            dirty: self.dirty,
            mapped: self.mapped,
            needs_full_damage: self.needs_full_damage,
            last_title: opt_text(self.last_title),
            last_is_active: self.last_is_active,
            last_is_maximized: self.last_is_maximized,
            last_show_minimize: self.last_show_minimize,
            last_show_maximize: self.last_show_maximize,
            last_frame_style: self.last_frame_style,
            last_hovered: self.last_hovered,
            last_left_down: self.last_left_down,
        }
    }
}

/// What a new titlebar looks like.
pub open spec fn fresh_titlebar(surface: ObjectId, decoration: ObjectId) -> TitlebarView {
    TitlebarView {
        surface,
        decoration,
        shm_pool: ShmPool {
            pool: false,
            slot_capacity: 0,
            slot0: fresh_slot(),
            slot1: fresh_slot(),
            last_prepared: 0,
            allocate_fresh_count: 0,
            next_serial: 0,
        },
        width: 0,
        height: 0,
        buffer_width: 0,
        buffer_height: 0,
        content_width: 0,
        content_height: 0,
        border_width: 0,
        titlebar_height: 0,
        scale: 1,
        icon_cache: None,
        button_cache: None,
        output_names: Seq::empty(),
        dirty: true,
        mapped: false,
        needs_full_damage: true,
        last_title: None,
        last_is_active: false,
        last_is_maximized: false,
        last_show_minimize: true,
        last_show_maximize: true,
        last_frame_style: FrameStyle::Normal,
        last_hovered: None,
        last_left_down: false,
    }
}

impl Titlebar {
    /// Create a new titlebar
    pub fn new(surface: ObjectId, decoration: ObjectId) -> (r: Self)
        ensures
            r@ == fresh_titlebar(surface, decoration),
    {
        let r = Titlebar {
            surface,
            decoration,
            shm_pool: ShmPool::new(),
            width: 0,
            height: 0,
            buffer_width: 0,
            buffer_height: 0,
            content_width: 0,
            content_height: 0,
            border_width: 0,
            titlebar_height: 0,
            scale: 1,
            icon_cache: None,
            button_cache: None,
            output_names: Vec::new(),
            dirty: true,
            mapped: false,
            needs_full_damage: true,
            last_title: None,
            last_is_active: false,
            last_is_maximized: false,
            last_show_minimize: true,
            last_show_maximize: true,
            last_frame_style: FrameStyle::Normal,
            last_hovered: None,
            last_left_down: false,
        };
        assert(r@.output_names =~= Seq::empty());
        r
    }
}

/// On a titlebar that is wide enough for its buttons, the close button takes the
/// square at the left end and the maximize button the one at the right end. The hide
/// button takes the one left of the maximize button, a pixel apart, or the right end
/// where there is no maximize button. No other point of the frame is a button.
pub proof fn law_buttons_are_at_the_ends(
    width: i32,
    border: i32,
    x: i32,
    y: i32,
    height: i32,
    show_minimize: bool,
    show_maximize: bool,
)
    requires
        height >= 1,
        width >= height * 3 + 1,
    ensures
        ({
            let hit = spec_button_at(width, border, x, y, height, show_minimize, show_maximize);
            let across = x - border;
            let on_bar = 0 <= y - border < height && 0 <= across < width;
            &&& hit == Some(TitlebarButton::Close) <==> on_bar && across < height
            &&& hit == Some(TitlebarButton::Maximize) <==> on_bar && show_maximize && across >= width
                - height
            &&& show_maximize ==> (hit == Some(TitlebarButton::Hide) <==> on_bar && show_minimize
                && width - 2 * height - 1 <= across < width - height - 1)
            &&& !show_maximize ==> (hit == Some(TitlebarButton::Hide) <==> on_bar && show_minimize
                && across >= width - height)
        }),
{
}

/// A titlebar is an odd number of pixels high.
pub proof fn law_titlebar_height_is_odd(font_size: FontSize)
    requires
        0 <= font_size.three_quarters <= 1_000_000_000,
    ensures
        spec_titlebar_height(font_size) % 2 == 1,
        spec_titlebar_height(font_size) == 2 * font_size.three_quarters + 1,
{
}

} // verus!
