//! What a desktop with the icons of minimized windows looks like.

use vstd::prelude::*;
use vstd::string::{StrSliceExecFns, StringExecFns};
use crate::canoe::desktop::{
    cell_has, icon_views, DesktopIcon, DesktopIconLayout, DesktopIconView, DesktopSurface, DesktopView,
    ICON_CELL_HEIGHT, ICON_CELL_WIDTH, ICON_LABEL_HEIGHT, ICON_MARGIN, ICON_SIZE,
};
use crate::canoe::font::{
    advance, is_advance, law_longer_text_is_wider, measure_prefix, measure_text, text_width,
};
use crate::canoe::render::{
    argb_of, buffer_for, fill, plan_buffer, px, rgba_to_argb, Area, BufferPlan, Paint, PaintView,
    Picture,
};
use crate::canoe::WindowId;
use crate::config::{FontSize, UiConfig, UiConfigView};
use crate::num::{larger, max_i32, max_i64, quot, sat, smaller, to_i32};
use crate::search::{first, lemma_first_is, lemma_first_none};
use crate::canoe::icon_lookup::{regular_query, regular_weight_font_query};
use crate::text::{chars_of, clone_opt, opt_text};

verus! {

/// What a shortened text ends with.
pub const ELLIPSIS: &'static str = "\u{2026}";

/// Colour of the line around an icon without a picture.
pub const ICON_BORDER: u32 = 0x404040FF;

/// Theme colors for desktop icons (extracted from UiConfig).
#[derive(Debug, Clone, Copy, PartialEq, Eq, Structural)]
pub struct IconTheme {
    pub text: u32,
    pub highlight_bg: u32,
    pub highlight_text: u32,
    pub titlebar_bg: u32,
    pub titlebar_text: u32,
    pub border: u32,
}

/// A setting, or what stands in for it.
pub open spec fn setting_or(setting: Option<u32>, other: u32) -> u32 {
    match setting {
        Some(value) => value,
        None => other,
    }
}

/// The icon colours of a theme.
pub open spec fn icon_theme(ui: UiConfigView) -> IconTheme {
    IconTheme {
        text: setting_or(ui.icons_text, ui.menu_text),
        highlight_bg: setting_or(ui.icons_highlight_bg, ui.menu_highlight_bg),
        highlight_text: setting_or(ui.icons_highlight_text, ui.menu_highlight_text),
        titlebar_bg: ui.titlebar_bg_inactive,
        titlebar_text: ui.titlebar_text_inactive,
        border: ICON_BORDER,
    }
}

impl IconTheme {
    pub fn from_ui(ui: &UiConfig) -> (r: Self)
        ensures
            r == icon_theme(ui@),
    {
        IconTheme {
            text: match ui.icons_text {
                Some(value) => value,
                None => ui.menu_text,
            },
            highlight_bg: match ui.icons_highlight_bg {
                Some(value) => value,
                None => ui.menu_highlight_bg,
            },
            highlight_text: match ui.icons_highlight_text {
                Some(value) => value,
                None => ui.menu_highlight_text,
            },
            titlebar_bg: ui.titlebar_bg_inactive,
            titlebar_text: ui.titlebar_text_inactive,
            border: ICON_BORDER,
        }
    }
}

/// The prefix of a text that a search between two lengths settles on.
pub open spec fn fitting(text: Seq<char>, advance: spec_fn(char) -> int, lo: int, hi: int, target: int) -> int
    decreases hi - lo,
{
    if lo >= hi {
        lo
    } else {
        let mid = lo + (hi - lo + 1) / 2;
        if text_width(text.take(mid), advance) <= target {
            fitting(text, advance, mid, hi, target)
        } else {
            fitting(text, advance, lo, mid - 1, target)
        }
    }
}

/// A text shortened with an ellipsis to fit a width. Nothing is left where not
/// even the ellipsis fits.
pub open spec fn shortened(text: Seq<char>, max_width: int, advance: spec_fn(char) -> int) -> Seq<char> {
    let ellipsis = text_width(ELLIPSIS@, advance);
    if max_width <= 0 || text.len() == 0 {
        Seq::empty()
    } else if text_width(text, advance) <= max_width {
        text
    } else if ellipsis > max_width {
        Seq::empty()
    } else if ellipsis == max_width {
        ELLIPSIS@
    } else {
        text.take(fitting(text, advance, 0, text.len() as int, max_width - ellipsis)) + ELLIPSIS@
    }
}

proof fn lemma_fitting_in_range(text: Seq<char>, advance: spec_fn(char) -> int, lo: int, hi: int, target: int)
    requires
        lo <= hi,
    ensures
        lo <= fitting(text, advance, lo, hi, target) <= hi,
    decreases hi - lo,
{
    if lo < hi {
        let mid = lo + (hi - lo + 1) / 2;
        if text_width(text.take(mid), advance) <= target {
            lemma_fitting_in_range(text, advance, mid, hi, target);
        } else {
            lemma_fitting_in_range(text, advance, lo, mid - 1, target);
        }
    }
}

/// The search for a prefix that fits finds the longest one, as long as no
/// character moves backwards.
pub proof fn law_longest_fitting_prefix(
    text: Seq<char>,
    advance: spec_fn(char) -> int,
    lo: int,
    hi: int,
    target: int,
    n: int,
)
    requires
        forall|c: char| #[trigger] advance(c) >= 0,
        0 <= lo <= hi <= text.len(),
        text_width(text.take(lo), advance) <= target,
        lo <= n <= hi,
    ensures
        text_width(text.take(n), advance) <= target <==> n <= fitting(
            text,
            advance,
            lo,
            hi,
            target,
        ),
    decreases hi - lo,
{
    if lo < hi {
        let mid = lo + (hi - lo + 1) / 2;
        if text_width(text.take(mid), advance) <= target {
            lemma_fitting_in_range(text, advance, mid, hi, target);
            if n >= mid {
                law_longest_fitting_prefix(text, advance, mid, hi, target, n);
            } else {
                law_longer_text_is_wider(text, advance, n, mid);
            }
        } else {
            lemma_fitting_in_range(text, advance, lo, mid - 1, target);
            if n < mid {
                law_longest_fitting_prefix(text, advance, lo, mid - 1, target, n);
            } else {
                law_longer_text_is_wider(text, advance, mid, n);
            }
        }
    }
}

/// A shortened text is no wider than it may be, as long as no character moves
/// backwards.
pub proof fn law_shortened_text_fits(text: Seq<char>, max_width: int, advance: spec_fn(char) -> int)
    requires
        forall|c: char| #[trigger] advance(c) >= 0,
    ensures
        max_width > 0 ==> text_width(shortened(text, max_width, advance), advance) <= max_width,
        0 < max_width && text_width(text, advance) <= max_width ==> shortened(
            text,
            max_width,
            advance,
        ) == text,
{
    reveal_strlit("\u{2026}");
    let ellipsis = text_width(ELLIPSIS@, advance);
    if max_width > 0 && text.len() > 0 && text_width(text, advance) > max_width && ellipsis
        < max_width {
        let n = fitting(text, advance, 0, text.len() as int, max_width - ellipsis);
        lemma_fitting_in_range(text, advance, 0, text.len() as int, max_width - ellipsis);
        law_longest_fitting_prefix(text, advance, 0, text.len() as int, max_width - ellipsis, n);
        let prefix = text.take(n);
        assert((prefix + ELLIPSIS@).drop_last() =~= prefix);
        assert((prefix + ELLIPSIS@).last() == ELLIPSIS@.last());
        assert(ELLIPSIS@.drop_last() =~= Seq::empty());
        assert(text_width(ELLIPSIS@.drop_last(), advance) == 0);
        assert(advance(ELLIPSIS@.last()) >= 0);
    }
}

/// Return `text` shortened with a trailing ellipsis so its rendered width fits
/// within `max_width`. Returns the original string if it already fits, and the
/// empty string if the ellipsis alone is too wide.
pub fn truncate_with_ellipsis<F: Fn(char) -> Option<i32>>(text: &str, max_width: i32, f: &F) -> (r: String)
    requires
        is_advance(*f),
    ensures
        r@ == shortened(text@, max_width as int, advance(*f)),
{
    if max_width <= 0 || text.unicode_len() == 0 {
        let r = String::new();
        assert(r@ =~= Seq::empty());
        return r;
    }
    if measure_text(text, f) <= max_width {
        return text.to_string();
    }
    let ellipsis: i32 = measure_text(ELLIPSIS, f);
    if ellipsis > max_width {
        let r = String::new();
        assert(r@ =~= Seq::empty());
        return r;
    }
    if ellipsis == max_width {
        return ELLIPSIS.to_string();
    }
    let target: i64 = max_width as i64 - ellipsis as i64;
    let chars: Vec<char> = chars_of(text);
    let mut lo: usize = 0;
    let mut hi: usize = chars.len();
    while lo < hi
        invariant
            lo <= hi <= chars@.len(),
            chars@ == text@,
            is_advance(*f),
            fitting(text@, advance(*f), lo as int, hi as int, target as int) == fitting(
                text@,
                advance(*f),
                0,
                text@.len() as int,
                target as int,
            ),
        decreases hi - lo,
    {
        let mid: usize = hi - (hi - lo) / 2;
        assert(mid == lo + (hi - lo + 1) / 2);
        if measure_prefix(&chars, mid, f) as i64 <= target {
            lo = mid;
        } else {
            hi = mid - 1;
        }
    }
    let mut out: String = text.substring_char(0, lo).to_string();
    out.append(ELLIPSIS);
    assert(text@.subrange(0, lo as int) =~= text@.take(lo as int));
    out
}

/// The capital form of a character.
pub uninterp spec fn capital_text(c: char) -> Seq<char>;

/// The capital form of a character, as `char::to_uppercase` of the standard
/// library gives it: one or more characters that the character alone decides.
/// Of ASCII characters, the small letters become their capitals and all others
/// stay. Nothing is claimed of other characters.
#[verifier::external_body]
fn to_capital(c: char) -> (r: String)
    ensures
        r@ == capital_text(c),
        'a' <= c <= 'z' ==> r@ == seq![(c as u32 - 32) as char],
        c < '\u{80}' && !('a' <= c <= 'z') ==> r@ == seq![c],
{
    c.to_uppercase().to_string()
}

/// The number of icons in a row of a desktop.
pub open spec fn grid_cols(logical_w: int) -> int {
    larger(quot(logical_w - ICON_MARGIN * 2, ICON_CELL_WIDTH as int), 1)
}

/// Where the icon of a number goes: from the bottom left, left to right, then
/// bottom to top.
pub open spec fn cell_of(window_id: WindowId, i: int, cols: int, logical_h: int) -> DesktopIconLayout {
    let n = smaller(i, i32::MAX as int);
    DesktopIconLayout {
        window_id,
        x: sat(ICON_MARGIN + (n % cols) * ICON_CELL_WIDTH),
        y: sat(logical_h - ICON_MARGIN - ICON_CELL_HEIGHT - (n / cols) * ICON_CELL_HEIGHT),
    }
}

/// The places of all icons.
pub open spec fn grid(icons: Seq<DesktopIconView>, cols: int, logical_h: int) -> Seq<DesktopIconLayout> {
    Seq::new(icons.len(), |i: int| cell_of(icons[i].window_id, i, cols, logical_h))
}

/// Holds of the icons of one window.
pub open spec fn icon_for(window_id: WindowId) -> spec_fn(DesktopIconView) -> bool {
    |icon: DesktopIconView| icon.window_id == window_id
}

/// The place of the selected icon.
pub open spec fn selected_place(icons: Seq<DesktopIconView>, selected: Option<WindowId>) -> Option<int> {
    match selected {
        Some(id) => first(icons, icon_for(id)),
        None => None,
    }
}

/// The icon that is drawn as number `k`: in their order, but the selected one
/// last, so that its label lies above the others.
pub open spec fn drawn_as(n: int, selected: Option<int>, k: int) -> int {
    match selected {
        Some(p) => if k == n - 1 {
            p
        } else if k < p {
            k
        } else {
            k + 1
        },
        None => k,
    }
}

/// What the icons of a desktop are drawn with.
pub struct IconStyleView {
    pub theme: IconTheme,
    pub scale: i32,
    pub font_name: Option<Seq<char>>,
    pub font_size: FontSize,
    pub label_font_name: Option<Seq<char>>,
    pub label_font_size: FontSize,
}

/// What the icons of a desktop are drawn with: the font of the first letter
/// inside an icon without a picture, and that of the label below each icon.
#[derive(Debug)]
pub struct IconStyle {
    pub theme: IconTheme,
    pub scale: i32,
    pub font_name: Option<String>,
    pub font_size: FontSize,
    pub label_font_name: Option<String>,
    pub label_font_size: FontSize,
}

impl View for IconStyle {
    type V = IconStyleView;

    open spec fn view(&self) -> IconStyleView {
        IconStyleView {
            theme: self.theme,
            scale: self.scale,
            font_name: opt_text(self.font_name),
            font_size: self.font_size,
            label_font_name: opt_text(self.label_font_name),
            label_font_size: self.label_font_size,
        }
    }
}

/// How a theme draws icons: labels without a font of their own use the regular
/// weight of the font, and labels without a size of their own the size
/// `smaller`.
pub open spec fn icon_style(ui: UiConfigView, scale: i32, smaller: FontSize) -> IconStyleView {
    IconStyleView {
        theme: icon_theme(ui),
        scale,
        font_name: ui.font_name,
        font_size: ui.font_size,
        label_font_name: Some(
            match ui.icons_font_name {
                Some(name) => name,
                None => regular_query(ui.font_name),
            },
        ),
        label_font_size: match ui.icons_font_size {
            Some(size) => size,
            None => smaller,
        },
    }
}

impl IconStyle {
    /// How a theme draws icons, with the size of labels that have none of their
    /// own
    pub fn from_ui(ui: &UiConfig, scale: i32, smaller: FontSize) -> (r: Self)
        ensures
            r@ == icon_style(ui@, scale, smaller),
    {
        let base: Option<&str> = match &ui.font_name {
            Some(name) => Some(name.as_str()),
            None => None,
        };
        IconStyle {
            theme: IconTheme::from_ui(ui),
            scale,
            font_name: clone_opt(&ui.font_name),
            font_size: ui.font_size,
            label_font_name: Some(
                match &ui.icons_font_name {
                    Some(name) => name.as_str().to_string(),
                    None => regular_weight_font_query(base),
                },
            ),
            label_font_size: match ui.icons_font_size {
                Some(size) => size,
                None => smaller,
            },
        }
    }
}

impl IconStyleView {
    /// A length in buffer pixels.
    pub open spec fn pixels(self, v: int) -> int {
        sat(v * self.scale) as int
    }

    /// Left edge of the picture of an icon: in the middle of its cell.
    pub open spec fn picture_x(self, cell: DesktopIconLayout) -> int {
        self.pixels(cell.x as int) + quot(
            self.pixels(ICON_CELL_WIDTH as int) - self.pixels(ICON_SIZE as int),
            2,
        )
    }

    /// The square of an icon without a picture, with the first letter of its
    /// title.
    #[verifier::opaque]
    pub open spec fn letter_picture(self, icon: DesktopIconView, cell: DesktopIconLayout, selected: bool) -> Seq<PaintView> {
        let x = self.picture_x(cell);
        let y = self.pixels(cell.y as int);
        let side = self.pixels(ICON_SIZE as int);
        let b = self.scale as int;
        let border = argb_of(self.theme.border);
        let bg = argb_of(
            if selected {
                self.theme.highlight_bg
            } else {
                self.theme.titlebar_bg
            },
        );
        let text = argb_of(
            if selected {
                self.theme.highlight_text
            } else {
                self.theme.titlebar_text
            },
        );
        let letter = if icon.title.len() > 0 {
            icon.title[0]
        } else {
            '?'
        };
        seq![
            fill(x, y, side, side, bg),
            fill(x, y, side, b, border),
            fill(x, y + side - b, side, b, border),
            fill(x, y, b, side, border),
            fill(x + side - b, y, b, side, border),
            PaintView::Text {
                text: capital_text(letter),
                area: Area { x: sat(x), y: sat(y), width: sat(side), height: sat(side) },
                scale: self.scale,
                argb: text,
                font_size: self.font_size,
                font_name: self.font_name,
                padding: 0,
            },
        ]
    }

    /// The label of an icon, centered below it. That of the selected icon may
    /// be wider than its cell.
    #[verifier::opaque]
    pub open spec fn label_picture(
        self,
        icon: DesktopIconView,
        cell: DesktopIconLayout,
        selected: bool,
        advance: spec_fn(char) -> int,
    ) -> Seq<PaintView> {
        let ix = self.pixels(cell.x as int);
        let cell_w = self.pixels(ICON_CELL_WIDTH as int);
        let side = self.pixels(ICON_SIZE as int);
        let most = if selected {
            side * 5
        } else {
            cell_w
        };
        let title = shortened(icon.title, sat(most) as int, advance);
        let text_w = text_width(title, advance) as int;
        let x = ix + quot(cell_w, 2) - quot(text_w, 2);
        let y = self.pixels(cell.y as int) + side;
        let h = self.pixels(ICON_LABEL_HEIGHT as int);
        let margin = self.pixels(2);
        let text = argb_of(
            if selected {
                self.theme.highlight_text
            } else {
                self.theme.text
            },
        );
        let back = if selected {
            seq![fill(x - margin, y, text_w + margin * 2, h, argb_of(self.theme.highlight_bg))]
        } else {
            Seq::empty()
        };
        back.push(
            PaintView::Text {
                text: title,
                area: Area { x: sat(x), y: sat(y), width: sat(larger(text_w, 1)), height: sat(h) },
                scale: self.scale,
                argb: text,
                font_size: self.label_font_size,
                font_name: self.label_font_name,
                padding: 0,
            },
        )
    }

    /// One icon: its picture, or its first letter, and its label.
    pub open spec fn icon_picture(
        self,
        icon: DesktopIconView,
        cell: DesktopIconLayout,
        selected: bool,
        advance: spec_fn(char) -> int,
    ) -> Seq<PaintView> {
        let picture = match icon.icon {
            Some(app) => seq![
                PaintView::Plain(
                    Paint::AppIcon {
                        app,
                        x: sat(self.picture_x(cell)),
                        y: sat(self.pixels(cell.y as int)),
                    },
                ),
            ],
            None => self.letter_picture(icon, cell, selected),
        };
        picture + self.label_picture(icon, cell, selected, advance)
    }

    /// The first `n` icons in the order in which they are drawn.
    pub open spec fn icons_picture(
        self,
        icons: Seq<DesktopIconView>,
        cells: Seq<DesktopIconLayout>,
        selected: Option<WindowId>,
        advance: spec_fn(char) -> int,
        n: int,
    ) -> Seq<PaintView>
        decreases n,
    {
        if n <= 0 {
            Seq::empty()
        } else {
            let i = drawn_as(icons.len() as int, selected_place(icons, selected), n - 1);
            self.icons_picture(icons, cells, selected, advance, n - 1) + self.icon_picture(
                icons[i],
                cells[i],
                selected == Some(icons[i].window_id),
                advance,
            )
        }
    }
}

impl DesktopView {
    /// The buffer that has to be made before the desktop is drawn, if the
    /// present one is not right.
    pub open spec fn buffer_needed(self, scale: i32) -> Option<BufferPlan> {
        match buffer_for(self.width, self.height, scale) {
            Some(plan) => if self.buffer && self.buf_width == plan.width && self.buf_height
                == plan.height {
                None
            } else {
                Some(plan)
            },
            None => None,
        }
    }

    /// The background.
    pub open spec fn background(self, rgba: u32) -> PaintView {
        fill(0, 0, self.buf_width as int, self.buf_height as int, argb_of(rgba))
    }

    /// With the icons at their places.
    pub open spec fn laid_out(self, icons: Seq<DesktopIconView>, scale: i32) -> DesktopView {
        let s = larger(scale as int, 1);
        let cols = grid_cols(quot(self.buf_width as int, s));
        if icons.len() == 0 {
            DesktopView { icons: Seq::empty(), ..self }
        } else if self.buf_width <= 0 || self.buf_height <= 0 {
            self
        } else {
            DesktopView {
                icon_cols: cols as i32,
                icons: grid(icons, cols, quot(self.buf_height as int, s)),
                ..self
            }
        }
    }

    /// The background with the icons on it.
    pub open spec fn picture(
        self,
        rgba: u32,
        icons: Seq<DesktopIconView>,
        style: IconStyleView,
        advance: spec_fn(char) -> int,
    ) -> Seq<PaintView> {
        let back = seq![self.background(rgba)];
        let at = IconStyleView { scale: larger(style.scale as int, 1) as i32, ..style };
        if icons.len() == 0 || self.buf_width <= 0 || self.buf_height <= 0 {
            back
        } else {
            back + at.icons_picture(
                icons,
                self.laid_out(icons, style.scale).icons,
                self.selected_icon,
                advance,
                icons.len() as int,
            )
        }
    }
}

impl IconStyle {
    fn picture_x(&self, scale: i32, cell: &DesktopIconLayout) -> (r: i64)
        ensures
            r == (IconStyleView { scale, ..self@ }).picture_x(*cell),
            -0x2_0000_0000 <= r <= 0x2_0000_0000,
    {
        let cell_w: i64 = px(0, ICON_CELL_WIDTH as i64, scale) as i64;
        let side: i64 = px(0, ICON_SIZE as i64, scale) as i64;
        px(0, cell.x as i64, scale) as i64 + (cell_w - side) / 2
    }

    fn draw_letter(&self, scale: i32, icon: &DesktopIcon, cell: &DesktopIconLayout, selected: bool, picture: &mut Picture)
        ensures
            final(picture)@ == old(picture)@ + (IconStyleView { scale, ..self@ }).letter_picture(
                icon@,
                *cell,
                selected,
            ),
    {
        proof {
            reveal(IconStyleView::letter_picture);
        }
        let ghost before = picture@;
        let x: i64 = self.picture_x(scale, cell);
        let y: i64 = px(0, cell.y as i64, scale) as i64;
        let side: i64 = px(0, ICON_SIZE as i64, scale) as i64;
        let b: i64 = scale as i64;
        let border: u32 = rgba_to_argb(self.theme.border);
        let bg: u32 = rgba_to_argb(
            if selected {
                self.theme.highlight_bg
            } else {
                self.theme.titlebar_bg
            },
        );
        let text: u32 = rgba_to_argb(
            if selected {
                self.theme.highlight_text
            } else {
                self.theme.titlebar_text
            },
        );

        // Draw icon background and a line around it
        picture.fill_rect(x, y, side, side, bg);
        picture.fill_rect(x, y, side, b, border);
        picture.fill_rect(x, y + side - b, side, b, border);
        picture.fill_rect(x, y, b, side, border);
        picture.fill_rect(x + side - b, y, b, side, border);

        // Render first character centered in the icon
        let letter: char = if icon.title.as_str().unicode_len() > 0 {
            icon.title.as_str().get_char(0)
        } else {
            '?'
        };
        let capital: String = to_capital(letter);
        let area = Area { x: to_i32(x), y: to_i32(y), width: to_i32(side), height: to_i32(side) };
        picture.render_text(
            capital.as_str(),
            area,
            scale,
            text,
            self.font_size,
            &self.font_name,
            0,
        );
        assert(picture@ =~= before + (IconStyleView { scale, ..self@ }).letter_picture(
            icon@,
            *cell,
            selected,
        ));
    }

    fn draw_label<F: Fn(char) -> Option<i32>>(&self, scale: i32, icon: &DesktopIcon, cell: &DesktopIconLayout, selected: bool, f: &F, picture: &mut Picture)
        requires
            is_advance(*f),
        ensures
            final(picture)@ == old(picture)@ + (IconStyleView { scale, ..self@ }).label_picture(
                icon@,
                *cell,
                selected,
                advance(*f),
            ),
    {
        proof {
            reveal(IconStyleView::label_picture);
        }
        let ghost before = picture@;
        let cell_w: i64 = px(0, ICON_CELL_WIDTH as i64, scale) as i64;
        let side: i64 = px(0, ICON_SIZE as i64, scale) as i64;
        let most: i32 = to_i32(
            if selected {
                side * 5
            } else {
                cell_w
            },
        );
        let title: String = truncate_with_ellipsis(icon.title.as_str(), most, f);
        let text_w: i64 = measure_text(title.as_str(), f) as i64;
        let x: i64 = px(0, cell.x as i64, scale) as i64 + cell_w / 2 - text_w / 2;
        let y: i64 = px(0, cell.y as i64, scale) as i64 + side;
        let h: i64 = px(0, ICON_LABEL_HEIGHT as i64, scale) as i64;
        let text: u32 = rgba_to_argb(
            if selected {
                self.theme.highlight_text
            } else {
                self.theme.text
            },
        );

        // Draw label background if selected, sized to the text
        if selected {
            let margin: i64 = px(0, 2, scale) as i64;
            picture.fill_rect(
                x - margin,
                y,
                text_w + margin * 2,
                h,
                rgba_to_argb(self.theme.highlight_bg),
            );
        }
        let area = Area {
            x: to_i32(x),
            y: to_i32(y),
            width: to_i32(max_i64(text_w, 1)),
            height: to_i32(h),
        };
        picture.render_text(
            title.as_str(),
            area,
            scale,
            text,
            self.label_font_size,
            &self.label_font_name,
            0,
        );
        assert(picture@ =~= before + (IconStyleView { scale, ..self@ }).label_picture(
            icon@,
            *cell,
            selected,
            advance(*f),
        ));
    }

    fn draw_icon<F: Fn(char) -> Option<i32>>(&self, scale: i32, icon: &DesktopIcon, cell: &DesktopIconLayout, selected: bool, f: &F, picture: &mut Picture)
        requires
            is_advance(*f),
        ensures
            final(picture)@ == old(picture)@ + (IconStyleView { scale, ..self@ }).icon_picture(
                icon@,
                *cell,
                selected,
                advance(*f),
            ),
    {
        let ghost before = picture@;
        match icon.icon {
            Some(app) => {
                let x: i64 = self.picture_x(scale, cell);
                picture.push(
                    Paint::AppIcon { app, x: to_i32(x), y: px(0, cell.y as i64, scale) },
                );
            },
            None => self.draw_letter(scale, icon, cell, selected, picture),
        }
        self.draw_label(scale, icon, cell, selected, f, picture);
        assert(picture@ =~= before + (IconStyleView { scale, ..self@ }).icon_picture(
            icon@,
            *cell,
            selected,
            advance(*f),
        ));
    }
}

fn find_selected(icons: &Vec<DesktopIcon>, selected: Option<WindowId>) -> (r: Option<usize>)
    ensures
        (match r {
            Some(i) => Some(i as int),
            None => None,
        }) == selected_place(icon_views(icons@), selected),
        r matches Some(i) ==> i < icons@.len(),
{
    let id: WindowId = match selected {
        Some(id) => id,
        None => return None,
    };
    let ghost views = icon_views(icons@);
    let mut i: usize = 0;
    while i < icons.len()
        invariant
            i <= icons@.len(),
            views == icon_views(icons@),
            selected == Some(id),
            forall|j: int| 0 <= j < i ==> !icon_for(id)(#[trigger] views[j]),
        decreases icons@.len() - i,
    {
        assert(views[i as int] == icons@[i as int]@);
        if icons[i].window_id == id {
            proof {
                lemma_first_is(views, icon_for(id), i as int);
            }
            return Some(i);
        }
        i = i + 1;
    }
    proof {
        lemma_first_none(views, icon_for(id));
    }
    None
}

fn cell_for(window_id: WindowId, i: usize, cols: i64, logical_h: i64) -> (r: DesktopIconLayout)
    requires
        1 <= cols <= 0x7fff_ffff,
        -0x8000_0000 <= logical_h <= 0x7fff_ffff,
    ensures
        r == cell_of(window_id, i as int, cols as int, logical_h as int),
{
    let n: i64 = if i <= i32::MAX as usize {
        i as i64
    } else {
        i32::MAX as i64
    };
    let col: i64 = n % cols;
    let row: i64 = n / cols;
    assert(0 <= (n as int) / (cols as int) <= n && 0 <= (n as int) % (cols as int) < (cols as int))
        by (nonlinear_arith)
        requires
            n >= 0,
            cols >= 1,
    ;
    assert(0 <= col * ICON_CELL_WIDTH <= 0xffff_ffff_ffff && 0 <= row * ICON_CELL_HEIGHT
        <= 0xffff_ffff_ffff) by (nonlinear_arith)
        requires
            0 <= col <= 0x7fff_ffff,
            0 <= row <= 0x7fff_ffff,
            ICON_CELL_WIDTH == 64,
            ICON_CELL_HEIGHT == 50,
    ;
    DesktopIconLayout {
        window_id,
        x: to_i32(ICON_MARGIN as i64 + col * ICON_CELL_WIDTH as i64),
        y: to_i32(
            logical_h - ICON_MARGIN as i64 - ICON_CELL_HEIGHT as i64 - row * ICON_CELL_HEIGHT as i64,
        ),
    }
}

impl DesktopSurface {
    /// The buffer to be made before the desktop is drawn; the present one is
    /// given up if it is not right
    pub fn ensure_buffer(&mut self, scale: i32) -> (r: Option<BufferPlan>)
        ensures
            r == old(self)@.buffer_needed(scale),
            r matches Some(plan) ==> plan.wf(),
            final(self)@ == (if r is Some {
                DesktopView { buffer: false, dirty: true, ..old(self)@ }
            } else {
                old(self)@
            }),
    {
        match plan_buffer(self.width, self.height, scale) {
            Some(plan) => {
                if self.buffer && self.buf_width == plan.width && self.buf_height == plan.height {
                    return None;
                }
                self.reset_buffer();
                Some(plan)
            },
            None => None,
        }
    }

    /// The buffer was made
    pub fn buffer_made(&mut self, plan: BufferPlan)
        ensures
            final(self)@ == (DesktopView {
                buffer: true,
                buf_width: plan.width,
                buf_height: plan.height,
                ..old(self)@
            }),
    {
        self.buffer = true;
        self.buf_width = plan.width;
        self.buf_height = plan.height;
    }

    /// The desktop was drawn
    pub fn drawn(&mut self)
        ensures
            final(self)@ == (DesktopView { dirty: false, ..old(self)@ }),
    {
        self.dirty = false;
    }

    /// The part of the surface that takes input: all of it
    pub fn update_input_region(&self) -> (r: Option<Area>)
        ensures
            r == (if self@.width <= 0 || self@.height <= 0 {
                None
            } else {
                Some(Area { x: 0, y: 0, width: self@.width, height: self@.height })
            }),
    {
        if self.width <= 0 || self.height <= 0 {
            None
        } else {
            Some(Area { x: 0, y: 0, width: self.width, height: self.height })
        }
    }

    fn lay_out(&mut self, icons: &Vec<DesktopIcon>, scale: i32)
        ensures
            final(self)@ == old(self)@.laid_out(icon_views(icons@), scale),
    {
        if icons.len() == 0 {
            self.icons = Vec::new();
            assert(self@ =~= old(self)@.laid_out(icon_views(icons@), scale));
            return;
        }
        if self.buf_width <= 0 || self.buf_height <= 0 {
            return;
        }
        let s: i64 = max_i32(scale, 1) as i64;
        let logical_w: i64 = self.buf_width as i64 / s;
        let logical_h: i64 = self.buf_height as i64 / s;
        assert(0 <= logical_w <= self.buf_width && 0 <= logical_h <= self.buf_height)
            by (nonlinear_arith)
            requires
                logical_w == self.buf_width as int / s as int,
                logical_h == self.buf_height as int / s as int,
                self.buf_width > 0,
                self.buf_height > 0,
                s >= 1,
        ;
        let cols: i64 = max_i64(
            (logical_w - ICON_MARGIN as i64 * 2) / ICON_CELL_WIDTH as i64,
            1,
        );
        let ghost cells = grid(icon_views(icons@), cols as int, logical_h as int);
        let mut layouts: Vec<DesktopIconLayout> = Vec::new();
        let mut i: usize = 0;
        while i < icons.len()
            invariant
                i <= icons@.len(),
                1 <= cols <= 0x7fff_ffff,
                0 <= logical_h <= 0x7fff_ffff,
                cells == grid(icon_views(icons@), cols as int, logical_h as int),
                layouts@ == cells.take(i as int),
            decreases icons@.len() - i,
        {
            layouts.push(cell_for(icons[i].window_id, i, cols, logical_h));
            i = i + 1;
            assert(layouts@ =~= cells.take(i as int));
        }
        assert(layouts@ =~= cells);
        self.icon_cols = cols as i32;
        self.icons = layouts;
        assert(self@ =~= old(self)@.laid_out(icon_views(icons@), scale));
    }

    /// Render the desktop background with minimized window icons
    pub fn render_with_icons<F: Fn(char) -> Option<i32>>(&mut self, bg_rgba: u32, icons: &Vec<DesktopIcon>, style: &IconStyle, f: &F) -> (r: Picture)
        requires
            is_advance(*f),
        ensures
            final(self)@ == old(self)@.laid_out(icon_views(icons@), style.scale),
            r@ == old(self)@.picture(bg_rgba, icon_views(icons@), style@, advance(*f)),
    {
        let ghost before = self@;
        let ghost views = icon_views(icons@);
        let mut picture = Picture::new();
        picture.fill_rect(
            0,
            0,
            self.buf_width as i64,
            self.buf_height as i64,
            rgba_to_argb(bg_rgba),
        );
        let ghost back = seq![before.background(bg_rgba)];
        assert(picture@ =~= back);
        self.lay_out(icons, style.scale);
        if icons.len() == 0 || self.buf_width <= 0 || self.buf_height <= 0 {
            return picture;
        }
        let scale: i32 = max_i32(style.scale, 1);
        let ghost at = IconStyleView { scale, ..style@ };
        let ghost cells = self@.icons;
        let selected: Option<WindowId> = self.selected_icon;

        // Render order: non-selected first, selected last so its (possibly
        // wider) label overlays neighbouring labels.
        let place: Option<usize> = find_selected(icons, selected);
        let count: usize = icons.len();
        let mut k: usize = 0;
        assert(picture@ =~= back + at.icons_picture(views, cells, selected, advance(*f), 0));
        while k < count
            invariant
                k <= count,
                count == icons@.len(),
                views == icon_views(icons@),
                cells == self.icons@,
                cells.len() == count,
                is_advance(*f),
                at == (IconStyleView { scale, ..style@ }),
                place matches Some(p) ==> p < count,
                (match place {
                    Some(p) => Some(p as int),
                    None => None,
                }) == selected_place(views, selected),
                picture@ == back + at.icons_picture(
                    views,
                    cells,
                    selected,
                    advance(*f),
                    k as int,
                ),
            decreases count - k,
        {
            let i: usize = match place {
                Some(p) => if k == count - 1 {
                    p
                } else if k < p {
                    k
                } else {
                    k + 1
                },
                None => k,
            };
            assert(views[i as int] == icons@[i as int]@);
            let icon = &icons[i];
            let is_selected: bool = selected == Some(icon.window_id);
            style.draw_icon(scale, icon, &self.icons[i], is_selected, f, &mut picture);
            k = k + 1;
            assert(picture@ =~= back + at.icons_picture(
                views,
                cells,
                selected,
                advance(*f),
                k as int,
            ));
        }
        picture
    }
}

/// Every icon of a desktop is drawn exactly once.
pub proof fn law_each_icon_is_drawn_once(n: int, selected: Option<int>, i: int)
    requires
        selected matches Some(p) ==> 0 <= p < n,
        0 <= i < n,
    ensures
        exists|k: int| 0 <= k < n && #[trigger] drawn_as(n, selected, k) == i,
        forall|j: int, k: int|
            0 <= j < k < n ==> #[trigger] drawn_as(n, selected, j) != #[trigger] drawn_as(
                n,
                selected,
                k,
            ),
{
    let k = match selected {
        Some(p) => if i == p {
            n - 1
        } else if i < p {
            i
        } else {
            i - 1
        },
        None => i,
    };
    assert(drawn_as(n, selected, k) == i);
}

/// A point in the cell that an icon is drawn in hits that icon, as long as the
/// desktop is not too large for its coordinates.
pub proof fn law_drawn_icons_are_hit(
    icons: Seq<DesktopIconView>,
    cols: int,
    logical_h: int,
    i: int,
    x: i32,
    y: i32,
)
    requires
        1 <= cols,
        cols * ICON_CELL_WIDTH <= 0x7fff_0000,
        0 <= logical_h <= 0x7fff_0000,
        icons.len() * ICON_CELL_HEIGHT <= 0x7fff_0000,
        0 <= i < icons.len(),
        cell_has(x, y)(grid(icons, cols, logical_h)[i]),
    ensures
        first(grid(icons, cols, logical_h), cell_has(x, y)) == Some(i),
{
    let cells = grid(icons, cols, logical_h);
    lemma_cell_place(i, cols, icons.len() as int);
    assert forall|j: int| 0 <= j < i implies !cell_has(x, y)(#[trigger] cells[j]) by {
        lemma_cell_place(j, cols, icons.len() as int);
        vstd::arithmetic::div_mod::lemma_fundamental_div_mod(i, cols);
        vstd::arithmetic::div_mod::lemma_fundamental_div_mod(j, cols);
        assert(i / cols != j / cols || i % cols != j % cols);
    }
    lemma_first_is(cells, cell_has(x, y), i);
}

/// Where the cell of an icon is stays within bounds.
proof fn lemma_cell_place(i: int, cols: int, n: int)
    requires
        1 <= cols,
        cols * ICON_CELL_WIDTH <= 0x7fff_0000,
        n * ICON_CELL_HEIGHT <= 0x7fff_0000,
        0 <= i < n,
    ensures
        0 <= (i % cols) * ICON_CELL_WIDTH <= cols * ICON_CELL_WIDTH - ICON_CELL_WIDTH,
        0 <= (i / cols) * ICON_CELL_HEIGHT <= 0x7fff_0000,
        smaller(i, i32::MAX as int) == i,
{
    vstd::arithmetic::div_mod::lemma_fundamental_div_mod(i, cols);
    assert(0 <= i / cols <= i) by (nonlinear_arith)
        requires
            i >= 0,
            cols >= 1,
    ;
}

/// The first icon is in the lower left corner of the desktop, each next one right of the one before,
/// and after a full row the next row begins above it. A row takes as many as there is room for.
pub proof fn law_icons_fill_rows_from_below(
    icons: Seq<DesktopIconView>,
    cols: int,
    logical_h: int,
    i: int,
)
    requires
        1 <= cols <= 10000,
        0 <= logical_h <= 100_000,
        icons.len() <= 100_000,
        0 <= i < icons.len(),
    ensures
        ({
            let cells = grid(icons, cols, logical_h);
            &&& cells.len() == icons.len()
            &&& cells[i].window_id == icons[i].window_id
            &&& cells[0].x == ICON_MARGIN && cells[0].y + ICON_CELL_HEIGHT + ICON_MARGIN == logical_h
            &&& i + 1 < icons.len() && (i + 1) % cols != 0 ==> cells[i + 1].x == cells[i].x
                + ICON_CELL_WIDTH && cells[i + 1].y == cells[i].y
            &&& i + cols < icons.len() ==> cells[i + cols].x == cells[i].x && cells[i + cols].y
                + ICON_CELL_HEIGHT == cells[i].y
        }),
{
    let n = icons.len() as int;
    lemma_row_and_column(0, cols, n);
    lemma_row_and_column(i, cols, n);
    vstd::arithmetic::div_mod::lemma_small_mod(0, cols as nat);
    vstd::arithmetic::div_mod::lemma_basic_div(0, cols);
    if i + 1 < n && (i + 1) % cols != 0 {
        lemma_row_and_column(i + 1, cols, n);
        let q = i / cols;
        let r = i % cols;
        vstd::arithmetic::div_mod::lemma_fundamental_div_mod(i, cols);
        assert(cols * q == q * cols) by (nonlinear_arith);
        if r + 1 == cols {
            assert(i + 1 == (q + 1) * cols) by (nonlinear_arith)
                requires
                    i == q * cols + r,
                    r + 1 == cols,
            ;
            vstd::arithmetic::div_mod::lemma_fundamental_div_mod_converse(i + 1, cols, q + 1, 0);
        } else {
            vstd::arithmetic::div_mod::lemma_fundamental_div_mod_converse(i + 1, cols, q, r + 1);
        }
    }
    if i + cols < n {
        lemma_row_and_column(i + cols, cols, n);
        let q = i / cols;
        let r = i % cols;
        vstd::arithmetic::div_mod::lemma_fundamental_div_mod(i, cols);
        assert(i + cols == (q + 1) * cols + r) by (nonlinear_arith)
            requires
                i == cols * q + r,
        ;
        vstd::arithmetic::div_mod::lemma_fundamental_div_mod_converse(i + cols, cols, q + 1, r);
    }
}

proof fn lemma_row_and_column(i: int, cols: int, n: int)
    requires
        0 <= i < n <= 100_000,
        1 <= cols <= 10000,
    ensures
        0 <= i % cols < 10000,
        0 <= i / cols <= 100_000,
{
    vstd::arithmetic::div_mod::lemma_fundamental_div_mod(i, cols);
    vstd::arithmetic::div_mod::lemma_mod_bound(i, cols);
    assert(0 <= i / cols <= i) by (nonlinear_arith)
        requires
            0 <= i,
            1 <= cols,
    ;
}

/// A row takes as many icons as fit between the margins, and at least one.
pub proof fn law_row_takes_what_fits(logical_w: int)
    requires
        logical_w >= 0,
    ensures
        grid_cols(logical_w) >= 1,
        logical_w >= ICON_CELL_WIDTH + 2 * ICON_MARGIN ==> grid_cols(logical_w) * ICON_CELL_WIDTH
            + 2 * ICON_MARGIN <= logical_w < (grid_cols(logical_w) + 1) * ICON_CELL_WIDTH + 2
            * ICON_MARGIN,
{
}

} // verus!
