//! What the frame around a window looks like.

use vstd::prelude::*;
use crate::canoe::render::{
    argb_of, fill, px, rgba_to_argb, Area, ButtonFace, Paint, PaintView, Picture, TitlebarIcon,
};
use crate::canoe::titlebar::{
    border_width, button_rects, spec_border_width, spec_button_rects, FrameStyle, Rect,
    TitlebarButton, TitlebarButtons, BORDER_INNER, BORDER_OUTER, BUTTON_BG_PRESSED_LEFT, BUTTON_GAP,
    BUTTON_PADDING_X,
};
use crate::config::{BorderLayers, UiConfig, UiConfigView};
use crate::num::{larger, max_i32, max_i64, min_i64, quot, sat, smaller, within};
use crate::text::opt_str;
use vstd::string::StrSliceExecFns;

verus! {

/// The size of one pixel of a button drawn for a titlebar of some height.
pub open spec fn unit(size: int, titlebar_height: i32) -> int {
    larger(size / larger(titlebar_height as int, 1), 1)
}

fn unit_of(size: i32, titlebar_height: i32) -> (r: i64)
    requires
        size >= 0,
    ensures
        r == unit(size as int, titlebar_height),
        1 <= r <= 0x7fff_ffff,
{
    let u: i32 = size / max_i32(titlebar_height, 1);
    assert(0 <= size as int / larger(titlebar_height as int, 1) <= size) by (nonlinear_arith)
        requires
            size >= 0,
            larger(titlebar_height as int, 1) >= 1,
    ;
    max_i64(u as i64, 1)
}

/// One layer of the border around a frame.
pub open spec fn border_layer(width: int, height: int, offset: int, thickness: int, rgba: u32) -> Seq<PaintView> {
    let w = width - offset * 2;
    let h = height - offset * 2;
    if thickness <= 0 || w <= 0 || h <= 0 {
        Seq::empty()
    } else {
        let argb = argb_of(rgba);
        seq![
            fill(offset, offset, w, thickness, argb),
            fill(offset, offset + h - thickness, w, thickness, argb),
            fill(offset, offset + thickness, thickness, h - thickness * 2, argb),
            fill(offset + w - thickness, offset + thickness, thickness, h - thickness * 2, argb),
        ]
    }
}

fn draw_border_layer(picture: &mut Picture, width: i32, height: i32, offset: i32, thickness: i32, rgba: u32)
    ensures
        final(picture)@ == old(picture)@ + border_layer(
            width as int,
            height as int,
            offset as int,
            thickness as int,
            rgba,
        ),
{
    let ghost before = picture@;
    let o: i64 = offset as i64;
    let t: i64 = thickness as i64;
    let w: i64 = width as i64 - o * 2;
    let h: i64 = height as i64 - o * 2;
    if t > 0 && w > 0 && h > 0 {
        let argb: u32 = rgba_to_argb(rgba);
        picture.fill_rect(o, o, w, t, argb);
        picture.fill_rect(o, o + h - t, w, t, argb);
        picture.fill_rect(o, o + t, t, h - t * 2, argb);
        picture.fill_rect(o + w - t, o + t, t, h - t * 2, argb);
    }
    assert(picture@ =~= before + border_layer(
        width as int,
        height as int,
        offset as int,
        thickness as int,
        rgba,
    ));
}

/// A button that stands out, or that is pressed in.
pub open spec fn bevel(
    x: int,
    y: int,
    size: int,
    bg: u32,
    highlight: u32,
    shadow: u32,
    pressed: bool,
    titlebar_height: i32,
) -> Seq<PaintView> {
    let u = unit(size, titlebar_height);
    let light = if pressed {
        shadow
    } else {
        highlight
    };
    let face = seq![
        fill(x, y, size, size, bg),
        fill(x, y, size, u, light),
        fill(x, y, u, size, light),
    ];
    let inner = if size >= 3 * u {
        seq![
            fill(x + u, y + size - 2 * u, size - 2 * u, u, shadow),
            fill(x + size - 2 * u, y + u, u, size - 2 * u, shadow),
        ]
    } else {
        Seq::empty()
    };
    let outer = seq![
        fill(x, y + size - u, size, u, shadow),
        fill(x + size - u, y, u, size, shadow),
    ];
    if pressed {
        face
    } else {
        face + inner + outer
    }
}

pub fn draw_button_bevel(picture: &mut Picture, x: i32, y: i32, size: i32, bg: u32, highlight: u32, shadow: u32, pressed: bool, titlebar_height: i32)
    requires
        size >= 0,
    ensures
        final(picture)@ == old(picture)@ + bevel(
            x as int,
            y as int,
            size as int,
            bg,
            highlight,
            shadow,
            pressed,
            titlebar_height,
        ),
{
    let ghost before = picture@;
    let u: i64 = unit_of(size, titlebar_height);
    let x0: i64 = x as i64;
    let y0: i64 = y as i64;
    let s: i64 = size as i64;
    let light: u32 = if pressed {
        shadow
    } else {
        highlight
    };

    picture.fill_rect(x0, y0, s, s, bg);

    // highlight: horizontal, vertical
    picture.fill_rect(x0, y0, s, u, light);
    picture.fill_rect(x0, y0, u, s, light);

    if !pressed {
        if s >= 3 * u {
            // shadow, inner: horizontal, vertical
            picture.fill_rect(x0 + u, y0 + s - 2 * u, s - 2 * u, u, shadow);
            picture.fill_rect(x0 + s - 2 * u, y0 + u, u, s - 2 * u, shadow);
        }
        // shadow, outer: horizontal, vertical
        picture.fill_rect(x0, y0 + s - u, s, u, shadow);
        picture.fill_rect(x0 + s - u, y0, u, s, shadow);
    }
    assert(picture@ =~= before + bevel(
        x as int,
        y as int,
        size as int,
        bg,
        highlight,
        shadow,
        pressed,
        titlebar_height,
    ));
}

/// A line to the left of a button.
pub open spec fn left_border(x: int, y: int, height: int, argb: u32, titlebar_height: i32) -> Seq<PaintView> {
    if x < 0 {
        Seq::empty()
    } else {
        seq![fill(x, y, unit(height, titlebar_height), height, argb)]
    }
}

fn draw_left_border(picture: &mut Picture, x: i32, y: i32, height: i32, argb: u32, titlebar_height: i32)
    requires
        height >= 0,
    ensures
        final(picture)@ == old(picture)@ + left_border(
            x as int,
            y as int,
            height as int,
            argb,
            titlebar_height,
        ),
{
    let ghost before = picture@;
    if x >= 0 {
        let u: i64 = unit_of(height, titlebar_height);
        picture.fill_rect(x as i64, y as i64, u, height as i64, argb);
    }
    assert(picture@ =~= before + left_border(
        x as int,
        y as int,
        height as int,
        argb,
        titlebar_height,
    ));
}

/// The dash on a close button without a picture.
pub open spec fn glyph_close(x: int, y: int, size: int, argb: u32, titlebar_height: i32) -> Seq<PaintView> {
    let u = unit(size, titlebar_height);
    let inner = larger(size - 2 * u, 1);
    if size - 12 * u > 0 {
        seq![fill(x + 6 * u, y + u + quot(inner - u, 2), size - 12 * u, u, argb)]
    } else {
        Seq::empty()
    }
}

fn draw_glyph_close(picture: &mut Picture, x: i32, y: i32, size: i32, argb: u32, titlebar_height: i32)
    requires
        size >= 0,
    ensures
        final(picture)@ == old(picture)@ + glyph_close(
            x as int,
            y as int,
            size as int,
            argb,
            titlebar_height,
        ),
{
    let ghost before = picture@;
    let u: i64 = unit_of(size, titlebar_height);
    let s: i64 = size as i64;
    let inner: i64 = max_i64(s - 2 * u, 1);
    let line_w: i64 = s - 12 * u;
    if line_w > 0 {
        picture.fill_rect(
            x as i64 + 6 * u,
            y as i64 + u + (inner - u) / 2,
            line_w,
            u,
            argb,
        );
    }
    assert(picture@ =~= before + glyph_close(
        x as int,
        y as int,
        size as int,
        argb,
        titlebar_height,
    ));
}

/// Half the width of a caret, in units.
pub open spec fn caret_span(titlebar_height: i32) -> int {
    larger(quot(titlebar_height as int, 4), 2)
}

/// A row of a caret that is `half` units wide on each side of its middle.
pub open spec fn caret_row(mid_x: int, row_y: int, half: int, u: int, argb: u32) -> PaintView {
    fill(mid_x - half * u, row_y, u + half * 2 * u, u, argb)
}

/// The rows of a caret whose tip points up, or down.
pub open spec fn caret(mid_x: int, top_y: int, span: int, u: int, down: bool, argb: u32) -> Seq<PaintView> {
    Seq::new(
        (span + 1) as nat,
        |i: int|
            caret_row(
                mid_x,
                top_y + i * u,
                if down {
                    span - i
                } else {
                    i
                },
                u,
                argb,
            ),
    )
}

fn draw_caret(picture: &mut Picture, mid_x: i64, top_y: i64, span: i64, u: i64, down: bool, argb: u32)
    requires
        2 <= span <= 0x2000_0000,
        1 <= u <= 0x7fff_ffff,
        -0x4000_0000_0000_0000 <= mid_x <= 0x4000_0000_0000_0000,
        -0x4000_0000_0000_0000 <= top_y <= 0x4000_0000_0000_0000,
    ensures
        final(picture)@ == old(picture)@ + caret(
            mid_x as int,
            top_y as int,
            span as int,
            u as int,
            down,
            argb,
        ),
{
    let ghost before = picture@;
    let ghost rows = caret(mid_x as int, top_y as int, span as int, u as int, down, argb);
    let mut i: i64 = 0;
    assert(picture@ =~= before + rows.take(0));
    while i <= span
        invariant
            0 <= i <= span + 1,
            2 <= span <= 0x2000_0000,
            1 <= u <= 0x7fff_ffff,
            -0x4000_0000_0000_0000 <= mid_x <= 0x4000_0000_0000_0000,
            -0x4000_0000_0000_0000 <= top_y <= 0x4000_0000_0000_0000,
            rows == caret(mid_x as int, top_y as int, span as int, u as int, down, argb),
            picture@ == before + rows.take(i as int),
        decreases span + 1 - i,
    {
        let half: i64 = if down {
            span - i
        } else {
            i
        };
        assert(0 <= half * u <= 0x1000_0000_0000_0000 && half * 2 * u == 2 * (half * u) && 0 <= i * u
            <= 0x1000_0000_0000_0000) by (nonlinear_arith)
            requires
                0 <= half <= 0x2000_0000,
                0 <= i <= 0x2000_0000,
                1 <= u <= 0x7fff_ffff,
        ;
        let side: i64 = half * u;
        picture.fill_rect(mid_x - side, top_y + i * u, u + 2 * side, u, argb);
        i = i + 1;
        assert(picture@ =~= before + rows.take(i as int));
    }
    assert(rows.take(i as int) =~= rows);
}

/// The caret on a button without a picture.
pub open spec fn glyph_caret(x: int, y: int, size: int, argb: u32, down: bool, titlebar_height: i32) -> Seq<PaintView> {
    let u = unit(size, titlebar_height);
    let span = caret_span(titlebar_height);
    let inner = larger(size - 2 * u, 1);
    let top = y + u + quot(inner - (span * 2 + 1) * u, 2) + 4 * u;
    caret(x + quot(size, 2), top, span, u, down, argb)
}

/// The two carets on the button of a maximized window without a picture.
pub open spec fn glyph_caret_pair(x: int, y: int, size: int, argb: u32, titlebar_height: i32) -> Seq<PaintView> {
    let u = unit(size, titlebar_height);
    let span = caret_span(titlebar_height);
    let inner = larger(size - 2 * u, 1);
    let glyph = (span * 2 + 1) * u;
    let top = y + u + quot(inner - (glyph * 2 + u), 2) + 5 * u;
    let mid_x = x + quot(size, 2);
    caret(mid_x, top, span, u, false, argb) + caret(
        mid_x,
        top + glyph + u - 5 * u,
        span,
        u,
        true,
        argb,
    )
}

fn caret_span_of(titlebar_height: i32) -> (r: i64)
    ensures
        r == caret_span(titlebar_height),
        2 <= r <= 0x2000_0000,
{
    max_i64((titlebar_height / 4) as i64, 2)
}

fn draw_glyph_caret(picture: &mut Picture, x: i32, y: i32, size: i32, argb: u32, down: bool, titlebar_height: i32)
    requires
        size >= 0,
    ensures
        final(picture)@ == old(picture)@ + glyph_caret(
            x as int,
            y as int,
            size as int,
            argb,
            down,
            titlebar_height,
        ),
{
    let u: i64 = unit_of(size, titlebar_height);
    let span: i64 = caret_span_of(titlebar_height);
    let s: i64 = size as i64;
    assert(0 <= (span * 2 + 1) * u <= 0x4000_0001 * 0x7fff_ffff) by (nonlinear_arith)
        requires
            2 <= span <= 0x2000_0000,
            1 <= u <= 0x7fff_ffff,
    ;
    let glyph_height: i64 = (span * 2 + 1) * u;
    let inner: i64 = max_i64(s - 2 * u, 1);
    let top_y: i64 = y as i64 + u + (inner - glyph_height) / 2 + 4 * u;
    let mid_x: i64 = x as i64 + s / 2;
    draw_caret(picture, mid_x, top_y, span, u, down, argb);
}

fn draw_glyph_caret_pair(picture: &mut Picture, x: i32, y: i32, size: i32, argb: u32, titlebar_height: i32)
    requires
        size >= 0,
    ensures
        final(picture)@ == old(picture)@ + glyph_caret_pair(
            x as int,
            y as int,
            size as int,
            argb,
            titlebar_height,
        ),
{
    let ghost before = picture@;
    let u: i64 = unit_of(size, titlebar_height);
    let span: i64 = caret_span_of(titlebar_height);
    let s: i64 = size as i64;
    assert(0 <= (span * 2 + 1) * u <= 0x4000_0001 * 0x7fff_ffff) by (nonlinear_arith)
        requires
            2 <= span <= 0x2000_0000,
            1 <= u <= 0x7fff_ffff,
    ;
    let glyph_height: i64 = (span * 2 + 1) * u;
    let inner: i64 = max_i64(s - 2 * u, 1);
    let total: i64 = glyph_height * 2 + u;
    let top_y: i64 = y as i64 + u + (inner - total) / 2 + 5 * u;
    let mid_x: i64 = x as i64 + s / 2;
    draw_caret(picture, mid_x, top_y, span, u, false, argb);
    draw_caret(picture, mid_x, top_y + glyph_height + u - 5 * u, span, u, true, argb);
    assert(picture@ =~= before + glyph_caret_pair(
        x as int,
        y as int,
        size as int,
        argb,
        titlebar_height,
    ));
}

/// What a frame is drawn from, besides the theme.
#[derive(Debug, Clone, Copy, PartialEq, Eq, Structural)]
pub struct BaseFrameParams {
    pub is_active: bool,
    pub content_width: i32,
    pub titlebar_height: i32,
    pub buffer_width: i32,
    pub buffer_height: i32,
    pub height: i32,
    pub scale: i32,
    pub show_minimize: bool,
    pub show_maximize: bool,
    pub frame_style: FrameStyle,
}

/// Background of the titlebar.
pub open spec fn title_background(ui: UiConfigView, is_active: bool) -> u32 {
    if is_active {
        ui.titlebar_bg_active
    } else {
        ui.titlebar_bg_inactive
    }
}

/// The configured colours of the border.
pub open spec fn border_palette(ui: UiConfigView, is_active: bool) -> BorderLayers {
    if is_active {
        ui.border_active
    } else {
        ui.border_inactive
    }
}

/// The colours of the border. That of a dialog takes up the background of the
/// titlebar.
pub open spec fn frame_colors(ui: UiConfigView, is_active: bool, frame_style: FrameStyle) -> BorderLayers {
    let palette = border_palette(ui, is_active);
    match frame_style {
        FrameStyle::Dialog => BorderLayers { mid: title_background(ui, is_active), ..palette },
        _ => palette,
    }
}

impl BaseFrameParams {
    pub open spec fn border(self, ui: UiConfigView) -> i32 {
        spec_border_width(ui.border_width, self.frame_style)
    }

    /// Height of the titlebar, as far as the frame has room for it.
    pub open spec fn title_height(self, ui: UiConfigView) -> int {
        smaller(self.titlebar_height as int, self.height - self.border(ui) * 2)
    }

    /// A length in buffer pixels.
    pub open spec fn pixels(self, v: int) -> i32 {
        sat(v * self.scale)
    }

    /// The border: always its outer line; unless the window cannot be resized,
    /// also the broad layer and the inner line.
    pub open spec fn border_picture(self, ui: UiConfigView) -> Seq<PaintView> {
        let colors = frame_colors(ui, self.is_active, self.frame_style);
        let w = self.buffer_width as int;
        let h = self.buffer_height as int;
        let mid = larger(self.border(ui) - BORDER_INNER - BORDER_OUTER, 0);
        let outline = border_layer(
            w,
            h,
            0,
            self.pixels(BORDER_OUTER as int) as int,
            colors.outer,
        );
        if self.frame_style == FrameStyle::FixedSize {
            outline
        } else {
            outline + border_layer(
                w,
                h,
                self.pixels(BORDER_OUTER as int) as int,
                self.pixels(mid) as int,
                colors.mid,
            ) + border_layer(
                w,
                h,
                self.pixels(BORDER_OUTER + mid) as int,
                self.pixels(BORDER_INNER as int) as int,
                colors.inner,
            )
        }
    }

    /// The line to the left of a button, if there is one.
    pub open spec fn button_border(self, ui: UiConfigView, rect: Option<Rect>, argb: u32) -> Seq<PaintView> {
        match rect {
            Some(r) => left_border(
                self.pixels(self.border(ui) + r.x - 1) as int,
                self.pixels(self.border(ui) as int) as int,
                self.pixels(self.title_height(ui)) as int,
                argb,
                self.titlebar_height,
            ),
            None => Seq::empty(),
        }
    }

    /// The line between the titlebar and the contents, where there is room.
    #[verifier::opaque]
    pub open spec fn separator(self, ui: UiConfigView, argb: u32) -> Seq<PaintView> {
        let border = self.border(ui);
        let y = border + self.title_height(ui);
        if 0 <= y < self.height - border {
            seq![
                fill(
                    self.pixels(border as int) as int,
                    self.pixels(y) as int,
                    self.pixels(self.content_width as int) as int,
                    self.scale as int,
                    argb,
                ),
            ]
        } else {
            Seq::empty()
        }
    }

    /// The background of the titlebar, the lines between its buttons and the
    /// line below it.
    pub open spec fn title_picture(self, ui: UiConfigView) -> Seq<PaintView> {
        let border = self.border(ui);
        let title_h = self.title_height(ui);
        let argb = argb_of(frame_colors(ui, self.is_active, self.frame_style).outer);
        let buttons = spec_button_rects(
            self.content_width,
            self.titlebar_height,
            self.show_minimize,
            self.show_maximize,
        );
        if title_h > 0 {
            seq![
                fill(
                    self.pixels(border as int) as int,
                    self.pixels(border as int) as int,
                    self.pixels(self.content_width as int) as int,
                    self.pixels(title_h) as int,
                    argb_of(title_background(ui, self.is_active)),
                ),
            ] + left_border(
                self.pixels(border + buttons.close.x + buttons.close.width) as int,
                self.pixels(border as int) as int,
                self.pixels(title_h) as int,
                argb,
                self.titlebar_height,
            ) + self.button_border(ui, buttons.hide, argb) + self.button_border(
                ui,
                buttons.maximize,
                argb,
            ) + self.separator(ui, argb)
        } else {
            Seq::empty()
        }
    }

    /// The static part of the frame.
    pub open spec fn base_picture(self, ui: UiConfigView) -> Seq<PaintView> {
        self.border_picture(ui) + self.title_picture(ui)
    }

    fn frame_colors(&self, ui: &UiConfig) -> (r: BorderLayers)
        ensures
            r == frame_colors(ui@, self.is_active, self.frame_style),
    {
        let mut colors = if self.is_active {
            ui.border_active
        } else {
            ui.border_inactive
        };
        if let FrameStyle::Dialog = self.frame_style {
            // The bulk border picks up the titlebar background so the
            // dialog reads as a continuation of the title; outer/inner
            // thin frames stay on the normal palette.
            colors.mid = if self.is_active {
                ui.titlebar_bg_active
            } else {
                ui.titlebar_bg_inactive
            };
        }
        colors
    }

    fn title_height_in(&self, ui: &UiConfig) -> (r: i64)
        ensures
            r == self.title_height(ui@),
            -0x2_0000_0000 <= r <= 0x7fff_ffff,
    {
        let border: i64 = border_width(ui, self.frame_style) as i64;
        min_i64(self.titlebar_height as i64, self.height as i64 - border * 2)
    }

    fn draw_border(&self, ui: &UiConfig, picture: &mut Picture)
        ensures
            final(picture)@ == old(picture)@ + self.border_picture(ui@),
    {
        let ghost before = picture@;
        let colors = self.frame_colors(ui);
        let border: i64 = border_width(ui, self.frame_style) as i64;
        let outer: i64 = BORDER_OUTER as i64;
        let inner: i64 = BORDER_INNER as i64;
        let w: i32 = self.buffer_width;
        let h: i32 = self.buffer_height;
        // Always paint the 1px outer outline. Non-resizable toplevels stop
        // here: the border is exactly that outline, hugging the content.
        draw_border_layer(picture, w, h, 0, px(0, outer, self.scale), colors.outer);
        if self.frame_style != FrameStyle::FixedSize {
            let mid: i64 = max_i64(border - inner - outer, 0);
            draw_border_layer(
                picture,
                w,
                h,
                px(0, outer, self.scale),
                px(0, mid, self.scale),
                colors.mid,
            );
            draw_border_layer(
                picture,
                w,
                h,
                px(0, outer + mid, self.scale),
                px(0, inner, self.scale),
                colors.inner,
            );
        }
        assert(picture@ =~= before + self.border_picture(ui@));
    }

    fn draw_button_border(&self, ui: &UiConfig, rect: Option<Rect>, argb: u32, picture: &mut Picture)
        requires
            self.scale >= 1,
            self.title_height(ui@) > 0,
        ensures
            final(picture)@ == old(picture)@ + self.button_border(ui@, rect, argb),
    {
        let ghost before = picture@;
        let border: i64 = border_width(ui, self.frame_style) as i64;
        let title_h: i64 = self.title_height_in(ui);
        assert(title_h * self.scale > 0) by (nonlinear_arith)
            requires
                title_h > 0,
                self.scale >= 1,
        ;
        if let Some(r) = rect {
            draw_left_border(
                picture,
                px(0, border + r.x as i64 - 1, self.scale),
                px(0, border, self.scale),
                px(0, title_h, self.scale),
                argb,
                self.titlebar_height,
            );
        }
        assert(picture@ =~= before + self.button_border(ui@, rect, argb));
    }

    fn draw_separator(&self, ui: &UiConfig, argb: u32, picture: &mut Picture)
        requires
            self.scale >= 1,
        ensures
            final(picture)@ == old(picture)@ + self.separator(ui@, argb),
    {
        proof {
            reveal(BaseFrameParams::separator);
        }
        let ghost before = picture@;
        let border: i64 = border_width(ui, self.frame_style) as i64;
        let y: i64 = border + self.title_height_in(ui);
        if y >= 0 && y < self.height as i64 - border {
            picture.fill_rect(
                px(0, border, self.scale) as i64,
                px(0, y, self.scale) as i64,
                px(0, self.content_width as i64, self.scale) as i64,
                self.scale as i64,
                argb,
            );
        }
        assert(picture@ =~= before + self.separator(ui@, argb));
    }

    #[verifier::spinoff_prover]
    fn draw_title(&self, ui: &UiConfig, picture: &mut Picture)
        requires
            self.scale >= 1,
        ensures
            final(picture)@ == old(picture)@ + self.title_picture(ui@),
    {
        let ghost before = picture@;
        let border: i64 = border_width(ui, self.frame_style) as i64;
        let title_h: i64 = self.title_height_in(ui);
        if title_h > 0 {
            assert(title_h * self.scale > 0) by (nonlinear_arith)
                requires
                    title_h > 0,
                    self.scale >= 1,
            ;
            let argb: u32 = rgba_to_argb(self.frame_colors(ui).outer);
            let bg: u32 = rgba_to_argb(
                if self.is_active {
                    ui.titlebar_bg_active
                } else {
                    ui.titlebar_bg_inactive
                },
            );
            picture.fill_rect(
                px(0, border, self.scale) as i64,
                px(0, border, self.scale) as i64,
                px(0, self.content_width as i64, self.scale) as i64,
                px(0, title_h, self.scale) as i64,
                bg,
            );
            let buttons = button_rects(
                self.content_width,
                self.titlebar_height,
                self.show_minimize,
                self.show_maximize,
            );
            draw_left_border(
                picture,
                px(0, border + buttons.close.x as i64 + buttons.close.width as i64, self.scale),
                px(0, border, self.scale),
                px(0, title_h, self.scale),
                argb,
                self.titlebar_height,
            );
            self.draw_button_border(ui, buttons.hide, argb, picture);
            self.draw_button_border(ui, buttons.maximize, argb, picture);
            self.draw_separator(ui, argb, picture);
        }
        assert(picture@ =~= before + self.title_picture(ui@));
    }

    /// Paint the static base frame (borders + titlebar background). The
    /// content cut-out is left untouched.
    pub fn draw_base_frame(&self, ui: &UiConfig, picture: &mut Picture)
        requires
            self.scale >= 1,
        ensures
            final(picture)@ == old(picture)@ + self.base_picture(ui@),
    {
        let ghost before = picture@;
        self.draw_border(ui, picture);
        self.draw_title(ui, picture);
        assert(picture@ =~= before + self.base_picture(ui@));
    }
}

/// What the buttons and the title of a frame are drawn from.
#[derive(Debug, Clone, Copy, PartialEq, Eq, Structural)]
pub struct TitlebarLook {
    pub is_active: bool,
    pub is_maximized: bool,
    pub show_minimize: bool,
    pub show_maximize: bool,
    pub frame_style: FrameStyle,
    pub hovered: Option<TitlebarButton>,
    pub left_down: bool,
}

/// The background of a button.
pub open spec fn face_of(button: TitlebarButton, pressed: bool) -> ButtonFace {
    match (button, pressed) {
        (TitlebarButton::Close, false) => ButtonFace::CloseNormal,
        (TitlebarButton::Close, true) => ButtonFace::ClosePressed,
        (TitlebarButton::Hide, false) => ButtonFace::HideNormal,
        (TitlebarButton::Hide, true) => ButtonFace::HidePressed,
        (TitlebarButton::Maximize, false) => ButtonFace::MaximizeNormal,
        (TitlebarButton::Maximize, true) => ButtonFace::MaximizePressed,
    }
}

/// The picture on a button.
pub open spec fn icon_on(button: TitlebarButton, is_maximized: bool) -> TitlebarIcon {
    match button {
        TitlebarButton::Close => TitlebarIcon::Close,
        TitlebarButton::Hide => TitlebarIcon::Minimize,
        TitlebarButton::Maximize => if is_maximized {
            TitlebarIcon::Unmaximize
        } else {
            TitlebarIcon::Maximize
        },
    }
}

/// Side of the pictures on the buttons.
pub open spec fn icon_size(titlebar_height: i32) -> int {
    within(titlebar_height - 4, 6, larger(titlebar_height as int, 1))
}

/// Side of the pictures on the buttons of a titlebar
pub fn icon_size_for_titlebar(titlebar_height: i32) -> (r: i32)
    requires
        titlebar_height >= 6,
    ensures
        r == icon_size(titlebar_height),
        6 <= r <= titlebar_height,
{
    if titlebar_height - 4 < 6 {
        6
    } else {
        titlebar_height - 4
    }
}

impl TitlebarLook {
    /// Whether a button is being pressed.
    pub open spec fn presses(self, button: TitlebarButton) -> bool {
        self.left_down && self.hovered == Some(button)
    }
}

fn draws_pressed(look: &TitlebarLook, button: TitlebarButton) -> (r: bool)
    ensures
        r == look.presses(button),
{
    look.left_down && look.hovered == Some(button)
}

impl BaseFrameParams {
    /// The background of a button: its kept image, or drawn anew if there is
    /// none.
    pub open spec fn face_picture(
        self,
        ui: UiConfigView,
        button: TitlebarButton,
        rect: Rect,
        pressed: bool,
        kept: bool,
    ) -> Seq<PaintView> {
        let x = self.pixels(self.border(ui) + rect.x);
        let y = self.pixels(self.border(ui) + rect.y);
        let size = self.pixels(rect.width as int);
        if kept {
            seq![PaintView::Plain(Paint::Face { face: face_of(button, pressed), x, y })]
        } else if button == TitlebarButton::Close {
            let bg = if pressed {
                BUTTON_BG_PRESSED_LEFT
            } else {
                ui.button_bg
            };
            seq![
                fill(
                    x as int,
                    y as int,
                    size as int,
                    self.pixels(self.title_height(ui)) as int,
                    argb_of(bg),
                ),
            ]
        } else {
            bevel(
                x as int,
                y as int,
                size as int,
                argb_of(ui.button_bg),
                argb_of(ui.button_highlight),
                argb_of(ui.button_shadow),
                pressed,
                self.titlebar_height,
            )
        }
    }

    /// How far the picture on a button moves while it is pressed.
    pub open spec fn press_offset(self, button: TitlebarButton, pressed: bool) -> int {
        if pressed && button != TitlebarButton::Close {
            self.scale as int
        } else {
            0
        }
    }

    /// What is on a button: its picture, or a sign in its place.
    pub open spec fn sign_picture(
        self,
        ui: UiConfigView,
        button: TitlebarButton,
        rect: Rect,
        pressed: bool,
        is_maximized: bool,
        icons_ready: bool,
    ) -> Seq<PaintView> {
        let icon = icon_size(self.titlebar_height);
        let offset = self.press_offset(button, pressed);
        let border = self.border(ui);
        let argb = argb_of(border_palette(ui, self.is_active).outer);
        let x = sat(offset + (border + rect.x) * self.scale) as int;
        let y = sat(offset + (border + rect.y) * self.scale) as int;
        let size = self.pixels(rect.width as int) as int;
        if icons_ready {
            seq![
                PaintView::Plain(
                    Paint::Icon {
                        icon: icon_on(button, is_maximized),
                        x: sat(
                            offset + (border + rect.x + quot(rect.width - icon, 2)) * self.scale,
                        ),
                        y: sat(
                            offset + (border + rect.y + quot(rect.height - icon, 2)) * self.scale,
                        ),
                    },
                ),
            ]
        } else {
            match button {
                TitlebarButton::Close => glyph_close(x, y, size, argb, self.titlebar_height),
                TitlebarButton::Hide => glyph_caret(x, y, size, argb, true, self.titlebar_height),
                TitlebarButton::Maximize => if is_maximized {
                    glyph_caret_pair(x, y, size, argb, self.titlebar_height)
                } else {
                    glyph_caret(x, y, size, argb, false, self.titlebar_height)
                },
            }
        }
    }

    /// A button, if it is there.
    #[verifier::opaque]
    pub open spec fn button_picture(
        self,
        ui: UiConfigView,
        button: TitlebarButton,
        rect: Option<Rect>,
        look: TitlebarLook,
        kept: bool,
        icons_ready: bool,
    ) -> Seq<PaintView> {
        match rect {
            Some(r) => self.face_picture(ui, button, r, look.presses(button), kept)
                + self.sign_picture(
                ui,
                button,
                r,
                look.presses(button),
                look.is_maximized,
                icons_ready,
            ),
            None => Seq::empty(),
        }
    }

    /// Where the title begins.
    pub open spec fn text_start(self, buttons: TitlebarButtons) -> int {
        larger(buttons.close.x + buttons.close.width + BUTTON_GAP, 0)
    }

    /// The room for the title: from the close button to the other buttons.
    pub open spec fn text_width(self, ui: UiConfigView, buttons: TitlebarButtons) -> int {
        let right_x = match (buttons.hide, buttons.maximize) {
            (Some(r), _) => r.x as int,
            (None, Some(maximize)) => maximize.x as int,
            (None, None) => self.content_width - BUTTON_PADDING_X,
        };
        let end = smaller(right_x - BUTTON_GAP - ui.font_size.half, self.content_width as int);
        larger(end - self.text_start(buttons), 0)
    }

    /// The title.
    #[verifier::opaque]
    pub open spec fn text_picture(
        self,
        ui: UiConfigView,
        title: Option<Seq<char>>,
        buttons: TitlebarButtons,
    ) -> Seq<PaintView> {
        match title {
            Some(text) => if text.len() > 0 && self.text_width(ui, buttons) > 0 {
                let rgba = if self.is_active {
                    ui.titlebar_text_active
                } else {
                    ui.titlebar_text_inactive
                };
                seq![
                    PaintView::Text {
                        text,
                        area: Area {
                            x: self.pixels(self.border(ui) + self.text_start(buttons)),
                            y: self.pixels(self.border(ui) as int),
                            width: self.pixels(self.text_width(ui, buttons)),
                            height: self.pixels(self.title_height(ui)),
                        },
                        scale: self.scale,
                        argb: argb_of(rgba),
                        font_size: ui.font_size,
                        font_name: ui.font_name,
                        padding: self.pixels(ui.font_size.half as int),
                    },
                ]
            } else {
                Seq::empty()
            },
            None => Seq::empty(),
        }
    }

    /// The buttons and the title.
    pub open spec fn title_contents(
        self,
        ui: UiConfigView,
        title: Option<Seq<char>>,
        look: TitlebarLook,
        kept: bool,
        icons_ready: bool,
    ) -> Seq<PaintView> {
        let buttons = spec_button_rects(
            self.content_width,
            self.titlebar_height,
            self.show_minimize,
            self.show_maximize,
        );
        if self.title_height(ui) > 0 {
            self.button_picture(
                ui,
                TitlebarButton::Close,
                Some(buttons.close),
                look,
                kept,
                icons_ready,
            ) + self.button_picture(
                ui,
                TitlebarButton::Hide,
                buttons.hide,
                look,
                kept,
                icons_ready,
            ) + self.button_picture(
                ui,
                TitlebarButton::Maximize,
                buttons.maximize,
                look,
                kept,
                icons_ready,
            ) + self.text_picture(ui, title, buttons)
        } else {
            Seq::empty()
        }
    }

    fn draw_face(&self, ui: &UiConfig, button: TitlebarButton, rect: Rect, pressed: bool, kept: bool, picture: &mut Picture)
        requires
            self.scale >= 1,
            rect.width >= 0,
        ensures
            final(picture)@ == old(picture)@ + self.face_picture(ui@, button, rect, pressed, kept),
    {
        let ghost before = picture@;
        let border: i64 = border_width(ui, self.frame_style) as i64;
        let x: i32 = px(0, border + rect.x as i64, self.scale);
        let y: i32 = px(0, border + rect.y as i64, self.scale);
        let size: i32 = px(0, rect.width as i64, self.scale);
        assert(rect.width * self.scale >= 0) by (nonlinear_arith)
            requires
                rect.width >= 0,
                self.scale >= 1,
        ;
        if kept {
            let face = match (button, pressed) {
                (TitlebarButton::Close, false) => ButtonFace::CloseNormal,
                (TitlebarButton::Close, true) => ButtonFace::ClosePressed,
                (TitlebarButton::Hide, false) => ButtonFace::HideNormal,
                (TitlebarButton::Hide, true) => ButtonFace::HidePressed,
                (TitlebarButton::Maximize, false) => ButtonFace::MaximizeNormal,
                (TitlebarButton::Maximize, true) => ButtonFace::MaximizePressed,
            };
            picture.push(Paint::Face { face, x, y });
        } else if button == TitlebarButton::Close {
            let bg: u32 = if pressed {
                BUTTON_BG_PRESSED_LEFT
            } else {
                ui.button_bg
            };
            let title_h: i64 = self.title_height_in(ui);
            picture.fill_rect(
                x as i64,
                y as i64,
                size as i64,
                px(0, title_h, self.scale) as i64,
                rgba_to_argb(bg),
            );
        } else {
            draw_button_bevel(
                picture,
                x,
                y,
                size,
                rgba_to_argb(ui.button_bg),
                rgba_to_argb(ui.button_highlight),
                rgba_to_argb(ui.button_shadow),
                pressed,
                self.titlebar_height,
            );
        }
        assert(picture@ =~= before + self.face_picture(ui@, button, rect, pressed, kept));
    }

    fn draw_sign(&self, ui: &UiConfig, button: TitlebarButton, rect: Rect, pressed: bool, is_maximized: bool, icons_ready: bool, picture: &mut Picture)
        requires
            self.scale >= 1,
            rect.width >= 0,
            self.titlebar_height >= 6,
        ensures
            final(picture)@ == old(picture)@ + self.sign_picture(
                ui@,
                button,
                rect,
                pressed,
                is_maximized,
                icons_ready,
            ),
    {
        let ghost before = picture@;
        let border: i64 = border_width(ui, self.frame_style) as i64;
        let offset: i64 = if pressed && button != TitlebarButton::Close {
            self.scale as i64
        } else {
            0
        };
        if icons_ready {
            let icon_side: i64 = icon_size_for_titlebar(self.titlebar_height) as i64;
            let icon = match button {
                TitlebarButton::Close => TitlebarIcon::Close,
                TitlebarButton::Hide => TitlebarIcon::Minimize,
                TitlebarButton::Maximize => if is_maximized {
                    TitlebarIcon::Unmaximize
                } else {
                    TitlebarIcon::Maximize
                },
            };
            let left: i64 = border + rect.x as i64 + (rect.width as i64 - icon_side) / 2;
            let top: i64 = border + rect.y as i64 + (rect.height as i64 - icon_side) / 2;
            picture.push(
                Paint::Icon {
                    icon,
                    x: px(offset, left, self.scale),
                    y: px(offset, top, self.scale),
                },
            );
        } else {
            let argb: u32 = rgba_to_argb(
                if self.is_active {
                    ui.border_active.outer
                } else {
                    ui.border_inactive.outer
                },
            );
            let x: i32 = px(offset, border + rect.x as i64, self.scale);
            let y: i32 = px(offset, border + rect.y as i64, self.scale);
            let size: i32 = px(0, rect.width as i64, self.scale);
            assert(rect.width * self.scale >= 0) by (nonlinear_arith)
                requires
                    rect.width >= 0,
                    self.scale >= 1,
            ;
            let th: i32 = self.titlebar_height;
            match button {
                TitlebarButton::Close => draw_glyph_close(picture, x, y, size, argb, th),
                TitlebarButton::Hide => draw_glyph_caret(picture, x, y, size, argb, true, th),
                TitlebarButton::Maximize => {
                    if is_maximized {
                        draw_glyph_caret_pair(picture, x, y, size, argb, th);
                    } else {
                        draw_glyph_caret(picture, x, y, size, argb, false, th);
                    }
                },
            }
        }
        assert(picture@ =~= before + self.sign_picture(
            ui@,
            button,
            rect,
            pressed,
            is_maximized,
            icons_ready,
        ));
    }

    fn draw_button(&self, ui: &UiConfig, button: TitlebarButton, rect: Option<Rect>, look: &TitlebarLook, kept: bool, icons_ready: bool, picture: &mut Picture)
        requires
            self.scale >= 1,
            rect matches Some(r) ==> r.width >= 0,
            self.titlebar_height >= 6,
        ensures
            final(picture)@ == old(picture)@ + self.button_picture(
                ui@,
                button,
                rect,
                *look,
                kept,
                icons_ready,
            ),
    {
        proof {
            reveal(BaseFrameParams::button_picture);
        }
        let ghost before = picture@;
        if let Some(r) = rect {
            let pressed: bool = draws_pressed(look, button);
            self.draw_face(ui, button, r, pressed, kept, picture);
            self.draw_sign(ui, button, r, pressed, look.is_maximized, icons_ready, picture);
        }
        assert(picture@ =~= before + self.button_picture(
            ui@,
            button,
            rect,
            *look,
            kept,
            icons_ready,
        ));
    }

    fn draw_text(&self, ui: &UiConfig, title: Option<&str>, buttons: TitlebarButtons, picture: &mut Picture)
        ensures
            final(picture)@ == old(picture)@ + self.text_picture(ui@, opt_str(title), buttons),
    {
        proof {
            reveal(BaseFrameParams::text_picture);
        }
        let ghost before = picture@;
        if let Some(text) = title {
            if text.unicode_len() > 0 {
                let gap: i64 = BUTTON_GAP as i64;
                let padding: i64 = ui.font_size.half as i64;
                let start: i64 = max_i64(
                    buttons.close.x as i64 + buttons.close.width as i64 + gap,
                    0,
                );
                let right_x: i64 = match buttons.hide {
                    Some(r) => r.x as i64,
                    None => match buttons.maximize {
                        Some(maximize) => maximize.x as i64,
                        None => self.content_width as i64 - BUTTON_PADDING_X as i64,
                    },
                };
                let end: i64 = min_i64(right_x - gap - padding, self.content_width as i64);
                let width: i64 = max_i64(end - start, 0);
                if width > 0 {
                    let border: i64 = border_width(ui, self.frame_style) as i64;
                    let title_h: i64 = self.title_height_in(ui);
                    let area = Area {
                        x: px(0, border + start, self.scale),
                        y: px(0, border, self.scale),
                        width: px(0, width, self.scale),
                        height: px(0, title_h, self.scale),
                    };
                    let argb: u32 = rgba_to_argb(
                        if self.is_active {
                            ui.titlebar_text_active
                        } else {
                            ui.titlebar_text_inactive
                        },
                    );
                    picture.render_text(
                        text,
                        area,
                        self.scale,
                        argb,
                        ui.font_size,
                        &ui.font_name,
                        px(0, padding, self.scale),
                    );
                }
            }
        }
        assert(picture@ =~= before + self.text_picture(ui@, opt_str(title), buttons));
    }

    /// Draw the buttons and the title over the frame
    pub fn draw_title_contents(&self, ui: &UiConfig, title: Option<&str>, look: &TitlebarLook, kept: bool, icons_ready: bool, picture: &mut Picture)
        requires
            self.scale >= 1,
            self.titlebar_height >= 6,
        ensures
            final(picture)@ == old(picture)@ + self.title_contents(
                ui@,
                opt_str(title),
                *look,
                kept,
                icons_ready,
            ),
    {
        let ghost before = picture@;
        if self.title_height_in(ui) > 0 {
            let buttons = button_rects(
                self.content_width,
                self.titlebar_height,
                self.show_minimize,
                self.show_maximize,
            );
            self.draw_button(
                ui,
                TitlebarButton::Close,
                Some(buttons.close),
                look,
                kept,
                icons_ready,
                picture,
            );
            self.draw_button(ui, TitlebarButton::Hide, buttons.hide, look, kept, icons_ready, picture);
            self.draw_button(
                ui,
                TitlebarButton::Maximize,
                buttons.maximize,
                look,
                kept,
                icons_ready,
                picture,
            );
            self.draw_text(ui, title, buttons, picture);
        }
        assert(picture@ =~= before + self.title_contents(
            ui@,
            opt_str(title),
            *look,
            kept,
            icons_ready,
        ));
    }
}

} // verus!
