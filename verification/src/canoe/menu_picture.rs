//! What a window menu looks like.

use vstd::prelude::*;
use crate::canoe::menu::{
    MenuCacheKey, MenuItem, MenuItemView, MenuTheme, MenuThemeView, MenuView, WindowMenu,
    ACTIVE_DIAMOND_SIZE, BORDER_COLOR, ICON_GAP, ICON_SIZE, ITEM_PADDING_X, L_SHADOW_COLOR,
    L_SHADOW_SIZE, MENU_BORDER,
};
use crate::canoe::render::{
    argb_of, buffer_for, fill, plan_buffer, px, rgba_to_argb, Area, BufferPlan, Paint, PaintView,
    Picture,
};
use crate::num::{abs_i64, larger, magnitude, max_i32, max_i64, min_i64, quot, sat, smaller, to_i32};

verus! {

/// Length of a dash, and of the gap between two.
pub const DASH: i32 = 2;

/// Where the rows of a menu are drawn.
#[derive(Debug, Clone, Copy, PartialEq, Eq, Structural)]
pub struct MenuRowContext {
    pub menu_w: i64,
    pub item_h: i64,
    pub scale: i32,
    /// Buffer-space x offset of the menu content area (left edge), in pixels.
    pub content_x_px: i64,
    /// Buffer-space y offset of the menu content area (top edge), in pixels.
    pub content_y_px: i64,
}

impl MenuRowContext {
    /// A point of the menu in the buffer.
    pub open spec fn x_at(self, x: int) -> i32 {
        sat(self.content_x_px + x * self.scale)
    }

    pub open spec fn y_at(self, y: int) -> i32 {
        sat(self.content_y_px + y * self.scale)
    }

    pub open spec fn wf(self) -> bool {
        &&& 0 <= self.menu_w <= 0x2_0000_0000
        &&& 1 <= self.item_h <= 0x1_0000_0000
    }
}

/// Four lines around a rectangle.
pub open spec fn border_rect(x: int, y: int, width: int, height: int, argb: u32) -> Seq<PaintView> {
    if width <= 0 || height <= 0 {
        Seq::empty()
    } else {
        seq![
            fill(x, y, width, 1, argb),
            fill(x, y + height - 1, width, 1, argb),
            fill(x, y, 1, height, argb),
            fill(x + width - 1, y, 1, height, argb),
        ]
    }
}

/// The number of dashes along a line.
pub open spec fn dash_count(len: int) -> nat {
    if len <= 0 {
        0
    } else {
        ((len + 3) / 4) as nat
    }
}

/// Length of the dash that begins at `at`.
pub open spec fn dash_len(len: int, at: int) -> int {
    smaller(len - at, DASH as int)
}

/// Dashes along the top and the bottom of a rectangle, from left to right.
pub open spec fn dashes_across(x: int, y: int, width: int, height: int, argb: u32, n: nat) -> Seq<PaintView>
    decreases n,
{
    if n == 0 {
        Seq::empty()
    } else {
        let at = 4 * (n - 1);
        dashes_across(x, y, width, height, argb, (n - 1) as nat).push(
            fill(x + at, y, dash_len(width, at), 1, argb),
        ).push(fill(x + at, y + height - 1, dash_len(width, at), 1, argb))
    }
}

/// Dashes along the left and the right of a rectangle, from top to bottom.
pub open spec fn dashes_down(x: int, y: int, width: int, height: int, argb: u32, n: nat) -> Seq<PaintView>
    decreases n,
{
    if n == 0 {
        Seq::empty()
    } else {
        let at = 4 * (n - 1);
        dashes_down(x, y, width, height, argb, (n - 1) as nat).push(
            fill(x, y + at, 1, dash_len(height, at), argb),
        ).push(fill(x + width - 1, y + at, 1, dash_len(height, at), argb))
    }
}

/// A rectangle of dashed lines.
pub open spec fn dashed_rect(x: int, y: int, width: int, height: int, argb: u32) -> Seq<PaintView> {
    dashes_across(x, y, width, height, argb, dash_count(width)) + dashes_down(
        x,
        y,
        width,
        height,
        argb,
        dash_count(height),
    )
}

/// One row of a filled diamond.
pub open spec fn diamond_row(x: int, y: int, size: int, argb: u32, row: int) -> PaintView {
    let dist = magnitude(quot(size, 2) - row);
    fill(x + dist, y + row, larger(size - dist * 2, 1), 1, argb)
}

/// A filled diamond.
pub open spec fn diamond(x: int, y: int, size: int, argb: u32) -> Seq<PaintView> {
    Seq::new(larger(size, 0) as nat, |row: int| diamond_row(x, y, size, argb, row))
}

/// The shadow of a menu.
pub open spec fn menu_shadow(
    theme: MenuThemeView,
    menu_w: int,
    menu_h: int,
    x: int,
    y: int,
    scale: i32,
) -> Seq<PaintView> {
    if menu_w <= 0 || menu_h <= 0 {
        Seq::empty()
    } else if theme.shadows_enabled {
        if theme.shadow_size <= 0 {
            Seq::empty()
        } else {
            seq![
                PaintView::Plain(
                    Paint::Shadow {
                        frame_width: sat(menu_w),
                        frame_height: sat(larger(menu_h - quot(theme.shadow_size as int, 2), 1)),
                        shadow_size: theme.shadow_size,
                        corner_radius: 0,
                        shadow_color: theme.shadow_color,
                        scale,
                    },
                ),
            ]
        }
    } else {
        let argb = argb_of(L_SHADOW_COLOR);
        seq![
            fill(
                x + L_SHADOW_SIZE * scale,
                y + menu_h * scale,
                menu_w * scale,
                L_SHADOW_SIZE * scale,
                argb,
            ),
            fill(
                x + menu_w * scale,
                y + L_SHADOW_SIZE * scale,
                L_SHADOW_SIZE * scale,
                menu_h * scale,
                argb,
            ),
        ]
    }
}

/// The background of a row.
pub open spec fn row_background(row_y: int, ctx: MenuRowContext, argb: u32) -> PaintView {
    fill(
        ctx.x_at(MENU_BORDER as int) as int,
        ctx.y_at(row_y) as int,
        (ctx.menu_w - MENU_BORDER * 2) * ctx.scale,
        ctx.item_h * ctx.scale,
        argb,
    )
}

/// The text of a row, from `start` to its right end.
pub open spec fn row_text(
    text: Seq<char>,
    start: int,
    row_y: int,
    ctx: MenuRowContext,
    theme: MenuThemeView,
    argb: u32,
) -> PaintView {
    PaintView::Text {
        text,
        area: Area {
            x: ctx.x_at(start),
            y: ctx.y_at(row_y),
            width: sat((ctx.menu_w - MENU_BORDER * 2 - start + MENU_BORDER) * ctx.scale),
            height: sat(ctx.item_h * ctx.scale),
        },
        scale: ctx.scale,
        argb,
        font_size: theme.font_size,
        font_name: theme.font_name,
        padding: 0,
    }
}

/// The header of a menu.
pub open spec fn header_picture(
    title: Seq<char>,
    row_y: int,
    ctx: MenuRowContext,
    theme: MenuThemeView,
) -> Seq<PaintView> {
    seq![
        row_background(row_y, ctx, argb_of(theme.titlebar_bg)),
        row_text(
            title,
            MENU_BORDER + ITEM_PADDING_X,
            row_y,
            ctx,
            theme,
            argb_of(theme.titlebar_text),
        ),
    ]
}

/// A row of a menu: its background, a dashed square if the window is hidden, a
/// diamond if it is the active one, and its title.
pub open spec fn row_picture(
    item: MenuItemView,
    row_y: int,
    highlighted: bool,
    ctx: MenuRowContext,
    theme: MenuThemeView,
) -> Seq<PaintView> {
    let bg = argb_of(
        if highlighted {
            theme.highlight_bg
        } else {
            theme.bg
        },
    );
    let text = argb_of(
        if highlighted {
            theme.highlight_text
        } else {
            theme.text
        },
    );
    let start = MENU_BORDER + ITEM_PADDING_X;
    let dashed = if item.hidden {
        dashed_rect(
            ctx.x_at(start) as int,
            ctx.y_at(row_y + quot(ctx.item_h - ICON_SIZE, 2)) as int,
            sat(ICON_SIZE * ctx.scale) as int,
            sat(ICON_SIZE * ctx.scale) as int,
            text,
        )
    } else {
        Seq::empty()
    };
    let active = if item.active {
        diamond(
            ctx.x_at(start + quot(ICON_SIZE - ACTIVE_DIAMOND_SIZE, 2)) as int,
            ctx.y_at(row_y + quot(ctx.item_h - ACTIVE_DIAMOND_SIZE, 2)) as int,
            sat(ACTIVE_DIAMOND_SIZE * ctx.scale) as int,
            text,
        )
    } else {
        Seq::empty()
    };
    (seq![row_background(row_y, ctx, bg)] + dashed + active).push(
        row_text(item.title, start + ICON_SIZE + ICON_GAP, row_y, ctx, theme, text),
    )
}

impl MenuView {
    /// Where the rows are drawn.
    pub open spec fn rows_at(self) -> MenuRowContext {
        let scale = larger(self.scale as int, 1);
        MenuRowContext {
            menu_w: self.menu_width() as i64,
            item_h: self.theme.item_height() as i64,
            scale: scale as i32,
            content_x_px: (self.theme.shadow_left() * scale) as i64,
            content_y_px: (self.theme.shadow_top() * scale) as i64,
        }
    }

    /// Top of the row of an item.
    pub open spec fn row_y(self, i: int) -> int {
        MENU_BORDER + self.header_height() + smaller(i, i32::MAX as int) * self.theme.item_height()
    }

    /// The first `n` rows, none highlighted.
    pub open spec fn rows_picture(self, n: int) -> Seq<PaintView>
        decreases n,
    {
        if n <= 0 {
            Seq::empty()
        } else {
            self.rows_picture(n - 1) + row_picture(
                self.items[n - 1],
                self.row_y(n - 1),
                false,
                self.rows_at(),
                self.theme,
            )
        }
    }

    /// The menu with nothing hovered.
    pub open spec fn base_picture(self) -> Seq<PaintView> {
        let ctx = self.rows_at();
        let x = ctx.content_x_px as int;
        let y = ctx.content_y_px as int;
        let w = sat(self.menu_width() * ctx.scale) as int;
        let h = sat(self.menu_height() * ctx.scale) as int;
        let header = match self.header_title {
            Some(title) => header_picture(title, MENU_BORDER as int, ctx, self.theme),
            None => Seq::empty(),
        };
        menu_shadow(self.theme, self.menu_width(), self.menu_height(), x, y, ctx.scale) + seq![
            fill(x, y, w, h, argb_of(self.theme.bg)),
        ] + border_rect(x, y, w, h, argb_of(BORDER_COLOR)) + header + self.rows_picture(
            self.items.len() as int,
        )
    }

    /// The hovered row, which is drawn over the rest.
    pub open spec fn hover_picture(self) -> Seq<PaintView> {
        match self.hovered {
            Some(i) => if i < self.items.len() {
                row_picture(
                    self.items[i as int],
                    self.row_y(i as int),
                    true,
                    self.rows_at(),
                    self.theme,
                )
            } else {
                Seq::empty()
            },
            None => Seq::empty(),
        }
    }

    /// What a drawn menu depends on.
    pub open spec fn cache_key(self, items_hash: u64, header_hash: u64) -> MenuCacheKey {
        MenuCacheKey {
            width: self.buffer_width,
            height: self.buffer_height,
            scale: self.scale,
            font_size: self.theme.font_size,
            bg: self.theme.bg,
            text: self.theme.text,
            highlight_bg: self.theme.highlight_bg,
            highlight_text: self.theme.highlight_text,
            titlebar_bg: self.theme.titlebar_bg,
            titlebar_text: self.theme.titlebar_text,
            items_hash,
            header_hash,
        }
    }

    /// The buffer that has to be made before the menu is drawn, if the present
    /// one is not right.
    pub open spec fn buffer_needed(self, scale: i32) -> Option<BufferPlan> {
        match buffer_for(self.width, self.height, scale) {
            Some(plan) => if self.buffer && self.buffer_width == plan.width && self.buffer_height
                == plan.height && self.scale == plan.scale {
                None
            } else {
                Some(plan)
            },
            None => None,
        }
    }

    /// The part of the surface that takes input: the menu without its shadow.
    pub open spec fn input_region(self) -> Option<Area> {
        if self.menu_width() <= 0 || self.menu_height() <= 0 {
            None
        } else {
            Some(
                Area {
                    x: sat(self.theme.shadow_left()),
                    y: sat(self.theme.shadow_top()),
                    width: sat(self.menu_width()),
                    height: sat(self.menu_height()),
                },
            )
        }
    }
}

fn draw_border_rect(picture: &mut Picture, x: i64, y: i64, width: i32, height: i32, argb: u32)
    requires
        -0x4000_0000_0000_0000 <= x <= 0x4000_0000_0000_0000,
        -0x4000_0000_0000_0000 <= y <= 0x4000_0000_0000_0000,
    ensures
        final(picture)@ == old(picture)@ + border_rect(
            x as int,
            y as int,
            width as int,
            height as int,
            argb,
        ),
{
    if width <= 0 || height <= 0 {
        assert(picture@ =~= old(picture)@ + Seq::<PaintView>::empty());
        return;
    }
    let w: i64 = width as i64;
    let h: i64 = height as i64;
    picture.fill_rect(x, y, w, 1, argb);
    picture.fill_rect(x, y + h - 1, w, 1, argb);
    picture.fill_rect(x, y, 1, h, argb);
    picture.fill_rect(x + w - 1, y, 1, h, argb);
    assert(picture@ =~= old(picture)@ + border_rect(
        x as int,
        y as int,
        width as int,
        height as int,
        argb,
    ));
}

fn draw_dashes_across(picture: &mut Picture, x: i32, y: i32, width: i32, height: i32, argb: u32)
    ensures
        final(picture)@ == old(picture)@ + dashes_across(
            x as int,
            y as int,
            width as int,
            height as int,
            argb,
            dash_count(width as int),
        ),
{
    let x: i64 = x as i64;
    let y: i64 = y as i64;
    let width: i64 = width as i64;
    let height: i64 = height as i64;
    let ghost start = picture@;
    let ghost mut n: nat = 0;
    let mut at: i64 = 0;
    assert(picture@ =~= start + dashes_across(x as int, y as int, width as int, height as int, argb, 0));
    while at < width
        invariant
            at == 4 * n,
            -0x8000_0000 <= x <= 0x7fff_ffff,
            -0x8000_0000 <= y <= 0x7fff_ffff,
            -0x8000_0000 <= width <= 0x7fff_ffff,
            -0x8000_0000 <= height <= 0x7fff_ffff,
            n <= dash_count(width as int),
            at >= width ==> n == dash_count(width as int),
            picture@ == start + dashes_across(
                x as int,
                y as int,
                width as int,
                height as int,
                argb,
                n,
            ),
        decreases width + 4 - at,
    {
        let segment: i64 = min_i64(width - at, DASH as i64);
        picture.fill_rect(x + at, y, segment, 1, argb);
        picture.fill_rect(x + at, y + height - 1, segment, 1, argb);
        proof {
            n = n + 1;
        }
        at = at + 4;
        assert(picture@ =~= start + dashes_across(
            x as int,
            y as int,
            width as int,
            height as int,
            argb,
            n,
        ));
    }
}

fn draw_dashes_down(picture: &mut Picture, x: i32, y: i32, width: i32, height: i32, argb: u32)
    ensures
        final(picture)@ == old(picture)@ + dashes_down(
            x as int,
            y as int,
            width as int,
            height as int,
            argb,
            dash_count(height as int),
        ),
{
    let x: i64 = x as i64;
    let y: i64 = y as i64;
    let width: i64 = width as i64;
    let height: i64 = height as i64;
    let ghost start = picture@;
    let ghost mut n: nat = 0;
    let mut at: i64 = 0;
    assert(picture@ =~= start + dashes_down(x as int, y as int, width as int, height as int, argb, 0));
    while at < height
        invariant
            at == 4 * n,
            -0x8000_0000 <= x <= 0x7fff_ffff,
            -0x8000_0000 <= y <= 0x7fff_ffff,
            -0x8000_0000 <= width <= 0x7fff_ffff,
            -0x8000_0000 <= height <= 0x7fff_ffff,
            n <= dash_count(height as int),
            at >= height ==> n == dash_count(height as int),
            picture@ == start + dashes_down(
                x as int,
                y as int,
                width as int,
                height as int,
                argb,
                n,
            ),
        decreases height + 4 - at,
    {
        let segment: i64 = min_i64(height - at, DASH as i64);
        picture.fill_rect(x, y + at, 1, segment, argb);
        picture.fill_rect(x + width - 1, y + at, 1, segment, argb);
        proof {
            n = n + 1;
        }
        at = at + 4;
        assert(picture@ =~= start + dashes_down(
            x as int,
            y as int,
            width as int,
            height as int,
            argb,
            n,
        ));
    }
}

fn draw_dashed_rect(picture: &mut Picture, x: i32, y: i32, width: i32, height: i32, argb: u32)
    ensures
        final(picture)@ == old(picture)@ + dashed_rect(
            x as int,
            y as int,
            width as int,
            height as int,
            argb,
        ),
{
    draw_dashes_across(picture, x, y, width, height, argb);
    draw_dashes_down(picture, x, y, width, height, argb);
    assert(picture@ =~= old(picture)@ + dashed_rect(
        x as int,
        y as int,
        width as int,
        height as int,
        argb,
    ));
}

fn draw_diamond(picture: &mut Picture, x: i32, y: i32, size: i32, argb: u32)
    ensures
        final(picture)@ == old(picture)@ + diamond(x as int, y as int, size as int, argb),
{
    let ghost start = picture@;
    let ghost rows = diamond(x as int, y as int, size as int, argb);
    let half: i64 = (size / 2) as i64;
    let mut row: i64 = 0;
    assert(picture@ =~= start + rows.take(0));
    while row < size as i64
        invariant
            0 <= row <= larger(size as int, 0),
            half == quot(size as int, 2),
            rows == diamond(x as int, y as int, size as int, argb),
            picture@ == start + rows.take(row as int),
        decreases size - row,
    {
        let dist: i64 = abs_i64(half - row);
        let span: i64 = size as i64 - dist * 2;
        picture.fill_rect(x as i64 + dist, y as i64 + row, max_i64(span, 1), 1, argb);
        row = row + 1;
        assert(picture@ =~= start + rows.take(row as int));
    }
    assert(rows.take(row as int) =~= rows);
}

fn draw_menu_shadow(picture: &mut Picture, theme: &MenuTheme, menu_w: i64, menu_h: i64, x: i64, y: i64, scale: i32)
    requires
        0 <= menu_w <= 0x2_0000_0000,
        0 <= menu_h <= 0x2_0000_0000,
    ensures
        final(picture)@ == old(picture)@ + menu_shadow(
            theme@,
            menu_w as int,
            menu_h as int,
            x as int,
            y as int,
            scale,
        ),
{
    let ghost start = picture@;
    if menu_w > 0 && menu_h > 0 {
        if theme.shadows_enabled {
            if theme.shadow_size > 0 {
                // Shrink the rendered shape height by size/2 so the falloff sits
                // lower in the buffer; combined with the asymmetric padding from
                // MenuTheme::shadow_top/bottom this produces the same "light from
                // above" offset as the window drop shadow.
                let shrunk: i64 = max_i64(menu_h - (theme.shadow_size / 2) as i64, 1);
                picture.push(
                    Paint::Shadow {
                        frame_width: to_i32(menu_w),
                        frame_height: to_i32(shrunk),
                        shadow_size: theme.shadow_size,
                        corner_radius: 0,
                        shadow_color: theme.shadow_color,
                        scale,
                    },
                );
            }
        } else {
            let color: u32 = rgba_to_argb(L_SHADOW_COLOR);
            let l: i64 = L_SHADOW_SIZE as i64;
            picture.fill_rect(
                px(x, l, scale) as i64,
                px(y, menu_h, scale) as i64,
                px(0, menu_w, scale) as i64,
                px(0, l, scale) as i64,
                color,
            );
            picture.fill_rect(
                px(x, menu_w, scale) as i64,
                px(y, l, scale) as i64,
                px(0, l, scale) as i64,
                px(0, menu_h, scale) as i64,
                color,
            );
        }
    }
    assert(picture@ =~= start + menu_shadow(
        theme@,
        menu_w as int,
        menu_h as int,
        x as int,
        y as int,
        scale,
    ));
}

fn draw_row_background(picture: &mut Picture, row_y: i64, ctx: MenuRowContext, argb: u32)
    requires
        ctx.wf(),
    ensures
        final(picture)@ == old(picture)@.push(row_background(row_y as int, ctx, argb)),
{
    picture.fill_rect(
        px(ctx.content_x_px, MENU_BORDER as i64, ctx.scale) as i64,
        px(ctx.content_y_px, row_y, ctx.scale) as i64,
        px(0, ctx.menu_w - MENU_BORDER as i64 * 2, ctx.scale) as i64,
        px(0, ctx.item_h, ctx.scale) as i64,
        argb,
    );
}

fn draw_row_text(picture: &mut Picture, text: &str, start: i64, row_y: i64, ctx: MenuRowContext, theme: &MenuTheme, argb: u32)
    requires
        ctx.wf(),
        0 <= start <= 0xffff,
    ensures
        final(picture)@ == old(picture)@.push(
            row_text(text@, start as int, row_y as int, ctx, theme@, argb),
        ),
{
    let text_area_w: i64 = ctx.menu_w - MENU_BORDER as i64 * 2 - start + MENU_BORDER as i64;
    let area = Area {
        x: px(ctx.content_x_px, start, ctx.scale),
        y: px(ctx.content_y_px, row_y, ctx.scale),
        width: px(0, text_area_w, ctx.scale),
        height: px(0, ctx.item_h, ctx.scale),
    };
    picture.render_text(text, area, ctx.scale, argb, theme.font_size, &theme.font_name, 0);
}

fn draw_menu_header(picture: &mut Picture, title: &str, row_y: i64, ctx: MenuRowContext, theme: &MenuTheme)
    requires
        ctx.wf(),
    ensures
        final(picture)@ == old(picture)@ + header_picture(title@, row_y as int, ctx, theme@),
{
    let ghost start = picture@;
    draw_row_background(picture, row_y, ctx, rgba_to_argb(theme.titlebar_bg));
    draw_row_text(
        picture,
        title,
        MENU_BORDER as i64 + ITEM_PADDING_X as i64,
        row_y,
        ctx,
        theme,
        rgba_to_argb(theme.titlebar_text),
    );
    assert(picture@ =~= start + header_picture(title@, row_y as int, ctx, theme@));
}

fn draw_menu_row(picture: &mut Picture, item: &MenuItem, row_y: i64, highlighted: bool, ctx: MenuRowContext, theme: &MenuTheme)
    requires
        ctx.wf(),
        0 <= row_y <= 0x4000_0010_0000_0000,
    ensures
        final(picture)@ == old(picture)@ + row_picture(
            item@,
            row_y as int,
            highlighted,
            ctx,
            theme@,
        ),
{
    let ghost before = picture@;
    let bg: u32 = rgba_to_argb(
        if highlighted {
            theme.highlight_bg
        } else {
            theme.bg
        },
    );
    let text_color: u32 = rgba_to_argb(
        if highlighted {
            theme.highlight_text
        } else {
            theme.text
        },
    );
    draw_row_background(picture, row_y, ctx, bg);
    let start: i64 = MENU_BORDER as i64 + ITEM_PADDING_X as i64;
    if item.hidden {
        draw_dashed_rect(
            picture,
            px(ctx.content_x_px, start, ctx.scale),
            px(ctx.content_y_px, row_y + (ctx.item_h - ICON_SIZE as i64) / 2, ctx.scale),
            px(0, ICON_SIZE as i64, ctx.scale),
            px(0, ICON_SIZE as i64, ctx.scale),
            text_color,
        );
    }
    if item.active {
        let diamond_size: i64 = ACTIVE_DIAMOND_SIZE as i64;
        draw_diamond(
            picture,
            px(ctx.content_x_px, start + (ICON_SIZE as i64 - diamond_size) / 2, ctx.scale),
            px(ctx.content_y_px, row_y + (ctx.item_h - diamond_size) / 2, ctx.scale),
            px(0, diamond_size, ctx.scale),
            text_color,
        );
    }
    let text_start: i64 = start + ICON_SIZE as i64 + ICON_GAP as i64;
    draw_row_text(picture, item.title.as_str(), text_start, row_y, ctx, theme, text_color);
    assert(picture@ =~= before + row_picture(item@, row_y as int, highlighted, ctx, theme@));
}

impl WindowMenu {
    fn rows_at(&self) -> (r: MenuRowContext)
        ensures
            r == self@.rows_at(),
            r.wf(),
            r.scale >= 1,
            -0x4000_0000_0000_0000 <= r.content_x_px <= 0x4000_0000_0000_0000,
            -0x4000_0000_0000_0000 <= r.content_y_px <= 0x4000_0000_0000_0000,
            r.content_x_px == self@.theme.shadow_left() * r.scale,
            r.content_y_px == self@.theme.shadow_top() * r.scale,
            r.menu_w == self@.menu_width(),
            r.item_h == self@.theme.item_height(),
    {
        let scale: i32 = max_i32(self.scale, 1);
        let left: i64 = self.theme.shadow_left();
        let top: i64 = self.theme.shadow_top();
        assert(-0x4000_0000_0000_0000 <= left * scale <= 0x4000_0000_0000_0000
            && -0x4000_0000_0000_0000 <= top * scale <= 0x4000_0000_0000_0000) by (nonlinear_arith)
            requires
                -0x8000_0000 <= left <= 0x7fff_ffff,
                -0x8000_0000 <= top <= 0x7fff_ffff,
                1 <= scale <= 0x7fff_ffff,
        ;
        MenuRowContext {
            menu_w: self.menu_width(),
            item_h: self.theme.item_height(),
            scale,
            content_x_px: left * scale as i64,
            content_y_px: top * scale as i64,
        }
    }

    fn row_y(&self, i: usize) -> (r: i64)
        ensures
            r == self@.row_y(i as int),
            0 <= r <= 0x4000_0010_0000_0000,
    {
        let item_h: i64 = self.theme.item_height();
        let index: i64 = if i <= i32::MAX as usize {
            i as i64
        } else {
            i32::MAX as i64
        };
        assert(0 <= index * item_h <= 0x7fff_ffff * 0x8000_0007) by (nonlinear_arith)
            requires
                0 <= index <= 0x7fff_ffff,
                1 <= item_h <= 0x8000_0007,
        ;
        MENU_BORDER as i64 + self.header_height() + index * item_h
    }

    fn draw_rows(&self, picture: &mut Picture)
        ensures
            final(picture)@ == old(picture)@ + self@.rows_picture(self@.items.len() as int),
    {
        let ghost start = picture@;
        let ctx = self.rows_at();
        let mut i: usize = 0;
        assert(picture@ =~= start + self@.rows_picture(0));
        while i < self.items.len()
            invariant
                i <= self.items@.len(),
                ctx == self@.rows_at(),
                ctx.wf(),
                picture@ == start + self@.rows_picture(i as int),
            decreases self.items@.len() - i,
        {
            let row_y: i64 = self.row_y(i);
            draw_menu_row(picture, &self.items[i], row_y, false, ctx, &self.theme);
            assert(self@.items[i as int] == self.items@[i as int]@);
            i = i + 1;
            assert(picture@ =~= start + self@.rows_picture(i as int));
        }
    }

    /// The menu with nothing hovered
    pub fn base_picture(&self) -> (r: Picture)
        ensures
            r@ == self@.base_picture(),
    {
        let mut picture = Picture::new();
        let ctx = self.rows_at();
        let menu_w: i64 = self.menu_width();
        let menu_h: i64 = self.menu_height();
        let x: i64 = ctx.content_x_px;
        let y: i64 = ctx.content_y_px;
        let w: i32 = px(0, menu_w, ctx.scale);
        let h: i32 = px(0, menu_h, ctx.scale);
        draw_menu_shadow(&mut picture, &self.theme, menu_w, menu_h, x, y, ctx.scale);
        picture.fill_rect(x, y, w as i64, h as i64, rgba_to_argb(self.theme.bg));
        draw_border_rect(&mut picture, x, y, w, h, rgba_to_argb(BORDER_COLOR));
        if let Some(title) = &self.header_title {
            draw_menu_header(&mut picture, title.as_str(), MENU_BORDER as i64, ctx, &self.theme);
        }
        self.draw_rows(&mut picture);
        assert(picture@ =~= self@.base_picture());
        picture
    }

    /// The hovered row, which is drawn over the rest
    pub fn hover_picture(&self) -> (r: Picture)
        ensures
            r@ == self@.hover_picture(),
    {
        let mut picture = Picture::new();
        if let Some(i) = self.hovered {
            if i < self.items.len() {
                assert(self@.items[i as int] == self.items@[i as int]@);
                let row_y: i64 = self.row_y(i);
                draw_menu_row(
                    &mut picture,
                    &self.items[i],
                    row_y,
                    true,
                    self.rows_at(),
                    &self.theme,
                );
            }
        }
        assert(picture@ =~= self@.hover_picture());
        picture
    }

    /// What a drawn menu depends on
    pub fn cache_key(&self, items_hash: u64, header_hash: u64) -> (r: MenuCacheKey)
        ensures
            r == self@.cache_key(items_hash, header_hash),
    {
        MenuCacheKey {
            width: self.buffer_width,
            height: self.buffer_height,
            scale: self.scale,
            font_size: self.theme.font_size,
            bg: self.theme.bg,
            text: self.theme.text,
            highlight_bg: self.theme.highlight_bg,
            highlight_text: self.theme.highlight_text,
            titlebar_bg: self.theme.titlebar_bg,
            titlebar_text: self.theme.titlebar_text,
            items_hash,
            header_hash,
        }
    }

    /// The picture to be kept of the menu, if the one that is kept shows
    /// something else. The hashes tell the items and the header apart.
    pub fn ensure_cache(&mut self, items_hash: u64, header_hash: u64) -> (r: Option<Picture>)
        ensures
            final(self)@ == (MenuView {
                cache: Some(old(self)@.cache_key(items_hash, header_hash)),
                ..old(self)@
            }),
            match r {
                Some(picture) => old(self)@.cache != Some(
                    old(self)@.cache_key(items_hash, header_hash),
                ) && picture@ == old(self)@.base_picture(),
                None => old(self)@.cache == Some(old(self)@.cache_key(items_hash, header_hash)),
            },
    {
        let key = self.cache_key(items_hash, header_hash);
        if self.cache == Some(key) {
            return None;
        }
        let picture = self.base_picture();
        self.cache = Some(key);
        Some(picture)
    }

    /// The buffer to be made before the menu is drawn, if the present one is
    /// not right
    pub fn ensure_buffer(&self, scale: i32) -> (r: Option<BufferPlan>)
        ensures
            r == self@.buffer_needed(scale),
            r matches Some(plan) ==> plan.wf(),
    {
        match plan_buffer(self.width, self.height, scale) {
            Some(plan) => {
                if self.buffer && self.buffer_width == plan.width && self.buffer_height
                    == plan.height && self.scale == plan.scale {
                    None
                } else {
                    Some(plan)
                }
            },
            None => None,
        }
    }

    /// The buffer was made
    pub fn buffer_made(&mut self, plan: BufferPlan)
        ensures
            final(self)@ == (MenuView {
                buffer: true,
                buffer_width: plan.width,
                buffer_height: plan.height,
                scale: plan.scale,
                ..old(self)@
            }),
    {
        self.buffer = true;
        self.buffer_width = plan.width;
        self.buffer_height = plan.height;
        self.scale = plan.scale;
    }

    /// The part of the surface that takes input
    pub fn update_input_region(&self) -> (r: Option<Area>)
        ensures
            r == self@.input_region(),
    {
        let menu_w: i64 = self.menu_width();
        let menu_h: i64 = self.menu_height();
        if menu_w <= 0 || menu_h <= 0 {
            return None;
        }
        Some(
            Area {
                x: to_i32(self.theme.shadow_left()),
                y: to_i32(self.theme.shadow_top()),
                width: to_i32(menu_w),
                height: to_i32(menu_h),
            },
        )
    }
}

/// Once a buffer was made as asked for, the same size and scale ask for no
/// other.
pub proof fn law_made_menu_buffer_is_kept(menu: MenuView, scale: i32)
    ensures
        menu.buffer_needed(scale) matches Some(plan) ==> (MenuView {
            buffer: true,
            buffer_width: plan.width,
            buffer_height: plan.height,
            scale: plan.scale,
            ..menu
        }).buffer_needed(scale) is None,
{
}

/// A point inside the row that is drawn for an item is a point of that item.
pub proof fn law_drawn_rows_are_hit(menu: MenuView, i: int, x: i32, y: i32)
    requires
        0 <= i < menu.items.len(),
        i <= i32::MAX,
        ({
            let left = menu.theme.shadow_left() + MENU_BORDER;
            let top = menu.theme.shadow_top();
            &&& left <= x < left + menu.menu_width() - MENU_BORDER * 2
            &&& top + menu.row_y(i) <= y < top + menu.row_y(i) + menu.theme.item_height()
            &&& y < top + MENU_BORDER + menu.menu_height() - MENU_BORDER * 2
        }),
    ensures
        menu.item_at(x, y) == Some(i as usize),
{
    let h = menu.theme.item_height();
    let first_row = menu.theme.shadow_top() + MENU_BORDER + menu.header_height();
    let rest = y - first_row - i * h;
    assert(i * h >= 0) by (nonlinear_arith)
        requires
            i >= 0,
            h >= 1,
    ;
    vstd::arithmetic::div_mod::lemma_fundamental_div_mod_converse(y - first_row, h, i, rest);
}

/// A row of the menu has the colours of the highlight exactly if it is hovered. It ends with the name
/// of its window, behind a diamond for the active window and a dashed square for a hidden one.
pub proof fn law_row_shows_its_window(
    item: MenuItemView,
    row_y: int,
    highlighted: bool,
    ctx: MenuRowContext,
    theme: MenuThemeView,
)
    requires
        ctx.scale >= 1,
    ensures
        ({
            let row = row_picture(item, row_y, highlighted, ctx, theme);
            &&& row[0] matches PaintView::Plain(Paint::Fill { area, argb }) && argb == (
            if highlighted {
                argb_of(theme.highlight_bg)
            } else {
                argb_of(theme.bg)
            })
            &&& row.last() matches PaintView::Text { text, argb, .. } && text == item.title && argb
                == (if highlighted {
                argb_of(theme.highlight_text)
            } else {
                argb_of(theme.text)
            })
            &&& !item.hidden && !item.active ==> row.len() == 2
            &&& !item.hidden && item.active ==> row.len() == 2 + sat(8 * ctx.scale)
        }),
{
    assert(1 <= ACTIVE_DIAMOND_SIZE * ctx.scale);
}

/// The rows of a menu are one below the other without a gap, the first one below the header.
pub proof fn law_rows_follow_each_other(menu: MenuView, i: int)
    requires
        0 <= i < 0x7fff_fffe,
    ensures
        menu.row_y(i + 1) - menu.row_y(i) == menu.theme.item_height(),
        menu.row_y(0) == 1 + (if menu.header_title is Some {
            menu.theme.item_height()
        } else {
            0
        }),
{
    let h = menu.theme.item_height();
    assert((i + 1) * h == i * h + h) by (nonlinear_arith);
    assert(0 * h == 0);
}

} // verus!
