//! Pictures: what is to be drawn, and the pixels it is drawn into.

use vstd::prelude::*;
use vstd::arithmetic::div_mod::lemma_fundamental_div_mod;
use vstd::arithmetic::div_mod::lemma_fundamental_div_mod_converse;
use crate::config::FontSize;
use crate::num::{larger, sat, to_i32};
use crate::text::{clone_opt, opt_text};

verus! {

/// A colour given as red, green, blue, alpha in the order alpha, red, green,
/// blue.
pub open spec fn argb_of(rgba: u32) -> u32 {
    ((rgba & 0xff) << 24) | (rgba >> 8)
}

/// Convert RGBA (0xRRGGBBAA) to ARGB (0xAARRGGBB) for wl_shm format
pub fn rgba_to_argb(rgba: u32) -> (argb: u32)
    ensures
        argb == argb_of(rgba),
{
    let r: u32 = (rgba >> 24) & 0xff;
    let g: u32 = (rgba >> 16) & 0xff;
    let b: u32 = (rgba >> 8) & 0xff;
    let a: u32 = rgba & 0xff;
    let argb: u32 = (a << 24) | (r << 16) | (g << 8) | b;
    assert(argb == ((rgba & 0xff) << 24) | (rgba >> 8)) by (bit_vector)
        requires
            r == (rgba >> 24) & 0xff,
            g == (rgba >> 16) & 0xff,
            b == (rgba >> 8) & 0xff,
            a == rgba & 0xff,
            argb == (a << 24) | (r << 16) | (g << 8) | b,
    ;
    argb
}

/// Converting a colour moves its four channels and changes none of them.
pub proof fn law_channels_survive_conversion(rgba: u32)
    ensures
        argb_of(rgba) >> 24 == rgba & 0xff,
        (argb_of(rgba) >> 16) & 0xff == rgba >> 24,
        (argb_of(rgba) >> 8) & 0xff == (rgba >> 16) & 0xff,
        argb_of(rgba) & 0xff == (rgba >> 8) & 0xff,
{
    let argb = argb_of(rgba);
    assert(argb >> 24 == rgba & 0xff && (argb >> 16) & 0xff == rgba >> 24 && (argb >> 8) & 0xff
        == (rgba >> 16) & 0xff && argb & 0xff == (rgba >> 8) & 0xff) by (bit_vector)
        requires
            argb == ((rgba & 0xff) << 24) | (rgba >> 8),
    ;
}

/// `base + v * scale`, as a pixel coordinate.
pub fn px(base: i64, v: i64, scale: i32) -> (r: i32)
    ensures
        r == sat(base + v * scale),
{
    assert(-0x4000_0000_0000_0000_0000_0000 <= v * scale <= 0x4000_0000_0000_0000_0000_0000)
        by (nonlinear_arith)
        requires
            i64::MIN <= v <= i64::MAX,
            i32::MIN <= scale <= i32::MAX,
    ;
    let value: i128 = base as i128 + v as i128 * scale as i128;
    if value < i32::MIN as i128 {
        i32::MIN
    } else if value > i32::MAX as i128 {
        i32::MAX
    } else {
        value as i32
    }
}

/// A rectangle of pixels.
#[derive(Debug, Clone, Copy, PartialEq, Eq, Structural)]
pub struct Area {
    pub x: i32,
    pub y: i32,
    pub width: i32,
    pub height: i32,
}

/// Pictures on the buttons of a titlebar.
#[derive(Debug, Clone, Copy, PartialEq, Eq, Structural)]
pub enum TitlebarIcon {
    Close,
    Minimize,
    Maximize,
    Unmaximize,
}

/// Backgrounds of the buttons of a titlebar.
#[derive(Debug, Clone, Copy, PartialEq, Eq, Structural)]
pub enum ButtonFace {
    CloseNormal,
    ClosePressed,
    HideNormal,
    HidePressed,
    MaximizeNormal,
    MaximizePressed,
}

/// One step of drawing a picture.
#[derive(Debug)]
pub enum Paint {
    /// A rectangle of one colour.
    Fill { area: Area, argb: u32 },
    /// Text inside a rectangle, vertically centered.
    Text {
        text: String,
        area: Area,
        scale: i32,
        argb: u32,
        font_size: FontSize,
        font_name: Option<String>,
        padding: i32,
    },
    /// The background of a titlebar button.
    Face { face: ButtonFace, x: i32, y: i32 },
    /// The picture on a titlebar button.
    Icon { icon: TitlebarIcon, x: i32, y: i32 },
    /// The picture of an application, by its number.
    AppIcon { app: usize, x: i32, y: i32 },
    /// A soft shadow around a frame.
    Shadow {
        frame_width: i32,
        frame_height: i32,
        shadow_size: i32,
        corner_radius: i32,
        shadow_color: u32,
        scale: i32,
    },
}

/// A [`Paint`] with its strings taken by their characters.
pub enum PaintView {
    Plain(Paint),
    Text {
        text: Seq<char>,
        area: Area,
        scale: i32,
        argb: u32,
        font_size: FontSize,
        font_name: Option<Seq<char>>,
        padding: i32,
    },
}

impl View for Paint {
    type V = PaintView;

    open spec fn view(&self) -> PaintView {
        match *self {
            Paint::Text { text, area, scale, argb, font_size, font_name, padding } => PaintView::Text {
                text: text@,
                area,
                scale,
                argb,
                font_size,
                font_name: opt_text(font_name),
                padding,
            },
            plain => PaintView::Plain(plain),
        }
    }
}

/// A filled rectangle.
pub open spec fn fill(x: int, y: int, width: int, height: int, argb: u32) -> PaintView {
    PaintView::Plain(
        Paint::Fill {
            area: Area { x: sat(x), y: sat(y), width: sat(width), height: sat(height) },
            argb,
        },
    )
}

/// What is to be drawn, in this order.
#[derive(Debug)]
pub struct Picture {
    paints: Vec<Paint>,
}

impl View for Picture {
    type V = Seq<PaintView>;

    closed spec fn view(&self) -> Seq<PaintView> {
        self.paints@.map_values(|p: Paint| p@)
    }
}

impl Picture {
    pub fn new() -> (r: Self)
        ensures
            r@ == Seq::<PaintView>::empty(),
    {
        let r = Picture { paints: Vec::new() };
        assert(r@ =~= Seq::<PaintView>::empty());
        r
    }

    /// Adds one step
    pub fn push(&mut self, paint: Paint)
        ensures
            final(self)@ == old(self)@.push(paint@),
    {
        self.paints.push(paint);
        assert(self@ =~= old(self)@.push(paint@));
    }

    /// Adds a rectangle of one colour
    pub fn fill_rect(&mut self, x: i64, y: i64, width: i64, height: i64, argb: u32)
        ensures
            final(self)@ == old(self)@.push(
                fill(x as int, y as int, width as int, height as int, argb),
            ),
    {
        let area = Area {
            x: to_i32(x),
            y: to_i32(y),
            width: to_i32(width),
            height: to_i32(height),
        };
        self.push(Paint::Fill { area, argb });
    }

    /// Adds text inside a rectangle
    pub fn render_text(
        &mut self,
        text: &str,
        area: Area,
        scale: i32,
        argb: u32,
        font_size: FontSize,
        font_name: &Option<String>,
        padding: i32,
    )
        ensures
            final(self)@ == old(self)@.push(
                PaintView::Text {
                    text: text@,
                    area,
                    scale,
                    argb,
                    font_size,
                    font_name: opt_text(*font_name),
                    padding,
                },
            ),
    {
        self.push(
            Paint::Text {
                text: text.to_string(),
                area,
                scale,
                argb,
                font_size,
                font_name: clone_opt(font_name),
                padding,
            },
        );
    }

    /// Hands out the steps
    pub fn take(&mut self) -> (out: Vec<Paint>)
        ensures
            out@.map_values(|p: Paint| p@) == old(self)@,
            final(self)@ == Seq::<PaintView>::empty(),
    {
        let mut out: Vec<Paint> = Vec::new();
        std::mem::swap(&mut out, &mut self.paints);
        assert(self@ =~= Seq::<PaintView>::empty());
        out
    }
}

/// A buffer that is to be made.
#[derive(Debug, Clone, Copy, PartialEq, Eq, Structural)]
pub struct BufferPlan {
    /// Size in buffer pixels.
    pub width: i32,
    pub height: i32,
    pub scale: i32,
}

/// Whether a picture of `width` by `height` pixels fits into a buffer: it has
/// pixels, and their bytes can be counted.
pub open spec fn fits(width: int, height: int) -> bool {
    width > 0 && height > 0 && width * height * 4 <= i32::MAX
}

/// The buffer for a surface of some size, if there can be one.
pub open spec fn buffer_for(width: i32, height: i32, scale: i32) -> Option<BufferPlan> {
    let s = larger(scale as int, 1);
    if width > 0 && height > 0 && fits(width * s, height * s) {
        Some(BufferPlan { width: (width * s) as i32, height: (height * s) as i32, scale: s as i32 })
    } else {
        None
    }
}

impl BufferPlan {
    pub open spec fn wf(self) -> bool {
        fits(self.width as int, self.height as int)
    }

    /// Bytes of one row of pixels
    pub fn stride(&self) -> (r: i32)
        requires
            self.wf(),
        ensures
            r == self.width * 4,
    {
        assert(self.width * 4 <= self.width * self.height * 4) by (nonlinear_arith)
            requires
                self.width > 0,
                self.height > 0,
        ;
        self.width * 4
    }

    /// Bytes of the whole buffer
    pub fn size(&self) -> (r: i32)
        requires
            self.wf(),
        ensures
            r == self.width * self.height * 4,
    {
        assert(self.width * 4 <= self.width * self.height * 4 && (self.width * 4) * self.height
            == self.width * self.height * 4) by (nonlinear_arith)
            requires
                self.width > 0,
                self.height > 0,
        ;
        self.width * 4 * self.height
    }
}

/// Whether a picture of some size fits into a buffer
pub fn picture_fits(width: i64, height: i64) -> (r: bool)
    ensures
        r == fits(width as int, height as int),
{
    if width <= 0 || height <= 0 || width > i32::MAX as i64 || height > i32::MAX as i64 {
        assert(width > 0 && height > 0 && (width > i32::MAX || height > i32::MAX) ==> width * height
            * 4 > i32::MAX) by (nonlinear_arith);
        return false;
    }
    assert(0 <= width * height <= i32::MAX * i32::MAX) by (nonlinear_arith)
        requires
            0 < width <= i32::MAX,
            0 < height <= i32::MAX,
    ;
    width * height <= i32::MAX as i64 / 4
}

/// The buffer for a surface of some size, if there can be one
pub fn plan_buffer(width: i32, height: i32, scale: i32) -> (r: Option<BufferPlan>)
    ensures
        r == buffer_for(width, height, scale),
        r matches Some(plan) ==> plan.wf(),
{
    let s: i64 = if scale > 1 {
        scale as i64
    } else {
        1
    };
    if width <= 0 || height <= 0 {
        return None;
    }
    assert(0 < width * s <= i32::MAX * i32::MAX && 0 < height * s <= i32::MAX * i32::MAX)
        by (nonlinear_arith)
        requires
            0 < width <= i32::MAX,
            0 < height <= i32::MAX,
            0 < s <= i32::MAX,
    ;
    let w: i64 = width as i64 * s;
    let h: i64 = height as i64 * s;
    if !picture_fits(w, h) {
        return None;
    }
    assert(w <= w * h * 4 && h <= w * h * 4) by (nonlinear_arith)
        requires
            w > 0,
            h > 0,
    ;
    Some(BufferPlan { width: w as i32, height: h as i32, scale: s as i32 })
}

/// Pixels by their contents: rows of `width` colours, the top row first.
#[verifier::ext_equal]
pub struct RendererView {
    pub width: int,
    pub height: int,
    pub pixels: Seq<u32>,
}

/// Draws into a buffer of pixels.
#[derive(Debug)]
pub struct Renderer {
    pub width: i32,
    pub height: i32,
    pub pixels: Vec<u32>,
}

impl View for Renderer {
    type V = RendererView;

    open spec fn view(&self) -> RendererView {
        RendererView {
            width: self.width as int,
            height: self.height as int,
            pixels: self.pixels@,
        }
    }
}

/// A picture that is transparent everywhere.
pub open spec fn blank(width: int, height: int) -> RendererView {
    RendererView { width, height, pixels: Seq::new((width * height) as nat, |k: int| 0u32) }
}

impl RendererView {
    pub open spec fn wf(self) -> bool {
        &&& fits(self.width, self.height)
        &&& self.pixels.len() == self.width * self.height
    }

    /// The colour at a point.
    pub open spec fn at(self, x: int, y: int) -> u32 {
        self.pixels[y * self.width + x]
    }

    /// With the colour of each pixel replaced.
    pub open spec fn recolored(self, f: spec_fn(int, int, u32) -> u32) -> RendererView {
        RendererView {
            pixels: Seq::new(
                self.pixels.len(),
                |k: int| f(k % self.width, k / self.width, self.pixels[k]),
            ),
            ..self
        }
    }

    /// With a rectangle filled, as far as it lies inside the picture.
    pub open spec fn filled(self, x: int, y: int, width: int, height: int, argb: u32) -> RendererView {
        self.recolored(
            |px: int, py: int, old: u32|
                if x <= px < x + width && y <= py < y + height {
                    argb
                } else {
                    old
                },
        )
    }

    /// With an image copied over it, as far as it lies inside the picture.
    pub open spec fn blitted(self, image: Seq<u32>, width: int, height: int, x: int, y: int) -> RendererView {
        self.recolored(
            |px: int, py: int, old: u32|
                if x <= px < x + width && y <= py < y + height {
                    image[(py - y) * width + (px - x)]
                } else {
                    old
                },
        )
    }
}

/// Each pixel is counted by its row and its column.
pub proof fn lemma_cell(width: int, x: int, y: int)
    requires
        0 <= x < width,
    ensures
        (y * width + x) % width == x,
        (y * width + x) / width == y,
{
    lemma_fundamental_div_mod_converse(y * width + x, width, y, x);
}

/// The pixels of a part of a row are those between its ends.
pub proof fn lemma_run(width: int, y: int, x0: int, x1: int, k: int)
    requires
        0 <= x0 <= x1 <= width,
        0 < width,
    ensures
        (y * width + x0 <= k < y * width + x1) <==> (k / width == y && x0 <= k % width < x1),
{
    lemma_fundamental_div_mod(k, width);
    assert(width * (k / width) == (k / width) * width) by (nonlinear_arith);
    if y * width + x0 <= k < y * width + x1 {
        lemma_cell(width, k - y * width, y);
    }
}

/// Points inside a picture are pixels of it.
pub proof fn lemma_inside(width: int, height: int, x: int, y: int)
    requires
        0 <= x < width,
        0 <= y < height,
    ensures
        0 <= y * width + x < width * height,
        y * width + width <= width * height,
        0 <= y * width,
{
    assert(0 <= y * width + x < width * height && y * width + width <= width * height && 0 <= y
        * width) by (nonlinear_arith)
        requires
            0 <= x < width,
            0 <= y < height,
    ;
}

/// Fill part of a buffer with one colour
pub fn fill_run(pixels: &mut Vec<u32>, from: usize, to: usize, argb: u32)
    requires
        from <= to <= old(pixels)@.len(),
    ensures
        final(pixels)@ == Seq::new(
            old(pixels)@.len(),
            |k: int|
                if from <= k < to {
                    argb
                } else {
                    old(pixels)@[k]
                },
        ),
{
    let ghost before = pixels@;
    let mut i: usize = from;
    while i < to
        invariant
            from <= i <= to <= before.len(),
            pixels@ == Seq::new(
                before.len(),
                |k: int|
                    if from <= k < i {
                        argb
                    } else {
                        before[k]
                    },
            ),
        decreases to - i,
    {
        pixels[i] = argb;
        i = i + 1;
        assert(pixels@ =~= Seq::new(
            before.len(),
            |k: int|
                if from <= k < i {
                    argb
                } else {
                    before[k]
                },
        ));
    }
}

/// Whether a number lies in a range.
pub open spec fn in_span(span: (usize, usize), p: int) -> bool {
    span.0 <= p < span.1
}

fn clipped(start: i32, len: i32, limit: i32) -> (r: (usize, usize))
    requires
        limit >= 0,
    ensures
        r.0 <= r.1 <= limit,
        forall|p: int|
            0 <= p < limit ==> (#[trigger] in_span(r, p) <==> start <= p < start + len),
{
    let lo: i64 = if start > 0 {
        start as i64
    } else {
        0
    };
    let end: i64 = start as i64 + len as i64;
    let hi: i64 = if end < limit as i64 {
        end
    } else {
        limit as i64
    };
    if lo >= hi {
        (0, 0)
    } else {
        (lo as usize, hi as usize)
    }
}

impl RendererView {
    /// With a step of drawing carried out. Only rectangles are drawn here.
    pub open spec fn painted(self, paint: PaintView) -> RendererView {
        match paint {
            PaintView::Plain(Paint::Fill { area, argb }) => self.filled(
                area.x as int,
                area.y as int,
                area.width as int,
                area.height as int,
                argb,
            ),
            _ => self,
        }
    }

    /// With the steps of a picture carried out in their order.
    pub open spec fn with_picture(self, picture: Seq<PaintView>) -> RendererView
        decreases picture.len(),
    {
        if picture.len() == 0 {
            self
        } else {
            self.with_picture(picture.drop_last()).painted(picture.last())
        }
    }
}

impl Renderer {
    /// A transparent picture of some size
    pub fn new(width: i32, height: i32) -> (r: Option<Self>)
        ensures
            r is Some <==> fits(width as int, height as int),
            r matches Some(renderer) ==> renderer@ == blank(width as int, height as int)
                && renderer@.wf(),
    {
        if !picture_fits(width as i64, height as i64) {
            return None;
        }
        assert(0 < width * height <= width * height * 4) by (nonlinear_arith)
            requires
                width > 0,
                height > 0,
        ;
        let count: usize = (width as i64 * height as i64) as usize;
        let mut pixels: Vec<u32> = Vec::new();
        let mut i: usize = 0;
        while i < count
            invariant
                i <= count,
                pixels@ == Seq::new(i as nat, |k: int| 0u32),
            decreases count - i,
        {
            pixels.push(0);
            i = i + 1;
            assert(pixels@ =~= Seq::new(i as nat, |k: int| 0u32));
        }
        let r = Renderer { width, height, pixels };
        assert(r@ =~= blank(width as int, height as int));
        Some(r)
    }

    /// Fill a rectangle with one colour
    pub fn fill_rect(&mut self, x: i32, y: i32, width: i32, height: i32, argb: u32)
        requires
            old(self)@.wf(),
        ensures
            final(self)@ == old(self)@.filled(
                x as int,
                y as int,
                width as int,
                height as int,
                argb,
            ),
            final(self)@.wf(),
    {
        let ghost before = self@;
        let ghost w = self.width as int;
        let ghost h = self.height as int;
        let columns: (usize, usize) = clipped(x, width, self.width);
        let rows: (usize, usize) = clipped(y, height, self.height);
        let stride: usize = self.width as usize;
        let mut row: usize = rows.0;
        assert(self@.pixels =~= before.recolored(part_filled(columns, rows.0, row, argb)).pixels);
        while row < rows.1
            invariant
                rows.0 <= row <= rows.1 <= h,
                columns.0 <= columns.1 <= w,
                w == stride,
                w == self.width,
                h == self.height,
                before.wf(),
                before.width == w,
                before.height == h,
                self@ == before.recolored(part_filled(columns, rows.0, row, argb)),
            decreases rows.1 - row,
        {
            let ghost so_far = self@.pixels;
            proof {
                lemma_inside(w, h, 0, row as int);
            }
            let start: usize = row * stride;
            fill_run(&mut self.pixels, start + columns.0, start + columns.1, argb);
            proof {
                let next = before.recolored(
                    part_filled(columns, rows.0, (row + 1) as usize, argb),
                );
                assert forall|k: int| 0 <= k < so_far.len() implies self.pixels@[k]
                    == next.pixels[k] by {
                    lemma_run(w, row as int, columns.0 as int, columns.1 as int, k);
                }
                assert(self@ =~= next);
            }
            row = row + 1;
        }
        proof {
            let want = before.filled(x as int, y as int, width as int, height as int, argb);
            assert forall|k: int| 0 <= k < before.pixels.len() implies self@.pixels[k]
                == want.pixels[k] by {
                lemma_fundamental_div_mod(k, w);
                lemma_point(w, h, k);
                assert(in_span(columns, k % w) <==> x <= k % w < x + width);
                assert(in_span(rows, k / w) <==> y <= k / w < y + height);
            }
            assert(self@ =~= want);
        }
    }

    /// Carry out the steps of a picture that are rectangles
    pub fn draw(&mut self, picture: &Picture)
        requires
            old(self)@.wf(),
        ensures
            final(self)@ == old(self)@.with_picture(picture@),
            final(self)@.wf(),
    {
        let ghost before = self@;
        let mut i: usize = 0;
        assert(picture@.take(0) =~= Seq::empty());
        while i < picture.paints.len()
            invariant
                i <= picture.paints@.len(),
                picture@.len() == picture.paints@.len(),
                self@.wf(),
                self@ == before.with_picture(picture@.take(i as int)),
            decreases picture.paints@.len() - i,
        {
            assert(picture@.take(i as int + 1).drop_last() =~= picture@.take(i as int));
            assert(picture@[i as int] == picture.paints@[i as int]@);
            if let Paint::Fill { area, argb } = &picture.paints[i] {
                self.fill_rect(area.x, area.y, area.width, area.height, *argb);
            }
            i = i + 1;
        }
        assert(picture@.take(i as int) =~= picture@);
    }

    /// Copy an image into the picture
    pub fn blit_argb(&mut self, image: &Vec<u32>, width: i32, height: i32, x: i32, y: i32)
        requires
            old(self)@.wf(),
            fits(width as int, height as int),
            image@.len() == width * height,
        ensures
            final(self)@ == old(self)@.blitted(
                image@,
                width as int,
                height as int,
                x as int,
                y as int,
            ),
            final(self)@.wf(),
    {
        let ghost before = self@;
        let ghost w = self.width as int;
        let ghost h = self.height as int;
        let count: usize = self.pixels.len();
        let mut k: usize = 0;
        let mut px: i64 = 0;
        let mut py: i64 = 0;
        let ghost f = blit_color(image@, width as int, height as int, x as int, y as int);
        while k < count
            invariant
                k <= count,
                count == before.pixels.len(),
                before.wf(),
                before.width == w,
                before.height == h,
                w == self.width,
                h == self.height,
                0 <= px < w,
                0 <= py <= h,
                k == py * w + px,
                fits(width as int, height as int),
                image@.len() == width * height,
                f == blit_color(image@, width as int, height as int, x as int, y as int),
                self.pixels@.len() == count,
                forall|j: int|
                    0 <= j < count ==> self.pixels@[j] == if j < k {
                        f(j % w, j / w, before.pixels[j])
                    } else {
                        before.pixels[j]
                    },
            decreases count - k,
        {
            proof {
                lemma_cell(w, px as int, py as int);
            }
            let dx: i64 = px - x as i64;
            let dy: i64 = py - y as i64;
            if 0 <= dx && dx < width as i64 && 0 <= dy && dy < height as i64 {
                proof {
                    lemma_inside(width as int, height as int, dx as int, dy as int);
                    assert(width * height <= width * height * 4) by (nonlinear_arith)
                        requires
                            width > 0,
                            height > 0,
                    ;
                }
                let from: i64 = dy * width as i64 + dx;
                self.pixels[k] = image[from as usize];
            }
            k = k + 1;
            px = px + 1;
            if px == self.width as i64 {
                assert((py + 1) * w == py * w + w) by (nonlinear_arith);
                px = 0;
                py = py + 1;
                proof {
                    if py > h {
                        assert(py * w > w * h) by (nonlinear_arith)
                            requires
                                py > h,
                                w > 0,
                        ;
                    }
                }
            }
        }
        assert(self@ =~= before.blitted(
            image@,
            width as int,
            height as int,
            x as int,
            y as int,
        ));
    }
}

/// A channel of a colour: 3 is alpha, 2 red, 1 green and 0 blue.
pub open spec fn channel(argb: u32, n: u32) -> u32 {
    (argb >> (8 * n) as u32) & 0xff
}

/// The colour with these channels.
pub open spec fn colored(a: int, r: int, g: int, b: int) -> u32 {
    (a * 0x1000000 + r * 0x10000 + g * 0x100 + b) as u32
}

/// A part of a channel, in steps of one 255th, rounded.
pub open spec fn portion(value: int, part: int) -> int {
    (value * part + 127) / 255
}

/// A colour with each channel reduced to a part.
pub open spec fn thinned(argb: u32, part: int) -> u32 {
    colored(
        portion(channel(argb, 3) as int, part),
        portion(channel(argb, 2) as int, part),
        portion(channel(argb, 1) as int, part),
        portion(channel(argb, 0) as int, part),
    )
}

/// One channel of a colour laid over another one.
pub open spec fn laid_over(above: int, below: int, alpha: int) -> int {
    let sum = above + portion(below, 255 - alpha);
    if sum > 255 {
        255
    } else {
        sum
    }
}

/// A colour laid over another one. The channels of both have been multiplied
/// by their alpha.
pub open spec fn over(above: u32, below: u32) -> u32 {
    let alpha = channel(above, 3) as int;
    colored(
        laid_over(alpha, channel(below, 3) as int, alpha),
        laid_over(channel(above, 2) as int, channel(below, 2) as int, alpha),
        laid_over(channel(above, 1) as int, channel(below, 1) as int, alpha),
        laid_over(channel(above, 0) as int, channel(below, 0) as int, alpha),
    )
}

/// A colour with its channels multiplied by its alpha.
pub open spec fn premultiplied(argb: u32) -> u32 {
    let alpha = channel(argb, 3) as int;
    colored(
        alpha,
        portion(channel(argb, 2) as int, alpha),
        portion(channel(argb, 1) as int, alpha),
        portion(channel(argb, 0) as int, alpha),
    )
}

fn channel_of(argb: u32, n: u32) -> (r: u32)
    requires
        n <= 3,
    ensures
        r == channel(argb, n),
        r <= 255,
{
    let shift: u32 = 8 * n;
    let r: u32 = (argb >> shift) & 0xff;
    assert((argb >> shift) & 0xff <= 255) by (bit_vector);
    r
}

fn color_of(a: u32, r: u32, g: u32, b: u32) -> (c: u32)
    requires
        a <= 255,
        r <= 255,
        g <= 255,
        b <= 255,
    ensures
        c == colored(a as int, r as int, g as int, b as int),
{
    a * 0x1000000 + r * 0x10000 + g * 0x100 + b
}

fn portion_of(value: u32, part: u32) -> (r: u32)
    requires
        value <= 255,
        part <= 255,
    ensures
        r == portion(value as int, part as int),
        r <= 255,
{
    assert(0 <= value * part <= 255 * 255) by (nonlinear_arith)
        requires
            value <= 255,
            part <= 255,
    ;
    (value * part + 127) / 255
}

fn lay_over(above: u32, below: u32, alpha: u32) -> (r: u32)
    requires
        above <= 255,
        below <= 255,
        alpha <= 255,
    ensures
        r == laid_over(above as int, below as int, alpha as int),
        r <= 255,
{
    let sum: u32 = above + portion_of(below, 255 - alpha);
    if sum > 255 {
        255
    } else {
        sum
    }
}

fn over_of(above: u32, below: u32) -> (r: u32)
    ensures
        r == over(above, below),
{
    let alpha: u32 = channel_of(above, 3);
    color_of(
        lay_over(alpha, channel_of(below, 3), alpha),
        lay_over(channel_of(above, 2), channel_of(below, 2), alpha),
        lay_over(channel_of(above, 1), channel_of(below, 1), alpha),
        lay_over(channel_of(above, 0), channel_of(below, 0), alpha),
    )
}

fn thin(argb: u32, part: u32) -> (r: u32)
    requires
        part <= 255,
    ensures
        r == thinned(argb, part as int),
{
    color_of(
        portion_of(channel_of(argb, 3), part),
        portion_of(channel_of(argb, 2), part),
        portion_of(channel_of(argb, 1), part),
        portion_of(channel_of(argb, 0), part),
    )
}

fn premultiply(argb: u32) -> (r: u32)
    ensures
        r == premultiplied(argb),
{
    let alpha: u32 = channel_of(argb, 3);
    color_of(
        alpha,
        portion_of(channel_of(argb, 2), alpha),
        portion_of(channel_of(argb, 1), alpha),
        portion_of(channel_of(argb, 0), alpha),
    )
}

/// Lays an image over what is there.
pub open spec fn laid(image: Seq<u32>, width: int, height: int, x: int, y: int) -> spec_fn(int, int, u32) -> u32 {
    |px: int, py: int, old: u32|
        if x <= px < x + width && y <= py < y + height {
            over(image[(py - y) * width + (px - x)], old)
        } else {
            old
        }
}

impl RendererView {
    /// With an image laid over it, as far as it lies inside the picture.
    pub open spec fn with_image(self, image: Seq<u32>, width: int, height: int, x: int, y: int) -> RendererView {
        self.recolored(laid(image, width, height, x, y))
    }
}

/// The colours of an image that shows one colour more or less strongly.
pub open spec fn tinted(coverage: Seq<u8>, argb: u32) -> Seq<u32> {
    coverage.map_values(|c: u8| thinned(premultiplied(argb), c as int))
}

/// The image of one colour, more or less strong
pub fn tint(coverage: &Vec<u8>, argb: u32) -> (r: Vec<u32>)
    ensures
        r@ == tinted(coverage@, argb),
{
    let color: u32 = premultiply(argb);
    let mut r: Vec<u32> = Vec::new();
    let mut i: usize = 0;
    while i < coverage.len()
        invariant
            i <= coverage@.len(),
            color == premultiplied(argb),
            r@ == tinted(coverage@, argb).take(i as int),
        decreases coverage@.len() - i,
    {
        r.push(thin(color, coverage[i] as u32));
        i = i + 1;
        assert(r@ =~= tinted(coverage@, argb).take(i as int));
    }
    assert(r@ =~= tinted(coverage@, argb));
    r
}

impl Renderer {
    /// Lay an image over the picture. The channels of its colours have been
    /// multiplied by their alpha
    pub fn blit_pixmap(&mut self, image: &Vec<u32>, width: i32, height: i32, x: i32, y: i32)
        requires
            old(self)@.wf(),
            fits(width as int, height as int),
            image@.len() == width * height,
        ensures
            final(self)@ == old(self)@.with_image(
                image@,
                width as int,
                height as int,
                x as int,
                y as int,
            ),
            final(self)@.wf(),
    {
        let ghost before = self@;
        let ghost w = self.width as int;
        let ghost h = self.height as int;
        let count: usize = self.pixels.len();
        let mut k: usize = 0;
        let mut px: i64 = 0;
        let mut py: i64 = 0;
        let ghost f = laid(image@, width as int, height as int, x as int, y as int);
        while k < count
            invariant
                k <= count,
                count == before.pixels.len(),
                before.wf(),
                before.width == w,
                before.height == h,
                w == self.width,
                h == self.height,
                0 <= px < w,
                0 <= py <= h,
                k == py * w + px,
                fits(width as int, height as int),
                image@.len() == width * height,
                f == laid(image@, width as int, height as int, x as int, y as int),
                self.pixels@.len() == count,
                forall|j: int|
                    0 <= j < count ==> self.pixels@[j] == if j < k {
                        f(j % w, j / w, before.pixels[j])
                    } else {
                        before.pixels[j]
                    },
            decreases count - k,
        {
            proof {
                lemma_cell(w, px as int, py as int);
            }
            let dx: i64 = px - x as i64;
            let dy: i64 = py - y as i64;
            if 0 <= dx && dx < width as i64 && 0 <= dy && dy < height as i64 {
                proof {
                    lemma_inside(width as int, height as int, dx as int, dy as int);
                    assert(width * height <= width * height * 4) by (nonlinear_arith)
                        requires
                            width > 0,
                            height > 0,
                    ;
                }
                let from: i64 = dy * width as i64 + dx;
                self.pixels[k] = over_of(image[from as usize], self.pixels[k]);
            }
            k = k + 1;
            px = px + 1;
            if px == self.width as i64 {
                assert((py + 1) * w == py * w + w) by (nonlinear_arith);
                px = 0;
                py = py + 1;
                proof {
                    if py > h {
                        assert(py * w > w * h) by (nonlinear_arith)
                            requires
                                py > h,
                                w > 0,
                        ;
                    }
                }
            }
        }
        assert(self@ =~= before.with_image(
            image@,
            width as int,
            height as int,
            x as int,
            y as int,
        ));
    }
}

/// A colour that is not transparent at all hides what is below it.
pub proof fn law_opaque_colors_hide(above: u32, below: u32)
    requires
        channel(above, 3) == 255,
    ensures
        over(above, below) == above,
{
    assert(channel(above, 0) <= 255 && channel(above, 1) <= 255 && channel(above, 2) <= 255
        && channel(above, 3) <= 255 && above == channel(above, 3) * 0x1000000 + channel(above, 2)
        * 0x10000 + channel(above, 1) * 0x100 + channel(above, 0)) by {
        let c0 = channel(above, 0);
        let c1 = channel(above, 1);
        let c2 = channel(above, 2);
        let c3 = channel(above, 3);
        assert((8 * 0u32) as u32 == 0 && (8 * 1u32) as u32 == 8 && (8 * 2u32) as u32 == 16 && (8
            * 3u32) as u32 == 24);
        assert(c0 <= 255 && c1 <= 255 && c2 <= 255 && c3 <= 255 && above == c3 * 0x1000000 + c2
            * 0x10000 + c1 * 0x100 + c0) by (bit_vector)
            requires
                c0 == (above >> 0u32) & 0xff,
                c1 == (above >> 8u32) & 0xff,
                c2 == (above >> 16u32) & 0xff,
                c3 == (above >> 24u32) & 0xff,
        ;
    }
}

/// Filling a rectangle gives its colour to every pixel in it and leaves all
/// others as they are.
pub proof fn law_fill_touches_only_its_area(
    r: RendererView,
    x: int,
    y: int,
    width: int,
    height: int,
    argb: u32,
    px: int,
    py: int,
)
    requires
        r.wf(),
        0 <= px < r.width,
        0 <= py < r.height,
    ensures
        r.filled(x, y, width, height, argb).wf(),
        r.filled(x, y, width, height, argb).at(px, py) == (if x <= px < x + width && y <= py < y
            + height {
            argb
        } else {
            r.at(px, py)
        }),
{
    lemma_inside(r.width, r.height, px, py);
    lemma_cell(r.width, px, py);
}

/// Fills the columns of a span in the rows before `row`.
pub open spec fn part_filled(columns: (usize, usize), top: usize, row: usize, argb: u32) -> spec_fn(int, int, u32) -> u32 {
    |px: int, py: int, old: u32|
        if in_span(columns, px) && top <= py < row {
            argb
        } else {
            old
        }
}

/// Takes the colours of an image.
pub open spec fn blit_color(image: Seq<u32>, width: int, height: int, x: int, y: int) -> spec_fn(int, int, u32) -> u32 {
    |px: int, py: int, old: u32|
        if x <= px < x + width && y <= py < y + height {
            image[(py - y) * width + (px - x)]
        } else {
            old
        }
}

/// The pixels of a picture lie in its rows and columns.
pub proof fn lemma_point(width: int, height: int, k: int)
    requires
        0 < width,
        0 <= k < width * height,
    ensures
        0 <= k % width < width,
        0 <= k / width < height,
        k == (k / width) * width + k % width,
{
    lemma_fundamental_div_mod(k, width);
    assert(width * (k / width) == (k / width) * width) by (nonlinear_arith);
    assert(k / width < height) by (nonlinear_arith)
        requires
            0 < width,
            0 <= k < width * height,
            k == width * (k / width) + k % width,
            0 <= k % width,
    ;
    assert(0 <= k / width) by (nonlinear_arith)
        requires
            0 < width,
            0 <= k,
    ;
}

/// An image that is copied gives each pixel below it the colour at the same place of the image,
/// and leaves all others as they are.
pub proof fn law_copied_image_appears_where_it_is_put(
    r: RendererView,
    image: Seq<u32>,
    width: int,
    height: int,
    x: int,
    y: int,
    px: int,
    py: int,
)
    requires
        r.wf(),
        0 <= px < r.width,
        0 <= py < r.height,
    ensures
        ({
            let inside = x <= px < x + width && y <= py < y + height;
            let there = image[(py - y) * width + (px - x)];
            &&& inside ==> r.blitted(image, width, height, x, y).at(px, py) == there
            &&& !inside ==> r.blitted(image, width, height, x, y).at(px, py) == r.at(px, py)
            &&& inside ==> r.with_image(image, width, height, x, y).at(px, py) == over(
                there,
                r.at(px, py),
            )
            &&& !inside ==> r.with_image(image, width, height, x, y).at(px, py) == r.at(px, py)
        }),
{
    lemma_inside(r.width, r.height, px, py);
    lemma_cell(r.width, px, py);
}

/// A part of a channel is the nearest whole number to it: all of it is the channel itself, none of
/// it nothing.
pub proof fn law_portion_is_rounded(value: int, part: int)
    requires
        0 <= value <= 255,
        0 <= part <= 255,
    ensures
        -127 <= portion(value, part) * 255 - value * part <= 127,
        portion(value, 255) == value,
        portion(value, 0) == 0,
        0 <= portion(value, part) <= value,
{
    let p = value * part + 127;
    lemma_fundamental_div_mod(p, 255);
    assert(0 <= value * part <= value * 255) by (nonlinear_arith)
        requires
            0 <= value,
            0 <= part <= 255,
    ;
    assert(value * 0 == 0);
}

/// Laying nothing over a channel leaves it, and the more opaque what is laid over it is, the less
/// of it stays. The sum never leaves the range of a channel.
pub proof fn law_opacity_covers(above: int, below: int, alpha: int)
    requires
        0 <= above <= alpha <= 255,
        0 <= below <= 255,
    ensures
        laid_over(0, below, 0) == below,
        laid_over(above, below, 255) == above,
        above <= laid_over(above, below, alpha) <= 255,
        laid_over(above, 0, alpha) == above,
        laid_over(above, below, alpha) <= above + below,
{
    law_portion_is_rounded(below, 255 - alpha);
    law_portion_is_rounded(below, 255);
    law_portion_is_rounded(below, 0);
    law_portion_is_rounded(0, 255 - alpha);
}

/// The steps of a picture are carried out in their order: those of a first part, then those of the
/// rest over them.
pub proof fn law_pictures_are_painted_in_order(r: RendererView, a: Seq<PaintView>, b: Seq<PaintView>)
    ensures
        r.with_picture(a + b) == r.with_picture(a).with_picture(b),
    decreases b.len(),
{
    if b.len() > 0 {
        assert((a + b).drop_last() =~= a + b.drop_last());
        assert((a + b).last() == b.last());
        law_pictures_are_painted_in_order(r, a, b.drop_last());
    } else {
        assert(a + b =~= a);
    }
}

} // verus!
