//! Window shadow rendering.

use vstd::prelude::*;
use crate::canoe::render::{
    buffer_for, lemma_cell, lemma_inside, lemma_point, plan_buffer, px, BufferPlan, Renderer,
};
use crate::num::{larger, max_i32, sat, smaller, to_i32, within};
use crate::protocol::ObjectId;

verus! {

/// What a drawn shadow depends on.
#[derive(Clone, Copy, Debug, PartialEq, Eq, Structural)]
pub struct ShadowKey {
    pub frame_width: i32,
    pub frame_height: i32,
    pub shadow_size: i32,
    pub shadow_color: u32,
    pub scale: i32,
}

/// Shadow surface for a window.
#[derive(Debug)]
pub struct WindowShadow {
    /// The surface for the shadow.
    pub surface: ObjectId,
    /// The river decoration object.
    pub decoration: ObjectId,
    /// Whether a buffer exists.
    pub buffer: bool,
    /// Current buffer width.
    pub width: i32,
    /// Current buffer height.
    pub height: i32,
    /// Current buffer width in pixels.
    pub buffer_width: i32,
    /// Current buffer height in pixels.
    pub buffer_height: i32,
    /// Output scale factor.
    pub scale: i32,
    /// wl_output names the shadow surface is currently on.
    pub output_names: Vec<u32>,
    /// What the buffer shows, if anything was drawn into it.
    pub cache: Option<ShadowKey>,
}

/// A [`WindowShadow`] by its contents.
pub struct WindowShadowView {
    pub surface: ObjectId,
    pub decoration: ObjectId,
    pub buffer: bool,
    pub width: i32,
    pub height: i32,
    pub buffer_width: i32,
    pub buffer_height: i32,
    pub scale: i32,
    pub output_names: Seq<u32>,
    pub cache: Option<ShadowKey>,
}

impl View for WindowShadow {
    type V = WindowShadowView;

    open spec fn view(&self) -> WindowShadowView {
        WindowShadowView {
            surface: self.surface,
            decoration: self.decoration,
            buffer: self.buffer,
            width: self.width,
            height: self.height,
            buffer_width: self.buffer_width,
            buffer_height: self.buffer_height,
            scale: self.scale,
            output_names: self.output_names@,
            cache: self.cache,
        }
    }
}

/// What a new shadow looks like.
pub open spec fn fresh_shadow(surface: ObjectId, decoration: ObjectId) -> WindowShadowView {
    WindowShadowView {
        surface,
        decoration,
        buffer: false,
        width: 0,
        height: 0,
        buffer_width: 0,
        buffer_height: 0,
        scale: 1,
        output_names: Seq::empty(),
        cache: None,
    }
}

impl WindowShadowView {
    /// The buffer for the shadow of a frame, if there can be one: the frame
    /// with a band of the shadow's size around it.
    pub open spec fn wanted(frame_width: i32, frame_height: i32, shadow_size: i32, scale: i32) -> Option<BufferPlan> {
        let band = larger(shadow_size as int, 0);
        if frame_width <= 0 || frame_height <= 0 {
            None
        } else {
            buffer_for(sat(frame_width + band * 2), sat(frame_height + band * 2), scale)
        }
    }

    /// Whether the present buffer is the wanted one.
    pub open spec fn has_buffer(self, width: i32, height: i32, plan: BufferPlan) -> bool {
        &&& self.buffer
        &&& self.width == width
        &&& self.height == height
        &&& self.buffer_width == plan.width
        &&& self.buffer_height == plan.height
        &&& self.scale == plan.scale
    }

    /// With the size of a frame, and without its buffer if that is of another
    /// size.
    pub open spec fn sized(self, frame_width: i32, frame_height: i32, shadow_size: i32, scale: i32) -> WindowShadowView {
        let band = larger(shadow_size as int, 0);
        let width = sat(frame_width + band * 2);
        let height = sat(frame_height + band * 2);
        match WindowShadowView::wanted(frame_width, frame_height, shadow_size, scale) {
            Some(plan) => if self.has_buffer(width, height, plan) {
                self
            } else {
                WindowShadowView {
                    width,
                    height,
                    buffer_width: plan.width,
                    buffer_height: plan.height,
                    scale: plan.scale,
                    cache: None,
                    buffer: false,
                    ..self
                }
            },
            None => self,
        }
    }

    /// Whether there is something to draw into and around.
    pub open spec fn drawable(self, frame_width: i32, frame_height: i32) -> bool {
        &&& self.width > 0
        &&& self.height > 0
        &&& self.buffer_width > 0
        &&& self.buffer_height > 0
        &&& frame_width > 0
        &&& frame_height > 0
    }
}

/// What the shadow of a frame depends on.
pub open spec fn shadow_key(frame_width: i32, frame_height: i32, shadow_size: i32, shadow_color: u32, scale: i32) -> ShadowKey {
    ShadowKey {
        frame_width,
        frame_height,
        shadow_size: larger(shadow_size as int, 0) as i32,
        shadow_color,
        scale: larger(scale as int, 1) as i32,
    }
}

impl WindowShadow {
    /// Create a new shadow surface.
    pub fn new(surface: ObjectId, decoration: ObjectId) -> (r: Self)
        ensures
            r@ == fresh_shadow(surface, decoration),
    {
        let r = WindowShadow {
            surface,
            decoration,
            buffer: false,
            width: 0,
            height: 0,
            buffer_width: 0,
            buffer_height: 0,
            scale: 1,
            output_names: Vec::new(),
            cache: None,
        };
        assert(r@.output_names =~= Seq::empty());
        r
    }

    /// Take the size of a frame; tells the buffer that has to be made, if any
    pub fn ensure_buffer(&mut self, frame_width: i32, frame_height: i32, shadow_size: i32, scale: i32) -> (r: Option<BufferPlan>)
        ensures
            final(self)@ == old(self)@.sized(frame_width, frame_height, shadow_size, scale),
            r == (if final(self)@.buffer {
                None
            } else {
                WindowShadowView::wanted(frame_width, frame_height, shadow_size, scale)
            }),
            r matches Some(plan) ==> plan.wf(),
    {
        if frame_width <= 0 || frame_height <= 0 {
            return None;
        }
        let band: i64 = max_i32(shadow_size, 0) as i64;
        let width: i32 = to_i32(frame_width as i64 + band * 2);
        let height: i32 = to_i32(frame_height as i64 + band * 2);
        match plan_buffer(width, height, scale) {
            Some(plan) => {
                if self.buffer && self.width == width && self.height == height && self.buffer_width
                    == plan.width && self.buffer_height == plan.height && self.scale == plan.scale {
                    return None;
                }
                self.width = width;
                self.height = height;
                self.buffer_width = plan.width;
                self.buffer_height = plan.height;
                self.scale = plan.scale;
                self.cache = None;
                self.buffer = false;
                Some(plan)
            },
            None => None,
        }
    }

    /// The buffer was made
    pub fn buffer_made(&mut self)
        ensures
            final(self)@ == (WindowShadowView { buffer: true, ..old(self)@ }),
    {
        self.buffer = true;
    }

    /// Whether the shadow of a frame has to be drawn into the buffer. What it
    /// depends on is noted, also where there is no buffer to draw into.
    pub fn render(&mut self, frame_width: i32, frame_height: i32, shadow_size: i32, shadow_color: u32, scale: i32) -> (r: bool)
        ensures
            ({
                let key = shadow_key(frame_width, frame_height, shadow_size, shadow_color, scale);
                let changed = old(self)@.drawable(frame_width, frame_height) && old(self)@.cache
                    != Some(key);
                &&& r == (changed && old(self)@.buffer)
                &&& final(self)@ == (if changed {
                    WindowShadowView { cache: Some(key), ..old(self)@ }
                } else {
                    old(self)@
                })
            }),
    {
        if self.width <= 0 || self.height <= 0 || self.buffer_width <= 0 || self.buffer_height <= 0
            || frame_width <= 0 || frame_height <= 0 {
            return false;
        }
        let key = ShadowKey {
            frame_width,
            frame_height,
            shadow_size: max_i32(shadow_size, 0),
            shadow_color,
            scale: max_i32(scale, 1),
        };
        if self.cache == Some(key) {
            return false;
        }
        self.cache = Some(key);
        self.buffer
    }
}

/// Where a shadow goes in a buffer, in pixels. The frame is anchored at the
/// top left of the buffer, inset by the band; the buffer may be taller than
/// frame and band, which leaves slack at the bottom.
#[derive(Clone, Copy, Debug, PartialEq, Eq, Structural)]
pub struct ShadowShape {
    /// Width of the buffer.
    pub width: i32,
    /// Width of the band around the frame.
    pub band: i32,
    /// Radius of the corners.
    pub radius: i32,
    /// Bottom edge of the frame.
    pub bottom: i32,
}

impl ShadowShape {
    /// Side of a corner tile: the band and the radius. What is in it does not
    /// depend on the size of the frame, so one tile serves all four corners.
    pub open spec fn tile(self) -> int {
        self.band + self.radius
    }

    pub open spec fn wf(self) -> bool {
        &&& 0 < self.band
        &&& 0 <= self.radius
        &&& self.tile() * 2 <= self.width
        &&& self.tile() <= self.bottom - self.radius
        &&& self.bottom + self.band <= i32::MAX
    }

    /// Whether the shadow has its place in the buffer
    pub fn has_place(&self) -> (r: bool)
        ensures
            r == self.wf(),
    {
        let tile: i64 = self.band as i64 + self.radius as i64;
        0 < self.band && 0 <= self.radius && tile * 2 <= self.width as i64 && tile
            <= self.bottom as i64 - self.radius as i64 && self.bottom as i64 + self.band as i64
            <= i32::MAX as i64
    }

    /// The column of the corner tile at a column of the buffer.
    pub open spec fn tile_x(self, x: int) -> Option<int> {
        if x >= self.width - self.tile() {
            Some(x - (self.width - self.tile()))
        } else if x < self.tile() {
            Some(self.tile() - 1 - x)
        } else {
            None
        }
    }

    /// The row of the corner tile at a row of the buffer.
    pub open spec fn tile_y(self, y: int) -> Option<int> {
        if y < self.tile() {
            Some(self.tile() - 1 - y)
        } else if self.bottom - self.radius <= y < self.bottom + self.band {
            Some(y - (self.bottom - self.radius))
        } else {
            None
        }
    }

    /// How far into the band a row is, counted from its faint outer edge.
    pub open spec fn edge_y(self, y: int) -> Option<int> {
        if y < self.band {
            Some(y)
        } else if self.bottom <= y < self.bottom + self.band {
            Some(self.bottom + self.band - 1 - y)
        } else {
            None
        }
    }

    /// How far into the band a column is, counted from its faint outer edge.
    pub open spec fn edge_x(self, x: int) -> Option<int> {
        if x < self.band {
            Some(x)
        } else if x >= self.width - self.band {
            Some(self.width - 1 - x)
        } else {
            None
        }
    }

    /// The colour of the shadow at a point, where it has one. `edge` holds the
    /// colours across the band, `corner` those of the corner tile.
    pub open spec fn color_at(self, edge: Seq<u32>, corner: Seq<u32>, x: int, y: int) -> Option<u32> {
        match (self.tile_x(x), self.tile_y(y)) {
            (Some(tx), Some(ty)) => visible(corner[ty * self.tile() + tx]),
            (Some(_), None) => if y < self.bottom - self.radius {
                match self.edge_x(x) {
                    Some(i) => Some(edge[i]),
                    None => None,
                }
            } else {
                None
            },
            (None, _) => match self.edge_y(y) {
                Some(i) => visible(edge[i]),
                None => None,
            },
        }
    }
}

/// A colour, unless it is fully transparent.
pub open spec fn visible(argb: u32) -> Option<u32> {
    if argb >> 24 == 0 {
        None
    } else {
        Some(argb)
    }
}

fn if_visible(argb: u32) -> (r: Option<u32>)
    ensures
        r == visible(argb),
{
    if argb >> 24 == 0 {
        None
    } else {
        Some(argb)
    }
}

/// Where the shadow of a frame goes, if it has one.
pub open spec fn shape_of(
    width: i32,
    frame_width: i32,
    frame_height: i32,
    shadow_size: i32,
    corner_radius: i32,
    shadow_color: u32,
    scale: i32,
) -> Option<ShadowShape> {
    let band = sat(shadow_size * scale);
    let w = sat(frame_width * scale) as int;
    let h = sat(frame_height * scale) as int;
    if shadow_size <= 0 || shadow_color & 0xff == 0 || band <= 0 || w <= 0 || h <= 0 {
        None
    } else {
        Some(
            ShadowShape {
                width,
                band,
                radius: within(corner_radius * scale, 0, smaller(w, h) / 2) as i32,
                bottom: sat(band + h),
            },
        )
    }
}

/// Where the shadow of a frame goes in a buffer of some width, if it has one
pub fn shadow_shape(width: i32, frame_width: i32, frame_height: i32, shadow_size: i32, corner_radius: i32, shadow_color: u32, scale: i32) -> (r: Option<ShadowShape>)
    ensures
        r == shape_of(
            width,
            frame_width,
            frame_height,
            shadow_size,
            corner_radius,
            shadow_color,
            scale,
        ),
{
    if shadow_size <= 0 || shadow_color & 0xff == 0 {
        return None;
    }
    let band: i32 = px(0, shadow_size as i64, scale);
    let w: i32 = px(0, frame_width as i64, scale);
    let h: i32 = px(0, frame_height as i64, scale);
    if band <= 0 || w <= 0 || h <= 0 {
        return None;
    }
    let wanted: i32 = px(0, corner_radius as i64, scale);
    let most: i32 = if w <= h {
        w / 2
    } else {
        h / 2
    };
    let radius: i32 = if wanted < 0 {
        0
    } else if wanted > most {
        most
    } else {
        wanted
    };
    Some(ShadowShape { width, band, radius, bottom: to_i32(band as i64 + h as i64) })
}

fn shadow_color_at(shape: &ShadowShape, edge: &Vec<u32>, corner: &Vec<u32>, x: i32, y: i32) -> (r: Option<u32>)
    requires
        shape.wf(),
        edge@.len() == shape.band,
        corner@.len() == shape.tile() * shape.tile(),
        0 <= x < shape.width,
        0 <= y,
    ensures
        r == shape.color_at(edge@, corner@, x as int, y as int),
{
    let tile: i32 = shape.band + shape.radius;
    let left: bool = x < tile;
    let right: bool = x >= shape.width - tile;
    let top: bool = y < tile;
    let low: bool = y >= shape.bottom - shape.radius && y < shape.bottom + shape.band;
    if (left || right) && (top || low) {
        let tx: i32 = if right {
            x - (shape.width - tile)
        } else {
            tile - 1 - x
        };
        let ty: i32 = if top {
            tile - 1 - y
        } else {
            y - (shape.bottom - shape.radius)
        };
        proof {
            lemma_inside(tile as int, tile as int, tx as int, ty as int);
            assert(tile * tile <= 0x4000_0000 * 0x4000_0000) by (nonlinear_arith)
                requires
                    0 < tile <= 0x4000_0000,
            ;
        }
        assert(corner.len() <= usize::MAX);
        let at: i64 = ty as i64 * tile as i64 + tx as i64;
        return if_visible(corner[at as usize]);
    }
    if left || right {
        if y < shape.bottom - shape.radius {
            if x < shape.band {
                return Some(edge[x as usize]);
            }
            if x >= shape.width - shape.band {
                return Some(edge[(shape.width - 1 - x) as usize]);
            }
        }
        return None;
    }
    if y < shape.band {
        return if_visible(edge[y as usize]);
    }
    if y >= shape.bottom && y < shape.bottom + shape.band {
        return if_visible(edge[(shape.bottom + shape.band - 1 - y) as usize]);
    }
    None
}

/// Puts the colour of a shadow where it has one.
pub open spec fn shadowed(shape: ShadowShape, edge: Seq<u32>, corner: Seq<u32>) -> spec_fn(int, int, u32) -> u32 {
    |x: int, y: int, old: u32|
        match shape.color_at(edge, corner, x, y) {
            Some(argb) => argb,
            None => old,
        }
}

/// Draw a soft shadow around a frame
pub fn draw_shadow_soft(renderer: &mut Renderer, shape: &ShadowShape, edge: &Vec<u32>, corner: &Vec<u32>)
    requires
        old(renderer)@.wf(),
        shape.wf(),
        shape.width == old(renderer)@.width,
        edge@.len() == shape.band,
        corner@.len() == shape.tile() * shape.tile(),
    ensures
        final(renderer)@ == old(renderer)@.recolored(shadowed(*shape, edge@, corner@)),
        final(renderer)@.wf(),
{
    let ghost before = renderer@;
    let ghost w = renderer.width as int;
    let ghost h = renderer.height as int;
    let ghost f = shadowed(*shape, edge@, corner@);
    let count: usize = renderer.pixels.len();
    let mut k: usize = 0;
    let mut x: i32 = 0;
    let mut y: i32 = 0;
    while k < count
        invariant
            k <= count,
            count == before.pixels.len(),
            before.wf(),
            before.width == w,
            before.height == h,
            w == renderer.width,
            h == renderer.height,
            0 <= x < w,
            0 <= y <= h,
            k == y * w + x,
            shape.wf(),
            shape.width == w,
            edge@.len() == shape.band,
            corner@.len() == shape.tile() * shape.tile(),
            f == shadowed(*shape, edge@, corner@),
            renderer.pixels@.len() == count,
            forall|j: int|
                0 <= j < count ==> renderer.pixels@[j] == if j < k {
                    f(j % w, j / w, before.pixels[j])
                } else {
                    before.pixels[j]
                },
        decreases count - k,
    {
        proof {
            lemma_cell(w, x as int, y as int);
            lemma_point(w, h, k as int);
        }
        if let Some(argb) = shadow_color_at(shape, edge, corner, x, y) {
            renderer.pixels[k] = argb;
        }
        k = k + 1;
        x = x + 1;
        if x == renderer.width {
            assert((y + 1) * w == y * w + w) by (nonlinear_arith);
            x = 0;
            y = y + 1;
        }
    }
    assert(renderer@ =~= before.recolored(shadowed(*shape, edge@, corner@)));
}

/// A shadow is the same on the left and on the right, and at the top and at
/// the bottom.
pub proof fn law_shadow_is_symmetric(shape: ShadowShape, edge: Seq<u32>, corner: Seq<u32>, x: int, y: int)
    requires
        shape.wf(),
        0 <= x < shape.width,
        0 <= y < shape.bottom + shape.band,
    ensures
        shape.color_at(edge, corner, x, y) == shape.color_at(edge, corner, shape.width - 1 - x, y),
        shape.color_at(edge, corner, x, y) == shape.color_at(
            edge,
            corner,
            x,
            shape.bottom + shape.band - 1 - y,
        ),
{
}

/// Nothing of a shadow is drawn over the straight part of its frame.
pub proof fn law_shadow_stays_outside_its_frame(
    shape: ShadowShape,
    edge: Seq<u32>,
    corner: Seq<u32>,
    x: int,
    y: int,
)
    requires
        shape.wf(),
        shape.band <= x < shape.width - shape.band,
        shape.tile() <= y < shape.bottom - shape.radius,
    ensures
        shape.color_at(edge, corner, x, y) is None,
{
}

} // verus!
