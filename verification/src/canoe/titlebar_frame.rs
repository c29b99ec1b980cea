//! When the frame around a window is drawn, at what size, and what of it the
//! compositor is told to look at again.

use vstd::prelude::*;
use crate::canoe::render::{argb_of, blank, fits, px, rgba_to_argb, Area, PaintView, Picture, Renderer};
use crate::canoe::shmfile::Preparation;
use crate::canoe::titlebar::{
    border_width, spec_border_width, spec_titlebar_height, titlebar_height, ButtonCache,
    ButtonCacheKey, ButtonCacheView, FrameStyle, Titlebar, TitlebarView, BUTTON_BG_PRESSED_LEFT,
};
use crate::canoe::titlebar_picture::{
    bevel, draw_button_bevel, icon_size, icon_size_for_titlebar, BaseFrameParams, TitlebarLook,
};
use crate::config::{UiConfig, UiConfigView};
use crate::num::{larger, max_i32, sat, to_i32};
use crate::text::{opt_str, same};

verus! {

/// A button of one colour.
pub open spec fn fill_image(size: int, argb: u32) -> Seq<u32> {
    blank(size, size).filled(0, 0, size, size, argb).pixels
}

/// A button that stands out, or that is pressed in.
pub open spec fn bevel_image(
    size: int,
    titlebar_height: i32,
    bg: u32,
    highlight: u32,
    shadow: u32,
    pressed: bool,
) -> Seq<u32> {
    blank(size, size).with_picture(
        bevel(0, 0, size, bg, highlight, shadow, pressed, titlebar_height),
    ).pixels
}

/// The images of the buttons in the colours of a theme.
pub open spec fn button_images(ui: UiConfigView, titlebar_height: i32, size: i32) -> ButtonCacheView {
    let bg = argb_of(ui.button_bg);
    let light = argb_of(ui.button_highlight);
    let dark = argb_of(ui.button_shadow);
    let normal = bevel_image(size as int, titlebar_height, bg, light, dark, false);
    let pressed = bevel_image(size as int, titlebar_height, bg, light, dark, true);
    ButtonCacheView {
        size_px: size,
        titlebar_height,
        key: ButtonCacheKey {
            button_bg: ui.button_bg,
            button_highlight: ui.button_highlight,
            button_shadow: ui.button_shadow,
        },
        close_normal: fill_image(size as int, bg),
        close_pressed: fill_image(size as int, argb_of(BUTTON_BG_PRESSED_LEFT)),
        hide_normal: normal,
        hide_pressed: pressed,
        maximize_normal: normal,
        maximize_pressed: pressed,
    }
}

fn build_button_fill(size_px: i32, argb: u32) -> (r: Vec<u32>)
    requires
        fits(size_px as int, size_px as int),
    ensures
        r@ == fill_image(size_px as int, argb),
{
    match Renderer::new(size_px, size_px) {
        Some(renderer) => {
            let mut renderer = renderer;
            renderer.fill_rect(0, 0, size_px, size_px, argb);
            renderer.pixels
        },
        None => Vec::new(),
    }
}

fn build_button_bevel_cache(size_px: i32, titlebar_height: i32, bg: u32, highlight: u32, shadow: u32, pressed: bool) -> (r: Vec<u32>)
    requires
        fits(size_px as int, size_px as int),
    ensures
        r@ == bevel_image(size_px as int, titlebar_height, bg, highlight, shadow, pressed),
{
    match Renderer::new(size_px, size_px) {
        Some(renderer) => {
            let mut renderer = renderer;
            let mut picture = Picture::new();
            draw_button_bevel(
                &mut picture,
                0,
                0,
                size_px,
                bg,
                highlight,
                shadow,
                pressed,
                titlebar_height,
            );
            assert(picture@ =~= bevel(
                0,
                0,
                size_px as int,
                bg,
                highlight,
                shadow,
                pressed,
                titlebar_height,
            ));
            renderer.draw(&picture);
            renderer.pixels
        },
        None => Vec::new(),
    }
}

/// An area, unless it is empty.
pub open spec fn area_if(x: int, y: int, width: int, height: int) -> Seq<Area> {
    if width > 0 && height > 0 {
        seq![Area { x: sat(x), y: sat(y), width: sat(width), height: sat(height) }]
    } else {
        Seq::empty()
    }
}

fn push_area(areas: &mut Vec<Area>, x: i64, y: i64, width: i64, height: i64)
    ensures
        final(areas)@ == old(areas)@ + area_if(x as int, y as int, width as int, height as int),
{
    let ghost before = areas@;
    if width > 0 && height > 0 {
        areas.push(
            Area { x: to_i32(x), y: to_i32(y), width: to_i32(width), height: to_i32(height) },
        );
    }
    assert(areas@ =~= before + area_if(x as int, y as int, width as int, height as int));
}

/// Whether a point lies in one of some areas.
pub open spec fn covered(areas: Seq<Area>, x: int, y: int) -> bool {
    exists|i: int|
        0 <= i < areas.len() && (#[trigger] areas[i]).x <= x < areas[i].x + areas[i].width
            && areas[i].y <= y < areas[i].y + areas[i].height
}

/// What has happened since the drawing of a frame was last asked about.
#[derive(Debug, Clone, Copy, PartialEq, Eq, Structural)]
pub enum RenderEvent {
    /// The frame is to be shown.
    Begin,
    /// The icons were loaded at a size, or could not be.
    IconsLoaded { side: Option<i32> },
    /// Fresh storage is there.
    Allocated { slot_capacity: i32 },
    /// The picture is in the slot.
    Drawn,
}

/// What the drawing of a frame needs next.
#[derive(Debug)]
pub enum RenderStep {
    /// Nothing: the frame stays as it is.
    Keep,
    /// The icons have to be loaded, this many pixels wide and high.
    LoadIcons { side: i32 },
    /// Fresh storage of `total` bytes is needed; the old one is given up.
    Allocate { slot_capacity: i32, total: i32 },
    /// The picture goes into a slot. If `create` is set, a new buffer has to be
    /// carved from it first.
    Draw { slot: usize, create: bool, picture: Picture },
    /// Nothing more: the frame was drawn.
    Finished,
}

/// A [`RenderStep`] by its contents.
pub enum RenderStepView {
    Keep,
    LoadIcons { side: i32 },
    Allocate { slot_capacity: i32, total: i32 },
    Draw { slot: usize, create: bool, picture: Seq<PaintView> },
    Finished,
}

impl View for RenderStep {
    type V = RenderStepView;

    open spec fn view(&self) -> RenderStepView {
        match *self {
            RenderStep::Keep => RenderStepView::Keep,
            RenderStep::LoadIcons { side } => RenderStepView::LoadIcons { side },
            RenderStep::Allocate { slot_capacity, total } => RenderStepView::Allocate {
                slot_capacity,
                total,
            },
            RenderStep::Draw { slot, create, picture } => RenderStepView::Draw {
                slot,
                create,
                picture: picture@,
            },
            RenderStep::Finished => RenderStepView::Finished,
        }
    }
}

impl TitlebarView {
    /// With the size of a frame around contents of some size. The images are
    /// given up if the size in pixels changes.
    pub open spec fn sized(
        self,
        content_width: i32,
        content_height: i32,
        scale: i32,
        ui: UiConfigView,
        frame_style: FrameStyle,
    ) -> TitlebarView {
        let s = larger(scale as int, 1) as i32;
        let border = spec_border_width(ui.border_width, frame_style);
        let title = spec_titlebar_height(ui.font_size);
        let width = sat(content_width + border * 2);
        let height = sat(content_height + title + border * 2);
        let buffer_width = sat(width * s);
        let buffer_height = sat(height * s);
        let t = TitlebarView { border_width: border, titlebar_height: title, ..self };
        if content_width <= 0 || content_height <= 0 {
            self
        } else if buffer_width <= 0 || buffer_height <= 0 {
            t
        } else if self.width != width || self.height != height || self.buffer_width
            != buffer_width || self.buffer_height != buffer_height || self.scale != s {
            TitlebarView {
                width,
                height,
                buffer_width,
                buffer_height,
                content_width,
                content_height,
                scale: s,
                icon_cache: None,
                button_cache: None,
                dirty: true,
                needs_full_damage: true,
                ..t
            }
        } else {
            TitlebarView { content_width, content_height, ..t }
        }
    }

    /// Whether what the frame shows differs from what it showed last.
    pub open spec fn differs(self, title: Option<Seq<char>>, look: TitlebarLook) -> bool {
        ||| self.last_title != title
        ||| self.last_is_active != look.is_active
        ||| self.last_is_maximized != look.is_maximized
        ||| self.last_show_minimize != look.show_minimize
        ||| self.last_show_maximize != look.show_maximize
        ||| self.last_frame_style != look.frame_style
        ||| self.last_hovered != look.hovered
        ||| self.last_left_down != look.left_down
    }

    /// With what the frame is to show.
    pub open spec fn showing(self, title: Option<Seq<char>>, look: TitlebarLook) -> TitlebarView {
        TitlebarView {
            last_title: title,
            last_is_active: look.is_active,
            last_is_maximized: look.is_maximized,
            last_show_minimize: look.show_minimize,
            last_show_maximize: look.show_maximize,
            last_frame_style: look.frame_style,
            last_hovered: look.hovered,
            last_left_down: look.left_down,
            dirty: self.dirty || self.differs(title, look),
            ..self
        }
    }

    /// Side of a button in buffer pixels.
    pub open spec fn button_px(self, ui: UiConfigView) -> int {
        spec_titlebar_height(ui.font_size) * larger(self.scale as int, 1)
    }

    /// With the images of the buttons, where they can be kept.
    pub open spec fn with_buttons(self, ui: UiConfigView) -> TitlebarView {
        let size = self.button_px(ui);
        TitlebarView {
            button_cache: if fits(size, size) {
                Some(button_images(ui, spec_titlebar_height(ui.font_size), size as i32))
            } else {
                None
            },
            ..self
        }
    }

    /// Whether the images of the buttons are missing or of another theme.
    pub open spec fn buttons_stale(self, ui: UiConfigView) -> bool {
        match self.button_cache {
            Some(cache) => cache.size_px != self.button_px(ui) || cache.titlebar_height
                != spec_titlebar_height(ui.font_size) || cache.key != (ButtonCacheKey {
                button_bg: ui.button_bg,
                button_highlight: ui.button_highlight,
                button_shadow: ui.button_shadow,
            }),
            None => true,
        }
    }

    /// With the images of the buttons in the colours of a theme.
    #[verifier::opaque]
    pub open spec fn with_fresh_buttons(self, ui: UiConfigView) -> TitlebarView {
        if self.buttons_stale(ui) {
            self.with_buttons(ui)
        } else {
            self
        }
    }

    /// Side of the icons in buffer pixels, if they have to be loaded.
    #[verifier::opaque]
    pub open spec fn icons_wanted(self, ui: UiConfigView) -> Option<i32> {
        let side = sat(
            icon_size(spec_titlebar_height(ui.font_size)) * larger(self.scale as int, 1),
        );
        if self.icon_cache == Some(side) {
            None
        } else {
            Some(side)
        }
    }

    /// Gets a slot ready and draws into it, if there is a frame to draw.
    #[verifier::opaque]
    pub open spec fn slot_step(
        self,
        title: Option<Seq<char>>,
        look: TitlebarLook,
        ui: UiConfigView,
    ) -> (TitlebarView, RenderStepView) {
        let stride = (self.buffer_width * 4) as i32;
        let t = TitlebarView {
            shm_pool: self.shm_pool.prepared(self.buffer_width, self.buffer_height, stride),
            ..self
        };
        if !self.drawable() {
            (self, RenderStepView::Keep)
        } else {
            match self.shm_pool.preparation(self.buffer_width, self.buffer_height, stride) {
                Preparation::Refused => (self, RenderStepView::Keep),
                Preparation::Allocate { slot_capacity, total } => (
                    t,
                    RenderStepView::Allocate { slot_capacity, total },
                ),
                Preparation::Ready { slot, create } => (
                    t,
                    RenderStepView::Draw {
                        slot,
                        create,
                        picture: t.picture(title, look, ui, t.icon_cache is Some),
                    },
                ),
            }
        }
    }

    /// One step of drawing the frame: a frame that is not dirty is left alone;
    /// otherwise icons, buttons and a slot are got ready, in this order, and the
    /// frame is drawn into the slot.
    #[verifier::opaque]
    pub open spec fn render_step(
        self,
        title: Option<Seq<char>>,
        look: TitlebarLook,
        ui: UiConfigView,
        event: RenderEvent,
    ) -> (TitlebarView, RenderStepView) {
        match event {
            RenderEvent::Begin => {
                let t = self.showing(title, look);
                if !t.dirty {
                    (t, RenderStepView::Keep)
                } else {
                    match t.icons_wanted(ui) {
                        Some(side) => (t, RenderStepView::LoadIcons { side }),
                        None => t.with_fresh_buttons(ui).slot_step(title, look, ui),
                    }
                }
            },
            RenderEvent::IconsLoaded { side } => (TitlebarView {
                icon_cache: side,
                ..self
            }).with_fresh_buttons(ui).slot_step(title, look, ui),
            RenderEvent::Allocated { slot_capacity } => (TitlebarView {
                shm_pool: self.shm_pool.supplied(slot_capacity),
                ..self
            }).slot_step(title, look, ui),
            RenderEvent::Drawn => (
                TitlebarView { dirty: false, ..self },
                RenderStepView::Finished,
            ),
        }
    }

    /// All steps of drawing the frame once, given the size at which icons could
    /// be loaded and whether there was storage to be had; tells whether the
    /// frame was drawn.
    pub open spec fn rendered(
        self,
        title: Option<Seq<char>>,
        look: TitlebarLook,
        ui: UiConfigView,
        icons: Option<i32>,
        storage: bool,
    ) -> (TitlebarView, bool) {
        let (t, begun) = self.render_step(title, look, ui, RenderEvent::Begin);
        let (t, loaded) = match begun {
            RenderStepView::LoadIcons { .. } => t.render_step(
                title,
                look,
                ui,
                RenderEvent::IconsLoaded { side: icons },
            ),
            _ => (t, begun),
        };
        let (t, ready) = match loaded {
            RenderStepView::Allocate { slot_capacity, .. } => if storage {
                t.render_step(title, look, ui, RenderEvent::Allocated { slot_capacity })
            } else {
                (t, RenderStepView::Keep)
            },
            _ => (t, loaded),
        };
        match ready {
            RenderStepView::Draw { .. } => (
                t.render_step(title, look, ui, RenderEvent::Drawn).0,
                true,
            ),
            _ => (t, false),
        }
    }

    /// What the frame is drawn from.
    pub open spec fn frame_params(self, look: TitlebarLook, ui: UiConfigView) -> BaseFrameParams {
        BaseFrameParams {
            is_active: look.is_active,
            content_width: self.content_width,
            titlebar_height: spec_titlebar_height(ui.font_size),
            buffer_width: self.buffer_width,
            buffer_height: self.buffer_height,
            height: self.height,
            scale: larger(self.scale as int, 1) as i32,
            show_minimize: look.show_minimize,
            show_maximize: look.show_maximize,
            frame_style: look.frame_style,
        }
    }

    /// The whole frame.
    #[verifier::opaque]
    pub open spec fn picture(
        self,
        title: Option<Seq<char>>,
        look: TitlebarLook,
        ui: UiConfigView,
        icons_ready: bool,
    ) -> Seq<PaintView> {
        let params = self.frame_params(look, ui);
        params.base_picture(ui) + params.title_contents(
            ui,
            title,
            look,
            self.button_cache is Some,
            icons_ready,
        )
    }

    /// Whether there is a frame to draw.
    pub open spec fn drawable(self) -> bool {
        &&& self.width > 0
        &&& self.height > 0
        &&& self.buffer_width > 0
        &&& self.buffer_height > 0
        &&& self.content_width > 0
        &&& self.content_height > 0
        &&& self.buffer_width * 4 <= i32::MAX
    }

    /// Left edge of the part inside the frame, in buffer pixels.
    pub open spec fn cut_x0(self) -> int {
        larger(self.border_width as int, 0) * larger(self.scale as int, 1)
    }

    /// Top edge of the part inside the frame. The line between the titlebar
    /// and the contents belongs to the frame.
    pub open spec fn cut_y0(self) -> int {
        (larger(self.border_width as int, 0) + larger(self.titlebar_height as int, 0) + 1)
            * larger(self.scale as int, 1)
    }

    /// Right edge of the part inside the frame.
    pub open spec fn cut_x1(self) -> int {
        self.buffer_width - self.cut_x0()
    }

    /// Bottom edge of the part inside the frame.
    pub open spec fn cut_y1(self) -> int {
        self.buffer_height - self.cut_x0()
    }

    /// The whole buffer.
    pub open spec fn whole(self) -> Area {
        Area { x: 0, y: 0, width: self.buffer_width, height: self.buffer_height }
    }

    /// The frame without the transparent part inside it.
    pub open spec fn frame_areas(self) -> Seq<Area> {
        let x0 = self.cut_x0();
        let y0 = self.cut_y0();
        let x1 = self.cut_x1();
        let y1 = self.cut_y1();
        if x1 <= x0 || y1 <= y0 {
            seq![self.whole()]
        } else {
            area_if(0, 0, self.buffer_width as int, y0) + area_if(
                0,
                y1,
                self.buffer_width as int,
                self.buffer_height - y1,
            ) + area_if(0, y0, x0, y1 - y0) + area_if(x1, y0, self.buffer_width - x1, y1 - y0)
        }
    }

    /// With its buffer attached.
    pub open spec fn committed(self) -> TitlebarView {
        TitlebarView {
            needs_full_damage: false,
            shm_pool: self.shm_pool.attached(),
            mapped: true,
            ..self
        }
    }

    /// Without a buffer attached, so that it cannot be seen.
    pub open spec fn unmapped(self) -> TitlebarView {
        TitlebarView {
            mapped: false,
            dirty: true,
            needs_full_damage: true,
            last_title: None,
            last_is_active: false,
            last_is_maximized: false,
            last_hovered: None,
            last_left_down: false,
            ..self
        }
    }
}

impl Titlebar {
    /// True once the next commit() will find a buffer.
    pub fn is_ready(&self) -> (r: bool)
        ensures
            r == (self@.shm_pool.slot(self@.shm_pool.last_prepared).buffer is Some),
    {
        self.shm_pool.is_ready()
    }

    /// Record the geometry the next `draw()` will draw into; tells the scale
    /// that the surface has to be given. The actual slot is rotated/allocated
    /// lazily so a frame that turns out to be a no-op doesn't burn a new
    /// buffer.
    pub fn ensure_buffer(&mut self, content_width: i32, content_height: i32, scale: i32, ui: &UiConfig, frame_style: FrameStyle) -> (r: Option<i32>)
        ensures
            final(self)@ == old(self)@.sized(content_width, content_height, scale, ui@, frame_style),
            r matches Some(s) ==> s == final(self)@.scale && s == larger(scale as int, 1),
            r is None <==> (content_width <= 0 || content_height <= 0 || sat(
                sat(content_width + final(self)@.border_width * 2) * larger(scale as int, 1),
            ) <= 0 || sat(
                sat(
                    content_height + final(self)@.titlebar_height + final(self)@.border_width * 2,
                ) * larger(scale as int, 1),
            ) <= 0),
    {
        if content_width <= 0 || content_height <= 0 {
            return None;
        }
        let scale: i32 = max_i32(scale, 1);
        let title: i32 = titlebar_height(ui);
        let border: i32 = border_width(ui, frame_style);
        // Remember the frame geometry so commit() can damage just the painted
        // border ring + titlebar instead of the whole (mostly transparent) buffer.
        self.border_width = border;
        self.titlebar_height = title;
        let width: i32 = to_i32(content_width as i64 + border as i64 * 2);
        let height: i32 = to_i32(content_height as i64 + title as i64 + border as i64 * 2);
        let buffer_width: i32 = px(0, width as i64, scale);
        let buffer_height: i32 = px(0, height as i64, scale);
        if buffer_width <= 0 || buffer_height <= 0 {
            return None;
        }
        if self.width != width || self.height != height || self.buffer_width != buffer_width
            || self.buffer_height != buffer_height || self.scale != scale {
            self.width = width;
            self.height = height;
            self.buffer_width = buffer_width;
            self.buffer_height = buffer_height;
            self.scale = scale;
            self.icon_cache = None;
            self.button_cache = None;
            self.dirty = true;
            self.needs_full_damage = true;
        }
        self.content_width = content_width;
        self.content_height = content_height;
        Some(scale)
    }

    fn title_differs(&self, title: Option<&str>) -> (r: bool)
        ensures
            r == (self@.last_title != opt_str(title)),
    {
        match (&self.last_title, title) {
            (Some(last), Some(now)) => !same(last.as_str(), now),
            (None, None) => false,
            _ => true,
        }
    }

    fn state_differs(&self, title: Option<&str>, look: &TitlebarLook) -> (r: bool)
        ensures
            r == self@.differs(opt_str(title), *look),
    {
        self.title_differs(title) || self.last_is_active != look.is_active
            || self.last_is_maximized != look.is_maximized || self.last_show_minimize
            != look.show_minimize || self.last_show_maximize != look.show_maximize
            || self.last_frame_style != look.frame_style || self.last_hovered != look.hovered
            || self.last_left_down != look.left_down
    }

    fn note_title(&mut self, title: Option<&str>)
        ensures
            final(self)@ == (TitlebarView { last_title: opt_str(title), ..old(self)@ }),
    {
        if self.title_differs(title) {
            self.last_title = match title {
                Some(text) => Some(text.to_string()),
                None => None,
            };
        }
    }

    /// Note what the frame is to show; tells whether it has to be drawn
    fn note_state(&mut self, title: Option<&str>, look: &TitlebarLook) -> (dirty: bool)
        ensures
            final(self)@ == old(self)@.showing(opt_str(title), *look),
            dirty == final(self)@.dirty,
    {
        if self.state_differs(title, look) {
            self.note_title(title);
            self.last_is_active = look.is_active;
            self.last_is_maximized = look.is_maximized;
            self.last_show_minimize = look.show_minimize;
            self.last_show_maximize = look.show_maximize;
            self.last_frame_style = look.frame_style;
            self.last_hovered = look.hovered;
            self.last_left_down = look.left_down;
            self.dirty = true;
        }
        self.dirty
    }

    /// Side of the icons in buffer pixels, if they have to be loaded
    fn icons_to_load(&self, ui: &UiConfig) -> (r: Option<i32>)
        requires
            spec_titlebar_height(ui.font_size) >= 6,
        ensures
            r == self@.icons_wanted(ui@),
    {
        proof {
            reveal(TitlebarView::icons_wanted);
        }
        let side: i32 = px(
            0,
            icon_size_for_titlebar(titlebar_height(ui)) as i64,
            max_i32(self.scale, 1),
        );
        if self.icon_cache == Some(side) {
            None
        } else {
            Some(side)
        }
    }

    /// The icons were loaded at a size, or could not be
    fn icons_loaded(&mut self, side: Option<i32>)
        ensures
            final(self)@ == (TitlebarView { icon_cache: side, ..old(self)@ }),
            final(self).shm_pool == old(self).shm_pool,
    {
        self.icon_cache = side;
    }

    fn button_cache_key(ui: &UiConfig) -> (r: ButtonCacheKey)
        ensures
            r == (ButtonCacheKey {
                button_bg: ui@.button_bg,
                button_highlight: ui@.button_highlight,
                button_shadow: ui@.button_shadow,
            }),
    {
        ButtonCacheKey {
            button_bg: ui.button_bg,
            button_highlight: ui.button_highlight,
            button_shadow: ui.button_shadow,
        }
    }

    fn build_buttons(ui: &UiConfig, title: i32, size_px: i32) -> (r: ButtonCache)
        requires
            fits(size_px as int, size_px as int),
        ensures
            r@ == button_images(ui@, title, size_px),
    {
        let bg: u32 = rgba_to_argb(ui.button_bg);
        let light: u32 = rgba_to_argb(ui.button_highlight);
        let dark: u32 = rgba_to_argb(ui.button_shadow);
        let close_pressed_bg: u32 = rgba_to_argb(BUTTON_BG_PRESSED_LEFT);
        let r = ButtonCache {
            size_px,
            titlebar_height: title,
            key: Self::button_cache_key(ui),
            close_normal: build_button_fill(size_px, bg),
            close_pressed: build_button_fill(size_px, close_pressed_bg),
            hide_normal: build_button_bevel_cache(size_px, title, bg, light, dark, false),
            hide_pressed: build_button_bevel_cache(size_px, title, bg, light, dark, true),
            maximize_normal: build_button_bevel_cache(size_px, title, bg, light, dark, false),
            maximize_pressed: build_button_bevel_cache(size_px, title, bg, light, dark, true),
        };
        assert(r@ =~= button_images(ui@, title, size_px));
        r
    }

    /// Draw the images of the buttons unless they are there already
    pub fn ensure_button_cache(&mut self, ui: &UiConfig)
        ensures
            final(self)@ == old(self)@.with_fresh_buttons(ui@),
            final(self).shm_pool == old(self).shm_pool,
    {
        proof {
            reveal(TitlebarView::with_fresh_buttons);
        }
        let title: i32 = titlebar_height(ui);
        let scale: i32 = max_i32(self.scale, 1);
        assert(0 < title * scale <= 0x7fff_ffff * 0x7fff_ffff) by (nonlinear_arith)
            requires
                1 <= title <= 0x7fff_ffff,
                1 <= scale <= 0x7fff_ffff,
        ;
        let size: i64 = title as i64 * scale as i64;
        let key = Self::button_cache_key(ui);
        let stale: bool = match &self.button_cache {
            Some(cache) => cache.size_px as i64 != size || cache.titlebar_height != title
                || cache.key != key,
            None => true,
        };
        if stale {
            if crate::canoe::render::picture_fits(size, size) {
                assert(size <= size * size * 4) by (nonlinear_arith)
                    requires
                        size >= 1,
                ;
                self.button_cache = Some(Self::build_buttons(ui, title, size as i32));
            } else {
                self.button_cache = None;
            }
        }
    }

    /// Bytes of one row of the buffer, if there is a frame to draw
    fn stride(&self) -> (r: Option<i32>)
        ensures
            r == (if self@.drawable() {
                Some((self@.buffer_width * 4) as i32)
            } else {
                None
            }),
    {
        if self.width <= 0 || self.height <= 0 || self.buffer_width <= 0 || self.buffer_height <= 0
            || self.content_width <= 0 || self.content_height <= 0 {
            return None;
        }
        if self.buffer_width > i32::MAX / 4 {
            return None;
        }
        Some(self.buffer_width * 4)
    }

    /// What the frame looks like
    pub fn draw(&self, title: Option<&str>, look: &TitlebarLook, ui: &UiConfig, icons_ready: bool) -> (r: Picture)
        requires
            spec_titlebar_height(ui.font_size) >= 6,
        ensures
            r@ == self@.picture(opt_str(title), *look, ui@, icons_ready),
    {
        proof {
            reveal(TitlebarView::picture);
        }
        let params = BaseFrameParams {
            is_active: look.is_active,
            content_width: self.content_width,
            titlebar_height: titlebar_height(ui),
            buffer_width: self.buffer_width,
            buffer_height: self.buffer_height,
            height: self.height,
            scale: max_i32(self.scale, 1),
            show_minimize: look.show_minimize,
            show_maximize: look.show_maximize,
            frame_style: look.frame_style,
        };
        let kept: bool = self.button_cache.is_some();
        let mut picture = Picture::new();
        params.draw_base_frame(ui, &mut picture);
        params.draw_title_contents(ui, title, look, kept, icons_ready, &mut picture);
        assert(picture@ =~= self@.picture(opt_str(title), *look, ui@, icons_ready));
        picture
    }

    /// The frame was drawn
    fn drawn(&mut self)
        ensures
            final(self)@ == (TitlebarView { dirty: false, ..old(self)@ }),
            final(self).shm_pool == old(self).shm_pool,
    {
        self.dirty = false;
    }

    fn get_slot(&mut self, title: Option<&str>, look: &TitlebarLook, ui: &UiConfig) -> (r: RenderStep)
        requires
            old(self).shm_pool.wf(),
            spec_titlebar_height(ui.font_size) >= 6,
        ensures
            final(self).shm_pool.wf(),
            (final(self)@, r@) == old(self)@.slot_step(opt_str(title), *look, ui@),
            r matches RenderStep::Allocate { slot_capacity, .. } ==> 0 <= slot_capacity
                <= 0x3fff_ffff,
    {
        proof {
            reveal(TitlebarView::slot_step);
        }
        let stride: i32 = match self.stride() {
            Some(stride) => stride,
            None => {
                return RenderStep::Keep;
            },
        };
        let ghost before = self@;
        let preparation = self.shm_pool.prepare(self.buffer_width, self.buffer_height, stride);
        assert(self@ == TitlebarView {
            shm_pool: before.shm_pool.prepared(before.buffer_width, before.buffer_height, stride),
            ..before
        });
        match preparation {
            Preparation::Refused => RenderStep::Keep,
            Preparation::Allocate { slot_capacity, total } => RenderStep::Allocate {
                slot_capacity,
                total,
            },
            Preparation::Ready { slot, create } => {
                let picture = self.draw(title, look, ui, self.icon_cache.is_some());
                RenderStep::Draw { slot, create, picture }
            },
        }
    }

    fn storage_supplied(&mut self, slot_capacity: i32)
        requires
            old(self).shm_pool.wf(),
            0 <= slot_capacity <= 0x3fff_ffff,
        ensures
            final(self).shm_pool.wf(),
            final(self)@ == (TitlebarView {
                shm_pool: old(self)@.shm_pool.supplied(slot_capacity),
                ..old(self)@
            }),
    {
        self.shm_pool.allocated(slot_capacity);
    }

    fn get_buttons(&mut self, title: Option<&str>, look: &TitlebarLook, ui: &UiConfig) -> (r: RenderStep)
        requires
            old(self).shm_pool.wf(),
            spec_titlebar_height(ui.font_size) >= 6,
        ensures
            final(self).shm_pool.wf(),
            (final(self)@, r@) == old(self)@.with_fresh_buttons(ui@).slot_step(
                opt_str(title),
                *look,
                ui@,
            ),
            r matches RenderStep::Allocate { slot_capacity, .. } ==> 0 <= slot_capacity
                <= 0x3fff_ffff,
    {
        self.ensure_button_cache(ui);
        self.get_slot(title, look, ui)
    }

    fn begin(&mut self, title: Option<&str>, look: &TitlebarLook, ui: &UiConfig) -> (r: RenderStep)
        requires
            old(self).shm_pool.wf(),
            spec_titlebar_height(ui.font_size) >= 6,
        ensures
            final(self).shm_pool.wf(),
            (final(self)@, r@) == old(self)@.render_step(
                opt_str(title),
                *look,
                ui@,
                RenderEvent::Begin,
            ),
            r matches RenderStep::Allocate { slot_capacity, .. } ==> 0 <= slot_capacity
                <= 0x3fff_ffff,
    {
        proof {
            reveal(TitlebarView::render_step);
        }
        let dirty: bool = self.note_state(title, look);
        assert(self@.shm_pool == old(self)@.shm_pool);
        if !dirty {
            return RenderStep::Keep;
        }
        if let Some(side) = self.icons_to_load(ui) {
            return RenderStep::LoadIcons { side };
        }
        self.get_buttons(title, look, ui)
    }

    /// Render the titlebar with the given title and state: the caller does what
    /// the step says and comes back with the event that it leads to, until
    /// nothing is left to do.
    ///
    /// A frame that turns out to be unchanged takes no slot.
    #[verifier::spinoff_prover]
    pub fn render(&mut self, title: Option<&str>, look: &TitlebarLook, ui: &UiConfig, event: RenderEvent) -> (r: RenderStep)
        requires
            old(self).shm_pool.wf(),
            spec_titlebar_height(ui.font_size) >= 6,
            event matches RenderEvent::Allocated { slot_capacity } ==> 0 <= slot_capacity
                <= 0x3fff_ffff,
        ensures
            final(self).shm_pool.wf(),
            (final(self)@, r@) == old(self)@.render_step(opt_str(title), *look, ui@, event),
            r matches RenderStep::Allocate { slot_capacity, .. } ==> 0 <= slot_capacity
                <= 0x3fff_ffff,
    {
        proof {
            reveal(TitlebarView::render_step);
        }
        match event {
            RenderEvent::Begin => self.begin(title, look, ui),
            RenderEvent::IconsLoaded { side } => {
                self.icons_loaded(side);
                self.get_buttons(title, look, ui)
            },
            RenderEvent::Allocated { slot_capacity } => {
                self.storage_supplied(slot_capacity);
                self.get_slot(title, look, ui)
            },
            RenderEvent::Drawn => {
                self.drawn();
                RenderStep::Finished
            },
        }
    }

    /// The painted frame (border ring + titlebar), leaving the transparent
    /// content cut-out in the middle untouched
    pub fn damage_frame(&self) -> (r: Vec<Area>)
        ensures
            r@ == self@.frame_areas(),
    {
        let border: i64 = max_i32(self.border_width, 0) as i64;
        let title: i64 = max_i32(self.titlebar_height, 0) as i64;
        let scale: i64 = max_i32(self.scale, 1) as i64;
        assert(0 <= border * scale <= 0x4000_0000_0000_0000 && 0 <= (border + title + 1) * scale
            <= 0x7fff_ffff_ffff_ffff) by (nonlinear_arith)
            requires
                0 <= border <= 0x7fff_ffff,
                0 <= title <= 0x7fff_ffff,
                1 <= scale <= 0x7fff_ffff,
        ;

        // Transparent content cut-out in buffer pixels. The +1 keeps the row
        // separating the titlebar from the content inside the damaged top strip.
        let x0: i64 = border * scale;
        let y0: i64 = (border + title + 1) * scale;
        let w: i64 = self.buffer_width as i64;
        let h: i64 = self.buffer_height as i64;
        let x1: i64 = w - x0;
        let y1: i64 = h - x0;
        let mut areas: Vec<Area> = Vec::new();

        // Degenerate geometry (tiny window, missing borders): just damage it all.
        if x1 <= x0 || y1 <= y0 {
            areas.push(Area { x: 0, y: 0, width: self.buffer_width, height: self.buffer_height });
            assert(areas@ =~= self@.frame_areas());
            return areas;
        }
        push_area(&mut areas, 0, 0, w, y0);  // top border + titlebar
        push_area(&mut areas, 0, y1, w, h - y1);  // bottom border
        push_area(&mut areas, 0, y0, x0, y1 - y0);  // left border
        push_area(&mut areas, x1, y0, w - x1, y1 - y0);  // right border
        assert(areas@ =~= self@.frame_areas());
        areas
    }

    /// Attach the buffer; tells the areas that the compositor has to look at
    /// again, unless there is no buffer
    pub fn commit(&mut self) -> (r: Option<Vec<Area>>)
        requires
            old(self).shm_pool.wf(),
        ensures
            final(self).shm_pool.wf(),
            match r {
                Some(areas) => old(self)@.shm_pool.slot(
                    old(self)@.shm_pool.last_prepared,
                ).buffer is Some && final(self)@ == old(self)@.committed() && areas@ == (if old(
                    self,
                )@.needs_full_damage {
                    seq![old(self)@.whole()]
                } else {
                    old(self)@.frame_areas()
                }),
                None => old(self)@.shm_pool.slot(
                    old(self)@.shm_pool.last_prepared,
                ).buffer is None && final(self)@ == old(self)@,
            },
    {
        if !self.is_ready() {
            return None;
        }
        // The decoration surface spans the whole window, but only the
        // border ring and titlebar strip are ever painted -- the content
        // area in the middle stays transparent and never changes. After a
        // (re)alloc we damage everything so the compositor picks up the
        // whole new buffer; afterwards we damage just the frame, which keeps
        // focus changes cheap under fractional scaling where the compositor
        // has to resample every damaged pixel.
        let areas = if self.needs_full_damage {
            let mut areas: Vec<Area> = Vec::new();
            areas.push(Area { x: 0, y: 0, width: self.buffer_width, height: self.buffer_height });
            assert(areas@ =~= seq![self@.whole()]);
            areas
        } else {
            self.damage_frame()
        };
        self.needs_full_damage = false;
        // The compositor now owns this buffer until it sends a release
        // event; mark the slot off-limits for the next render.
        self.shm_pool.mark_attached();
        self.mapped = true;
        Some(areas)
    }

    /// Detach the buffer so the surface becomes invisible. Used when a window
    /// switches to client-side decoration at runtime.
    pub fn unmap(&mut self)
        ensures
            final(self)@ == old(self)@.unmapped(),
    {
        self.mapped = false;
        self.dirty = true;
        self.needs_full_damage = true;
        self.last_title = None;
        self.last_is_active = false;
        self.last_is_maximized = false;
        self.last_hovered = None;
        self.last_left_down = false;
    }

    /// Limit input to the frame (titlebar + borders), let content receive
    /// clicks: the area that takes input, and what is taken out of it
    pub fn update_input_region(&self, ui: &UiConfig, frame_style: FrameStyle) -> (r: Option<(Area, Option<Area>)>)
        ensures
            r == (if self@.width <= 0 || self@.height <= 0 {
                None
            } else {
                let border = spec_border_width(ui.border_width, frame_style);
                Some(
                    (
                        Area { x: 0, y: 0, width: self@.width, height: self@.height },
                        if self@.content_width > 0 && self@.content_height > 0 {
                            Some(
                                Area {
                                    x: border,
                                    y: sat(border + spec_titlebar_height(ui.font_size)),
                                    width: self@.content_width,
                                    height: self@.content_height,
                                },
                            )
                        } else {
                            None
                        },
                    ),
                )
            }),
    {
        if self.width <= 0 || self.height <= 0 {
            return None;
        }
        let whole = Area { x: 0, y: 0, width: self.width, height: self.height };
        if self.content_width > 0 && self.content_height > 0 {
            let border: i32 = border_width(ui, frame_style);
            let inner = Area {
                x: border,
                y: to_i32(border as i64 + titlebar_height(ui) as i64),
                width: self.content_width,
                height: self.content_height,
            };
            Some((whole, Some(inner)))
        } else {
            Some((whole, None))
        }
    }
}

/// The areas that are looked at again after a change of the frame are the
/// frame: together they hold every pixel of the buffer but those inside the
/// frame.
pub proof fn law_damage_is_the_frame(t: TitlebarView, x: int, y: int)
    requires
        0 <= x < t.buffer_width,
        0 <= y < t.buffer_height,
        t.cut_x0() < t.cut_x1(),
        t.cut_y0() < t.cut_y1(),
    ensures
        covered(t.frame_areas(), x, y) <==> !(t.cut_x0() <= x < t.cut_x1() && t.cut_y0() <= y
            < t.cut_y1()),
{
    let x0 = t.cut_x0();
    let y0 = t.cut_y0();
    let x1 = t.cut_x1();
    let y1 = t.cut_y1();
    let w = t.buffer_width as int;
    let h = t.buffer_height as int;
    assert(x0 >= 0) by (nonlinear_arith)
        requires
            x0 == larger(t.border_width as int, 0) * larger(t.scale as int, 1),
    ;
    assert(y0 >= 1) by (nonlinear_arith)
        requires
            y0 == (larger(t.border_width as int, 0) + larger(t.titlebar_height as int, 0) + 1)
                * larger(t.scale as int, 1),
    ;
    let areas = t.frame_areas();
    let top = area_if(0, 0, w, y0);
    let bottom = area_if(0, y1, w, h - y1);
    let left = area_if(0, y0, x0, y1 - y0);
    let right = area_if(x1, y0, w - x1, y1 - y0);
    assert(areas =~= top + bottom + left + right);
    if y < y0 {
        assert(areas[0] == top[0]);
    } else if y >= y1 {
        assert(areas[top.len() as int] == bottom[0]);
    } else if x < x0 {
        assert(areas[(top.len() + bottom.len()) as int] == left[0]);
    } else if x >= x1 {
        assert(areas[(top.len() + bottom.len() + left.len()) as int] == right[0]);
    }
}

/// Whether two frames differ only in their buffers and images, and in whether
/// they have to be drawn.
spec fn alike(a: TitlebarView, b: TitlebarView) -> bool {
    b == (TitlebarView {
        shm_pool: b.shm_pool,
        icon_cache: b.icon_cache,
        button_cache: b.button_cache,
        dirty: b.dirty,
        ..a
    })
}

proof fn lemma_slot_keeps_frame(
    t: TitlebarView,
    title: Option<Seq<char>>,
    look: TitlebarLook,
    ui: UiConfigView,
)
    ensures
        alike(t, t.slot_step(title, look, ui).0),
{
    reveal(TitlebarView::slot_step);
    let stride = (t.buffer_width * 4) as i32;
    let pool = t.shm_pool.prepared(t.buffer_width, t.buffer_height, stride);
    assert(alike(t, TitlebarView { shm_pool: pool, ..t }));
}

proof fn lemma_buttons_keep_frame(t: TitlebarView, ui: UiConfigView)
    ensures
        alike(t, t.with_fresh_buttons(ui)),
{
    reveal(TitlebarView::with_fresh_buttons);
    let images = t.with_buttons(ui).button_cache;
    assert(t.with_buttons(ui) == TitlebarView { button_cache: images, ..t });
}

proof fn lemma_step_keeps_frame(
    t: TitlebarView,
    title: Option<Seq<char>>,
    look: TitlebarLook,
    ui: UiConfigView,
    event: RenderEvent,
)
    ensures
        event is Begin ==> alike(
            t.showing(title, look),
            t.render_step(title, look, ui, event).0,
        ),
        event !is Begin ==> alike(t, t.render_step(title, look, ui, event).0),
        event is Drawn ==> !t.render_step(title, look, ui, event).0.dirty,
{
    reveal(TitlebarView::render_step);
    match event {
        RenderEvent::Begin => {
            let a = t.showing(title, look);
            lemma_buttons_keep_frame(a, ui);
            lemma_slot_keeps_frame(a.with_fresh_buttons(ui), title, look, ui);
        },
        RenderEvent::IconsLoaded { side } => {
            let a = TitlebarView { icon_cache: side, ..t };
            lemma_buttons_keep_frame(a, ui);
            lemma_slot_keeps_frame(a.with_fresh_buttons(ui), title, look, ui);
        },
        RenderEvent::Allocated { slot_capacity } => {
            let a = TitlebarView { shm_pool: t.shm_pool.supplied(slot_capacity), ..t };
            lemma_slot_keeps_frame(a, title, look, ui);
        },
        RenderEvent::Drawn => {},
    }
}

#[verifier::spinoff_prover]
proof fn lemma_rendering_keeps_frame(
    t: TitlebarView,
    title: Option<Seq<char>>,
    look: TitlebarLook,
    ui: UiConfigView,
    icons: Option<i32>,
    storage: bool,
)
    ensures
        alike(t.showing(title, look), t.rendered(title, look, ui, icons, storage).0),
        t.rendered(title, look, ui, icons, storage).1 ==> !t.rendered(
            title,
            look,
            ui,
            icons,
            storage,
        ).0.dirty,
{
    let (a, begun) = t.render_step(title, look, ui, RenderEvent::Begin);
    lemma_step_keeps_frame(t, title, look, ui, RenderEvent::Begin);
    let (b, loaded) = match begun {
        RenderStepView::LoadIcons { .. } => a.render_step(
            title,
            look,
            ui,
            RenderEvent::IconsLoaded { side: icons },
        ),
        _ => (a, begun),
    };
    lemma_step_keeps_frame(a, title, look, ui, RenderEvent::IconsLoaded { side: icons });
    let (c, ready) = match loaded {
        RenderStepView::Allocate { slot_capacity, .. } => if storage {
            b.render_step(title, look, ui, RenderEvent::Allocated { slot_capacity })
        } else {
            (b, RenderStepView::Keep)
        },
        _ => (b, loaded),
    };
    if let RenderStepView::Allocate { slot_capacity, .. } = loaded {
        lemma_step_keeps_frame(b, title, look, ui, RenderEvent::Allocated { slot_capacity });
    }
    lemma_step_keeps_frame(c, title, look, ui, RenderEvent::Drawn);
}

/// A frame that has been drawn is not drawn again for the same title and state:
/// nothing is got ready, no slot is taken, and the frame stays what it was. This
/// holds of whatever the frame has become since, as long as it still shows what
/// it showed and nothing made it dirty.
pub proof fn law_unchanged_frame_is_not_drawn_again(
    t: TitlebarView,
    u: TitlebarView,
    title: Option<Seq<char>>,
    look: TitlebarLook,
    ui: UiConfigView,
    icons: Option<i32>,
    storage: bool,
    later_ui: UiConfigView,
    later_icons: Option<i32>,
    later_storage: bool,
)
    requires
        t.rendered(title, look, ui, icons, storage).1,
        !u.dirty,
        ({
            let drawn = t.rendered(title, look, ui, icons, storage).0;
            &&& u.last_title == drawn.last_title
            &&& u.last_is_active == drawn.last_is_active
            &&& u.last_is_maximized == drawn.last_is_maximized
            &&& u.last_show_minimize == drawn.last_show_minimize
            &&& u.last_show_maximize == drawn.last_show_maximize
            &&& u.last_frame_style == drawn.last_frame_style
            &&& u.last_hovered == drawn.last_hovered
            &&& u.last_left_down == drawn.last_left_down
        }),
    ensures
        !t.rendered(title, look, ui, icons, storage).0.dirty,
        u.render_step(title, look, later_ui, RenderEvent::Begin) == (u, RenderStepView::Keep),
        u.rendered(title, look, later_ui, later_icons, later_storage) == (u, false),
{
    lemma_rendering_keeps_frame(t, title, look, ui, icons, storage);
    assert(!u.differs(title, look));
    assert(u.showing(title, look) == u);
    reveal(TitlebarView::render_step);
}

/// A whole second round changes nothing: after a frame was sized, drawn and
/// committed and the compositor gave some buffer back, taking the same size and
/// rendering the same title and state leaves everything as it is.
#[verifier::spinoff_prover]
pub proof fn law_second_round_changes_nothing(
    t: TitlebarView,
    content_width: i32,
    content_height: i32,
    scale: i32,
    title: Option<Seq<char>>,
    look: TitlebarLook,
    ui: UiConfigView,
    icons: Option<i32>,
    storage: bool,
    released: u64,
    later_icons: Option<i32>,
    later_storage: bool,
)
    requires
        t.sized(content_width, content_height, scale, ui, look.frame_style).rendered(
            title,
            look,
            ui,
            icons,
            storage,
        ).1,
    ensures
        ({
            let s = t.sized(content_width, content_height, scale, ui, look.frame_style);
            let shown = s.rendered(title, look, ui, icons, storage).0.committed();
            let u = TitlebarView { shm_pool: shown.shm_pool.released(released), ..shown };
            &&& u.sized(content_width, content_height, scale, ui, look.frame_style) == u
            &&& u.rendered(title, look, ui, later_icons, later_storage) == (u, false)
        }),
{
    let s = t.sized(content_width, content_height, scale, ui, look.frame_style);
    let drawn = s.rendered(title, look, ui, icons, storage).0;
    let shown = drawn.committed();
    let u = TitlebarView { shm_pool: shown.shm_pool.released(released), ..shown };
    lemma_rendering_keeps_frame(s, title, look, ui, icons, storage);
    law_unchanged_frame_is_not_drawn_again(
        s,
        u,
        title,
        look,
        ui,
        icons,
        storage,
        ui,
        later_icons,
        later_storage,
    );
}

/// Taking the same size again changes nothing.
pub proof fn law_same_size_changes_nothing(
    t: TitlebarView,
    content_width: i32,
    content_height: i32,
    scale: i32,
    ui: UiConfigView,
    frame_style: FrameStyle,
)
    ensures
        t.sized(content_width, content_height, scale, ui, frame_style).sized(
            content_width,
            content_height,
            scale,
            ui,
            frame_style,
        ) == t.sized(content_width, content_height, scale, ui, frame_style),
{
}

} // verus!
