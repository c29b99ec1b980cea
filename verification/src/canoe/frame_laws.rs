//! What the frame around a window shows.

use vstd::prelude::*;
use crate::canoe::render::{
    argb_of, fill, law_fill_touches_only_its_area, Paint, PaintView, RendererView,
    TitlebarIcon,
};
use crate::canoe::titlebar::{
    spec_button_rects, Rect, TitlebarButton, TitlebarButtons,
};
use crate::canoe::titlebar_picture::{bevel, border_layer, caret, BaseFrameParams, TitlebarLook};
use crate::config::UiConfigView;

verus! {

/// The colour that a step of drawing fills a rectangle with.
pub open spec fn fill_color(paint: PaintView) -> Option<u32> {
    match paint {
        PaintView::Plain(Paint::Fill { area, argb }) => Some(argb),
        _ => None,
    }
}

/// The titlebar of the focused window has the background, the text and the outline for active
/// windows, that of any other one those for inactive windows. It shows the title.
pub proof fn law_frame_has_the_colors_of_its_state(
    frame: BaseFrameParams,
    ui: UiConfigView,
    title: Seq<char>,
    buttons: TitlebarButtons,
)
    requires
        frame.title_height(ui) > 0,
        frame.scale > 0,
        frame.buffer_width > 0,
        frame.buffer_height > 0,
        title.len() > 0,
        frame.text_width(ui, buttons) > 0,
    ensures
        ({
            let background = fill_color(frame.title_picture(ui)[0]);
            let outline = fill_color(frame.border_picture(ui)[0]);
            let text = frame.text_picture(ui, Some(title), buttons);
            &&& frame.is_active ==> background == Some(argb_of(ui.titlebar_bg_active)) && outline
                == Some(argb_of(ui.border_active.outer))
            &&& !frame.is_active ==> background == Some(argb_of(ui.titlebar_bg_inactive))
                && outline == Some(argb_of(ui.border_inactive.outer))
            &&& text.len() == 1
            &&& text[0] matches PaintView::Text { text: shown, argb, .. } && shown == title && argb
                == (if frame.is_active {
                argb_of(ui.titlebar_text_active)
            } else {
                argb_of(ui.titlebar_text_inactive)
            })
        }),
{
    reveal(BaseFrameParams::text_picture);
    assert(frame.pixels(1) == frame.scale) by {
        assert(1 * frame.scale == frame.scale);
    }
}

/// The title has the room between the close button and the button next to it on the other side, and
/// leaves both free.
pub proof fn law_title_stays_between_the_buttons(frame: BaseFrameParams, ui: UiConfigView)
    requires
        frame.titlebar_height >= 1,
        frame.content_width >= frame.titlebar_height * 3 + 1,
        ui.font_size.half >= 0,
    ensures
        ({
            let buttons = spec_button_rects(
                frame.content_width,
                frame.titlebar_height,
                frame.show_minimize,
                frame.show_maximize,
            );
            let start = frame.text_start(buttons);
            let end = start + frame.text_width(ui, buttons);
            &&& start == frame.titlebar_height + 1
            &&& frame.text_width(ui, buttons) > 0 ==> {
                &&& frame.show_maximize && frame.show_minimize ==> end + 1 + ui.font_size.half
                    == frame.content_width - 2 * frame.titlebar_height - 1
                &&& frame.show_maximize != frame.show_minimize ==> end + 1 + ui.font_size.half
                    == frame.content_width - frame.titlebar_height
                &&& end <= frame.content_width
            }
        }),
{
}

/// Each button shows its own sign: a cross to close, a bar to minimize, a box to maximize, and two
/// of them to undo that. The sign stands in the middle of the button.
pub proof fn law_buttons_show_their_signs(
    frame: BaseFrameParams,
    ui: UiConfigView,
    rect: Rect,
    is_maximized: bool,
)
    requires
        frame.scale == 1,
        0 <= frame.border(ui) <= 10000,
        0 <= rect.x <= 100_000,
        0 <= rect.y <= 100_000,
        11 <= frame.titlebar_height <= 10000,
        rect.width == frame.titlebar_height,
        rect.height == frame.titlebar_height,
    ensures
        ({
            let sign = |button: TitlebarButton, pressed: bool|
                frame.sign_picture(ui, button, rect, pressed, is_maximized, true);
            let at = |icon: TitlebarIcon, offset: int|
                seq![
                    PaintView::Plain(
                        Paint::Icon {
                            icon,
                            x: (frame.border(ui) + rect.x + 2 + offset) as i32,
                            y: (frame.border(ui) + rect.y + 2 + offset) as i32,
                        },
                    ),
                ];
            &&& sign(TitlebarButton::Close, false) == at(TitlebarIcon::Close, 0)
            &&& sign(TitlebarButton::Close, true) == at(TitlebarIcon::Close, 0)
            &&& sign(TitlebarButton::Hide, false) == at(TitlebarIcon::Minimize, 0)
            &&& sign(TitlebarButton::Hide, true) == at(TitlebarIcon::Minimize, 1)
            &&& !is_maximized ==> sign(TitlebarButton::Maximize, false) == at(
                TitlebarIcon::Maximize,
                0,
            )
            &&& is_maximized ==> sign(TitlebarButton::Maximize, false) == at(
                TitlebarIcon::Unmaximize,
                0,
            )
        }),
{
    let b = frame.border(ui);
    assert((b + rect.x + 2) * 1 == b + rect.x + 2 && (b + rect.y + 2) * 1 == b + rect.y + 2);
}

/// A button looks pressed exactly while the left button is down and the pointer is on it.
pub proof fn law_button_is_pressed_below_the_pointer(look: TitlebarLook, button: TitlebarButton)
    ensures
        look.presses(button) <==> look.left_down && look.hovered == Some(button),
{
}

/// A button that stands out is bright at its upper and left edge and dark at its lower and right
/// edge; one that is pressed is dark where the other one is bright.
pub proof fn law_buttons_stand_out_until_pressed(
    x: int,
    y: int,
    size: int,
    bg: u32,
    highlight: u32,
    shadow: u32,
    titlebar_height: i32,
)
    requires
        size >= 3,
        titlebar_height >= 1,
    ensures
        ({
            let out = bevel(x, y, size, bg, highlight, shadow, false, titlebar_height);
            let pressed = bevel(x, y, size, bg, highlight, shadow, true, titlebar_height);
            &&& fill_color(out[0]) == Some(bg) && fill_color(pressed[0]) == Some(bg)
            &&& fill_color(out[1]) == Some(highlight) && fill_color(out[2]) == Some(highlight)
            &&& fill_color(pressed[1]) == Some(shadow) && fill_color(pressed[2]) == Some(shadow)
            &&& fill_color(out[out.len() - 1]) == Some(shadow)
            &&& fill_color(out[out.len() - 2]) == Some(shadow)
            &&& pressed.len() == 3
        }),
{
}

/// The sign that points up is one unit wide at the top and widest at the bottom, the one that points
/// down the other way round.
pub proof fn law_carets_point_up_or_down(mid_x: int, top_y: int, span: int, u: int, argb: u32)
    requires
        span >= 1,
        u >= 1,
    ensures
        ({
            let up = caret(mid_x, top_y, span, u, false, argb);
            let down = caret(mid_x, top_y, span, u, true, argb);
            &&& up.len() == span + 1 && down.len() == span + 1
            &&& up[0] == fill(mid_x, top_y, u, u, argb)
            &&& down[span] == fill(mid_x, top_y + span * u, u, u, argb)
            &&& up[span] == fill(mid_x - span * u, top_y + span * u, u + span * 2 * u, u, argb)
            &&& down[0] == fill(mid_x - span * u, top_y, u + span * 2 * u, u, argb)
        }),
{
    assert(0 * u == 0 && 0 * 2 * u == 0);
}

/// A layer of the border colours exactly the pixels that are no further from the edge of the
/// rectangle it surrounds than it is thick.
pub proof fn law_border_layer_is_a_ring(
    r: RendererView,
    offset: int,
    thickness: int,
    rgba: u32,
    px: int,
    py: int,
)
    requires
        r.wf(),
        0 <= px < r.width,
        0 <= py < r.height,
        0 <= offset,
        0 < thickness,
        offset * 2 + thickness * 2 <= r.width <= i32::MAX,
        offset * 2 + thickness * 2 <= r.height <= i32::MAX,
    ensures
        ({
            let ring = offset <= px < r.width - offset && offset <= py < r.height - offset && (px
                < offset + thickness || px >= r.width - offset - thickness || py < offset + thickness
                || py >= r.height - offset - thickness);
            let after = r.with_picture(border_layer(r.width, r.height, offset, thickness, rgba));
            &&& ring ==> after.at(px, py) == argb_of(rgba)
            &&& !ring ==> after.at(px, py) == r.at(px, py)
        }),
{
    reveal_with_fuel(RendererView::with_picture, 5);
    let argb = argb_of(rgba);
    let w = r.width - offset * 2;
    let h = r.height - offset * 2;
    let t = thickness;
    let p = border_layer(r.width, r.height, offset, thickness, rgba);
    let a = fill(offset, offset, w, t, argb);
    let b = fill(offset, offset + h - t, w, t, argb);
    let c = fill(offset, offset + t, t, h - t * 2, argb);
    let d = fill(offset + w - t, offset + t, t, h - t * 2, argb);
    assert(p =~= seq![a, b, c, d]);
    let r1 = r.painted(a);
    let r2 = r1.painted(b);
    let r3 = r2.painted(c);
    let r4 = r3.painted(d);
    law_fill_touches_only_its_area(r, offset, offset, w, t, argb, px, py);
    law_fill_touches_only_its_area(r1, offset, offset + h - t, w, t, argb, px, py);
    law_fill_touches_only_its_area(r2, offset, offset + t, t, h - t * 2, argb, px, py);
    law_fill_touches_only_its_area(r3, offset + w - t, offset + t, t, h - t * 2, argb, px, py);
    assert(p.drop_last().drop_last().drop_last().drop_last() =~= Seq::<PaintView>::empty());
    assert(p.drop_last().drop_last().drop_last() =~= seq![a]);
    assert(p.drop_last().drop_last() =~= seq![a, b]);
    assert(p.drop_last() =~= seq![a, b, c]);
    assert(r.with_picture(seq![a]) == r1);
    assert(r.with_picture(seq![a, b]) == r2);
    assert(r.with_picture(seq![a, b, c]) == r3);
    assert(r.with_picture(p) == r4);
}

} // verus!
