use canoe::canoe::render::{rgba_to_argb, Renderer};
use canoe::canoe::shadow::{draw_shadow_soft, shadow_shape, ShadowShape, WindowShadow};

/// The color at a distance into the band.
fn color_at(dist: f32, band: i32, color: u32) -> u32 {
    let s = band as f32;
    if dist <= 0.0 || dist > s {
        return 0;
    }
    let falloff = 1.0 - dist / s;
    let base_alpha = color & 0xff;
    let alpha = (base_alpha as f32 * falloff * falloff).round().clamp(0.0, 255.0) as u32;
    if alpha == 0 {
        return 0;
    }
    rgba_to_argb((color & 0xffffff00) | alpha)
}

/// The colors across a straight edge, from the outside in.
fn edge_table(shape: &ShadowShape, color: u32) -> Vec<u32> {
    (0..shape.band)
        .map(|i| color_at(shape.band as f32 - i as f32 - 0.5, shape.band, color))
        .collect()
}

/// The colors of a corner.
fn corner_table(shape: &ShadowShape, color: u32) -> Vec<u32> {
    let side = shape.band + shape.radius;
    (0..side * side)
        .map(|i| {
            let x = (i % side) as f32 + 0.5;
            let y = (i / side) as f32 + 0.5;
            color_at((x * x + y * y).sqrt() - shape.radius as f32, shape.band, color)
        })
        .collect()
}

/// Straightforward per-pixel rounded-rect SDF with the rect anchored at the
/// top-left of the buffer (inset by the band), matching how the real shadow
/// is positioned. The buffer may be taller than rect+band (slack at the
/// bottom). Used as an oracle for the 9-slice `draw_shadow_soft`.
#[allow(clippy::too_many_arguments)]
fn reference(
    buf: &mut [u32],
    w: i32,
    h: i32,
    frame_width: i32,
    frame_height: i32,
    shadow_size: i32,
    corner_radius: i32,
    shadow_color: u32,
    scale: i32,
) {
    let base_alpha = (shadow_color & 0xff) as u8;
    let s_px = shadow_size * scale;
    let fw_px = frame_width * scale;
    let fh_px = frame_height * scale;
    let base_rgb = shadow_color & 0xffffff00;
    let r_px = (corner_radius * scale).clamp(0, (fw_px.min(fh_px) / 2).max(0));
    // Rect anchored top-left at (s_px, s_px); centre derived from that.
    let cx = s_px as f32 + fw_px as f32 / 2.0;
    let cy = s_px as f32 + fh_px as f32 / 2.0;
    let hx = fw_px as f32 / 2.0;
    let hy = fh_px as f32 / 2.0;
    let r = r_px as f32;
    let s = s_px as f32;
    for y in 0..h {
        for x in 0..w {
            let dx = (x as f32 + 0.5) - cx;
            let dy = (y as f32 + 0.5) - cy;
            let qx = dx.abs() - (hx - r);
            let qy = dy.abs() - (hy - r);
            let mx = qx.max(0.0);
            let my = qy.max(0.0);
            let outside = (mx * mx + my * my).sqrt();
            let inside = qx.max(qy).min(0.0);
            let dist = outside + inside - r;
            if dist <= 0.0 || dist > s {
                continue;
            }
            let falloff = 1.0 - dist / s;
            let alpha =
                (base_alpha as f32 * falloff * falloff).round().clamp(0.0, 255.0) as u8;
            if alpha == 0 {
                continue;
            }
            buf[(y * w + x) as usize] = rgba_to_argb(base_rgb | alpha as u32);
        }
    }
}

#[test]
fn nine_slice_matches_reference() {
    for &color in &[0x00000033u32, 0x000000ccu32] {
        for &(fw, fh, ss, scale) in &[
            (80, 40, 20, 1),
            (120, 90, 20, 2),
            (50, 50, 10, 2),
            (200, 30, 15, 2),
            (41, 37, 20, 1), // odd frame dimensions
            (40, 40, 20, 1), // radius == half-extent (zero-width edges)
        ] {
            let cr = ss / 2;
            let w = (fw + ss * 2) * scale;
            // The buffer is sized from the full frame height while the shadow
            // is drawn for a shorter rect, leaving `extra` rows of slack
            // below. Test both the slack case and the exact-fit case
            // (extra == 0).
            for extra in [(ss / 2) * scale, 0] {
                let h = (fh + ss * 2) * scale + extra;
                let mut want = vec![0u32; (w * h) as usize];
                let mut r = Renderer::new(w, h).unwrap();
                let shape = shadow_shape(w, fw, fh, ss, cr, color, scale).unwrap();
                draw_shadow_soft(
                    &mut r,
                    &shape,
                    &edge_table(&shape, color),
                    &corner_table(&shape, color),
                );
                reference(&mut want, w, h, fw, fh, ss, cr, color, scale);

                let mut max_alpha_diff = 0i32;
                for i in 0..want.len() {
                    let ga = (r.pixels[i] >> 24) as i32;
                    let wa = (want[i] >> 24) as i32;
                    max_alpha_diff = max_alpha_diff.max((ga - wa).abs());
                }
                // <=1 absorbs only float-rounding between the two ways of
                // computing the same distance; geometry must match exactly.
                assert!(
                    max_alpha_diff <= 1,
                    "color={color:#x} fw={fw} fh={fh} ss={ss} scale={scale} extra={extra}: max alpha diff {max_alpha_diff}",
                );
            }
        }
    }
}

fn drawn(fw: i32, fh: i32, ss: i32) -> (Renderer, i32, i32) {
    let (w, h) = (fw + ss * 2, fh + ss * 2);
    let mut renderer = Renderer::new(w, h).unwrap();
    let shape = shadow_shape(w, fw, fh, ss, ss / 2, 0x112233ff, 1).unwrap();
    draw_shadow_soft(
        &mut renderer,
        &shape,
        &edge_table(&shape, 0x112233ff),
        &corner_table(&shape, 0x112233ff),
    );
    (renderer, w, h)
}

#[test]
fn shadow_is_symmetric() {
    let (renderer, w, h) = drawn(33, 22, 8);
    let at = |x: i32, y: i32| renderer.pixels[(y * w + x) as usize];
    for y in 0..h {
        for x in 0..w {
            assert_eq!(at(x, y), at(w - 1 - x, y));
            assert_eq!(at(x, y), at(x, h - 1 - y));
        }
    }
}

#[test]
fn shadow_stays_outside_its_frame() {
    let (renderer, w, h) = drawn(33, 22, 8);
    let mut outside = 0;
    for y in 0..h {
        for x in 0..w {
            let within = x >= 8 + 4 && x < w - 8 - 4 && y >= 8 && y < h - 8;
            if within {
                assert_eq!(renderer.pixels[(y * w + x) as usize], 0);
            } else if renderer.pixels[(y * w + x) as usize] != 0 {
                outside += 1;
            }
        }
    }
    assert!(outside > 0);
}

#[test]
fn no_size_or_no_alpha_means_no_shadow() {
    assert!(shadow_shape(80, 80, 40, 0, 0, 0x000000ff, 1).is_none());
    assert!(shadow_shape(120, 80, 40, 20, 10, 0x11223300, 1).is_none());
}

#[test]
fn the_same_shadow_is_drawn_once() {
    let mut shadow = WindowShadow::new(4, 5);
    let plan = shadow.ensure_buffer(80, 40, 20, 2).expect("a buffer is missing");
    assert_eq!((plan.width, plan.height), (240, 160));
    shadow.buffer_made();
    assert!(shadow.ensure_buffer(80, 40, 20, 2).is_none());
    assert!(shadow.render(80, 40, 20, 0x33, 2));
    assert!(!shadow.render(80, 40, 20, 0x33, 2));
    assert!(shadow.render(80, 30, 20, 0x33, 2));
    assert!(shadow.ensure_buffer(81, 40, 20, 2).is_some());
    // The old buffer is gone and no new one was made yet.
    assert!(!shadow.render(81, 40, 20, 0x33, 2));
    assert!(shadow.cache.is_some());
    shadow.buffer_made();
    assert!(!shadow.render(81, 40, 20, 0x33, 2));
    assert!(shadow.render(81, 40, 20, 0x44, 2));
}

#[test]
fn a_shadow_needs_room() {
    assert!(shadow_shape(120, 80, 40, 20, 10, 0xff, 1).unwrap().has_place());
    assert!(!shadow_shape(50, 80, 40, 20, 10, 0xff, 1).unwrap().has_place());
}
