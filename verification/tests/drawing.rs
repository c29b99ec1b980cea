use canoe::canoe::desktop::{DesktopIcon, DesktopSurface};
use canoe::canoe::desktop_picture::{truncate_with_ellipsis, IconStyle, IconTheme};
use canoe::canoe::font::{bitmap_len, measure_text};
use canoe::canoe::menu::{measure_menu, widest_text, MenuItem, MenuTheme, WindowMenu};
use canoe::canoe::render::{fill_run, rgba_to_argb, tint, Paint, Picture, Renderer};
use canoe::canoe::shmfile::{Preparation, ReleaseFlag, ShmPool};
use canoe::canoe::titlebar::{
    border_width, button_at, button_rects, titlebar_height, FrameStyle, Titlebar, TitlebarButton,
};
use canoe::canoe::titlebar_frame::{RenderEvent, RenderStep};
use canoe::canoe::titlebar_picture::{icon_size_for_titlebar, TitlebarLook};
use canoe::config::{FontSize, UiConfig};

/// Every character is seven pixels wide but the narrow ones.
fn advance(c: char) -> Option<i32> {
    if c == 'i' {
        Some(3)
    } else if c == '\u{2026}' {
        Some(9)
    } else if c == '\u{1}' {
        None
    } else {
        Some(7)
    }
}

#[test]
fn channels_survive_conversion() {
    assert_eq!(rgba_to_argb(0x11223344), 0x44112233);
    assert_eq!(rgba_to_argb(0xC0C0C0FF), 0xFFC0C0C0);
    assert_eq!(rgba_to_argb(0x00000033), 0x33000000);
}

#[test]
fn fill_touches_only_its_area() {
    let mut renderer = Renderer::new(6, 4).unwrap();
    renderer.fill_rect(4, 2, 10, 10, 0xFF00FF00);
    for y in 0..4 {
        for x in 0..6 {
            let within = x >= 4 && y >= 2;
            let want = if within { 0xFF00FF00 } else { 0 };
            assert_eq!(renderer.pixels[y * 6 + x], want);
        }
    }
    renderer.fill_rect(-3, -3, 4, 4, 7);
    assert_eq!(renderer.pixels[0], 7);
    assert_eq!(renderer.pixels[1], 0);
    assert_eq!(renderer.pixels[6], 0);
    assert!(Renderer::new(0, 4).is_none());
    assert!(Renderer::new(40_000, 40_000).is_none());
}

#[test]
fn opaque_colors_hide() {
    let mut renderer = Renderer::new(2, 1).unwrap();
    renderer.fill_rect(0, 0, 2, 1, 0xFF102030);
    renderer.blit_pixmap(&vec![0xFF405060, 0], 2, 1, 0, 0);
    assert_eq!(renderer.pixels, vec![0xFF405060, 0xFF102030]);
}

#[test]
fn half_transparent_colors_mix() {
    let mut renderer = Renderer::new(1, 1).unwrap();
    renderer.fill_rect(0, 0, 1, 1, 0xFF000000);
    // Full coverage of white keeps it white, none leaves what is below.
    assert_eq!(tint(&vec![255, 0], 0xFFFFFFFF), vec![0xFFFFFFFF, 0]);
    let half = tint(&vec![128], 0xFFFFFFFF);
    renderer.blit_pixmap(&half, 1, 1, 0, 0);
    let grey = renderer.pixels[0] & 0xff;
    assert!((127..=129).contains(&grey));
    assert_eq!(renderer.pixels[0] >> 24, 0xff);
}

#[test]
fn runs_are_filled_from_end_to_end() {
    let mut pixels = vec![0u32; 5];
    fill_run(&mut pixels, 1, 4, 9);
    assert_eq!(pixels, vec![0, 9, 9, 9, 0]);
}

#[test]
fn pictures_are_drawn_in_order() {
    let mut picture = Picture::new();
    picture.fill_rect(0, 0, 2, 2, 5);
    picture.fill_rect(1, 1, 9, 9, 6);
    let mut renderer = Renderer::new(2, 2).unwrap();
    renderer.draw(&picture);
    assert_eq!(renderer.pixels, vec![5, 5, 5, 6]);
}

#[test]
fn longer_text_is_wider() {
    assert_eq!(measure_text("", &advance), 0);
    assert_eq!(measure_text("abc", &advance), 21);
    assert_eq!(measure_text("abci", &advance), 24);
    // What the font lacks has no width.
    assert_eq!(measure_text("a\u{1}b", &advance), 14);
}

#[test]
fn longest_fitting_prefix_is_kept() {
    assert_eq!(truncate_with_ellipsis("abcd", 28, &advance), "abcd");
    assert_eq!(truncate_with_ellipsis("abcd", 27, &advance), "ab\u{2026}");
    assert_eq!(truncate_with_ellipsis("abcd", 22, &advance), "a\u{2026}");
    assert_eq!(truncate_with_ellipsis("abcd", 0, &advance), "");
    assert_eq!(truncate_with_ellipsis("", 50, &advance), "");
}

#[test]
fn bitmaps_without_pixels_are_empty() {
    assert_eq!(bitmap_len(4, 3, 8, true, true), Some(24));
    assert_eq!(bitmap_len(0, 3, 8, true, true), Some(0));
    assert_eq!(bitmap_len(4, 3, 8, false, true), None);
}

fn menu(titles: &[&str], text_width: Option<i32>) -> WindowMenu {
    let mut ui = UiConfig::default();
    ui.shadows_enabled = false;
    let theme = MenuTheme::from_ui(&ui);
    let items = titles
        .iter()
        .enumerate()
        .map(|(i, title)| MenuItem {
            window_id: 100 + i,
            title: title.to_string(),
            hidden: false,
            active: i == 0,
        })
        .collect();
    WindowMenu::new(1, 2, 0, items, Some("Windows".to_string()), 0, 0, theme, text_width)
}

#[test]
fn menus_fit_their_widest_title() {
    let mut ui = UiConfig::default();
    ui.shadows_enabled = false;
    let theme = MenuTheme::from_ui(&ui);
    // Three rows and the header, each as high as the font and its padding.
    assert_eq!(measure_menu(3, &theme, true, Some(50)), (16 + 10 + 6 + 50 + 2 + 3, 4 * 20 + 2 + 3));
    assert_eq!(measure_menu(0, &theme, false, None), (120 + 3, 1 + 2 + 3));
}

#[test]
fn the_widest_text_counts() {
    assert_eq!(widest_text(&vec![]), None);
    assert_eq!(widest_text(&vec![None, None]), None);
    assert_eq!(widest_text(&vec![Some(3), None, Some(9), Some(4)]), Some(9));
    assert_eq!(widest_text(&vec![Some(-3)]), Some(0));
}

#[test]
fn select_next_wraps_around() {
    let mut m = menu(&["a", "b", "c"], Some(50));
    let mut seen = Vec::new();
    for _ in 0..4 {
        assert!(m.select_next());
        seen.push(m.hovered_window().unwrap());
    }
    assert_eq!(seen, vec![100, 101, 102, 100]);
    assert!(!menu(&[], Some(50)).select_next());
}

#[test]
fn drawn_rows_are_hit() {
    let m = menu(&["a", "b"], Some(50));
    assert_eq!(m.item_at(10, 5), None); // the header
    assert_eq!(m.item_at(10, 21), Some(0));
    assert_eq!(m.item_at(10, 40), Some(0));
    assert_eq!(m.item_at(10, 41), Some(1));
    assert_eq!(m.item_at(10, 60), Some(1));
    assert_eq!(m.item_at(10, 61), None);
    assert_eq!(m.item_at(0, 30), None);
}

#[test]
fn made_menu_buffer_is_kept() {
    let mut m = menu(&["a", "b"], Some(50));
    let plan = m.ensure_buffer(2).expect("a buffer is missing");
    assert_eq!((plan.width, plan.height, plan.scale), (m.width * 2, m.height * 2, 2));
    m.buffer_made(plan);
    assert!(m.ensure_buffer(2).is_none());
    assert!(m.ensure_buffer(1).is_some());
}

#[test]
fn unchanged_menus_are_drawn_once() {
    let mut m = menu(&["a", "b"], Some(50));
    assert!(m.ensure_cache(1, 2).is_some());
    assert!(m.ensure_cache(1, 2).is_none());
    assert!(m.ensure_cache(3, 2).is_some());
}

#[test]
fn buttons_are_laid_out_from_the_right() {
    let rects = button_rects(200, 19, true, true);
    assert_eq!(rects.close.x, 0);
    assert_eq!(rects.maximize.map(|r| r.x), Some(181));
    assert_eq!(rects.hide.map(|r| r.x), Some(161));
    let without = button_rects(200, 19, true, false);
    assert_eq!(without.hide.map(|r| r.x), Some(181));
    assert!(without.maximize.is_none());
}

#[test]
fn hit_button_is_at_the_point() {
    assert_eq!(button_at(200, 4, 4, 4, 19, true, true), Some(TitlebarButton::Close));
    assert_eq!(button_at(200, 4, 3, 4, 19, true, true), None);
    assert_eq!(button_at(200, 4, 4 + 181, 10, 19, true, true), Some(TitlebarButton::Maximize));
    assert_eq!(button_at(200, 4, 4 + 180, 10, 19, true, true), None); // the gap
    assert_eq!(button_at(200, 4, 4 + 161, 10, 19, true, true), Some(TitlebarButton::Hide));
    assert_eq!(button_at(200, 4, 4 + 161, 4 + 19, 19, true, true), None);
}

#[test]
fn buttons_do_not_overlap() {
    let rects = button_rects(58, 19, true, true);
    for x in 0..58 {
        let hits = [Some(rects.close), rects.hide, rects.maximize]
            .iter()
            .filter(|r| r.map(|r| r.contains(x, 9)).unwrap_or(false))
            .count();
        assert!(hits <= 1, "{x}");
    }
}

fn look() -> TitlebarLook {
    TitlebarLook {
        is_active: true,
        is_maximized: false,
        show_minimize: true,
        show_maximize: true,
        frame_style: FrameStyle::Normal,
        hovered: None,
        left_down: false,
    }
}

/// All steps of drawing a frame; tells them by their names.
fn rendered(t: &mut Titlebar, title: &str, look: &TitlebarLook, ui: &UiConfig) -> Vec<&'static str> {
    let mut steps = Vec::new();
    let mut event = RenderEvent::Begin;
    loop {
        event = match t.render(Some(title), look, ui, event) {
            RenderStep::Keep => {
                steps.push("keep");
                return steps;
            },
            RenderStep::LoadIcons { side } => {
                steps.push("icons");
                RenderEvent::IconsLoaded { side: Some(side) }
            },
            RenderStep::Allocate { slot_capacity, total } => {
                steps.push("storage");
                assert_eq!(total, slot_capacity * 2);
                RenderEvent::Allocated { slot_capacity }
            },
            RenderStep::Draw { mut picture, .. } => {
                steps.push("draw");
                assert!(picture
                    .take()
                    .iter()
                    .any(|paint| matches!(paint, Paint::Text { text, .. } if text == title)));
                RenderEvent::Drawn
            },
            RenderStep::Finished => {
                steps.push("finished");
                return steps;
            },
        };
    }
}

#[test]
fn unchanged_frame_is_not_drawn_again() {
    let ui = UiConfig::default();
    let mut t = Titlebar::new(1, 2);
    assert_eq!(t.ensure_buffer(200, 100, 2, &ui, FrameStyle::Normal), Some(2));
    let first = rendered(&mut t, "title", &look(), &ui);
    assert_eq!(first, vec!["icons", "storage", "draw", "finished"]);
    assert!(!t.dirty);
    let before = format!("{:?}", t);
    assert_eq!(rendered(&mut t, "title", &look(), &ui), vec!["keep"]);
    assert_eq!(format!("{:?}", t), before);
    assert_eq!(rendered(&mut t, "other", &look(), &ui), vec!["draw", "finished"]);
    let inactive = TitlebarLook { is_active: false, ..look() };
    assert_eq!(rendered(&mut t, "other", &inactive, &ui), vec!["draw", "finished"]);
}

#[test]
fn second_round_changes_nothing() {
    let ui = UiConfig::default();
    let mut t = Titlebar::new(1, 2);
    t.ensure_buffer(200, 100, 1, &ui, FrameStyle::Normal);
    rendered(&mut t, "title", &look(), &ui);
    assert!(t.commit().is_some());
    let shown = t.shm_pool.current_buffer().unwrap();
    t.shm_pool.release(shown);
    let count = t.shm_pool.allocate_fresh_count();
    let before = format!("{:?}", t);
    t.ensure_buffer(200, 100, 1, &ui, FrameStyle::Normal);
    assert_eq!(rendered(&mut t, "title", &look(), &ui), vec!["keep"]);
    assert_eq!(format!("{:?}", t), before);
    assert_eq!(t.shm_pool.allocate_fresh_count(), count);
    t.ensure_buffer(220, 100, 1, &ui, FrameStyle::Normal);
    assert!(rendered(&mut t, "title", &look(), &ui).ends_with(&["draw", "finished"]));
}

#[test]
fn frames_without_a_size_are_not_drawn() {
    let ui = UiConfig::default();
    let mut t = Titlebar::new(1, 2);
    assert_eq!(rendered(&mut t, "title", &look(), &ui), vec!["icons", "keep"]);
    assert!(t.dirty);
}

#[test]
fn same_size_changes_nothing() {
    let ui = UiConfig::default();
    let mut t = Titlebar::new(1, 2);
    t.ensure_buffer(200, 100, 1, &ui, FrameStyle::Normal);
    let before = format!("{:?}", t);
    t.ensure_buffer(200, 100, 1, &ui, FrameStyle::Normal);
    assert_eq!(format!("{:?}", t), before);
    // The frame adds its borders and the title.
    assert_eq!((t.width, t.height), (208, 100 + 8 + 19));
}

#[test]
fn damage_is_the_frame() {
    let ui = UiConfig::default();
    let mut t = Titlebar::new(1, 2);
    t.ensure_buffer(60, 40, 1, &ui, FrameStyle::Normal);
    let areas = t.damage_frame();
    for y in 0..t.buffer_height {
        for x in 0..t.buffer_width {
            let hit = areas
                .iter()
                .any(|a| a.x <= x && x < a.x + a.width && a.y <= y && y < a.y + a.height);
            let content = (4..64).contains(&x) && (24..t.buffer_height - 4).contains(&y);
            assert_eq!(hit, !content, "{x} {y}");
        }
    }
}

#[test]
fn frames_hold_title_and_buttons() {
    let ui = UiConfig::default();
    let mut t = Titlebar::new(1, 2);
    t.ensure_buffer(200, 100, 1, &ui, FrameStyle::Normal);
    t.ensure_button_cache(&ui);
    let mut picture = t.draw(Some("title"), &look(), &ui, true);
    let paints = picture.take();
    assert!(paints
        .iter()
        .any(|paint| matches!(paint, Paint::Text { text, .. } if text == "title")));
    let faces = paints.iter().filter(|paint| matches!(paint, Paint::Face { .. })).count();
    assert_eq!(faces, 3);
}

#[test]
fn sizes_follow_the_font() {
    let mut ui = UiConfig::default();
    assert_eq!(titlebar_height(&ui), 19);
    assert_eq!(border_width(&ui, FrameStyle::Normal), 4);
    assert_eq!(icon_size_for_titlebar(19), 15);
    ui.font_size = FontSize { bits: 0, three_quarters: 0, ceiling: 0, half: 0 };
    assert_eq!(titlebar_height(&ui), 1);
}

#[test]
fn attached_buffer_waits_for_its_release() {
    let mut pool = ShmPool::new();
    match pool.prepare(10, 10, 40) {
        Preparation::Allocate { slot_capacity, total } => {
            assert_eq!(total, slot_capacity * 2);
            assert!(slot_capacity >= 400);
            pool.allocated(slot_capacity);
        },
        other => panic!("{:?}", other),
    }
    assert_eq!(pool.prepare(10, 10, 40), Preparation::Ready { slot: 0, create: true });
    let first = pool.current_buffer().unwrap();
    pool.mark_attached();
    assert_eq!(pool.prepare(10, 10, 40), Preparation::Ready { slot: 1, create: true });
    pool.mark_attached();
    assert!(matches!(pool.prepare(10, 10, 40), Preparation::Allocate { .. }));
    assert_eq!(pool.prepare(0, 10, 40), Preparation::Refused);
    let _ = first;
}

#[test]
fn released_buffers_are_used_again() {
    let mut pool = ShmPool::new();
    if let Preparation::Allocate { slot_capacity, .. } = pool.prepare(10, 10, 40) {
        pool.allocated(slot_capacity);
    }
    pool.prepare(10, 10, 40);
    let first = pool.current_buffer().unwrap();
    pool.mark_attached();
    pool.prepare(10, 10, 40);
    pool.mark_attached();
    pool.release(first);
    assert_eq!(pool.prepare(10, 10, 40), Preparation::Ready { slot: 0, create: false });
}

#[test]
fn slots_do_not_overlap() {
    let mut pool = ShmPool::new();
    if let Preparation::Allocate { slot_capacity, .. } = pool.prepare(10, 10, 40) {
        pool.allocated(slot_capacity);
    }
    pool.prepare(10, 10, 40);
    pool.mark_attached();
    pool.prepare(10, 10, 40);
    let (first, first_len) = pool.slot_range(0).unwrap();
    let (second, second_len) = pool.slot_range(1).unwrap();
    assert!(first + first_len <= second);
    assert!(second + second_len <= pool.slot_capacity as usize * 2);
}

fn surface(width: i32, height: i32) -> DesktopSurface {
    let mut desktop = DesktopSurface::new(1, 2, 0);
    desktop.configure(width, height);
    let plan = desktop.ensure_buffer(1).expect("a buffer is missing");
    desktop.buffer_made(plan);
    desktop
}

fn icon(id: usize, title: &str, app_id: Option<&str>) -> DesktopIcon {
    DesktopIcon {
        window_id: id,
        title: title.to_string(),
        app_id: app_id.map(|app_id| app_id.to_string()),
        icon: None,
    }
}

fn style() -> IconStyle {
    let ui = UiConfig::default();
    IconStyle {
        theme: IconTheme::from_ui(&ui),
        scale: 1,
        font_name: None,
        font_size: ui.font_size,
        label_font_name: None,
        label_font_size: ui.font_size,
    }
}

#[test]
fn labels_have_fonts_of_their_own() {
    let mut ui = UiConfig::default();
    let small = FontSize { bits: 1, three_quarters: 1, ceiling: 1, half: 1 };
    ui.font_name = Some("Cantarell:bold".to_string());
    let plain = IconStyle::from_ui(&ui, 2, small);
    assert_eq!(plain.label_font_name.as_deref(), Some("Cantarell:weight=regular"));
    assert_eq!(plain.label_font_size, small);
    assert_eq!(plain.theme.text, ui.menu_text);
    ui.icons_font_name = Some("Mono".to_string());
    ui.icons_font_size = Some(ui.font_size);
    ui.icons_text = Some(5);
    let own = IconStyle::from_ui(&ui, 2, small);
    assert_eq!(own.label_font_name.as_deref(), Some("Mono"));
    assert_eq!(own.label_font_size, ui.font_size);
    assert_eq!(own.theme.text, 5);
}

fn texts(picture: &mut Picture) -> Vec<String> {
    picture
        .take()
        .into_iter()
        .filter_map(|paint| match paint {
            Paint::Text { text, .. } => Some(text),
            _ => None,
        })
        .collect()
}

#[test]
fn icons_without_a_picture_show_a_capital() {
    let mut desktop = surface(640, 480);
    let icons = vec![icon(5, "notes", Some("org.kde.kate")), icon(6, "\u{df}eta", None)];
    let shown = texts(&mut desktop.render_with_icons(0x008080FF, &icons, &style(), &advance));
    assert!(shown.contains(&"N".to_string()), "{:?}", shown);
    assert!(shown.contains(&"SS".to_string()), "{:?}", shown);
}

#[test]
fn drawn_icons_are_hit() {
    let mut desktop = surface(200, 480);
    let icons = (0..5).map(|i| icon(10 + i, "t", None)).collect();
    desktop.render_with_icons(0x008080FF, &icons, &style(), &advance);
    assert_eq!(desktop.icon_count(), 5);
    for layout in desktop.icons.iter() {
        assert_eq!(desktop.icon_at(layout.x + 1, layout.y + 1, 1), Some(layout.window_id));
    }
    assert_eq!(desktop.icon_window_at_index(2), Some(12));
    assert_eq!(desktop.icon_window_at_index(5), None);
}

#[test]
fn each_icon_is_drawn_once() {
    let mut desktop = surface(400, 480);
    desktop.selected_icon = Some(11);
    let icons = vec![
        icon(10, "one", Some("a")),
        icon(11, "two", Some("b")),
        icon(12, "six", Some("c")),
    ];
    let shown = texts(&mut desktop.render_with_icons(0x008080FF, &icons, &style(), &advance));
    let labels: Vec<&String> = shown.iter().filter(|text| text.len() == 3).collect();
    // The selected one is drawn on top of the others.
    assert_eq!(labels, vec!["one", "six", "two"]);
}

#[test]
fn slots_take_turns() {
    let mut pool = ShmPool::new();
    if let Preparation::Allocate { slot_capacity, .. } = pool.prepare(10, 10, 40) {
        pool.allocated(slot_capacity);
    }
    let mut slots = Vec::new();
    for _ in 0..4 {
        match pool.prepare(10, 10, 40) {
            Preparation::Ready { slot, .. } => slots.push(slot),
            other => panic!("{:?}", other),
        }
        let shown = pool.current_buffer().unwrap();
        pool.mark_attached();
        pool.release(shown);
    }
    assert_eq!(slots, vec![0, 1, 0, 1]);
}

#[test]
fn shortened_text_fits() {
    let advance = |c: char| Some(if c == '\u{2026}' { 5 } else { 7 });
    for width in 1..40 {
        let text = truncate_with_ellipsis("abcde", width, &advance);
        let taken: i32 = text.chars().map(|c| advance(c).unwrap()).sum();
        assert!(taken <= width, "{text} in {width}");
    }
    assert_eq!(truncate_with_ellipsis("abcde", 34, &advance), "abcd\u{2026}");
    assert_eq!(truncate_with_ellipsis("abcde", 5, &advance), "\u{2026}");
    assert_eq!(truncate_with_ellipsis("abcde", 4, &advance), "");
    assert_eq!(truncate_with_ellipsis("abcde", 1, &advance), "");
}

#[test]
fn flag_tells_the_latest_call() {
    let mut flag = ReleaseFlag::new_released();
    assert!(flag.is_released());
    flag.set_in_flight();
    assert!(!flag.is_released());
    flag.set_in_flight();
    flag.set_released();
    assert!(flag.is_released());
}

#[test]
fn slot_and_buffer_share_the_flag() {
    let mut pool = ShmPool::new();
    if let Preparation::Allocate { slot_capacity, .. } = pool.prepare(10, 10, 40) {
        pool.allocated(slot_capacity);
    }
    pool.prepare(10, 10, 40);
    let serial = pool.current_buffer().unwrap();
    let copy = serial;
    assert!(pool.slot_at(0).release_flag.is_released());
    pool.mark_attached();
    assert!(!pool.slot_at(0).release_flag.is_released());
    pool.release(copy + 1);
    assert!(!pool.slot_at(0).release_flag.is_released());
    pool.release(copy);
    assert!(pool.slot_at(0).release_flag.is_released());
    assert!(pool.slot_at(1).release_flag.is_released());
}
