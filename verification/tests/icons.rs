use canoe::canoe::app_icon::{argb_pixels, load_png, needs_scaling, IconTable};
use canoe::canoe::desktop::icon_size_px;
use canoe::canoe::icon_lookup::{
    desktop_files, find_hicolor_icon, is_absolute, join_path, load_icon_by_path, override_files,
    parse_desktop_icon, regular_weight_font_query, xdg_data_dirs,
};
use resvg::tiny_skia::{Color, Pixmap};

fn owned(values: &[&str]) -> Vec<String> {
    values.iter().map(|value| value.to_string()).collect()
}

#[test]
fn png_images_are_decoded() {
    let mut image = Pixmap::new(2, 3).unwrap();
    image.fill(Color::from_rgba8(10, 20, 30, 255));
    let data = image.encode_png().unwrap();
    let (icon, scaled) = load_png(&data, 3).expect("an image");
    assert_eq!((icon.width, icon.height), (2, 3));
    assert_eq!(icon.rgba.len(), 2 * 3 * 4);
    assert_eq!(&icon.rgba[0..4], &[10, 20, 30, 255]);
    assert_eq!(scaled, needs_scaling(2, 3, 3));
    assert!(scaled);
    assert!(load_png(&vec![1, 2, 3], 3).is_none());
}

#[test]
fn images_of_the_right_size_are_kept() {
    let image = Pixmap::new(32, 32).unwrap();
    let (_, scaled) = load_png(&image.encode_png().unwrap(), 32).unwrap();
    assert!(!scaled);
}

#[test]
fn channels_are_put_in_order() {
    assert_eq!(argb_pixels(&vec![1, 2, 3, 4, 255, 0, 0, 255]), vec![0x04010203, 0xFFFF0000]);
}

#[test]
fn noted_icons_are_found() {
    let mut table = IconTable::new();
    assert_eq!(table.get_icon("foot", 32), None);
    table.insert("foot", 32, Some(3));
    table.insert("none", 32, None);
    assert_eq!(table.get_icon("foot", 32), Some(Some(3)));
    assert_eq!(table.get_icon("none", 32), Some(None));
    assert_eq!(table.get_icon("Foot", 32), None);
    assert_eq!(table.get_icon("foot", 64), None);
    table.insert("foot", 64, Some(5));
    assert_eq!(table.get_icon("foot", 64), Some(Some(5)));
    assert_eq!(table.get_icon("foot", 32), Some(Some(3)));
}

#[test]
fn icons_grow_with_the_scale() {
    assert_eq!(icon_size_px(1), 32);
    assert_eq!(icon_size_px(2), 64);
    assert_eq!(icon_size_px(0), 32);
}

#[test]
fn icon_names_come_from_desktop_entries() {
    assert_eq!(
        parse_desktop_icon("[Desktop Entry]\nName=Foot\nIcon= foot \n"),
        Some("foot".to_string())
    );
    assert_eq!(parse_desktop_icon("[Other]\nIcon=nope\n"), None);
    assert_eq!(parse_desktop_icon("[Desktop Entry]\nName=Foot\n"), None);
    assert_eq!(
        parse_desktop_icon("[Desktop Entry]\n[Desktop Action New]\nIcon=late\n"),
        None
    );
}

#[test]
fn data_directories_have_defaults() {
    assert_eq!(
        xdg_data_dirs(None, Some("/home/me"), None),
        owned(&["/home/me/.local/share", "/usr/local/share", "/usr/share"])
    );
    assert_eq!(xdg_data_dirs(Some("/d"), None, Some("/a:/b")), owned(&["/d", "/a", "/b"]));
}

#[test]
fn paths_are_joined() {
    assert_eq!(join_path("/usr/share", "icons"), "/usr/share/icons");
    assert_eq!(join_path("/usr/share/", "icons"), "/usr/share/icons");
    assert_eq!(join_path("/usr/share", "/abs"), "/abs");
    assert!(is_absolute("/abs"));
    assert!(!is_absolute("abs"));
}

#[test]
fn files_are_tried_in_order() {
    let own = override_files("/home/me", "foot");
    assert!(own.iter().all(|file| file.path.starts_with("/home/me/")));
    assert!(own.iter().any(|file| file.svg) && own.iter().any(|file| !file.svg));
    let entries = desktop_files(&owned(&["/a", "/b"]), "Foot");
    assert_eq!(entries[0], "/a/applications/Foot.desktop");
    let icons = find_hicolor_icon(&owned(&["/a"]), "foot");
    let paths: Vec<&str> = icons.iter().map(|file| file.path.as_str()).collect();
    // One scalable picture, two for each size, and two last resorts.
    assert_eq!(paths.len(), 1 + 12 * 2 + 2);
    assert_eq!(paths[0], "/a/icons/hicolor/scalable/apps/foot.svg");
    assert_eq!(paths[1], "/a/icons/hicolor/512x512/apps/foot.png");
    assert_eq!(paths[2], "/a/icons/hicolor/512x512/apps/foot.svg");
    assert_eq!(paths[24], "/a/icons/hicolor/16x16/apps/foot.svg");
    assert_eq!(paths[25], "/a/pixmaps/foot.png");
    assert_eq!(paths[26], "/a/pixmaps/foot.svg");
}

#[test]
fn pictures_are_told_apart_by_their_ending() {
    assert_eq!(load_icon_by_path("/x/y.svg").map(|file| file.svg), Some(true));
    assert_eq!(load_icon_by_path("/x/y.png").map(|file| file.svg), Some(false));
    assert!(load_icon_by_path("/x/y.xpm").is_none());
}

#[test]
fn labels_use_the_regular_weight() {
    assert_eq!(regular_weight_font_query(None), "sans");
    assert_eq!(regular_weight_font_query(Some("")), "sans");
    assert_eq!(regular_weight_font_query(Some("Cantarell:bold")), "Cantarell:weight=regular");
    assert_eq!(
        regular_weight_font_query(Some("Noto Sans:style=Bold:slant=italic")),
        "Noto Sans:slant=italic:weight=regular"
    );
}
