use canoe::config::modifiers::{ALT, CTRL, MOD5, SHIFT, SUPER};
use canoe::config::{
    clean_cmd_args, hotkeys_from_file, load_config, parse_chord, parse_chord_by, parse_color_str,
    parse_match_props, parse_modifier, rules_from_file, BorderLayersFile, FileConfig, FontSize,
    HotkeyFile, MainModifier, RuleFile, StringOrVec, UiConfig, UiConfigFile,
};
use canoe::rule::apply_rules;
use toml::{Table, Value};
use xkeysym::Keysym;

fn text(value: Option<&Value>) -> Option<String> {
    value.and_then(|value| value.as_str()).map(|value| value.to_string())
}

fn flag(value: Option<&Value>) -> Option<bool> {
    value.and_then(|value| value.as_bool())
}

fn whole(value: Option<&Value>) -> Option<i32> {
    value.and_then(|value| value.as_integer()).map(|value| value as i32)
}

fn color(value: Option<&Value>) -> Option<u32> {
    value.map(|value| match value {
        Value::String(value) => parse_color_str(value).expect("a color"),
        Value::Integer(value) => *value as u32,
        other => panic!("no color: {}", other),
    })
}

fn font_size(size: f32) -> FontSize {
    FontSize {
        bits: size.to_bits(),
        three_quarters: (0.75 * size).round() as i32,
        ceiling: size.ceil() as i32,
        half: (0.5 * size).round().max(0.0) as i32,
    }
}

fn float(value: Option<&Value>) -> Option<FontSize> {
    value.and_then(|value| value.as_float()).map(|value| font_size(value as f32))
}

fn strings(value: Option<&Value>) -> Option<StringOrVec> {
    value.map(|value| match value {
        Value::String(value) => StringOrVec::One(value.clone()),
        Value::Array(values) => StringOrVec::Many(
            values.iter().map(|value| value.as_str().expect("a string").to_string()).collect(),
        ),
        other => panic!("no string: {}", other),
    })
}

fn layers(value: Option<&Value>) -> Option<BorderLayersFile> {
    value.and_then(|value| value.as_table()).map(|table| BorderLayersFile {
        outer: color(table.get("outer")),
        mid: color(table.get("mid")),
        inner: color(table.get("inner")),
    })
}

fn ui_settings(table: &Table) -> UiConfigFile {
    UiConfigFile {
        border_width: whole(table.get("border_width")),
        border_active: layers(table.get("border_active")),
        border_inactive: layers(table.get("border_inactive")),
        titlebar_text_active: color(table.get("titlebar_text_active")),
        titlebar_text_inactive: color(table.get("titlebar_text_inactive")),
        titlebar_bg_active: color(table.get("titlebar_bg_active")),
        titlebar_bg_inactive: color(table.get("titlebar_bg_inactive")),
        menu_bg: color(table.get("menu_bg")),
        menu_text: color(table.get("menu_text")),
        menu_highlight_bg: color(table.get("menu_highlight_bg")),
        menu_highlight_text: color(table.get("menu_highlight_text")),
        button_bg: color(table.get("button_bg")),
        button_highlight: color(table.get("button_highlight")),
        button_shadow: color(table.get("button_shadow")),
        shadows_enabled: flag(table.get("shadows_enabled")),
        shadows_active_size: whole(table.get("shadows_active_size")),
        shadows_inactive_size: whole(table.get("shadows_inactive_size")),
        shadows_color: color(table.get("shadows_color")),
        font_name: text(table.get("font_name")),
        font_size: float(table.get("font_size")),
        desktop_background: color(table.get("desktop_background")),
        icons_enabled: flag(table.get("icons_enabled")),
        icons_font_name: text(table.get("icons_font_name")),
        icons_font_size: float(table.get("icons_font_size")),
        icons_text: color(table.get("icons_text")),
        icons_highlight_bg: color(table.get("icons_highlight_bg")),
        icons_highlight_text: color(table.get("icons_highlight_text")),
    }
}

fn rule_settings(table: &Table) -> RuleFile {
    RuleFile {
        match_app_id: strings(table.get("match_app_id")),
        match_app_id_prefix: strings(table.get("match_app_id_prefix")),
        match_props: strings(table.get("match_props")),
        title: strings(table.get("title")),
        app_id_regex: text(table.get("app_id_regex")),
        title_regex: text(table.get("title_regex")),
        force_ssd: flag(table.get("force_ssd")),
        swallow_top: whole(table.get("swallow_top")),
    }
}

/// The settings that a configuration file holds.
fn settings(contents: &str) -> FileConfig {
    let table = contents.parse::<Table>().expect("parse config");
    FileConfig {
        main_modifier: text(table.get("main_modifier")).map(|name| match name.as_str() {
            "alt" => MainModifier::Alt,
            _ => MainModifier::Super,
        }),
        launcher_cmd: strings(table.get("launcher_cmd")),
        terminal_cmd: strings(table.get("terminal_cmd")),
        lock_cmd: strings(table.get("lock_cmd")),
        ui: table.get("ui").and_then(|value| value.as_table()).map(ui_settings),
        rules: table.get("rules").and_then(|value| value.as_array()).map(|rules| {
            rules.iter().map(|rule| rule_settings(rule.as_table().expect("a rule"))).collect()
        }),
        hotkeys: table.get("hotkeys").and_then(|value| value.as_table()).map(|hotkeys| {
            hotkeys
                .iter()
                .map(|(chord, cmd)| {
                    let cmd = strings(Some(cmd)).expect("a command");
                    HotkeyFile::looked_up(chord.clone(), cmd, &keysym_named)
                })
                .collect()
        }),
    }
}

fn owned(values: &[&str]) -> Vec<String> {
    values.iter().map(|value| value.to_string()).collect()
}

/// The keysym with this name, whatever its case; small letters win over capitals.
fn keysym_named(name: &str) -> u32 {
    let wanted = format!("XK_{}", name);
    let mut found = 0;
    for raw in 0x20..0x1_0000u32 {
        let matches = match Keysym::new(raw).name() {
            Some(known) => known.eq_ignore_ascii_case(&wanted),
            None => false,
        };
        if matches {
            found = raw;
        }
    }
    found
}

#[test]
fn test_chord_parsing() {
    let parse_chord = |chord: &str| parse_chord_by(chord, &keysym_named);
    // Single-letter keys normalize to the unshifted keysym; modifiers OR together.
    assert_eq!(parse_chord("Super+I"), Some((SUPER, 0x69))); // 'i'
    assert_eq!(parse_chord("Super+A"), Some((SUPER, 0x61))); // 'a'
    assert_eq!(parse_chord("Super+Shift+T"), Some((SUPER | SHIFT, 0x74))); // 't'
    // Named keys and modifier aliases resolve too.
    assert_eq!(parse_chord("Super+Return"), Some((SUPER, 0xFF0D)));
    assert_eq!(parse_chord("Ctrl+Alt+space"), Some((CTRL | ALT, 0x20)));
    assert_eq!(parse_chord("mod4+i"), Some((SUPER, 0x69)));
    // Unknown modifier, unknown key, and missing key are all rejected.
    assert!(parse_chord("Hyper+x").is_none());
    assert!(parse_chord("Super+NotAKey").is_none());
    assert!(parse_chord("Super+").is_none());
}

#[test]
fn test_rule_parsing_match_app_id_and_props() {
    let contents = r#"
        [[rules]]
        match_app_id = ["foot", "kitty"]
        match_props = ["toplevel", "csd_only"]

        [[rules]]
        match_app_id = "alacritty"
        match_props = "toplevel"

        [[rules]]
        match_app_id_prefix = "mate-"
    "#;

    let file_config = settings(contents);
    let rules = rules_from_file(file_config.rules.expect("rules present"));

    assert_eq!(rules.len(), 3);

    let rule = &rules[0];
    let app_ids = rule.app_id.as_ref().expect("app ids parsed");
    assert!(app_ids.contains(&"foot".to_string()));
    assert!(app_ids.contains(&"kitty".to_string()));
    assert_eq!(rule.require_csd_only, Some(true));
    assert_eq!(rule.require_no_parent, Some(true));

    let rule = &rules[1];
    let app_ids = rule.app_id.as_ref().expect("app ids parsed");
    assert_eq!(app_ids, &vec!["alacritty".to_string()]);
    assert_eq!(rule.require_csd_only, None);
    assert_eq!(rule.require_no_parent, Some(true));

    let rule = &rules[2];
    let prefixes = rule.app_id_prefixes.as_ref().expect("app id prefixes parsed");
    assert_eq!(prefixes, &vec!["mate-".to_string()]);
    assert_eq!(rule.require_csd_only, None);
    assert_eq!(rule.require_no_parent, None);
}

#[test]
fn test_icons_config_parsing() {
    let contents = r##"
        [ui]
        icons_enabled = false
        icons_font_name = "Monospace"
        icons_font_size = 9.5
        icons_text = "#101010"
        icons_highlight_bg = "#FFD000"
        icons_highlight_text = "#000000"
    "##;

    let file_config = settings(contents);
    let mut ui = UiConfig::default();
    ui.apply(file_config.ui.expect("ui present"));

    assert!(!ui.icons_enabled);
    assert_eq!(ui.icons_font_name.as_deref(), Some("Monospace"));
    assert_eq!(ui.icons_font_size.map(|size| f32::from_bits(size.bits)), Some(9.5));
    assert_eq!(ui.icons_text, Some(0x101010FF));
    assert_eq!(ui.icons_highlight_bg, Some(0xFFD000FF));
    assert_eq!(ui.icons_highlight_text, Some(0x000000FF));
}

#[test]
fn test_icons_config_defaults() {
    let ui = UiConfig::default();
    assert!(ui.icons_enabled);
    assert!(ui.icons_font_name.is_none());
    assert!(ui.icons_font_size.is_none());
    assert!(ui.icons_text.is_none());
    assert!(ui.icons_highlight_bg.is_none());
    assert!(ui.icons_highlight_text.is_none());
}

#[test]
fn test_shadow_config_parsing() {
    let contents = r##"
        [ui]
        shadows_enabled = false
        shadows_active_size = 24
        shadows_inactive_size = 6
        shadows_color = "#11223344"
    "##;

    let file_config = settings(contents);
    let mut ui = UiConfig::default();
    ui.apply(file_config.ui.expect("ui present"));

    assert!(!ui.shadows_enabled);
    assert_eq!(ui.shadows_active_size, 24);
    assert_eq!(ui.shadows_inactive_size, 6);
    assert_eq!(ui.shadows_color, 0x11223344);
}

#[test]
fn test_shadow_config_defaults() {
    let ui = UiConfig::default();
    assert!(ui.shadows_enabled);
    assert_eq!(ui.shadows_active_size, 20);
    assert_eq!(ui.shadows_inactive_size, 10);
    assert_eq!(ui.shadows_color, 0x00000033);
}

#[test]
fn test_shadow_size_clamped_to_zero() {
    let contents = r#"
        [ui]
        shadows_active_size = -5
        shadows_inactive_size = -1
    "#;

    let file_config = settings(contents);
    let mut ui = UiConfig::default();
    ui.apply(file_config.ui.expect("ui present"));

    assert_eq!(ui.shadows_active_size, 0);
    assert_eq!(ui.shadows_inactive_size, 0);
}

#[test]
fn test_hotkey_parsing() {
    let contents = r#"
        [hotkeys]
        "Super+I" = "control-panel"
        "Super+D" = "control-panel -m display"
        "Super+P" = ["control-panel", "-m", "display"]
        "Super+Shift+T" = "foot"
        "Super+Bogus++" = "nope"
    "#;

    let file_config = settings(contents);
    let hotkeys = hotkeys_from_file(file_config.hotkeys.expect("hotkeys present"));

    // The malformed "Super+Bogus++" entry is dropped; four valid ones remain.
    assert_eq!(hotkeys.len(), 4);

    let argv_of = |keysym: u32| -> Vec<String> {
        hotkeys
            .iter()
            .find(|h| h.keysym == keysym)
            .unwrap_or_else(|| panic!("hotkey for keysym {keysym:#x} bound"))
            .argv
            .clone()
    };
    let display_argv = vec!["control-panel".to_string(), "-m".to_string(), "display".to_string()];

    // A bare string is a single-element argv; a string with args splits on
    // whitespace, producing the same argv as the explicit array form.
    assert_eq!(argv_of(0x69), vec!["control-panel".to_string()]); // Super+I
    assert_eq!(argv_of(0x64), display_argv); // Super+D, string split
    assert_eq!(argv_of(0x70), display_argv); // Super+P, array form
    assert_eq!(argv_of(0x74), vec!["foot".to_string()]); // Super+Shift+T

    let cp = hotkeys.iter().find(|h| h.keysym == 0x69).unwrap();
    assert_eq!(cp.modifiers, SUPER);
    let term = hotkeys.iter().find(|h| h.keysym == 0x74).unwrap();
    assert_eq!(term.modifiers, SUPER | SHIFT);
}

#[test]
fn test_ui_color_parsing() {
    let contents = r##"
        [ui]
        menu_bg = "#112233"
        menu_text = "#123"
        titlebar_bg_active = "#11223344"
    "##;

    let file_config = settings(contents);
    let ui = file_config.ui.expect("ui present");

    assert_eq!(ui.menu_bg, Some(0x112233FF));
    assert_eq!(ui.menu_text, Some(0x112233FF));
    assert_eq!(ui.titlebar_bg_active, Some(0x11223344));
}

#[test]
fn colors_that_are_none() {
    for bad in ["", "#", "112233", "#12", "#1234", "#12345g", "#1122334455", "#11 233", "#ßß"] {
        assert_eq!(parse_color_str(bad), None, "{bad}");
    }
}

#[test]
fn short_colors_mean_the_long_ones() {
    assert_eq!(parse_color_str("#a0F"), Some(0xAA00FFFF));
    assert_eq!(parse_color_str("#aa00FF"), Some(0xAA00FFFF));
    assert_eq!(parse_color_str("#aa00FFff"), Some(0xAA00FFFF));
    assert_eq!(parse_color_str("  #a0f\t"), Some(0xAA00FFFF));
}

#[test]
fn colors_without_alpha_are_opaque() {
    assert_eq!(parse_color_str("#000").map(|color| color & 0xff), Some(0xff));
    assert_eq!(parse_color_str("#000000").map(|color| color & 0xff), Some(0xff));
    assert_eq!(parse_color_str("#00000000").map(|color| color & 0xff), Some(0));
}

#[test]
fn a_sign_counts_as_a_digit_of_a_pair() {
    assert_eq!(parse_color_str("#+1+2+3"), Some(0x010203FF));
    assert_eq!(parse_color_str("#1+2+3+"), None);
    assert_eq!(parse_color_str("#-1-2-3"), None);
    assert_eq!(parse_color_str("#+12"), None);
}

#[test]
fn modifiers_have_aliases() {
    assert_eq!(parse_modifier(" CONTROL "), Some(CTRL));
    assert_eq!(parse_modifier("Mod1"), Some(ALT));
    assert_eq!(parse_modifier("win"), Some(SUPER));
    assert_eq!(parse_modifier("LOGO"), Some(SUPER));
    assert_eq!(parse_modifier("mod5"), Some(MOD5));
    assert_eq!(parse_modifier("mod2"), None);
}

#[test]
fn unknown_properties_are_ignored() {
    assert_eq!(parse_match_props(None), (None, None));
    assert_eq!(parse_match_props(Some(StringOrVec::One("modal".to_string()))), (None, None));
    assert_eq!(
        parse_match_props(Some(StringOrVec::Many(owned(&["modal", "csd_only"])))),
        (Some(true), None)
    );
}

#[test]
fn empty_arguments_are_dropped() {
    assert_eq!(clean_cmd_args(owned(&[" foot ", "", "  ", "-e"])), owned(&["foot", "-e"]));
    assert!(clean_cmd_args(owned(&["", " "])).is_empty());
}

#[test]
fn hotkeys_without_a_command_are_dropped() {
    let hotkeys = hotkeys_from_file(vec![
        HotkeyFile { chord: "Super+A".to_string(), cmd: StringOrVec::One("  ".to_string()), raw: 0x61 },
        HotkeyFile { chord: "Super+B".to_string(), cmd: StringOrVec::Many(owned(&[" "])), raw: 0x62 },
        HotkeyFile { chord: "C".to_string(), cmd: StringOrVec::One("foot".to_string()), raw: 0x63 },
    ]);
    assert_eq!(hotkeys.len(), 1);
    assert_eq!(hotkeys[0].keysym, 0x63);
    assert_eq!(hotkeys[0].modifiers, 0);
}

#[test]
fn settings_override_the_defaults() {
    let contents = r##"
        main_modifier = "alt"
        launcher_cmd = "wofi"
        terminal_cmd = ["kitty", " -e ", ""]
        lock_cmd = [" "]

        [ui]
        border_width = 3
        border_active = { outer = "#fff" }
        desktop_background = 255
    "##;
    let plain = load_config(false, None, None);
    let config = load_config(false, None, Some(settings(contents)));
    assert_eq!(config.main_modifier, MainModifier::Alt);
    assert_eq!(config.launcher_cmd, owned(&["wofi"]));
    assert_eq!(config.terminal_cmd, owned(&["kitty", "-e"]));
    assert_eq!(config.lock_cmd, plain.lock_cmd);
    assert_eq!(config.ui.border_width, 3);
    assert_eq!(config.ui.border_active.outer, 0xFFFFFFFF);
    assert_eq!(config.ui.border_active.mid, plain.ui.border_active.mid);
    assert_eq!(config.ui.desktop_background, 255);
    assert_eq!(config.ui.menu_bg, plain.ui.menu_bg);
}

#[test]
fn skipping_the_file_leaves_the_defaults() {
    let plain = load_config(false, Some("/home/me".to_string()), None);
    let skipped = load_config(
        true,
        Some("/home/me".to_string()),
        Some(settings("launcher_cmd = \"wofi\"")),
    );
    assert_eq!(skipped.launcher_cmd, plain.launcher_cmd);
    assert_eq!(skipped.working_directory, Some("/home/me".to_string()));
    assert!(skipped.rules.is_empty() && skipped.hotkeys.is_empty());
}

#[test]
fn missing_settings_change_nothing() {
    let mut ui = UiConfig::default();
    ui.apply(ui_settings(&Table::new()));
    assert_eq!(format!("{:?}", ui), format!("{:?}", UiConfig::default()));
}

#[test]
fn applying_a_theme_twice_is_applying_it_once() {
    let contents = r##"
        border_width = 4
        border_inactive = { mid = "#abc" }
        shadows_active_size = -7
        font_size = 11.0
    "##;
    let table = contents.parse::<Table>().expect("parse config");
    let mut once = UiConfig::default();
    once.apply(ui_settings(&table));
    let mut twice = UiConfig::default();
    twice.apply(ui_settings(&table));
    twice.apply(ui_settings(&table));
    assert_eq!(format!("{:?}", once), format!("{:?}", twice));
    assert_eq!(once.shadows_active_size, 0);
    assert_eq!(once.font_size, font_size(11.0));
}

fn rules_of(contents: &str) -> Vec<canoe::rule::Rule> {
    rules_from_file(settings(contents).rules.expect("rules present"))
}

#[test]
fn expressions_match_anywhere() {
    let rules = rules_of(
        r#"
        [[rules]]
        app_id_regex = "^org\\.gnome"
        title_regex = "[0-9]+"
        force_ssd = true
        swallow_top = 32
        "#,
    );
    let id = Some("org.gnome.Files");
    let title = Some("page 12 of many");
    let applied = apply_rules(&rules, id, title, None, false);
    assert!(applied.force_ssd);
    assert_eq!(applied.swallow_top, Some(32));
    let other = apply_rules(&rules, Some("com.org.gnome"), title, None, false);
    assert!(!other.force_ssd && other.swallow_top.is_none());
    let wordy = apply_rules(&rules, id, Some("page twelve"), None, false);
    assert!(!wordy.force_ssd && wordy.swallow_top.is_none());
    let untitled = apply_rules(&rules, id, None, None, false);
    assert!(!untitled.force_ssd && untitled.swallow_top.is_none());
}

#[test]
fn expressions_that_do_not_compile_are_left_out() {
    let rules = rules_of("[[rules]]\napp_id_regex = \"(\"\nforce_ssd = true");
    assert!(rules[0].app_id_regex.is_none());
    assert!(apply_rules(&rules, None, None, None, false).force_ssd);
}

#[test]
fn rules_that_do_not_match_change_nothing() {
    let rules = rules_of(
        r#"
        [[rules]]
        match_app_id = "foot"
        match_props = ["toplevel", "csd_only"]
        force_ssd = true

        [[rules]]
        match_app_id_prefix = "mate-"
        swallow_top = 8
        "#,
    );
    let foot = Some("foot");
    let without = apply_rules(&Vec::new(), foot, None, Some(0), false);
    for (hint, has_parent) in [(None, false), (Some(1), false), (Some(0), true)] {
        let applied = apply_rules(&rules, foot, None, hint, has_parent);
        assert_eq!(applied.force_ssd, without.force_ssd);
        assert_eq!(applied.swallow_top, without.swallow_top);
    }
    assert!(apply_rules(&rules, foot, None, Some(0), false).force_ssd);
    let terminal = Some("mate-terminal");
    assert_eq!(apply_rules(&rules, terminal, None, None, true).swallow_top, Some(8));
}

#[test]
fn all_conditions_of_a_rule_count() {
    let rules = rules_of("[[rules]]\nmatch_app_id = \"foot\"\ntitle = [\"a\", \"b\"]");
    let rule = &rules[0];
    assert!(rule.is_met(Some("foot"), Some("b"), None, true, true, true));
    assert!(!rule.is_met(Some("foot"), Some("b"), None, true, false, true));
    assert!(!rule.is_met(Some("foot"), Some("b"), None, true, true, false));
    assert!(!rule.is_met(Some("foot"), Some("c"), None, true, true, true));
    assert!(!rule.is_met(None, Some("b"), None, true, true, true));
}

#[test]
fn commands_mean_their_words() {
    let hotkey = |cmd: StringOrVec| {
        hotkeys_from_file(vec![HotkeyFile { chord: "A".to_string(), cmd, raw: 0x61 }])
    };
    let one = hotkey(StringOrVec::One("  foot -e\t vim ".to_string()));
    let many = hotkey(StringOrVec::Many(owned(&["foot", "-e", "vim"])));
    assert_eq!(one[0].argv, owned(&["foot", "-e", "vim"]));
    assert_eq!(one[0].argv, many[0].argv);
}

#[test]
fn chords_ask_for_their_key() {
    let lookup = |name: &str| if name == "Return" { 0xFF0D } else { 0 };
    assert_eq!(parse_chord_by(" Super + Return ", &lookup), Some((SUPER, 0xFF0D)));
    assert_eq!(parse_chord_by("Super+Escape", &lookup), None);
    assert_eq!(parse_chord_by("Hyper+Return", &lookup), None);
    assert_eq!(parse_chord("Super+Return", 0xFF0D), Some((SUPER, 0xFF0D)));
    let cmd = || StringOrVec::One("foot".to_string());
    let entry = HotkeyFile::looked_up("Super+Return".to_string(), cmd(), &lookup);
    assert_eq!((entry.chord.as_str(), entry.raw), ("Super+Return", 0xFF0D));
    assert_eq!(HotkeyFile::looked_up("Hyper+Return".to_string(), cmd(), &lookup).raw, 0);
}
