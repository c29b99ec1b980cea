//! Configuration for the window manager.

pub mod button;
pub mod laws;
pub mod modifiers;

use vstd::prelude::*;
use regex::Regex;
use crate::num::{larger, max_i32};
use crate::rule::Rule;
use crate::text::{
    is_word, lemma_words, opt_text, same, same_lowered, split, split_at_char, split_words, str_texts,
    texts, trim, trimmed, white, words,
};

verus! {

/// Main modifier key used for default bindings
#[derive(Debug, Clone, Copy, PartialEq, Eq, Structural)]
pub enum MainModifier {
    Alt,
    Super,
}

impl Default for MainModifier {
    fn default() -> (r: Self)
        ensures
            r == MainModifier::Super,
    {
        MainModifier::Super
    }
}

impl MainModifier {
    pub open spec fn spec_mask(self) -> u32 {
        match self {
            MainModifier::Alt => modifiers::ALT,
            MainModifier::Super => modifiers::SUPER,
        }
    }

    /// The modifier bit of this key.
    #[verifier::when_used_as_spec(spec_mask)]
    pub fn mask(self) -> (r: u32)
        ensures
            r == self.mask(),
    {
        match self {
            Self::Alt => modifiers::ALT,
            Self::Super => modifiers::SUPER,
        }
    }
}

/// Input mode for bindings
#[derive(Debug, Clone, Copy, PartialEq, Eq, Hash, Structural)]
pub enum Mode {
    Lock,
    Default,
    Floating,
    Passthrough,
    DesktopIcons,
}

impl Default for Mode {
    fn default() -> (r: Self)
        ensures
            r == Mode::Default,
    {
        Mode::Default
    }
}

/// Window decoration style
#[derive(Debug, Clone, Copy, PartialEq, Eq, Structural)]
pub enum WindowDecoration {
    Csd,
    Ssd,
}

impl Default for WindowDecoration {
    fn default() -> (r: Self)
        ensures
            r == WindowDecoration::Ssd,
    {
        WindowDecoration::Ssd
    }
}

/// Border colors
#[derive(Debug, Clone, Copy, PartialEq, Eq, Structural)]
pub struct BorderColor {
    pub focus: u32,
    pub unfocus: u32,
    pub urgent: u32,
}

impl Default for BorderColor {
    fn default() -> (r: Self)
        ensures
            r == (BorderColor { focus: 0xffff00ff, unfocus: 0x888800ff, urgent: 0xff0000ff }),
    {
        BorderColor {
            focus: 0xffff00ff,  // Bright yellow, fully opaque
            unfocus: 0x888800ff,  // Dark yellow/olive for unfocused
            urgent: 0xff0000ff,
        }
    }
}

/// Layered border colors (outer, mid, inner)
#[derive(Debug, Clone, Copy, PartialEq, Eq, Structural)]
pub struct BorderLayers {
    pub outer: u32,
    pub mid: u32,
    pub inner: u32,
}

pub open spec fn default_layers() -> BorderLayers {
    BorderLayers { outer: 0x000000FF, mid: 0xC0C0C0FF, inner: 0x000000FF }
}

impl Default for BorderLayers {
    fn default() -> (r: Self)
        ensures
            r == default_layers(),
    {
        BorderLayers { outer: 0x000000FF, mid: 0xC0C0C0FF, inner: 0x000000FF }
    }
}

/// XCursor theme configuration
#[derive(Debug)]
pub struct XCursorTheme {
    pub name: String,
    pub size: u32,
}

/// A font size, with the whole pixel sizes that follow from it.
#[derive(Debug, Clone, Copy, PartialEq, Eq, Structural)]
pub struct FontSize {
    /// The size itself, as the bit pattern of a single-precision number.
    pub bits: u32,
    /// Three quarters of the size, rounded to the nearest pixel.
    pub three_quarters: i32,
    /// The size rounded up.
    pub ceiling: i32,
    /// Half the size, rounded to the nearest pixel and not below zero.
    pub half: i32,
}

/// The size 12.
pub open spec fn default_font_size() -> FontSize {
    FontSize { bits: 0x41400000, three_quarters: 9, ceiling: 12, half: 6 }
}

/// UI theme configuration
#[derive(Debug)]
pub struct UiConfig {
    pub border_width: i32,
    pub border_active: BorderLayers,
    pub border_inactive: BorderLayers,
    pub titlebar_text_active: u32,
    pub titlebar_text_inactive: u32,
    pub titlebar_bg_active: u32,
    pub titlebar_bg_inactive: u32,
    pub menu_bg: u32,
    pub menu_text: u32,
    pub menu_highlight_bg: u32,
    pub menu_highlight_text: u32,
    pub button_bg: u32,
    pub button_highlight: u32,
    pub button_shadow: u32,
    /// Master toggle for all window/menu drop shadows.
    pub shadows_enabled: bool,
    /// Soft shadow size for the focused window.
    pub shadows_active_size: i32,
    /// Soft shadow size for non-focused windows.
    pub shadows_inactive_size: i32,
    /// Shadow color for windows. Menus use the soft window shadow style
    /// (sized by `shadows_active_size`) when shadows are enabled, and fall
    /// back to a built-in retro L-shape drop shadow otherwise.
    pub shadows_color: u32,
    pub font_name: Option<String>,
    pub font_size: FontSize,
    pub desktop_background: u32,
    /// Whether minimized-window icons are shown on the desktop.
    pub icons_enabled: bool,
    /// Font for icon labels. When `None`, falls back to a regular-weight
    /// variant of [`UiConfig::font_name`].
    pub icons_font_name: Option<String>,
    /// Font size for icon labels. When `None`, falls back to
    /// [`UiConfig::font_size`] * 0.80.
    pub icons_font_size: Option<FontSize>,
    /// Label color for non-selected icons. When `None`, falls back to
    /// [`UiConfig::menu_text`].
    pub icons_text: Option<u32>,
    /// Background for the selected icon and its label. When `None`, falls
    /// back to [`UiConfig::menu_highlight_bg`].
    pub icons_highlight_bg: Option<u32>,
    /// Text color for the selected icon and its label. When `None`, falls
    /// back to [`UiConfig::menu_highlight_text`].
    pub icons_highlight_text: Option<u32>,
}

/// A [`UiConfig`] by its contents.
#[verifier::ext_equal]
pub struct UiConfigView {
    pub border_width: i32,
    pub border_active: BorderLayers,
    pub border_inactive: BorderLayers,
    pub titlebar_text_active: u32,
    pub titlebar_text_inactive: u32,
    pub titlebar_bg_active: u32,
    pub titlebar_bg_inactive: u32,
    pub menu_bg: u32,
    pub menu_text: u32,
    pub menu_highlight_bg: u32,
    pub menu_highlight_text: u32,
    pub button_bg: u32,
    pub button_highlight: u32,
    pub button_shadow: u32,
    pub shadows_enabled: bool,
    pub shadows_active_size: i32,
    pub shadows_inactive_size: i32,
    pub shadows_color: u32,
    pub font_name: Option<Seq<char>>,
    pub font_size: FontSize,
    pub desktop_background: u32,
    pub icons_enabled: bool,
    pub icons_font_name: Option<Seq<char>>,
    pub icons_font_size: Option<FontSize>,
    pub icons_text: Option<u32>,
    pub icons_highlight_bg: Option<u32>,
    pub icons_highlight_text: Option<u32>,
}

impl View for UiConfig {
    type V = UiConfigView;

    open spec fn view(&self) -> UiConfigView {
        UiConfigView {
            border_width: self.border_width,
            border_active: self.border_active,
            border_inactive: self.border_inactive,
            titlebar_text_active: self.titlebar_text_active,
            titlebar_text_inactive: self.titlebar_text_inactive,
            titlebar_bg_active: self.titlebar_bg_active,
            titlebar_bg_inactive: self.titlebar_bg_inactive,
            menu_bg: self.menu_bg,
            menu_text: self.menu_text,
            menu_highlight_bg: self.menu_highlight_bg,
            menu_highlight_text: self.menu_highlight_text,
            button_bg: self.button_bg,
            button_highlight: self.button_highlight,
            button_shadow: self.button_shadow,
            shadows_enabled: self.shadows_enabled,
            shadows_active_size: self.shadows_active_size,
            shadows_inactive_size: self.shadows_inactive_size,
            shadows_color: self.shadows_color,
            font_name: opt_text(self.font_name),
            font_size: self.font_size,
            desktop_background: self.desktop_background,
            icons_enabled: self.icons_enabled,
            icons_font_name: opt_text(self.icons_font_name),
            icons_font_size: self.icons_font_size,
            icons_text: self.icons_text,
            icons_highlight_bg: self.icons_highlight_bg,
            icons_highlight_text: self.icons_highlight_text,
        }
    }
}

/// The built-in theme.
pub open spec fn default_ui() -> UiConfigView {
    UiConfigView {
        border_width: 4,
        border_active: default_layers(),
        border_inactive: default_layers(),
        titlebar_text_active: 0xFFFFFFFF,
        titlebar_text_inactive: 0x000000FF,
        titlebar_bg_active: 0x000080FF,
        titlebar_bg_inactive: 0xFFFFFFFF,
        menu_bg: 0xC0C0C0FF,
        menu_text: 0x000000FF,
        menu_highlight_bg: 0x000080FF,
        menu_highlight_text: 0xFFFFFFFF,
        button_bg: 0xC0C0C0FF,
        button_highlight: 0xFFFFFFFF,
        button_shadow: 0x808080FF,
        shadows_enabled: true,
        shadows_active_size: 20,
        shadows_inactive_size: 10,
        shadows_color: 0x00000033,
        font_name: None,
        font_size: default_font_size(),
        desktop_background: 0x008080FF,
        icons_enabled: true,
        icons_font_name: None,
        icons_font_size: None,
        icons_text: None,
        icons_highlight_bg: None,
        icons_highlight_text: None,
    }
}

impl Default for UiConfig {
    fn default() -> (r: Self)
        ensures
            r@ == default_ui(),
    {
        UiConfig {
            border_width: 4,
            border_active: BorderLayers::default(),
            border_inactive: BorderLayers::default(),
            titlebar_text_active: 0xFFFFFFFF,
            titlebar_text_inactive: 0x000000FF,
            titlebar_bg_active: 0x000080FF,
            titlebar_bg_inactive: 0xFFFFFFFF,
            menu_bg: 0xC0C0C0FF,
            menu_text: 0x000000FF,
            menu_highlight_bg: 0x000080FF,
            menu_highlight_text: 0xFFFFFFFF,
            button_bg: 0xC0C0C0FF,
            button_highlight: 0xFFFFFFFF,
            button_shadow: 0x808080FF,
            shadows_enabled: true,
            shadows_active_size: 20,
            shadows_inactive_size: 10,
            shadows_color: 0x00000033,
            font_name: None,
            font_size: FontSize { bits: 0x41400000, three_quarters: 9, ceiling: 12, half: 6 },
            desktop_background: 0x008080FF,
            icons_enabled: true,
            icons_font_name: None,
            icons_font_size: None,
            icons_text: None,
            icons_highlight_bg: None,
            icons_highlight_text: None,
        }
    }
}

/// Main configuration structure
#[derive(Debug)]
pub struct Config {
    pub env: Vec<(String, String)>,
    pub working_directory: Option<String>,
    pub startup_cmds: Vec<Vec<String>>,
    pub launcher_cmd: Vec<String>,
    pub terminal_cmd: Vec<String>,
    pub lock_cmd: Vec<String>,
    pub xcursor_theme: Option<XCursorTheme>,
    pub main_modifier: MainModifier,
    pub repeat_rate: i32,
    pub repeat_delay: i32,
    /// Scroll factor, as the bit pattern of a double-precision number.
    pub scroll_factor: u64,
    pub sloppy_focus: bool,
    pub border_color: BorderColor,
    pub ui: UiConfig,
    pub rules: Vec<Rule>,
    pub hotkeys: Vec<Hotkey>,
}

/// A user-configured global hotkey: a key chord that spawns a command.
#[derive(Debug)]
pub struct Hotkey {
    /// XKB keysym of the (unshifted) key.
    pub keysym: u32,
    /// Required modifier mask (see [`modifiers`]).
    pub modifiers: u32,
    /// Command to spawn, as an argv vector (first element is the program).
    pub argv: Vec<String>,
}

/// A [`Hotkey`] by its contents.
pub struct HotkeyView {
    pub keysym: u32,
    pub modifiers: u32,
    pub argv: Seq<Seq<char>>,
}

impl View for Hotkey {
    type V = HotkeyView;

    open spec fn view(&self) -> HotkeyView {
        HotkeyView { keysym: self.keysym, modifiers: self.modifiers, argv: texts(self.argv@) }
    }
}

pub open spec fn hotkey_views(s: Seq<Hotkey>) -> Seq<HotkeyView> {
    s.map_values(|h: Hotkey| h@)
}

/// The settings of a configuration file.
#[derive(Debug)]
pub struct FileConfig {
    pub main_modifier: Option<MainModifier>,
    pub launcher_cmd: Option<StringOrVec>,
    pub terminal_cmd: Option<StringOrVec>,
    pub lock_cmd: Option<StringOrVec>,
    pub ui: Option<UiConfigFile>,
    pub rules: Option<Vec<RuleFile>>,
    /// Key chords and the commands they spawn.
    pub hotkeys: Option<Vec<HotkeyFile>>,
}

/// One string, or a list of them.
#[derive(Debug)]
pub enum StringOrVec {
    One(String),
    Many(Vec<String>),
}

impl StringOrVec {
    /// The strings as a list.
    pub open spec fn list(self) -> Seq<Seq<char>> {
        match self {
            StringOrVec::One(s) => seq![s@],
            StringOrVec::Many(v) => texts(v@),
        }
    }
}

#[derive(Debug)]
pub struct RuleFile {
    pub match_app_id: Option<StringOrVec>,
    pub match_app_id_prefix: Option<StringOrVec>,
    pub match_props: Option<StringOrVec>,
    pub title: Option<StringOrVec>,
    pub app_id_regex: Option<String>,
    pub title_regex: Option<String>,
    pub force_ssd: Option<bool>,
    pub swallow_top: Option<i32>,
}

#[derive(Debug)]
pub struct UiConfigFile {
    pub border_width: Option<i32>,
    pub border_active: Option<BorderLayersFile>,
    pub border_inactive: Option<BorderLayersFile>,
    pub titlebar_text_active: Option<u32>,
    pub titlebar_text_inactive: Option<u32>,
    pub titlebar_bg_active: Option<u32>,
    pub titlebar_bg_inactive: Option<u32>,
    pub menu_bg: Option<u32>,
    pub menu_text: Option<u32>,
    pub menu_highlight_bg: Option<u32>,
    pub menu_highlight_text: Option<u32>,
    pub button_bg: Option<u32>,
    pub button_highlight: Option<u32>,
    pub button_shadow: Option<u32>,
    pub shadows_enabled: Option<bool>,
    pub shadows_active_size: Option<i32>,
    pub shadows_inactive_size: Option<i32>,
    pub shadows_color: Option<u32>,
    pub font_name: Option<String>,
    pub font_size: Option<FontSize>,
    pub desktop_background: Option<u32>,
    pub icons_enabled: Option<bool>,
    pub icons_font_name: Option<String>,
    pub icons_font_size: Option<FontSize>,
    pub icons_text: Option<u32>,
    pub icons_highlight_bg: Option<u32>,
    pub icons_highlight_text: Option<u32>,
}

#[derive(Debug, Clone, Copy)]
pub struct BorderLayersFile {
    pub outer: Option<u32>,
    pub mid: Option<u32>,
    pub inner: Option<u32>,
}

/// What a setting is after an override that may be missing.
pub open spec fn overridden<T>(now: T, with: Option<T>) -> T {
    match with {
        Some(value) => value,
        None => now,
    }
}

/// What an optional setting is after an override that may be missing.
pub open spec fn overridden_some<T>(now: Option<T>, with: Option<T>) -> Option<T> {
    match with {
        Some(value) => Some(value),
        None => now,
    }
}

/// A shadow size is never negative.
pub open spec fn overridden_size(now: i32, with: Option<i32>) -> i32 {
    match with {
        Some(size) => larger(size as int, 0) as i32,
        None => now,
    }
}

/// A font name is trimmed; an empty one means the default font.
pub open spec fn overridden_font(now: Option<Seq<char>>, with: Option<String>) -> Option<Seq<char>> {
    match with {
        Some(name) => if trimmed(name@).len() == 0 {
            None
        } else {
            Some(trimmed(name@))
        },
        None => now,
    }
}

impl BorderLayers {
    pub open spec fn applied(self, overrides: Option<BorderLayersFile>) -> BorderLayers {
        match overrides {
            Some(o) => BorderLayers {
                outer: overridden(self.outer, o.outer),
                mid: overridden(self.mid, o.mid),
                inner: overridden(self.inner, o.inner),
            },
            None => self,
        }
    }

    /// Replace the layers that the file sets.
    pub fn apply(&mut self, overrides: BorderLayersFile)
        ensures
            *final(self) == old(self).applied(Some(overrides)),
    {
        if let Some(outer) = overrides.outer {
            self.outer = outer;
        }
        if let Some(mid) = overrides.mid {
            self.mid = mid;
        }
        if let Some(inner) = overrides.inner {
            self.inner = inner;
        }
    }
}

impl UiConfigView {
    /// The theme with the settings of a file in place of its own.
    pub open spec fn applied(self, o: UiConfigFile) -> UiConfigView {
        UiConfigView {
            border_width: overridden(self.border_width, o.border_width),
            border_active: self.border_active.applied(o.border_active),
            border_inactive: self.border_inactive.applied(o.border_inactive),
            titlebar_text_active: overridden(self.titlebar_text_active, o.titlebar_text_active),
            titlebar_text_inactive: overridden(
                self.titlebar_text_inactive,
                o.titlebar_text_inactive,
            ),
            titlebar_bg_active: overridden(self.titlebar_bg_active, o.titlebar_bg_active),
            titlebar_bg_inactive: overridden(self.titlebar_bg_inactive, o.titlebar_bg_inactive),
            menu_bg: overridden(self.menu_bg, o.menu_bg),
            menu_text: overridden(self.menu_text, o.menu_text),
            menu_highlight_bg: overridden(self.menu_highlight_bg, o.menu_highlight_bg),
            menu_highlight_text: overridden(self.menu_highlight_text, o.menu_highlight_text),
            button_bg: overridden(self.button_bg, o.button_bg),
            button_highlight: overridden(self.button_highlight, o.button_highlight),
            button_shadow: overridden(self.button_shadow, o.button_shadow),
            shadows_enabled: overridden(self.shadows_enabled, o.shadows_enabled),
            shadows_active_size: overridden_size(self.shadows_active_size, o.shadows_active_size),
            shadows_inactive_size: overridden_size(
                self.shadows_inactive_size,
                o.shadows_inactive_size,
            ),
            shadows_color: overridden(self.shadows_color, o.shadows_color),
            font_name: overridden_font(self.font_name, o.font_name),
            font_size: overridden(self.font_size, o.font_size),
            desktop_background: overridden(self.desktop_background, o.desktop_background),
            icons_enabled: overridden(self.icons_enabled, o.icons_enabled),
            icons_font_name: overridden_font(self.icons_font_name, o.icons_font_name),
            icons_font_size: overridden_some(self.icons_font_size, o.icons_font_size),
            icons_text: overridden_some(self.icons_text, o.icons_text),
            icons_highlight_bg: overridden_some(self.icons_highlight_bg, o.icons_highlight_bg),
            icons_highlight_text: overridden_some(
                self.icons_highlight_text,
                o.icons_highlight_text,
            ),
        }
    }
}

/// Applying a file never leaves a negative shadow size behind, if there was
/// none before.
pub proof fn law_shadow_sizes_stay_nonnegative(ui: UiConfigView, overrides: UiConfigFile)
    requires
        ui.shadows_active_size >= 0,
        ui.shadows_inactive_size >= 0,
    ensures
        ui.applied(overrides).shadows_active_size >= 0,
        ui.applied(overrides).shadows_inactive_size >= 0,
{
}

/// A file that sets nothing.
pub open spec fn no_ui_settings() -> UiConfigFile {
    UiConfigFile {
        border_width: None,
        border_active: None,
        border_inactive: None,
        titlebar_text_active: None,
        titlebar_text_inactive: None,
        titlebar_bg_active: None,
        titlebar_bg_inactive: None,
        menu_bg: None,
        menu_text: None,
        menu_highlight_bg: None,
        menu_highlight_text: None,
        button_bg: None,
        button_highlight: None,
        button_shadow: None,
        shadows_enabled: None,
        shadows_active_size: None,
        shadows_inactive_size: None,
        shadows_color: None,
        font_name: None,
        font_size: None,
        desktop_background: None,
        icons_enabled: None,
        icons_font_name: None,
        icons_font_size: None,
        icons_text: None,
        icons_highlight_bg: None,
        icons_highlight_text: None,
    }
}

/// What a file does not mention stays as it is.
pub proof fn law_missing_settings_change_nothing(ui: UiConfigView, config: ConfigView)
    ensures
        ui.applied(no_ui_settings()) == ui,
        config.applied(
            FileConfig {
                main_modifier: None,
                launcher_cmd: None,
                terminal_cmd: None,
                lock_cmd: None,
                ui: None,
                rules: None,
                hotkeys: None,
            },
        ) == config,
{
}

/// Applying the same file twice is the same as applying it once.
pub proof fn law_applying_a_theme_twice_is_applying_it_once(ui: UiConfigView, overrides: UiConfigFile)
    ensures
        ui.applied(overrides).applied(overrides) == ui.applied(overrides),
{
}

/// A font name without its surrounding white space; `None` if nothing is left.
fn font_setting(name: &String) -> (r: Option<String>)
    ensures
        opt_text(r) == overridden_font(None, Some(*name)),
{
    let name = trim(name.as_str());
    if name.is_empty() {
        None
    } else {
        Some(name.to_string())
    }
}

/// The override, or what there was before.
fn either<T: Copy>(now: Option<T>, with: Option<T>) -> (r: Option<T>)
    ensures
        r == overridden_some(now, with),
{
    match with {
        Some(value) => Some(value),
        None => now,
    }
}

fn shadow_size(now: i32, with: Option<i32>) -> (r: i32)
    ensures
        r == overridden_size(now, with),
{
    match with {
        Some(size) => max_i32(size, 0),
        None => now,
    }
}

impl UiConfig {
    /// Replace the settings that the file sets.
    pub fn apply(&mut self, overrides: UiConfigFile)
        ensures
            final(self)@ == old(self)@.applied(overrides),
    {
        let o = overrides;
        self.border_width = o.border_width.unwrap_or(self.border_width);
        if let Some(border_active) = o.border_active {
            self.border_active.apply(border_active);
        }
        if let Some(border_inactive) = o.border_inactive {
            self.border_inactive.apply(border_inactive);
        }
        self.titlebar_text_active = o.titlebar_text_active.unwrap_or(self.titlebar_text_active);
        self.titlebar_text_inactive = o.titlebar_text_inactive.unwrap_or(self.titlebar_text_inactive);
        self.titlebar_bg_active = o.titlebar_bg_active.unwrap_or(self.titlebar_bg_active);
        self.titlebar_bg_inactive = o.titlebar_bg_inactive.unwrap_or(self.titlebar_bg_inactive);
        self.menu_bg = o.menu_bg.unwrap_or(self.menu_bg);
        self.menu_text = o.menu_text.unwrap_or(self.menu_text);
        self.menu_highlight_bg = o.menu_highlight_bg.unwrap_or(self.menu_highlight_bg);
        self.menu_highlight_text = o.menu_highlight_text.unwrap_or(self.menu_highlight_text);
        self.button_bg = o.button_bg.unwrap_or(self.button_bg);
        self.button_highlight = o.button_highlight.unwrap_or(self.button_highlight);
        self.button_shadow = o.button_shadow.unwrap_or(self.button_shadow);
        self.shadows_enabled = o.shadows_enabled.unwrap_or(self.shadows_enabled);
        self.shadows_active_size = shadow_size(self.shadows_active_size, o.shadows_active_size);
        self.shadows_inactive_size = shadow_size(self.shadows_inactive_size, o.shadows_inactive_size);
        self.shadows_color = o.shadows_color.unwrap_or(self.shadows_color);
        if let Some(font_name) = &o.font_name {
            self.font_name = font_setting(font_name);
        }
        self.font_size = o.font_size.unwrap_or(self.font_size);
        self.desktop_background = o.desktop_background.unwrap_or(self.desktop_background);
        self.icons_enabled = o.icons_enabled.unwrap_or(self.icons_enabled);
        if let Some(font_name) = &o.icons_font_name {
            self.icons_font_name = font_setting(font_name);
        }
        self.icons_font_size = either(self.icons_font_size, o.icons_font_size);
        self.icons_text = either(self.icons_text, o.icons_text);
        self.icons_highlight_bg = either(self.icons_highlight_bg, o.icons_highlight_bg);
        self.icons_highlight_text = either(self.icons_highlight_text, o.icons_highlight_text);
    }
}

/// The value of a hexadecimal digit.
pub open spec fn hex_digit(c: char) -> Option<u32> {
    if '0' <= c <= '9' {
        Some((c as u32 - '0' as u32) as u32)
    } else if 'a' <= c <= 'f' {
        Some((c as u32 - 'a' as u32 + 10) as u32)
    } else if 'A' <= c <= 'F' {
        Some((c as u32 - 'A' as u32 + 10) as u32)
    } else {
        None
    }
}

/// The value of two hexadecimal digits. A plus sign may stand in place of the
/// first one and counts as zero.
pub open spec fn hex_pair(a: char, b: char) -> Option<u32> {
    match (hex_digit(a), hex_digit(b)) {
        (Some(high), Some(low)) => Some((high * 16 + low) as u32),
        (None, Some(low)) if a == '+' => Some(low),
        _ => None,
    }
}

/// The colour with these channels, as 0xRRGGBBAA.
pub open spec fn rgba(r: u32, g: u32, b: u32, a: u32) -> u32 {
    (r * 0x1000000 + g * 0x10000 + b * 0x100 + a) as u32
}

/// The colour that `#rgb`, `#rrggbb` or `#rrggbbaa` stands for. White space
/// around it is ignored, one digit counts for two equal ones, and without an
/// alpha channel the colour is opaque.
pub open spec fn color(value: Seq<char>) -> Option<u32> {
    let text = trimmed(value);
    let hex = text.skip(1);
    if text.len() == 0 || text[0] != '#' {
        None
    } else if hex.len() == 3 {
        match (hex_digit(hex[0]), hex_digit(hex[1]), hex_digit(hex[2])) {
            (Some(r), Some(g), Some(b)) => Some(
                rgba((r * 0x11) as u32, (g * 0x11) as u32, (b * 0x11) as u32, 0xFF),
            ),
            _ => None,
        }
    } else if hex.len() == 6 {
        match (hex_pair(hex[0], hex[1]), hex_pair(hex[2], hex[3]), hex_pair(hex[4], hex[5])) {
            (Some(r), Some(g), Some(b)) => Some(rgba(r, g, b, 0xFF)),
            _ => None,
        }
    } else if hex.len() == 8 {
        match (
            hex_pair(hex[0], hex[1]),
            hex_pair(hex[2], hex[3]),
            hex_pair(hex[4], hex[5]),
            hex_pair(hex[6], hex[7]),
        ) {
            (Some(r), Some(g), Some(b), Some(a)) => Some(rgba(r, g, b, a)),
            _ => None,
        }
    } else {
        None
    }
}

pub proof fn lemma_hash_text_is_trimmed(text: Seq<char>)
    requires
        text.len() >= 2,
        text[0] == '#',
        !white(text.last()),
    ensures
        trimmed(text) == text,
{
    assert(!white('#'));
}

/// One digit for each channel means the same as each digit twice, and no alpha
/// channel means the same as a full one.
pub proof fn law_short_colors_mean_the_long_ones(r: char, g: char, b: char)
    requires
        hex_digit(r) is Some,
        hex_digit(g) is Some,
        hex_digit(b) is Some,
    ensures
        color(seq!['#', r, g, b]) is Some,
        color(seq!['#', r, g, b]) == color(seq!['#', r, r, g, g, b, b]),
        color(seq!['#', r, g, b]) == color(seq!['#', r, r, g, g, b, b, 'f', 'f']),
{
    let short = seq!['#', r, g, b];
    let long = seq!['#', r, r, g, g, b, b];
    let full = seq!['#', r, r, g, g, b, b, 'f', 'f'];
    lemma_hash_text_is_trimmed(short);
    lemma_hash_text_is_trimmed(long);
    lemma_hash_text_is_trimmed(full);
}

/// A colour in six digits is opaque.
pub proof fn law_colors_without_alpha_are_opaque(value: Seq<char>)
    requires
        trimmed(value).len() == 4 || trimmed(value).len() == 7,
    ensures
        color(value) matches Some(rgba) ==> rgba & 0xff == 0xff,
{
    if color(value) is Some {
        let c = color(value)->0;
        let hex = trimmed(value).skip(1);
        if hex.len() == 3 {
            lemma_opaque(
                (hex_digit(hex[0])->0 * 0x11) as u32,
                (hex_digit(hex[1])->0 * 0x11) as u32,
                (hex_digit(hex[2])->0 * 0x11) as u32,
            );
        } else {
            lemma_opaque(
                hex_pair(hex[0], hex[1])->0,
                hex_pair(hex[2], hex[3])->0,
                hex_pair(hex[4], hex[5])->0,
            );
        }
    }
}

proof fn lemma_opaque(r: u32, g: u32, b: u32)
    requires
        r <= 0xff,
        g <= 0xff,
        b <= 0xff,
    ensures
        rgba(r, g, b, 0xFF) & 0xff == 0xff,
{
    let c = rgba(r, g, b, 0xFF);
    assert(c == r * 0x1000000 + g * 0x10000 + b * 0x100 + 0xFF);
    assert(c & 0xff == 0xff) by (bit_vector)
        requires
            c == r * 0x1000000 + g * 0x10000 + b * 0x100 + 0xFF,
            r <= 0xff,
            g <= 0xff,
            b <= 0xff,
    ;
}

fn parse_hex_digit(c: char) -> (r: Option<u32>)
    ensures
        r == hex_digit(c),
        r matches Some(v) ==> v < 16,
{
    if '0' <= c && c <= '9' {
        Some(c as u32 - '0' as u32)
    } else if 'a' <= c && c <= 'f' {
        Some(c as u32 - 'a' as u32 + 10)
    } else if 'A' <= c && c <= 'F' {
        Some(c as u32 - 'A' as u32 + 10)
    } else {
        None
    }
}

fn parse_hex_pair(a: char, b: char) -> (r: Option<u32>)
    ensures
        r == hex_pair(a, b),
        r matches Some(v) ==> v < 256,
{
    let low: u32 = match parse_hex_digit(b) {
        Some(low) => low,
        None => return None,
    };
    match parse_hex_digit(a) {
        Some(high) => Some(high * 16 + low),
        None => if a == '+' {
            Some(low)
        } else {
            None
        },
    }
}

/// Parse a colour string such as `#112233`.
pub fn parse_color_str(value: &str) -> (r: Option<u32>)
    ensures
        r == color(value@),
{
    let text = trim(value);
    let n: usize = text.unicode_len();
    if n == 0 || text.get_char(0) != '#' {
        return None;
    }
    if n == 4 {
        let r: u32 = match parse_hex_digit(text.get_char(1)) {
            Some(v) => v,
            None => return None,
        };
        let g: u32 = match parse_hex_digit(text.get_char(2)) {
            Some(v) => v,
            None => return None,
        };
        let b: u32 = match parse_hex_digit(text.get_char(3)) {
            Some(v) => v,
            None => return None,
        };
        return Some(r * 0x11 * 0x1000000 + g * 0x11 * 0x10000 + b * 0x11 * 0x100 + 0xFF);
    }
    if n != 7 && n != 9 {
        return None;
    }
    let r: u32 = match parse_hex_pair(text.get_char(1), text.get_char(2)) {
        Some(v) => v,
        None => return None,
    };
    let g: u32 = match parse_hex_pair(text.get_char(3), text.get_char(4)) {
        Some(v) => v,
        None => return None,
    };
    let b: u32 = match parse_hex_pair(text.get_char(5), text.get_char(6)) {
        Some(v) => v,
        None => return None,
    };
    let mut a: u32 = 0xFF;
    if n == 9 {
        a = match parse_hex_pair(text.get_char(7), text.get_char(8)) {
            Some(v) => v,
            None => return None,
        };
    }
    Some(r * 0x1000000 + g * 0x10000 + b * 0x100 + a)
}

pub open spec fn opt_list(value: Option<StringOrVec>) -> Option<Seq<Seq<char>>> {
    match value {
        Some(value) => Some(value.list()),
        None => None,
    }
}

pub open spec fn opt_texts(value: Option<Vec<String>>) -> Option<Seq<Seq<char>>> {
    match value {
        Some(value) => Some(texts(value@)),
        None => None,
    }
}

/// A setting that may be one string or several, as a list.
pub fn string_or_vec(value: Option<StringOrVec>) -> (r: Option<Vec<String>>)
    ensures
        opt_texts(r) == opt_list(value),
{
    match value {
        Some(StringOrVec::One(s)) => {
            let mut list: Vec<String> = Vec::new();
            list.push(s);
            assert(texts(list@) =~= seq![s@]);
            Some(list)
        },
        Some(StringOrVec::Many(values)) => Some(values),
        None => None,
    }
}

/// `Some(true)` if the list holds the property, else nothing is required.
pub open spec fn prop_required(props: Option<Seq<Seq<char>>>, prop: Seq<char>) -> Option<bool> {
    match props {
        Some(props) if props.contains(prop) => Some(true),
        _ => None,
    }
}

/// What `match_props` requires: a client that only supports client-side
/// decorations, and a window without a parent.
pub fn parse_match_props(value: Option<StringOrVec>) -> (r: (Option<bool>, Option<bool>))
    ensures
        r.0 == prop_required(opt_list(value), "csd_only"@),
        r.1 == prop_required(opt_list(value), "toplevel"@),
{
    let ghost wanted = opt_list(value);
    let props: Vec<String> = match string_or_vec(value) {
        Some(props) => props,
        None => return (None, None),
    };
    let mut csd_only: bool = false;
    let mut toplevel: bool = false;
    let mut i: usize = 0;
    while i < props.len()
        invariant
            i <= props@.len(),
            csd_only == (exists|j: int| 0 <= j < i && (#[trigger] props@[j])@ == "csd_only"@),
            toplevel == (exists|j: int| 0 <= j < i && (#[trigger] props@[j])@ == "toplevel"@),
        decreases props@.len() - i,
    {
        if same(props[i].as_str(), "csd_only") {
            csd_only = true;
        }
        if same(props[i].as_str(), "toplevel") {
            toplevel = true;
        }
        i = i + 1;
    }
    proof {
        let list = texts(props@);
        if csd_only {
            let j = choose|j: int| 0 <= j < props@.len() && (#[trigger] props@[j])@ == "csd_only"@;
            assert(list[j] == "csd_only"@);
        }
        if toplevel {
            let j = choose|j: int| 0 <= j < props@.len() && (#[trigger] props@[j])@ == "toplevel"@;
            assert(list[j] == "toplevel"@);
        }
        if list.contains("csd_only"@) {
            let j = choose|j: int| 0 <= j < list.len() && list[j] == "csd_only"@;
            assert(props@[j]@ == "csd_only"@);
        }
        if list.contains("toplevel"@) {
            let j = choose|j: int| 0 <= j < list.len() && list[j] == "toplevel"@;
            assert(props@[j]@ == "toplevel"@);
        }
    }
    (
        if csd_only {
            Some(true)
        } else {
            None
        },
        if toplevel {
            Some(true)
        } else {
            None
        },
    )
}

/// The arguments without surrounding white space, the empty ones left out.
pub open spec fn cleaned(values: Seq<Seq<char>>) -> Seq<Seq<char>>
    decreases values.len(),
{
    if values.len() == 0 {
        Seq::empty()
    } else {
        let earlier = cleaned(values.drop_last());
        let last = trimmed(values.last());
        if last.len() == 0 {
            earlier
        } else {
            earlier.push(last)
        }
    }
}

/// Trim the arguments of a command and drop the empty ones.
pub fn clean_cmd_args(values: Vec<String>) -> (r: Vec<String>)
    ensures
        texts(r@) == cleaned(texts(values@)),
{
    let mut r: Vec<String> = Vec::new();
    let mut i: usize = 0;
    assert(texts(r@) =~= cleaned(texts(values@).take(0)));
    while i < values.len()
        invariant
            i <= values@.len(),
            texts(r@) == cleaned(texts(values@).take(i as int)),
        decreases values@.len() - i,
    {
        assert(texts(values@).take(i + 1).drop_last() =~= texts(values@).take(i as int));
        let value = trim(values[i].as_str());
        if !value.is_empty() {
            let ghost earlier = texts(r@);
            r.push(value.to_string());
            assert(texts(r@) =~= earlier.push(value@));
        }
        i = i + 1;
    }
    assert(texts(values@).take(i as int) =~= texts(values@));
    r
}

/// The mask bit of a modifier name, whatever its case.
pub open spec fn modifier_bit(token: Seq<char>) -> Option<u32> {
    let name = crate::text::lowered(trimmed(token));
    if name == "shift"@ {
        Some(modifiers::SHIFT)
    } else if name == "ctrl"@ || name == "control"@ {
        Some(modifiers::CTRL)
    } else if name == "alt"@ || name == "mod1"@ {
        Some(modifiers::ALT)
    } else if name == "super"@ || name == "logo"@ || name == "win"@ || name == "mod4"@ {
        Some(modifiers::SUPER)
    } else if name == "mod3"@ {
        Some(modifiers::MOD3)
    } else if name == "mod5"@ {
        Some(modifiers::MOD5)
    } else {
        None
    }
}

/// Parse a single modifier token (case-insensitive) into its mask bit.
pub fn parse_modifier(token: &str) -> (r: Option<u32>)
    ensures
        r == modifier_bit(token@),
{
    let name = trim(token);
    if same_lowered(name, "shift") {
        Some(modifiers::SHIFT)
    } else if same_lowered(name, "ctrl") || same_lowered(name, "control") {
        Some(modifiers::CTRL)
    } else if same_lowered(name, "alt") || same_lowered(name, "mod1") {
        Some(modifiers::ALT)
    } else if same_lowered(name, "super") || same_lowered(name, "logo") || same_lowered(
        name,
        "win",
    ) || same_lowered(name, "mod4") {
        Some(modifiers::SUPER)
    } else if same_lowered(name, "mod3") {
        Some(modifiers::MOD3)
    } else if same_lowered(name, "mod5") {
        Some(modifiers::MOD5)
    } else {
        None
    }
}

/// The keysym that a key lookup gave, where 0 stands for no such key.
pub open spec fn keysym_found(raw: u32) -> Option<u32> {
    if raw == 0 {
        None
    } else {
        Some(raw)
    }
}

/// What a key lookup means: 0 stands for no such key.
pub fn keysym_from_raw(raw: u32) -> (r: Option<u32>)
    ensures
        r == keysym_found(raw),
{
    if raw == 0 {
        None
    } else {
        Some(raw)
    }
}

/// The `+`-separated tokens of a chord, without surrounding white space.
pub open spec fn chord_tokens(chord: Seq<char>) -> Seq<Seq<char>> {
    split(chord, '+').map_values(|token: Seq<char>| trimmed(token))
}

/// The modifiers that the tokens name, all together; `None` if one is unknown.
pub open spec fn chord_modifiers(tokens: Seq<Seq<char>>) -> Option<u32>
    decreases tokens.len(),
{
    if tokens.len() == 0 {
        Some(0)
    } else {
        match (chord_modifiers(tokens.drop_last()), modifier_bit(tokens.last())) {
            (Some(earlier), Some(bit)) => Some(earlier | bit),
            _ => None,
        }
    }
}

/// The modifiers of a chord and the name of its key: the last token is the
/// key, every token before it a modifier. `None` if a modifier is unknown or
/// the key is missing.
pub open spec fn chord_parts(chord: Seq<char>) -> Option<(u32, Seq<char>)> {
    let tokens = chord_tokens(chord);
    let key = tokens.last();
    if key.len() == 0 {
        None
    } else {
        match chord_modifiers(tokens.drop_last()) {
            Some(bits) => Some((bits, key)),
            None => None,
        }
    }
}

/// The modifiers and keysym of a chord, where `raw` is what the lookup of its
/// key gave.
pub open spec fn chord_keys(chord: Seq<char>, raw: u32) -> Option<(u32, u32)> {
    match (chord_parts(chord), keysym_found(raw)) {
        (Some((bits, _)), Some(keysym)) => Some((bits, keysym)),
        _ => None,
    }
}

/// Trimming twice is trimming once.
pub proof fn lemma_trimmed_twice(s: Seq<char>)
    ensures
        trimmed(trimmed(s)) == trimmed(s),
{
    let t = crate::text::trim_start(s);
    lemma_trim_start_stops(s);
    lemma_trim_end_stops(t);
    lemma_trim_end_keeps_start(t);
}

proof fn lemma_trim_start_stops(s: Seq<char>)
    ensures
        crate::text::trim_start(s).len() > 0 ==> !white(crate::text::trim_start(s)[0]),
    decreases s.len(),
{
    if s.len() > 0 && white(s[0]) {
        lemma_trim_start_stops(s.drop_first());
    }
}

proof fn lemma_trim_end_stops(s: Seq<char>)
    ensures
        crate::text::trim_end(s).len() > 0 ==> !white(crate::text::trim_end(s).last()),
    decreases s.len(),
{
    if s.len() > 0 && white(s.last()) {
        lemma_trim_end_stops(s.drop_last());
    }
}

proof fn lemma_trim_end_keeps_start(s: Seq<char>)
    ensures
        crate::text::trim_end(s).len() > 0 ==> crate::text::trim_end(s)[0] == s[0],
    decreases s.len(),
{
    if s.len() > 0 && white(s.last()) {
        lemma_trim_end_keeps_start(s.drop_last());
    }
}

/// The modifiers of a chord and the name of its key.
pub fn parse_chord_parts(chord: &str) -> (r: Option<(u32, String)>)
    ensures
        (match r {
            Some(parts) => Some((parts.0, parts.1@)),
            None => None,
        }) == chord_parts(chord@),
{
    let pieces: Vec<&str> = split_at_char(chord, '+');
    let ghost tokens = chord_tokens(chord@);
    proof {
        crate::text::lemma_split_nonempty(chord@, '+');
        assert(str_texts(pieces@).len() == pieces@.len());
        assert forall|j: int| 0 <= j < pieces@.len() implies tokens[j] == trimmed(
            (#[trigger] pieces@[j])@,
        ) by {
            assert(str_texts(pieces@)[j] == pieces@[j]@);
        }
    }
    let count: usize = pieces.len() - 1;
    let key = trim(pieces[count]);
    if key.is_empty() {
        return None;
    }
    let mut bits: u32 = 0;
    let mut i: usize = 0;
    let ghost mods = tokens.drop_last();
    while i < count
        invariant
            i <= count,
            count + 1 == pieces@.len(),
            tokens == chord_tokens(chord@),
            tokens.len() == pieces@.len(),
            mods == tokens.drop_last(),
            tokens.last().len() > 0,
            forall|j: int| 0 <= j < pieces@.len() ==> tokens[j] == trimmed((#[trigger] pieces@[j])@),
            chord_modifiers(mods.take(i as int)) == Some(bits),
        decreases count - i,
    {
        assert(mods.take(i + 1).drop_last() =~= mods.take(i as int));
        proof {
            lemma_trimmed_twice(pieces@[i as int]@);
        }
        match parse_modifier(pieces[i]) {
            Some(bit) => {
                bits = bits | bit;
            },
            None => {
                proof {
                    lemma_unknown_modifier(mods, i as int);
                }
                return None;
            },
        }
        i = i + 1;
    }
    assert(mods.take(i as int) =~= mods);
    Some((bits, key.to_string()))
}

/// One unknown modifier makes the whole chord unknown.
proof fn lemma_unknown_modifier(mods: Seq<Seq<char>>, i: int)
    requires
        0 <= i < mods.len(),
        modifier_bit(mods[i]) is None,
    ensures
        chord_modifiers(mods) is None,
    decreases mods.len(),
{
    if i < mods.len() - 1 {
        lemma_unknown_modifier(mods.drop_last(), i);
    }
}

/// The name of the key of a chord, to be looked up whatever its case. `None` if
/// a modifier is unknown or the key is missing.
pub fn chord_key(chord: &str) -> (r: Option<String>)
    ensures
        opt_text(r) == (match chord_parts(chord@) {
            Some((_, key)) => Some(key),
            None => None,
        }),
{
    match parse_chord_parts(chord) {
        Some((_, key)) => Some(key),
        None => None,
    }
}

/// Parse a chord string such as `"Super+Shift+I"` into `(modifiers, keysym)`.
///
/// The final `+`-separated token is the key; every token before it is a
/// modifier. Returns `None` if any token is unrecognized or the key is missing.
///
/// `raw` is the XKB keysym of the key that [`chord_key`] names, looked up
/// whatever its case, and 0 if there is no such key. So a letter like `I`
/// resolves to the unshifted `i` keysym. That matches how the built-in bindings
/// are expressed (a base keysym plus an explicit `Shift` in the modifier mask)
/// and lets a chord fire off the physical key regardless of Shift state.
pub fn parse_chord(chord: &str, raw: u32) -> (r: Option<(u32, u32)>)
    ensures
        r == chord_keys(chord@, raw),
{
    match parse_chord_parts(chord) {
        Some((bits, _)) => match keysym_from_raw(raw) {
            Some(keysym) => Some((bits, keysym)),
            None => None,
        },
        None => None,
    }
}

/// Whether a lookup of keys by name can be asked about every name.
pub open spec fn is_lookup<F: Fn(&str) -> u32>(lookup: F) -> bool {
    forall|name: &str| #[trigger] lookup.requires((name,))
}

/// Whether a lookup may give `raw` for the key of a chord.
pub open spec fn key_found<F: Fn(&str) -> u32>(lookup: F, chord: Seq<char>, raw: u32) -> bool {
    chord_parts(chord) matches Some((_, key)) && exists|name: &str|
        name@ == key && #[trigger] lookup.ensures((name,), raw)
}

/// What a lookup gives for the key of a chord, if the chord has one and its
/// modifiers are known
pub fn look_up_key<F: Fn(&str) -> u32>(chord: &str, lookup: &F) -> (r: Option<u32>)
    requires
        is_lookup(*lookup),
    ensures
        r is None <==> chord_parts(chord@) is None,
        r matches Some(raw) ==> key_found(*lookup, chord@, raw),
{
    match chord_key(chord) {
        Some(key) => {
            let name: &str = key.as_str();
            let raw: u32 = lookup(name);
            assert(name@ == key@ && lookup.ensures((name,), raw));
            Some(raw)
        },
        None => None,
    }
}

/// Parse a chord string as [`parse_chord`] does, its key looked up by
/// `lookup`, which is given the name of the key.
pub fn parse_chord_by<F: Fn(&str) -> u32>(chord: &str, lookup: &F) -> (r: Option<(u32, u32)>)
    requires
        is_lookup(*lookup),
    ensures
        chord_parts(chord@) is None ==> r is None,
        chord_parts(chord@) is Some ==> exists|raw: u32| #[trigger]
            key_found(*lookup, chord@, raw) && r == chord_keys(chord@, raw),
{
    match look_up_key(chord, lookup) {
        Some(raw) => parse_chord(chord, raw),
        None => None,
    }
}

/// An entry of the `[hotkeys]` table.
#[derive(Debug)]
pub struct HotkeyFile {
    /// Key chord (e.g. `"Super+I"`)
    pub chord: String,
    /// The command it spawns
    pub cmd: StringOrVec,
    /// What the lookup of the chord's key gave (see [`parse_chord`])
    pub raw: u32,
}

impl HotkeyFile {
    /// An entry whose key is looked up by `lookup`. A chord that is none keeps
    /// the number that stands for no key.
    pub fn looked_up<F: Fn(&str) -> u32>(chord: String, cmd: StringOrVec, lookup: &F) -> (r: Self)
        requires
            is_lookup(*lookup),
        ensures
            r.chord == chord,
            r.cmd == cmd,
            chord_parts(chord@) is None ==> r.raw == 0,
            chord_parts(chord@) is Some ==> key_found(*lookup, chord@, r.raw),
    {
        let raw: u32 = match look_up_key(chord.as_str(), lookup) {
            Some(raw) => raw,
            None => 0,
        };
        HotkeyFile { chord, cmd, raw }
    }
}

/// The argv of a hotkey: a string is split at white space, a list is cleaned.
pub open spec fn hotkey_argv(cmd: StringOrVec) -> Seq<Seq<char>> {
    match cmd {
        StringOrVec::One(cmd) => words(cmd@),
        StringOrVec::Many(args) => cleaned(texts(args@)),
    }
}

/// A command written as a string means the list of its words.
pub proof fn law_commands_mean_their_words(cmd: Seq<char>)
    ensures
        cleaned(words(cmd)) == words(cmd),
{
    lemma_words(cmd);
    lemma_clean_words(words(cmd));
}

proof fn lemma_clean_words(values: Seq<Seq<char>>)
    requires
        forall|i: int| 0 <= i < values.len() ==> is_word(#[trigger] values[i]),
    ensures
        cleaned(values) == values,
    decreases values.len(),
{
    if values.len() > 0 {
        lemma_clean_words(values.drop_last());
        let last = values.last();
        assert(is_word(last));
        assert(!white(last[0]) && !white(last.last()));
        assert(values =~= values.drop_last().push(last));
    }
}

/// The hotkeys of a table, in its order, without the entries whose chord cannot
/// be parsed or whose command is empty.
pub open spec fn hotkeys_parsed(entries: Seq<HotkeyFile>) -> Seq<HotkeyView>
    decreases entries.len(),
{
    if entries.len() == 0 {
        Seq::empty()
    } else {
        let earlier = hotkeys_parsed(entries.drop_last());
        let entry = entries.last();
        let argv = hotkey_argv(entry.cmd);
        match chord_keys(entry.chord@, entry.raw) {
            Some((modifiers, keysym)) if argv.len() > 0 => earlier.push(
                HotkeyView { keysym, modifiers, argv },
            ),
            _ => earlier,
        }
    }
}

/// Build the hotkey list from the `[hotkeys]` config table, skipping any entry
/// whose chord can't be parsed or whose command is empty.
///
/// A string command is split on whitespace into an argv (so
/// `"control-panel -m display"` runs three arguments); the array form is the
/// explicit alternative for arguments that themselves contain spaces.
pub fn hotkeys_from_file(hotkeys: Vec<HotkeyFile>) -> (r: Vec<Hotkey>)
    ensures
        hotkey_views(r@) == hotkeys_parsed(hotkeys@),
{
    let mut r: Vec<Hotkey> = Vec::new();
    let ghost entries = hotkeys@;
    assert(hotkey_views(r@) =~= hotkeys_parsed(entries.take(0)));
    for entry in it: hotkeys
        invariant
            it.seq() == entries,
            hotkey_views(r@) == hotkeys_parsed(entries.take(it.index() as int)),
    {
        proof {
            let i = it.index() as int;
            assert(entries[i] == entry);
            assert(entries.take(i + 1).drop_last() =~= entries.take(i));
        }
        if let Some((modifiers, keysym)) = parse_chord(entry.chord.as_str(), entry.raw) {
            let argv: Vec<String> = match entry.cmd {
                StringOrVec::One(cmd) => split_words(cmd.as_str()),
                StringOrVec::Many(args) => clean_cmd_args(args),
            };
            assert(texts(argv@).len() == argv@.len());
            if argv.len() > 0 {
                let ghost earlier = hotkey_views(r@);
                let hotkey = Hotkey { keysym, modifiers, argv };
                let ghost view = hotkey@;
                r.push(hotkey);
                assert(hotkey_views(r@) =~= earlier.push(view));
            }
        }
    }
    assert(entries.take(entries.len() as int) =~= entries);
    r
}

/// A [`Rule`] by its contents.
pub struct RuleView {
    pub app_id: Option<Seq<Seq<char>>>,
    pub app_id_prefixes: Option<Seq<Seq<char>>>,
    pub title: Option<Seq<Seq<char>>>,
    pub app_id_regex: Option<Regex>,
    pub title_regex: Option<Regex>,
    pub require_csd_only: Option<bool>,
    pub require_no_parent: Option<bool>,
    pub force_ssd: bool,
    pub swallow_top: Option<i32>,
}

impl View for Rule {
    type V = RuleView;

    open spec fn view(&self) -> RuleView {
        RuleView {
            app_id: opt_texts(self.app_id),
            app_id_prefixes: opt_texts(self.app_id_prefixes),
            title: opt_texts(self.title),
            app_id_regex: self.app_id_regex,
            title_regex: self.title_regex,
            require_csd_only: self.require_csd_only,
            require_no_parent: self.require_no_parent,
            force_ssd: self.force_ssd,
            swallow_top: self.swallow_top,
        }
    }
}

/// The rule that an entry of the file describes.
pub open spec fn rule_parsed(rule: RuleFile) -> RuleView {
    RuleView {
        app_id: opt_list(rule.match_app_id),
        app_id_prefixes: opt_list(rule.match_app_id_prefix),
        title: opt_list(rule.title),
        app_id_regex: crate::rule::compiled(rule.app_id_regex),
        title_regex: crate::rule::compiled(rule.title_regex),
        require_csd_only: prop_required(opt_list(rule.match_props), "csd_only"@),
        require_no_parent: prop_required(opt_list(rule.match_props), "toplevel"@),
        force_ssd: overridden(false, rule.force_ssd),
        swallow_top: rule.swallow_top,
    }
}

/// Build the window rules from the config file.
pub fn rules_from_file(rules: Vec<RuleFile>) -> (r: Vec<Rule>)
    ensures
        r@.map_values(|rule: Rule| rule@) == rules@.map_values(|rule: RuleFile| rule_parsed(rule)),
{
    let mut r: Vec<Rule> = Vec::new();
    let ghost entries = rules@;
    for rule in it: rules
        invariant
            it.seq() == entries,
            r@.len() == it.index(),
            forall|j: int| 0 <= j < r@.len() ==> (#[trigger] r@[j])@ == rule_parsed(entries[j]),
    {
        assert(rule == entries[it.index() as int]);
        let (require_csd_only, require_no_parent) = parse_match_props(rule.match_props);
        r.push(
            Rule {
                app_id: string_or_vec(rule.match_app_id),
                app_id_prefixes: string_or_vec(rule.match_app_id_prefix),
                title: string_or_vec(rule.title),
                app_id_regex: crate::rule::compile_regex(rule.app_id_regex),
                title_regex: crate::rule::compile_regex(rule.title_regex),
                require_csd_only,
                require_no_parent,
                force_ssd: rule.force_ssd.unwrap_or(false),
                swallow_top: rule.swallow_top,
            },
        );
    }
    assert(r@.map_values(|rule: Rule| rule@) =~= entries.map_values(
        |rule: RuleFile| rule_parsed(rule),
    ));
    r
}

/// Get default window rules
pub fn default_rules() -> (r: Vec<Rule>)
    ensures
        r@.len() == 0,
{
    Vec::new()
}

/// A [`Config`] by its contents.
#[verifier::ext_equal]
pub struct ConfigView {
    pub env: Seq<(String, String)>,
    pub working_directory: Option<Seq<char>>,
    pub startup_cmds: Seq<Seq<Seq<char>>>,
    pub launcher_cmd: Seq<Seq<char>>,
    pub terminal_cmd: Seq<Seq<char>>,
    pub lock_cmd: Seq<Seq<char>>,
    pub xcursor_theme: Option<XCursorTheme>,
    pub main_modifier: MainModifier,
    pub repeat_rate: i32,
    pub repeat_delay: i32,
    pub scroll_factor: u64,
    pub sloppy_focus: bool,
    pub border_color: BorderColor,
    pub ui: UiConfigView,
    pub rules: Seq<RuleView>,
    pub hotkeys: Seq<HotkeyView>,
}

impl View for Config {
    type V = ConfigView;

    open spec fn view(&self) -> ConfigView {
        ConfigView {
            env: self.env@,
            working_directory: opt_text(self.working_directory),
            startup_cmds: self.startup_cmds@.map_values(|argv: Vec<String>| texts(argv@)),
            launcher_cmd: texts(self.launcher_cmd@),
            terminal_cmd: texts(self.terminal_cmd@),
            lock_cmd: texts(self.lock_cmd@),
            xcursor_theme: self.xcursor_theme,
            main_modifier: self.main_modifier,
            repeat_rate: self.repeat_rate,
            repeat_delay: self.repeat_delay,
            scroll_factor: self.scroll_factor,
            sloppy_focus: self.sloppy_focus,
            border_color: self.border_color,
            ui: self.ui@,
            rules: self.rules@.map_values(|rule: Rule| rule@),
            hotkeys: hotkey_views(self.hotkeys@),
        }
    }
}

/// The built-in configuration. Commands run in the home directory.
pub open spec fn default_config(home: Option<Seq<char>>) -> ConfigView {
    ConfigView {
        env: Seq::empty(),
        working_directory: home,
        startup_cmds: Seq::empty(),
        launcher_cmd: seq!["fuzzel"@],
        terminal_cmd: seq!["foot"@],
        lock_cmd: seq!["swaylock"@],
        xcursor_theme: None,
        main_modifier: MainModifier::Super,
        repeat_rate: 50,
        repeat_delay: 300,
        scroll_factor: 0x3FF0000000000000,
        sloppy_focus: false,
        border_color: BorderColor { focus: 0xffff00ff, unfocus: 0x888800ff, urgent: 0xff0000ff },
        ui: default_ui(),
        rules: Seq::empty(),
        hotkeys: Seq::empty(),
    }
}

/// A command setting replaces the command unless it is empty after cleaning.
pub open spec fn overridden_cmd(now: Seq<Seq<char>>, with: Option<StringOrVec>) -> Seq<Seq<char>> {
    match opt_list(with) {
        Some(list) if cleaned(list).len() > 0 => cleaned(list),
        _ => now,
    }
}

impl ConfigView {
    /// The configuration with the settings of a file in place of its own.
    pub open spec fn applied(self, file: FileConfig) -> ConfigView {
        ConfigView {
            main_modifier: overridden(self.main_modifier, file.main_modifier),
            launcher_cmd: overridden_cmd(self.launcher_cmd, file.launcher_cmd),
            terminal_cmd: overridden_cmd(self.terminal_cmd, file.terminal_cmd),
            lock_cmd: overridden_cmd(self.lock_cmd, file.lock_cmd),
            ui: match file.ui {
                Some(ui) => self.ui.applied(ui),
                None => self.ui,
            },
            rules: match file.rules {
                Some(rules) => rules@.map_values(|rule: RuleFile| rule_parsed(rule)),
                None => self.rules,
            },
            hotkeys: match file.hotkeys {
                Some(hotkeys) => hotkeys_parsed(hotkeys@),
                None => self.hotkeys,
            },
            ..self
        }
    }
}

fn one_word(word: &str) -> (r: Vec<String>)
    ensures
        texts(r@) == seq![word@],
{
    let mut r: Vec<String> = Vec::new();
    r.push(word.to_string());
    assert(texts(r@) =~= seq![word@]);
    r
}

fn command_setting(now: Vec<String>, with: Option<StringOrVec>) -> (r: Vec<String>)
    ensures
        texts(r@) == overridden_cmd(texts(now@), with),
{
    match string_or_vec(with) {
        Some(list) => {
            let cmd = clean_cmd_args(list);
            assert(texts(cmd@).len() == cmd@.len());
            if cmd.len() > 0 {
                cmd
            } else {
                now
            }
        },
        None => now,
    }
}

impl Config {
    /// The built-in configuration of a user with this home directory.
    pub fn with_home(home: Option<String>) -> (r: Self)
        ensures
            r@ == default_config(opt_text(home)),
    {
        let r = Config {
            env: Vec::new(),
            working_directory: home,
            startup_cmds: Vec::new(),
            launcher_cmd: one_word("fuzzel"),
            terminal_cmd: one_word("foot"),
            lock_cmd: one_word("swaylock"),
            xcursor_theme: None,
            main_modifier: MainModifier::default(),
            repeat_rate: 50,
            repeat_delay: 300,
            scroll_factor: 0x3FF0000000000000,
            sloppy_focus: false,
            border_color: BorderColor::default(),
            ui: UiConfig::default(),
            rules: default_rules(),
            hotkeys: Vec::new(),
        };
        assert(r@ =~= default_config(opt_text(home)));
        r
    }

    /// Replace the settings that the file sets.
    pub fn apply(self, file: FileConfig) -> (r: Self)
        ensures
            r@ == self@.applied(file),
    {
        let mut ui = self.ui;
        if let Some(overrides) = file.ui {
            ui.apply(overrides);
        }
        Config {
            env: self.env,
            working_directory: self.working_directory,
            startup_cmds: self.startup_cmds,
            launcher_cmd: command_setting(self.launcher_cmd, file.launcher_cmd),
            terminal_cmd: command_setting(self.terminal_cmd, file.terminal_cmd),
            lock_cmd: command_setting(self.lock_cmd, file.lock_cmd),
            xcursor_theme: self.xcursor_theme,
            main_modifier: file.main_modifier.unwrap_or(self.main_modifier),
            repeat_rate: self.repeat_rate,
            repeat_delay: self.repeat_delay,
            scroll_factor: self.scroll_factor,
            sloppy_focus: self.sloppy_focus,
            border_color: self.border_color,
            ui,
            rules: match file.rules {
                Some(rules) => rules_from_file(rules),
                None => self.rules,
            },
            hotkeys: match file.hotkeys {
                Some(hotkeys) => hotkeys_from_file(hotkeys),
                None => self.hotkeys,
            },
        }
    }
}

/// The configuration for a home directory and a parsed configuration file,
/// where one was found and could be parsed.
///
/// When `skip_config` is true the built-in defaults are returned unchanged,
/// whatever the file says (see the `--no-config` command-line flag).
pub fn load_config(skip_config: bool, home: Option<String>, file: Option<FileConfig>) -> (r: Config)
    ensures
        r@ == (match file {
            Some(file) if !skip_config => default_config(opt_text(home)).applied(file),
            _ => default_config(opt_text(home)),
        }),
{
    let config = Config::with_home(home);
    if skip_config {
        return config;
    }
    match file {
        Some(file) => config.apply(file),
        None => config,
    }
}

} // verus!
