//! What the configuration file means.

use vstd::prelude::*;
use crate::config::{
    chord_modifiers, chord_parts, cleaned, color, hex_digit, hex_pair, hotkeys_parsed,
    lemma_hash_text_is_trimmed, modifier_bit, rule_parsed, ConfigView, FileConfig, HotkeyFile,
    HotkeyView, RuleFile, UiConfigFile, UiConfigView,
};
use crate::text::{lowered, texts, trimmed, white, words};

verus! {

/// Each setting of the theme that a file holds takes the place of the one before, and each that
/// it does not hold stays. A negative shadow size counts as none, and a font name that is empty
/// as the default font.
pub proof fn law_theme_settings_in_the_file_win(ui: UiConfigView, o: UiConfigFile)
    ensures
        ({
            let r = ui.applied(o);
            &&& o.border_width matches Some(v) ==> r.border_width == v
            &&& o.border_width is None ==> r.border_width == ui.border_width
            &&& o.titlebar_text_active matches Some(v) ==> r.titlebar_text_active == v
            &&& o.titlebar_text_active is None ==> r.titlebar_text_active == ui.titlebar_text_active
            &&& o.titlebar_text_inactive matches Some(v) ==> r.titlebar_text_inactive == v
            &&& o.titlebar_text_inactive is None ==> r.titlebar_text_inactive == ui.titlebar_text_inactive
            &&& o.titlebar_bg_active matches Some(v) ==> r.titlebar_bg_active == v
            &&& o.titlebar_bg_active is None ==> r.titlebar_bg_active == ui.titlebar_bg_active
            &&& o.titlebar_bg_inactive matches Some(v) ==> r.titlebar_bg_inactive == v
            &&& o.titlebar_bg_inactive is None ==> r.titlebar_bg_inactive == ui.titlebar_bg_inactive
            &&& o.menu_bg matches Some(v) ==> r.menu_bg == v
            &&& o.menu_bg is None ==> r.menu_bg == ui.menu_bg
            &&& o.menu_text matches Some(v) ==> r.menu_text == v
            &&& o.menu_text is None ==> r.menu_text == ui.menu_text
            &&& o.menu_highlight_bg matches Some(v) ==> r.menu_highlight_bg == v
            &&& o.menu_highlight_bg is None ==> r.menu_highlight_bg == ui.menu_highlight_bg
            &&& o.menu_highlight_text matches Some(v) ==> r.menu_highlight_text == v
            &&& o.menu_highlight_text is None ==> r.menu_highlight_text == ui.menu_highlight_text
            &&& o.button_bg matches Some(v) ==> r.button_bg == v
            &&& o.button_bg is None ==> r.button_bg == ui.button_bg
            &&& o.button_highlight matches Some(v) ==> r.button_highlight == v
            &&& o.button_highlight is None ==> r.button_highlight == ui.button_highlight
            &&& o.button_shadow matches Some(v) ==> r.button_shadow == v
            &&& o.button_shadow is None ==> r.button_shadow == ui.button_shadow
            &&& o.shadows_enabled matches Some(v) ==> r.shadows_enabled == v
            &&& o.shadows_enabled is None ==> r.shadows_enabled == ui.shadows_enabled
            &&& o.shadows_color matches Some(v) ==> r.shadows_color == v
            &&& o.shadows_color is None ==> r.shadows_color == ui.shadows_color
            &&& o.font_size matches Some(v) ==> r.font_size == v
            &&& o.font_size is None ==> r.font_size == ui.font_size
            &&& o.desktop_background matches Some(v) ==> r.desktop_background == v
            &&& o.desktop_background is None ==> r.desktop_background == ui.desktop_background
            &&& o.icons_enabled matches Some(v) ==> r.icons_enabled == v
            &&& o.icons_enabled is None ==> r.icons_enabled == ui.icons_enabled
            &&& o.icons_font_size is Some ==> r.icons_font_size == o.icons_font_size
            &&& o.icons_font_size is None ==> r.icons_font_size == ui.icons_font_size
            &&& o.icons_text is Some ==> r.icons_text == o.icons_text
            &&& o.icons_text is None ==> r.icons_text == ui.icons_text
            &&& o.icons_highlight_bg is Some ==> r.icons_highlight_bg == o.icons_highlight_bg
            &&& o.icons_highlight_bg is None ==> r.icons_highlight_bg == ui.icons_highlight_bg
            &&& o.icons_highlight_text is Some ==> r.icons_highlight_text == o.icons_highlight_text
            &&& o.icons_highlight_text is None ==> r.icons_highlight_text == ui.icons_highlight_text
            &&& o.shadows_active_size matches Some(v) ==> (v >= 0 ==> r.shadows_active_size == v) && (v < 0 ==> r.shadows_active_size == 0)
            &&& o.shadows_active_size is None ==> r.shadows_active_size == ui.shadows_active_size
            &&& o.shadows_inactive_size matches Some(v) ==> (v >= 0 ==> r.shadows_inactive_size == v) && (v < 0 ==> r.shadows_inactive_size == 0)
            &&& o.shadows_inactive_size is None ==> r.shadows_inactive_size == ui.shadows_inactive_size
            &&& o.font_name matches Some(v) ==> (trimmed(v@).len() > 0 ==> r.font_name == Some(trimmed(v@))) && (trimmed(v@).len() == 0 ==> r.font_name is None)
            &&& o.font_name is None ==> r.font_name == ui.font_name
            &&& o.icons_font_name matches Some(v) ==> (trimmed(v@).len() > 0 ==> r.icons_font_name == Some(trimmed(v@))) && (trimmed(v@).len() == 0 ==> r.icons_font_name is None)
            &&& o.icons_font_name is None ==> r.icons_font_name == ui.icons_font_name
            &&& o.border_active matches Some(b) ==> (b.outer matches Some(v) ==> r.border_active.outer == v) && (b.outer is None ==> r.border_active.outer == ui.border_active.outer)
            &&& o.border_active matches Some(b) ==> (b.mid matches Some(v) ==> r.border_active.mid == v) && (b.mid is None ==> r.border_active.mid == ui.border_active.mid)
            &&& o.border_active matches Some(b) ==> (b.inner matches Some(v) ==> r.border_active.inner == v) && (b.inner is None ==> r.border_active.inner == ui.border_active.inner)
            &&& o.border_active is None ==> r.border_active == ui.border_active
            &&& o.border_inactive matches Some(b) ==> (b.outer matches Some(v) ==> r.border_inactive.outer == v) && (b.outer is None ==> r.border_inactive.outer == ui.border_inactive.outer)
            &&& o.border_inactive matches Some(b) ==> (b.mid matches Some(v) ==> r.border_inactive.mid == v) && (b.mid is None ==> r.border_inactive.mid == ui.border_inactive.mid)
            &&& o.border_inactive matches Some(b) ==> (b.inner matches Some(v) ==> r.border_inactive.inner == v) && (b.inner is None ==> r.border_inactive.inner == ui.border_inactive.inner)
            &&& o.border_inactive is None ==> r.border_inactive == ui.border_inactive
        }),
{
}

/// The settings of a file take the place of those before, and what it does not set stays. A
/// command that is empty is not taken. What no file can set stays as well.
pub proof fn law_settings_in_the_file_win(config: ConfigView, file: FileConfig)
    ensures
        ({
            let r = config.applied(file);
            &&& file.main_modifier matches Some(v) ==> r.main_modifier == v
            &&& file.main_modifier is None ==> r.main_modifier == config.main_modifier
            &&& file.launcher_cmd matches Some(v) ==> (cleaned(v.list()).len() > 0 ==> r.launcher_cmd
                == cleaned(v.list())) && (cleaned(v.list()).len() == 0 ==> r.launcher_cmd
                == config.launcher_cmd)
            &&& file.launcher_cmd is None ==> r.launcher_cmd == config.launcher_cmd
            &&& file.terminal_cmd matches Some(v) ==> (cleaned(v.list()).len() > 0 ==> r.terminal_cmd
                == cleaned(v.list())) && (cleaned(v.list()).len() == 0 ==> r.terminal_cmd
                == config.terminal_cmd)
            &&& file.terminal_cmd is None ==> r.terminal_cmd == config.terminal_cmd
            &&& file.lock_cmd matches Some(v) ==> (cleaned(v.list()).len() > 0 ==> r.lock_cmd
                == cleaned(v.list())) && (cleaned(v.list()).len() == 0 ==> r.lock_cmd
                == config.lock_cmd)
            &&& file.lock_cmd is None ==> r.lock_cmd == config.lock_cmd
            &&& file.ui is None ==> r.ui == config.ui
            &&& file.ui matches Some(ui) ==> r.ui == config.ui.applied(ui)
            &&& file.rules is None ==> r.rules == config.rules
            &&& file.rules matches Some(rules) ==> r.rules.len() == rules@.len()
            &&& file.hotkeys is None ==> r.hotkeys == config.hotkeys
            &&& file.hotkeys matches Some(hotkeys) ==> r.hotkeys == hotkeys_parsed(hotkeys@)
            &&& r.sloppy_focus == config.sloppy_focus
            &&& r.working_directory == config.working_directory
            &&& r.startup_cmds == config.startup_cmds
            &&& r.repeat_rate == config.repeat_rate && r.repeat_delay == config.repeat_delay
        }),
{
}

/// The arguments of a command keep their order when they are cleaned, and where none of them is
/// empty none is lost.
pub proof fn law_cleaned_arguments_keep_their_order(values: Seq<Seq<char>>)
    requires
        forall|i: int| 0 <= i < values.len() ==> trimmed(#[trigger] values[i]).len() > 0,
    ensures
        cleaned(values).len() == values.len(),
        forall|i: int| 0 <= i < values.len() ==> #[trigger] cleaned(values)[i] == trimmed(values[i]),
    decreases values.len(),
{
    if values.len() > 0 {
        let rest = values.drop_last();
        assert forall|i: int| 0 <= i < rest.len() implies trimmed(#[trigger] rest[i]).len() > 0 by {
            assert(rest[i] == values[i]);
        }
        law_cleaned_arguments_keep_their_order(rest);
        assert(values.last() == values[values.len() - 1]);
        assert forall|i: int| 0 <= i < values.len() implies #[trigger] cleaned(values)[i] == trimmed(
            values[i],
        ) by {
            if i < rest.len() {
                assert(cleaned(rest)[i] == trimmed(rest[i]));
            }
        }
    }
}

/// No argument is empty after cleaning.
pub proof fn law_cleaned_arguments_are_not_empty(values: Seq<Seq<char>>, k: int)
    requires
        0 <= k < cleaned(values).len(),
    ensures
        cleaned(values)[k].len() > 0,
    decreases values.len(),
{
    if values.len() > 0 {
        let earlier = cleaned(values.drop_last());
        if k < earlier.len() {
            law_cleaned_arguments_are_not_empty(values.drop_last(), k);
        }
    }
}

/// The digits count from nought to nine and on from ten, in small letters as in capitals.
pub proof fn law_digits_count_up(c: char)
    ensures
        '0' <= c <= '9' ==> hex_digit(c) == Some((c as u32 - 48) as u32),
        'a' <= c <= 'f' ==> hex_digit(c) == Some((c as u32 - 87) as u32),
        'A' <= c <= 'F' ==> hex_digit(c) == Some((c as u32 - 55) as u32),
        !('0' <= c <= '9' || 'a' <= c <= 'f' || 'A' <= c <= 'F') ==> hex_digit(c) is None,
{
}

/// Two digits count as one number, the first one sixteenfold.
pub proof fn law_first_digit_counts_sixteenfold(a: char, b: char)
    requires
        hex_digit(a) is Some,
        hex_digit(b) is Some,
    ensures
        hex_pair(a, b) == Some((hex_digit(a)->0 * 16 + hex_digit(b)->0) as u32),
        hex_pair(a, b)->0 <= 255,
{
}

/// In a colour of eight digits the first two are red, then come green, blue and opacity.
pub proof fn law_digits_are_red_green_blue_alpha(
    r1: char,
    r0: char,
    g1: char,
    g0: char,
    b1: char,
    b0: char,
    a1: char,
    a0: char,
)
    requires
        hex_pair(r1, r0) is Some,
        hex_pair(g1, g0) is Some,
        hex_pair(b1, b0) is Some,
        hex_pair(a1, a0) is Some,
    ensures
        color(seq!['#', r1, r0, g1, g0, b1, b0, a1, a0]) == Some(
            (hex_pair(r1, r0)->0 * 16777216 + hex_pair(g1, g0)->0 * 65536 + hex_pair(b1, b0)->0 * 256
                + hex_pair(a1, a0)->0) as u32,
        ),
{
    let text = seq!['#', r1, r0, g1, g0, b1, b0, a1, a0];
    assert(trimmed(text) == text) by {
        lemma_digit_is_not_white(a0);
        lemma_hash_text_is_trimmed(text);
    }
    let r = hex_pair(r1, r0);
    let g = hex_pair(g1, g0);
    let b = hex_pair(b1, b0);
    let a = hex_pair(a1, a0);
    lemma_color_of_channels(text, r->0, g->0, b->0, a->0);
}

proof fn lemma_digit_is_not_white(c: char)
    requires
        hex_digit(c) is Some,
    ensures
        !white(c),
{
}

proof fn lemma_color_of_channels(text: Seq<char>, r: u32, g: u32, b: u32, a: u32)
    requires
        text.len() == 9,
        text[0] == '#',
        trimmed(text) == text,
        hex_pair(text[1], text[2]) == Some(r),
        hex_pair(text[3], text[4]) == Some(g),
        hex_pair(text[5], text[6]) == Some(b),
        hex_pair(text[7], text[8]) == Some(a),
    ensures
        color(text) == Some((r * 16777216 + g * 65536 + b * 256 + a) as u32),
{
    let hex = text.skip(1);
    assert(hex.len() == 8);
    assert(hex[0] == text[1] && hex[1] == text[2] && hex[2] == text[3] && hex[3] == text[4]);
    assert(hex[4] == text[5] && hex[5] == text[6] && hex[6] == text[7] && hex[7] == text[8]);
}

/// Each modifier that a chord names is one of those that the chord takes, and the last part of a
/// chord is its key.
pub proof fn law_chord_takes_each_modifier_it_names(tokens: Seq<Seq<char>>, k: int)
    requires
        0 <= k < tokens.len(),
        chord_modifiers(tokens) is Some,
    ensures
        modifier_bit(tokens[k]) matches Some(bit) && chord_modifiers(tokens)->0 & bit == bit,
    decreases tokens.len(),
{
    let rest = tokens.drop_last();
    let earlier = chord_modifiers(rest)->0;
    let last = modifier_bit(tokens.last())->0;
    if k < rest.len() {
        law_chord_takes_each_modifier_it_names(rest, k);
        assert(rest[k] == tokens[k]);
        let bit = modifier_bit(tokens[k])->0;
        assert((earlier | last) & bit == bit) by (bit_vector)
            requires
                earlier & bit == bit,
        ;
    } else {
        assert((earlier | last) & last == last) by (bit_vector);
    }
}

/// A chord without modifiers is its key alone. The names of the modifiers stand for the masks
/// that the compositor knows them by.
pub proof fn law_modifiers_have_their_masks(token: Seq<char>)
    ensures
        chord_modifiers(Seq::empty()) == Some(0u32),
        ({
            let name = lowered(trimmed(token));
            &&& name == "shift"@ ==> modifier_bit(token) == Some(1u32)
            &&& name == "ctrl"@ || name == "control"@ ==> modifier_bit(token) == Some(4u32)
            &&& name == "alt"@ || name == "mod1"@ ==> modifier_bit(token) == Some(8u32)
            &&& name == "super"@ || name == "logo"@ || name == "win"@ || name == "mod4"@
                ==> modifier_bit(token) == Some(64u32)
        }),
{
    reveal_strlit("shift");
    reveal_strlit("ctrl");
    reveal_strlit("control");
    reveal_strlit("alt");
    reveal_strlit("mod1");
    reveal_strlit("super");
    reveal_strlit("logo");
    reveal_strlit("win");
    reveal_strlit("mod4");
    reveal_strlit("mod3");
    reveal_strlit("mod5");
    let name = lowered(trimmed(token));
    if name == "ctrl"@ || name == "alt"@ || name == "win"@ || name == "mod1"@ || name == "mod4"@
        || name == "logo"@ || name == "super"@ || name == "control"@ {
        assert(name.len() == 4 || name.len() == 3 || name.len() == 5 || name.len() == 7);
        assert(name[0] == 'c' || name[0] == 'a' || name[0] == 'w' || name[0] == 'm' || name[0] == 'l'
            || name[0] == 's');
        assert(name != "shift"@) by {
            if name == "shift"@ {
                assert(name[1] == 'h');
            }
        }
        assert(name == "mod4"@ ==> name != "mod1"@) by {
            if name == "mod4"@ {
                assert(name[3] == '4');
            }
        }
    }
}

/// An entry of the hotkey table whose chord and command are understood adds its hotkey behind
/// the others, with that chord and that command. Any other entry adds nothing.
pub proof fn law_hotkeys_keep_their_order(entries: Seq<HotkeyFile>, entry: HotkeyFile, argv: Seq<Seq<char>>)
    requires
        argv == (match entry.cmd {
            crate::config::StringOrVec::One(cmd) => words(cmd@),
            crate::config::StringOrVec::Many(args) => cleaned(texts(args@)),
        }),
    ensures
        ({
            let before = hotkeys_parsed(entries);
            let after = hotkeys_parsed(entries + seq![entry]);
            &&& chord_parts(entry.chord@) is None || entry.raw == 0 || argv.len() == 0 ==> after
                == before
            &&& chord_parts(entry.chord@) matches Some((bits, _)) ==> (entry.raw != 0 && argv.len()
                > 0 ==> after == before + seq![
                HotkeyView { keysym: entry.raw, modifiers: bits, argv },
            ])
        }),
{
    let all = entries + seq![entry];
    assert(all.drop_last() =~= entries);
    assert(all.last() == entry);
    if let Some((bits, _)) = chord_parts(entry.chord@) {
        let hotkey = HotkeyView { keysym: entry.raw, modifiers: bits, argv };
        assert(hotkeys_parsed(entries).push(hotkey) =~= hotkeys_parsed(entries) + seq![hotkey]);
    }
}

/// A rule of the file asks for what its entry says; decorations are forced only where it says so.
pub proof fn law_rules_of_the_file_say_what_they_say(rule: RuleFile)
    ensures
        rule_parsed(rule).force_ssd <==> rule.force_ssd == Some(true),
        rule_parsed(rule).swallow_top == rule.swallow_top,
        rule.match_app_id matches Some(list) ==> rule_parsed(rule).app_id == Some(list.list()),
        rule.match_app_id is None ==> rule_parsed(rule).app_id is None,
        rule.match_app_id_prefix matches Some(list) ==> rule_parsed(rule).app_id_prefixes == Some(
            list.list(),
        ),
        rule.title matches Some(list) ==> rule_parsed(rule).title == Some(list.list()),
        rule.match_props is None ==> rule_parsed(rule).require_csd_only is None && rule_parsed(
            rule,
        ).require_no_parent is None,
        rule.match_props matches Some(props) ==> {
            &&& rule_parsed(rule).require_csd_only == Some(true) <==> props.list().contains(
                "csd_only"@,
            )
            &&& rule_parsed(rule).require_no_parent == Some(true) <==> props.list().contains(
                "toplevel"@,
            )
            &&& rule_parsed(rule).require_csd_only != Some(false)
            &&& rule_parsed(rule).require_no_parent != Some(false)
        },
{
}

} // verus!
