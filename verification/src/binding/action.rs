//! Binding actions: what happens when a binding is triggered.

use vstd::prelude::*;
use crate::binding::{keysym, BindingEvent};
use crate::config::{button, modifiers, MainModifier, Mode};
use crate::text::{clone_strings, texts};

verus! {

/// Direction for iteration/movement
#[derive(Debug, Clone, Copy, PartialEq, Eq, Structural)]
pub enum Direction {
    Forward,
    Reverse,
}

/// Snap target side for window actions
#[derive(Debug, Clone, Copy, PartialEq, Eq, Structural)]
pub enum SnapSide {
    Left,
    Right,
}

impl SnapSide {
    pub open spec fn spec_opposite(self) -> Self {
        match self {
            SnapSide::Left => SnapSide::Right,
            SnapSide::Right => SnapSide::Left,
        }
    }

    #[verifier::when_used_as_spec(spec_opposite)]
    pub fn opposite(self) -> (r: Self)
        ensures
            r == self.opposite(),
    {
        match self {
            Self::Left => Self::Right,
            Self::Right => Self::Left,
        }
    }
}

/// The opposite of the opposite side is the side itself.
pub proof fn law_snap_side_opposite_is_an_involution(side: SnapSide)
    ensures
        side.opposite().opposite() == side,
        side.opposite() != side,
{
}

/// Window manager state for custom actions
#[derive(Debug, Clone, Copy, PartialEq, Eq, Structural)]
pub struct State {}

/// Argument types for custom functions
#[derive(Debug, Clone, Copy, PartialEq, Eq, Structural)]
pub enum Arg {
    Absent,
    Int(i32),
    /// A floating-point number, by its bit pattern.
    Float { bits: u32 },
    Uint(u32),
    Char(char),
}

/// Names a custom action function: its index in the program's table of them.
pub type CustomFn = usize;

/// All possible binding actions
#[derive(Debug)]
pub enum Action {
    /// Quit the window manager
    Quit,
    /// Close the focused window
    Close,
    /// Spawn a command
    Spawn { argv: Vec<String> },
    /// Spawn a shell command
    SpawnShell { cmd: String },
    /// Spawn the application launcher on the focused output
    SpawnLauncher,
    /// Spawn the terminal
    SpawnTerminal,
    /// Spawn the screen locker
    SpawnLock,
    /// Cycle focus through windows
    FocusIter { direction: Direction },
    /// Cycle focus through outputs
    FocusOutputIter { direction: Direction },
    /// Send focused window to another output
    SendToOutput { direction: Direction },
    /// Start pointer move operation
    PointerMove,
    /// Start pointer resize operation
    PointerResize,
    /// Switch input mode
    SwitchMode { mode: Mode },
    /// Toggle fullscreen
    ToggleFullscreen { in_window: bool },
    /// Hide (minimize) the focused window
    HideFocused,
    /// Unfullscreen/unmaximize if needed, otherwise hide (minimize) the focused window
    SmartHideFocused,
    /// Snap to a half; if on the opposite side, restore
    SmartSnapHalf { side: SnapSide },
    /// Maximize the focused window to the output
    MaximizeFocused,
    /// Activate selected window menu item
    ActivateMenuHovered,
    /// Cycle window menu entries
    WindowMenuCycle,
    /// Cycle window menu entries for the focused application
    WindowMenuCycleApp,
    /// Activate selected window menu item
    WindowMenuCommit,
    /// Close the window menu without activating anything
    WindowMenuCancel,
    /// Clear keyboard focus
    ClearFocus,
    /// Restore keyboard focus to the last focused window
    RestoreFocus,
    /// Move desktop icon selection to next icon
    IconSelectNext,
    /// Move desktop icon selection to previous icon
    IconSelectPrev,
    /// Move desktop icon selection up one row
    IconSelectUp,
    /// Move desktop icon selection down one row
    IconSelectDown,
    /// Activate (restore) the selected desktop icon
    IconActivate,
    /// Cancel desktop icon selection and exit icon mode
    IconCancel,
    /// Custom function action
    CustomFn { func: CustomFn, arg: Arg },
}

/// An [`Action`] with its strings taken by their characters.
pub enum ActionView {
    Plain(Action),
    Spawn(Seq<Seq<char>>),
    SpawnShell(Seq<char>),
}

impl View for Action {
    type V = ActionView;

    open spec fn view(&self) -> ActionView {
        match *self {
            Action::Spawn { argv } => ActionView::Spawn(texts(argv@)),
            Action::SpawnShell { cmd } => ActionView::SpawnShell(cmd@),
            plain => ActionView::Plain(plain),
        }
    }
}

impl Default for Action {
    fn default() -> (r: Self)
        ensures
            r == Action::Quit,
    {
        Action::Quit
    }
}

impl Clone for Action {
    fn clone(&self) -> (r: Self)
        ensures
            r@ == self@,
    {
        match self {
            Action::Quit => Action::Quit,
            Action::Close => Action::Close,
            Action::Spawn { argv } => Action::Spawn { argv: clone_strings(argv) },
            Action::SpawnShell { cmd } => Action::SpawnShell { cmd: cmd.clone() },
            Action::SpawnLauncher => Action::SpawnLauncher,
            Action::SpawnTerminal => Action::SpawnTerminal,
            Action::SpawnLock => Action::SpawnLock,
            Action::FocusIter { direction } => Action::FocusIter { direction: *direction },
            Action::FocusOutputIter { direction } => Action::FocusOutputIter { direction: *direction },
            Action::SendToOutput { direction } => Action::SendToOutput { direction: *direction },
            Action::PointerMove => Action::PointerMove,
            Action::PointerResize => Action::PointerResize,
            Action::SwitchMode { mode } => Action::SwitchMode { mode: *mode },
            Action::ToggleFullscreen { in_window } => Action::ToggleFullscreen { in_window: *in_window },
            Action::HideFocused => Action::HideFocused,
            Action::SmartHideFocused => Action::SmartHideFocused,
            Action::SmartSnapHalf { side } => Action::SmartSnapHalf { side: *side },
            Action::MaximizeFocused => Action::MaximizeFocused,
            Action::ActivateMenuHovered => Action::ActivateMenuHovered,
            Action::WindowMenuCycle => Action::WindowMenuCycle,
            Action::WindowMenuCycleApp => Action::WindowMenuCycleApp,
            Action::WindowMenuCommit => Action::WindowMenuCommit,
            Action::WindowMenuCancel => Action::WindowMenuCancel,
            Action::ClearFocus => Action::ClearFocus,
            Action::RestoreFocus => Action::RestoreFocus,
            Action::IconSelectNext => Action::IconSelectNext,
            Action::IconSelectPrev => Action::IconSelectPrev,
            Action::IconSelectUp => Action::IconSelectUp,
            Action::IconSelectDown => Action::IconSelectDown,
            Action::IconActivate => Action::IconActivate,
            Action::IconCancel => Action::IconCancel,
            Action::CustomFn { func, arg } => Action::CustomFn { func: *func, arg: *arg },
        }
    }
}

/// One row of the key binding table: mode, keysym, modifiers, action, event.
pub type XkbRow = (Mode, u32, u32, Action, BindingEvent);

/// An [`XkbRow`] with its action taken by its view.
pub type XkbRowView = (Mode, u32, u32, ActionView, BindingEvent);

pub open spec fn xkb_row_view(row: XkbRow) -> XkbRowView {
    (row.0, row.1, row.2, row.3@, row.4)
}

pub open spec fn xkb_rows_view(rows: Seq<XkbRow>) -> Seq<XkbRowView> {
    rows.map_values(|row: XkbRow| xkb_row_view(row))
}

/// A row of the default mode that fires on press.
pub open spec fn pressed(keysym: u32, modifiers: u32, action: Action) -> XkbRowView {
    (Mode::Default, keysym, modifiers, action@, BindingEvent::Pressed)
}

/// A row of the desktop icon mode.
pub open spec fn icon_key(keysym: u32, modifiers: u32, action: Action) -> XkbRowView {
    (Mode::DesktopIcons, keysym, modifiers, action@, BindingEvent::Pressed)
}

/// Left and right keysym of the main modifier key.
pub open spec fn main_keys(main_modifier: MainModifier) -> (u32, u32) {
    match main_modifier {
        MainModifier::Alt => (keysym::ALT_L, keysym::ALT_R),
        MainModifier::Super => (keysym::SUPER_L, keysym::SUPER_R),
    }
}

/// The built-in key bindings.
#[verifier::opaque]
pub open spec fn default_xkb_table(main_modifier: MainModifier) -> Seq<XkbRowView> {
    let main = main_modifier.mask();
    let shift = modifiers::SHIFT;
    let super_alt = modifiers::SUPER | modifiers::ALT;
    let none = modifiers::NONE;
    let prev = Action::SendToOutput { direction: Direction::Reverse };
    let next = Action::SendToOutput { direction: Direction::Forward };
    seq![
        pressed(keysym::W, main, Action::Close),
        pressed(keysym::DOWN, main, Action::SmartHideFocused),
        pressed(keysym::UP, main, Action::MaximizeFocused),
        pressed(keysym::LEFT, main, Action::SmartSnapHalf { side: SnapSide::Left }),
        pressed(keysym::RIGHT, main, Action::SmartSnapHalf { side: SnapSide::Right }),
        pressed(keysym::LEFT, super_alt, prev),
        pressed(keysym::RIGHT, super_alt, next),
        pressed(keysym::UP, super_alt, prev),
        pressed(keysym::DOWN, super_alt, next),
        pressed(keysym::TAB, main, Action::WindowMenuCycle),
        pressed(keysym::GRAVE, main, Action::WindowMenuCycleApp),
        pressed(keysym::TAB, main | shift, Action::WindowMenuCycle),
        (Mode::Default, main_keys(main_modifier).0, none, Action::WindowMenuCommit@, BindingEvent::Released),
        (Mode::Default, main_keys(main_modifier).1, none, Action::WindowMenuCommit@, BindingEvent::Released),
        pressed(keysym::RETURN, main, Action::ToggleFullscreen { in_window: false }),
        (Mode::Default, keysym::RETURN, main | shift, ActionView::Spawn(seq!["foot"@]), BindingEvent::Pressed),
        pressed(keysym::SPACE, main, Action::SpawnLauncher),
        pressed(keysym::H, main, Action::HideFocused),
        pressed(keysym::M, main, Action::HideFocused),
        icon_key(keysym::RIGHT, none, Action::IconSelectNext),
        icon_key(keysym::TAB, none, Action::IconSelectNext),
        icon_key(keysym::LEFT, none, Action::IconSelectPrev),
        icon_key(keysym::TAB, shift, Action::IconSelectPrev),
        icon_key(keysym::UP, none, Action::IconSelectUp),
        icon_key(keysym::DOWN, none, Action::IconSelectDown),
        icon_key(keysym::RETURN, none, Action::IconActivate),
        icon_key(keysym::ESCAPE, none, Action::IconCancel),
    ]
}

fn add_row(rows: &mut Vec<XkbRow>, mode: Mode, keysym: u32, modifiers: u32, action: Action, event: BindingEvent)
    ensures
        xkb_rows_view(final(rows)@) == xkb_rows_view(old(rows)@).push(
            (mode, keysym, modifiers, action@, event),
        ),
{
    rows.push((mode, keysym, modifiers, action, event));
    assert(xkb_rows_view(rows@) =~= xkb_rows_view(old(rows)@).push(
        (mode, keysym, modifiers, action@, event),
    ));
}

fn add_pressed(rows: &mut Vec<XkbRow>, keysym: u32, modifiers: u32, action: Action)
    ensures
        xkb_rows_view(final(rows)@) == xkb_rows_view(old(rows)@).push(
            (Mode::Default, keysym, modifiers, action@, BindingEvent::Pressed),
        ),
{
    add_row(rows, Mode::Default, keysym, modifiers, action, BindingEvent::Pressed);
}

fn add_icon_key(rows: &mut Vec<XkbRow>, keysym: u32, modifiers: u32, action: Action)
    ensures
        xkb_rows_view(final(rows)@) == xkb_rows_view(old(rows)@).push(
            (Mode::DesktopIcons, keysym, modifiers, action@, BindingEvent::Pressed),
        ),
{
    add_row(rows, Mode::DesktopIcons, keysym, modifiers, action, BindingEvent::Pressed);
}

/// Default keybindings configuration for stacking WM
pub fn default_xkb_bindings(main_modifier: MainModifier) -> (rows: Vec<XkbRow>)
    ensures
        xkb_rows_view(rows@) == default_xkb_table(main_modifier),
{
    proof {
        reveal(default_xkb_table);
    }
    let main: u32 = main_modifier.mask();
    let shift: u32 = modifiers::SHIFT;
    let super_alt: u32 = modifiers::SUPER | modifiers::ALT;
    let none: u32 = modifiers::NONE;
    let (main_left, main_right): (u32, u32) = match main_modifier {
        MainModifier::Alt => (keysym::ALT_L, keysym::ALT_R),
        MainModifier::Super => (keysym::SUPER_L, keysym::SUPER_R),
    };

    let mut rows: Vec<XkbRow> = Vec::new();
    let r = &mut rows;
    // Essential window management
    add_pressed(r, keysym::W, main, Action::Close);
    add_pressed(r, keysym::DOWN, main, Action::SmartHideFocused);
    add_pressed(r, keysym::UP, main, Action::MaximizeFocused);
    add_pressed(r, keysym::LEFT, main, Action::SmartSnapHalf { side: SnapSide::Left });
    add_pressed(r, keysym::RIGHT, main, Action::SmartSnapHalf { side: SnapSide::Right });
    // Send window to other output
    add_pressed(r, keysym::LEFT, super_alt, Action::SendToOutput { direction: Direction::Reverse });
    add_pressed(r, keysym::RIGHT, super_alt, Action::SendToOutput { direction: Direction::Forward });
    add_pressed(r, keysym::UP, super_alt, Action::SendToOutput { direction: Direction::Reverse });
    add_pressed(r, keysym::DOWN, super_alt, Action::SendToOutput { direction: Direction::Forward });
    // Focus navigation (cycle through windows)
    add_pressed(r, keysym::TAB, main, Action::WindowMenuCycle);
    add_pressed(r, keysym::GRAVE, main, Action::WindowMenuCycleApp);
    add_pressed(r, keysym::TAB, main | shift, Action::WindowMenuCycle);
    add_row(r, Mode::Default, main_left, none, Action::WindowMenuCommit, BindingEvent::Released);
    add_row(r, Mode::Default, main_right, none, Action::WindowMenuCommit, BindingEvent::Released);
    // Fullscreen toggle
    add_pressed(r, keysym::RETURN, main, Action::ToggleFullscreen { in_window: false });
    // Spawn terminal
    let mut argv: Vec<String> = Vec::new();
    argv.push("foot".to_string());
    assert(texts(argv@) =~= seq!["foot"@]);
    add_pressed(r, keysym::RETURN, main | shift, Action::Spawn { argv });
    // Spawn launcher
    add_pressed(r, keysym::SPACE, main, Action::SpawnLauncher);
    add_pressed(r, keysym::H, main, Action::HideFocused);
    add_pressed(r, keysym::M, main, Action::HideFocused);
    // Desktop icon navigation (DesktopIcons mode)
    add_icon_key(r, keysym::RIGHT, none, Action::IconSelectNext);
    add_icon_key(r, keysym::TAB, none, Action::IconSelectNext);
    add_icon_key(r, keysym::LEFT, none, Action::IconSelectPrev);
    add_icon_key(r, keysym::TAB, shift, Action::IconSelectPrev);
    add_icon_key(r, keysym::UP, none, Action::IconSelectUp);
    add_icon_key(r, keysym::DOWN, none, Action::IconSelectDown);
    add_icon_key(r, keysym::RETURN, none, Action::IconActivate);
    add_icon_key(r, keysym::ESCAPE, none, Action::IconCancel);
    assert(xkb_rows_view(rows@) =~= default_xkb_table(main_modifier));
    rows
}

/// One row of the pointer binding table: mode, button, modifiers, action.
pub type PointerRow = (Mode, u32, u32, Action);

pub open spec fn pointer_row_view(row: PointerRow) -> (Mode, u32, u32, ActionView) {
    (row.0, row.1, row.2, row.3@)
}

/// The built-in pointer bindings: main+drag moves, main+right-drag resizes.
pub open spec fn default_pointer_table(main_modifier: MainModifier) -> Seq<(Mode, u32, u32, ActionView)> {
    seq![
        (Mode::Default, button::LEFT, main_modifier.mask(), Action::PointerMove@),
        (Mode::Default, button::RIGHT, main_modifier.mask(), Action::PointerResize@),
    ]
}

/// Default pointer bindings
pub fn default_pointer_bindings(main_modifier: MainModifier) -> (rows: Vec<PointerRow>)
    ensures
        rows@.map_values(|row: PointerRow| pointer_row_view(row)) == default_pointer_table(
            main_modifier,
        ),
{
    let mut rows: Vec<PointerRow> = Vec::new();
    rows.push((Mode::Default, button::LEFT, main_modifier.mask(), Action::PointerMove));
    rows.push((Mode::Default, button::RIGHT, main_modifier.mask(), Action::PointerResize));
    assert(rows@.map_values(|row: PointerRow| pointer_row_view(row)) =~= default_pointer_table(
        main_modifier,
    ));
    rows
}

/// Whether a key with modifiers, pressed in the default mode, is bound to an action.
pub open spec fn bound(rows: Seq<XkbRowView>, keysym: u32, modifiers: u32, action: Action) -> bool {
    rows.contains((Mode::Default, keysym, modifiers, ActionView::Plain(action), BindingEvent::Pressed))
}

/// The built-in arrow keys do what they point at: with the main modifier, left and right snap to
/// that side, up maximizes and down makes smaller or hides; with Super and Alt, left and up send to
/// the output before, right and down to the one behind. Dragging with the
/// left button moves, with the right one resizes.
pub proof fn law_arrow_keys_point_where_they_go(main_modifier: MainModifier)
    ensures
        ({
            let rows = default_xkb_table(main_modifier);
            let main = if main_modifier == MainModifier::Alt {
                8u32
            } else {
                64u32
            };
            &&& bound(rows, 0xff51, main, Action::SmartSnapHalf { side: SnapSide::Left })
            &&& bound(rows, 0xff53, main, Action::SmartSnapHalf { side: SnapSide::Right })
            &&& bound(rows, 0xff52, main, Action::MaximizeFocused)
            &&& bound(rows, 0xff54, main, Action::SmartHideFocused)
            &&& bound(rows, 0xff51, 72, Action::SendToOutput { direction: Direction::Reverse })
            &&& bound(rows, 0xff52, 72, Action::SendToOutput { direction: Direction::Reverse })
            &&& bound(rows, 0xff53, 72, Action::SendToOutput { direction: Direction::Forward })
            &&& bound(rows, 0xff54, 72, Action::SendToOutput { direction: Direction::Forward })
            &&& bound(rows, 0x77, main, Action::Close)
            &&& bound(rows, 0xff09, main, Action::WindowMenuCycle)
            &&& bound(rows, 0x68, main, Action::HideFocused)
            &&& bound(rows, 0x20, main, Action::SpawnLauncher)
        }),
        ({
            let rows = default_pointer_table(main_modifier);
            &&& rows[0].1 == 0x110 && rows[0].3 == ActionView::Plain(Action::PointerMove)
            &&& rows[1].1 == 0x111 && rows[1].3 == ActionView::Plain(Action::PointerResize)
        }),
{
    reveal(default_xkb_table);
    assert(64u32 | 8u32 == 72u32) by (bit_vector);
    let rows = default_xkb_table(main_modifier);
    let main = main_modifier.mask();
    assert(rows[0] == pressed(0x77, main, Action::Close));
    assert(rows[1] == pressed(0xff54, main, Action::SmartHideFocused));
    assert(rows[2] == pressed(0xff52, main, Action::MaximizeFocused));
    assert(rows[3] == pressed(0xff51, main, Action::SmartSnapHalf { side: SnapSide::Left }));
    assert(rows[4] == pressed(0xff53, main, Action::SmartSnapHalf { side: SnapSide::Right }));
    assert(rows[5] == pressed(0xff51, 72, Action::SendToOutput { direction: Direction::Reverse }));
    assert(rows[6] == pressed(0xff53, 72, Action::SendToOutput { direction: Direction::Forward }));
    assert(rows[7] == pressed(0xff52, 72, Action::SendToOutput { direction: Direction::Reverse }));
    assert(rows[8] == pressed(0xff54, 72, Action::SendToOutput { direction: Direction::Forward }));
    assert(rows[9] == pressed(0xff09, main, Action::WindowMenuCycle));
    assert(rows[16] == pressed(0x20, main, Action::SpawnLauncher));
    assert(rows[17] == pressed(0x68, main, Action::HideFocused));
}

/// While the keyboard is with the icons, the arrow keys go to the icon that they point at, Return
/// opens it and Escape gives the keyboard back.
pub proof fn law_icon_keys_point_where_they_go(main_modifier: MainModifier)
    ensures
        ({
            let rows = default_xkb_table(main_modifier);
            let key = |keysym: u32, action: Action|
                rows.contains(
                    (
                        Mode::DesktopIcons,
                        keysym,
                        0u32,
                        ActionView::Plain(action),
                        BindingEvent::Pressed,
                    ),
                );
            &&& key(0xff53, Action::IconSelectNext)
            &&& key(0xff51, Action::IconSelectPrev)
            &&& key(0xff52, Action::IconSelectUp)
            &&& key(0xff54, Action::IconSelectDown)
            &&& key(0xff0d, Action::IconActivate)
            &&& key(0xff1b, Action::IconCancel)
        }),
{
    reveal(default_xkb_table);
    let rows = default_xkb_table(main_modifier);
    assert(rows[19] == icon_key(0xff53, 0, Action::IconSelectNext));
    assert(rows[21] == icon_key(0xff51, 0, Action::IconSelectPrev));
    assert(rows[23] == icon_key(0xff52, 0, Action::IconSelectUp));
    assert(rows[24] == icon_key(0xff54, 0, Action::IconSelectDown));
    assert(rows[25] == icon_key(0xff0d, 0, Action::IconActivate));
    assert(rows[26] == icon_key(0xff1b, 0, Action::IconCancel));
}

} // verus!
