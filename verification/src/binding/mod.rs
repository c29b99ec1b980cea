//! Key and pointer bindings.

pub mod action;
pub mod keysym;

pub use action::{Action, Direction, SnapSide, State};

use vstd::prelude::*;
use crate::config::Mode;
use action::ActionView;

verus! {

/// Which half of a key press triggers a binding.
#[derive(Debug, Clone, Copy, PartialEq, Eq, Structural)]
pub enum BindingEvent {
    Pressed,
    Released,
}

/// A key chord that triggers an action.
#[derive(Debug)]
pub struct XkbBinding {
    pub mode: Mode,
    pub keysym: u32,
    pub modifiers: u32,
    pub action: Action,
    pub event: BindingEvent,
    pub enabled: bool,
}

/// An [`XkbBinding`] with its action taken by its view.
pub struct XkbBindingView {
    pub mode: Mode,
    pub keysym: u32,
    pub modifiers: u32,
    pub action: ActionView,
    pub event: BindingEvent,
    pub enabled: bool,
}

impl View for XkbBinding {
    type V = XkbBindingView;

    open spec fn view(&self) -> XkbBindingView {
        XkbBindingView {
            mode: self.mode,
            keysym: self.keysym,
            modifiers: self.modifiers,
            action: self.action@,
            event: self.event,
            enabled: self.enabled,
        }
    }
}

impl XkbBinding {
    /// A binding that fires on press and is not enabled yet.
    pub fn new(mode: Mode, keysym: u32, modifiers: u32, action: Action) -> (r: Self)
        ensures
            r@ == (XkbBindingView {
                mode,
                keysym,
                modifiers,
                action: action@,
                event: BindingEvent::Pressed,
                enabled: false,
            }),
    {
        XkbBinding {
            mode,
            keysym,
            modifiers,
            action,
            event: BindingEvent::Pressed,
            enabled: false,
        }
    }

    /// The same binding, fired by `event`.
    pub fn with_event(self, event: BindingEvent) -> (r: Self)
        ensures
            r@ == (XkbBindingView { event, ..self@ }),
    {
        XkbBinding {
            mode: self.mode,
            keysym: self.keysym,
            modifiers: self.modifiers,
            action: self.action,
            event,
            enabled: self.enabled,
        }
    }
}

/// A pointer button that triggers an action.
#[derive(Debug)]
pub struct PointerBinding {
    pub mode: Mode,
    pub button: u32,
    pub modifiers: u32,
    pub action: Action,
    pub event: BindingEvent,
    pub enabled: bool,
}

/// A [`PointerBinding`] with its action taken by its view.
pub struct PointerBindingView {
    pub mode: Mode,
    pub button: u32,
    pub modifiers: u32,
    pub action: ActionView,
    pub event: BindingEvent,
    pub enabled: bool,
}

impl View for PointerBinding {
    type V = PointerBindingView;

    open spec fn view(&self) -> PointerBindingView {
        PointerBindingView {
            mode: self.mode,
            button: self.button,
            modifiers: self.modifiers,
            action: self.action@,
            event: self.event,
            enabled: self.enabled,
        }
    }
}

impl PointerBinding {
    /// A binding that fires on press and is not enabled yet.
    pub fn new(mode: Mode, button: u32, modifiers: u32, action: Action) -> (r: Self)
        ensures
            r@ == (PointerBindingView {
                mode,
                button,
                modifiers,
                action: action@,
                event: BindingEvent::Pressed,
                enabled: false,
            }),
    {
        PointerBinding {
            mode,
            button,
            modifiers,
            action,
            event: BindingEvent::Pressed,
            enabled: false,
        }
    }
}

} // verus!
