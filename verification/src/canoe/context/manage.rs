//! The manage sequence: what seats and windows asked for is carried out.

use vstd::prelude::*;
use crate::binding::action::ActionView;
use crate::binding::Action;
use crate::canoe::context::objects::{apply_rules_to, ruled};
use crate::canoe::context::{lemma_each_window, Context, ContextView};
use crate::canoe::menu::MenuView;
use crate::canoe::scale::{is_scaling, scaling};
use crate::canoe::seat::{action_views, SeatView};
use crate::canoe::window::{FullscreenState, Staged, Window, WindowEvent, WindowView};
use crate::canoe::{OutputId, SeatId, WindowId, WindowMenuMode};
use crate::config::{Config, Mode};
use crate::protocol::{ObjectId, Request, Requests};
use crate::rule::Rule;
use crate::text::{clone_strings, texts};

verus! {

impl Staged {
    /// Gets rules, decoration and a size of its own choice, as a new window.
    #[verifier::opaque]
    pub open spec fn initialized(self, rules: Seq<Rule>) -> Staged {
        let s = self.ruled(rules);
        let s = match s.window.decoration {
            Some(decoration) => s.set_decoration(decoration),
            None => s,
        };
        s.propose_raw(0, 0)
    }

    /// Whether the geometry from before fullscreen is still to be restored.
    pub open spec fn restore_due(self) -> bool {
        self.window.pending_unfullscreen_restore && self.window.fullscreen == FullscreenState::Off
            && self.window.pre_fullscreen is Some
    }

    /// Goes back to where it was before fullscreen, if that is due.
    #[verifier::opaque]
    pub open spec fn fullscreen_restored(self) -> Staged {
        match self.window.pre_fullscreen {
            Some(saved) => if self.restore_due() {
                let s = self.restore(saved);
                s.with(WindowView { pending_unfullscreen_restore: false, ..s.window })
            } else {
                self
            },
            None => self,
        }
    }

    /// Starts a resize that the client asked for.
    #[verifier::opaque]
    pub open spec fn resize_asked(self, seat: SeatId, edges: u32) -> Staged {
        self.clear_maximized_without_restore().start_resize(seat, edges)
    }
}

/// The step that restores a window after fullscreen.
pub open spec fn restoring() -> spec_fn(Staged) -> Staged {
    |s: Staged| s.fullscreen_restored()
}

impl Window {
    /// Get rules, decoration and a size of its own choice, as a new window
    pub fn initialize(&mut self, config: &Config, requests: &mut Requests)
        ensures
            final(self).staged(final(requests)) == old(self).staged(old(requests)).initialized(
                config.rules@,
            ),
    {
        proof {
            reveal(Staged::initialized);
        }
        apply_rules_to(config, self, requests);

        // Apply decoration preference (if any)
        if let Some(decoration) = self.decoration {
            self.set_decoration(decoration, requests);
        }

        // Dimensions must be proposed for the window to be displayed. Zero
        // lets the window pick its own preferred size; that size comes back
        // in a dimensions event.
        self.propose_preferred_dimensions(requests);
    }

    /// Go back to where the window was before fullscreen, if that is due
    pub fn restore_after_fullscreen(&mut self, requests: &mut Requests)
        ensures
            final(self).staged(final(requests)) == old(self).staged(
                old(requests),
            ).fullscreen_restored(),
    {
        proof {
            reveal(Staged::fullscreen_restored);
        }
        if self.pending_unfullscreen_restore && self.fullscreen == FullscreenState::Off {
            if let Some(saved) = self.pre_fullscreen {
                self.restore(saved, requests);
                self.pending_unfullscreen_restore = false;
            }
        }
    }

    /// Start a resize that the client asked for
    pub fn resize_as_asked(&mut self, seat: SeatId, edges: u32, requests: &mut Requests)
        ensures
            final(self).staged(final(requests)) == old(self).staged(old(requests)).resize_asked(
                seat,
                edges,
            ),
    {
        proof {
            reveal(Staged::resize_asked);
        }
        self.clear_maximized_without_restore(requests);
        self.start_resize(seat, edges, requests);
    }
}

impl ContextView {
    /// Asks the client of a window to close it.
    #[verifier::opaque]
    pub open spec fn close_asked(self, id: WindowId) -> ContextView {
        match self.window_index(id) {
            Some(i) => ContextView { requests: self.staged(i).close().requests, ..self },
            None => self,
        }
    }

    /// Switches the mode of a seat.
    #[verifier::opaque]
    pub open spec fn mode_switched(self, seat: SeatId, mode: Mode) -> ContextView {
        match self.seat_index(seat) {
            Some(j) => self.commit_seat(j, self.staged_seat(j).switch_mode(mode)),
            None => self,
        }
    }

    /// Ends fullscreen or being maximized on a window, or else hides it.
    #[verifier::opaque]
    pub open spec fn smart_hidden(self, id: WindowId) -> ContextView {
        match self.window(id) {
            Some(w) => if w.fullscreen != FullscreenState::Off {
                self.unfullscreened(id)
            } else if w.maximized {
                self.unmaximized(id)
            } else {
                self.hide_window(id)
            },
            None => self,
        }
    }

    /// Hovers the next item of an alt-tab menu.
    #[verifier::opaque]
    pub open spec fn menu_cycled(self) -> ContextView {
        match self.window_menu {
            Some(menu) => if self.window_menu_mode == Some(WindowMenuMode::AltTab) {
                ContextView {
                    window_menu: Some(MenuView { hovered: menu.next_item(), ..menu }),
                    ..self
                }
            } else {
                self
            },
            None => self,
        }
    }

    /// Goes to the window hovered in a menu opened by the pointer.
    #[verifier::opaque]
    pub open spec fn pointer_menu_activated(self) -> ContextView {
        if self.window_menu_mode == Some(WindowMenuMode::Pointer) && self.hovered_item() is Some {
            self.menu_activated()
        } else {
            self
        }
    }

    /// Ends alt-tab by going to the hovered window, if one is.
    #[verifier::opaque]
    pub open spec fn alt_tab_committed(self) -> ContextView {
        if self.window_menu_mode == Some(WindowMenuMode::AltTab) {
            if self.hovered_item() is Some {
                self.menu_activated()
            } else {
                self.menu_closed()
            }
        } else {
            self
        }
    }

    /// Ends alt-tab without going anywhere.
    #[verifier::opaque]
    pub open spec fn alt_tab_cancelled(self) -> ContextView {
        if self.window_menu_mode == Some(WindowMenuMode::AltTab) {
            self.menu_closed()
        } else {
            self
        }
    }

    /// What a window action does to the focused window.
    #[verifier::opaque]
    pub open spec fn window_acted(self, action: Action, id: WindowId) -> ContextView {
        match action {
            Action::Close => self.close_asked(id),
            Action::HideFocused => self.hide_window(id),
            Action::SmartHideFocused => self.smart_hidden(id),
            Action::SmartSnapHalf { side } => self.snapped_half(id, side),
            Action::MaximizeFocused => self.maximized(id),
            _ => self,
        }
    }

    /// What an action on menus and icons does.
    #[verifier::opaque]
    pub open spec fn menu_acted(self, action: Action, seat: SeatId) -> ContextView {
        match action {
            Action::ActivateMenuHovered => self.pointer_menu_activated(),
            Action::WindowMenuCycle => self.menu_cycled(),
            Action::WindowMenuCycleApp => self.menu_cycled(),
            Action::WindowMenuCommit => self.alt_tab_committed(),
            Action::WindowMenuCancel => self.alt_tab_cancelled(),
            Action::IconSelectNext => self.icon_navigated(1, 0),
            Action::IconSelectPrev => self.icon_navigated(-1, 0),
            Action::IconSelectUp => self.icon_navigated(0, -1),
            Action::IconSelectDown => self.icon_navigated(0, 1),
            Action::IconActivate => self.icon_activated(seat),
            Action::IconCancel => self.icon_focus_left(seat),
            _ => self,
        }
    }

    /// What an action does.
    #[verifier::opaque]
    pub open spec fn acted(
        self,
        action: ActionView,
        seat: SeatId,
        scale: spec_fn(i64, i32, i32) -> i32,
    ) -> ContextView {
        match action {
            ActionView::Spawn(argv) => self.spawned(argv),
            ActionView::SpawnShell(cmd) => self.spawned(seq!["sh"@, "-c"@, cmd]),
            ActionView::Plain(action) => match action {
                Action::Quit => ContextView { running: false, ..self },
                Action::SpawnLauncher => self.spawned(texts(self.config.launcher_cmd@)),
                Action::SpawnTerminal => self.spawned(texts(self.config.terminal_cmd@)),
                Action::SpawnLock => self.spawned(texts(self.config.lock_cmd@)),
                Action::FocusIter { direction } => self.focus_iter(direction),
                Action::FocusOutputIter { direction } => self.focus_output_iter(direction),
                Action::SendToOutput { direction } => self.sent_to_output(direction, scale),
                Action::PointerMove => self.pointer_move_started(seat, scale),
                Action::PointerResize => self.pointer_resize_started(seat),
                Action::SwitchMode { mode } => self.mode_switched(seat, mode),
                Action::ToggleFullscreen { .. } => self.fullscreen_toggled(),
                Action::ClearFocus => self.keyboard_focus_cleared(),
                Action::RestoreFocus => self.focus_restored(),
                Action::CustomFn { func, arg } => self.ask(Request::RunCustom { func, arg }),
                Action::Close
                | Action::HideFocused
                | Action::SmartHideFocused
                | Action::SmartSnapHalf { .. }
                | Action::MaximizeFocused => match self.focused_window {
                    Some(id) => self.window_acted(action, id),
                    None => self,
                },
                _ => self.menu_acted(action, seat),
            },
        }
    }

    /// What actions do, in order.
    pub open spec fn all_acted(
        self,
        actions: Seq<ActionView>,
        seat: SeatId,
        scale: spec_fn(i64, i32, i32) -> i32,
    ) -> ContextView
        decreases actions.len(),
    {
        if actions.len() == 0 {
            self
        } else {
            self.all_acted(actions.drop_last(), seat, scale).acted(actions.last(), seat, scale)
        }
    }

    /// Carries out what a seat has queued.
    #[verifier::opaque]
    pub open spec fn seat_served(
        self,
        seat: SeatId,
        scale: spec_fn(i64, i32, i32) -> i32,
    ) -> ContextView {
        match self.seat_index(seat) {
            Some(j) => ContextView {
                seats: self.seats.update(
                    j,
                    SeatView { unhandled_actions: Seq::empty(), ..self.seats[j] },
                ),
                ..self
            }.all_acted(self.seats[j].unhandled_actions, seat, scale),
            None => self,
        }
    }

    /// Carries out what seats have queued, one seat after the other.
    pub open spec fn seats_served(
        self,
        seats: Seq<SeatId>,
        scale: spec_fn(i64, i32, i32) -> i32,
    ) -> ContextView
        decreases seats.len(),
    {
        if seats.len() == 0 {
            self
        } else {
            self.seats_served(seats.drop_last(), scale).seat_served(seats.last(), scale)
        }
    }

    /// Sets up a window that has just appeared, and focuses it.
    #[verifier::opaque]
    pub open spec fn window_initialized(self, id: WindowId) -> ContextView {
        match self.window_index(id) {
            Some(i) => self.commit(i, self.staged(i).initialized(self.config.rules@)),
            None => self,
        }.focus(id)
    }

    /// Starts a resize that the client of a window asked for.
    #[verifier::opaque]
    pub open spec fn resize_begun(self, id: WindowId, seat: SeatId, edges: u32) -> ContextView {
        match (self.window_index(id), self.seat_index(seat)) {
            (Some(i), Some(_)) => if self.windows[i].resizable() {
                self.commit(i, self.staged(i).resize_asked(seat, edges)).pointer_op(seat)
            } else {
                self
            },
            _ => self,
        }
    }

    /// What an event of a window does.
    #[verifier::opaque]
    pub open spec fn event_handled(
        self,
        id: WindowId,
        event: WindowEvent,
        scale: spec_fn(i64, i32, i32) -> i32,
    ) -> ContextView {
        match event {
            WindowEvent::Init => self.window_initialized(id),
            WindowEvent::Close => self.close_asked(id),
            WindowEvent::Fullscreen(output) => self.fullscreened(id, output),
            WindowEvent::Unfullscreen => self.unfullscreened(id),
            WindowEvent::Maximize => self.maximized(id),
            WindowEvent::Unmaximize => self.unmaximized(id),
            WindowEvent::Minimize => self.hide_window(id),
            WindowEvent::Move(seat) => if self.seat_index(seat) is Some {
                self.pointer_move_started(seat, scale)
            } else {
                self
            },
            WindowEvent::Resize(seat, edges) => self.resize_begun(id, seat, edges),
        }
    }

    /// What events of a window do, in order.
    pub open spec fn events_handled(
        self,
        id: WindowId,
        events: Seq<WindowEvent>,
        scale: spec_fn(i64, i32, i32) -> i32,
    ) -> ContextView
        decreases events.len(),
    {
        if events.len() == 0 {
            self
        } else {
            self.events_handled(id, events.drop_last(), scale).event_handled(
                id,
                events.last(),
                scale,
            )
        }
    }

    /// Carries out what a window has queued.
    #[verifier::opaque]
    pub open spec fn window_served(
        self,
        id: WindowId,
        scale: spec_fn(i64, i32, i32) -> i32,
    ) -> ContextView {
        match self.window_index(id) {
            Some(i) => ContextView {
                windows: self.windows.update(
                    i,
                    WindowView { unhandled_events: Seq::empty(), ..self.windows[i] },
                ),
                ..self
            }.events_handled(id, self.windows[i].unhandled_events, scale),
            None => self,
        }
    }

    /// Carries out what windows have queued, one window after the other.
    pub open spec fn windows_served(
        self,
        ids: Seq<WindowId>,
        scale: spec_fn(i64, i32, i32) -> i32,
    ) -> ContextView
        decreases ids.len(),
    {
        if ids.len() == 0 {
            self
        } else {
            self.windows_served(ids.drop_last(), scale).window_served(ids.last(), scale)
        }
    }

    /// Assigns windows to the outputs they are on.
    pub open spec fn outputs_followed(self, ids: Seq<WindowId>) -> ContextView
        decreases ids.len(),
    {
        if ids.len() == 0 {
            self
        } else {
            self.outputs_followed(ids.drop_last()).output_followed(ids.last())
        }
    }

    /// The ids of the windows, in order.
    pub open spec fn window_ids(self) -> Seq<WindowId> {
        self.windows.map_values(|w: WindowView| w.id)
    }

    /// The ids of the seats, in order.
    pub open spec fn seat_ids(self) -> Seq<SeatId> {
        self.seats.map_values(|s: SeatView| s.id)
    }

    /// Applies the rules again, if the configuration was reloaded.
    #[verifier::opaque]
    pub open spec fn rules_reapplied(self) -> ContextView {
        if self.pending_reapply_rules {
            (ContextView { pending_reapply_rules: false, ..self }).each_window(
                self.windows.len() as int,
                ruled(self.config.rules@),
            )
        } else {
            self
        }
    }

    /// A whole manage sequence: rules, geometries after fullscreen, what seats
    /// and windows asked for, and the outputs that windows are on.
    #[verifier::opaque]
    pub open spec fn managed(self, scale: spec_fn(i64, i32, i32) -> i32) -> ContextView {
        let c = self.rules_reapplied();
        let c = c.each_window(c.windows.len() as int, restoring());
        let c = c.seats_served(c.seat_ids(), scale);
        let c = c.windows_served(c.window_ids(), scale);
        c.outputs_followed(c.window_ids())
    }

    /// Ends the manage sequence. Another one is needed while a geometry is
    /// still to be restored.
    #[verifier::opaque]
    pub open spec fn manage_finished(self) -> ContextView {
        let c = self.tell_manager(|manager: ObjectId| Request::ManageFinish { manager });
        if exists|i: int|
            0 <= i < self.windows.len() && (
            #[trigger] self.windows[i]).pending_unfullscreen_restore {
            c.manage_dirty()
        } else {
            c
        }
    }

    /// Ends the render sequence.
    pub open spec fn render_finished(self) -> ContextView {
        self.tell_manager(|manager: ObjectId| Request::RenderFinish { manager })
    }
}

impl Context {
    /// Arrange windows - stacking WM: do nothing, windows keep their positions
    pub fn arrange_output(&mut self, _output_id: OutputId)
        ensures
            final(self)@ == old(self)@,
    {
    }

    /// Ask the client of a window to close it
    pub fn ask_close(&mut self, window_id: WindowId)
        ensures
            final(self)@ == old(self)@.close_asked(window_id),
    {
        proof {
            reveal(ContextView::close_asked);
        }
        if let Some(i) = self.find_window(window_id) {
            self.windows[i].close(&mut self.requests);
        }
    }

    pub fn switch_seat_mode(&mut self, seat_id: SeatId, mode: Mode)
        ensures
            final(self)@ == old(self)@.mode_switched(seat_id, mode),
    {
        proof {
            reveal(ContextView::mode_switched);
        }
        if let Some(j) = self.find_seat(seat_id) {
            let ghost before = self@;
            self.seats[j].switch_mode(mode, &mut self.requests);
            assert(self@ =~= before.commit_seat(
                j as int,
                before.staged_seat(j as int).switch_mode(mode),
            ));
        }
    }

    fn smart_hide(&mut self, window_id: WindowId)
        ensures
            final(self)@ == old(self)@.smart_hidden(window_id),
    {
        proof {
            reveal(ContextView::smart_hidden);
        }
        if let Some(i) = self.find_window(window_id) {
            if self.windows[i].fullscreen != FullscreenState::Off {
                self.leave_fullscreen(window_id);
            } else if self.windows[i].maximized {
                self.unmaximize_window(window_id);
            } else {
                self.hide_window(window_id);
            }
        }
    }

    fn cycle_menu(&mut self)
        ensures
            final(self)@ == old(self)@.menu_cycled(),
    {
        proof {
            reveal(ContextView::menu_cycled);
        }
        if self.window_menu_mode == Some(WindowMenuMode::AltTab) {
            if let Some(menu) = &mut self.window_menu {
                let _ = menu.select_next();
            }
        }
    }

    fn item_hovered(&self) -> (r: bool)
        ensures
            r == (self@.hovered_item() is Some),
    {
        match &self.window_menu {
            Some(menu) => menu.hovered.is_some(),
            None => false,
        }
    }

    fn activate_pointer_menu(&mut self)
        ensures
            final(self)@ == old(self)@.pointer_menu_activated(),
    {
        proof {
            reveal(ContextView::pointer_menu_activated);
        }
        if self.window_menu_mode == Some(WindowMenuMode::Pointer) && self.item_hovered() {
            self.activate_menu_hovered();
        }
    }

    /// End alt-tab by going to the hovered window, if one is
    pub fn commit_alt_tab(&mut self)
        ensures
            final(self)@ == old(self)@.alt_tab_committed(),
    {
        proof {
            reveal(ContextView::alt_tab_committed);
        }
        if self.window_menu_mode == Some(WindowMenuMode::AltTab) {
            if self.item_hovered() {
                self.activate_menu_hovered();
            } else {
                self.close_window_menu();
            }
        }
    }

    fn cancel_alt_tab(&mut self)
        ensures
            final(self)@ == old(self)@.alt_tab_cancelled(),
    {
        proof {
            reveal(ContextView::alt_tab_cancelled);
        }
        if self.window_menu_mode == Some(WindowMenuMode::AltTab) {
            self.close_window_menu();
        }
    }

    fn act_on_window(&mut self, action: &Action, window_id: WindowId)
        ensures
            final(self)@ == old(self)@.window_acted(*action, window_id),
    {
        proof {
            reveal(ContextView::window_acted);
        }
        match action {
            Action::Close => self.ask_close(window_id),
            Action::HideFocused => self.hide_window(window_id),
            Action::SmartHideFocused => self.smart_hide(window_id),
            Action::SmartSnapHalf { side } => self.smart_snap_half(window_id, *side),
            Action::MaximizeFocused => self.maximize_window(window_id),
            _ => {},
        }
    }

    fn act_on_menu(&mut self, action: &Action, seat_id: SeatId)
        ensures
            final(self)@ == old(self)@.menu_acted(*action, seat_id),
    {
        proof {
            reveal(ContextView::menu_acted);
        }
        match action {
            Action::ActivateMenuHovered => self.activate_pointer_menu(),
            Action::WindowMenuCycle => self.cycle_menu(),
            Action::WindowMenuCycleApp => self.cycle_menu(),
            Action::WindowMenuCommit => self.commit_alt_tab(),
            Action::WindowMenuCancel => self.cancel_alt_tab(),
            Action::IconSelectNext => self.icon_navigate(1, 0),
            Action::IconSelectPrev => self.icon_navigate(-1, 0),
            Action::IconSelectUp => self.icon_navigate(0, -1),
            Action::IconSelectDown => self.icon_navigate(0, 1),
            Action::IconActivate => self.icon_activate(seat_id),
            Action::IconCancel => self.exit_icon_focus(seat_id),
            _ => {},
        }
    }

    fn spawn_copy(&mut self, argv: Vec<String>)
        ensures
            final(self)@ == old(self)@.spawned(texts(argv@)),
    {
        self.spawn(&argv);
    }

    /// Execute an action
    pub fn execute_action<F: Fn(i64, i32, i32) -> i32>(&mut self, action: Action, seat_id: SeatId, scale: &F)
        requires
            is_scaling(*scale),
        ensures
            final(self)@ == old(self)@.acted(action@, seat_id, scaling(*scale)),
    {
        proof {
            reveal(ContextView::acted);
        }
        match &action {
            Action::Quit => {
                self.running = false;
            },
            Action::Spawn { argv } => self.spawn(argv),
            Action::SpawnShell { cmd } => self.spawn_shell(cmd.as_str()),
            Action::SpawnLauncher => {
                let argv = clone_strings(&self.config.launcher_cmd);
                self.spawn_copy(argv);
            },
            Action::SpawnTerminal => {
                let argv = clone_strings(&self.config.terminal_cmd);
                self.spawn_copy(argv);
            },
            Action::SpawnLock => {
                let argv = clone_strings(&self.config.lock_cmd);
                self.spawn_copy(argv);
            },
            Action::FocusIter { direction } => self.focus_iter(*direction),
            Action::FocusOutputIter { direction } => self.focus_output_iter(*direction),
            Action::SendToOutput { direction } => self.send_to_output(*direction, scale),
            Action::PointerMove => self.start_pointer_move(seat_id, scale),
            Action::PointerResize => self.start_pointer_resize(seat_id),
            Action::SwitchMode { mode } => self.switch_seat_mode(seat_id, *mode),
            Action::ToggleFullscreen { .. } => self.toggle_fullscreen(),
            Action::ClearFocus => self.clear_keyboard_focus(),
            Action::RestoreFocus => self.restore_focus_from_stack(),
            Action::CustomFn { func, arg } => {
                self.requests.push(Request::RunCustom { func: *func, arg: *arg });
            },
            Action::Close
            | Action::HideFocused
            | Action::SmartHideFocused
            | Action::SmartSnapHalf { .. }
            | Action::MaximizeFocused => {
                if let Some(window_id) = self.focused_window {
                    self.act_on_window(&action, window_id);
                }
            },
            _ => self.act_on_menu(&action, seat_id),
        }
    }

    fn serve_seat<F: Fn(i64, i32, i32) -> i32>(&mut self, seat_id: SeatId, scale: &F)
        requires
            is_scaling(*scale),
        ensures
            final(self)@ == old(self)@.seat_served(seat_id, scaling(*scale)),
    {
        proof {
            reveal(ContextView::seat_served);
        }
        if let Some(j) = self.find_seat(seat_id) {
            let ghost before = self@;
            let actions: Vec<Action> = self.seats[j].drain_actions();
            let ghost start = ContextView {
                seats: before.seats.update(
                    j as int,
                    SeatView { unhandled_actions: Seq::empty(), ..before.seats[j as int] },
                ),
                ..before
            };
            assert(self@ =~= start);
            assert(action_views(actions@) == before.seats[j as int].unhandled_actions);
            self.act_all(&actions, seat_id, scale);
        }
    }

    fn act_all<F: Fn(i64, i32, i32) -> i32>(&mut self, actions: &Vec<Action>, seat_id: SeatId, scale: &F)
        requires
            is_scaling(*scale),
        ensures
            final(self)@ == old(self)@.all_acted(action_views(actions@), seat_id, scaling(*scale)),
    {
        let ghost start = self@;
        let ghost views = action_views(actions@);
        let mut k: usize = 0;
        assert(views.take(0).len() == 0);
        while k < actions.len()
            invariant
                k <= actions@.len(),
                is_scaling(*scale),
                views == action_views(actions@),
                self@ == start.all_acted(views.take(k as int), seat_id, scaling(*scale)),
            decreases actions@.len() - k,
        {
            proof {
                assert(views.take(k + 1).drop_last() =~= views.take(k as int));
                assert(views.take(k + 1).last() == actions@[k as int]@);
            }
            self.execute_action(actions[k].clone(), seat_id, scale);
            k = k + 1;
        }
        assert(views.take(k as int) =~= views);
    }

    fn initialize_window(&mut self, window_id: WindowId)
        ensures
            final(self)@ == old(self)@.window_initialized(window_id),
    {
        proof {
            reveal(ContextView::window_initialized);
        }
        if let Some(i) = self.find_window(window_id) {
            let ghost before = self@;
            self.windows[i].initialize(&self.config, &mut self.requests);
            assert(self@ =~= before.commit(
                i as int,
                before.staged(i as int).initialized(before.config.rules@),
            ));
        }
        self.focus(window_id);
    }

    fn begin_resize(&mut self, window_id: WindowId, seat_id: SeatId, edges: u32)
        ensures
            final(self)@ == old(self)@.resize_begun(window_id, seat_id, edges),
    {
        proof {
            reveal(ContextView::resize_begun);
        }
        if let Some(i) = self.find_window(window_id) {
            if self.find_seat(seat_id).is_some() && self.windows[i].is_resizable() {
                let ghost before = self@;
                self.windows[i].resize_as_asked(seat_id, edges, &mut self.requests);
                assert(self@ =~= before.commit(
                    i as int,
                    before.staged(i as int).resize_asked(seat_id, edges),
                ));
                self.start_pointer_op(seat_id);
            }
        }
    }

    /// Handle a window event
    pub fn handle_window_event<F: Fn(i64, i32, i32) -> i32>(
        &mut self,
        window_id: WindowId,
        event: WindowEvent,
        scale: &F,
    )
        requires
            is_scaling(*scale),
        ensures
            final(self)@ == old(self)@.event_handled(window_id, event, scaling(*scale)),
    {
        proof {
            reveal(ContextView::event_handled);
        }
        match event {
            WindowEvent::Init => self.initialize_window(window_id),
            WindowEvent::Close => self.ask_close(window_id),
            WindowEvent::Fullscreen(output) => self.fullscreen_window(window_id, output),
            WindowEvent::Unfullscreen => self.leave_fullscreen(window_id),
            WindowEvent::Maximize => self.maximize_window(window_id),
            WindowEvent::Unmaximize => self.unmaximize_window(window_id),
            WindowEvent::Minimize => self.hide_window(window_id),
            WindowEvent::Move(seat_id) => {
                if self.find_seat(seat_id).is_some() {
                    self.start_pointer_move(seat_id, scale);
                }
            },
            WindowEvent::Resize(seat_id, edges) => self.begin_resize(window_id, seat_id, edges),
        }
    }

    fn serve_window<F: Fn(i64, i32, i32) -> i32>(&mut self, window_id: WindowId, scale: &F)
        requires
            is_scaling(*scale),
        ensures
            final(self)@ == old(self)@.window_served(window_id, scaling(*scale)),
    {
        proof {
            reveal(ContextView::window_served);
        }
        if let Some(i) = self.find_window(window_id) {
            let ghost before = self@;
            let events: Vec<WindowEvent> = self.windows[i].handle_events();
            let ghost start = ContextView {
                windows: before.windows.update(
                    i as int,
                    WindowView { unhandled_events: Seq::empty(), ..before.windows[i as int] },
                ),
                ..before
            };
            assert(self@ =~= start);
            self.handle_all_events(window_id, &events, scale);
        }
    }

    fn handle_all_events<F: Fn(i64, i32, i32) -> i32>(&mut self, window_id: WindowId, events: &Vec<WindowEvent>, scale: &F)
        requires
            is_scaling(*scale),
        ensures
            final(self)@ == old(self)@.events_handled(window_id, events@, scaling(*scale)),
    {
        let ghost start = self@;
        let mut k: usize = 0;
        assert(events@.take(0).len() == 0);
        while k < events.len()
            invariant
                k <= events@.len(),
                is_scaling(*scale),
                self@ == start.events_handled(window_id, events@.take(k as int), scaling(*scale)),
            decreases events@.len() - k,
        {
            assert(events@.take(k + 1).drop_last() =~= events@.take(k as int));
            self.handle_window_event(window_id, events[k], scale);
            k = k + 1;
        }
        assert(events@.take(k as int) =~= events@);
    }

    fn all_window_ids(&self) -> (r: Vec<WindowId>)
        ensures
            r@ == self@.window_ids(),
    {
        let mut ids: Vec<WindowId> = Vec::new();
        let mut i: usize = 0;
        while i < self.windows.len()
            invariant
                i <= self.windows@.len(),
                ids@.len() == i,
                forall|j: int| 0 <= j < i ==> ids@[j] == (#[trigger] self.windows@[j]).id,
            decreases self.windows@.len() - i,
        {
            ids.push(self.windows[i].id);
            i = i + 1;
        }
        assert(ids@ =~= self@.window_ids());
        ids
    }

    fn all_seat_ids(&self) -> (r: Vec<SeatId>)
        ensures
            r@ == self@.seat_ids(),
    {
        let mut ids: Vec<SeatId> = Vec::new();
        let mut i: usize = 0;
        while i < self.seats.len()
            invariant
                i <= self.seats@.len(),
                ids@.len() == i,
                forall|j: int| 0 <= j < i ==> ids@[j] == (#[trigger] self.seats@[j]).id,
            decreases self.seats@.len() - i,
        {
            ids.push(self.seats[i].id);
            i = i + 1;
        }
        assert(ids@ =~= self@.seat_ids());
        ids
    }

    fn reapply_rules(&mut self)
        ensures
            final(self)@ == old(self)@.rules_reapplied(),
    {
        proof {
            reveal(ContextView::rules_reapplied);
        }
        if !self.pending_reapply_rules {
            return;
        }
        self.pending_reapply_rules = false;
        let ghost start = self@;
        let ghost step = ruled(start.config.rules@);
        let mut i: usize = 0;
        while i < self.windows.len()
            invariant
                i <= self.windows@.len(),
                step == ruled(start.config.rules@),
                self.windows@.len() == start.windows.len(),
                self@ == start.each_window(i as int, step),
            decreases self.windows@.len() - i,
        {
            proof {
                lemma_each_window(start, i as int, step);
            }
            let ghost before = self@;
            assert(before.windows[i as int] == self.windows@[i as int]@);
            assert(before.config == start.config);
            apply_rules_to(&self.config, &mut self.windows[i], &mut self.requests);
            assert(self@ =~= before.commit(i as int, step(before.staged(i as int))));
            i = i + 1;
        }
    }

    fn restore_after_fullscreen(&mut self)
        ensures
            final(self)@ == old(self)@.each_window(old(self)@.windows.len() as int, restoring()),
    {
        let ghost start = self@;
        let ghost step = restoring();
        let mut i: usize = 0;
        while i < self.windows.len()
            invariant
                i <= self.windows@.len(),
                step == restoring(),
                self.windows@.len() == start.windows.len(),
                self@ == start.each_window(i as int, step),
            decreases self.windows@.len() - i,
        {
            proof {
                lemma_each_window(start, i as int, step);
            }
            let ghost before = self@;
            assert(before.windows[i as int] == self.windows@[i as int]@);
            self.windows[i].restore_after_fullscreen(&mut self.requests);
            assert(self@ =~= before.commit(i as int, step(before.staged(i as int))));
            i = i + 1;
        }
    }

    fn serve_seats<F: Fn(i64, i32, i32) -> i32>(&mut self, scale: &F)
        requires
            is_scaling(*scale),
        ensures
            final(self)@ == old(self)@.seats_served(old(self)@.seat_ids(), scaling(*scale)),
    {
        let ghost start = self@;
        let ids: Vec<SeatId> = self.all_seat_ids();
        let mut k: usize = 0;
        assert(ids@.take(0).len() == 0);
        while k < ids.len()
            invariant
                k <= ids@.len(),
                is_scaling(*scale),
                self@ == start.seats_served(ids@.take(k as int), scaling(*scale)),
            decreases ids@.len() - k,
        {
            assert(ids@.take(k + 1).drop_last() =~= ids@.take(k as int));
            self.serve_seat(ids[k], scale);
            k = k + 1;
        }
        assert(ids@.take(k as int) =~= ids@);
    }

    fn serve_windows<F: Fn(i64, i32, i32) -> i32>(&mut self, scale: &F)
        requires
            is_scaling(*scale),
        ensures
            final(self)@ == old(self)@.windows_served(old(self)@.window_ids(), scaling(*scale)),
    {
        let ghost start = self@;
        let ids: Vec<WindowId> = self.all_window_ids();
        let mut k: usize = 0;
        assert(ids@.take(0).len() == 0);
        while k < ids.len()
            invariant
                k <= ids@.len(),
                is_scaling(*scale),
                self@ == start.windows_served(ids@.take(k as int), scaling(*scale)),
            decreases ids@.len() - k,
        {
            assert(ids@.take(k + 1).drop_last() =~= ids@.take(k as int));
            self.serve_window(ids[k], scale);
            k = k + 1;
        }
        assert(ids@.take(k as int) =~= ids@);
    }

    fn follow_outputs(&mut self)
        ensures
            final(self)@ == old(self)@.outputs_followed(old(self)@.window_ids()),
    {
        let ghost start = self@;
        let ids: Vec<WindowId> = self.all_window_ids();
        let mut k: usize = 0;
        assert(ids@.take(0).len() == 0);
        while k < ids.len()
            invariant
                k <= ids@.len(),
                self@ == start.outputs_followed(ids@.take(k as int)),
            decreases ids@.len() - k,
        {
            assert(ids@.take(k + 1).drop_last() =~= ids@.take(k as int));
            self.update_window_output_from_position(ids[k]);
            k = k + 1;
        }
        assert(ids@.take(k as int) =~= ids@);
    }

    /// Handle manage_start event - process pending window events and arrange windows
    pub fn handle_manage_start<F: Fn(i64, i32, i32) -> i32>(&mut self, scale: &F)
        requires
            is_scaling(*scale),
        ensures
            final(self)@ == old(self)@.managed(scaling(*scale)),
    {
        proof {
            reveal(ContextView::managed);
        }
        // Re-apply window rules deferred from a config reload (SIGHUP). This is
        // the earliest point in a manage sequence, so the window-management
        // requests these issue (set_capabilities, swallow_top, ...) are valid.
        self.reapply_rules();

        // Apply deferred fullscreen restores from the previous manage sequence.
        self.restore_after_fullscreen();

        // Process seat actions
        self.serve_seats(scale);

        // Process window events
        self.serve_windows(scale);

        // Keep window output association in sync with window positions.
        self.follow_outputs();
    }

    /// Finish manage sequence
    pub fn finish_manage(&mut self)
        ensures
            final(self)@ == old(self)@.manage_finished(),
    {
        proof {
            reveal(ContextView::manage_finished);
        }
        let mut needs_restore: bool = false;
        let mut i: usize = 0;
        while i < self.windows.len()
            invariant
                i <= self.windows@.len(),
                self@ == old(self)@,
                needs_restore == (exists|j: int|
                    0 <= j < i && (
                    #[trigger] old(self)@.windows[j]).pending_unfullscreen_restore),
            decreases self.windows@.len() - i,
        {
            assert(old(self)@.windows[i as int] == self.windows@[i as int]@);
            if self.windows[i].pending_unfullscreen_restore {
                needs_restore = true;
            }
            i = i + 1;
        }
        if let Some(manager) = self.rwm {
            self.requests.push(Request::ManageFinish { manager });
        }
        if needs_restore {
            self.manage_dirty();
        }
    }

    /// Finish render sequence
    pub fn finish_render(&mut self)
        ensures
            final(self)@ == old(self)@.render_finished(),
    {
        if let Some(manager) = self.rwm {
            self.requests.push(Request::RenderFinish { manager });
        }
    }
}

} // verus!
