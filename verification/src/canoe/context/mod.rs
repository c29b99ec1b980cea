//! Core context - central state management

pub mod action_laws;
pub mod focus;
pub mod focus_laws;
pub mod icons;
pub mod laws;
pub mod manage;
pub mod menu_laws;
pub mod menus;
pub mod objects;
pub mod place_laws;
pub mod placement;
pub mod pointer;
pub mod render;
pub mod show_laws;
pub mod tables;

use vstd::prelude::*;
use crate::binding::action::State;
use crate::canoe::menu::{MenuView, WindowMenu};
use crate::canoe::output::{Output, OutputView};
use crate::canoe::seat::{Seat, SeatView, StagedSeat};
use crate::canoe::shield::ShieldSurface;
use crate::canoe::window::{to_object, Staged, Window, WindowView};
use crate::canoe::{OutputId, SeatId, WindowId, WindowMenuMode};
use crate::config::Config;
use crate::protocol::{ObjectId, Request, RequestView, Requests};
use crate::search::{first, lemma_first_is, lemma_first_none};
use crate::text::texts;

verus! {

/// The central window manager context
#[derive(Debug)]
pub struct Context {
    // Wayland globals
    pub rwm: Option<ObjectId>,
    pub rwm_xkb_bindings: Option<ObjectId>,
    pub rwm_layer_shell: Option<ObjectId>,
    pub rwm_input_manager: Option<ObjectId>,
    pub rwm_libinput_config: Option<ObjectId>,

    // Managed objects, each table ordered by id
    pub windows: Vec<Window>,
    pub outputs: Vec<Output>,
    pub seats: Vec<Seat>,

    // Focus management
    pub focus_stack: Vec<WindowId>,
    pub focused_window: Option<WindowId>,
    pub last_focused_output: Option<OutputId>,

    // Current state
    pub current_output: Option<OutputId>,
    pub current_seat: Option<SeatId>,

    // ID generators
    pub next_window_id: WindowId,
    pub next_output_id: OutputId,
    pub next_seat_id: SeatId,
    pub next_minimize_seq: u64,

    // Configuration
    pub config: Config,
    /// Whether the config file is ignored (`--no-config`). Remembered so that
    /// reloads (SIGHUP) keep honoring it instead of suddenly reading the file.
    pub skip_config: bool,
    /// Set by [`Context::reload_config`] to re-apply window rules on the next
    /// `manage_start`. Window-management requests (e.g. `set_capabilities`) are
    /// only valid inside a manage sequence, so the actual work is deferred there
    /// rather than run directly in the SIGHUP handler.
    pub pending_reapply_rules: bool,
    /// Set by [`Context::reload_config`] to rebuild and re-register each seat's
    /// XKB key bindings on the next `manage_start`. Like rule re-application this
    /// is deferred because enabling and disabling a binding is only valid inside
    /// a manage sequence.
    pub pending_rebind_xkb: bool,

    // Runtime state
    pub running: bool,
    pub session_locked: bool,
    pub startup_unminimize_done: bool,

    /// Output with active icon keyboard focus
    pub icon_focus_output: Option<OutputId>,

    /// Window menu surface and state
    pub window_menu: Option<WindowMenu>,
    pub window_menu_mode: Option<WindowMenuMode>,
    pub window_menu_shield: Option<ShieldSurface>,
    pub window_menu_alt_tab_stack: Option<Vec<WindowId>>,
    pub window_menu_alt_tab_focused: Option<WindowId>,
    pub window_menu_alt_tab_preview: Option<WindowId>,
    pub window_menu_alt_tab_preview_was_hidden: bool,

    /// What still has to be done outside
    pub requests: Requests,
}

/// A [`Context`] by its contents.
#[verifier::ext_equal]
pub struct ContextView {
    pub rwm: Option<ObjectId>,
    pub rwm_xkb_bindings: Option<ObjectId>,
    pub rwm_layer_shell: Option<ObjectId>,
    pub rwm_input_manager: Option<ObjectId>,
    pub rwm_libinput_config: Option<ObjectId>,
    pub windows: Seq<WindowView>,
    pub outputs: Seq<OutputView>,
    pub seats: Seq<SeatView>,
    pub focus_stack: Seq<WindowId>,
    pub focused_window: Option<WindowId>,
    pub last_focused_output: Option<OutputId>,
    pub current_output: Option<OutputId>,
    pub current_seat: Option<SeatId>,
    pub next_window_id: WindowId,
    pub next_output_id: OutputId,
    pub next_seat_id: SeatId,
    pub next_minimize_seq: u64,
    pub config: Config,
    pub skip_config: bool,
    pub pending_reapply_rules: bool,
    pub pending_rebind_xkb: bool,
    pub running: bool,
    pub session_locked: bool,
    pub startup_unminimize_done: bool,
    pub icon_focus_output: Option<OutputId>,
    pub window_menu: Option<MenuView>,
    pub window_menu_mode: Option<WindowMenuMode>,
    pub window_menu_shield: Option<ShieldSurface>,
    pub window_menu_alt_tab_stack: Option<Seq<WindowId>>,
    pub window_menu_alt_tab_focused: Option<WindowId>,
    pub window_menu_alt_tab_preview: Option<WindowId>,
    pub window_menu_alt_tab_preview_was_hidden: bool,
    pub requests: Seq<RequestView>,
}

pub open spec fn window_views(s: Seq<Window>) -> Seq<WindowView> {
    s.map_values(|w: Window| w@)
}

pub open spec fn output_views(s: Seq<Output>) -> Seq<OutputView> {
    s.map_values(|o: Output| o@)
}

pub open spec fn seat_views(s: Seq<Seat>) -> Seq<SeatView> {
    s.map_values(|seat: Seat| seat@)
}

impl View for Context {
    type V = ContextView;

    open spec fn view(&self) -> ContextView {
        ContextView {
            rwm: self.rwm,
            rwm_xkb_bindings: self.rwm_xkb_bindings,
            rwm_layer_shell: self.rwm_layer_shell,
            rwm_input_manager: self.rwm_input_manager,
            rwm_libinput_config: self.rwm_libinput_config,
            windows: window_views(self.windows@),
            outputs: output_views(self.outputs@),
            seats: seat_views(self.seats@),
            focus_stack: self.focus_stack@,
            focused_window: self.focused_window,
            last_focused_output: self.last_focused_output,
            current_output: self.current_output,
            current_seat: self.current_seat,
            next_window_id: self.next_window_id,
            next_output_id: self.next_output_id,
            next_seat_id: self.next_seat_id,
            next_minimize_seq: self.next_minimize_seq,
            config: self.config,
            skip_config: self.skip_config,
            pending_reapply_rules: self.pending_reapply_rules,
            pending_rebind_xkb: self.pending_rebind_xkb,
            running: self.running,
            session_locked: self.session_locked,
            startup_unminimize_done: self.startup_unminimize_done,
            icon_focus_output: self.icon_focus_output,
            window_menu: match self.window_menu {
                Some(menu) => Some(menu@),
                None => None,
            },
            window_menu_mode: self.window_menu_mode,
            window_menu_shield: self.window_menu_shield,
            window_menu_alt_tab_stack: match self.window_menu_alt_tab_stack {
                Some(stack) => Some(stack@),
                None => None,
            },
            window_menu_alt_tab_focused: self.window_menu_alt_tab_focused,
            window_menu_alt_tab_preview: self.window_menu_alt_tab_preview,
            window_menu_alt_tab_preview_was_hidden: self.window_menu_alt_tab_preview_was_hidden,
            requests: self.requests@,
        }
    }
}

/// Holds of the window with this id.
pub open spec fn is_window(id: WindowId) -> spec_fn(WindowView) -> bool {
    |w: WindowView| w.id == id
}

/// Holds of the output with this id.
pub open spec fn is_output(id: OutputId) -> spec_fn(OutputView) -> bool {
    |o: OutputView| o.id == id
}

/// Holds of the seat with this id.
pub open spec fn is_seat(id: SeatId) -> spec_fn(SeatView) -> bool {
    |s: SeatView| s.id == id
}

/// What a new context looks like.
pub open spec fn fresh_context(skip_config: bool, config: Config) -> ContextView {
    ContextView {
        rwm: None,
        rwm_xkb_bindings: None,
        rwm_layer_shell: None,
        rwm_input_manager: None,
        rwm_libinput_config: None,
        windows: Seq::empty(),
        outputs: Seq::empty(),
        seats: Seq::empty(),
        focus_stack: Seq::empty(),
        focused_window: None,
        last_focused_output: None,
        current_output: None,
        current_seat: None,
        next_window_id: 0,
        next_output_id: 0,
        next_seat_id: 0,
        next_minimize_seq: 0,
        config,
        skip_config,
        pending_reapply_rules: false,
        pending_rebind_xkb: false,
        running: true,
        session_locked: false,
        startup_unminimize_done: false,
        icon_focus_output: None,
        window_menu: None,
        window_menu_mode: None,
        window_menu_shield: None,
        window_menu_alt_tab_stack: None,
        window_menu_alt_tab_focused: None,
        window_menu_alt_tab_preview: None,
        window_menu_alt_tab_preview_was_hidden: false,
        requests: Seq::empty(),
    }
}

impl ContextView {
    /// Where the window with this id is in the table.
    pub open spec fn window_index(self, id: WindowId) -> Option<int> {
        first(self.windows, is_window(id))
    }

    /// Where the output with this id is in the table.
    pub open spec fn output_index(self, id: OutputId) -> Option<int> {
        first(self.outputs, is_output(id))
    }

    /// Where the seat with this id is in the table.
    pub open spec fn seat_index(self, id: SeatId) -> Option<int> {
        first(self.seats, is_seat(id))
    }

    pub open spec fn window(self, id: WindowId) -> Option<WindowView> {
        match self.window_index(id) {
            Some(i) => Some(self.windows[i]),
            None => None,
        }
    }

    pub open spec fn output(self, id: OutputId) -> Option<OutputView> {
        match self.output_index(id) {
            Some(i) => Some(self.outputs[i]),
            None => None,
        }
    }

    pub open spec fn seat(self, id: SeatId) -> Option<SeatView> {
        match self.seat_index(id) {
            Some(i) => Some(self.seats[i]),
            None => None,
        }
    }

    /// The window's output, if that output still exists.
    pub open spec fn live_output(self, w: WindowView) -> Option<OutputId> {
        match w.output {
            Some(id) => if self.output_index(id) is Some {
                Some(id)
            } else {
                None
            },
            None => None,
        }
    }

    /// A window is visible on an output unless it is hidden or belongs to
    /// another output that still exists.
    pub open spec fn visible_on(self, w: WindowView, output: OutputId) -> bool {
        !w.hidden && (self.live_output(w) is None || self.live_output(w) == Some(output))
    }

    /// The window at a place of the table, with the requests sent so far.
    pub open spec fn staged(self, i: int) -> Staged {
        Staged { window: self.windows[i], requests: self.requests }
    }

    /// The context after a step on the window at a place of the table.
    pub open spec fn commit(self, i: int, step: Staged) -> ContextView {
        ContextView {
            windows: self.windows.update(i, step.window),
            requests: step.requests,
            ..self
        }
    }

    /// The seat at a place of the table, with the requests sent so far.
    pub open spec fn staged_seat(self, i: int) -> StagedSeat {
        StagedSeat { seat: self.seats[i], requests: self.requests }
    }

    /// The context after a step on the seat at a place of the table.
    pub open spec fn commit_seat(self, i: int, step: StagedSeat) -> ContextView {
        ContextView { seats: self.seats.update(i, step.seat), requests: step.requests, ..self }
    }

    /// The context after a step on a window, if it exists.
    pub open spec fn on_window(self, id: WindowId, step: spec_fn(Staged) -> Staged) -> ContextView {
        match self.window_index(id) {
            Some(i) => self.commit(i, step(self.staged(i))),
            None => self,
        }
    }

    /// The context after a step on a seat, if it exists.
    pub open spec fn on_seat(self, id: SeatId, step: spec_fn(StagedSeat) -> StagedSeat) -> ContextView {
        match self.seat_index(id) {
            Some(i) => self.commit_seat(i, step(self.staged_seat(i))),
            None => self,
        }
    }

    /// The context after a step on each of the first `n` windows, in order.
    pub open spec fn each_window(self, n: int, step: spec_fn(Staged) -> Staged) -> ContextView
        decreases n,
    {
        if n <= 0 {
            self
        } else {
            let c = self.each_window(n - 1, step);
            c.commit(n - 1, step(c.staged(n - 1)))
        }
    }

    /// Sends to the window manager object.
    pub open spec fn tell_manager(self, request: spec_fn(ObjectId) -> Request) -> ContextView {
        ContextView { requests: to_object(self.requests, self.rwm, request), ..self }
    }

    /// Asks for a manage sequence.
    pub open spec fn manage_dirty(self) -> ContextView {
        self.tell_manager(|manager: ObjectId| Request::ManageDirty { manager })
    }

    /// The context with `request` queued.
    pub open spec fn ask(self, request: Request) -> ContextView {
        ContextView { requests: self.requests.push(request@), ..self }
    }

    /// The context with the desktop of every output marked for redrawing.
    #[verifier::opaque]
    pub open spec fn desktops_stale(self) -> ContextView {
        ContextView {
            outputs: self.outputs.map_values(|o: OutputView| o.desktop_stale()),
            ..self
        }
    }

    /// The context after the configuration was read again.
    pub open spec fn reloaded(self, config: Config) -> ContextView {
        ContextView {
            config,
            windows: self.windows.map_values(|w: WindowView| w.titlebar_stale()),
            pending_reapply_rules: true,
            pending_rebind_xkb: true,
            ..self
        }.desktops_stale().manage_dirty()
    }
}

/// A step on each of the first windows changes nothing but those windows and
/// the requests.
pub proof fn lemma_each_window(c: ContextView, n: int, step: spec_fn(Staged) -> Staged)
    requires
        0 <= n <= c.windows.len(),
    ensures
        c.each_window(n, step).windows.len() == c.windows.len(),
        c.each_window(n, step) == (ContextView {
            windows: c.each_window(n, step).windows,
            requests: c.each_window(n, step).requests,
            ..c
        }),
        forall|i: int| n <= i < c.windows.len() ==> c.each_window(n, step).windows[i] == c.windows[i],
    decreases n,
{
    if n > 0 {
        lemma_each_window(c, n - 1, step);
    }
}

impl Context {
    /// Create a new context with the given configuration
    pub fn new(skip_config: bool, config: Config) -> (r: Self)
        ensures
            r@ == fresh_context(skip_config, config),
    {
        let r = Context {
            rwm: None,
            rwm_xkb_bindings: None,
            rwm_layer_shell: None,
            rwm_input_manager: None,
            rwm_libinput_config: None,
            windows: Vec::new(),
            outputs: Vec::new(),
            seats: Vec::new(),
            focus_stack: Vec::new(),
            focused_window: None,
            last_focused_output: None,
            current_output: None,
            current_seat: None,
            next_window_id: 0,
            next_output_id: 0,
            next_seat_id: 0,
            next_minimize_seq: 0,
            config,
            skip_config,
            pending_reapply_rules: false,
            pending_rebind_xkb: false,
            running: true,
            session_locked: false,
            startup_unminimize_done: false,
            icon_focus_output: None,
            window_menu: None,
            window_menu_mode: None,
            window_menu_shield: None,
            window_menu_alt_tab_stack: None,
            window_menu_alt_tab_focused: None,
            window_menu_alt_tab_preview: None,
            window_menu_alt_tab_preview_was_hidden: false,
            requests: Requests::new(),
        };
        assert(r@ =~= fresh_context(skip_config, config));
        r
    }

    /// Where the window with this id is in the table
    pub fn find_window(&self, id: WindowId) -> (r: Option<usize>)
        ensures
            (match r {
                Some(i) => Some(i as int),
                None => None,
            }) == self@.window_index(id),
            r matches Some(i) ==> i < self.windows@.len() && self@.windows[i as int]
                == self.windows@[i as int]@ && self.windows@[i as int].id == id,
    {
        let mut i: usize = 0;
        while i < self.windows.len()
            invariant
                i <= self.windows@.len(),
                forall|j: int| 0 <= j < i ==> !is_window(id)(#[trigger] self@.windows[j]),
            decreases self.windows@.len() - i,
        {
            assert(self@.windows[i as int] == self.windows@[i as int]@);
            if self.windows[i].id == id {
                proof {
                    lemma_first_is(self@.windows, is_window(id), i as int);
                }
                return Some(i);
            }
            i = i + 1;
        }
        proof {
            lemma_first_none(self@.windows, is_window(id));
        }
        None
    }

    /// Where the output with this id is in the table
    pub fn find_output(&self, id: OutputId) -> (r: Option<usize>)
        ensures
            (match r {
                Some(i) => Some(i as int),
                None => None,
            }) == self@.output_index(id),
            r matches Some(i) ==> i < self.outputs@.len() && self@.outputs[i as int]
                == self.outputs@[i as int]@ && self.outputs@[i as int].id == id,
    {
        let mut i: usize = 0;
        while i < self.outputs.len()
            invariant
                i <= self.outputs@.len(),
                forall|j: int| 0 <= j < i ==> !is_output(id)(#[trigger] self@.outputs[j]),
            decreases self.outputs@.len() - i,
        {
            assert(self@.outputs[i as int] == self.outputs@[i as int]@);
            if self.outputs[i].id == id {
                proof {
                    lemma_first_is(self@.outputs, is_output(id), i as int);
                }
                return Some(i);
            }
            i = i + 1;
        }
        proof {
            lemma_first_none(self@.outputs, is_output(id));
        }
        None
    }

    /// Where the seat with this id is in the table
    pub fn find_seat(&self, id: SeatId) -> (r: Option<usize>)
        ensures
            (match r {
                Some(i) => Some(i as int),
                None => None,
            }) == self@.seat_index(id),
            r matches Some(i) ==> i < self.seats@.len() && self@.seats[i as int]
                == self.seats@[i as int]@ && self.seats@[i as int].id == id,
    {
        let mut i: usize = 0;
        while i < self.seats.len()
            invariant
                i <= self.seats@.len(),
                forall|j: int| 0 <= j < i ==> !is_seat(id)(#[trigger] self@.seats[j]),
            decreases self.seats@.len() - i,
        {
            assert(self@.seats[i as int] == self.seats@[i as int]@);
            if self.seats[i].id == id {
                proof {
                    lemma_first_is(self@.seats, is_seat(id), i as int);
                }
                return Some(i);
            }
            i = i + 1;
        }
        proof {
            lemma_first_none(self@.seats, is_seat(id));
        }
        None
    }

    /// The output of a window, if that output still exists
    pub fn live_output(&self, output: Option<OutputId>) -> (r: Option<OutputId>)
        ensures
            forall|w: WindowView| w.output == output ==> #[trigger] self@.live_output(w) == r,
    {
        match output {
            Some(id) => match self.find_output(id) {
                Some(_) => Some(id),
                None => None,
            },
            None => None,
        }
    }

    /// Check if window is visible on the given output
    pub fn is_visible_on(&self, window: &Window, output: OutputId) -> (r: bool)
        ensures
            r == self@.visible_on(window@, output),
    {
        if window.hidden {
            return false;
        }
        match self.live_output(window.output) {
            Some(id) => id == output,
            None => true,
        }
    }

    /// Ask for a manage sequence
    pub fn manage_dirty(&mut self)
        ensures
            final(self)@ == old(self)@.manage_dirty(),
    {
        if let Some(manager) = self.rwm {
            self.requests.push(Request::ManageDirty { manager });
        }
    }

    /// Mark all desktop surfaces as needing re-render.
    pub fn mark_all_desktops_dirty(&mut self)
        ensures
            final(self)@ == old(self)@.desktops_stale(),
    {
        proof {
            reveal(ContextView::desktops_stale);
        }
        let ghost start = self@;
        let mut i: usize = 0;
        while i < self.outputs.len()
            invariant
                i <= self.outputs@.len(),
                self.outputs@.len() == start.outputs.len(),
                start == old(self)@,
                self@ == (ContextView { outputs: self@.outputs, ..start }),
                forall|j: int|
                    0 <= j < i ==> (#[trigger] self.outputs@[j])@ == start.outputs[j].desktop_stale(),
                forall|j: int|
                    i <= j < self.outputs@.len() ==> (#[trigger] self.outputs@[j])@
                        == start.outputs[j],
            decreases self.outputs@.len() - i,
        {
            self.outputs[i].mark_desktop_dirty();
            i = i + 1;
        }
        assert(self@.outputs =~= start.desktops_stale().outputs);
    }

    /// Apply a configuration that was read again to the running session.
    ///
    /// Triggered by SIGHUP. The parts that affect already-managed objects are
    /// refreshed: every titlebar is forced to repaint (the shadow and desktop
    /// caches already key on their inputs, so they repaint on their own) and the
    /// desktop is marked dirty. Window rules are re-applied via
    /// `set_capabilities` and friends, which are only valid inside a manage
    /// sequence, so that work is deferred to the next `manage_start` (see
    /// [`Context::pending_reapply_rules`]). The `manage_dirty` request kicks off
    /// that sequence; it is explicitly allowed outside a sequence for exactly
    /// this kind of out-of-band state change.
    ///
    /// Note: per-input-device settings (`repeat_rate`, `scroll_factor`) are bound
    /// when a device first appears, so changes to those only take effect for
    /// devices connected afterwards.
    pub fn reload_config(&mut self, config: Config)
        ensures
            final(self)@ == old(self)@.reloaded(config),
    {
        self.config = config;
        let ghost start = self@;
        let mut i: usize = 0;
        while i < self.windows.len()
            invariant
                i <= self.windows@.len(),
                self.windows@.len() == start.windows.len(),
                start == (ContextView { config, ..old(self)@ }),
                self@ == (ContextView { windows: self@.windows, ..start }),
                forall|j: int|
                    0 <= j < i ==> (#[trigger] self.windows@[j])@ == start.windows[j].titlebar_stale(),
                forall|j: int|
                    i <= j < self.windows@.len() ==> (#[trigger] self.windows@[j])@
                        == start.windows[j],
            decreases self.windows@.len() - i,
        {
            self.windows[i].mark_titlebar_dirty();
            i = i + 1;
        }
        assert(self@.windows =~= start.windows.map_values(|w: WindowView| w.titlebar_stale()));
        self.pending_reapply_rules = true;
        self.pending_rebind_xkb = true;
        self.mark_all_desktops_dirty();
        self.manage_dirty();
    }

    /// Take (and clear) the pending-XKB-rebind flag set by a config reload.
    pub fn take_pending_rebind_xkb(&mut self) -> (r: bool)
        ensures
            r == old(self)@.pending_rebind_xkb,
            final(self)@ == (ContextView { pending_rebind_xkb: false, ..old(self)@ }),
    {
        let r = self.pending_rebind_xkb;
        self.pending_rebind_xkb = false;
        r
    }

    /// Get current state for custom actions
    pub fn get_state(&self) -> (r: State)
        ensures
            r == (State {  }),
    {
        State {  }
    }

    /// Queue a command to be spawned
    pub fn spawn(&mut self, argv: &Vec<String>)
        ensures
            final(self)@ == old(self)@.spawned(texts(argv@)),
    {
        assert(texts(argv@).len() == argv@.len());
        if argv.len() == 0 {
            return;
        }
        self.requests.spawn(argv);
    }

    /// Queue a shell command to be spawned
    pub fn spawn_shell(&mut self, cmd: &str)
        ensures
            final(self)@ == old(self)@.spawned(seq!["sh"@, "-c"@, cmd@]),
    {
        let mut argv: Vec<String> = Vec::new();
        argv.push("sh".to_string());
        argv.push("-c".to_string());
        argv.push(cmd.to_string());
        assert(texts(argv@) =~= seq!["sh"@, "-c"@, cmd@]);
        self.spawn(&argv);
    }
}

impl ContextView {
    /// The context with a command queued; an empty command is ignored.
    pub open spec fn spawned(self, argv: Seq<Seq<char>>) -> ContextView {
        if argv.len() == 0 {
            self
        } else {
            ContextView { requests: self.requests.push(RequestView::Spawn(argv)), ..self }
        }
    }
}

} // verus!
