//! Windows, outputs and seats as they come and go.

use vstd::prelude::*;
use crate::binding::action::{
    default_pointer_bindings, default_pointer_table, default_xkb_bindings, default_xkb_table,
    pointer_row_view, xkb_row_view, xkb_rows_view, Action, ActionView, PointerRow, XkbRowView,
};
use crate::binding::{
    BindingEvent, PointerBinding, PointerBindingView, XkbBinding, XkbBindingView,
};
use crate::canoe::context::{is_output, Context, ContextView};
use crate::canoe::output::{fresh_output, Output, OutputView};
use crate::canoe::seat::{fresh_seat, Seat, SeatView};
use crate::canoe::window::{fresh_window, Staged, Window, WindowView};
use crate::canoe::{OutputId, SeatId, WindowId};
use crate::config::{hotkey_views, Config, HotkeyView, Mode, WindowDecoration};
use crate::num::larger;
use crate::protocol::{Capabilities, ObjectId, Request, Requests};
use crate::rule::{apply_rules, rules_applied, AppliedRules, Rule};
use crate::search::{first, lemma_first_is, lemma_first_none, retain_other, without};
use crate::text::clone_strings;

verus! {

/// Whether the user configured a hotkey on this chord.
pub open spec fn user_has(hotkeys: Seq<HotkeyView>, keysym: u32, modifiers: u32) -> bool {
    exists|i: int|
        0 <= i < hotkeys.len() && (#[trigger] hotkeys[i]).keysym == keysym && hotkeys[i].modifiers
            == modifiers
}

/// Whether a hotkey of the user takes the place of a built-in binding: both
/// fire on the same chord, in the default mode, on press.
pub open spec fn shadowed(row: XkbRowView, hotkeys: Seq<HotkeyView>) -> bool {
    row.0 == Mode::Default && row.4 == BindingEvent::Pressed && user_has(hotkeys, row.1, row.2)
}

pub open spec fn row_binding(row: XkbRowView) -> XkbBindingView {
    XkbBindingView {
        mode: row.0,
        keysym: row.1,
        modifiers: row.2,
        action: row.3,
        event: row.4,
        enabled: false,
    }
}

/// A hotkey spawns its command on press in the default mode.
pub open spec fn hotkey_binding(hotkey: HotkeyView) -> XkbBindingView {
    XkbBindingView {
        mode: Mode::Default,
        keysym: hotkey.keysym,
        modifiers: hotkey.modifiers,
        action: ActionView::Spawn(hotkey.argv),
        event: BindingEvent::Pressed,
        enabled: false,
    }
}

/// The bindings followed by those of the rows that no hotkey shadows.
pub open spec fn with_defaults(
    bindings: Seq<(XkbBindingView, Option<ObjectId>)>,
    rows: Seq<XkbRowView>,
    hotkeys: Seq<HotkeyView>,
) -> Seq<(XkbBindingView, Option<ObjectId>)>
    decreases rows.len(),
{
    if rows.len() == 0 {
        bindings
    } else {
        let earlier = with_defaults(bindings, rows.drop_last(), hotkeys);
        if shadowed(rows.last(), hotkeys) {
            earlier
        } else {
            earlier.push((row_binding(rows.last()), None))
        }
    }
}

/// The bindings followed by those of the hotkeys.
pub open spec fn with_hotkeys(
    bindings: Seq<(XkbBindingView, Option<ObjectId>)>,
    hotkeys: Seq<HotkeyView>,
) -> Seq<(XkbBindingView, Option<ObjectId>)>
    decreases hotkeys.len(),
{
    if hotkeys.len() == 0 {
        bindings
    } else {
        with_hotkeys(bindings, hotkeys.drop_last()).push((hotkey_binding(hotkeys.last()), None))
    }
}

/// The seat with the key bindings of the configuration appended.
#[verifier::opaque]
pub open spec fn xkb_populated(seat: SeatView, config: Config) -> SeatView {
    let hotkeys = hotkey_views(config.hotkeys@);
    SeatView {
        xkb_bindings: with_hotkeys(
            with_defaults(seat.xkb_bindings, default_xkb_table(config.main_modifier), hotkeys),
            hotkeys,
        ),
        ..seat
    }
}

pub open spec fn pointer_binding(row: (Mode, u32, u32, ActionView)) -> PointerBindingView {
    PointerBindingView {
        mode: row.0,
        button: row.1,
        modifiers: row.2,
        action: row.3,
        event: BindingEvent::Pressed,
        enabled: false,
    }
}

/// The seat with every binding of the configuration, those of its mode enabled.
#[verifier::opaque]
pub open spec fn seat_set_up(seat: SeatView, config: Config) -> SeatView {
    let keyed = xkb_populated(seat, config);
    let rows = default_pointer_table(config.main_modifier);
    SeatView {
        pointer_bindings: keyed.pointer_bindings.push((pointer_binding(rows[0]), None)).push(
            (pointer_binding(rows[1]), None),
        ),
        ..keyed
    }.bindings_initialized()
}

/// The seat with its key bindings built anew, those of its mode enabled.
#[verifier::opaque]
pub open spec fn xkb_rebuilt(seat: SeatView, config: Config) -> SeatView {
    let keyed = xkb_populated(SeatView { xkb_bindings: Seq::empty(), ..seat }, config);
    SeatView { xkb_bindings: xkb_enabled_for(keyed.xkb_bindings, seat.mode), ..keyed }
}

/// The bindings, exactly those of `mode` enabled.
pub open spec fn xkb_enabled_for(
    s: Seq<(XkbBindingView, Option<ObjectId>)>,
    mode: Mode,
) -> Seq<(XkbBindingView, Option<ObjectId>)> {
    s.map_values(
        |b: (XkbBindingView, Option<ObjectId>)|
            (XkbBindingView { enabled: b.0.mode == mode, ..b.0 }, b.1),
    )
}

/// What the rules and the client's wishes make of a window: server-side
/// decorations unless the client asked for its own and no rule forces them.
pub open spec fn decoration_for(applied: AppliedRules, hint: Option<u32>) -> WindowDecoration {
    if !applied.force_ssd && hint == Some(1u32) {
        WindowDecoration::Csd
    } else {
        WindowDecoration::Ssd
    }
}

impl Staged {
    /// Applies the rules to a window and tells the client which operations
    /// apply.
    #[verifier::opaque]
    pub open spec fn ruled(self, rules: Seq<Rule>) -> Staged {
        let w = self.window;
        let applied = rules_applied(
            rules,
            w.app_id,
            w.title,
            w.decoration_hint,
            w.parent is Some,
        );
        self.with(
            WindowView {
                decoration: Some(decoration_for(applied, w.decoration_hint)),
                swallow_top: match applied.swallow_top {
                    Some(amount) => larger(amount as int, 0) as i32,
                    None => 0,
                },
                ..w
            },
        ).set_capabilities(w.capabilities())
    }
}

/// The step that applies the rules to a window.
pub open spec fn ruled(rules: Seq<Rule>) -> spec_fn(Staged) -> Staged {
    |s: Staged| s.ruled(rules)
}

impl ContextView {
    /// The context with a new window of the compositor, last in the focus
    /// order and on the output preferred for new windows.
    #[verifier::opaque]
    pub open spec fn window_created(self, rwm_window: ObjectId) -> ContextView {
        let id = self.next_window_id;
        let output = match self.output_for_new_window() {
            Some(output) => if self.output_index(output) is Some {
                Some(output)
            } else {
                None
            },
            None => None,
        };
        ContextView {
            next_window_id: (id + 1) as usize,
            windows: self.windows.push(
                WindowView {
                    rwm_window: Some(rwm_window),
                    output,
                    floating: true,
                    ..fresh_window(id)
                },
            ),
            focus_stack: self.focus_stack.push(id),
            ..self
        }
    }

    /// The context without a window. The next window of the focus order takes
    /// over the focus.
    #[verifier::opaque]
    pub open spec fn window_destroyed(self, id: WindowId) -> ContextView {
        let c = ContextView { focus_stack: without(self.focus_stack, id), ..self };
        let c = if self.focused_window == Some(id) {
            if c.focus_stack.len() > 0 {
                c.focus(c.focus_stack[0])
            } else {
                c.keyboard_focus_cleared()
            }
        } else {
            c
        };
        c.window_removed(id)
    }

    /// The table of windows without one of them.
    #[verifier::opaque]
    pub open spec fn window_removed(self, id: WindowId) -> ContextView {
        match self.window_index(id) {
            Some(i) => ContextView { windows: self.windows.remove(i), ..self },
            None => self,
        }
    }

    /// The context with a new output of the compositor. The first one becomes
    /// the current output.
    #[verifier::opaque]
    pub open spec fn output_created(self, rwm_output: ObjectId) -> ContextView {
        let id = self.next_output_id;
        ContextView {
            next_output_id: (id + 1) as usize,
            outputs: self.outputs.push(
                OutputView { rwm_output: Some(rwm_output), ..fresh_output(id) },
            ),
            current_output: match self.current_output {
                Some(current) => Some(current),
                None => Some(id),
            },
            ..self
        }
    }

    /// The id of the first output other than `id`.
    pub open spec fn other_output(self, id: OutputId) -> Option<OutputId> {
        match first(self.outputs, |o: OutputView| o.id != id) {
            Some(i) => Some(self.outputs[i].id),
            None => None,
        }
    }

    /// The context without an output. Where it was the current one, the first
    /// other output takes its place.
    #[verifier::opaque]
    pub open spec fn output_destroyed(self, id: OutputId) -> ContextView {
        let c = if self.current_output == Some(id) {
            let other = self.other_output(id);
            let c = ContextView { current_output: other, ..self };
            match other {
                Some(other) => c.default_output_set(other),
                None => c,
            }
        } else {
            self
        };
        c.output_removed(id)
    }

    /// The table of outputs without one of them.
    #[verifier::opaque]
    pub open spec fn output_removed(self, id: OutputId) -> ContextView {
        match self.output_index(id) {
            Some(i) => ContextView { outputs: self.outputs.remove(i), ..self },
            None => self,
        }
    }

    /// The context with a new seat of the compositor, its bindings set up. The
    /// first one becomes the current seat.
    #[verifier::opaque]
    pub open spec fn seat_created(self, rwm_seat: ObjectId) -> ContextView {
        let id = self.next_seat_id;
        ContextView {
            next_seat_id: (id + 1) as usize,
            seats: self.seats.push(
                seat_set_up(SeatView { rwm_seat: Some(rwm_seat), ..fresh_seat(id) }, self.config),
            ),
            current_seat: match self.current_seat {
                Some(current) => Some(current),
                None => Some(id),
            },
            ..self
        }
    }

    /// The id of the first seat other than `id`.
    pub open spec fn other_seat(self, id: SeatId) -> Option<SeatId> {
        match first(self.seats, |s: SeatView| s.id != id) {
            Some(i) => Some(self.seats[i].id),
            None => None,
        }
    }

    /// The context without a seat. Where it was the current one, the first
    /// other seat takes its place.
    #[verifier::opaque]
    pub open spec fn seat_destroyed(self, id: SeatId) -> ContextView {
        let c = if self.current_seat == Some(id) {
            ContextView { current_seat: self.other_seat(id), ..self }
        } else {
            self
        };
        match c.seat_index(id) {
            Some(i) => ContextView { seats: c.seats.remove(i), ..c },
            None => c,
        }
    }
}

fn is_user_chord(config: &Config, keysym: u32, modifiers: u32) -> (r: bool)
    ensures
        r == user_has(hotkey_views(config.hotkeys@), keysym, modifiers),
{
    let ghost hotkeys = hotkey_views(config.hotkeys@);
    let mut i: usize = 0;
    while i < config.hotkeys.len()
        invariant
            i <= config.hotkeys@.len(),
            hotkeys == hotkey_views(config.hotkeys@),
            forall|j: int|
                0 <= j < i ==> !((#[trigger] hotkeys[j]).keysym == keysym && hotkeys[j].modifiers
                    == modifiers),
        decreases config.hotkeys@.len() - i,
    {
        assert(hotkeys[i as int] == config.hotkeys@[i as int]@);
        if config.hotkeys[i].keysym == keysym && config.hotkeys[i].modifiers == modifiers {
            return true;
        }
        i = i + 1;
    }
    false
}

/// Apply the rules to a window and tell the client which operations apply.
///
/// Decoration hints (`river_window_v1.decoration_hint`): 0 only_supports_csd, 1
/// prefers_csd, 2 prefers_ssd, 3 no_preference. A window gets server-side
/// decorations unless the client *explicitly* asked for client-side ones
/// (prefers_csd). A value of "only_supports_csd" is what River reports for a
/// client that never negotiated decorations at all, and quite a few of those
/// expect server-side ones.
pub fn apply_rules_to(config: &Config, window: &mut Window, requests: &mut Requests)
    ensures
        final(window).staged(final(requests)) == old(window).staged(old(requests)).ruled(
            config.rules@,
        ),
{
    proof {
        reveal(Staged::ruled);
    }
    let applied = rules_for(config, window);
    let hint: Option<u32> = window.decoration_hint;
    window.decoration = Some(wanted_decoration(applied, hint));
    window.set_swallow_top(applied.swallow_top.unwrap_or(0));
    let capabilities = window.capabilities();
    window.set_capabilities(capabilities, requests);
}

fn rules_for(config: &Config, window: &Window) -> (r: AppliedRules)
    ensures
        r == rules_applied(
            config.rules@,
            window@.app_id,
            window@.title,
            window@.decoration_hint,
            window@.parent is Some,
        ),
{
    let app_id: Option<&str> = match &window.app_id {
        Some(s) => Some(s.as_str()),
        None => None,
    };
    let title: Option<&str> = match &window.title {
        Some(s) => Some(s.as_str()),
        None => None,
    };
    apply_rules(&config.rules, app_id, title, window.decoration_hint, window.parent.is_some())
}

fn wanted_decoration(applied: AppliedRules, hint: Option<u32>) -> (r: WindowDecoration)
    ensures
        r == decoration_for(applied, hint),
{
    let prefers_csd: bool = match hint {
        Some(hint) => hint == 1,
        None => false,
    };
    if applied.force_ssd {
        WindowDecoration::Ssd
    } else if prefers_csd {
        WindowDecoration::Csd
    } else {
        WindowDecoration::Ssd
    }
}

impl Context {
    /// Create a new window and add to context
    pub fn create_window(&mut self, rwm_window: ObjectId) -> (id: WindowId)
        requires
            old(self)@.next_window_id < usize::MAX,
        ensures
            id == old(self)@.next_window_id,
            final(self)@ == old(self)@.window_created(rwm_window),
    {
        proof {
            reveal(ContextView::window_created);
        }
        let id: WindowId = self.next_window_id;
        let mut window = Window::new(id);
        window.rwm_window = Some(rwm_window);

        // Assign to the preferred output for new windows.
        if let Some(output_id) = self.current_output_for_new_window() {
            if self.find_output(output_id).is_some() {
                window.output = Some(output_id);
            }
        }

        // Stacking WM: all windows are floating by default
        window.floating = true;

        self.next_window_id = id + 1;
        self.windows.push(window);
        self.focus_stack.push(id);
        id
    }

    /// Remove a window from context
    pub fn destroy_window(&mut self, window_id: WindowId)
        ensures
            final(self)@ == old(self)@.window_destroyed(window_id),
    {
        proof {
            reveal(ContextView::window_destroyed);
        }
        // Remove from focus stack
        self.focus_stack = retain_other(&self.focus_stack, window_id);
        assert(self@ =~= ContextView {
            focus_stack: without(old(self)@.focus_stack, window_id),
            ..old(self)@
        });

        // Update focused window if necessary
        if self.focused_window == Some(window_id) {
            if self.focus_stack.len() > 0 {
                let next_id: WindowId = self.focus_stack[0];
                self.focus(next_id);
            } else {
                self.clear_keyboard_focus();
            }
        }
        self.remove_window(window_id);
    }

    fn remove_window(&mut self, window_id: WindowId)
        ensures
            final(self)@ == old(self)@.window_removed(window_id),
    {
        proof {
            reveal(ContextView::window_removed);
        }
        if let Some(i) = self.find_window(window_id) {
            self.windows.remove(i);
        }
    }

    /// Create a new output and add to context
    pub fn create_output(&mut self, rwm_output: ObjectId) -> (id: OutputId)
        requires
            old(self)@.next_output_id < usize::MAX,
        ensures
            id == old(self)@.next_output_id,
            final(self)@ == old(self)@.output_created(rwm_output),
    {
        proof {
            reveal(ContextView::output_created);
        }
        let id: OutputId = self.next_output_id;
        self.next_output_id = id + 1;
        let mut output = Output::new(id);
        output.rwm_output = Some(rwm_output);
        self.outputs.push(output);

        // Set as current output if first
        if self.current_output.is_none() {
            self.current_output = Some(id);
        }
        id
    }

    /// Remove an output from context
    pub fn destroy_output(&mut self, output_id: OutputId)
        ensures
            final(self)@ == old(self)@.output_destroyed(output_id),
    {
        proof {
            reveal(ContextView::output_destroyed);
        }
        // Update current output if necessary
        if self.current_output == Some(output_id) {
            let other = self.first_other_output(output_id);
            self.current_output = other;
            assert(self@ =~= ContextView { current_output: other, ..old(self)@ });
            if let Some(current_output) = other {
                self.set_default_layer_shell_output(current_output);
            }
        }
        self.remove_output(output_id);
    }

    fn remove_output(&mut self, output_id: OutputId)
        ensures
            final(self)@ == old(self)@.output_removed(output_id),
    {
        proof {
            reveal(ContextView::output_removed);
        }
        if let Some(i) = self.find_output(output_id) {
            self.outputs.remove(i);
        }
    }

    fn first_other_output(&self, id: OutputId) -> (r: Option<OutputId>)
        ensures
            r == self@.other_output(id),
    {
        let ghost p = |o: OutputView| o.id != id;
        let mut i: usize = 0;
        while i < self.outputs.len()
            invariant
                i <= self.outputs@.len(),
                p == (|o: OutputView| o.id != id),
                forall|j: int| 0 <= j < i ==> !p(#[trigger] self@.outputs[j]),
            decreases self.outputs@.len() - i,
        {
            assert(self@.outputs[i as int] == self.outputs@[i as int]@);
            if self.outputs[i].id != id {
                proof {
                    lemma_first_is(self@.outputs, p, i as int);
                }
                return Some(self.outputs[i].id);
            }
            i = i + 1;
        }
        proof {
            lemma_first_none(self@.outputs, p);
        }
        None
    }

    /// Create a new seat and add to context
    pub fn create_seat(&mut self, rwm_seat: ObjectId) -> (id: SeatId)
        requires
            old(self)@.next_seat_id < usize::MAX,
        ensures
            id == old(self)@.next_seat_id,
            final(self)@ == old(self)@.seat_created(rwm_seat),
    {
        proof {
            reveal(ContextView::seat_created);
        }
        let id: SeatId = self.next_seat_id;
        self.next_seat_id = id + 1;
        let mut seat = Seat::new(id);
        seat.rwm_seat = Some(rwm_seat);

        // Add default bindings
        self.setup_seat_bindings(&mut seat);
        self.seats.push(seat);

        // Set as current seat if first
        if self.current_seat.is_none() {
            self.current_seat = Some(id);
        }
        id
    }

    /// Set up bindings for a seat
    pub fn setup_seat_bindings(&self, seat: &mut Seat)
        ensures
            final(seat)@ == seat_set_up(old(seat)@, self.config),
    {
        proof {
            reveal(seat_set_up);
        }
        self.populate_xkb_bindings(seat);
        let mut rows = default_pointer_bindings(self.config.main_modifier);
        let ghost table = default_pointer_table(self.config.main_modifier);
        let ghost views = rows@.map_values(|row: PointerRow| pointer_row_view(row));
        assert(views == table);
        assert(views.len() == rows@.len());
        assert(views[0] == pointer_row_view(rows@[0]));
        assert(views[1] == pointer_row_view(rows@[1]));
        if let Some((mode, button, modifiers, action)) = rows.pop() {
            let second = PointerBinding::new(mode, button, modifiers, action);
            if let Some((mode, button, modifiers, action)) = rows.pop() {
                seat.add_pointer_binding(PointerBinding::new(mode, button, modifiers, action));
                seat.add_pointer_binding(second);
            }
        }
        seat.initialize_bindings();
    }

    /// Append the built-in XKB bindings plus any user-configured `[hotkeys]` to a
    /// seat. Existing bindings are left in place, so callers rebuilding the list
    /// (see [`Context::rebuild_xkb_bindings`]) must clear it first.
    ///
    /// User-configured hotkeys fire in the default mode on key press and take
    /// precedence over any built-in binding sharing the same key + modifiers, so
    /// the colliding defaults are skipped rather than registering two bindings
    /// for one chord.
    pub fn populate_xkb_bindings(&self, seat: &mut Seat)
        ensures
            final(seat)@ == xkb_populated(old(seat)@, self.config),
    {
        proof {
            reveal(xkb_populated);
        }
        let ghost start = seat@;
        let ghost hotkeys = hotkey_views(self.config.hotkeys@);
        let rows = default_xkb_bindings(self.config.main_modifier);
        let ghost table = default_xkb_table(self.config.main_modifier);
        let ghost given = rows@;
        assert(table.take(0).len() == 0);
        for row in it: rows
            invariant
                it.seq() == given,
                xkb_rows_view(given) == table,
                hotkeys == hotkey_views(self.config.hotkeys@),
                seat@ == (SeatView {
                    xkb_bindings: with_defaults(
                        start.xkb_bindings,
                        table.take(it.index() as int),
                        hotkeys,
                    ),
                    ..start
                }),
        {
            proof {
                let i = it.index() as int;
                assert(row == given[i]);
                assert(xkb_rows_view(given)[i] == xkb_row_view(given[i]));
                assert(table.take(i + 1).drop_last() =~= table.take(i));
            }
            let (mode, keysym, modifiers, action, event) = row;
            if mode == Mode::Default && event == BindingEvent::Pressed && is_user_chord(
                &self.config,
                keysym,
                modifiers,
            ) {
            } else {
                seat.add_xkb_binding(
                    XkbBinding::new(mode, keysym, modifiers, action).with_event(event),
                );
            }
        }
        assert(table.take(table.len() as int) =~= table);
        let ghost middle = seat@;

        // Add user-configured hotkeys (spawn a command on key press)
        let mut i: usize = 0;
        assert(hotkeys.take(0).len() == 0);
        while i < self.config.hotkeys.len()
            invariant
                i <= self.config.hotkeys@.len(),
                hotkeys == hotkey_views(self.config.hotkeys@),
                seat@ == (SeatView {
                    xkb_bindings: with_hotkeys(middle.xkb_bindings, hotkeys.take(i as int)),
                    ..middle
                }),
            decreases self.config.hotkeys@.len() - i,
        {
            proof {
                assert(hotkeys.take(i + 1).drop_last() =~= hotkeys.take(i as int));
                assert(hotkeys[i as int] == self.config.hotkeys@[i as int]@);
            }
            let hotkey = &self.config.hotkeys[i];
            let argv = clone_strings(&hotkey.argv);
            seat.add_xkb_binding(
                XkbBinding::new(
                    Mode::Default,
                    hotkey.keysym,
                    hotkey.modifiers,
                    Action::Spawn { argv },
                ).with_event(BindingEvent::Pressed),
            );
            i = i + 1;
        }
        assert(hotkeys.take(hotkeys.len() as int) =~= hotkeys);
    }

    /// Rebuild a seat's in-memory XKB binding list from the current config and
    /// mark each enabled for the seat's current mode.
    ///
    /// This only refreshes the data; the caller must destroy the old protocol
    /// binding objects beforehand and create new ones afterward. Pointer bindings
    /// are left untouched.
    pub fn rebuild_xkb_bindings(&self, seat: &mut Seat)
        ensures
            final(seat)@ == xkb_rebuilt(old(seat)@, self.config),
    {
        proof {
            reveal(xkb_rebuilt);
            reveal(xkb_populated);
        }
        seat.clear_xkb_bindings();
        self.populate_xkb_bindings(seat);
        let mode = seat.mode;
        let ghost keyed = seat@;
        let mut i: usize = 0;
        while i < seat.xkb_bindings.len()
            invariant
                i <= seat.xkb_bindings@.len(),
                seat.xkb_bindings@.len() == keyed.xkb_bindings.len(),
                mode == keyed.mode,
                seat@ == (SeatView { xkb_bindings: seat@.xkb_bindings, ..keyed }),
                forall|j: int|
                    0 <= j < i ==> ((#[trigger] seat.xkb_bindings@[j]).0@, seat.xkb_bindings@[j].1)
                        == xkb_enabled_for(keyed.xkb_bindings, mode)[j],
                forall|j: int|
                    i <= j < seat.xkb_bindings@.len() ==> ((#[trigger] seat.xkb_bindings@[j]).0@,
                        seat.xkb_bindings@[j].1) == keyed.xkb_bindings[j],
            decreases seat.xkb_bindings@.len() - i,
        {
            let enabled = seat.xkb_bindings[i].0.mode == mode;
            seat.xkb_bindings[i].0.enabled = enabled;
            i = i + 1;
        }
        assert(seat@.xkb_bindings =~= xkb_enabled_for(keyed.xkb_bindings, mode));
    }

    /// Remove a seat from context
    pub fn destroy_seat(&mut self, seat_id: SeatId)
        ensures
            final(self)@ == old(self)@.seat_destroyed(seat_id),
    {
        proof {
            reveal(ContextView::seat_destroyed);
        }
        // Update current seat if necessary
        if self.current_seat == Some(seat_id) {
            self.current_seat = self.first_other_seat(seat_id);
        }
        if let Some(i) = self.find_seat(seat_id) {
            let ghost before = self@;
            self.seats.remove(i);
            assert(self@ =~= ContextView { seats: before.seats.remove(i as int), ..before });
        }
    }

    fn first_other_seat(&self, id: SeatId) -> (r: Option<SeatId>)
        ensures
            r == self@.other_seat(id),
    {
        let ghost p = |s: SeatView| s.id != id;
        let mut i: usize = 0;
        while i < self.seats.len()
            invariant
                i <= self.seats@.len(),
                p == (|s: SeatView| s.id != id),
                forall|j: int| 0 <= j < i ==> !p(#[trigger] self@.seats[j]),
            decreases self.seats@.len() - i,
        {
            assert(self@.seats[i as int] == self.seats@[i as int]@);
            if self.seats[i].id != id {
                proof {
                    lemma_first_is(self@.seats, p, i as int);
                }
                return Some(self.seats[i].id);
            }
            i = i + 1;
        }
        proof {
            lemma_first_none(self@.seats, p);
        }
        None
    }

    /// Apply rules to a window
    pub fn apply_rules_to_window(&mut self, window_id: WindowId)
        ensures
            final(self)@ == old(self)@.on_window(window_id, ruled(old(self)@.config.rules@)),
    {
        if let Some(i) = self.find_window(window_id) {
            apply_rules_to(&self.config, &mut self.windows[i], &mut self.requests);
        }
    }
}

/// A window gets the decorations of the window manager unless its client prefers its own and
/// no rule forces them. It is told what it may ask for: all of it unless it has a parent; a
/// window of a fixed size may still be minimized.
pub proof fn law_rules_decide_the_decorations(s: Staged, rules: Seq<Rule>)
    ensures
        ({
            let w = s.window;
            let v = s.ruled(rules).window;
            let applied = rules_applied(
                rules,
                w.app_id,
                w.title,
                w.decoration_hint,
                w.parent is Some,
            );
            &&& applied.force_ssd ==> v.decoration == Some(WindowDecoration::Ssd)
            &&& !applied.force_ssd && w.decoration_hint == Some(1u32) ==> v.decoration == Some(
                WindowDecoration::Csd,
            )
            &&& w.decoration_hint != Some(1u32) ==> v.decoration == Some(WindowDecoration::Ssd)
            &&& applied.swallow_top matches Some(amount) ==> (amount >= 0 ==> v.swallow_top
                == amount)
            &&& applied.swallow_top is None ==> v.swallow_top == 0
            &&& v.swallow_top >= 0
            &&& v == (WindowView { decoration: v.decoration, swallow_top: v.swallow_top, ..w })
        }),
        ({
            let w = s.window;
            let fixed = w.min_width > 0 && w.min_height > 0 && w.max_width == w.min_width
                && w.max_height == w.min_height;
            w.rwm_window matches Some(window) ==> exists|capabilities: Capabilities| #[trigger]
                (Request::SetCapabilities { window, capabilities })@ == s.ruled(
                    rules,
                ).requests.last() && capabilities.maximize == (w.parent is None && !fixed)
                    && capabilities.fullscreen == (w.parent is None && !fixed)
                    && capabilities.minimize == (w.parent is None) && capabilities.window_menu
        }),
{
    reveal(Staged::ruled);
    reveal(Staged::set_capabilities);
    let w = s.window;
    if let Some(window) = w.rwm_window {
        let capabilities = w.capabilities();
        assert((Request::SetCapabilities { window, capabilities })@ == s.ruled(
            rules,
        ).requests.last());
    }
}

/// A new window comes last in the table and in the focus order, without a place, shown and not
/// fullscreen. What was there before stays.
pub proof fn law_new_window_comes_last(c: ContextView, object: ObjectId)
    ensures
        ({
            let d = c.window_created(object);
            let w = d.windows.last();
            &&& d.windows.len() == c.windows.len() + 1
            &&& d.windows.drop_last() == c.windows
            &&& w.id == c.next_window_id && w.rwm_window == Some(object)
            &&& w.position_undefined && !w.hidden && !w.maximized && w.snap_state is None
            &&& w.fullscreen is Off
            &&& d.focus_stack == c.focus_stack + seq![c.next_window_id]
            &&& d.focused_window == c.focused_window
            &&& w.output matches Some(output) ==> c.output(output) is Some
        }),
{
    reveal(ContextView::window_created);
    assert(c.focus_stack.push(c.next_window_id) =~= c.focus_stack + seq![c.next_window_id]);
    assert(c.window_created(object).windows.drop_last() =~= c.windows);
}

/// When an output goes away that was the current one, the first of the others becomes current; when
/// another one goes away, the current one stays. The others stay in their order.
pub proof fn law_first_other_output_becomes_current(c: ContextView, k: int)
    requires
        0 <= k < c.outputs.len(),
        forall|j: int|
            0 <= j < c.outputs.len() && j != k ==> (#[trigger] c.outputs[j]).id != c.outputs[k].id,
    ensures
        ({
            let id = c.outputs[k].id;
            let d = c.output_destroyed(id);
            &&& d.outputs == c.outputs.remove(k)
            &&& c.current_output != Some(id) ==> d.current_output == c.current_output
            &&& c.current_output == Some(id) && d.outputs.len() > 0 ==> d.current_output == Some(
                d.outputs[0].id,
            )
            &&& c.current_output == Some(id) && d.outputs.len() == 0 ==> d.current_output is None
        }),
{
    reveal(ContextView::output_destroyed);
    reveal(ContextView::output_removed);
    reveal(ContextView::default_output_set);
    let id = c.outputs[k].id;
    lemma_first_is(c.outputs, is_output(id), k);
    let other = |o: OutputView| o.id != id;
    if c.outputs.len() > 1 {
        lemma_first_is(
            c.outputs,
            other,
            if k == 0 {
                1
            } else {
                0
            },
        );
    } else {
        lemma_first_none(c.outputs, other);
    }
    assert(first(c.outputs, other) == first(c.outputs, |o: OutputView| o.id != id));
}

/// The first output becomes the current one, and a further one does not take its place. The first
/// seat likewise.
pub proof fn law_first_comer_becomes_current(c: ContextView, object: ObjectId)
    ensures
        ({
            let d = c.output_created(object);
            &&& c.current_output is None ==> d.current_output == Some(c.next_output_id)
            &&& c.current_output is Some ==> d.current_output == c.current_output
            &&& d.outputs.last().id == c.next_output_id && d.outputs.last().rwm_output == Some(object)
            &&& d.outputs.len() == c.outputs.len() + 1
        }),
        ({
            let d = c.seat_created(object);
            &&& c.current_seat is None ==> d.current_seat == Some(c.next_seat_id)
            &&& c.current_seat is Some ==> d.current_seat == c.current_seat
            &&& d.seats.len() == c.seats.len() + 1
        }),
{
    reveal(ContextView::output_created);
    reveal(ContextView::seat_created);
}

} // verus!
