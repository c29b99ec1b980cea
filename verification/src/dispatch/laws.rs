//! What holds of the window manager whatever the compositor reports, in
//! whatever order.

use vstd::prelude::*;
use crate::binding::BindingEvent;
use crate::canoe::context::icons::{insert_by_seq, minimized_on};
use crate::canoe::context::laws::ids_wf;
use crate::canoe::context::objects::{seat_set_up, xkb_populated};
use crate::canoe::context::tables::{
    given_out, group_tables, icons_given, lemma_output_icons_given, lemma_steady_default_output_set,
    lemma_steady_focus, lemma_steady_keyboard_focus_cleared, lemma_steady_reloaded,
    lemma_steady_render_finished, lemma_steady_rendered, lemma_steady_spawned, steady, window_id,
    Tables,
};
use crate::canoe::context::{fresh_context, is_window, ContextView};
use crate::canoe::desktop::DesktopView;
use crate::canoe::output::OutputView;
use crate::canoe::window::WindowView;
use crate::canoe::{LayerSurfaceKind, OutputId, SeatId, WindowId};
use crate::config::Config;
use crate::dispatch::globals::{context_bound, GlobalKind, GlobalsView};
use crate::dispatch::output::OutputReport;
use crate::dispatch::pointer::PointerReport;
use crate::dispatch::seat::{LayerFocus, SeatReport};
use crate::dispatch::tables::{
    lemma_steady_area_reported, lemma_steady_button_reported, lemma_steady_cursor_device_got,
    lemma_steady_cursor_devices_asked, lemma_steady_desktop_got, lemma_steady_desktops_wanted,
    lemma_steady_event_queued, lemma_steady_fact_reported, lemma_steady_key_reported,
    lemma_steady_layer_closed, lemma_steady_layer_focus_changed, lemma_steady_layer_output_got,
    lemma_steady_layer_resized, lemma_steady_layer_seat_got, lemma_steady_lock_changed,
    lemma_steady_manage_sequence, lemma_steady_menu_opened, lemma_steady_node_got,
    lemma_steady_op_moved, lemma_steady_op_released, lemma_steady_output_assigned,
    lemma_steady_output_connected, lemma_steady_outputs_rebound, lemma_steady_pointer_asked,
    lemma_steady_pointer_binding_got, lemma_steady_pointer_got, lemma_steady_pointer_lost,
    lemma_steady_pointer_moved, lemma_steady_pointer_off, lemma_steady_pointer_over,
    lemma_steady_pointer_reported, lemma_steady_rules_applied_to, lemma_steady_scaled,
    lemma_steady_seat_buttons_registered, lemma_steady_seat_connected, lemma_steady_seat_registered,
    lemma_steady_shield_got, lemma_steady_titlebar_got, lemma_steady_titlebar_moved,
    lemma_steady_window_clicked, lemma_steady_wl_seat_attached, lemma_steady_xkb_binding_got,
};
use crate::dispatch::window::WindowReport;
use crate::protocol::{MenuPlanView, ObjectId};
use crate::search::{lemma_first, lemma_without, lemma_without_keeps_distinct, without};

verus! {

/// Something that happens to the window manager.
pub enum Event {
    WindowAnnounced { object: ObjectId, globals: GlobalsView },
    OutputAnnounced { object: ObjectId },
    SeatAnnounced { object: ObjectId },
    Window { object: ObjectId, report: WindowReport },
    Output { object: ObjectId, report: OutputReport, globals: GlobalsView },
    Seat {
        seat: SeatId,
        report: SeatReport,
        scale: spec_fn(i64, i32, i32) -> i32,
        globals: GlobalsView,
    },
    Pointer { seat: SeatId, report: PointerReport, globals: GlobalsView },
    Key {
        seat: SeatId,
        index: int,
        event: BindingEvent,
        scale: spec_fn(i64, i32, i32) -> i32,
        globals: GlobalsView,
    },
    Button { seat: SeatId, index: int, event: BindingEvent },
    LayerFocus { seat: SeatId, focus: LayerFocus },
    Area { output: OutputId, x: i32, y: i32, width: i32, height: i32 },
    LayerConfigured { kind: LayerSurfaceKind, width: i32, height: i32, globals: GlobalsView },
    LayerClosed { kind: LayerSurfaceKind },
    TitlebarMoved { window: WindowId, object: ObjectId, entered: bool, globals: GlobalsView },
    Locked { locked: bool },
    ManageStart { scale: spec_fn(i64, i32, i32) -> i32, globals: GlobalsView },
    RenderStart,
    RenderFinished,
    GlobalBound { kind: GlobalKind, name: u32, object: ObjectId, globals: GlobalsView },
    PointerFound { seat: SeatId, object: ObjectId, globals: GlobalsView },
    PointerLost { seat: SeatId },
    Scaled { name: Option<u32>, object: ObjectId, scale: i32 },
    NodeCreated { window: WindowId, object: ObjectId },
    TitlebarCreated { window: WindowId, surface: ObjectId, decoration: ObjectId },
    LayerOutputCreated { output: OutputId, object: ObjectId },
    LayerSeatCreated { seat: SeatId, object: ObjectId },
    KeyBindingCreated { seat: SeatId, index: int, object: ObjectId },
    ButtonBindingCreated { seat: SeatId, index: int, object: ObjectId },
    PointerCreated { seat: SeatId, object: ObjectId, globals: GlobalsView },
    CursorDeviceCreated { seat: SeatId, object: ObjectId },
    DesktopCreated { output: OutputId, surface: ObjectId, layer_surface: ObjectId },
    MenuCreated {
        plan: MenuPlanView,
        surface: ObjectId,
        layer_surface: ObjectId,
        text_width: Option<i32>,
        globals: GlobalsView,
    },
    ShieldCreated { output: OutputId, surface: ObjectId, layer_surface: ObjectId },
    DesktopDrawn { output: OutputId, width: i32, height: i32, scale: i32 },
    Reloaded { config: Config },
    Spawned { argv: Seq<Seq<char>> },
    Stopped,
}

impl ContextView {
    /// With the desktop of an output drawn into a buffer of some size.
    pub open spec fn desktop_drawn(
        self,
        output: OutputId,
        width: i32,
        height: i32,
        scale: i32,
    ) -> ContextView {
        self.output_changed(
            output,
            |o: OutputView|
                OutputView {
                    desktop_surface: match o.desktop_surface {
                        Some(desktop) => Some(
                            DesktopView {
                                dirty: false,
                                ..DesktopView {
                                    buffer: true,
                                    buf_width: width,
                                    buf_height: height,
                                    ..desktop
                                }.laid_out(self.shown_icons(output), scale)
                            },
                        ),
                        None => None,
                    },
                    ..o
                },
        )
    }

    /// The context after an event.
    pub open spec fn after(self, event: Event) -> ContextView {
        match event {
            Event::WindowAnnounced { object, globals } => self.window_announced(object, globals),
            Event::OutputAnnounced { object } => self.output_announced(object),
            Event::SeatAnnounced { object } => self.seat_announced(object),
            Event::Window { object, report } => self.window_reported(object, report),
            Event::Output { object, report, globals } => self.output_reported(
                object,
                report,
                globals,
            ),
            Event::Seat { seat, report, scale, globals } => self.seat_reported(
                seat,
                report,
                scale,
                globals,
            ),
            Event::Pointer { seat, report, globals } => self.pointer_reported(
                seat,
                report,
                globals,
            ),
            Event::Key { seat, index, event, scale, globals } => self.key_reported(
                seat,
                index,
                event,
                scale,
                globals,
            ),
            Event::Button { seat, index, event } => self.button_reported(seat, index, event),
            Event::LayerFocus { seat, focus } => self.layer_focus_changed(seat, focus),
            Event::Area { output, x, y, width, height } => self.area_reported(
                output,
                x,
                y,
                width,
                height,
            ),
            Event::LayerConfigured { kind, width, height, globals } => self.layer_resized(
                kind,
                width,
                height,
                globals,
            ),
            Event::LayerClosed { kind } => self.layer_closed(kind),
            Event::TitlebarMoved { window, object, entered, globals } => self.titlebar_moved(
                window,
                object,
                entered,
                globals,
            ),
            Event::Locked { locked } => self.lock_changed(locked),
            Event::ManageStart { scale, globals } => self.manage_sequence(scale, globals),
            Event::RenderStart => self.rendered(),
            Event::RenderFinished => self.render_finished(),
            Event::GlobalBound { kind, name, object, globals } => context_bound(
                self,
                kind,
                name,
                object,
                globals,
            ),
            Event::PointerFound { seat, object, globals } => self.pointer_asked(
                seat,
                object,
                globals,
            ),
            Event::PointerLost { seat } => self.pointer_lost(seat),
            Event::Scaled { name, object, scale } => self.scaled(name, object, scale),
            Event::NodeCreated { window, object } => self.node_got(window, object),
            Event::TitlebarCreated { window, surface, decoration } => self.titlebar_got(
                window,
                surface,
                decoration,
            ),
            Event::LayerOutputCreated { output, object } => self.layer_output_got(output, object),
            Event::LayerSeatCreated { seat, object } => self.layer_seat_got(seat, object),
            Event::KeyBindingCreated { seat, index, object } => self.xkb_binding_got(
                seat,
                index,
                object,
            ),
            Event::ButtonBindingCreated { seat, index, object } => self.pointer_binding_got(
                seat,
                index,
                object,
            ),
            Event::PointerCreated { seat, object, globals } => self.pointer_got(
                seat,
                object,
                globals,
            ),
            Event::CursorDeviceCreated { seat, object } => self.cursor_device_got(seat, object),
            Event::DesktopCreated { output, surface, layer_surface } => self.desktop_got(
                output,
                surface,
                layer_surface,
            ),
            Event::MenuCreated { plan, surface, layer_surface, text_width, globals } =>
                self.menu_opened(plan, surface, layer_surface, text_width, globals),
            Event::ShieldCreated { output, surface, layer_surface } => self.shield_got(
                output,
                surface,
                layer_surface,
            ),
            Event::DesktopDrawn { output, width, height, scale } => self.desktop_drawn(
                output,
                width,
                height,
                scale,
            ),
            Event::Reloaded { config } => self.reloaded(config),
            Event::Spawned { argv } => self.spawned(argv),
            Event::Stopped => ContextView { running: false, ..self },
        }
    }

    /// The context after several events, one after the other.
    pub open spec fn after_all(self, events: Seq<Event>) -> ContextView
        decreases events.len(),
    {
        if events.len() == 0 {
            self
        } else {
            self.after_all(events.drop_last()).after(events.last())
        }
    }

    /// Whether there is an id left for the object that an event announces.
    pub open spec fn has_id_for(self, event: Event) -> bool {
        match event {
            Event::WindowAnnounced { .. } => self.next_window_id < usize::MAX,
            Event::OutputAnnounced { .. } => self.next_output_id < usize::MAX,
            Event::SeatAnnounced { .. } => self.next_seat_id < usize::MAX,
            _ => true,
        }
    }
}

/// Whether an event tells of a new window, output or seat.
pub open spec fn announces(event: Event) -> bool {
    event is WindowAnnounced || event is OutputAnnounced || event is SeatAnnounced
}

/// Whether an event tells of the end of a window, an output or a seat.
pub open spec fn removes(event: Event) -> bool {
    match event {
        Event::Window { report, .. } => report is Closed,
        Event::Output { report, .. } => report is Removed,
        Event::Seat { report, .. } => report is Removed,
        _ => false,
    }
}

/// Whether there was an id left whenever one of the events announced an
/// object.
pub open spec fn ids_suffice(c: ContextView, events: Seq<Event>) -> bool {
    forall|n: int|
        0 <= n < events.len() ==> (#[trigger] c.after_all(events.take(n))).has_id_for(events[n])
}

/// Whether ids grow along a table and are below the next one.
pub open spec fn growing(ids: Seq<usize>, next: usize) -> bool {
    &&& forall|i: int, j: int| 0 <= i < j < ids.len() ==> ids[i] < ids[j]
    &&& forall|i: int| 0 <= i < ids.len() ==> ids[i] < next
}

/// Whether the tables are sound: in each of them ids grow, and so no two
/// objects have the same.
pub open spec fn sound(t: Tables) -> bool {
    &&& growing(t.windows, t.next_window_id)
    &&& growing(t.outputs, t.next_output_id)
    &&& growing(t.seats, t.next_seat_id)
}

/// Whether each window has its place in the focus order.
pub open spec fn all_in_order(c: ContextView) -> bool {
    forall|i: int|
        0 <= i < c.tables().windows.len() ==> c.focus_stack.contains(
            #[trigger] c.tables().windows[i],
        )
}

proof fn lemma_pushed(s: Seq<usize>, last: usize, x: usize)
    ensures
        s.push(last).contains(x) <==> s.contains(x) || x == last,
{
    let t = s.push(last);
    if s.contains(x) {
        let i = choose|i: int| 0 <= i < s.len() && s[i] == x;
        assert(t[i] == x);
    }
    assert(t[s.len() as int] == last);
}

/// A report that does not tell of the end of a window keeps the tables.
proof fn lemma_steady_window_reported(c: ContextView, object: ObjectId, report: WindowReport)
    requires
        report !is Closed,
    ensures
        steady(c, c.window_reported(object, report)),
{
    broadcast use {
        lemma_steady_event_queued,
        lemma_steady_fact_reported,
        lemma_steady_output_assigned,
        lemma_steady_rules_applied_to,
    };
    reveal(ContextView::window_reported);
}

/// A report that does not tell of the end of an output keeps the tables.
proof fn lemma_steady_output_reported(
    c: ContextView,
    object: ObjectId,
    report: OutputReport,
    g: GlobalsView,
)
    requires
        report !is Removed,
    ensures
        steady(c, c.output_reported(object, report, g)),
{
    broadcast use {group_tables, lemma_steady_output_connected};
    reveal(ContextView::output_reported);
}

/// A report that does not tell of the end of a seat keeps the tables.
proof fn lemma_steady_seat_reported(
    c: ContextView,
    seat: SeatId,
    report: SeatReport,
    scale: spec_fn(i64, i32, i32) -> i32,
    g: GlobalsView,
)
    requires
        report !is Removed,
    ensures
        steady(c, c.seat_reported(seat, report, scale, g)),
{
    broadcast use {
        lemma_steady_op_moved,
        lemma_steady_op_released,
        lemma_steady_pointer_moved,
        lemma_steady_pointer_off,
        lemma_steady_pointer_over,
        lemma_steady_seat_connected,
        lemma_steady_window_clicked,
    };
    reveal(ContextView::seat_reported);
}

/// The icons of a desktop are of windows whose ids were given out.
proof fn lemma_shown_icons_given(c: ContextView, output: OutputId)
    requires
        c.ids_given(),
    ensures
        forall|i: int|
            0 <= i < c.shown_icons(output).len() ==> (#[trigger] c.shown_icons(output)[i]).window_id
                < c.next_window_id,
{
    reveal(given_out);
    assert forall|j: int| 0 <= j < c.windows.len() implies (#[trigger] c.windows[j]).id
        < c.next_window_id by {
        assert(c.tables().windows[j] == c.windows[j].id);
    }
    lemma_minimized_below(c, c.windows, output, c.next_window_id);
    let icons = c.shown_icons(output);
    assert forall|i: int| 0 <= i < icons.len() implies (#[trigger] icons[i]).window_id
        < c.next_window_id by {
        assert(icons[i].window_id == minimized_on(c, c.windows, output)[i].id);
    }
}

proof fn lemma_minimized_below(
    c: ContextView,
    windows: Seq<WindowView>,
    output: OutputId,
    next: WindowId,
)
    requires
        forall|j: int| 0 <= j < windows.len() ==> (#[trigger] windows[j]).id < next,
    ensures
        forall|i: int|
            0 <= i < minimized_on(c, windows, output).len() ==> (#[trigger] minimized_on(
                c,
                windows,
                output,
            )[i]).id < next,
    decreases windows.len(),
{
    if windows.len() > 0 {
        let earlier = windows.drop_last();
        assert forall|j: int| 0 <= j < earlier.len() implies (#[trigger] earlier[j]).id < next by {
            assert(earlier[j] == windows[j]);
        }
        lemma_minimized_below(c, earlier, output, next);
        assert(windows.last().id < next);
        lemma_inserted_below(minimized_on(c, earlier, output), windows.last(), next);
    }
}

proof fn lemma_inserted_below(sorted: Seq<WindowView>, w: WindowView, next: WindowId)
    requires
        forall|j: int| 0 <= j < sorted.len() ==> (#[trigger] sorted[j]).id < next,
        w.id < next,
    ensures
        forall|i: int|
            0 <= i < insert_by_seq(sorted, w).len() ==> (#[trigger] insert_by_seq(sorted, w)[i]).id
                < next,
    decreases sorted.len(),
{
    if sorted.len() > 0 {
        let earlier = sorted.drop_last();
        assert forall|j: int| 0 <= j < earlier.len() implies (#[trigger] earlier[j]).id < next by {
            assert(earlier[j] == sorted[j]);
        }
        assert(sorted.last().id < next);
        lemma_inserted_below(earlier, w, next);
        let after = insert_by_seq(sorted, w);
        assert forall|i: int| 0 <= i < after.len() implies (#[trigger] after[i]).id < next by {
            if sorted.last().minimize_seq <= w.minimize_seq {
                if i < sorted.len() {
                    assert(after[i] == sorted[i]);
                }
            } else if i < insert_by_seq(earlier, w).len() {
                assert(after[i] == insert_by_seq(earlier, w)[i]);
            }
        }
    }
}

proof fn lemma_steady_desktop_drawn(
    c: ContextView,
    output: OutputId,
    width: i32,
    height: i32,
    scale: i32,
)
    ensures
        steady(c, c.desktop_drawn(output, width, height, scale)),
{
    broadcast use group_tables;
    if c.ids_given() {
        lemma_shown_icons_given(c, output);
        lemma_output_icons_given(c, output);
    }
}

/// Binding a global keeps the tables.
proof fn lemma_steady_context_bound(
    c: ContextView,
    kind: GlobalKind,
    name: u32,
    object: ObjectId,
    g: GlobalsView,
)
    ensures
        steady(c, context_bound(c, kind, name, object, g)),
{
    broadcast use {
        lemma_steady_cursor_devices_asked,
        lemma_steady_desktops_wanted,
        lemma_steady_outputs_rebound,
        lemma_steady_wl_seat_attached,
    };
    reveal(context_bound);
}

/// Which windows, outputs and seats there are, and which ids come next, changes
/// with no event but those that tell of a new object or of the end of one.
pub proof fn law_other_events_keep_the_tables(c: ContextView, event: Event)
    requires
        !announces(event),
        !removes(event),
    ensures
        c.after(event).tables() == c.tables(),
{
    lemma_steady_event(c, event);
}

proof fn lemma_steady_event(c: ContextView, event: Event)
    requires
        !announces(event),
        !removes(event),
    ensures
        steady(c, c.after(event)),
{
    broadcast use {
        lemma_steady_area_reported,
        lemma_steady_button_reported,
        lemma_steady_cursor_device_got,
        lemma_steady_desktop_got,
        lemma_steady_key_reported,
        lemma_steady_layer_closed,
        lemma_steady_layer_focus_changed,
        lemma_steady_layer_output_got,
        lemma_steady_layer_resized,
        lemma_steady_layer_seat_got,
        lemma_steady_lock_changed,
        lemma_steady_manage_sequence,
        lemma_steady_menu_opened,
        lemma_steady_node_got,
        lemma_steady_pointer_asked,
        lemma_steady_pointer_binding_got,
        lemma_steady_pointer_got,
        lemma_steady_pointer_lost,
        lemma_steady_pointer_reported,
        lemma_steady_reloaded,
        lemma_steady_render_finished,
        lemma_steady_rendered,
        lemma_steady_scaled,
        lemma_steady_shield_got,
        lemma_steady_spawned,
        lemma_steady_titlebar_got,
        lemma_steady_titlebar_moved,
        lemma_steady_xkb_binding_got,
    };
    match event {
        Event::Window { object, report } => lemma_steady_window_reported(c, object, report),
        Event::Output { object, report, globals } => lemma_steady_output_reported(
            c,
            object,
            report,
            globals,
        ),
        Event::Seat { seat, report, scale, globals } => lemma_steady_seat_reported(
            c,
            seat,
            report,
            scale,
            globals,
        ),
        Event::GlobalBound { kind, name, object, globals } => lemma_steady_context_bound(
            c,
            kind,
            name,
            object,
            globals,
        ),
        Event::DesktopDrawn { output, width, height, scale } => lemma_steady_desktop_drawn(
            c,
            output,
            width,
            height,
            scale,
        ),
        _ => {},
    }
}

proof fn lemma_window_announced(c: ContextView, object: ObjectId, g: GlobalsView)
    requires
        c.next_window_id < usize::MAX,
    ensures
        c.window_announced(object, g).tables() == (Tables {
            windows: c.tables().windows.push(c.next_window_id),
            next_window_id: (c.next_window_id + 1) as usize,
            ..c.tables()
        }),
        c.ids_given() ==> c.window_announced(object, g).ids_given(),
        all_in_order(c) ==> all_in_order(c.window_announced(object, g)),
{
    broadcast use lemma_steady_event_queued;
    reveal(ContextView::window_announced);
    reveal(ContextView::window_created);
    let d = c.window_created(object);
    assert(d.tables().windows =~= c.tables().windows.push(c.next_window_id));
    if all_in_order(c) {
        assert(d.focus_stack == c.focus_stack.push(c.next_window_id));
        assert forall|i: int| 0 <= i < d.tables().windows.len() implies d.focus_stack.contains(
            #[trigger] d.tables().windows[i],
        ) by {
            lemma_pushed(c.focus_stack, c.next_window_id, d.tables().windows[i]);
            if i < c.tables().windows.len() {
                assert(c.focus_stack.contains(c.tables().windows[i]));
            }
        }
    }
    if c.ids_given() {
        assert(d.ids_given()) by {
            reveal(given_out);
            let s = c.focus_stack;
            let t = d.focus_stack;
            assert(t == s.push(c.next_window_id));
            assert forall|i: int, j: int|
                0 <= i < t.len() && 0 <= j < t.len() && i != j implies t[i] != t[j] by {
                if i < s.len() {
                    assert(t[i] == s[i]);
                }
                if j < s.len() {
                    assert(t[j] == s[j]);
                }
            }
            assert forall|k: int| 0 <= k < d.outputs.len() implies icons_given(
                #[trigger] d.outputs[k],
                d.next_window_id,
            ) by {
                assert(icons_given(c.outputs[k], c.next_window_id));
            }
        }
    }
}

proof fn lemma_output_announced(c: ContextView, object: ObjectId)
    requires
        c.next_output_id < usize::MAX,
    ensures
        c.output_announced(object).tables() == (Tables {
            outputs: c.tables().outputs.push(c.next_output_id),
            next_output_id: (c.next_output_id + 1) as usize,
            ..c.tables()
        }),
        c.ids_given() ==> c.output_announced(object).ids_given(),
        all_in_order(c) ==> all_in_order(c.output_announced(object)),
{
    reveal(ContextView::output_announced);
    reveal(ContextView::output_created);
    let d = c.output_created(object);
    assert(d.tables().outputs =~= c.tables().outputs.push(c.next_output_id));
    if c.ids_given() {
        assert(d.ids_given()) by {
            reveal(given_out);
            assert forall|k: int| 0 <= k < d.outputs.len() implies icons_given(
                #[trigger] d.outputs[k],
                d.next_window_id,
            ) by {
                if k < c.outputs.len() {
                    assert(icons_given(c.outputs[k], c.next_window_id));
                }
            }
        }
    }
}

proof fn lemma_seat_announced(c: ContextView, object: ObjectId)
    requires
        c.next_seat_id < usize::MAX,
    ensures
        c.seat_announced(object).tables() == (Tables {
            seats: c.tables().seats.push(c.next_seat_id),
            next_seat_id: (c.next_seat_id + 1) as usize,
            ..c.tables()
        }),
        c.ids_given() ==> c.seat_announced(object).ids_given(),
        all_in_order(c) ==> all_in_order(c.seat_announced(object)),
{
    broadcast use {lemma_steady_seat_buttons_registered, lemma_steady_seat_registered};
    reveal(ContextView::seat_announced);
    reveal(ContextView::seat_created);
    reveal(seat_set_up);
    reveal(xkb_populated);
    assert(c.seat_created(object).tables().seats =~= c.tables().seats.push(c.next_seat_id));
}

proof fn lemma_window_destroyed(c: ContextView, id: WindowId)
    ensures
        c.window_destroyed(id).tables() == (Tables {
            windows: match c.window_index(id) {
                Some(i) => c.tables().windows.remove(i),
                None => c.tables().windows,
            },
            ..c.tables()
        }),
        c.ids_given() ==> c.window_destroyed(id).ids_given(),
        sound(c.tables()) && all_in_order(c) ==> all_in_order(c.window_destroyed(id)),
{
    broadcast use {group_tables, lemma_steady_focus, lemma_steady_keyboard_focus_cleared};
    reveal(ContextView::window_destroyed);
    reveal(ContextView::window_removed);
    let b = ContextView { focus_stack: without(c.focus_stack, id), ..c };
    if c.ids_given() {
        reveal(given_out);
        lemma_without(c.focus_stack, id);
        lemma_without_keeps_distinct(c.focus_stack, id);
        assert forall|i: int| 0 <= i < b.focus_stack.len() implies #[trigger] b.focus_stack[i]
            < b.next_window_id by {
            assert(b.focus_stack.contains(b.focus_stack[i]));
            assert(c.focus_stack.contains(b.focus_stack[i]));
        }
    }
    let d = if c.focused_window == Some(id) {
        if b.focus_stack.len() > 0 {
            b.focus(b.focus_stack[0])
        } else {
            b.keyboard_focus_cleared()
        }
    } else {
        b
    };
    assert(d.tables() == b.tables() && (c.ids_given() ==> d.ids_given()));
    assert(forall|x: WindowId|
        b.focus_stack.contains(x) ==> #[trigger] d.focus_stack.contains(x));
    lemma_same_index(c, d, id);
    if let Some(i) = c.window_index(id) {
        assert(d.windows.remove(i).map_values(window_id()) =~= d.tables().windows.remove(i));
        reveal(given_out);
    }
    if sound(c.tables()) && all_in_order(c) {
        let ids = c.tables().windows;
        let left = c.window_destroyed(id).tables().windows;
        assert forall|j: int| 0 <= j < left.len() implies d.focus_stack.contains(
            #[trigger] left[j],
        ) by {
            lemma_without(c.focus_stack, id);
            let k = match c.window_index(id) {
                Some(i) => if j < i {
                    j
                } else {
                    j + 1
                },
                None => j,
            };
            assert(left[j] == ids[k]);
            if let Some(i) = c.window_index(id) {
                assert(ids[i] == id);
            }
            assert(c.focus_stack.contains(ids[k]));
            assert(ids[k] != id) by {
                if c.window_index(id) is None {
                    lemma_first(c.windows, is_window(id));
                    assert(!is_window(id)(c.windows[k]));
                }
            }
            assert(b.focus_stack.contains(left[j]));
        }
    }
}

/// Where a window is depends on the ids in the table only.
proof fn lemma_same_index(c: ContextView, d: ContextView, id: WindowId)
    requires
        c.tables().windows == d.tables().windows,
    ensures
        c.window_index(id) == d.window_index(id),
{
    let t = c.tables().windows;
    assert(t.len() == c.windows.len() && t.len() == d.windows.len());
    assert forall|i: int| 0 <= i < t.len() implies is_window(id)(#[trigger] c.windows[i])
        == is_window(id)(d.windows[i]) by {
        assert(t[i] == c.windows[i].id);
        assert(d.tables().windows[i] == d.windows[i].id);
    }
    lemma_first(c.windows, is_window(id));
    lemma_first(d.windows, is_window(id));
    if let Some(i) = c.window_index(id) {
        assert(is_window(id)(c.windows[i]) == is_window(id)(d.windows[i]));
    }
    if let Some(i) = d.window_index(id) {
        assert(is_window(id)(c.windows[i]) == is_window(id)(d.windows[i]));
    }
}

proof fn lemma_output_destroyed(c: ContextView, id: OutputId)
    ensures
        exists|outputs: Seq<OutputId>|
            {
                &&& #[trigger] thinned(c.tables().outputs, outputs)
                &&& c.output_destroyed(id).tables() == (Tables { outputs, ..c.tables() })
            },
        c.ids_given() ==> c.output_destroyed(id).ids_given(),
        all_in_order(c) ==> all_in_order(c.output_destroyed(id)),
{
    broadcast use {group_tables, lemma_steady_default_output_set};
    reveal(ContextView::output_destroyed);
    reveal(ContextView::output_removed);
    let other = c.other_output(id);
    let b = ContextView { current_output: other, ..c };
    let d = if c.current_output == Some(id) {
        match other {
            Some(other) => b.default_output_set(other),
            None => b,
        }
    } else {
        c
    };
    assert(d.tables() == c.tables() && (c.ids_given() ==> d.ids_given()));
    reveal(given_out);
    let outputs = c.output_destroyed(id).tables().outputs;
    match d.output_index(id) {
        Some(i) => {
            assert(outputs =~= d.tables().outputs.remove(i));
            assert(thinned(c.tables().outputs, outputs));
        },
        None => {
            assert(thinned(c.tables().outputs, outputs));
        },
    }
}

/// Whether a table is another one, or all but one of its ids.
spec fn thinned(before: Seq<usize>, after: Seq<usize>) -> bool {
    after == before || exists|i: int| 0 <= i < before.len() && after == #[trigger] before.remove(i)
}

proof fn lemma_seat_destroyed(c: ContextView, id: SeatId)
    ensures
        exists|seats: Seq<SeatId>|
            {
                &&& #[trigger] thinned(c.tables().seats, seats)
                &&& c.seat_destroyed(id).tables() == (Tables { seats, ..c.tables() })
            },
        c.ids_given() ==> c.seat_destroyed(id).ids_given(),
        all_in_order(c) ==> all_in_order(c.seat_destroyed(id)),
{
    broadcast use group_tables;
    reveal(ContextView::seat_destroyed);
    let seats = c.seat_destroyed(id).tables().seats;
    match c.seat_index(id) {
        Some(i) => {
            assert(seats =~= c.tables().seats.remove(i));
        },
        None => {},
    }
    assert(thinned(c.tables().seats, seats));
}

proof fn lemma_thinned_grows(before: Seq<usize>, after: Seq<usize>, next: usize)
    requires
        growing(before, next),
        thinned(before, after),
    ensures
        growing(after, next),
{
}

/// No event makes two windows, outputs or seats have the same id: what was
/// announced later has a larger id.
pub proof fn law_sound_tables_stay_sound(c: ContextView, event: Event)
    requires
        sound(c.tables()),
        c.has_id_for(event),
    ensures
        sound(c.after(event).tables()),
{
    if !announces(event) && !removes(event) {
        law_other_events_keep_the_tables(c, event);
    } else {
        match event {
            Event::WindowAnnounced { object, globals } => lemma_window_announced(
                c,
                object,
                globals,
            ),
            Event::OutputAnnounced { object } => lemma_output_announced(c, object),
            Event::SeatAnnounced { object } => lemma_seat_announced(c, object),
            Event::Window { object, .. } => {
                reveal(ContextView::window_reported);
                if let Some(id) = c.window_of(object) {
                    lemma_window_destroyed(c, id);
                    broadcast use group_tables;
                    lemma_thinned_grows(
                        c.tables().windows,
                        c.window_destroyed(id).tables().windows,
                        c.next_window_id,
                    );
                }
            },
            Event::Output { object, .. } => {
                reveal(ContextView::output_reported);
                if let Some(id) = c.output_of(object) {
                    lemma_output_destroyed(c, id);
                    lemma_thinned_grows(
                        c.tables().outputs,
                        c.output_destroyed(id).tables().outputs,
                        c.next_output_id,
                    );
                }
            },
            Event::Seat { seat, .. } => {
                reveal(ContextView::seat_reported);
                lemma_seat_destroyed(c, seat);
                lemma_thinned_grows(
                    c.tables().seats,
                    c.seat_destroyed(seat).tables().seats,
                    c.next_seat_id,
                );
            },
            _ => {},
        }
    }
}

/// Where ids suffice for all events, they suffice for all but the last.
proof fn lemma_ids_sufficed(c: ContextView, events: Seq<Event>)
    requires
        ids_suffice(c, events),
        events.len() > 0,
    ensures
        ids_suffice(c, events.drop_last()),
        c.after_all(events.drop_last()).has_id_for(events.last()),
{
    let n = events.len() - 1;
    let earlier = events.drop_last();
    assert(events.take(n) =~= earlier);
    assert(c.after_all(events.take(n)).has_id_for(events[n]));
    assert forall|k: int| 0 <= k < earlier.len() implies (#[trigger] c.after_all(
        earlier.take(k),
    )).has_id_for(earlier[k]) by {
        assert(earlier.take(k) =~= events.take(k));
        assert(c.after_all(events.take(k)).has_id_for(events[k]));
    }
}

/// Whatever happens after the start, no two windows, outputs or seats have the
/// same id.
pub proof fn law_tables_are_always_sound(skip_config: bool, config: Config, events: Seq<Event>)
    requires
        ids_suffice(fresh_context(skip_config, config), events),
    ensures
        sound(fresh_context(skip_config, config).after_all(events).tables()),
    decreases events.len(),
{
    let c = fresh_context(skip_config, config);
    if events.len() > 0 {
        let earlier = events.drop_last();
        lemma_ids_sufficed(c, events);
        law_tables_are_always_sound(skip_config, config, earlier);
        law_sound_tables_stay_sound(c.after_all(earlier), events.last());
    }
}

/// Whatever happens after the start, each window is in the focus order exactly
/// once, and the windows that are in it or that have an icon are ones that were
/// announced.
pub proof fn law_each_window_is_in_the_focus_order_once(
    skip_config: bool,
    config: Config,
    events: Seq<Event>,
)
    requires
        ids_suffice(fresh_context(skip_config, config), events),
    ensures
        fresh_context(skip_config, config).after_all(events).focus_stack.no_duplicates(),
        all_in_order(fresh_context(skip_config, config).after_all(events)),
        ids_wf(fresh_context(skip_config, config).after_all(events)),
        fresh_context(skip_config, config).after_all(events).ids_given(),
    decreases events.len(),
{
    let c = fresh_context(skip_config, config);
    reveal(given_out);
    if events.len() > 0 {
        let earlier = events.drop_last();
        lemma_ids_sufficed(c, events);
        law_tables_are_always_sound(skip_config, config, earlier);
        law_each_window_is_in_the_focus_order_once(skip_config, config, earlier);
        lemma_event_keeps_order(c.after_all(earlier), events.last());
    }
    law_tables_are_always_sound(skip_config, config, events);
    lemma_ids_wf(c.after_all(events));
}

proof fn lemma_ids_wf(c: ContextView)
    requires
        sound(c.tables()),
        c.ids_given(),
    ensures
        ids_wf(c),
{
    reveal(given_out);
    assert forall|i: int| 0 <= i < c.windows.len() implies (#[trigger] c.windows[i]).id
        == c.tables().windows[i] by {}
    assert forall|k: int| 0 <= k < c.outputs.len() implies (#[trigger] c.outputs[k]).id
        == c.tables().outputs[k] by {}
}

proof fn lemma_event_keeps_order(c: ContextView, event: Event)
    requires
        sound(c.tables()),
        all_in_order(c),
        c.ids_given(),
        c.has_id_for(event),
    ensures
        all_in_order(c.after(event)),
        c.after(event).ids_given(),
{
    if !announces(event) && !removes(event) {
        lemma_steady_event(c, event);
    } else {
        match event {
            Event::WindowAnnounced { object, globals } => lemma_window_announced(
                c,
                object,
                globals,
            ),
            Event::OutputAnnounced { object } => lemma_output_announced(c, object),
            Event::SeatAnnounced { object } => lemma_seat_announced(c, object),
            Event::Window { object, .. } => {
                reveal(ContextView::window_reported);
                if let Some(id) = c.window_of(object) {
                    lemma_window_destroyed(c, id);
                }
            },
            Event::Output { object, .. } => {
                reveal(ContextView::output_reported);
                if let Some(id) = c.output_of(object) {
                    lemma_output_destroyed(c, id);
                }
            },
            Event::Seat { seat, .. } => {
                reveal(ContextView::seat_reported);
                lemma_seat_destroyed(c, seat);
            },
            _ => {},
        }
    }
}

} // verus!
