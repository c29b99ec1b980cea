//! Events of the window manager object: sequences, new objects, locking.

use vstd::prelude::*;
use crate::binding::{PointerBindingView, XkbBindingView};
use crate::canoe::context::objects::xkb_rebuilt;
use crate::canoe::context::{Context, ContextView};
use crate::canoe::output::OutputView;
use crate::canoe::scale::{is_scaling, scaling};
use crate::canoe::seat::{pointer_views, xkb_views, SeatView};
use crate::canoe::titlebar::{fresh_titlebar, Titlebar};
use crate::canoe::window::{WindowEvent, WindowView};
use crate::canoe::{OutputId, SeatId, WindowId};
use crate::config::Mode;
use crate::dispatch::globals::{Globals, GlobalsView};
use crate::protocol::{ObjectId, Request, RequestView};

verus! {

/// The requests followed by those that give up the first `n` bindings.
pub open spec fn xkb_given_up(
    requests: Seq<RequestView>,
    bindings: Seq<(XkbBindingView, Option<ObjectId>)>,
    n: int,
) -> Seq<RequestView>
    decreases n,
{
    if n <= 0 {
        requests
    } else {
        let earlier = xkb_given_up(requests, bindings, n - 1);
        match bindings[n - 1].1 {
            Some(binding) => earlier.push((Request::DestroyXkbBinding { binding })@),
            None => earlier,
        }
    }
}

/// The requests with one behind them for each of the first `n` key bindings of
/// a seat, to be registered with the compositor.
pub open spec fn xkb_registered(
    requests: Seq<RequestView>,
    bindings: Seq<(XkbBindingView, Option<ObjectId>)>,
    seat: ObjectId,
    id: SeatId,
    n: int,
) -> Seq<RequestView>
    decreases n,
{
    if n <= 0 {
        requests
    } else {
        let binding = bindings[n - 1].0;
        xkb_registered(requests, bindings, seat, id, n - 1).push(
            (Request::GetXkbBinding {
                seat,
                keysym: binding.keysym,
                modifiers: binding.modifiers,
                id,
                index: (n - 1) as usize,
                enable: binding.enabled,
            })@,
        )
    }
}

/// The requests with one behind them for each of the first `n` pointer bindings
/// of a seat, to be registered with the compositor.
pub open spec fn pointer_registered(
    requests: Seq<RequestView>,
    bindings: Seq<(PointerBindingView, Option<ObjectId>)>,
    seat: ObjectId,
    id: SeatId,
    n: int,
) -> Seq<RequestView>
    decreases n,
{
    if n <= 0 {
        requests
    } else {
        let binding = bindings[n - 1].0;
        pointer_registered(requests, bindings, seat, id, n - 1).push(
            (Request::GetPointerBinding {
                seat,
                button: binding.button,
                modifiers: binding.modifiers,
                id,
                index: (n - 1) as usize,
                enable: binding.enabled,
            })@,
        )
    }
}

impl ContextView {
    /// With a window changed.
    pub open spec fn with_window(self, i: int, w: WindowView) -> ContextView {
        ContextView { windows: self.windows.update(i, w), ..self }
    }

    /// Whether the selected icon of the desktop that has the keyboard is still
    /// that of a hidden window.
    pub open spec fn icon_focus_valid(self) -> bool {
        match self.icon_focus_output {
            Some(output) => match self.selected_icon(output) {
                Some(id) => self.window(id) matches Some(w) && w.hidden,
                None => false,
            },
            None => true,
        }
    }

    /// Takes the keyboard from the icons of a desktop if the selected one is
    /// gone.
    #[verifier::opaque]
    pub open spec fn icon_focus_checked(self) -> ContextView {
        match self.current_seat {
            Some(seat) => if self.icon_focus_valid() {
                self
            } else {
                self.icon_focus_left(seat)
            },
            None => self,
        }
    }

    /// Asks for the desktop of an output to be drawn, if it changed and can be.
    #[verifier::opaque]
    pub open spec fn desktop_shown(self, output: OutputId, g: GlobalsView) -> ContextView {
        match self.output(output) {
            Some(o) => match o.desktop_surface {
                Some(desktop) => if desktop.dirty && desktop.configured && g.drawing() {
                    self.ask(Request::RenderDesktop { output_id: output })
                } else {
                    self
                },
                None => self,
            },
            None => self,
        }
    }

    /// Asks for the desktops of the first `n` outputs to be drawn.
    pub open spec fn desktops_shown(self, n: int, g: GlobalsView) -> ContextView
        decreases n,
    {
        if n <= 0 {
            self
        } else {
            let c = self.desktops_shown(n - 1, g);
            c.desktop_shown(c.outputs[n - 1].id, g)
        }
    }

    /// Asks for all desktops to be drawn.
    #[verifier::opaque]
    pub open spec fn all_desktops_shown(self, g: GlobalsView) -> ContextView {
        self.desktops_shown(self.outputs.len() as int, g)
    }

    /// Builds the key bindings of the first `n` seats anew and registers them.
    pub open spec fn seats_rebound(self, n: int) -> ContextView
        decreases n,
    {
        if n <= 0 {
            self
        } else {
            self.seats_rebound(n - 1).seat_rebound(n - 1)
        }
    }

    /// Gives up the key bindings of a seat, builds them anew and registers
    /// them.
    #[verifier::opaque]
    pub open spec fn seat_rebound(self, j: int) -> ContextView {
        let bindings = self.seats[j].xkb_bindings;
        let given_up = ContextView {
            requests: xkb_given_up(self.requests, bindings, bindings.len() as int),
            ..self
        };
        given_up.with_seat(j, xkb_rebuilt(self.seats[j], self.config)).seat_registered(j)
    }

    /// Registers the key bindings of a seat, if there is something to register
    /// them with.
    #[verifier::opaque]
    pub open spec fn seat_registered(self, j: int) -> ContextView {
        let s = self.seats[j];
        match (self.rwm_xkb_bindings, s.rwm_seat) {
            (Some(_), Some(seat)) => ContextView {
                requests: xkb_registered(
                    self.requests,
                    s.xkb_bindings,
                    seat,
                    s.id,
                    s.xkb_bindings.len() as int,
                ),
                ..self
            },
            _ => self,
        }
    }

    /// Registers the pointer bindings of a seat.
    #[verifier::opaque]
    pub open spec fn seat_buttons_registered(self, j: int) -> ContextView {
        let s = self.seats[j];
        match s.rwm_seat {
            Some(seat) => ContextView {
                requests: pointer_registered(
                    self.requests,
                    s.pointer_bindings,
                    seat,
                    s.id,
                    s.pointer_bindings.len() as int,
                ),
                ..self
            },
            None => self,
        }
    }

    /// Builds all key bindings anew after the configuration was reloaded.
    #[verifier::opaque]
    pub open spec fn xkb_rebound(self) -> ContextView {
        if self.pending_rebind_xkb {
            (ContextView { pending_rebind_xkb: false, ..self }).seats_rebound(
                self.seats.len() as int,
            )
        } else {
            self
        }
    }

    /// Everything that happens between the start and the end of a manage
    /// sequence.
    #[verifier::opaque]
    pub open spec fn manage_sequence(
        self,
        scale: spec_fn(i64, i32, i32) -> i32,
        g: GlobalsView,
    ) -> ContextView {
        self.managed(scale).xkb_rebound().icon_focus_checked().manage_finished().all_desktops_shown(
            g,
        )
    }

    /// A new window of the compositor, with what has to be created for it.
    #[verifier::opaque]
    pub open spec fn window_announced(self, rwm_window: ObjectId, g: GlobalsView) -> ContextView {
        let id = self.next_window_id;
        let c = self.window_created(rwm_window).event_queued(id, WindowEvent::Init).ask(
            Request::GetNode { window: rwm_window, id },
        );
        if g.compositor {
            c.ask(Request::CreateTitlebar { window: rwm_window, id })
        } else {
            c
        }
    }

    /// Queues an event for a window.
    #[verifier::opaque]
    pub open spec fn event_queued(self, id: WindowId, event: WindowEvent) -> ContextView {
        match self.window_index(id) {
            Some(i) => self.with_window(
                i,
                WindowView {
                    unhandled_events: self.windows[i].unhandled_events.push(event),
                    ..self.windows[i]
                },
            ),
            None => self,
        }
    }

    /// With the node of a window.
    #[verifier::opaque]
    pub open spec fn node_got(self, id: WindowId, node: ObjectId) -> ContextView {
        match self.window_index(id) {
            Some(i) => self.with_window(
                i,
                WindowView { rwm_node: Some(node), ..self.windows[i] },
            ),
            None => self,
        }
    }

    /// With the titlebar of a window.
    #[verifier::opaque]
    pub open spec fn titlebar_got(
        self,
        id: WindowId,
        surface: ObjectId,
        decoration: ObjectId,
    ) -> ContextView {
        match self.window_index(id) {
            Some(i) => self.with_window(
                i,
                WindowView {
                    titlebar: Some(fresh_titlebar(surface, decoration)),
                    ..self.windows[i]
                },
            ),
            None => self,
        }
    }

    /// A new output of the compositor.
    #[verifier::opaque]
    pub open spec fn output_announced(self, rwm_output: ObjectId) -> ContextView {
        let c = self.output_created(rwm_output);
        if self.rwm_layer_shell is Some {
            c.ask(Request::GetLayerShellOutput { output: rwm_output, id: self.next_output_id })
        } else {
            c
        }
    }

    /// With the layer shell object of an output.
    #[verifier::opaque]
    pub open spec fn layer_output_got(self, id: OutputId, object: ObjectId) -> ContextView {
        match self.output_index(id) {
            Some(k) => self.with_output(
                k,
                OutputView { layer_shell_output: Some(object), ..self.outputs[k] },
            ),
            None => self,
        }
    }

    /// A new seat of the compositor, its bindings to be registered.
    #[verifier::opaque]
    pub open spec fn seat_announced(self, rwm_seat: ObjectId) -> ContextView {
        let j = self.seats.len() as int;
        let c = self.seat_created(rwm_seat);
        let c = if self.rwm_layer_shell is Some {
            c.ask(Request::GetLayerShellSeat { seat: rwm_seat, id: self.next_seat_id })
        } else {
            c
        };
        c.seat_registered(j).seat_buttons_registered(j)
    }

    /// With the layer shell object of a seat.
    #[verifier::opaque]
    pub open spec fn layer_seat_got(self, id: SeatId, object: ObjectId) -> ContextView {
        match self.seat_index(id) {
            Some(j) => self.with_seat(
                j,
                SeatView { layer_shell_seat: Some(object), ..self.seats[j] },
            ),
            None => self,
        }
    }

    /// With the protocol object of a key binding.
    #[verifier::opaque]
    pub open spec fn xkb_binding_got(self, id: SeatId, index: int, object: ObjectId) -> ContextView {
        match self.seat_index(id) {
            Some(j) => {
                let s = self.seats[j];
                if 0 <= index < s.xkb_bindings.len() {
                    self.with_seat(
                        j,
                        SeatView {
                            xkb_bindings: s.xkb_bindings.update(
                                index,
                                (s.xkb_bindings[index].0, Some(object)),
                            ),
                            ..s
                        },
                    )
                } else {
                    self
                }
            },
            None => self,
        }
    }

    /// With the protocol object of a pointer binding.
    #[verifier::opaque]
    pub open spec fn pointer_binding_got(self, id: SeatId, index: int, object: ObjectId) -> ContextView {
        match self.seat_index(id) {
            Some(j) => {
                let s = self.seats[j];
                if 0 <= index < s.pointer_bindings.len() {
                    self.with_seat(
                        j,
                        SeatView {
                            pointer_bindings: s.pointer_bindings.update(
                                index,
                                (s.pointer_bindings[index].0, Some(object)),
                            ),
                            ..s
                        },
                    )
                } else {
                    self
                }
            },
            None => self,
        }
    }

    /// The session was locked or unlocked; the current seat changes its mode
    /// with it.
    #[verifier::opaque]
    pub open spec fn lock_changed(self, locked: bool) -> ContextView {
        let c = ContextView { session_locked: locked, ..self };
        match c.current_seat {
            Some(seat) => c.mode_switched(
                seat,
                if locked {
                    Mode::Lock
                } else {
                    Mode::Default
                },
            ),
            None => c,
        }
    }
}

impl Context {
    /// The compositor has no use for the window manager any more
    pub fn stop(&mut self)
        ensures
            final(self)@ == (ContextView { running: false, ..old(self)@ }),
    {
        self.running = false;
    }

    fn icon_focus_valid(&self) -> (r: bool)
        ensures
            r == self@.icon_focus_valid(),
    {
        let output_id: OutputId = match self.icon_focus_output {
            Some(id) => id,
            None => return true,
        };
        let mut selected: Option<WindowId> = None;
        if let Some(k) = self.find_output(output_id) {
            if let Some(desktop) = &self.outputs[k].desktop_surface {
                selected = desktop.selected_icon;
            }
        }
        match selected {
            Some(id) => match self.find_window(id) {
                Some(i) => self.windows[i].hidden,
                None => false,
            },
            None => false,
        }
    }

    fn check_icon_focus(&mut self)
        ensures
            final(self)@ == old(self)@.icon_focus_checked(),
    {
        proof {
            reveal(ContextView::icon_focus_checked);
        }
        if let Some(seat_id) = self.current_seat {
            if !self.icon_focus_valid() {
                self.exit_icon_focus(seat_id);
            }
        }
    }

    /// Ask for the desktop of an output to be drawn, if it changed and can be
    pub fn render_desktop_surface(&mut self, output_id: OutputId, globals: &Globals)
        ensures
            final(self)@ == old(self)@.desktop_shown(output_id, globals@),
            final(self)@.outputs == old(self)@.outputs,
    {
        proof {
            reveal(ContextView::desktop_shown);
        }
        if let Some(k) = self.find_output(output_id) {
            if let Some(desktop) = &self.outputs[k].desktop_surface {
                if desktop.dirty && desktop.configured && globals.shm && globals.compositor {
                    self.requests.push(Request::RenderDesktop { output_id });
                }
            }
        }
    }

    /// Ask for all desktops to be drawn
    pub fn render_all_desktop_surfaces(&mut self, globals: &Globals)
        ensures
            final(self)@ == old(self)@.all_desktops_shown(globals@),
    {
        proof {
            reveal(ContextView::all_desktops_shown);
        }
        let ghost start = self@;
        let count: usize = self.outputs.len();
        let mut k: usize = 0;
        while k < count
            invariant
                k <= count,
                count == self.outputs@.len(),
                count == start.outputs.len(),
                self@ == start.desktops_shown(k as int, globals@),
            decreases count - k,
        {
            assert(self@.outputs[k as int] == self.outputs@[k as int]@);
            let id: OutputId = self.outputs[k].id;
            self.render_desktop_surface(id, globals);
            assert(self.outputs@.len() == self@.outputs.len());
            k = k + 1;
        }
    }

    fn register_xkb(&mut self, j: usize)
        requires
            j < old(self).seats@.len(),
        ensures
            final(self)@ == old(self)@.seat_registered(j as int),
    {
        proof {
            reveal(ContextView::seat_registered);
        }
        let ghost start = self@;
        assert(start.seats[j as int] == self.seats@[j as int]@);
        if self.rwm_xkb_bindings.is_none() {
            return;
        }
        let seat: ObjectId = match self.seats[j].rwm_seat {
            Some(seat) => seat,
            None => return,
        };
        let id: SeatId = self.seats[j].id;
        let ghost bindings = start.seats[j as int].xkb_bindings;
        let mut n: usize = 0;
        assert(bindings.len() == self.seats@[j as int].xkb_bindings@.len());
        while n < self.seats[j].xkb_bindings.len()
            invariant
                j < self.seats@.len(),
                n <= bindings.len(),
                bindings == xkb_views(self.seats@[j as int].xkb_bindings@),
                self@ == (ContextView {
                    requests: xkb_registered(start.requests, bindings, seat, id, n as int),
                    ..start
                }),
            decreases bindings.len() - n,
        {
            let ghost before = self@;
            let binding = &self.seats[j].xkb_bindings[n].0;
            assert(bindings[n as int].0 == binding@);
            let request = Request::GetXkbBinding {
                seat,
                keysym: binding.keysym,
                modifiers: binding.modifiers,
                id,
                index: n,
                enable: binding.enabled,
            };
            self.requests.push(request);
            n = n + 1;
        }
    }

    fn register_buttons(&mut self, j: usize)
        requires
            j < old(self).seats@.len(),
        ensures
            final(self)@ == old(self)@.seat_buttons_registered(j as int),
    {
        proof {
            reveal(ContextView::seat_buttons_registered);
        }
        let ghost start = self@;
        assert(start.seats[j as int] == self.seats@[j as int]@);
        let seat: ObjectId = match self.seats[j].rwm_seat {
            Some(seat) => seat,
            None => return,
        };
        let id: SeatId = self.seats[j].id;
        let ghost bindings = start.seats[j as int].pointer_bindings;
        let mut n: usize = 0;
        assert(bindings.len() == self.seats@[j as int].pointer_bindings@.len());
        while n < self.seats[j].pointer_bindings.len()
            invariant
                j < self.seats@.len(),
                n <= bindings.len(),
                bindings == pointer_views(self.seats@[j as int].pointer_bindings@),
                self@ == (ContextView {
                    requests: pointer_registered(start.requests, bindings, seat, id, n as int),
                    ..start
                }),
            decreases bindings.len() - n,
        {
            let binding = &self.seats[j].pointer_bindings[n].0;
            assert(bindings[n as int].0 == binding@);
            let request = Request::GetPointerBinding {
                seat,
                button: binding.button,
                modifiers: binding.modifiers,
                id,
                index: n,
                enable: binding.enabled,
            };
            self.requests.push(request);
            n = n + 1;
        }
    }

    fn give_up_xkb(&mut self, j: usize)
        requires
            j < old(self).seats@.len(),
        ensures
            final(self)@ == (ContextView {
                requests: xkb_given_up(
                    old(self)@.requests,
                    old(self)@.seats[j as int].xkb_bindings,
                    old(self)@.seats[j as int].xkb_bindings.len() as int,
                ),
                ..old(self)@
            }),
            final(self).seats == old(self).seats,
    {
        let ghost start = self@;
        let ghost bindings = start.seats[j as int].xkb_bindings;
        assert(start.seats[j as int] == self.seats@[j as int]@);
        let mut n: usize = 0;
        while n < self.seats[j].xkb_bindings.len()
            invariant
                j < self.seats@.len(),
                n <= bindings.len(),
                self.seats == old(self).seats,
                bindings == xkb_views(self.seats@[j as int].xkb_bindings@),
                self@ == (ContextView {
                    requests: xkb_given_up(start.requests, bindings, n as int),
                    ..start
                }),
            decreases bindings.len() - n,
        {
            assert(bindings[n as int].1 == self.seats@[j as int].xkb_bindings@[n as int].1);
            if let Some(binding) = self.seats[j].xkb_bindings[n].1 {
                self.requests.push(Request::DestroyXkbBinding { binding });
            }
            n = n + 1;
        }
    }

    fn rebind_seat(&mut self, j: usize)
        requires
            j < old(self).seats@.len(),
        ensures
            final(self)@ == old(self)@.seat_rebound(j as int),
            final(self).seats@.len() == old(self).seats@.len(),
    {
        proof {
            reveal(ContextView::seat_rebound);
        }
        self.give_up_xkb(j);
        let ghost before = self@;
        let mut seat = self.seats.remove(j);
        assert(before.seats[j as int] == seat@);
        let ghost was = seat@;
        self.rebuild_xkb_bindings(&mut seat);
        self.seats.insert(j, seat);
        assert(self@ =~= before.with_seat(j as int, xkb_rebuilt(was, before.config)));
        self.register_xkb(j);
        assert(self@.seats.len() == before.seats.len()) by {
            reveal(ContextView::seat_registered);
        }
        assert(self.seats@.len() == self@.seats.len());
    }

    fn rebind_xkb(&mut self)
        ensures
            final(self)@ == old(self)@.xkb_rebound(),
    {
        proof {
            reveal(ContextView::xkb_rebound);
        }
        if !self.take_pending_rebind_xkb() {
            return;
        }
        let ghost start = self@;
        let count: usize = self.seats.len();
        let mut j: usize = 0;
        while j < count
            invariant
                j <= count,
                count == self.seats@.len(),
                count == start.seats.len(),
                self@ == start.seats_rebound(j as int),
            decreases count - j,
        {
            self.rebind_seat(j);
            j = j + 1;
        }
    }

    /// A manage sequence starts
    pub fn manage_start<F: Fn(i64, i32, i32) -> i32>(&mut self, scale: &F, globals: &Globals)
        requires
            is_scaling(*scale),
        ensures
            final(self)@ == old(self)@.manage_sequence(scaling(*scale), globals@),
    {
        proof {
            reveal(ContextView::manage_sequence);
        }
        self.handle_manage_start(scale);
        self.rebind_xkb();
        self.check_icon_focus();
        self.finish_manage();
        self.render_all_desktop_surfaces(globals);
    }

    /// Queue an event for a window
    pub fn queue_window_event(&mut self, window_id: WindowId, event: WindowEvent)
        ensures
            final(self)@ == old(self)@.event_queued(window_id, event),
    {
        proof {
            reveal(ContextView::event_queued);
        }
        if let Some(i) = self.find_window(window_id) {
            let ghost before = self@;
            self.windows[i].queue_event(event);
            assert(self@ =~= before.with_window(
                i as int,
                WindowView {
                    unhandled_events: before.windows[i as int].unhandled_events.push(event),
                    ..before.windows[i as int]
                },
            ));
        }
    }

    /// The compositor announced a window
    #[verifier::spinoff_prover]
    #[verifier::rlimit(30)]
    pub fn announce_window(&mut self, rwm_window: ObjectId, globals: &Globals) -> (id: WindowId)
        requires
            old(self)@.next_window_id < usize::MAX,
        ensures
            id == old(self)@.next_window_id,
            final(self)@ == old(self)@.window_announced(rwm_window, globals@),
    {
        proof {
            reveal(ContextView::window_announced);
        }
        let id: WindowId = self.create_window(rwm_window);
        self.queue_window_event(id, WindowEvent::Init);
        self.requests.push(Request::GetNode { window: rwm_window, id });
        if globals.compositor {
            self.requests.push(Request::CreateTitlebar { window: rwm_window, id });
        }
        id
    }

    /// The node of a window was created
    pub fn node_created(&mut self, window_id: WindowId, node: ObjectId)
        ensures
            final(self)@ == old(self)@.node_got(window_id, node),
    {
        proof {
            reveal(ContextView::node_got);
        }
        if let Some(i) = self.find_window(window_id) {
            let ghost before = self@;
            self.windows[i].rwm_node = Some(node);
            assert(self@ =~= before.with_window(
                i as int,
                WindowView { rwm_node: Some(node), ..before.windows[i as int] },
            ));
        }
    }

    /// The titlebar of a window was created
    pub fn titlebar_created(&mut self, window_id: WindowId, surface: ObjectId, decoration: ObjectId)
        ensures
            final(self)@ == old(self)@.titlebar_got(window_id, surface, decoration),
    {
        proof {
            reveal(ContextView::titlebar_got);
        }
        if let Some(i) = self.find_window(window_id) {
            let ghost before = self@;
            self.windows[i].titlebar = Some(Titlebar::new(surface, decoration));
            assert(self@ =~= before.with_window(
                i as int,
                WindowView {
                    titlebar: Some(fresh_titlebar(surface, decoration)),
                    ..before.windows[i as int]
                },
            ));
        }
    }

    /// The compositor announced an output
    pub fn announce_output(&mut self, rwm_output: ObjectId) -> (id: OutputId)
        requires
            old(self)@.next_output_id < usize::MAX,
        ensures
            id == old(self)@.next_output_id,
            final(self)@ == old(self)@.output_announced(rwm_output),
    {
        proof {
            reveal(ContextView::output_announced);
        }
        let layer_shell: bool = self.rwm_layer_shell.is_some();
        let id: OutputId = self.create_output(rwm_output);
        if layer_shell {
            self.requests.push(Request::GetLayerShellOutput { output: rwm_output, id });
        }
        id
    }

    /// The layer shell object of an output was created
    pub fn layer_output_created(&mut self, output_id: OutputId, object: ObjectId)
        ensures
            final(self)@ == old(self)@.layer_output_got(output_id, object),
    {
        proof {
            reveal(ContextView::layer_output_got);
        }
        if let Some(k) = self.find_output(output_id) {
            let ghost before = self@;
            self.outputs[k].layer_shell_output = Some(object);
            assert(self@ =~= before.with_output(
                k as int,
                OutputView { layer_shell_output: Some(object), ..before.outputs[k as int] },
            ));
        }
    }

    /// The compositor announced a seat
    #[verifier::spinoff_prover]
    #[verifier::rlimit(30)]
    pub fn announce_seat(&mut self, rwm_seat: ObjectId) -> (id: SeatId)
        requires
            old(self)@.next_seat_id < usize::MAX,
        ensures
            id == old(self)@.next_seat_id,
            final(self)@ == old(self)@.seat_announced(rwm_seat),
    {
        proof {
            reveal(ContextView::seat_announced);
        }
        let layer_shell: bool = self.rwm_layer_shell.is_some();
        let j: usize = self.seats.len();
        assert(j == self@.seats.len());
        let id: SeatId = self.create_seat(rwm_seat);
        assert(self@.seats.len() == j + 1) by {
            reveal(ContextView::seat_created);
        }
        if layer_shell {
            self.requests.push(Request::GetLayerShellSeat { seat: rwm_seat, id });
        }
        assert(self.seats@.len() == self@.seats.len());
        self.register_xkb(j);
        assert(self@.seats.len() == j + 1) by {
            reveal(ContextView::seat_registered);
        }
        assert(self.seats@.len() == self@.seats.len());
        self.register_buttons(j);
        id
    }

    /// The layer shell object of a seat was created
    pub fn layer_seat_created(&mut self, seat_id: SeatId, object: ObjectId)
        ensures
            final(self)@ == old(self)@.layer_seat_got(seat_id, object),
    {
        proof {
            reveal(ContextView::layer_seat_got);
        }
        if let Some(j) = self.find_seat(seat_id) {
            let ghost before = self@;
            self.seats[j].layer_shell_seat = Some(object);
            assert(self@ =~= before.with_seat(
                j as int,
                SeatView { layer_shell_seat: Some(object), ..before.seats[j as int] },
            ));
        }
    }

    /// The protocol object of a key binding was created
    pub fn xkb_binding_created(&mut self, seat_id: SeatId, index: usize, object: ObjectId)
        ensures
            final(self)@ == old(self)@.xkb_binding_got(seat_id, index as int, object),
    {
        proof {
            reveal(ContextView::xkb_binding_got);
        }
        if let Some(j) = self.find_seat(seat_id) {
            let ghost before = self@;
            let ghost s = before.seats[j as int];
            assert(s.xkb_bindings.len() == self.seats@[j as int].xkb_bindings@.len());
            if index < self.seats[j].xkb_bindings.len() {
                self.seats[j].xkb_bindings[index].1 = Some(object);
                assert(self.seats@[j as int]@.xkb_bindings =~= s.xkb_bindings.update(
                    index as int,
                    (s.xkb_bindings[index as int].0, Some(object)),
                ));
                assert(self@ =~= before.with_seat(
                    j as int,
                    SeatView {
                        xkb_bindings: s.xkb_bindings.update(
                            index as int,
                            (s.xkb_bindings[index as int].0, Some(object)),
                        ),
                        ..s
                    },
                ));
            }
        }
    }

    /// The protocol object of a pointer binding was created
    pub fn pointer_binding_created(&mut self, seat_id: SeatId, index: usize, object: ObjectId)
        ensures
            final(self)@ == old(self)@.pointer_binding_got(seat_id, index as int, object),
    {
        proof {
            reveal(ContextView::pointer_binding_got);
        }
        if let Some(j) = self.find_seat(seat_id) {
            let ghost before = self@;
            let ghost s = before.seats[j as int];
            assert(s.pointer_bindings.len() == self.seats@[j as int].pointer_bindings@.len());
            if index < self.seats[j].pointer_bindings.len() {
                self.seats[j].pointer_bindings[index].1 = Some(object);
                assert(self.seats@[j as int]@.pointer_bindings =~= s.pointer_bindings.update(
                    index as int,
                    (s.pointer_bindings[index as int].0, Some(object)),
                ));
                assert(self@ =~= before.with_seat(
                    j as int,
                    SeatView {
                        pointer_bindings: s.pointer_bindings.update(
                            index as int,
                            (s.pointer_bindings[index as int].0, Some(object)),
                        ),
                        ..s
                    },
                ));
            }
        }
    }

    /// The session was locked or unlocked
    pub fn session_lock(&mut self, locked: bool)
        ensures
            final(self)@ == old(self)@.lock_changed(locked),
    {
        proof {
            reveal(ContextView::lock_changed);
        }
        self.session_locked = locked;
        if let Some(seat_id) = self.current_seat {
            let mode = if locked {
                Mode::Lock
            } else {
                Mode::Default
            };
            self.switch_seat_mode(seat_id, mode);
        }
    }
}

} // verus!
