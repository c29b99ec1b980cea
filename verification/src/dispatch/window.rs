//! Events of a window.

use vstd::prelude::*;
use crate::canoe::context::objects::ruled;
use crate::canoe::context::{Context, ContextView};
use crate::canoe::output::OutputView;
use crate::canoe::seat::SeatView;
use crate::canoe::window::{Window, WindowEvent, WindowView};
use crate::canoe::{OutputId, SeatId, WindowId};
use crate::protocol::ObjectId;
use crate::search::{first, lemma_first_is, lemma_first_none};
use crate::text::opt_text;

verus! {

/// What the compositor reports about a window.
#[derive(Debug)]
pub enum WindowReport {
    Closed,
    DimensionsHint { min_width: i32, min_height: i32, max_width: i32, max_height: i32 },
    Dimensions { width: i32, height: i32 },
    AppId { app_id: Option<String> },
    Title { title: Option<String> },
    Parent { parent: Option<ObjectId> },
    DecorationHint { hint: u32 },
    UnreliablePid { pid: i32 },
    PointerMoveRequested { seat: ObjectId },
    PointerResizeRequested { seat: ObjectId, edges: u32 },
    FullscreenRequested { output: Option<ObjectId> },
    ExitFullscreenRequested,
    MaximizeRequested,
    UnmaximizeRequested,
    MinimizeRequested,
}

/// Holds of the windows behind a protocol object.
pub open spec fn is_rwm_window(object: ObjectId) -> spec_fn(WindowView) -> bool {
    |w: WindowView| w.rwm_window == Some(object)
}

/// Holds of the outputs behind a protocol object.
pub open spec fn is_rwm_output(object: ObjectId) -> spec_fn(OutputView) -> bool {
    |o: OutputView| o.rwm_output == Some(object)
}

/// Holds of the seats behind a protocol object.
pub open spec fn is_rwm_seat(object: ObjectId) -> spec_fn(SeatView) -> bool {
    |s: SeatView| s.rwm_seat == Some(object)
}

impl WindowReport {
    /// The protocol object of the parent, where the report gives one.
    pub open spec fn parent_object(self) -> Option<ObjectId> {
        match self {
            WindowReport::Parent { parent } => parent,
            _ => None,
        }
    }
}

impl WindowView {
    /// The window with a fact about it noted; `parent` is the window that the
    /// fact names as its parent.
    #[verifier::opaque]
    pub open spec fn noted(self, report: WindowReport, parent: Option<WindowId>) -> WindowView {
        match report {
            WindowReport::DimensionsHint { min_width, min_height, max_width, max_height } => WindowView {
                min_width,
                min_height,
                max_width,
                max_height,
                ..self
            },
            WindowReport::Dimensions { width, height } => self.sized(width, height),
            WindowReport::AppId { app_id } => WindowView { app_id: opt_text(app_id), ..self },
            WindowReport::Title { title } => WindowView { title: opt_text(title), ..self },
            WindowReport::Parent { .. } => WindowView { parent, ..self },
            WindowReport::DecorationHint { hint } => WindowView {
                decoration_hint: Some(hint),
                ..self
            },
            WindowReport::UnreliablePid { pid } => WindowView { pid, ..self },
            _ => self,
        }
    }
}

impl Window {
    /// Note a fact about the window
    pub fn note(&mut self, report: WindowReport, parent_id: Option<WindowId>)
        ensures
            final(self)@ == old(self)@.noted(report, parent_id),
    {
        proof {
            reveal(WindowView::noted);
        }
        match report {
            WindowReport::DimensionsHint { min_width, min_height, max_width, max_height } => {
                self.min_width = min_width;
                self.min_height = min_height;
                self.max_width = max_width;
                self.max_height = max_height;
            },
            WindowReport::Dimensions { width, height } => self.update_dimensions(width, height),
            WindowReport::AppId { app_id } => {
                self.app_id = app_id;
            },
            WindowReport::Title { title } => {
                self.title = title;
            },
            WindowReport::Parent { .. } => {
                self.parent = parent_id;
            },
            WindowReport::DecorationHint { hint } => {
                self.decoration_hint = Some(hint);
            },
            WindowReport::UnreliablePid { pid } => {
                self.pid = pid;
            },
            _ => {},
        }
    }
}

impl ContextView {
    /// The window behind a protocol object.
    pub open spec fn window_of(self, object: ObjectId) -> Option<WindowId> {
        match first(self.windows, is_rwm_window(object)) {
            Some(i) => Some(self.windows[i].id),
            None => None,
        }
    }

    /// The output behind a protocol object.
    pub open spec fn output_of(self, object: ObjectId) -> Option<OutputId> {
        match first(self.outputs, is_rwm_output(object)) {
            Some(k) => Some(self.outputs[k].id),
            None => None,
        }
    }

    /// The seat behind a protocol object.
    pub open spec fn seat_of(self, object: ObjectId) -> Option<SeatId> {
        match first(self.seats, is_rwm_seat(object)) {
            Some(j) => Some(self.seats[j].id),
            None => None,
        }
    }

    /// The window behind a protocol object, where there is an object.
    pub open spec fn parent_of(self, object: Option<ObjectId>) -> Option<WindowId> {
        match object {
            Some(object) => self.window_of(object),
            None => None,
        }
    }

    /// Applies the rules to a window.
    #[verifier::opaque]
    pub open spec fn rules_applied_to(self, id: WindowId) -> ContextView {
        self.on_window(id, ruled(self.config.rules@))
    }

    /// Assigns a window to the output preferred for it.
    #[verifier::opaque]
    pub open spec fn output_assigned(self, id: WindowId) -> ContextView {
        match self.preferred_output(id) {
            Some(output) => self.window_output_set(id, output),
            None => self,
        }
    }

    /// What a plain fact about a window changes.
    #[verifier::opaque]
    pub open spec fn fact_reported(self, id: WindowId, report: WindowReport) -> ContextView {
        match self.window_index(id) {
            Some(i) => self.with_window(
                i,
                self.windows[i].noted(report, self.parent_of(report.parent_object())),
            ),
            None => self,
        }
    }

    /// The event that a wish of a window's client becomes.
    pub open spec fn wished(self, report: WindowReport) -> Option<WindowEvent> {
        match report {
            WindowReport::PointerMoveRequested { seat } => match self.seat_of(seat) {
                Some(seat) => Some(WindowEvent::Move(seat)),
                None => None,
            },
            WindowReport::PointerResizeRequested { seat, edges } => match self.seat_of(seat) {
                Some(seat) => Some(WindowEvent::Resize(seat, edges)),
                None => None,
            },
            WindowReport::FullscreenRequested { output } => Some(
                WindowEvent::Fullscreen(
                    match output {
                        Some(output) => self.output_of(output),
                        None => None,
                    },
                ),
            ),
            WindowReport::ExitFullscreenRequested => Some(WindowEvent::Unfullscreen),
            WindowReport::MaximizeRequested => Some(WindowEvent::Maximize),
            WindowReport::UnmaximizeRequested => Some(WindowEvent::Unmaximize),
            WindowReport::MinimizeRequested => Some(WindowEvent::Minimize),
            _ => None,
        }
    }

    /// What a report about a window does: facts are noted and the rules applied
    /// to them, wishes are queued.
    #[verifier::opaque]
    pub open spec fn window_reported(self, object: ObjectId, report: WindowReport) -> ContextView {
        match self.window_of(object) {
            Some(id) => match report {
                WindowReport::Closed => self.window_destroyed(id),
                WindowReport::DimensionsHint { .. } => self.fact_reported(id, report),
                WindowReport::Dimensions { .. } => self.fact_reported(id, report),
                WindowReport::UnreliablePid { .. } => self.fact_reported(id, report),
                WindowReport::AppId { .. } => self.fact_reported(id, report).rules_applied_to(id),
                WindowReport::Title { .. } => self.fact_reported(id, report).rules_applied_to(id),
                WindowReport::DecorationHint { .. } => self.fact_reported(
                    id,
                    report,
                ).rules_applied_to(id),
                WindowReport::Parent { .. } => self.fact_reported(id, report).rules_applied_to(
                    id,
                ).output_assigned(id),
                _ => match self.wished(report) {
                    Some(event) => self.event_queued(id, event),
                    None => self,
                },
            },
            None => self,
        }
    }
}

impl Context {
    /// The window behind a protocol object
    pub fn window_of(&self, object: ObjectId) -> (r: Option<WindowId>)
        ensures
            r == self@.window_of(object),
    {
        let mut i: usize = 0;
        while i < self.windows.len()
            invariant
                i <= self.windows@.len(),
                forall|j: int| 0 <= j < i ==> !is_rwm_window(object)(#[trigger] self@.windows[j]),
            decreases self.windows@.len() - i,
        {
            assert(self@.windows[i as int] == self.windows@[i as int]@);
            if self.windows[i].rwm_window == Some(object) {
                proof {
                    lemma_first_is(self@.windows, is_rwm_window(object), i as int);
                }
                return Some(self.windows[i].id);
            }
            i = i + 1;
        }
        proof {
            lemma_first_none(self@.windows, is_rwm_window(object));
        }
        None
    }

    /// The output behind a protocol object
    pub fn output_of(&self, object: ObjectId) -> (r: Option<OutputId>)
        ensures
            r == self@.output_of(object),
    {
        let mut k: usize = 0;
        while k < self.outputs.len()
            invariant
                k <= self.outputs@.len(),
                forall|j: int| 0 <= j < k ==> !is_rwm_output(object)(#[trigger] self@.outputs[j]),
            decreases self.outputs@.len() - k,
        {
            assert(self@.outputs[k as int] == self.outputs@[k as int]@);
            if self.outputs[k].rwm_output == Some(object) {
                proof {
                    lemma_first_is(self@.outputs, is_rwm_output(object), k as int);
                }
                return Some(self.outputs[k].id);
            }
            k = k + 1;
        }
        proof {
            lemma_first_none(self@.outputs, is_rwm_output(object));
        }
        None
    }

    /// The seat behind a protocol object
    pub fn seat_of(&self, object: ObjectId) -> (r: Option<SeatId>)
        ensures
            r == self@.seat_of(object),
    {
        let mut j: usize = 0;
        while j < self.seats.len()
            invariant
                j <= self.seats@.len(),
                forall|i: int| 0 <= i < j ==> !is_rwm_seat(object)(#[trigger] self@.seats[i]),
            decreases self.seats@.len() - j,
        {
            assert(self@.seats[j as int] == self.seats@[j as int]@);
            if self.seats[j].rwm_seat == Some(object) {
                proof {
                    lemma_first_is(self@.seats, is_rwm_seat(object), j as int);
                }
                return Some(self.seats[j].id);
            }
            j = j + 1;
        }
        proof {
            lemma_first_none(self@.seats, is_rwm_seat(object));
        }
        None
    }

    fn apply_rules(&mut self, window_id: WindowId)
        ensures
            final(self)@ == old(self)@.rules_applied_to(window_id),
    {
        proof {
            reveal(ContextView::rules_applied_to);
        }
        self.apply_rules_to_window(window_id);
    }

    fn assign_output(&mut self, window_id: WindowId)
        ensures
            final(self)@ == old(self)@.output_assigned(window_id),
    {
        proof {
            reveal(ContextView::output_assigned);
        }
        self.assign_output_for_window(window_id);
    }

    fn note_fact(&mut self, window_id: WindowId, report: WindowReport)
        ensures
            final(self)@ == old(self)@.fact_reported(window_id, report),
    {
        proof {
            reveal(ContextView::fact_reported);
        }
        let i: usize = match self.find_window(window_id) {
            Some(i) => i,
            None => return,
        };
        let parent_id: Option<WindowId> = match &report {
            WindowReport::Parent { parent } => match parent {
                Some(object) => self.window_of(*object),
                None => None,
            },
            _ => None,
        };
        let ghost before = self@;
        self.windows[i].note(report, parent_id);
        assert(self@ =~= before.with_window(
            i as int,
            before.windows[i as int].noted(report, parent_id),
        ));
    }

    fn wish(&self, report: &WindowReport) -> (r: Option<WindowEvent>)
        ensures
            r == self@.wished(*report),
    {
        match report {
            WindowReport::PointerMoveRequested { seat } => match self.seat_of(*seat) {
                Some(seat_id) => Some(WindowEvent::Move(seat_id)),
                None => None,
            },
            WindowReport::PointerResizeRequested { seat, edges } => match self.seat_of(*seat) {
                Some(seat_id) => Some(WindowEvent::Resize(seat_id, *edges)),
                None => None,
            },
            WindowReport::FullscreenRequested { output } => {
                let target: Option<OutputId> = match output {
                    Some(object) => self.output_of(*object),
                    None => None,
                };
                Some(WindowEvent::Fullscreen(target))
            },
            WindowReport::ExitFullscreenRequested => Some(WindowEvent::Unfullscreen),
            WindowReport::MaximizeRequested => Some(WindowEvent::Maximize),
            WindowReport::UnmaximizeRequested => Some(WindowEvent::Unmaximize),
            WindowReport::MinimizeRequested => Some(WindowEvent::Minimize),
            _ => None,
        }
    }

    /// The compositor reported something about a window
    pub fn window_report(&mut self, object: ObjectId, report: WindowReport)
        ensures
            final(self)@ == old(self)@.window_reported(object, report),
    {
        proof {
            reveal(ContextView::window_reported);
        }
        let id: WindowId = match self.window_of(object) {
            Some(id) => id,
            None => return,
        };
        match report {
            WindowReport::Closed => self.destroy_window(id),
            WindowReport::DimensionsHint { .. }
            | WindowReport::Dimensions { .. }
            | WindowReport::UnreliablePid { .. } => self.note_fact(id, report),
            WindowReport::AppId { .. }
            | WindowReport::Title { .. }
            | WindowReport::DecorationHint { .. } => {
                self.note_fact(id, report);
                self.apply_rules(id);
            },
            WindowReport::Parent { .. } => {
                self.note_fact(id, report);
                self.apply_rules(id);
                self.assign_output(id);
            },
            _ => {
                if let Some(event) = self.wish(&report) {
                    self.queue_window_event(id, event);
                }
            },
        }
    }
}

} // verus!
