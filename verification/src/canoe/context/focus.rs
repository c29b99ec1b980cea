//! Focus and the assignment of windows to outputs.

use vstd::prelude::*;
use crate::binding::action::Direction;
use crate::canoe::context::{lemma_each_window, Context, ContextView};
use crate::canoe::output::OutputView;
use crate::canoe::seat::StagedSeat;
use crate::canoe::window::{to_object, FullscreenState, Operator, Staged, Window, WindowView};
use crate::canoe::{OutputId, SeatId, WindowId};
use crate::num::{larger, max_i64, min_i64, quot, smaller};
use crate::protocol::{ObjectId, Request, Requests};
use crate::search::{first, lemma_first_is, lemma_first_none, retain_other, without};

verus! {

/// Length of the overlap of two stretches, each given by start and length.
pub open spec fn overlap(a: int, a_len: int, b: int, b_len: int) -> int {
    larger(smaller(a + a_len, b + b_len) - larger(a, b), 0)
}

/// Area that a window covers on an output.
pub open spec fn covered(w: WindowView, o: OutputView) -> int {
    overlap(w.x as int, w.width as int, o.x as int, o.width as int) * overlap(
        w.y as int,
        w.height as int,
        o.y as int,
        o.height as int,
    )
}

/// The output that the window covers most, and how much of it. The earlier one
/// wins a tie.
pub open spec fn most_covered(w: WindowView, outputs: Seq<OutputView>) -> Option<(OutputId, int)>
    decreases outputs.len(),
{
    if outputs.len() == 0 {
        None
    } else {
        let earlier = most_covered(w, outputs.drop_last());
        let area = covered(w, outputs.last());
        let better = match earlier {
            Some((_, best)) => area > best,
            None => true,
        };
        if area > 0 && better {
            Some((outputs.last().id, area))
        } else {
            earlier
        }
    }
}

/// Holds of the outputs that contain the point.
pub open spec fn has_point(x: int, y: int) -> spec_fn(OutputView) -> bool {
    |o: OutputView| o.contains_point(x, y)
}

/// The step that ends fullscreen on a window, unless it is the one that is
/// being focused.
pub open spec fn leave_fullscreen(except: WindowId) -> spec_fn(Staged) -> Staged {
    |s: Staged| s.fullscreen_left_unless(except)
}

impl Staged {
    /// Ends fullscreen; the geometry is restored in the next manage sequence.
    #[verifier::opaque]
    pub open spec fn fullscreen_left(self) -> Staged {
        let s = self.exit_fullscreen();
        s.with(WindowView { pending_unfullscreen_restore: true, ..s.window })
    }

    /// Ends fullscreen on any window but one.
    #[verifier::opaque]
    pub open spec fn fullscreen_left_unless(self, except: WindowId) -> Staged {
        if self.window.id != except && self.window.fullscreen != FullscreenState::Off {
            self.fullscreen_left()
        } else {
            self
        }
    }
}

impl Window {
    /// End fullscreen; the geometry is restored in the next manage sequence
    pub fn leave_fullscreen(&mut self, requests: &mut Requests)
        ensures
            final(self).staged(final(requests)) == old(self).staged(
                old(requests),
            ).fullscreen_left(),
    {
        proof {
            reveal(Staged::fullscreen_left);
        }
        self.exit_fullscreen(requests);
        self.pending_unfullscreen_restore = true;
    }

    /// End fullscreen unless the window has this id; tells whether it did
    pub fn leave_fullscreen_unless(&mut self, except: WindowId, requests: &mut Requests) -> (left: bool)
        ensures
            final(self).staged(final(requests)) == old(self).staged(
                old(requests),
            ).fullscreen_left_unless(except),
            left == (old(self)@.id != except && old(self)@.fullscreen != FullscreenState::Off),
    {
        proof {
            reveal(Staged::fullscreen_left_unless);
        }
        if self.id != except && self.fullscreen != FullscreenState::Off {
            self.leave_fullscreen(requests);
            return true;
        }
        false
    }
}

/// The windows that are visible on an output, in order.
pub open spec fn visible_ids(c: ContextView, windows: Seq<WindowView>, output: OutputId) -> Seq<WindowId>
    decreases windows.len(),
{
    if windows.len() == 0 {
        Seq::empty()
    } else {
        let earlier = visible_ids(c, windows.drop_last(), output);
        if c.visible_on(windows.last(), output) {
            earlier.push(windows.last().id)
        } else {
            earlier
        }
    }
}

/// Holds of `id` only.
pub open spec fn is_id(id: usize) -> spec_fn(usize) -> bool {
    |x: usize| x == id
}

/// The place of an id in a list, or the first place if it is not there.
pub open spec fn place_of(ids: Seq<usize>, id: Option<usize>) -> int {
    match id {
        Some(id) => match first(ids, is_id(id)) {
            Some(i) => i,
            None => 0,
        },
        None => 0,
    }
}

/// The place before or after another one in a list of `n`, wrapping around.
pub open spec fn step_around(place: int, n: int, direction: Direction) -> int {
    match direction {
        Direction::Forward => (place + 1) % n,
        Direction::Reverse => if place == 0 {
            n - 1
        } else {
            place - 1
        },
    }
}

impl ContextView {
    #[verifier::opaque]
    pub open spec fn output_at_point(self, x: int, y: int) -> Option<OutputId> {
        match first(self.outputs, has_point(x, y)) {
            Some(i) => Some(self.outputs[i].id),
            None => None,
        }
    }

    /// The output that a window is on: the one it covers most, or else the one
    /// that holds its centre.
    #[verifier::opaque]
    pub open spec fn output_for_rect(self, w: WindowView) -> Option<OutputId> {
        match most_covered(w, self.outputs) {
            Some((id, _)) => Some(id),
            None => self.output_at_point(
                w.x + quot(w.width as int, 2),
                w.y + quot(w.height as int, 2),
            ),
        }
    }

    /// The output of a window: the one it is assigned to while its place is not
    /// known, afterwards the one it is on.
    #[verifier::opaque]
    pub open spec fn output_for_window(self, id: WindowId) -> Option<OutputId> {
        match self.window(id) {
            Some(w) => if w.position_undefined || w.width <= 0 || w.height <= 0 {
                self.live_output(w)
            } else {
                self.output_for_rect(w)
            },
            None => None,
        }
    }

    /// The output for new windows: that of the focused window, or the one where
    /// the focus was last, or the current one.
    #[verifier::opaque]
    pub open spec fn output_for_new_window(self) -> Option<OutputId> {
        let focused = match self.focused_window {
            Some(id) => self.output_for_window(id),
            None => None,
        };
        if focused is Some {
            focused
        } else if self.last_focused_output is Some {
            self.last_focused_output
        } else {
            self.current_output
        }
    }

    /// The output that a window is on, unless the window is hidden.
    #[verifier::opaque]
    pub open spec fn parent_output(self, id: WindowId) -> Option<OutputId> {
        match self.window(id) {
            Some(p) => if p.hidden {
                None
            } else {
                self.output_for_rect(p)
            },
            None => None,
        }
    }

    /// The output for a window: that of its parent, or the one for new windows.
    #[verifier::opaque]
    pub open spec fn preferred_output(self, id: WindowId) -> Option<OutputId> {
        match self.window(id) {
            Some(w) => match w.parent {
                Some(parent) => match self.parent_output(parent) {
                    Some(output) => Some(output),
                    None => self.output_for_new_window(),
                },
                None => self.output_for_new_window(),
            },
            None => None,
        }
    }

    /// Makes an output the default one for layer shell surfaces.
    #[verifier::opaque]
    pub open spec fn default_output_set(self, output: OutputId) -> ContextView {
        match self.output(output) {
            Some(o) => ContextView {
                requests: to_object(
                    self.requests,
                    o.layer_shell_output,
                    |layer_shell_output: ObjectId| Request::SetDefaultOutput { layer_shell_output },
                ),
                ..self
            },
            None => self,
        }
    }

    /// Assigns a window to an output. The current output follows the focused
    /// window.
    #[verifier::opaque]
    pub open spec fn window_output_set(self, id: WindowId, output: OutputId) -> ContextView {
        match (self.window_index(id), self.output_index(output)) {
            (Some(i), Some(_)) => {
                let c = ContextView {
                    windows: self.windows.update(
                        i,
                        WindowView { output: Some(output), ..self.windows[i] },
                    ),
                    ..self
                };
                if self.focused_window == Some(id) {
                    ContextView {
                        current_output: Some(output),
                        last_focused_output: Some(output),
                        ..c
                    }.default_output_set(output)
                } else {
                    c
                }
            },
            _ => self,
        }
    }

    /// Assigns a window to the output that it is on, if that changed.
    #[verifier::opaque]
    pub open spec fn output_followed(self, id: WindowId) -> ContextView {
        match self.window(id) {
            Some(w) => if w.position_undefined || w.width <= 0 || w.height <= 0 {
                self
            } else {
                match self.output_for_rect(w) {
                    Some(output) => if self.live_output(w) == Some(output) {
                        self
                    } else {
                        self.window_output_set(id, output)
                    },
                    None => self,
                }
            },
            None => self,
        }
    }

    /// Assigns the focused window to the output under the pointer while the
    /// seat is moving it.
    #[verifier::opaque]
    pub open spec fn output_followed_pointer(self, seat: SeatId, x: int, y: int) -> ContextView {
        match (self.output_at_point(x, y), self.focused_window) {
            (Some(output), Some(id)) => match self.window(id) {
                Some(w) => if self.moved_by(w, seat) && self.live_output(w) != Some(output) {
                    self.window_output_set(id, output)
                } else {
                    self
                },
                None => self,
            },
            _ => self,
        }
    }

    /// Whether a seat that still exists is moving the window.
    pub open spec fn moved_by(self, w: WindowView, seat: SeatId) -> bool {
        match w.operator {
            Operator::Move { seat: mover, .. } => mover == Some(seat) && self.seat_index(seat) is Some,
            _ => false,
        }
    }

    /// Gives the keyboard to a window, through the current seat.
    #[verifier::opaque]
    pub open spec fn keyboard_to(self, id: WindowId) -> ContextView {
        match (self.window(id), self.current_seat) {
            (Some(w), Some(seat)) => match self.seat(seat) {
                Some(s) => match (s.rwm_seat, w.rwm_window) {
                    (Some(seat), Some(window)) => self.ask(Request::FocusWindow { seat, window }),
                    _ => self,
                },
                None => self,
            },
            _ => self,
        }
    }

    /// Takes the keyboard from every window, through the current seat.
    #[verifier::opaque]
    pub open spec fn keyboard_to_none(self) -> ContextView {
        match self.current_seat {
            Some(seat) => self.on_seat(
                seat,
                |s: StagedSeat| s.tell(|seat: ObjectId| Request::ClearFocus { seat }),
            ),
            None => self,
        }
    }

    #[verifier::opaque]
    pub open spec fn keyboard_focus_cleared(self) -> ContextView {
        (ContextView { focused_window: None, ..self }).keyboard_to_none()
    }

    /// Whether a window other than `id` is fullscreen.
    pub open spec fn other_fullscreen(self, id: WindowId) -> bool {
        exists|i: int|
            0 <= i < self.windows.len() && (#[trigger] self.windows[i]).id != id
                && self.windows[i].fullscreen != FullscreenState::Off
    }

    /// Every other window has left fullscreen.
    #[verifier::opaque]
    pub open spec fn others_left_fullscreen(self, id: WindowId) -> ContextView {
        let c = self.each_window(self.windows.len() as int, leave_fullscreen(id));
        if self.other_fullscreen(id) {
            c.manage_dirty()
        } else {
            c
        }
    }

    /// Focuses a window: every other window leaves fullscreen, the window comes
    /// first in the focus order and gets the keyboard, and the current output
    /// follows it.
    #[verifier::opaque]
    pub open spec fn focus(self, id: WindowId) -> ContextView {
        let c = self.others_left_fullscreen(id);
        let c = ContextView {
            focus_stack: without(c.focus_stack, id).insert(0, id),
            focused_window: Some(id),
            ..c
        };
        let c = c.keyboard_to(id).output_followed(id);
        match c.output_for_window(id) {
            Some(output) => c.window_output_set(id, output),
            None => c,
        }
    }

    #[verifier::opaque]
    pub open spec fn focus_preview(self, id: WindowId) -> ContextView {
        (ContextView { focused_window: Some(id), ..self }).keyboard_to(id)
    }

    #[verifier::opaque]
    pub open spec fn focus_preview_visual(self, id: WindowId) -> ContextView {
        (ContextView { focused_window: Some(id), ..self }).keyboard_to_none()
    }

    /// Focuses the window before or after the focused one among those visible
    /// on the current output.
    #[verifier::opaque]
    pub open spec fn focus_iter(self, direction: Direction) -> ContextView {
        match self.current_output {
            Some(output) => if self.output_index(output) is Some {
                let visible = visible_ids(self, self.windows, output);
                if visible.len() == 0 {
                    self
                } else {
                    let place = place_of(visible, self.focused_window);
                    self.focus(visible[step_around(place, visible.len() as int, direction)])
                }
            } else {
                self
            },
            None => self,
        }
    }

    /// The ids of the outputs, in order.
    pub open spec fn output_ids(self) -> Seq<OutputId> {
        self.outputs.map_values(|o: OutputView| o.id)
    }

    /// The first window that is visible on an output.
    pub open spec fn first_visible(self, output: OutputId) -> Option<WindowId> {
        let visible = visible_ids(self, self.windows, output);
        if visible.len() == 0 {
            None
        } else {
            Some(visible[0])
        }
    }

    /// Makes the output before or after the current one current, and focuses
    /// the first window visible on it.
    #[verifier::opaque]
    pub open spec fn focus_output_iter(self, direction: Direction) -> ContextView {
        let ids = self.output_ids();
        if ids.len() <= 1 {
            self
        } else {
            let next = ids[step_around(
                place_of(ids, self.current_output),
                ids.len() as int,
                direction,
            )];
            let c = (ContextView { current_output: Some(next), ..self }).default_output_set(next);
            match c.first_visible(next) {
                Some(window) => c.focus(window),
                None => c,
            }
        }
    }

    /// Holds of the windows that are not hidden.
    pub open spec fn shown(self) -> spec_fn(WindowId) -> bool {
        |id: WindowId| self.window(id) matches Some(w) && !w.hidden
    }

    /// Holds of the windows that are not hidden and assigned to an output.
    pub open spec fn shown_on(self, output: OutputId) -> spec_fn(WindowId) -> bool {
        |id: WindowId|
            self.window(id) matches Some(w) && !w.hidden && self.live_output(w) == Some(output)
    }

    /// The window that gets the focus back: the most recent one that is not
    /// hidden, those of the preferred output first.
    #[verifier::opaque]
    pub open spec fn restore_candidate(self) -> Option<WindowId> {
        let preferred = if self.current_output is Some {
            self.current_output
        } else {
            self.last_focused_output
        };
        let there = match preferred {
            Some(output) => first(self.focus_stack, self.shown_on(output)),
            None => None,
        };
        let found = if there is Some {
            there
        } else {
            first(self.focus_stack, self.shown())
        };
        match found {
            Some(i) => Some(self.focus_stack[i]),
            None => None,
        }
    }

    /// Gives the focus back to a window, if none has it.
    #[verifier::opaque]
    pub open spec fn focus_restored(self) -> ContextView {
        if self.focused_window is Some {
            self
        } else {
            match self.restore_candidate() {
                Some(id) => self.focus(id),
                None => self.keyboard_focus_cleared(),
            }
        }
    }
}

fn overlap_len(a: i32, a_len: i32, b: i32, b_len: i32) -> (r: i64)
    ensures
        r == overlap(a as int, a_len as int, b as int, b_len as int),
        0 <= r <= i32::MAX,
{
    let end: i64 = min_i64(a as i64 + a_len as i64, b as i64 + b_len as i64);
    let start: i64 = max_i64(a as i64, b as i64);
    max_i64(end - start, 0)
}

fn covered_area(w: &Window, o: &crate::canoe::output::Output) -> (r: i64)
    ensures
        r == covered(w@, o@),
{
    let width: i64 = overlap_len(w.x, w.width, o.x, o.width);
    let height: i64 = overlap_len(w.y, w.height, o.y, o.height);
    assert(0 <= width * height <= 0x7fff_ffff * 0x7fff_ffff) by (nonlinear_arith)
        requires
            0 <= width <= 0x7fff_ffff,
            0 <= height <= 0x7fff_ffff,
    ;
    width * height
}

/// The place of an id in a list, or the first place if it is not there
pub fn index_or_first(ids: &Vec<usize>, wanted: Option<usize>) -> (r: usize)
    requires
        ids@.len() > 0,
    ensures
        r == place_of(ids@, wanted),
        r < ids@.len(),
{
    let id: usize = match wanted {
        Some(id) => id,
        None => return 0,
    };
    let mut i: usize = 0;
    while i < ids.len()
        invariant
            i <= ids@.len(),
            ids@.len() > 0,
            wanted == Some(id),
            forall|j: int| 0 <= j < i ==> !is_id(id)(#[trigger] ids@[j]),
        decreases ids@.len() - i,
    {
        if ids[i] == id {
            proof {
                lemma_first_is(ids@, is_id(id), i as int);
            }
            return i;
        }
        i = i + 1;
    }
    proof {
        lemma_first_none(ids@, is_id(id));
    }
    0
}

/// The place before or after another one, wrapping around
pub fn step_index(place: usize, n: usize, direction: Direction) -> (r: usize)
    requires
        place < n,
    ensures
        r == step_around(place as int, n as int, direction),
        r < n,
{
    match direction {
        Direction::Forward => {
            if place + 1 < n {
                proof {
                    vstd::arithmetic::div_mod::lemma_small_mod((place + 1) as nat, n as nat);
                }
                place + 1
            } else {
                proof {
                    vstd::arithmetic::div_mod::lemma_mod_self_0(n as int);
                }
                0
            }
        },
        Direction::Reverse => if place == 0 {
            n - 1
        } else {
            place - 1
        },
    }
}

impl Context {
    /// The output that contains a point
    pub fn output_at_point(&self, x: i64, y: i64) -> (r: Option<OutputId>)
        ensures
            r == self@.output_at_point(x as int, y as int),
    {
        proof {
            reveal(ContextView::output_at_point);
        }
        let mut i: usize = 0;
        while i < self.outputs.len()
            invariant
                i <= self.outputs@.len(),
                forall|j: int|
                    0 <= j < i ==> !has_point(x as int, y as int)(#[trigger] self@.outputs[j]),
            decreases self.outputs@.len() - i,
        {
            assert(self@.outputs[i as int] == self.outputs@[i as int]@);
            if self.outputs[i].contains_point(x, y) {
                proof {
                    reveal(ContextView::output_at_point);
                    lemma_first_is(self@.outputs, has_point(x as int, y as int), i as int);
                }
                return Some(self.outputs[i].id);
            }
            i = i + 1;
        }
        proof {
            lemma_first_none(self@.outputs, has_point(x as int, y as int));
        }
        None
    }

    /// The output that a window is on
    pub fn output_for_window_rect(&self, window: &Window) -> (r: Option<OutputId>)
        ensures
            r == self@.output_for_rect(window@),
    {
        proof {
            reveal(ContextView::output_for_rect);
        }
        let mut best: Option<(OutputId, i64)> = None;
        let mut i: usize = 0;
        assert(self@.outputs.take(0).len() == 0);
        while i < self.outputs.len()
            invariant
                i <= self.outputs@.len(),
                (match best {
                    Some((id, area)) => Some((id, area as int)),
                    None => None,
                }) == most_covered(window@, self@.outputs.take(i as int)),
            decreases self.outputs@.len() - i,
        {
            proof {
                assert(self@.outputs.take(i + 1).drop_last() =~= self@.outputs.take(i as int));
                assert(self@.outputs[i as int] == self.outputs@[i as int]@);
            }
            let area: i64 = covered_area(window, &self.outputs[i]);
            let better: bool = match best {
                Some((_, best_area)) => area > best_area,
                None => true,
            };
            if area > 0 && better {
                best = Some((self.outputs[i].id, area));
            }
            i = i + 1;
        }
        assert(self@.outputs.take(i as int) =~= self@.outputs);
        if let Some((id, _)) = best {
            return Some(id);
        }
        let center_x: i64 = window.x as i64 + (window.width / 2) as i64;
        let center_y: i64 = window.y as i64 + (window.height / 2) as i64;
        self.output_at_point(center_x, center_y)
    }

    pub fn output_for_window_id(&self, window_id: WindowId) -> (r: Option<OutputId>)
        ensures
            r == self@.output_for_window(window_id),
    {
        proof {
            reveal(ContextView::output_for_window);
        }
        match self.find_window(window_id) {
            Some(i) => {
                let w = &self.windows[i];
                if w.position_undefined || w.width <= 0 || w.height <= 0 {
                    self.live_output(w.output)
                } else {
                    self.output_for_window_rect(w)
                }
            },
            None => None,
        }
    }

    pub fn current_output_for_new_window(&self) -> (r: Option<OutputId>)
        ensures
            r == self@.output_for_new_window(),
    {
        proof {
            reveal(ContextView::output_for_new_window);
        }
        let focused: Option<OutputId> = match self.focused_window {
            Some(id) => self.output_for_window_id(id),
            None => None,
        };
        if focused.is_some() {
            focused
        } else if self.last_focused_output.is_some() {
            self.last_focused_output
        } else {
            self.current_output
        }
    }

    pub fn parent_output_if_visible(&self, parent_id: WindowId) -> (r: Option<OutputId>)
        ensures
            r == self@.parent_output(parent_id),
    {
        proof {
            reveal(ContextView::parent_output);
        }
        match self.find_window(parent_id) {
            Some(i) => if self.windows[i].hidden {
                None
            } else {
                self.output_for_window_rect(&self.windows[i])
            },
            None => None,
        }
    }

    pub fn preferred_output_for_window_id(&self, window_id: WindowId) -> (r: Option<OutputId>)
        ensures
            r == self@.preferred_output(window_id),
    {
        proof {
            reveal(ContextView::preferred_output);
        }
        let i: usize = match self.find_window(window_id) {
            Some(i) => i,
            None => return None,
        };
        if let Some(parent_id) = self.windows[i].parent {
            if let Some(output) = self.parent_output_if_visible(parent_id) {
                return Some(output);
            }
        }
        self.current_output_for_new_window()
    }

    /// Make an output the default one for layer shell surfaces
    pub fn set_default_layer_shell_output(&mut self, output_id: OutputId)
        ensures
            final(self)@ == old(self)@.default_output_set(output_id),
    {
        proof {
            reveal(ContextView::default_output_set);
        }
        if let Some(i) = self.find_output(output_id) {
            if let Some(layer_shell_output) = self.outputs[i].layer_shell_output {
                self.requests.push(Request::SetDefaultOutput { layer_shell_output });
            }
        }
    }

    /// Assign a window to an output
    pub fn set_window_output(&mut self, window_id: WindowId, output_id: OutputId)
        ensures
            final(self)@ == old(self)@.window_output_set(window_id, output_id),
    {
        proof {
            reveal(ContextView::window_output_set);
        }
        if let Some(i) = self.find_window(window_id) {
            if self.find_output(output_id).is_some() {
                let ghost before = self@;
                self.windows[i].output = Some(output_id);
                let ghost moved = ContextView {
                    windows: before.windows.update(
                        i as int,
                        WindowView { output: Some(output_id), ..before.windows[i as int] },
                    ),
                    ..before
                };
                assert(self@ =~= moved);
                if self.focused_window == Some(window_id) {
                    self.current_output = Some(output_id);
                    self.last_focused_output = Some(output_id);
                    assert(self@ =~= ContextView {
                        current_output: Some(output_id),
                        last_focused_output: Some(output_id),
                        ..moved
                    });
                    self.set_default_layer_shell_output(output_id);
                }
            }
        }
    }

    /// Assign a window to the output it is on, if that changed
    pub fn update_window_output_from_position(&mut self, window_id: WindowId)
        ensures
            final(self)@ == old(self)@.output_followed(window_id),
    {
        proof {
            reveal(ContextView::output_followed);
        }
        let i: usize = match self.find_window(window_id) {
            Some(i) => i,
            None => return,
        };
        let w = &self.windows[i];
        if w.position_undefined || w.width <= 0 || w.height <= 0 {
            return;
        }
        let current: Option<OutputId> = self.live_output(w.output);
        if let Some(output_id) = self.output_for_window_rect(w) {
            if current != Some(output_id) {
                self.set_window_output(window_id, output_id);
            }
        }
    }

    /// Assign the focused window to the output under the pointer while the seat
    /// is moving it
    pub fn update_window_output_from_pointer(&mut self, seat_id: SeatId, pointer_x: i32, pointer_y: i32)
        ensures
            final(self)@ == old(self)@.output_followed_pointer(
                seat_id,
                pointer_x as int,
                pointer_y as int,
            ),
    {
        proof {
            reveal(ContextView::output_followed_pointer);
        }
        let output_id: OutputId = match self.output_at_point(pointer_x as i64, pointer_y as i64) {
            Some(id) => id,
            None => return,
        };
        let window_id: WindowId = match self.focused_window {
            Some(id) => id,
            None => return,
        };
        let i: usize = match self.find_window(window_id) {
            Some(i) => i,
            None => return,
        };
        let is_move: bool = match self.windows[i].operator {
            Operator::Move { seat, .. } => seat == Some(seat_id) && self.find_seat(
                seat_id,
            ).is_some(),
            _ => false,
        };
        if !is_move {
            return;
        }
        if self.live_output(self.windows[i].output) != Some(output_id) {
            self.set_window_output(window_id, output_id);
        }
    }

    /// Assign a window to the output preferred for it
    pub fn assign_output_for_window(&mut self, window_id: WindowId)
        ensures
            final(self)@ == (match old(self)@.preferred_output(window_id) {
                Some(output) => old(self)@.window_output_set(window_id, output),
                None => old(self)@,
            }),
    {
        if let Some(output_id) = self.preferred_output_for_window_id(window_id) {
            self.set_window_output(window_id, output_id);
        }
    }

    fn give_keyboard_to(&mut self, window_id: WindowId)
        ensures
            final(self)@ == old(self)@.keyboard_to(window_id),
    {
        proof {
            reveal(ContextView::keyboard_to);
        }
        if let Some(i) = self.find_window(window_id) {
            if let Some(seat_id) = self.current_seat {
                if let Some(j) = self.find_seat(seat_id) {
                    self.seats[j].focus_window(&self.windows[i], &mut self.requests);
                }
            }
        }
    }

    fn take_keyboard(&mut self)
        ensures
            final(self)@ == old(self)@.keyboard_to_none(),
    {
        proof {
            reveal(ContextView::keyboard_to_none);
        }
        if let Some(seat_id) = self.current_seat {
            if let Some(j) = self.find_seat(seat_id) {
                self.seats[j].clear_focus(&mut self.requests);
            }
        }
    }

    /// Leave no window with the keyboard focus
    pub fn clear_keyboard_focus(&mut self)
        ensures
            final(self)@ == old(self)@.keyboard_focus_cleared(),
    {
        proof {
            reveal(ContextView::keyboard_focus_cleared);
        }
        self.focused_window = None;
        self.take_keyboard();
    }

    fn leave_other_fullscreen(&mut self, window_id: WindowId)
        ensures
            final(self)@ == old(self)@.others_left_fullscreen(window_id),
    {
        proof {
            reveal(ContextView::others_left_fullscreen);
        }
        let ghost start = self@;
        let ghost step = leave_fullscreen(window_id);
        let mut any: bool = false;
        let mut i: usize = 0;
        while i < self.windows.len()
            invariant
                i <= self.windows@.len(),
                start == old(self)@,
                step == leave_fullscreen(window_id),
                self.windows@.len() == start.windows.len(),
                self@ == start.each_window(i as int, step),
                any == (exists|j: int|
                    0 <= j < i && (#[trigger] start.windows[j]).id != window_id
                        && start.windows[j].fullscreen != FullscreenState::Off),
            decreases self.windows@.len() - i,
        {
            proof {
                lemma_each_window(start, i as int, step);
            }
            let ghost before = self@;
            assert(before.windows[i as int] == self.windows@[i as int]@);
            assert(before.windows[i as int] == start.windows[i as int]);
            if self.windows[i].leave_fullscreen_unless(window_id, &mut self.requests) {
                any = true;
            }
            assert(self@ =~= before.commit(i as int, step(before.staged(i as int))));
            i = i + 1;
        }
        if any {
            self.manage_dirty();
        }
    }

    /// Focus a window
    ///
    /// Any other fullscreen window leaves fullscreen. All windows are looked at
    /// and not just the focused one, because a preview (used during alt-tab) may
    /// have changed that already.
    pub fn focus(&mut self, window_id: WindowId)
        ensures
            final(self)@ == old(self)@.focus(window_id),
    {
        proof {
            reveal(ContextView::focus);
        }
        self.leave_other_fullscreen(window_id);

        // Move to front of focus stack
        self.focus_stack = retain_other(&self.focus_stack, window_id);
        self.focus_stack.insert(0, window_id);
        self.focused_window = Some(window_id);

        // Actually focus the window via seat
        self.give_keyboard_to(window_id);

        self.update_window_output_from_position(window_id);
        if let Some(output_id) = self.output_for_window_id(window_id) {
            self.set_window_output(window_id, output_id);
        }
    }

    /// Focus a window without changing the focus order
    pub fn focus_preview(&mut self, window_id: WindowId)
        ensures
            final(self)@ == old(self)@.focus_preview(window_id),
    {
        proof {
            reveal(ContextView::focus_preview);
        }
        self.focused_window = Some(window_id);
        self.give_keyboard_to(window_id);
    }

    /// Mark a window as focused for rendering during an alt-tab preview without
    /// delivering real keyboard focus to it. Keyboard focus is cleared on the
    /// seat so that keys typed while the switcher menu is open are dropped by
    /// the compositor instead of being sent to the previewed window.
    pub fn focus_preview_visual(&mut self, window_id: WindowId)
        ensures
            final(self)@ == old(self)@.focus_preview_visual(window_id),
    {
        proof {
            reveal(ContextView::focus_preview_visual);
        }
        self.focused_window = Some(window_id);
        self.take_keyboard();
    }

    /// The windows that are visible on an output
    pub fn visible_windows(&self, output: OutputId) -> (r: Vec<WindowId>)
        ensures
            r@ == visible_ids(self@, self@.windows, output),
    {
        let mut r: Vec<WindowId> = Vec::new();
        let mut i: usize = 0;
        assert(r@ =~= visible_ids(self@, self@.windows.take(0), output));
        while i < self.windows.len()
            invariant
                i <= self.windows@.len(),
                r@ == visible_ids(self@, self@.windows.take(i as int), output),
            decreases self.windows@.len() - i,
        {
            proof {
                assert(self@.windows.take(i + 1).drop_last() =~= self@.windows.take(i as int));
                assert(self@.windows[i as int] == self.windows@[i as int]@);
            }
            if self.is_visible_on(&self.windows[i], output) {
                r.push(self.windows[i].id);
            }
            i = i + 1;
        }
        assert(self@.windows.take(i as int) =~= self@.windows);
        r
    }

    /// Focus the next/previous window
    pub fn focus_iter(&mut self, direction: Direction)
        ensures
            final(self)@ == old(self)@.focus_iter(direction),
    {
        proof {
            reveal(ContextView::focus_iter);
        }
        let output: OutputId = match self.current_output {
            Some(id) => id,
            None => return,
        };
        if self.find_output(output).is_none() {
            return;
        }
        let visible = self.visible_windows(output);
        if visible.len() == 0 {
            return;
        }
        let current: usize = index_or_first(&visible, self.focused_window);
        let next: usize = step_index(current, visible.len(), direction);
        self.focus(visible[next]);
    }

    /// The ids of the outputs
    pub fn all_output_ids(&self) -> (r: Vec<OutputId>)
        ensures
            r@ == self@.output_ids(),
    {
        let mut r: Vec<OutputId> = Vec::new();
        let mut i: usize = 0;
        while i < self.outputs.len()
            invariant
                i <= self.outputs@.len(),
                r@.len() == i,
                forall|j: int| 0 <= j < i ==> #[trigger] r@[j] == self@.outputs[j].id,
            decreases self.outputs@.len() - i,
        {
            assert(self@.outputs[i as int] == self.outputs@[i as int]@);
            r.push(self.outputs[i].id);
            i = i + 1;
        }
        assert(r@ =~= self@.output_ids());
        r
    }

    /// Focus next/previous output
    pub fn focus_output_iter(&mut self, direction: Direction)
        ensures
            final(self)@ == old(self)@.focus_output_iter(direction),
    {
        proof {
            reveal(ContextView::focus_output_iter);
        }
        let ids = self.all_output_ids();
        if ids.len() <= 1 {
            return;
        }
        let current: usize = index_or_first(&ids, self.current_output);
        let next: OutputId = ids[step_index(current, ids.len(), direction)];
        self.current_output = Some(next);
        self.set_default_layer_shell_output(next);

        // Focus top window on new output
        let visible = self.visible_windows(next);
        if visible.len() > 0 {
            self.focus(visible[0]);
        }
    }

    fn find_shown(&self, output: Option<OutputId>) -> (r: Option<WindowId>)
        ensures
            r == (match first(
                self@.focus_stack,
                match output {
                    Some(output) => self@.shown_on(output),
                    None => self@.shown(),
                },
            ) {
                Some(i) => Some(self@.focus_stack[i]),
                None => None,
            }),
    {
        let ghost p = match output {
            Some(output) => self@.shown_on(output),
            None => self@.shown(),
        };
        let mut i: usize = 0;
        while i < self.focus_stack.len()
            invariant
                i <= self.focus_stack@.len(),
                p == (match output {
                    Some(output) => self@.shown_on(output),
                    None => self@.shown(),
                }),
                forall|j: int| 0 <= j < i ==> !p(#[trigger] self@.focus_stack[j]),
            decreases self.focus_stack@.len() - i,
        {
            let window_id: WindowId = self.focus_stack[i];
            assert(self@.focus_stack[i as int] == window_id);
            if let Some(k) = self.find_window(window_id) {
                if !self.windows[k].hidden {
                    let wanted: bool = match output {
                        Some(output) => self.live_output(self.windows[k].output) == Some(output),
                        None => true,
                    };
                    if wanted {
                        proof {
                            lemma_first_is(self@.focus_stack, p, i as int);
                        }
                        return Some(window_id);
                    }
                }
            }
            i = i + 1;
        }
        proof {
            lemma_first_none(self@.focus_stack, p);
        }
        None
    }

    /// Give the focus back to the most recent window, if none has it
    pub fn restore_focus_from_stack(&mut self)
        ensures
            final(self)@ == old(self)@.focus_restored(),
    {
        proof {
            reveal(ContextView::focus_restored);
            reveal(ContextView::restore_candidate);
        }
        if self.focused_window.is_some() {
            return;
        }
        let preferred: Option<OutputId> = if self.current_output.is_some() {
            self.current_output
        } else {
            self.last_focused_output
        };
        let mut candidate: Option<WindowId> = match preferred {
            Some(output) => self.find_shown(Some(output)),
            None => None,
        };
        if candidate.is_none() {
            candidate = self.find_shown(None);
        }
        match candidate {
            Some(window_id) => self.focus(window_id),
            None => self.clear_keyboard_focus(),
        }
    }
}

} // verus!
