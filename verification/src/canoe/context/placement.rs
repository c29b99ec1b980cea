//! Where windows go: maximizing, snapping, fullscreen, hiding and moving to
//! other outputs.

use vstd::prelude::*;
use crate::binding::action::{Direction, SnapSide};
use crate::canoe::context::focus::{index_or_first, place_of, step_around, step_index, visible_ids};
use crate::canoe::context::{Context, ContextView};
use crate::canoe::output::{Area, OutputView};
use crate::canoe::scale::{is_scaling, scaling};
use crate::canoe::snap::{carried, carry_rect, Insets};
use crate::canoe::titlebar::{spec_titlebar_height, titlebar_height};
use crate::canoe::window::{FullscreenState, SavedGeometry, SnapState, Staged, Window, WindowView};
use crate::canoe::{OutputId, WindowId};
use crate::config::WindowDecoration;
use crate::num::{larger, max_i32, max_i64, quot, sat, to_i32};
use crate::protocol::{ObjectId, Requests};
use crate::search::{first, lemma_first_is, lemma_first_none};

verus! {

/// The left or right half of an area. The right half gets the odd pixel.
pub open spec fn half(area: Area, side: SnapSide) -> Area {
    let (x, y, width, height) = area;
    let left = quot(width as int, 2);
    match side {
        SnapSide::Left => (x, y, left as i32, height),
        SnapSide::Right => (sat(x + left), y, (width - left) as i32, height),
    }
}

fn half_of(area: Area, side: SnapSide) -> (r: Area)
    ensures
        r == half(area, side),
{
    let (x, y, width, height): (i32, i32, i32, i32) = area;
    let left: i32 = width / 2;
    match side {
        SnapSide::Left => (x, y, left, height),
        SnapSide::Right => (to_i32(x as i64 + left as i64), y, width - left, height),
    }
}

/// The state of a window that is snapped to a side.
pub open spec fn snapped_to(side: SnapSide) -> SnapState {
    match side {
        SnapSide::Left => SnapState::Left,
        SnapSide::Right => SnapState::Right,
    }
}

/// Where a window that asks for fullscreen goes back to later. A window that
/// was never sized gets half of the usable area, and one that was never placed
/// is centred in it.
pub open spec fn windowed_geometry(w: WindowView, usable: Option<Area>) -> SavedGeometry {
    let (width, height) = if w.width > 0 && w.height > 0 {
        (w.width, w.height)
    } else {
        match usable {
            Some((_, _, aw, ah)) => if aw > 0 && ah > 0 {
                (quot(aw as int, 2) as i32, quot(ah as int, 2) as i32)
            } else {
                (800, 600)
            },
            None => (800, 600),
        }
    };
    let (x, y) = if !w.position_undefined {
        (w.x, w.y)
    } else {
        match usable {
            Some((ax, ay, aw, ah)) => (
                sat(ax + larger(quot(aw - width, 2), 0)),
                sat(ay + larger(quot(ah - height, 2), 0)),
            ),
            None => (w.x, w.y),
        }
    };
    SavedGeometry { x, y, width, height }
}

fn windowed_geometry_of(w: &Window, usable: Option<Area>) -> (r: SavedGeometry)
    ensures
        r == windowed_geometry(w@, usable),
{
    let (width, height): (i32, i32) = if w.width > 0 && w.height > 0 {
        (w.width, w.height)
    } else {
        match usable {
            Some((_, _, aw, ah)) => if aw > 0 && ah > 0 {
                (aw / 2, ah / 2)
            } else {
                (800, 600)
            },
            None => (800, 600),
        }
    };
    let (x, y): (i32, i32) = if !w.position_undefined {
        (w.x, w.y)
    } else {
        match usable {
            Some((ax, ay, aw, ah)) => (
                to_i32(ax as i64 + max_i64((aw as i64 - width as i64) / 2, 0)),
                to_i32(ay as i64 + max_i64((ah as i64 - height as i64) / 2, 0)),
            ),
            None => (w.x, w.y),
        }
    };
    SavedGeometry { x, y, width, height }
}

impl Staged {
    /// Goes fullscreen on an output, if there is one to go to. Where to go back
    /// to is `saved`, unless that is known already.
    #[verifier::opaque]
    pub open spec fn fullscreen_asked(
        self,
        saved: SavedGeometry,
        target: Option<(ObjectId, OutputId)>,
    ) -> Staged {
        let s = self.with(
            WindowView {
                pre_fullscreen: if self.window.pre_fullscreen is None {
                    Some(saved)
                } else {
                    self.window.pre_fullscreen
                },
                pending_unfullscreen_restore: false,
                ..self.window
            },
        );
        match target {
            Some((rwm_output, output)) => s.fullscreen_entered(rwm_output, output),
            None => s,
        }
    }

    /// Disappears as the one minimized at `seq`.
    #[verifier::opaque]
    pub open spec fn minimized(self, seq: u64) -> Staged {
        self.with(WindowView { minimize_seq: seq, ..self.window }).conceal()
    }
}

impl Window {
    /// Go fullscreen on an output, if there is one to go to
    pub fn ask_fullscreen(&mut self, saved: SavedGeometry, target: Option<(ObjectId, OutputId)>, requests: &mut Requests)
        ensures
            final(self).staged(final(requests)) == old(self).staged(
                old(requests),
            ).fullscreen_asked(saved, target),
    {
        proof {
            reveal(Staged::fullscreen_asked);
        }
        let ghost w = self@;
        if self.pre_fullscreen.is_none() {
            self.pre_fullscreen = Some(saved);
        }
        self.pending_unfullscreen_restore = false;
        assert(self@ == WindowView {
            pre_fullscreen: if w.pre_fullscreen is None {
                Some(saved)
            } else {
                w.pre_fullscreen
            },
            pending_unfullscreen_restore: false,
            ..w
        });
        if let Some((rwm_output, output)) = target {
            self.enter_fullscreen(rwm_output, output, requests);
        }
    }

    /// Disappear as the one minimized at `seq`
    pub fn minimize(&mut self, seq: u64, requests: &mut Requests)
        ensures
            final(self).staged(final(requests)) == old(self).staged(old(requests)).minimized(seq),
    {
        proof {
            reveal(Staged::minimized);
        }
        self.minimize_seq = seq;
        assert(self@ == WindowView { minimize_seq: seq, ..old(self)@ });
        self.conceal(requests);
    }
}

/// Holds of the ids in a list.
pub open spec fn among(ids: Seq<usize>) -> spec_fn(usize) -> bool {
    |id: usize| ids.contains(id)
}

impl ContextView {
    /// The output that a window is placed on: the one it is on, or else the
    /// current one.
    #[verifier::opaque]
    pub open spec fn placement_output(self, id: WindowId) -> Option<OutputView> {
        let on = match self.window(id) {
            Some(w) => self.output_for_rect(w),
            None => None,
        };
        let target = if on is Some {
            on
        } else {
            self.current_output
        };
        match target {
            Some(output) => self.output(output),
            None => None,
        }
    }

    /// What the decorations of a window take. Only server-side decorations take
    /// anything.
    pub open spec fn insets(self, w: WindowView) -> Insets {
        let ssd = w.decoration == Some(WindowDecoration::Ssd);
        Insets {
            border: if ssd {
                self.config.ui.border_width
            } else {
                0
            },
            titlebar: if ssd {
                spec_titlebar_height(self.config.ui.font_size)
            } else {
                0
            },
            swallow: larger(w.swallow_top as int, 0) as i32,
        }
    }

    /// Makes a window fill the usable area of its output.
    #[verifier::opaque]
    pub open spec fn maximized(self, id: WindowId) -> ContextView {
        let c = self.output_followed(id);
        match (c.window_index(id), c.placement_output(id)) {
            (Some(i), Some(o)) => c.commit(
                i,
                c.staged(i).maximized_to(c.insets(c.windows[i]).content(o.usable_area())),
            ),
            _ => c,
        }
    }

    /// Makes a maximized window go back to where it was.
    #[verifier::opaque]
    pub open spec fn unmaximized(self, id: WindowId) -> ContextView {
        match self.window_index(id) {
            Some(i) => self.commit(i, self.staged(i).unmaximized()),
            None => self,
        }
    }

    /// Snaps a window to one half of its output, or releases it from the other
    /// half.
    #[verifier::opaque]
    pub open spec fn snapped_half(self, id: WindowId, side: SnapSide) -> ContextView {
        let c = self.output_followed(id);
        match (c.window_index(id), c.placement_output(id)) {
            (Some(i), Some(o)) => c.commit(
                i,
                c.staged(i).snapped(
                    snapped_to(side),
                    c.insets(c.windows[i]).content(half(o.usable_area(), side)),
                    c.rwm,
                ),
            ),
            _ => c,
        }
    }

    /// An output as the target of fullscreen, once the compositor announced it.
    pub open spec fn fullscreen_target(self, output: Option<OutputId>) -> Option<(ObjectId, OutputId)> {
        match output {
            Some(id) => match self.output(id) {
                Some(o) => match o.rwm_output {
                    Some(rwm_output) => Some((rwm_output, id)),
                    None => None,
                },
                None => None,
            },
            None => None,
        }
    }

    /// Ends fullscreen on a window. Its geometry is restored in the manage
    /// sequence that is asked for.
    #[verifier::opaque]
    pub open spec fn unfullscreened(self, id: WindowId) -> ContextView {
        match self.window_index(id) {
            Some(i) => self.commit(i, self.staged(i).fullscreen_left()).manage_dirty(),
            None => self,
        }
    }

    /// Makes the focused window fullscreen on the current output, or ends that.
    #[verifier::opaque]
    pub open spec fn fullscreen_toggled(self) -> ContextView {
        match self.focused_window {
            Some(id) => match self.window_index(id) {
                Some(i) => if self.windows[i].fullscreen == FullscreenState::Off {
                    self.commit(
                        i,
                        self.staged(i).fullscreen_asked(
                            self.windows[i].geometry(),
                            self.fullscreen_target(self.current_output),
                        ),
                    )
                } else {
                    self.unfullscreened(id)
                },
                None => self,
            },
            None => self,
        }
    }

    /// The output that a window goes fullscreen on: the one asked for, its own,
    /// the current one, or else the first.
    #[verifier::opaque]
    pub open spec fn fullscreen_output(self, id: WindowId, wanted: Option<OutputId>) -> Option<OutputId> {
        let own = match self.window(id) {
            Some(w) => self.live_output(w),
            None => None,
        };
        if wanted is Some && self.output_index(wanted->0) is Some {
            wanted
        } else if own is Some {
            own
        } else if self.current_output is Some && self.output_index(self.current_output->0) is Some {
            self.current_output
        } else if self.outputs.len() > 0 {
            Some(self.outputs[0].id)
        } else {
            None
        }
    }

    /// Makes a window fullscreen because it asked for it.
    #[verifier::opaque]
    pub open spec fn fullscreened(self, id: WindowId, wanted: Option<OutputId>) -> ContextView {
        let target = self.fullscreen_output(id, wanted);
        match self.window_index(id) {
            Some(i) => {
                let usable = match target {
                    Some(output) => match self.output(output) {
                        Some(o) => Some(o.usable_area()),
                        None => None,
                    },
                    None => None,
                };
                self.commit(
                    i,
                    self.staged(i).fullscreen_asked(
                        windowed_geometry(self.windows[i], usable),
                        self.fullscreen_target(target),
                    ),
                )
            },
            None => self,
        }
    }

    /// The window that gets the focus when a window of an output disappears:
    /// the most recently focused one that is visible there, or else the first
    /// visible one.
    #[verifier::opaque]
    pub open spec fn heir(self, output: OutputId) -> Option<WindowId> {
        let visible = visible_ids(self, self.windows, output);
        match first(self.focus_stack, among(visible)) {
            Some(k) => Some(self.focus_stack[k]),
            None => if visible.len() == 0 {
                None
            } else {
                Some(visible[0])
            },
        }
    }

    /// Moves the focus on because the focused window disappeared.
    #[verifier::opaque]
    pub open spec fn focus_passed_on(self, id: WindowId) -> ContextView {
        let own = match self.window(id) {
            Some(w) => self.live_output(w),
            None => None,
        };
        let output = if self.current_output is Some && self.output_index(
            self.current_output->0,
        ) is Some {
            self.current_output
        } else {
            own
        };
        let heir = match output {
            Some(output) => self.heir(output),
            None => None,
        };
        match heir {
            Some(window) => self.focus(window),
            None => self.keyboard_focus_cleared(),
        }
    }

    /// Hides a window, as the latest one hidden.
    #[verifier::opaque]
    pub open spec fn window_hidden(self, id: WindowId) -> ContextView {
        match self.window_index(id) {
            Some(i) => ContextView {
                next_minimize_seq: if self.next_minimize_seq == u64::MAX {
                    0
                } else {
                    (self.next_minimize_seq + 1) as u64
                },
                ..self.commit(i, self.staged(i).minimized(self.next_minimize_seq))
            },
            None => self,
        }.desktops_stale()
    }

    /// Hides a window and moves the focus on if it had it.
    #[verifier::opaque]
    pub open spec fn hide_window(self, id: WindowId) -> ContextView {
        if self.focused_window == Some(id) {
            self.window_hidden(id).focus_passed_on(id)
        } else {
            self.window_hidden(id)
        }
    }

    /// The output of a window that is sent elsewhere: its own, the current one,
    /// or else the first.
    pub open spec fn sending_output(self, id: WindowId) -> OutputId {
        let own = match self.window(id) {
            Some(w) => self.live_output(w),
            None => None,
        };
        match own {
            Some(output) => output,
            None => match self.current_output {
                Some(output) => output,
                None => self.output_ids()[0],
            },
        }
    }

    /// Sends the focused window to the output before or after its own.
    #[verifier::opaque]
    pub open spec fn sent_to_output(
        self,
        direction: Direction,
        scale: spec_fn(i64, i32, i32) -> i32,
    ) -> ContextView {
        let ids = self.output_ids();
        match self.focused_window {
            Some(id) => if ids.len() <= 1 {
                self
            } else {
                let place = place_of(ids, Some(self.sending_output(id)));
                self.sent_across(
                    id,
                    ids[place],
                    ids[step_around(place, ids.len() as int, direction)],
                    scale,
                )
            },
            None => self,
        }
    }

    /// Sends a window from one output to another. A fullscreen window becomes
    /// fullscreen there; any other keeps its place in proportion.
    #[verifier::opaque]
    pub open spec fn sent_across(
        self,
        id: WindowId,
        from: OutputId,
        to: OutputId,
        scale: spec_fn(i64, i32, i32) -> i32,
    ) -> ContextView {
        match (self.window(id), self.output(from), self.output(to)) {
            (Some(w), Some(old_output), Some(new_output)) => if from == to {
                self
            } else if w.fullscreen is Output {
                self.window_output_set(id, to).fullscreen_moved(id, to)
            } else {
                self.window_output_set(id, to).carried_across(
                    id,
                    w,
                    old_output.usable_area(),
                    new_output.usable_area(),
                    scale,
                )
            },
            _ => self,
        }
    }

    /// Makes a window fullscreen on another output than before.
    #[verifier::opaque]
    pub open spec fn fullscreen_moved(self, id: WindowId, to: OutputId) -> ContextView {
        match (self.window_index(id), self.fullscreen_target(Some(to))) {
            (Some(i), Some((rwm_output, output))) => self.commit(
                i,
                self.staged(i).fullscreen_entered(rwm_output, output),
            ),
            _ => self,
        }
    }

    /// Carries a window, which was `w`, over from one area to another.
    #[verifier::opaque]
    pub open spec fn carried_across(
        self,
        id: WindowId,
        w: WindowView,
        from: Area,
        to: Area,
        scale: spec_fn(i64, i32, i32) -> i32,
    ) -> ContextView {
        let resize = w.snap_state is Some || w.maximized || larger(w.width as int, 1) > to.2
            || larger(w.height as int, 1) > to.3;
        match self.window_index(id) {
            Some(i) => if from.2 <= 0 || from.3 <= 0 || to.2 <= 0 || to.3 <= 0 {
                self
            } else {
                self.commit(
                    i,
                    self.staged(i).carried_over(
                        carried(w.geometry(), from, to, resize, scale),
                        match w.pre_snap {
                            Some(saved) => if w.snap_state is Some {
                                Some(carried(saved, from, to, true, scale))
                            } else {
                                None
                            },
                            None => None,
                        },
                        resize,
                    ),
                )
            },
            None => self,
        }
    }
}

impl Context {
    fn place_to_put(&self, window_id: WindowId) -> (r: Option<Area>)
        ensures
            r == (match self@.placement_output(window_id) {
                Some(o) => Some(o.usable_area()),
                None => None,
            }),
    {
        proof {
            reveal(ContextView::placement_output);
        }
        let on: Option<OutputId> = match self.find_window(window_id) {
            Some(i) => self.output_for_window_rect(&self.windows[i]),
            None => None,
        };
        let target: Option<OutputId> = if on.is_some() {
            on
        } else {
            self.current_output
        };
        match target {
            Some(id) => match self.find_output(id) {
                Some(k) => Some(self.outputs[k].usable_area()),
                None => None,
            },
            None => None,
        }
    }

    fn insets_of(&self, window: &Window) -> (r: Insets)
        ensures
            r == self@.insets(window@),
    {
        let swallow: i32 = max_i32(window.swallow_top, 0);
        if window.decoration == Some(WindowDecoration::Ssd) {
            Insets {
                border: self.config.ui.border_width,
                titlebar: titlebar_height(&self.config.ui),
                swallow,
            }
        } else {
            Insets { border: 0, titlebar: 0, swallow }
        }
    }

    /// Make a window fill the usable area of its output
    pub fn maximize_window(&mut self, window_id: WindowId)
        ensures
            final(self)@ == old(self)@.maximized(window_id),
    {
        proof {
            reveal(ContextView::maximized);
        }
        self.update_window_output_from_position(window_id);
        let area: Area = match self.place_to_put(window_id) {
            Some(area) => area,
            None => return,
        };
        if let Some(i) = self.find_window(window_id) {
            let ghost before = self@;
            let place = self.insets_of(&self.windows[i]).content_in(area);
            self.windows[i].maximize_to(place, &mut self.requests);
            assert(self@ =~= before.commit(
                i as int,
                before.staged(i as int).maximized_to(place),
            ));
        }
    }

    /// Make a maximized window go back to where it was
    pub fn unmaximize_window(&mut self, window_id: WindowId)
        ensures
            final(self)@ == old(self)@.unmaximized(window_id),
    {
        proof {
            reveal(ContextView::unmaximized);
        }
        if let Some(i) = self.find_window(window_id) {
            let ghost before = self@;
            self.windows[i].unmaximize(&mut self.requests);
            assert(self@ =~= before.commit(i as int, before.staged(i as int).unmaximized()));
        }
    }

    /// Snap a window to one half of its output, or release it from the other
    /// half
    pub fn smart_snap_half(&mut self, window_id: WindowId, side: SnapSide)
        ensures
            final(self)@ == old(self)@.snapped_half(window_id, side),
    {
        proof {
            reveal(ContextView::snapped_half);
        }
        self.update_window_output_from_position(window_id);
        let area: Area = match self.place_to_put(window_id) {
            Some(area) => area,
            None => return,
        };
        if let Some(i) = self.find_window(window_id) {
            let ghost before = self@;
            let place = self.insets_of(&self.windows[i]).content_in(half_of(area, side));
            let target = match side {
                SnapSide::Left => SnapState::Left,
                SnapSide::Right => SnapState::Right,
            };
            let manager = self.rwm;
            self.windows[i].snap_to(target, place, manager, &mut self.requests);
            assert(self@ =~= before.commit(
                i as int,
                before.staged(i as int).snapped(target, place, manager),
            ));
        }
    }

    fn fullscreen_target(&self, output: Option<OutputId>) -> (r: Option<(ObjectId, OutputId)>)
        ensures
            r == self@.fullscreen_target(output),
    {
        match output {
            Some(id) => match self.find_output(id) {
                Some(k) => match self.outputs[k].rwm_output {
                    Some(rwm_output) => Some((rwm_output, id)),
                    None => None,
                },
                None => None,
            },
            None => None,
        }
    }

    /// End fullscreen on a window
    pub fn leave_fullscreen(&mut self, window_id: WindowId)
        ensures
            final(self)@ == old(self)@.unfullscreened(window_id),
    {
        proof {
            reveal(ContextView::unfullscreened);
        }
        if let Some(i) = self.find_window(window_id) {
            let ghost before = self@;
            self.windows[i].leave_fullscreen(&mut self.requests);
            assert(self@ =~= before.commit(i as int, before.staged(i as int).fullscreen_left()));
            self.manage_dirty();
        }
    }

    /// Toggle fullscreen for focused window
    pub fn toggle_fullscreen(&mut self)
        ensures
            final(self)@ == old(self)@.fullscreen_toggled(),
    {
        proof {
            reveal(ContextView::fullscreen_toggled);
        }
        let window_id: WindowId = match self.focused_window {
            Some(id) => id,
            None => return,
        };
        if let Some(i) = self.find_window(window_id) {
            if self.windows[i].fullscreen == FullscreenState::Off {
                let ghost before = self@;
                let target = self.fullscreen_target(self.current_output);
                let saved = self.windows[i].geometry();
                self.windows[i].ask_fullscreen(saved, target, &mut self.requests);
                assert(self@ =~= before.commit(
                    i as int,
                    before.staged(i as int).fullscreen_asked(saved, target),
                ));
            } else {
                self.leave_fullscreen(window_id);
            }
        }
    }

    fn fullscreen_output(&self, window_id: WindowId, wanted: Option<OutputId>) -> (r: Option<OutputId>)
        ensures
            r == self@.fullscreen_output(window_id, wanted),
    {
        proof {
            reveal(ContextView::fullscreen_output);
        }
        if let Some(id) = wanted {
            if self.find_output(id).is_some() {
                return wanted;
            }
        }
        if let Some(i) = self.find_window(window_id) {
            let own: Option<OutputId> = self.live_output(self.windows[i].output);
            assert(own == self@.live_output(self@.windows[i as int]));
            if own.is_some() {
                return own;
            }
        }
        if let Some(id) = self.current_output {
            if self.find_output(id).is_some() {
                return self.current_output;
            }
        }
        if self.outputs.len() > 0 {
            assert(self@.outputs[0] == self.outputs@[0]@);
            Some(self.outputs[0].id)
        } else {
            None
        }
    }

    /// Make a window fullscreen because it asked for it
    ///
    /// The client may leave the output open, meaning "let the compositor pick".
    pub fn fullscreen_window(&mut self, window_id: WindowId, wanted: Option<OutputId>)
        ensures
            final(self)@ == old(self)@.fullscreened(window_id, wanted),
    {
        proof {
            reveal(ContextView::fullscreened);
        }
        let output: Option<OutputId> = self.fullscreen_output(window_id, wanted);
        if let Some(i) = self.find_window(window_id) {
            let ghost before = self@;
            let usable: Option<Area> = match output {
                Some(id) => match self.find_output(id) {
                    Some(k) => Some(self.outputs[k].usable_area()),
                    None => None,
                },
                None => None,
            };
            let saved = windowed_geometry_of(&self.windows[i], usable);
            let target = self.fullscreen_target(output);
            self.windows[i].ask_fullscreen(saved, target, &mut self.requests);
            assert(self@ =~= before.commit(
                i as int,
                before.staged(i as int).fullscreen_asked(saved, target),
            ));
        }
    }

    fn heir(&self, output: OutputId) -> (r: Option<WindowId>)
        ensures
            r == self@.heir(output),
    {
        proof {
            reveal(ContextView::heir);
        }
        let visible: Vec<WindowId> = self.visible_windows(output);
        let ghost p = among(visible@);
        let mut k: usize = 0;
        while k < self.focus_stack.len()
            invariant
                k <= self.focus_stack@.len(),
                p == among(visible@),
                visible@ == visible_ids(self@, self@.windows, output),
                forall|j: int| 0 <= j < k ==> !p(#[trigger] self.focus_stack@[j]),
            decreases self.focus_stack@.len() - k,
        {
            let id: WindowId = self.focus_stack[k];
            let mut n: usize = 0;
            while n < visible.len()
                invariant
                    n <= visible@.len(),
                    k < self.focus_stack@.len(),
                    id == self.focus_stack@[k as int],
                    p == among(visible@),
                    visible@ == visible_ids(self@, self@.windows, output),
                    forall|j: int| 0 <= j < k ==> !p(#[trigger] self.focus_stack@[j]),
                    forall|j: int| 0 <= j < n ==> visible@[j] != id,
                decreases visible@.len() - n,
            {
                if visible[n] == id {
                    proof {
                        reveal(ContextView::heir);
                        assert(p(self.focus_stack@[k as int]));
                        lemma_first_is(self.focus_stack@, p, k as int);
                    }
                    return Some(id);
                }
                n = n + 1;
            }
            assert(!p(self.focus_stack@[k as int]));
            k = k + 1;
        }
        proof {
            lemma_first_none(self.focus_stack@, p);
        }
        if visible.len() == 0 {
            None
        } else {
            Some(visible[0])
        }
    }

    fn pass_focus_on(&mut self, window_id: WindowId)
        ensures
            final(self)@ == old(self)@.focus_passed_on(window_id),
    {
        proof {
            reveal(ContextView::focus_passed_on);
        }
        let own: Option<OutputId> = match self.find_window(window_id) {
            Some(i) => {
                let own: Option<OutputId> = self.live_output(self.windows[i].output);
                assert(own == self@.live_output(self@.windows[i as int]));
                own
            },
            None => None,
        };
        let current: Option<OutputId> = match self.current_output {
            Some(id) => if self.find_output(id).is_some() {
                Some(id)
            } else {
                own
            },
            None => own,
        };
        let heir: Option<WindowId> = match current {
            Some(output) => self.heir(output),
            None => None,
        };
        match heir {
            Some(id) => self.focus(id),
            None => self.clear_keyboard_focus(),
        }
    }

    fn put_away(&mut self, window_id: WindowId)
        ensures
            final(self)@ == old(self)@.window_hidden(window_id),
    {
        proof {
            reveal(ContextView::window_hidden);
        }
        if let Some(i) = self.find_window(window_id) {
            let ghost before = self@;
            let seq: u64 = self.next_minimize_seq;
            self.windows[i].minimize(seq, &mut self.requests);
            assert(self@ =~= before.commit(i as int, before.staged(i as int).minimized(seq)));
            self.next_minimize_seq = if seq == u64::MAX {
                0
            } else {
                seq + 1
            };
        }
        self.mark_all_desktops_dirty();
    }

    /// Hide a window and move the focus on if it had it
    pub fn hide_window(&mut self, window_id: WindowId)
        ensures
            final(self)@ == old(self)@.hide_window(window_id),
    {
        proof {
            reveal(ContextView::hide_window);
        }
        let was_focused = self.focused_window == Some(window_id);
        self.put_away(window_id);
        if was_focused {
            self.pass_focus_on(window_id);
        }
    }

    /// Send focused window to next/previous output
    pub fn send_to_output<F: Fn(i64, i32, i32) -> i32>(&mut self, direction: Direction, scale: &F)
        requires
            is_scaling(*scale),
        ensures
            final(self)@ == old(self)@.sent_to_output(direction, scaling(*scale)),
    {
        proof {
            reveal(ContextView::sent_to_output);
        }
        let window_id: WindowId = match self.focused_window {
            Some(id) => id,
            None => return,
        };
        let ids: Vec<OutputId> = self.all_output_ids();
        if ids.len() <= 1 {
            return;
        }
        let own: Option<OutputId> = match self.find_window(window_id) {
            Some(i) => {
                let own: Option<OutputId> = self.live_output(self.windows[i].output);
                assert(own == self@.live_output(self@.windows[i as int]));
                own
            },
            None => None,
        };
        let current: OutputId = match own {
            Some(id) => id,
            None => match self.current_output {
                Some(id) => id,
                None => ids[0],
            },
        };
        let place: usize = index_or_first(&ids, Some(current));
        let next: usize = step_index(place, ids.len(), direction);
        self.send_across(window_id, ids[place], ids[next], scale);
    }

    fn send_across<F: Fn(i64, i32, i32) -> i32>(
        &mut self,
        window_id: WindowId,
        from: OutputId,
        to: OutputId,
        scale: &F,
    )
        requires
            is_scaling(*scale),
        ensures
            final(self)@ == old(self)@.sent_across(window_id, from, to, scaling(*scale)),
    {
        proof {
            reveal(ContextView::sent_across);
        }
        if from == to {
            return;
        }
        let i: usize = match self.find_window(window_id) {
            Some(i) => i,
            None => return,
        };
        let old_area: Area = match self.find_output(from) {
            Some(k) => self.outputs[k].usable_area(),
            None => return,
        };
        let new_area: Area = match self.find_output(to) {
            Some(k) => self.outputs[k].usable_area(),
            None => return,
        };
        let ghost w = self@.windows[i as int];
        if let FullscreenState::Output(_) = self.windows[i].fullscreen {
            self.set_window_output(window_id, to);
            self.move_fullscreen(window_id, to);
            return;
        }
        let rect = self.windows[i].geometry();
        let snapped = self.windows[i].snap_state.is_some();
        let maximized = self.windows[i].maximized;
        let pre_snap = self.windows[i].pre_snap;
        self.set_window_output(window_id, to);
        self.carry_across(window_id, rect, snapped, maximized, pre_snap, old_area, new_area, scale, Ghost(w));
    }

    fn move_fullscreen(&mut self, window_id: WindowId, to: OutputId)
        ensures
            final(self)@ == old(self)@.fullscreen_moved(window_id, to),
    {
        proof {
            reveal(ContextView::fullscreen_moved);
        }
        if let Some(i) = self.find_window(window_id) {
            if let Some((rwm_output, output)) = self.fullscreen_target(Some(to)) {
                let ghost before = self@;
                self.windows[i].enter_fullscreen(rwm_output, output, &mut self.requests);
                assert(self@ =~= before.commit(
                    i as int,
                    before.staged(i as int).fullscreen_entered(rwm_output, output),
                ));
            }
        }
    }

    fn carry_across<F: Fn(i64, i32, i32) -> i32>(
        &mut self,
        window_id: WindowId,
        rect: SavedGeometry,
        snapped: bool,
        maximized: bool,
        pre_snap: Option<SavedGeometry>,
        from: Area,
        to: Area,
        scale: &F,
        Ghost(w): Ghost<WindowView>,
    )
        requires
            is_scaling(*scale),
            rect == w.geometry(),
            snapped == (w.snap_state is Some),
            maximized == w.maximized,
            pre_snap == w.pre_snap,
        ensures
            final(self)@ == old(self)@.carried_across(window_id, w, from, to, scaling(*scale)),
    {
        proof {
            reveal(ContextView::carried_across);
        }
        if from.2 <= 0 || from.3 <= 0 || to.2 <= 0 || to.3 <= 0 {
            return;
        }
        if let Some(i) = self.find_window(window_id) {
            let ghost before = self@;
            let resize = snapped || maximized || max_i32(rect.width, 1) > to.2 || max_i32(
                rect.height,
                1,
            ) > to.3;
            let place = carry_rect(rect, from, to, resize, scale);
            let mut remembered: Option<SavedGeometry> = None;
            if let Some(saved) = pre_snap {
                if snapped {
                    remembered = Some(carry_rect(saved, from, to, true, scale));
                }
            }
            self.windows[i].carry_over(place, remembered, resize, &mut self.requests);
            assert(self@ =~= before.commit(
                i as int,
                before.staged(i as int).carried_over(place, remembered, resize),
            ));
        }
    }
}

} // verus!
