//! Maximizing, snapping and moving a window, seen from the window.

use vstd::prelude::*;
use crate::canoe::output::Area;
use crate::canoe::scale::{is_scaling, scaled, scaling};
use crate::canoe::window::{
    to_object, FullscreenState, SavedGeometry, SnapState, Staged, Window, WindowView,
};
use crate::canoe::{OutputId, SeatId};
use crate::num::{clamp_i64, larger, max_i32, max_i64, min_i32, sat, smaller, to_i32, within};
use crate::protocol::{ObjectId, Request, Requests};

verus! {

/// What the decorations take from the area of a window: border on each side,
/// titlebar on top, and the part of the content that is swallowed.
#[derive(Debug, Clone, Copy, PartialEq, Eq, Structural)]
pub struct Insets {
    pub border: i32,
    pub titlebar: i32,
    pub swallow: i32,
}

impl Insets {
    /// Where the content goes when window and decorations fill an area.
    pub open spec fn content(self, area: Area) -> SavedGeometry {
        let (ax, ay, aw, ah) = area;
        SavedGeometry {
            x: sat(ax + self.border),
            y: sat(ay + self.border + self.titlebar - self.swallow),
            width: sat(larger(aw - self.border * 2, 1)),
            height: sat(larger(ah - self.border * 2 - self.titlebar + self.swallow, 1)),
        }
    }

    /// Where the content goes when window and decorations fill an area
    pub fn content_in(&self, area: Area) -> (r: SavedGeometry)
        ensures
            r == self.content(area),
    {
        let (ax, ay, aw, ah): (i32, i32, i32, i32) = area;
        let border: i64 = self.border as i64;
        let titlebar: i64 = self.titlebar as i64;
        let swallow: i64 = self.swallow as i64;
        SavedGeometry {
            x: to_i32(ax as i64 + border),
            y: to_i32(ay as i64 + border + titlebar - swallow),
            width: to_i32(max_i64(aw as i64 - border * 2, 1)),
            height: to_i32(max_i64(ah as i64 - border * 2 - titlebar + swallow, 1)),
        }
    }
}

/// Carries a rectangle over from one area to another, in proportion, and keeps
/// it inside the new area. The size stays unless it has to change.
pub open spec fn carried(
    rect: SavedGeometry,
    from: Area,
    to: Area,
    resize: bool,
    scale: spec_fn(i64, i32, i32) -> i32,
) -> SavedGeometry {
    let (ox, oy, ow, oh) = from;
    let (nx, ny, nw, nh) = to;
    let rect_w = larger(rect.width as int, 1) as i32;
    let rect_h = larger(rect.height as int, 1) as i32;
    let wanted_w = if resize {
        scale(rect_w as i64, ow, nw)
    } else {
        rect_w
    };
    let wanted_h = if resize {
        scale(rect_h as i64, oh, nh)
    } else {
        rect_h
    };
    let new_w = smaller(larger(wanted_w as int, 1), nw as int);
    let new_h = smaller(larger(wanted_h as int, 1), nh as int);
    let x = nx + scale((rect.x - ox) as i64, ow, nw);
    let y = ny + scale((rect.y - oy) as i64, oh, nh);
    SavedGeometry {
        x: sat(within(x, nx as int, nx + larger(nw - new_w, 0))),
        y: sat(within(y, ny as int, ny + larger(nh - new_h, 0))),
        width: new_w as i32,
        height: new_h as i32,
    }
}

/// Carries a rectangle over from one area to another
pub fn carry_rect<F: Fn(i64, i32, i32) -> i32>(
    rect: SavedGeometry,
    from: Area,
    to: Area,
    resize: bool,
    scale: &F,
) -> (r: SavedGeometry)
    requires
        is_scaling(*scale),
    ensures
        r == carried(rect, from, to, resize, scaling(*scale)),
{
    let (ox, oy, ow, oh): (i32, i32, i32, i32) = from;
    let (nx, ny, nw, nh): (i32, i32, i32, i32) = to;
    let rect_w: i32 = max_i32(rect.width, 1);
    let rect_h: i32 = max_i32(rect.height, 1);
    let mut new_w: i32 = rect_w;
    let mut new_h: i32 = rect_h;
    if resize {
        new_w = scaled(scale, rect_w as i64, ow, nw);
        new_h = scaled(scale, rect_h as i64, oh, nh);
    }
    new_w = min_i32(max_i32(new_w, 1), nw);
    new_h = min_i32(max_i32(new_h, 1), nh);
    let x: i64 = nx as i64 + scaled(scale, rect.x as i64 - ox as i64, ow, nw) as i64;
    let y: i64 = ny as i64 + scaled(scale, rect.y as i64 - oy as i64, oh, nh) as i64;
    let max_x: i64 = nx as i64 + max_i64(nw as i64 - new_w as i64, 0);
    let max_y: i64 = ny as i64 + max_i64(nh as i64 - new_h as i64, 0);
    SavedGeometry {
        x: to_i32(clamp_i64(x, nx as i64, max_x)),
        y: to_i32(clamp_i64(y, ny as i64, max_y)),
        width: new_w,
        height: new_h,
    }
}

impl Staged {
    /// Fills `place`, remembering where the window was.
    #[verifier::opaque]
    pub open spec fn maximized_to(self, place: SavedGeometry) -> Staged {
        let w = self.window;
        let s = self.with(
            WindowView {
                pre_snap: if !w.maximized && w.pre_snap is None {
                    Some(w.geometry())
                } else {
                    w.pre_snap
                },
                snap_state: Some(SnapState::Maximized),
                floating: true,
                ..w
            },
        ).restore(place);
        s.with(WindowView { maximized: true, ..s.window }).inform_maximized()
    }

    /// Goes back to where the window was before.
    #[verifier::opaque]
    pub open spec fn unmaximized(self) -> Staged {
        let s = self.with(WindowView { maximized: false, ..self.window }).restore_pre_snap();
        s.with(WindowView { snap_state: None, ..s.window }).inform_unmaximized()
    }

    /// Gives up being maximized or snapped because the window is about to be
    /// moved. It gets its former size back and stays under the pointer, which
    /// keeps its place within the window in proportion.
    #[verifier::opaque]
    pub open spec fn unmaximized_for_move(
        self,
        pointer_x: i32,
        pointer_y: i32,
        adjust_y: bool,
        scale: spec_fn(i64, i32, i32) -> i32,
    ) -> Staged {
        let w = self.window;
        if !w.maximized && w.snap_state is None {
            self
        } else {
            let s = self.with(
                WindowView { pre_snap: None, maximized: false, snap_state: None, ..w },
            );
            let s = match w.pre_snap {
                Some(saved) => {
                    let swallow = larger(w.swallow_top as int, 0);
                    let x = pointer_x - scale(
                        (pointer_x - w.x) as i64,
                        larger(w.width as int, 1) as i32,
                        saved.width,
                    );
                    let y = if adjust_y {
                        pointer_y - scale(
                            (pointer_y - (w.y - swallow)) as i64,
                            larger(w.height as int, 1) as i32,
                            saved.height,
                        )
                    } else {
                        w.y as int
                    };
                    s.propose_dimensions(saved.width, saved.height).set_position(sat(x), sat(y))
                },
                None => s,
            };
            if w.maximized {
                s.inform_unmaximized()
            } else {
                s
            }
        }
    }

    /// Snaps to one half, or goes back when it is on the other half already.
    #[verifier::opaque]
    pub open spec fn snapped(
        self,
        target: SnapState,
        place: SavedGeometry,
        manager: Option<ObjectId>,
    ) -> Staged {
        if self.window.snap_state == Some(target) {
            self
        } else if self.window.snap_state == Some(target.opposite()) {
            let s = self.restore_pre_snap();
            s.with(WindowView { snap_state: None, ..s.window })
        } else {
            self.unmaximized_to_snap().snap_remembered().fullscreen_dropped(
                manager,
            ).clear_maximized_without_restore().snap_placed(target, place)
        }
    }

    /// Gives up being maximized on the way to a half; what to go back to is
    /// kept.
    #[verifier::opaque]
    pub open spec fn unmaximized_to_snap(self) -> Staged {
        if self.window.snap_state == Some(SnapState::Maximized) {
            let s = match self.window.pre_snap {
                Some(saved) => self.restore(saved),
                None => self,
            };
            let s = s.with(WindowView { maximized: false, ..s.window }).inform_unmaximized();
            s.with(WindowView { snap_state: None, ..s.window })
        } else {
            self
        }
    }

    /// Remembers where to go back to, unless that is known already: where the
    /// window was before it was fullscreen, or else where it is.
    #[verifier::opaque]
    pub open spec fn snap_remembered(self) -> Staged {
        let w = self.window;
        let before = if w.fullscreen != FullscreenState::Off && w.pre_fullscreen is Some {
            w.pre_fullscreen
        } else {
            Some(w.geometry())
        };
        self.with(
            WindowView {
                pre_snap: if w.pre_snap is None {
                    before
                } else {
                    w.pre_snap
                },
                ..w
            },
        )
    }

    /// Ends fullscreen for good, if the window is fullscreen.
    #[verifier::opaque]
    pub open spec fn fullscreen_dropped(self, manager: Option<ObjectId>) -> Staged {
        if self.window.fullscreen != FullscreenState::Off {
            let s = self.exit_fullscreen();
            Staged {
                window: WindowView { pending_unfullscreen_restore: false, ..s.window },
                requests: to_object(
                    s.requests,
                    manager,
                    |manager: ObjectId| Request::ManageDirty { manager },
                ),
            }
        } else {
            self
        }
    }

    #[verifier::opaque]
    pub open spec fn snap_placed(self, target: SnapState, place: SavedGeometry) -> Staged {
        let s = self.with(WindowView { floating: true, ..self.window }).restore(place);
        s.with(WindowView { snap_state: Some(target), ..s.window })
    }

    /// Comes to another output.
    #[verifier::opaque]
    pub open spec fn carried_over(
        self,
        place: SavedGeometry,
        pre_snap: Option<SavedGeometry>,
        resize: bool,
    ) -> Staged {
        let w = self.window;
        let s = self.with(
            WindowView {
                pre_snap: if pre_snap is Some {
                    pre_snap
                } else {
                    w.pre_snap
                },
                ..w
            },
        ).set_position(place.x, place.y);
        if resize {
            s.propose_dimensions(place.width, place.height)
        } else {
            s
        }
    }

    /// Goes fullscreen on an output.
    #[verifier::opaque]
    pub open spec fn fullscreen_entered(self, rwm_output: ObjectId, output: OutputId) -> Staged {
        let s = self.fullscreen_on(rwm_output);
        s.with(WindowView { fullscreen: FullscreenState::Output(output), ..s.window })
    }

    /// Gets ready for an interactive move.
    #[verifier::opaque]
    pub open spec fn move_started(
        self,
        seat: SeatId,
        pointer_x: i32,
        pointer_y: i32,
        adjust_y: bool,
        scale: spec_fn(i64, i32, i32) -> i32,
    ) -> Staged {
        let s = self.unmaximized_for_move(pointer_x, pointer_y, adjust_y, scale);
        s.with(WindowView { floating: true, ..s.window }).start_move(seat)
    }
}

impl Window {
    /// Fill `place`, remembering where the window was
    pub fn maximize_to(&mut self, place: SavedGeometry, requests: &mut Requests)
        ensures
            final(self).staged(final(requests)) == old(self).staged(old(requests)).maximized_to(
                place,
            ),
    {
        proof {
            reveal(Staged::maximized_to);
        }
        let ghost w = self@;
        if !self.maximized && self.pre_snap.is_none() {
            self.pre_snap = Some(self.geometry());
        }
        self.snap_state = Some(SnapState::Maximized);
        self.floating = true;
        assert(self@ == WindowView {
            pre_snap: if !w.maximized && w.pre_snap is None {
                Some(w.geometry())
            } else {
                w.pre_snap
            },
            snap_state: Some(SnapState::Maximized),
            floating: true,
            ..w
        });
        self.restore(place, requests);
        let ghost w = self@;
        self.maximized = true;
        assert(self@ == WindowView { maximized: true, ..w });
        self.inform_maximized(requests);
    }

    /// Go back to where the window was before
    pub fn unmaximize(&mut self, requests: &mut Requests)
        ensures
            final(self).staged(final(requests)) == old(self).staged(old(requests)).unmaximized(),
    {
        proof {
            reveal(Staged::unmaximized);
        }
        self.maximized = false;
        assert(self@ == WindowView { maximized: false, ..old(self)@ });
        self.restore_pre_snap(requests);
        let ghost w = self@;
        self.snap_state = None;
        assert(self@ == WindowView { snap_state: None, ..w });
        self.inform_unmaximized(requests);
    }

    /// Give up being maximized or snapped because the window is about to be
    /// moved
    pub fn unmaximize_for_move<F: Fn(i64, i32, i32) -> i32>(
        &mut self,
        pointer_x: i32,
        pointer_y: i32,
        adjust_y: bool,
        scale: &F,
        requests: &mut Requests,
    )
        requires
            is_scaling(*scale),
        ensures
            final(self).staged(final(requests)) == old(self).staged(
                old(requests),
            ).unmaximized_for_move(pointer_x, pointer_y, adjust_y, scaling(*scale)),
    {
        proof {
            reveal(Staged::unmaximized_for_move);
        }
        let was_maximized = self.maximized;
        if !was_maximized && self.snap_state.is_none() {
            return;
        }
        let saved: Option<SavedGeometry> = self.pre_snap;
        self.pre_snap = None;
        self.maximized = false;
        self.snap_state = None;
        if let Some(saved) = saved {
            let swallow_top: i32 = max_i32(self.swallow_top, 0);
            let cur_w: i32 = max_i32(self.width, 1);
            let cur_h: i32 = max_i32(self.height, 1);
            let off_x: i32 = scaled(
                scale,
                pointer_x as i64 - self.x as i64,
                cur_w,
                saved.width,
            );
            let new_x: i64 = pointer_x as i64 - off_x as i64;
            let new_y: i64 = if adjust_y {
                let off_y: i32 = scaled(
                    scale,
                    pointer_y as i64 - (self.y as i64 - swallow_top as i64),
                    cur_h,
                    saved.height,
                );
                pointer_y as i64 - off_y as i64
            } else {
                self.y as i64
            };
            self.propose_dimensions(saved.width, saved.height, requests);
            self.set_position(to_i32(new_x), to_i32(new_y), requests);
        }
        if was_maximized {
            self.inform_unmaximized(requests);
        }
    }

    fn unmaximize_to_snap(&mut self, requests: &mut Requests)
        ensures
            final(self).staged(final(requests)) == old(self).staged(
                old(requests),
            ).unmaximized_to_snap(),
    {
        proof {
            reveal(Staged::unmaximized_to_snap);
        }
        if self.snap_state == Some(SnapState::Maximized) {
            if let Some(saved) = self.pre_snap {
                self.restore(saved, requests);
            }
            let ghost w = self@;
            self.maximized = false;
            assert(self@ == WindowView { maximized: false, ..w });
            self.inform_unmaximized(requests);
            let ghost w = self@;
            self.snap_state = None;
            assert(self@ == WindowView { snap_state: None, ..w });
        }
    }

    fn remember_for_snap(&mut self, requests: &mut Requests)
        ensures
            final(self).staged(final(requests)) == old(self).staged(
                old(requests),
            ).snap_remembered(),
    {
        proof {
            reveal(Staged::snap_remembered);
        }
        if self.pre_snap.is_none() {
            if self.fullscreen != FullscreenState::Off && self.pre_fullscreen.is_some() {
                self.pre_snap = self.pre_fullscreen;
            } else {
                self.pre_snap = Some(self.geometry());
            }
        }
    }

    fn drop_fullscreen(&mut self, manager: Option<ObjectId>, requests: &mut Requests)
        ensures
            final(self).staged(final(requests)) == old(self).staged(
                old(requests),
            ).fullscreen_dropped(manager),
    {
        proof {
            reveal(Staged::fullscreen_dropped);
        }
        if self.fullscreen != FullscreenState::Off {
            self.exit_fullscreen(requests);
            self.pending_unfullscreen_restore = false;
            if let Some(manager) = manager {
                requests.push(Request::ManageDirty { manager });
            }
        }
    }

    fn place_snapped(&mut self, target: SnapState, place: SavedGeometry, requests: &mut Requests)
        ensures
            final(self).staged(final(requests)) == old(self).staged(old(requests)).snap_placed(
                target,
                place,
            ),
    {
        proof {
            reveal(Staged::snap_placed);
        }
        self.floating = true;
        assert(self@ == WindowView { floating: true, ..old(self)@ });
        self.restore(place, requests);
        let ghost w = self@;
        self.snap_state = Some(target);
        assert(self@ == WindowView { snap_state: Some(target), ..w });
    }

    /// Snap to one half, or go back when it is on the other half already
    pub fn snap_to(&mut self, target: SnapState, place: SavedGeometry, manager: Option<ObjectId>, requests: &mut Requests)
        ensures
            final(self).staged(final(requests)) == old(self).staged(old(requests)).snapped(
                target,
                place,
                manager,
            ),
    {
        proof {
            reveal(Staged::snapped);
        }
        if self.snap_state == Some(target) {
            return;
        }
        if self.snap_state == Some(target.opposite()) {
            self.restore_pre_snap(requests);
            self.snap_state = None;
            return;
        }
        self.unmaximize_to_snap(requests);
        self.remember_for_snap(requests);
        self.drop_fullscreen(manager, requests);
        self.clear_maximized_without_restore(requests);
        self.place_snapped(target, place, requests);
    }

    /// Come to another output
    pub fn carry_over(&mut self, place: SavedGeometry, pre_snap: Option<SavedGeometry>, resize: bool, requests: &mut Requests)
        ensures
            final(self).staged(final(requests)) == old(self).staged(old(requests)).carried_over(
                place,
                pre_snap,
                resize,
            ),
    {
        proof {
            reveal(Staged::carried_over);
        }
        if pre_snap.is_some() {
            self.pre_snap = pre_snap;
        }
        self.set_position(place.x, place.y, requests);
        if resize {
            self.propose_dimensions(place.width, place.height, requests);
        }
    }

    /// Go fullscreen on an output
    pub fn enter_fullscreen(&mut self, rwm_output: ObjectId, output: OutputId, requests: &mut Requests)
        ensures
            final(self).staged(final(requests)) == old(self).staged(
                old(requests),
            ).fullscreen_entered(rwm_output, output),
    {
        proof {
            reveal(Staged::fullscreen_entered);
        }
        self.fullscreen_on(rwm_output, requests);
        self.fullscreen = FullscreenState::Output(output);
    }

    /// Get ready for an interactive move
    pub fn begin_move<F: Fn(i64, i32, i32) -> i32>(
        &mut self,
        seat: SeatId,
        pointer_x: i32,
        pointer_y: i32,
        adjust_y: bool,
        scale: &F,
        requests: &mut Requests,
    )
        requires
            is_scaling(*scale),
        ensures
            final(self).staged(final(requests)) == old(self).staged(old(requests)).move_started(
                seat,
                pointer_x,
                pointer_y,
                adjust_y,
                scaling(*scale),
            ),
    {
        proof {
            reveal(Staged::move_started);
        }
        self.unmaximize_for_move(pointer_x, pointer_y, adjust_y, scale, requests);
        self.floating = true;
        self.start_move(seat, requests);
    }
}

/// Content and decorations together fill the area they are put in, edge by edge,
/// where there is room for them.
pub proof fn law_content_and_decorations_fill_the_area(insets: Insets, area: Area)
    requires
        area.2 - insets.border * 2 >= 1,
        area.3 - insets.border * 2 - insets.titlebar + insets.swallow >= 1,
        0 <= insets.border,
        0 <= insets.titlebar,
        i32::MIN <= area.0 && area.0 + area.2 <= i32::MAX,
        i32::MIN <= area.1 + insets.border + insets.titlebar - insets.swallow,
        area.1 + area.3 <= i32::MAX,
        area.3 - insets.border * 2 - insets.titlebar + insets.swallow <= i32::MAX,
    ensures
        ({
            let place = insets.content(area);
            &&& place.x - insets.border == area.0
            &&& place.x + place.width + insets.border == area.0 + area.2
            &&& place.y + insets.swallow - insets.titlebar - insets.border == area.1
            &&& place.y + place.height + insets.border == area.1 + area.3
        }),
{
}

/// A rectangle that is carried over lies inside the new area, wherever it came
/// from.
pub proof fn law_carried_rect_lies_inside(
    rect: SavedGeometry,
    from: Area,
    to: Area,
    resize: bool,
    scale: spec_fn(i64, i32, i32) -> i32,
)
    requires
        to.2 > 0,
        to.3 > 0,
        to.0 + to.2 <= i32::MAX,
        to.1 + to.3 <= i32::MAX,
    ensures
        ({
            let r = carried(rect, from, to, resize, scale);
            &&& to.0 <= r.x && r.x + r.width <= to.0 + to.2
            &&& to.1 <= r.y && r.y + r.height <= to.1 + to.3
            &&& r.width >= 1
            &&& r.height >= 1
        }),
{
}

/// A rectangle that fills its area and is carried over with its size fills the
/// new area, for any scaling that takes nothing to nothing and all to all.
pub proof fn law_filling_rect_fills_the_new_area(
    from: Area,
    to: Area,
    scale: spec_fn(i64, i32, i32) -> i32,
)
    requires
        from.2 > 0,
        from.3 > 0,
        to.2 > 0,
        to.3 > 0,
        scale(0, from.2, to.2) == 0,
        scale(0, from.3, to.3) == 0,
        scale(from.2 as i64, from.2, to.2) == to.2,
        scale(from.3 as i64, from.3, to.3) == to.3,
    ensures
        ({
            let rect = SavedGeometry { x: from.0, y: from.1, width: from.2, height: from.3 };
            let r = carried(rect, from, to, true, scale);
            (r.x, r.y, r.width, r.height) == to
        }),
{
}

/// With its size, a rectangle that is carried over takes the same part of the new
/// area as it took of the old one, at least a pixel and at most all of it.
/// Without, it keeps its size if the new area has room for it.
pub proof fn law_carried_size_keeps_its_proportion(
    rect: SavedGeometry,
    from: Area,
    to: Area,
    scale: spec_fn(i64, i32, i32) -> i32,
)
    requires
        rect.width >= 1,
        rect.height >= 1,
        to.2 > 0,
        to.3 > 0,
    ensures
        ({
            let r = carried(rect, from, to, true, scale);
            let wide = scale(rect.width as i64, from.2, to.2);
            let high = scale(rect.height as i64, from.3, to.3);
            &&& 1 <= wide <= to.2 ==> r.width == wide
            &&& wide < 1 ==> r.width == 1
            &&& wide > to.2 ==> r.width == to.2
            &&& 1 <= high <= to.3 ==> r.height == high
            &&& high < 1 ==> r.height == 1
            &&& high > to.3 ==> r.height == to.3
        }),
        ({
            let r = carried(rect, from, to, false, scale);
            &&& rect.width <= to.2 ==> r.width == rect.width
            &&& rect.width > to.2 ==> r.width == to.2
            &&& rect.height <= to.3 ==> r.height == rect.height
            &&& rect.height > to.3 ==> r.height == to.3
        }),
{
}

/// A rectangle that is carried over is as far into the new area, in proportion,
/// as it was into the old one, unless it would stick out.
pub proof fn law_carried_place_keeps_its_proportion(
    rect: SavedGeometry,
    from: Area,
    to: Area,
    resize: bool,
    scale: spec_fn(i64, i32, i32) -> i32,
)
    requires
        to.2 > 0,
        to.3 > 0,
        to.0 + to.2 <= i32::MAX,
        to.1 + to.3 <= i32::MAX,
    ensures
        ({
            let r = carried(rect, from, to, resize, scale);
            let right = scale((rect.x - from.0) as i64, from.2, to.2);
            let down = scale((rect.y - from.1) as i64, from.3, to.3);
            &&& 0 <= right && right + r.width <= to.2 ==> r.x == to.0 + right
            &&& right < 0 ==> r.x == to.0
            &&& right + r.width > to.2 ==> r.x + r.width == to.0 + to.2 || right < 0
            &&& 0 <= down && down + r.height <= to.3 ==> r.y == to.1 + down
            &&& down < 0 ==> r.y == to.1
            &&& down + r.height > to.3 ==> r.y + r.height == to.1 + to.3 || down < 0
        }),
{
}

/// A window that is given up being maximized or snapped for a move gets its former
/// size back, and the pointer is as far into it, in proportion, as it was.
pub proof fn law_moved_window_stays_under_the_pointer(
    s: Staged,
    pointer_x: i32,
    pointer_y: i32,
    scale: spec_fn(i64, i32, i32) -> i32,
)
    requires
        s.window.maximized || s.window.snap_state is Some,
        s.window.pre_snap is Some,
        s.window.width > 0,
        s.window.height > 0,
        s.window.swallow_top == 0,
    ensures
        ({
            let w = s.window;
            let saved = w.pre_snap->0;
            let right = scale((pointer_x - w.x) as i64, w.width, saved.width);
            let down = scale((pointer_y - w.y) as i64, w.height, saved.height);
            let moved = s.unmaximized_for_move(pointer_x, pointer_y, true, scale).window;
            let level = s.unmaximized_for_move(pointer_x, pointer_y, false, scale).window;
            &&& i32::MIN <= pointer_x - right <= i32::MAX ==> moved.x + right == pointer_x
                && level.x + right == pointer_x
            &&& i32::MIN <= pointer_y - down <= i32::MAX ==> moved.y + down == pointer_y
            &&& level.y == w.y
            &&& moved.proposed_width == larger(saved.width as int, w.min_width as int)
            &&& moved.proposed_height == larger(saved.height as int, w.min_height as int)
            &&& level.proposed_width == moved.proposed_width
            &&& level.proposed_height == moved.proposed_height
            &&& !moved.maximized && moved.snap_state is None && moved.pre_snap is None
            &&& !level.maximized && level.snap_state is None && level.pre_snap is None
        }),
{
    reveal(Staged::unmaximized_for_move);
    reveal(Staged::set_position);
    reveal(Staged::propose_dimensions);
    reveal(Staged::propose_raw);
    reveal(Staged::inform_unmaximized);
}

/// A window that is neither maximized nor snapped is left as it is before a move.
pub proof fn law_free_window_is_moved_as_it_is(
    s: Staged,
    pointer_x: i32,
    pointer_y: i32,
    adjust_y: bool,
    scale: spec_fn(i64, i32, i32) -> i32,
)
    requires
        !s.window.maximized,
        s.window.snap_state is None,
    ensures
        s.unmaximized_for_move(pointer_x, pointer_y, adjust_y, scale) == s,
{
    reveal(Staged::unmaximized_for_move);
}

} // verus!
