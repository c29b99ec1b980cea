//! The minimized windows of an output, as icons of its desktop.

use vstd::prelude::*;
use crate::canoe::context::menus::{label, window_label};
use crate::canoe::context::{Context, ContextView};
use crate::canoe::desktop::{icon_views, DesktopIcon, DesktopIconView};
use crate::canoe::window::WindowView;
use crate::canoe::OutputId;
use crate::text::clone_opt;

verus! {

/// A list of windows with one more, behind those that were minimized before it
/// or at the same time.
pub open spec fn insert_by_seq(sorted: Seq<WindowView>, w: WindowView) -> Seq<WindowView>
    decreases sorted.len(),
{
    if sorted.len() == 0 || sorted.last().minimize_seq <= w.minimize_seq {
        sorted.push(w)
    } else {
        insert_by_seq(sorted.drop_last(), w).push(sorted.last())
    }
}

/// The minimized windows of an output, the one minimized first coming first.
pub open spec fn minimized_on(c: ContextView, windows: Seq<WindowView>, output: OutputId) -> Seq<WindowView>
    decreases windows.len(),
{
    if windows.len() == 0 {
        Seq::empty()
    } else {
        let earlier = minimized_on(c, windows.drop_last(), output);
        let w = windows.last();
        if w.hidden && c.live_output(w) == Some(output) {
            insert_by_seq(earlier, w)
        } else {
            earlier
        }
    }
}

/// The icon of a window.
pub open spec fn icon_of_window(w: WindowView) -> DesktopIconView {
    DesktopIconView { window_id: w.id, title: label(w), app_id: w.app_id, icon: None }
}

impl ContextView {
    /// The icons on the desktop of an output, in order.
    pub open spec fn minimized_icons(self, output: OutputId) -> Seq<DesktopIconView> {
        if self.output_index(output) is Some {
            minimized_on(self, self.windows, output).map_values(|w: WindowView| icon_of_window(w))
        } else {
            Seq::empty()
        }
    }

    /// The icons that the desktop of an output shows: none if they are switched
    /// off.
    pub open spec fn shown_icons(self, output: OutputId) -> Seq<DesktopIconView> {
        if self.config.ui.icons_enabled {
            self.minimized_icons(output)
        } else {
            Seq::empty()
        }
    }
}

/// Where the window goes is the only place at which it fits.
proof fn lemma_insert_at(sorted: Seq<WindowView>, w: WindowView, p: int)
    requires
        0 <= p <= sorted.len(),
        p > 0 ==> sorted[p - 1].minimize_seq <= w.minimize_seq,
        forall|j: int| p <= j < sorted.len() ==> (#[trigger] sorted[j]).minimize_seq > w.minimize_seq,
    ensures
        insert_by_seq(sorted, w) == sorted.insert(p, w),
    decreases sorted.len(),
{
    if p == sorted.len() {
        assert(sorted.insert(p, w) =~= sorted.push(w));
    } else {
        lemma_insert_at(sorted.drop_last(), w, p);
        assert(sorted.insert(p, w) =~= sorted.drop_last().insert(p, w).push(sorted.last()));
    }
}

/// Whether windows are in the order in which they were minimized.
pub open spec fn sorted_by_seq(s: Seq<WindowView>) -> bool {
    forall|i: int, j: int| 0 <= i <= j < s.len() ==> s[i].minimize_seq <= s[j].minimize_seq
}

proof fn lemma_insert_sorted(sorted: Seq<WindowView>, w: WindowView)
    requires
        sorted_by_seq(sorted),
    ensures
        sorted_by_seq(insert_by_seq(sorted, w)),
        insert_by_seq(sorted, w).len() == sorted.len() + 1,
        insert_by_seq(sorted, w).to_multiset() == sorted.to_multiset().insert(w),
        sorted.len() > 0 ==> insert_by_seq(sorted, w).last().minimize_seq == (if
            sorted.last().minimize_seq <= w.minimize_seq {
            w.minimize_seq
        } else {
            sorted.last().minimize_seq
        }),
    decreases sorted.len(),
{
    broadcast use vstd::seq_lib::group_to_multiset_ensures;

    if sorted.len() == 0 || sorted.last().minimize_seq <= w.minimize_seq {
    } else {
        let rest = sorted.drop_last();
        lemma_insert_sorted(rest, w);
        let inner = insert_by_seq(rest, w);
        assert(sorted =~= rest.push(sorted.last()));
        assert(inner.to_multiset().insert(sorted.last()) =~= sorted.to_multiset().insert(w));
        assert forall|i: int| 0 <= i < inner.len() implies (#[trigger] inner[i]).minimize_seq
            <= sorted.last().minimize_seq by {
            assert(inner[i].minimize_seq <= inner.last().minimize_seq);
            if rest.len() > 0 {
                assert(rest.last().minimize_seq <= sorted.last().minimize_seq);
            } else {
                assert(inner =~= seq![w]);
            }
        }
    }
}

proof fn lemma_minimized_sorted(c: ContextView, windows: Seq<WindowView>, output: OutputId)
    ensures
        sorted_by_seq(minimized_on(c, windows, output)),
        minimized_on(c, windows, output).to_multiset() == windows.filter(
            |w: WindowView| w.hidden && c.live_output(w) == Some(output),
        ).to_multiset(),
    decreases windows.len(),
{
    broadcast use vstd::seq_lib::group_to_multiset_ensures;

    let p = |w: WindowView| w.hidden && c.live_output(w) == Some(output);
    reveal(Seq::filter);
    if windows.len() > 0 {
        lemma_minimized_sorted(c, windows.drop_last(), output);
        lemma_insert_sorted(minimized_on(c, windows.drop_last(), output), windows.last());
    } else {
        assert(windows.filter(p) =~= Seq::empty());
    }
}

/// The desktop of an output shows exactly its minimized windows, each once, in
/// the order in which they were minimized.
pub proof fn law_icons_are_the_minimized_windows_in_order(c: ContextView, output: OutputId)
    ensures
        sorted_by_seq(minimized_on(c, c.windows, output)),
        minimized_on(c, c.windows, output).to_multiset() == c.windows.filter(
            |w: WindowView| w.hidden && c.live_output(w) == Some(output),
        ).to_multiset(),
{
    lemma_minimized_sorted(c, c.windows, output);
}

/// The windows at some places of a table.
pub open spec fn at_places(windows: Seq<WindowView>, places: Seq<usize>) -> Seq<WindowView> {
    places.map_values(|i: usize| windows[i as int])
}

impl Context {
    fn insertion_point(&self, order: &Vec<usize>, seq: u64) -> (p: usize)
        requires
            forall|j: int| 0 <= j < order@.len() ==> (#[trigger] order@[j]) < self.windows@.len(),
        ensures
            p <= order@.len(),
            p > 0 ==> at_places(self@.windows, order@)[p - 1].minimize_seq <= seq,
            forall|j: int|
                p <= j < order@.len() ==> (#[trigger] at_places(
                    self@.windows,
                    order@,
                )[j]).minimize_seq > seq,
    {
        let mut p: usize = order.len();
        while p > 0
            invariant
                p <= order@.len(),
                forall|j: int|
                    0 <= j < order@.len() ==> (#[trigger] order@[j]) < self.windows@.len(),
                forall|j: int|
                    p <= j < order@.len() ==> (#[trigger] at_places(
                        self@.windows,
                        order@,
                    )[j]).minimize_seq > seq,
            decreases p,
        {
            let i: usize = order[p - 1];
            assert(at_places(self@.windows, order@)[p - 1] == self.windows@[i as int]@);
            if self.windows[i].minimize_seq <= seq {
                return p;
            }
            p = p - 1;
        }
        p
    }

    fn minimized_order(&self, output: OutputId) -> (order: Vec<usize>)
        ensures
            forall|j: int| 0 <= j < order@.len() ==> (#[trigger] order@[j]) < self.windows@.len(),
            at_places(self@.windows, order@) == minimized_on(self@, self@.windows, output),
    {
        let mut order: Vec<usize> = Vec::new();
        let mut i: usize = 0;
        assert(at_places(self@.windows, order@) =~= minimized_on(
            self@,
            self@.windows.take(0),
            output,
        ));
        while i < self.windows.len()
            invariant
                i <= self.windows@.len(),
                forall|j: int|
                    0 <= j < order@.len() ==> (#[trigger] order@[j]) < self.windows@.len(),
                at_places(self@.windows, order@) == minimized_on(
                    self@,
                    self@.windows.take(i as int),
                    output,
                ),
            decreases self.windows@.len() - i,
        {
            assert(self@.windows.take(i + 1).drop_last() =~= self@.windows.take(i as int));
            assert(self@.windows[i as int] == self.windows@[i as int]@);
            let w = &self.windows[i];
            let own: Option<OutputId> = self.live_output(w.output);
            assert(own == self@.live_output(w@));
            if w.hidden && own == Some(output) {
                let p: usize = self.insertion_point(&order, w.minimize_seq);
                let ghost before = order@;
                order.insert(p, i);
                proof {
                    lemma_insert_at(at_places(self@.windows, before), w@, p as int);
                    assert(at_places(self@.windows, order@) =~= at_places(
                        self@.windows,
                        before,
                    ).insert(p as int, w@));
                }
            }
            i = i + 1;
        }
        assert(self@.windows.take(i as int) =~= self@.windows);
        order
    }

    /// Collect minimized windows for an output, sorted by minimize order.
    pub fn collect_minimized_icons(&self, output_id: OutputId) -> (r: Vec<DesktopIcon>)
        ensures
            icon_views(r@) == self@.minimized_icons(output_id),
    {
        let mut icons: Vec<DesktopIcon> = Vec::new();
        if self.find_output(output_id).is_none() {
            assert(icon_views(icons@) =~= Seq::empty());
            return icons;
        }
        let order: Vec<usize> = self.minimized_order(output_id);
        let ghost windows = at_places(self@.windows, order@);
        let mut k: usize = 0;
        while k < order.len()
            invariant
                k <= order@.len(),
                windows == at_places(self@.windows, order@),
                forall|j: int|
                    0 <= j < order@.len() ==> (#[trigger] order@[j]) < self.windows@.len(),
                icons@.len() == k,
                forall|j: int| 0 <= j < k ==> (#[trigger] icons@[j])@ == icon_of_window(windows[j]),
            decreases order@.len() - k,
        {
            let i: usize = order[k];
            assert(windows[k as int] == self.windows@[i as int]@);
            let w = &self.windows[i];
            icons.push(
                DesktopIcon {
                    window_id: w.id,
                    title: window_label(w),
                    app_id: clone_opt(&w.app_id),
                    icon: None,
                },
            );
            k = k + 1;
        }
        assert(icon_views(icons@) =~= self@.minimized_icons(output_id));
        icons
    }

    /// The icons that the desktop of an output shows
    pub fn desktop_icons(&self, output_id: OutputId) -> (r: Vec<DesktopIcon>)
        ensures
            icon_views(r@) == self@.shown_icons(output_id),
    {
        if self.config.ui.icons_enabled {
            self.collect_minimized_icons(output_id)
        } else {
            let icons: Vec<DesktopIcon> = Vec::new();
            assert(icon_views(icons@) =~= Seq::empty());
            icons
        }
    }
}

} // verus!
