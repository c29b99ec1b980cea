//! Which window the focus goes to.

use vstd::prelude::*;
use crate::binding::action::Direction;
use crate::canoe::context::focus::{is_id, place_of, step_around, visible_ids};
use crate::canoe::context::laws::{law_focused_window_comes_first, lemma_same_places};
use crate::canoe::context::place_laws::follows;
use crate::canoe::context::placement::among;
use crate::canoe::context::{is_output, is_window, ContextView};
use crate::canoe::window::{Staged, WindowView};
use crate::canoe::{OutputId, SeatId, WindowId};
use crate::protocol::{ObjectId, Request};
use crate::search::{
    law_leaving_out_keeps_the_order, lemma_first, lemma_first_is, lemma_first_none, without,
};

verus! {

/// Whether a window with this id is to be seen on an output: it is not hidden,
/// and it does not belong to another output that still exists.
pub open spec fn seen(c: ContextView, id: WindowId, output: OutputId) -> bool {
    exists|i: int|
        0 <= i < c.windows.len() && (#[trigger] c.windows[i]).id == id && seen_at(c, i, output)
}

/// Whether the window at a place of the table is to be seen on an output.
pub open spec fn seen_at(c: ContextView, i: int, output: OutputId) -> bool {
    let w = c.windows[i];
    &&& !w.hidden
    &&& w.output is None || w.output == Some(output) || forall|k: int|
        0 <= k < c.outputs.len() ==> Some((#[trigger] c.outputs[k]).id) != w.output
}

/// Whether no two windows have the same id.
pub open spec fn distinct_windows(c: ContextView) -> bool {
    forall|i: int, j: int|
        0 <= i < c.windows.len() && 0 <= j < c.windows.len() && i != j ==> (
        #[trigger] c.windows[i]).id != (#[trigger] c.windows[j]).id
}

proof fn lemma_seen_at(c: ContextView, i: int, output: OutputId)
    requires
        c.output(output) is Some,
    ensures
        seen_at(c, i, output) == c.visible_on(c.windows[i], output),
{
    let w = c.windows[i];
    if let Some(own) = w.output {
        lemma_first(c.outputs, is_output(own));
        if c.output_index(own) is Some {
            let k = c.output_index(own)->0;
            assert(is_output(own)(c.outputs[k]));
        } else {
            assert forall|k: int| 0 <= k < c.outputs.len() implies Some(
                (#[trigger] c.outputs[k]).id,
            ) != w.output by {
                assert(!is_output(own)(c.outputs[k]));
            }
        }
    }
}

/// The visible windows among the first `n`, and how they go on.
proof fn lemma_visible_prefix(c: ContextView, n: int, output: OutputId)
    requires
        0 <= n <= c.windows.len(),
    ensures
        ({
            let some = visible_ids(c, c.windows.take(n), output);
            let all = visible_ids(c, c.windows, output);
            some.len() <= all.len() && some == all.take(some.len() as int)
        }),
    decreases c.windows.len() - n,
{
    let all = visible_ids(c, c.windows, output);
    if n < c.windows.len() {
        lemma_visible_prefix(c, n + 1, output);
        assert(c.windows.take(n + 1).drop_last() =~= c.windows.take(n));
        let some = visible_ids(c, c.windows.take(n), output);
        let more = visible_ids(c, c.windows.take(n + 1), output);
        assert(some =~= more.take(some.len() as int));
        assert(some =~= all.take(some.len() as int));
    } else {
        assert(c.windows.take(n) =~= c.windows);
        assert(all =~= all.take(all.len() as int));
    }
}

/// How many windows before a place are visible.
spec fn rank(c: ContextView, i: int, output: OutputId) -> int {
    visible_ids(c, c.windows.take(i), output).len() as int
}

/// A visible window stands in the list of those behind the ones before it.
proof fn lemma_rank(c: ContextView, i: int, output: OutputId)
    requires
        0 <= i < c.windows.len(),
        c.output(output) is Some,
        seen_at(c, i, output),
    ensures
        0 <= rank(c, i, output) < visible_ids(c, c.windows, output).len(),
        visible_ids(c, c.windows, output)[rank(c, i, output)] == c.windows[i].id,
        rank(c, i + 1, output) == rank(c, i, output) + 1,
{
    lemma_seen_at(c, i, output);
    lemma_visible_prefix(c, i + 1, output);
    assert(c.windows.take(i + 1).drop_last() =~= c.windows.take(i));
    assert(c.windows.take(i + 1).last() == c.windows[i]);
    let all = visible_ids(c, c.windows, output);
    let more = visible_ids(c, c.windows.take(i + 1), output);
    assert(more == all.take(more.len() as int));
    assert(more[more.len() - 1] == c.windows[i].id);
}

/// Windows that are not to be seen do not count.
proof fn lemma_rank_skips(c: ContextView, i: int, j: int, output: OutputId)
    requires
        0 <= i <= j <= c.windows.len(),
        c.output(output) is Some,
        forall|k: int| i <= k < j ==> !#[trigger] seen_at(c, k, output),
    ensures
        rank(c, j, output) == rank(c, i, output),
    decreases j - i,
{
    if i < j {
        lemma_rank_skips(c, i, j - 1, output);
        assert(!seen_at(c, j - 1, output));
        lemma_seen_at(c, j - 1, output);
        assert(c.windows.take(j).drop_last() =~= c.windows.take(j - 1));
        assert(c.windows.take(j).last() == c.windows[j - 1]);
    }
}

/// The list of the visible windows holds the ids of those that are seen.
proof fn lemma_visible_are_seen(c: ContextView, windows: Seq<WindowView>, output: OutputId, id: WindowId)
    ensures
        visible_ids(c, windows, output).contains(id) <==> exists|i: int|
            0 <= i < windows.len() && (#[trigger] windows[i]).id == id && c.visible_on(
                windows[i],
                output,
            ),
    decreases windows.len(),
{
    let ids = visible_ids(c, windows, output);
    if windows.len() > 0 {
        let rest = windows.drop_last();
        let earlier = visible_ids(c, rest, output);
        lemma_visible_are_seen(c, rest, output, id);
        if ids.contains(id) {
            let k = choose|k: int| 0 <= k < ids.len() && ids[k] == id;
            if k < earlier.len() {
                assert(earlier[k] == id);
                let i = choose|i: int|
                    0 <= i < rest.len() && (#[trigger] rest[i]).id == id && c.visible_on(
                        rest[i],
                        output,
                    );
                assert(windows[i] == rest[i]);
            } else {
                assert(windows[windows.len() - 1] == windows.last());
            }
        }
        if exists|i: int|
            0 <= i < windows.len() && (#[trigger] windows[i]).id == id && c.visible_on(
                windows[i],
                output,
            ) {
            let i = choose|i: int|
                0 <= i < windows.len() && (#[trigger] windows[i]).id == id && c.visible_on(
                    windows[i],
                    output,
                );
            if i < rest.len() {
                assert(rest[i] == windows[i]);
                assert(earlier.contains(id));
                let k = choose|k: int| 0 <= k < earlier.len() && earlier[k] == id;
                assert(ids[k] == id);
            } else {
                assert(ids[earlier.len() as int] == id);
            }
        }
    }
}

proof fn lemma_seen(c: ContextView, output: OutputId, id: WindowId)
    requires
        c.output(output) is Some,
    ensures
        visible_ids(c, c.windows, output).contains(id) == seen(c, id, output),
{
    lemma_visible_are_seen(c, c.windows, output, id);
    assert forall|i: int| #![trigger c.windows[i]] seen_at(c, i, output) == c.visible_on(
        c.windows[i],
        output,
    ) by {
        lemma_seen_at(c, i, output);
    }
}

/// The window that takes over the focus on an output is to be seen there, and no
/// window that had the focus more recently is. It is any window at all only where
/// none is to be seen of those that had the focus.
pub proof fn law_heir_is_the_most_recent_one_seen(c: ContextView, output: OutputId, k: int)
    requires
        c.output(output) is Some,
        0 <= k < c.focus_stack.len(),
        seen(c, c.focus_stack[k], output),
        forall|j: int| 0 <= j < k ==> !seen(c, #[trigger] c.focus_stack[j], output),
    ensures
        c.heir(output) == Some(c.focus_stack[k]),
{
    reveal(ContextView::heir);
    let visible = visible_ids(c, c.windows, output);
    lemma_seen(c, output, c.focus_stack[k]);
    assert forall|j: int| 0 <= j < k implies !among(visible)(#[trigger] c.focus_stack[j]) by {
        lemma_seen(c, output, c.focus_stack[j]);
    }
    lemma_first_is(c.focus_stack, among(visible), k);
}

/// Where no window of the focus order is to be seen on an output, the first window
/// of the table that is takes over; where there is none, no window does.
pub proof fn law_heir_without_a_history(c: ContextView, output: OutputId)
    requires
        c.output(output) is Some,
        forall|j: int|
            0 <= j < c.focus_stack.len() ==> !seen(c, #[trigger] c.focus_stack[j], output),
    ensures
        c.heir(output) is None ==> forall|i: int|
            0 <= i < c.windows.len() ==> !#[trigger] seen_at(c, i, output),
        forall|i: int|
            0 <= i < c.windows.len() && #[trigger] seen_at(c, i, output) && (forall|j: int|
                0 <= j < i ==> !#[trigger] seen_at(c, j, output)) ==> c.heir(output) == Some(
                c.windows[i].id,
            ),
{
    reveal(ContextView::heir);
    let visible = visible_ids(c, c.windows, output);
    assert forall|j: int| 0 <= j < c.focus_stack.len() implies !among(visible)(
        #[trigger] c.focus_stack[j],
    ) by {
        lemma_seen(c, output, c.focus_stack[j]);
    }
    lemma_first_none(c.focus_stack, among(visible));
    assert forall|i: int|
        0 <= i < c.windows.len() && #[trigger] seen_at(c, i, output) implies visible.len() > 0 by {
        lemma_rank(c, i, output);
    }
    assert forall|i: int|
        0 <= i < c.windows.len() && #[trigger] seen_at(c, i, output) && (forall|j: int|
            0 <= j < i ==> !#[trigger] seen_at(c, j, output)) implies c.heir(output) == Some(
        c.windows[i].id,
    ) by {
        lemma_rank(c, i, output);
        lemma_rank_skips(c, 0, i, output);
        assert(c.windows.take(0).len() == 0);
    }
}

/// After the focused window is hidden, the focus is on the window that had it most
/// recently of those to be seen on the current output. The hidden one is hidden.
/// Hiding a window that does not have the focus leaves the focus where it is.
pub proof fn law_hidden_window_passes_the_focus_on(
    c: ContextView,
    id: WindowId,
    output: OutputId,
    k: int,
)
    requires
        c.window(id) is Some,
        distinct_windows(c),
        c.current_output == Some(output),
        c.output(output) is Some,
        0 <= k < c.focus_stack.len(),
        c.focus_stack[k] != id,
        seen(c, c.focus_stack[k], output),
        forall|j: int|
            0 <= j < k ==> (#[trigger] c.focus_stack[j]) == id || !seen(
                c,
                c.focus_stack[j],
                output,
            ),
    ensures
        c.focused_window == Some(id) ==> c.hide_window(id).focused_window == Some(c.focus_stack[k]),
        c.focused_window != Some(id) ==> c.hide_window(id).focused_window == c.focused_window
            && c.hide_window(id).focus_stack == c.focus_stack,
        c.hide_window(id).windows[c.window_index(id)->0].hidden,
{
    reveal(ContextView::hide_window);
    reveal(ContextView::focus_passed_on);
    lemma_window_hidden(c, id);
    lemma_first(c.windows, is_window(id));
    let h = c.window_hidden(id);
    lemma_same_outputs(c, h, output);
    assert forall|x: WindowId| x != id implies #[trigger] seen(h, x, output) == seen(
        c,
        x,
        output,
    ) by {
        lemma_seen_elsewhere(c, h, id, x, output);
        lemma_seen_elsewhere(h, c, id, x, output);
    }
    assert(!seen(h, id, output)) by {
        if seen(h, id, output) {
            let i = choose|i: int|
                0 <= i < h.windows.len() && (#[trigger] h.windows[i]).id == id && seen_at(
                    h,
                    i,
                    output,
                );
            assert(c.windows[i].id == id);
            assert(i == c.window_index(id)->0);
        }
    }
    law_heir_is_the_most_recent_one_seen(h, output, k);
    law_focused_window_comes_first(h, c.focus_stack[k]);
}

/// What hiding a window changes.
pub proof fn lemma_window_hidden(c: ContextView, id: WindowId)
    requires
        c.window(id) is Some,
    ensures
        ({
            let h = c.window_hidden(id);
            let i = c.window_index(id)->0;
            &&& h.windows.len() == c.windows.len()
            &&& h.windows[i].id == c.windows[i].id
            &&& h.windows[i].hidden
            &&& forall|j: int|
                0 <= j < c.windows.len() && j != i ==> #[trigger] h.windows[j] == c.windows[j]
            &&& h.outputs.len() == c.outputs.len()
            &&& forall|j: int|
                0 <= j < c.outputs.len() ==> (#[trigger] h.outputs[j]).id == c.outputs[j].id
            &&& h.focus_stack == c.focus_stack
            &&& h.focused_window == c.focused_window
            &&& h.current_output == c.current_output
        }),
{
    reveal(ContextView::window_hidden);
    reveal(ContextView::desktops_stale);
    reveal(Staged::minimized);
    reveal(Staged::conceal);
    lemma_first(c.windows, is_window(id));
}

/// Outputs with the same ids are found at the same places.
proof fn lemma_same_outputs(a: ContextView, b: ContextView, id: OutputId)
    requires
        a.outputs.len() == b.outputs.len(),
        forall|i: int| 0 <= i < a.outputs.len() ==> (#[trigger] b.outputs[i]).id == a.outputs[i].id,
    ensures
        a.output_index(id) == b.output_index(id),
{
    lemma_first(a.outputs, is_output(id));
    match a.output_index(id) {
        Some(i) => {
            assert(is_output(id)(b.outputs[i]));
            assert forall|j: int| 0 <= j < i implies !is_output(id)(#[trigger] b.outputs[j]) by {
                assert(!is_output(id)(a.outputs[j]));
            }
            lemma_first_is(b.outputs, is_output(id), i);
        },
        None => {
            assert forall|j: int| 0 <= j < b.outputs.len() implies !is_output(id)(
                #[trigger] b.outputs[j],
            ) by {
                assert(!is_output(id)(a.outputs[j]));
            }
            lemma_first_none(b.outputs, is_output(id));
        },
    }
}

/// What is seen of a window does not depend on another one.
proof fn lemma_seen_elsewhere(
    a: ContextView,
    b: ContextView,
    id: WindowId,
    x: WindowId,
    output: OutputId,
)
    requires
        x != id,
        a.windows.len() == b.windows.len(),
        forall|j: int|
            0 <= j < a.windows.len() ==> (#[trigger] a.windows[j]) == b.windows[j]
                || a.windows[j].id == id,
        a.outputs.len() == b.outputs.len(),
        forall|i: int| 0 <= i < a.outputs.len() ==> (#[trigger] a.outputs[i]).id == b.outputs[i].id,
        forall|i: int| 0 <= i < a.outputs.len() ==> (#[trigger] b.outputs[i]).id == a.outputs[i].id,
    ensures
        seen(a, x, output) ==> seen(b, x, output),
{
    if seen(a, x, output) {
        let i = choose|i: int|
            0 <= i < a.windows.len() && (#[trigger] a.windows[i]).id == x && seen_at(a, i, output);
        assert(b.windows[i] == a.windows[i]);
        assert(seen_at(b, i, output));
    }
}

/// A window that is focused comes first in the focus order, and all others keep
/// their order behind it.
pub proof fn law_focus_order_remembers_who_came_last(
    c: ContextView,
    id: WindowId,
    before: Seq<WindowId>,
    after: Seq<WindowId>,
)
    requires
        c.focus_stack == before + seq![id] + after,
        !before.contains(id),
        !after.contains(id),
    ensures
        c.focus(id).focus_stack == seq![id] + before + after,
        c.focus(id).focused_window == Some(id),
{
    law_focused_window_comes_first(c, id);
    law_leaving_out_keeps_the_order(before, id, after);
    assert((before + after).insert(0, id) =~= seq![id] + before + after);
}

/// Whether the window at `j` is the one to be seen next after that at `i`, when
/// one goes through the table in its order and from its end on to its start.
pub open spec fn seen_next(c: ContextView, output: OutputId, i: int, j: int) -> bool {
    &&& 0 <= i < c.windows.len() && 0 <= j < c.windows.len()
    &&& seen_at(c, i, output) && seen_at(c, j, output)
    &&& if i < j {
        forall|k: int| i < k < j ==> !#[trigger] seen_at(c, k, output)
    } else {
        &&& forall|k: int| i < k < c.windows.len() ==> !#[trigger] seen_at(c, k, output)
        &&& forall|k: int| 0 <= k < j ==> !#[trigger] seen_at(c, k, output)
    }
}

/// The keys that move the focus take it from a window to the one to be seen next
/// on the current output, forward or in reverse.
pub proof fn law_focus_goes_to_the_next_window_seen(
    c: ContextView,
    output: OutputId,
    from: int,
    to: int,
    direction: Direction,
)
    requires
        c.current_output == Some(output),
        c.output(output) is Some,
        distinct_windows(c),
        0 <= from < c.windows.len(),
        0 <= to < c.windows.len(),
        c.focused_window == Some(c.windows[from].id),
        direction == Direction::Forward ==> seen_next(c, output, from, to),
        direction == Direction::Reverse ==> seen_next(c, output, to, from),
    ensures
        c.focus_iter(direction).focused_window == Some(c.windows[to].id),
        c.focus_iter(direction) == c.focus(c.windows[to].id),
{
    reveal(ContextView::focus_iter);
    let visible = visible_ids(c, c.windows, output);
    let n = visible.len() as int;
    lemma_rank(c, from, output);
    lemma_rank(c, to, output);
    let place = rank(c, from, output);
    assert forall|p: int| 0 <= p < place implies !is_id(c.windows[from].id)(
        #[trigger] visible[p],
    ) by {
        lemma_visible_distinct(c, c.windows, output);
        assert(visible[p] != visible[place]);
    }
    lemma_first_is(visible, is_id(c.windows[from].id), place);
    assert(place_of(visible, c.focused_window) == place);
    if direction == Direction::Forward {
        lemma_next_rank(c, output, from, to);
    } else {
        lemma_next_rank(c, output, to, from);
    }
    if rank(c, from, output) + 1 < n {
        vstd::arithmetic::div_mod::lemma_small_mod((rank(c, from, output) + 1) as nat, n as nat);
    } else {
        vstd::arithmetic::div_mod::lemma_mod_self_0(n);
    }
    assert(step_around(place, n, direction) == rank(c, to, output));
    law_focused_window_comes_first(c, c.windows[to].id);
}

/// Windows next to each other among those seen are next to each other in the list.
proof fn lemma_next_rank(c: ContextView, output: OutputId, i: int, j: int)
    requires
        c.output(output) is Some,
        seen_next(c, output, i, j),
    ensures
        ({
            let n = visible_ids(c, c.windows, output).len() as int;
            ||| rank(c, j, output) == rank(c, i, output) + 1
            ||| rank(c, i, output) == n - 1 && rank(c, j, output) == 0
        }),
        0 <= rank(c, i, output) < visible_ids(c, c.windows, output).len(),
        0 <= rank(c, j, output) < visible_ids(c, c.windows, output).len(),
{
    lemma_rank(c, i, output);
    lemma_rank(c, j, output);
    if i < j {
        lemma_rank_skips(c, i + 1, j, output);
    } else {
        lemma_rank_skips(c, i + 1, c.windows.len() as int, output);
        assert(c.windows.take(c.windows.len() as int) =~= c.windows);
        lemma_rank_skips(c, 0, j, output);
        assert(c.windows.take(0).len() == 0);
    }
}

/// Where no two windows have the same id, none is listed twice.
proof fn lemma_visible_distinct(c: ContextView, windows: Seq<WindowView>, output: OutputId)
    requires
        forall|i: int, j: int|
            0 <= i < windows.len() && 0 <= j < windows.len() && i != j ==> (
            #[trigger] windows[i]).id != (#[trigger] windows[j]).id,
    ensures
        visible_ids(c, windows, output).no_duplicates(),
    decreases windows.len(),
{
    if windows.len() > 0 {
        let rest = windows.drop_last();
        assert forall|i: int, j: int|
            0 <= i < rest.len() && 0 <= j < rest.len() && i != j implies (#[trigger] rest[i]).id != (
        #[trigger] rest[j]).id by {
            assert(rest[i] == windows[i]);
            assert(rest[j] == windows[j]);
        }
        lemma_visible_distinct(c, rest, output);
        let last = windows.last().id;
        lemma_visible_are_seen(c, rest, output, last);
        if visible_ids(c, rest, output).contains(last) {
            let i = choose|i: int| 0 <= i < rest.len() && (#[trigger] rest[i]).id == last;
            assert(windows[i] == rest[i]);
            assert(windows[windows.len() - 1] == windows.last());
        }
        let earlier = visible_ids(c, rest, output);
        let ids = visible_ids(c, windows, output);
        assert forall|i: int, j: int| 0 <= i < ids.len() && 0 <= j < ids.len() && i != j implies ids[i]
            != ids[j] by {
            if i < earlier.len() && j < earlier.len() {
                assert(earlier[i] != earlier[j]);
            } else if i < earlier.len() {
                assert(earlier.contains(earlier[i]));
            } else if j < earlier.len() {
                assert(earlier.contains(earlier[j]));
            }
        }
    }
}

/// The keys that move between outputs make the neighbour of the current output
/// current, in the direction asked for, and focus the first window to be seen there.
/// Where there is none, the focus stays.
pub proof fn law_output_keys_go_to_the_neighbour(
    c: ContextView,
    from: int,
    to: int,
    direction: Direction,
)
    requires
        c.outputs.len() >= 2,
        forall|j: int, k: int|
            0 <= j < c.outputs.len() && 0 <= k < c.outputs.len() && j != k ==> (
            #[trigger] c.outputs[j]).id != (#[trigger] c.outputs[k]).id,
        0 <= from < c.outputs.len(),
        0 <= to < c.outputs.len(),
        c.current_output == Some(c.outputs[from].id),
        follows(from, to, c.outputs.len() as int, direction),
    ensures
        ({
            let d = c.focus_output_iter(direction);
            let there = c.outputs[to].id;
            &&& (forall|i: int| 0 <= i < c.windows.len() ==> !#[trigger] seen_at(c, i, there)) ==> {
                &&& d.current_output == Some(there)
                &&& d.focused_window == c.focused_window
            }
            &&& forall|i: int|
                0 <= i < c.windows.len() && #[trigger] seen_at(c, i, there) && (forall|j: int|
                    0 <= j < i ==> !#[trigger] seen_at(c, j, there)) ==> d.focused_window == Some(
                    c.windows[i].id,
                )
        }),
{
    reveal(ContextView::focus_output_iter);
    reveal(ContextView::default_output_set);
    let n = c.outputs.len() as int;
    let ids = c.output_ids();
    assert(ids[from] == c.outputs[from].id);
    assert forall|j: int| 0 <= j < from implies !is_id(ids[from])(#[trigger] ids[j]) by {
        assert(ids[j] == c.outputs[j].id);
    }
    lemma_first_is(ids, is_id(ids[from]), from);
    if from + 1 < n {
        vstd::arithmetic::div_mod::lemma_small_mod((from + 1) as nat, n as nat);
    } else {
        vstd::arithmetic::div_mod::lemma_mod_self_0(n);
    }
    assert(step_around(from, n, direction) == to);
    let there = c.outputs[to].id;
    assert(ids[to] == there);
    lemma_first_is(c.outputs, is_output(there), to);
    let e = (ContextView { current_output: Some(there), ..c }).default_output_set(there);
    assert(e.outputs == c.outputs && e.windows == c.windows);
    let visible = visible_ids(e, e.windows, there);
    assert forall|i: int| 0 <= i < c.windows.len() implies #[trigger] seen_at(c, i, there) == seen_at(
        e,
        i,
        there,
    ) by {}
    if visible.len() > 0 {
        lemma_seen(e, there, visible[0]);
        assert(visible.contains(visible[0]));
        let i = choose|i: int|
            0 <= i < e.windows.len() && (#[trigger] e.windows[i]).id == visible[0] && seen_at(
                e,
                i,
                there,
            );
        assert(seen_at(c, i, there));
        law_focused_window_comes_first(e, visible[0]);
    }
    assert forall|i: int|
        0 <= i < c.windows.len() && #[trigger] seen_at(c, i, there) && (forall|j: int|
            0 <= j < i ==> !#[trigger] seen_at(c, j, there)) implies c.focus_output_iter(
        direction,
    ).focused_window == Some(c.windows[i].id) by {
        assert(seen_at(e, i, there));
        assert forall|k: int| 0 <= k < i implies !#[trigger] seen_at(e, k, there) by {
            assert(!seen_at(c, k, there));
        }
        lemma_rank(e, i, there);
        lemma_rank_skips(e, 0, i, there);
        assert(e.windows.take(0).len() == 0);
    }
}

/// When no window has the focus, it goes back to the window that had it most
/// recently of those assigned to the current output that are not hidden; where there
/// is none of those, to the most recent one of all that are not hidden.
pub proof fn law_focus_comes_back_to_the_most_recent_window(c: ContextView, k: int)
    requires
        c.focused_window is None,
        0 <= k < c.focus_stack.len(),
        c.window(c.focus_stack[k]) matches Some(w) && !w.hidden,
        c.current_output matches Some(output) && {
            let here = |id: WindowId|
                c.window(id) matches Some(w) && !w.hidden && w.output == Some(output) && c.output(
                    output,
                ) is Some;
            ||| here(c.focus_stack[k]) && forall|j: int| 0 <= j < k ==> !here(#[trigger] c.focus_stack[j])
            ||| (forall|j: int| 0 <= j < c.focus_stack.len() ==> !here(#[trigger] c.focus_stack[j]))
                && forall|j: int|
                0 <= j < k ==> (c.window(#[trigger] c.focus_stack[j]) matches Some(w) ==> w.hidden)
        },
    ensures
        c.focus_restored().focused_window == Some(c.focus_stack[k]),
{
    reveal(ContextView::focus_restored);
    reveal(ContextView::restore_candidate);
    let output = c.current_output->0;
    let here = |id: WindowId|
        c.window(id) matches Some(w) && !w.hidden && w.output == Some(output) && c.output(output) is Some;
    assert forall|id: WindowId| #[trigger] here(id) == c.shown_on(output)(id) by {}
    if here(c.focus_stack[k]) && forall|j: int| 0 <= j < k ==> !here(#[trigger] c.focus_stack[j]) {
        assert forall|j: int| 0 <= j < k implies !c.shown_on(output)(#[trigger] c.focus_stack[j]) by {
            assert(!here(c.focus_stack[j]));
        }
        lemma_first_is(c.focus_stack, c.shown_on(output), k);
    } else {
        assert forall|j: int| 0 <= j < c.focus_stack.len() implies !c.shown_on(output)(
            #[trigger] c.focus_stack[j],
        ) by {
            assert(!here(c.focus_stack[j]));
        }
        lemma_first_none(c.focus_stack, c.shown_on(output));
        lemma_first_is(c.focus_stack, c.shown(), k);
    }
    law_focused_window_comes_first(c, c.focus_stack[k]);
}

/// When a window goes away, the others keep their order; where it had the focus, the
/// one that had it before takes over.
pub proof fn law_next_window_in_order_takes_over(
    c: ContextView,
    id: WindowId,
    before: Seq<WindowId>,
    after: Seq<WindowId>,
)
    requires
        c.focus_stack == before + seq![id] + after,
        !before.contains(id),
        !after.contains(id),
    ensures
        c.focused_window == Some(id) && (before + after).len() > 0 ==> c.window_destroyed(
            id,
        ).focused_window == Some((before + after)[0]),
        c.focused_window == Some(id) && (before + after).len() == 0 ==> c.window_destroyed(
            id,
        ).focused_window is None,
        c.focused_window != Some(id) ==> c.window_destroyed(id).focused_window == c.focused_window
            && c.window_destroyed(id).focus_stack == before + after,
{
    reveal(ContextView::window_destroyed);
    reveal(ContextView::window_removed);
    reveal(ContextView::keyboard_focus_cleared);
    reveal(ContextView::keyboard_to_none);
    law_leaving_out_keeps_the_order(before, id, after);
    let d = ContextView { focus_stack: without(c.focus_stack, id), ..c };
    if (before + after).len() > 0 {
        law_focused_window_comes_first(d, (before + after)[0]);
    }
}

/// Where there is no current output, the focus of a hidden window is passed on among those to be
/// seen on the output that it belongs to. Where no window is to be seen any more, none has the focus.
pub proof fn law_focus_stays_on_the_output_of_the_hidden_window(
    c: ContextView,
    id: WindowId,
    output: OutputId,
)
    requires
        c.window(id) matches Some(w) && w.output == Some(output),
        c.focused_window == Some(id),
        c.output(output) is Some,
        c.current_output is None || c.current_output == Some(output),
    ensures
        ({
            let h = c.window_hidden(id);
            &&& c.hide_window(id).focused_window == h.heir(output)
            &&& (forall|i: int| 0 <= i < h.windows.len() ==> !#[trigger] seen_at(h, i, output))
                ==> c.hide_window(id).focused_window is None
        }),
{
    reveal(ContextView::hide_window);
    reveal(ContextView::focus_passed_on);
    reveal(ContextView::keyboard_focus_cleared);
    reveal(ContextView::keyboard_to_none);
    lemma_window_hidden(c, id);
    lemma_hidden_keeps_output(c, id);
    lemma_first(c.windows, is_window(id));
    let h = c.window_hidden(id);
    lemma_same_outputs(c, h, output);
    lemma_same_places(c, h, id);
    assert(h.live_output(h.window(id)->0) == Some(output));
    match h.heir(output) {
        Some(next) => law_focused_window_comes_first(h, next),
        None => {},
    }
    if forall|i: int| 0 <= i < h.windows.len() ==> !#[trigger] seen_at(h, i, output) {
        lemma_nothing_seen(h, output);
    }
}

proof fn lemma_hidden_keeps_output(c: ContextView, id: WindowId)
    requires
        c.window(id) is Some,
    ensures
        c.window_hidden(id).windows[c.window_index(id)->0].output == c.window(id)->0.output,
{
    reveal(ContextView::window_hidden);
    reveal(ContextView::desktops_stale);
    reveal(Staged::minimized);
    reveal(Staged::conceal);
    lemma_first(c.windows, is_window(id));
}

proof fn lemma_nothing_seen(c: ContextView, output: OutputId)
    requires
        c.output(output) is Some,
        forall|i: int| 0 <= i < c.windows.len() ==> !#[trigger] seen_at(c, i, output),
    ensures
        c.heir(output) is None,
{
    reveal(ContextView::heir);
    let visible = visible_ids(c, c.windows, output);
    if visible.len() > 0 {
        assert(visible.contains(visible[0]));
        lemma_seen(c, output, visible[0]);
    }
    lemma_first(c.focus_stack, among(visible));
}

/// A window that gets the keyboard gets it through the current seat: the compositor is told which
/// window that is. When no window is to have it, the compositor is told so.
pub proof fn law_compositor_is_told_who_has_the_keyboard(
    c: ContextView,
    id: WindowId,
    seat: SeatId,
    rwm_seat: ObjectId,
    window: ObjectId,
)
    requires
        c.current_seat == Some(seat),
        c.seat(seat) matches Some(s) && s.rwm_seat == Some(rwm_seat),
        c.window(id) matches Some(w) && w.rwm_window == Some(window),
    ensures
        c.keyboard_to(id).requests == c.requests.push(
            (Request::FocusWindow { seat: rwm_seat, window })@,
        ),
        c.keyboard_focus_cleared().requests == c.requests.push(
            (Request::ClearFocus { seat: rwm_seat })@,
        ),
        c.keyboard_focus_cleared().focused_window is None,
{
    reveal(ContextView::keyboard_to);
    reveal(ContextView::keyboard_focus_cleared);
    reveal(ContextView::keyboard_to_none);
}

/// A dialog appears on the output that its parent is on. Any other new window appears where the
/// focused window is; where none has the focus, where one had it last; where that is not known either,
/// on the current output.
pub proof fn law_new_windows_appear_where_one_works(c: ContextView, id: WindowId)
    requires
        c.window(id) is Some,
    ensures
        ({
            let w = c.window(id)->0;
            &&& w.parent matches Some(parent) ==> (c.window(parent) matches Some(p) ==> (!p.hidden
                && c.output_for_rect(p) is Some ==> c.preferred_output(id) == c.output_for_rect(p)))
            &&& w.parent is None ==> c.preferred_output(id) == c.output_for_new_window()
            &&& c.focused_window matches Some(f) ==> (c.output_for_window(f) is Some
                ==> c.output_for_new_window() == c.output_for_window(f))
            &&& c.focused_window is None && c.last_focused_output is Some
                ==> c.output_for_new_window() == c.last_focused_output
            &&& c.focused_window is None && c.last_focused_output is None
                ==> c.output_for_new_window() == c.current_output
        }),
{
    reveal(ContextView::preferred_output);
    reveal(ContextView::parent_output);
    reveal(ContextView::output_for_new_window);
}

/// Assigning the focused window to an output makes that output current and the default one of the
/// compositor; assigning another window leaves the current output as it is.
pub proof fn law_current_output_follows_the_focus(
    c: ContextView,
    id: WindowId,
    output: OutputId,
    object: ObjectId,
)
    requires
        c.window(id) is Some,
        c.output(output) matches Some(o) && o.layer_shell_output == Some(object),
    ensures
        ({
            let d = c.window_output_set(id, output);
            &&& d.windows[c.window_index(id)->0].output == Some(output)
            &&& c.focused_window == Some(id) ==> d.current_output == Some(output)
                && d.last_focused_output == Some(output) && d.requests == c.requests.push(
                (Request::SetDefaultOutput { layer_shell_output: object })@,
            )
            &&& c.focused_window != Some(id) ==> d.current_output == c.current_output
                && d.last_focused_output == c.last_focused_output && d.requests == c.requests
        }),
{
    reveal(ContextView::window_output_set);
    reveal(ContextView::default_output_set);
    lemma_first(c.windows, is_window(id));
}

} // verus!
