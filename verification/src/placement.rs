use vstd::prelude::*;
use crate::editor::{
    invalidate_spec, layout_fits, layout_map, lemma_layout_map_dom, resize_actions, ActionView,
    RimView, WindowView,
};
use crate::frame::WindowId;
use crate::screen::Rect;

verus! {

/// No window is named twice in `layout`.
pub open spec fn names_each_once(layout: Seq<(WindowId, Rect)>) -> bool {
    forall|a: int, b: int| 0 <= a < b < layout.len() ==> layout[a].0 != layout[b].0
}

/// Every window of `ids` has an entry in `layout`.
pub open spec fn names_all(layout: Seq<(WindowId, Rect)>, ids: Set<WindowId>) -> bool {
    forall|id: WindowId| ids.contains(id) ==> exists|j: int| 0 <= j < layout.len() && layout[j].0 == id
}

/// The views that placing windows by `layout` asks to resize: each is a
/// window of the table whose size the layout changes, given the size the
/// layout gives it; every such window is asked for; none is asked twice.
proof fn lemma_resize_actions_exact(windows: Map<WindowId, WindowView>, layout: Seq<(WindowId, Rect)>)
    requires
        names_each_once(layout),
    ensures
        forall|i: int| 0 <= i < resize_actions(windows, layout).len() ==>
            (#[trigger] resize_actions(windows, layout)[i] matches ActionView::ResizeView { win_id, size }
                && windows.contains_key(win_id)
                && layout_map(layout).contains_key(win_id)
                && size == layout_map(layout)[win_id].1
                && windows[win_id].rect.1 != size),
        forall|id: WindowId| windows.contains_key(id) && #[trigger] layout_map(layout).contains_key(id)
            && windows[id].rect.1 != layout_map(layout)[id].1
            ==> resize_actions(windows, layout).contains(
                ActionView::ResizeView { win_id: id, size: layout_map(layout)[id].1 }),
        forall|i: int, j: int| 0 <= i < j < resize_actions(windows, layout).len() ==>
            (#[trigger] resize_actions(windows, layout)[i])->ResizeView_win_id
                != (#[trigger] resize_actions(windows, layout)[j])->ResizeView_win_id,
    decreases layout.len(),
{
    if layout.len() > 0 {
        let rest = layout.drop_last();
        let last = layout.last();
        lemma_resize_actions_exact(windows, rest);
        lemma_layout_map_dom(rest, last.0);
        assert(!layout_map(rest).contains_key(last.0));
        let ra = resize_actions(windows, layout);
        let rr = resize_actions(windows, rest);
        assert forall|id: WindowId| windows.contains_key(id) && #[trigger] layout_map(layout).contains_key(id)
            && windows[id].rect.1 != layout_map(layout)[id].1
            implies ra.contains(ActionView::ResizeView { win_id: id, size: layout_map(layout)[id].1 }) by {
            if id == last.0 {
                assert(ra[ra.len() - 1] == ActionView::ResizeView { win_id: id, size: layout_map(layout)[id].1 });
            } else {
                assert(layout_map(rest).contains_key(id));
                let k = choose|k: int| 0 <= k < rr.len() && rr[k] == ActionView::ResizeView { win_id: id, size: layout_map(rest)[id].1 };
                assert(ra[k] == rr[k]);
            }
        }
    }
}

/// Placing the windows where a layout puts them, the layout naming each
/// window once and every window of the table: each window stands at the
/// rectangle of its entry; a window whose rectangle changes is to be drawn
/// again, one that stays keeps its own mark; its modes stay; the focus and
/// the quit flag stay; the frame's borders are to be drawn again; and the
/// actions asked are those asked before followed by one view resize for
/// each window, and only each window, whose size changes, to that size.
pub proof fn law_layout_places_windows(s: RimView, layout: Seq<(WindowId, Rect)>)
    requires
        names_each_once(layout),
        names_all(layout, s.windows.dom()),
    ensures
        layout_fits(layout, s.windows.dom()),
        ({
            let t = invalidate_spec(s, layout);
            let n = s.actions.len();
            &&& t.windows.dom() == s.windows.dom()
            &&& forall|j: int| #![trigger layout[j]] 0 <= j < layout.len() && s.windows.contains_key(layout[j].0) ==> {
                let id = layout[j].0;
                let r = layout[j].1;
                &&& t.windows[id].rect == r
                &&& t.windows[id].needs_redraw == (s.windows[id].needs_redraw || s.windows[id].rect != r)
                &&& t.windows[id].normal_mode == s.windows[id].normal_mode
                &&& t.windows[id].insert_mode == s.windows[id].insert_mode
                &&& (s.windows[id].rect.1 != r.1 ==> t.actions.contains(
                    ActionView::ResizeView { win_id: id, size: r.1 }))
            }
            &&& t.focus == s.focus
            &&& t.quit == s.quit
            &&& t.frame_needs_redraw
            &&& n <= t.actions.len()
            &&& t.actions.take(n as int) == s.actions
            &&& forall|k: int| n <= k < t.actions.len() ==>
                (#[trigger] t.actions[k] matches ActionView::ResizeView { win_id, size }
                    && s.windows.contains_key(win_id)
                    && s.windows[win_id].rect.1 != size
                    && exists|j: int| 0 <= j < layout.len() && layout[j] == (win_id, Rect(layout[j].1.0, size)))
            &&& forall|k1: int, k2: int| n <= k1 < k2 < t.actions.len() ==>
                (#[trigger] t.actions[k1])->ResizeView_win_id != (#[trigger] t.actions[k2])->ResizeView_win_id
        }),
{
    assert forall|id: WindowId| s.windows.dom().contains(id) implies layout_map(layout).contains_key(id) by {
        lemma_layout_map_dom(layout, id);
    }
    let t = invalidate_spec(s, layout);
    let n = s.actions.len();
    let ra = resize_actions(s.windows, layout);
    lemma_resize_actions_exact(s.windows, layout);
    assert(t.windows.dom() =~= s.windows.dom());
    assert(t.actions.take(n as int) =~= s.actions);
    assert forall|j: int| #![trigger layout[j]] 0 <= j < layout.len() && s.windows.contains_key(layout[j].0) implies {
        let id = layout[j].0;
        let r = layout[j].1;
        &&& t.windows[id].rect == r
        &&& t.windows[id].needs_redraw == (s.windows[id].needs_redraw || s.windows[id].rect != r)
        &&& t.windows[id].normal_mode == s.windows[id].normal_mode
        &&& t.windows[id].insert_mode == s.windows[id].insert_mode
        &&& (s.windows[id].rect.1 != r.1 ==> t.actions.contains(
            ActionView::ResizeView { win_id: id, size: r.1 }))
    } by {
        let id = layout[j].0;
        crate::laws::lemma_layout_map_entry(layout, j);
        if s.windows[id].rect.1 != layout[j].1.1 {
            let k = choose|k: int| 0 <= k < ra.len() && ra[k] == ActionView::ResizeView { win_id: id, size: layout[j].1.1 };
            assert(t.actions[n + k] == ra[k]);
        }
    }
    assert forall|k: int| n <= k < t.actions.len() implies
        (#[trigger] t.actions[k] matches ActionView::ResizeView { win_id, size }
            && s.windows.contains_key(win_id)
            && s.windows[win_id].rect.1 != size
            && exists|j: int| 0 <= j < layout.len() && layout[j] == (win_id, Rect(layout[j].1.0, size))) by {
        assert(t.actions[k] == ra[k - n]);
        let id = ra[k - n]->ResizeView_win_id;
        lemma_layout_map_dom(layout, id);
        let j = choose|j: int| 0 <= j < layout.len() && layout[j].0 == id;
        crate::laws::lemma_layout_map_entry(layout, j);
        assert(layout[j] == (id, Rect(layout[j].1.0, layout[j].1.1)));
    }
    assert forall|k1: int, k2: int| n <= k1 < k2 < t.actions.len() implies
        (#[trigger] t.actions[k1])->ResizeView_win_id != (#[trigger] t.actions[k2])->ResizeView_win_id by {
        assert(t.actions[k1] == ra[k1 - n]);
        assert(t.actions[k2] == ra[k2 - n]);
    }
}

} // verus!
