use vstd::prelude::*;
use crate::command::{arrows_move_focus, Cmd, Fallback, WinCmd};
use crate::editor::{
    all_drawn, carry_out_spec, close_spec, focus_present, focus_to_spec, frame_request_spec,
    handle_cmd_spec, invalidate_spec, layout_fits, layout_map, new_rim_spec, new_window_spec,
    relayout_windows, reply_fits, resize_actions, split_spec, win_cmd_action, ActionView,
    FrameReply, FrameRequest, RimView, WindowView, WINDOW_MODE_LEVEL,
};
use crate::frame::{Direction, Orientation, WindowId, WindowOrder};
use crate::keymap::{Key, KeySym, MOD_CTRL, MOD_NONE};
use crate::view::CaretMovement;
use crate::modes::{char_key, default_insert_mode_spec, default_mode_spec, default_normal_mode_spec, sym_key, window_keys};
use crate::screen::Rect;

verus! {

/// The view actions that a layout asks for only resize views.
proof fn lemma_resize_actions_only_resize(windows: Map<WindowId, WindowView>, layout: Seq<(WindowId, Rect)>)
    ensures
        forall|i: int| 0 <= i < resize_actions(windows, layout).len()
            ==> #[trigger] resize_actions(windows, layout)[i] is ResizeView,
    decreases layout.len(),
{
    if layout.len() > 0 {
        lemma_resize_actions_only_resize(windows, layout.drop_last());
    }
}

/// In a layout that names each window once, each entry gives its window
/// the rectangle that the layout holds for it.
pub proof fn lemma_layout_map_entry(layout: Seq<(WindowId, Rect)>, j: int)
    requires
        0 <= j < layout.len(),
        forall|a: int, b: int| 0 <= a < b < layout.len() ==> layout[a].0 != layout[b].0,
    ensures
        layout_map(layout).contains_key(layout[j].0),
        layout_map(layout)[layout[j].0] == layout[j].1,
    decreases layout.len(),
{
    if j < layout.len() - 1 {
        lemma_layout_map_entry(layout.drop_last(), j);
    }
}

/// Placing windows where a layout puts them asks no view to be resized
/// when they already stand there.
proof fn lemma_resize_actions_settled(windows: Map<WindowId, WindowView>, layout: Seq<(WindowId, Rect)>, whole: Seq<(WindowId, Rect)>)
    requires
        layout.len() <= whole.len(),
        forall|i: int| 0 <= i < layout.len() ==> layout[i] == whole[i],
        forall|a: int, b: int| 0 <= a < b < whole.len() ==> whole[a].0 != whole[b].0,
        windows == relayout_windows(windows, whole),
    ensures
        resize_actions(windows, layout) == Seq::<ActionView>::empty(),
    decreases layout.len(),
{
    if layout.len() > 0 {
        let j = layout.len() - 1;
        lemma_resize_actions_settled(windows, layout.drop_last(), whole);
        lemma_layout_map_entry(whole, j);
    }
}

/// Sequences of one key differ when the keys differ.
proof fn lemma_single_keys_differ()
    ensures
        forall|a: Key, b: Key|
            #![trigger Seq::<Key>::empty().push(a), Seq::<Key>::empty().push(b)]
            a != b ==> Seq::<Key>::empty().push(a) != Seq::<Key>::empty().push(b),
{
    assert forall|a: Key, b: Key| a != b implies Seq::<Key>::empty().push(a) != Seq::<Key>::empty().push(b) by {
        assert(Seq::<Key>::empty().push(a)[0] == a);
        assert(Seq::<Key>::empty().push(b)[0] == b);
    }
}

/// Window-prefixed sequences differ when their second keys differ, and
/// differ from every sequence of one key.
proof fn lemma_window_keys_differ()
    ensures
        forall|c: char, d: char| #![trigger window_keys(c), window_keys(d)]
            c != d ==> window_keys(c) != window_keys(d),
        forall|c: char, a: Key| #![trigger window_keys(c), Seq::<Key>::empty().push(a)]
            window_keys(c) != Seq::<Key>::empty().push(a),
{
    assert forall|c: char, d: char| c != d implies window_keys(c) != window_keys(d) by {
        assert(window_keys(c)[1] != window_keys(d)[1]);
    }
    assert forall|c: char, a: Key| window_keys(c) != Seq::<Key>::empty().push(a) by {
        assert(window_keys(c).len() != Seq::<Key>::empty().push(a).len());
    }
}

/// Whatever command the editor handles, with a reply that fits it, the
/// focused window is still one of the windows afterwards.
pub proof fn law_focus_stays_present(s: RimView, cmd: Cmd, reply: FrameReply)
    requires
        focus_present(s),
        reply_fits(s, cmd, reply),
    ensures
        focus_present(handle_cmd_spec(s, cmd, reply)),
{
}

/// Every command that the editor handles is acknowledged exactly once, as
/// the last action it asks; the actions asked before stay as they were.
pub proof fn law_every_command_acknowledged(s: RimView, cmd: Cmd, reply: FrameReply)
    requires
        focus_present(s),
        reply_fits(s, cmd, reply),
    ensures
        ({
            let t = handle_cmd_spec(s, cmd, reply);
            &&& t.actions.len() > s.actions.len()
            &&& t.actions.take(s.actions.len() as int) == s.actions
            &&& t.actions.last() == ActionView::AckCmd
            &&& forall|i: int| s.actions.len() <= i < t.actions.len() - 1
                ==> !(#[trigger] t.actions[i] is AckCmd)
        }),
{
    let c = carry_out_spec(s, cmd, reply);
    match reply {
        FrameReply::Layout(layout) => {
            lemma_resize_actions_only_resize(s.windows, layout@);
        },
        FrameReply::Split { new_win, layout } => {
            lemma_resize_actions_only_resize(s.windows.insert(new_win, new_window_spec()), layout@);
        },
        FrameReply::Resized { absorbed, layout } => {
            lemma_resize_actions_only_resize(s.windows, layout@);
        },
        FrameReply::Closed { neighbour, layout } => {
            if let Some(n) = neighbour {
                let t = crate::editor::set_focus_spec(s, n);
                lemma_resize_actions_only_resize(t.windows.remove(s.focus), layout@);
            }
        },
        _ => {},
    }
    assert(c.actions.take(s.actions.len() as int) =~= s.actions);
    assert(handle_cmd_spec(s, cmd, reply).actions.take(s.actions.len() as int) =~= s.actions);
}

/// Placing the windows where a layout puts them a second time changes
/// nothing: every window already stands there, and no view is resized.
pub proof fn law_invalidate_twice(s: RimView, layout: Seq<(WindowId, Rect)>)
    requires
        layout_fits(layout, s.windows.dom()),
    ensures
        invalidate_spec(invalidate_spec(s, layout), layout) == invalidate_spec(s, layout),
{
    let t = invalidate_spec(s, layout);
    assert(relayout_windows(t.windows, layout) =~= t.windows);
    lemma_resize_actions_settled(t.windows, layout, layout);
    assert(t.actions + resize_actions(t.windows, layout) =~= t.actions);
}

/// After the windows are placed where a layout puts them, each window stands
/// at the rectangle that the layout gives it.
pub proof fn law_windows_stand_where_laid_out(s: RimView, layout: Seq<(WindowId, Rect)>, id: WindowId)
    requires
        layout_fits(layout, s.windows.dom()),
        s.windows.contains_key(id),
    ensures
        invalidate_spec(s, layout).windows.contains_key(id),
        invalidate_spec(s, layout).windows[id].rect == layout_map(layout)[id],
{
}

/// When the frame finds no window in the direction or order asked, the
/// focus stays and nothing changes; when it finds no window to take the
/// focus from the one to close, nothing is closed.
pub proof fn law_no_target_no_change(s: RimView, layout: Seq<(WindowId, Rect)>)
    ensures
        focus_to_spec(s, None) == s,
        close_spec(s, None, layout) == s,
{
}

/// Splitting keeps the focus where it was and adds the new window, fresh,
/// to the table.
pub proof fn law_split_adds_fresh_window(s: RimView, new_win: WindowId, layout: Seq<(WindowId, Rect)>)
    requires
        focus_present(s),
        !s.windows.contains_key(new_win),
        layout_fits(layout, s.windows.dom().insert(new_win)),
    ensures
        split_spec(s, new_win, layout).focus == s.focus,
        split_spec(s, new_win, layout).windows.dom() == s.windows.dom().insert(new_win),
        split_spec(s, new_win, layout).windows[new_win].needs_redraw,
        split_spec(s, new_win, layout).windows[new_win].normal_mode == default_normal_mode_spec(),
        split_spec(s, new_win, layout).windows[new_win].insert_mode == default_insert_mode_spec(),
{
    assert(split_spec(s, new_win, layout).windows.dom() =~= s.windows.dom().insert(new_win));
}

/// Closing the focused window hands the focus to its neighbour and takes
/// the closed window out of the table.
pub proof fn law_close_moves_focus_to_neighbour(s: RimView, n: WindowId, layout: Seq<(WindowId, Rect)>)
    requires
        focus_present(s),
        s.windows.contains_key(n),
        n != s.focus,
        layout_fits(layout, s.windows.dom().remove(s.focus)),
    ensures
        close_spec(s, Some(n), layout).focus == n,
        close_spec(s, Some(n), layout).windows.dom() == s.windows.dom().remove(s.focus),
{
    let r = close_spec(s, Some(n), layout);
    assert(r.windows.dom() =~= s.windows.dom().remove(s.focus));
}

/// Growing and shrinking a window ask the frame for opposite amounts.
pub proof fn law_grow_shrink_opposite(focus: WindowId, o: Orientation)
    ensures
        ({
            let grow = frame_request_spec(focus, Cmd::GrowWindow(o));
            let shrink = frame_request_spec(focus, Cmd::ShrinkWindow(o));
            &&& grow matches FrameRequest::ResizeWindow { win: gw, orientation: go, amount: ga }
            &&& shrink matches FrameRequest::ResizeWindow { win: sw, orientation: so, amount: sa }
            &&& gw == focus && sw == focus && go == o && so == o
            &&& ga > 0 && sa == -ga
        }),
{
}

/// The editor starts with its focus on its one window.
pub proof fn law_start_with_one_focused_window(first_win: WindowId)
    ensures
        focus_present(new_rim_spec(first_win)),
        new_rim_spec(first_win).windows.dom() == set![first_win],
{
    assert(new_rim_spec(first_win).windows.dom() =~= set![first_win]);
}

/// A window's modes lead into each other: i in the normal mode enters the
/// insert mode, escape in the insert mode enters the normal mode, and each
/// of those commands installs the window's own mode of that name.
pub proof fn law_modes_lead_into_each_other(focus: WindowId, w: WindowView)
    ensures
        default_normal_mode_spec().keychain[seq![char_key('i', MOD_NONE)]] == Cmd::WinCmd(WinCmd::EnterInsertMode),
        default_insert_mode_spec().keychain[seq![sym_key(KeySym::Escape)]] == Cmd::WinCmd(WinCmd::EnterNormalMode),
        win_cmd_action(focus, WinCmd::EnterInsertMode, w)
            == (ActionView::SetMode { mode: w.insert_mode, level: WINDOW_MODE_LEVEL }),
        win_cmd_action(focus, WinCmd::EnterNormalMode, w)
            == (ActionView::SetMode { mode: w.normal_mode, level: WINDOW_MODE_LEVEL }),
{
    lemma_single_keys_differ();
}

/// In the normal mode, h, l, k and j move the caret as the arrow keys
/// left, right, up and down do; in the editor-wide mode, control-w and
/// h, l, k, j move the focus the way the arrow keys do in the insert mode.
pub proof fn law_vi_keys_match_arrows()
    ensures
        ({
            let normal = default_normal_mode_spec().keychain;
            &&& normal[seq![char_key('h', MOD_NONE)]] == normal[seq![sym_key(KeySym::Left)]]
            &&& normal[seq![char_key('l', MOD_NONE)]] == normal[seq![sym_key(KeySym::Right)]]
            &&& normal[seq![char_key('k', MOD_NONE)]] == normal[seq![sym_key(KeySym::Up)]]
            &&& normal[seq![char_key('j', MOD_NONE)]] == normal[seq![sym_key(KeySym::Down)]]
        }),
        ({
            let editor = default_mode_spec().keychain;
            &&& Some(editor[window_keys('h')]) == arrows_move_focus(sym_key(KeySym::Left))
            &&& Some(editor[window_keys('l')]) == arrows_move_focus(sym_key(KeySym::Right))
            &&& Some(editor[window_keys('k')]) == arrows_move_focus(sym_key(KeySym::Up))
            &&& Some(editor[window_keys('j')]) == arrows_move_focus(sym_key(KeySym::Down))
        }),
{
    lemma_single_keys_differ();
    lemma_window_keys_differ();
}

/// Once everything was drawn, nothing is left to draw: no window is due,
/// nor are the frame's borders, and drawing again changes nothing.
pub proof fn law_drawn_once(s: RimView, id: WindowId)
    ensures
        !all_drawn(s).frame_needs_redraw,
        all_drawn(s).windows.contains_key(id) ==> !all_drawn(s).windows[id].needs_redraw,
        all_drawn(all_drawn(s)) == all_drawn(s),
{
    assert(all_drawn(all_drawn(s)).windows =~= all_drawn(s).windows);
}

/// Looking a sequence up after binding it gives the command bound; every
/// other sequence stays bound as it was.
pub proof fn law_lookup_after_bind(
    before: Map<Seq<Key>, Cmd>,
    after: Map<Seq<Key>, Cmd>,
    keys: Seq<Key>,
    cmd: Cmd,
    other: Seq<Key>,
)
    requires
        after == before.insert(keys, cmd),
    ensures
        after.contains_key(keys),
        after[keys] == cmd,
        other != keys ==> after.contains_key(other) == before.contains_key(other),
        other != keys && before.contains_key(other) ==> after[other] == before[other],
{
}

/// The editor-wide mode binds control-w followed by h, l, k, j to moving
/// the focus left, right, up, down; by v to a vertical and s to a
/// horizontal split; by c to closing and = to resetting the layout; y and u
/// grow, control-y and control-u shrink horizontally and vertically; n and
/// N step to the next and previous window; q quits; it ignores other keys.
pub proof fn law_editor_mode_bindings()
    ensures
        ({
            let m = default_mode_spec().keychain;
            &&& m[window_keys('h')] == Cmd::MoveFocus(Direction::Left)
            &&& m[window_keys('l')] == Cmd::MoveFocus(Direction::Right)
            &&& m[window_keys('k')] == Cmd::MoveFocus(Direction::Up)
            &&& m[window_keys('j')] == Cmd::MoveFocus(Direction::Down)
            &&& m[window_keys('v')] == Cmd::SplitWindow(Orientation::Vertical)
            &&& m[window_keys('s')] == Cmd::SplitWindow(Orientation::Horizontal)
            &&& m[window_keys('c')] == Cmd::CloseWindow
            &&& m[window_keys('=')] == Cmd::ResetLayout
            &&& m[seq![char_key('y', MOD_NONE)]] == Cmd::GrowWindow(Orientation::Horizontal)
            &&& m[seq![char_key('y', MOD_CTRL)]] == Cmd::ShrinkWindow(Orientation::Horizontal)
            &&& m[seq![char_key('u', MOD_NONE)]] == Cmd::GrowWindow(Orientation::Vertical)
            &&& m[seq![char_key('u', MOD_CTRL)]] == Cmd::ShrinkWindow(Orientation::Vertical)
            &&& m[seq![char_key('n', MOD_NONE)]] == Cmd::ShiftFocus(WindowOrder::NextWindow)
            &&& m[seq![char_key('N', MOD_NONE)]] == Cmd::ShiftFocus(WindowOrder::PreviousWindow)
            &&& m[seq![char_key('q', MOD_NONE)]] == Cmd::Quit
            &&& m.dom().len() == 15
        }),
        default_mode_spec().fallback == Fallback::Ignore,
{
    lemma_single_keys_differ();
    lemma_window_keys_differ();
    let m = default_mode_spec().keychain;
    assert(m.dom() =~= set![
        window_keys('h'), window_keys('l'), window_keys('k'), window_keys('j'),
        window_keys('v'), window_keys('s'), window_keys('c'), window_keys('='),
        seq![char_key('y', MOD_NONE)], seq![char_key('y', MOD_CTRL)],
        seq![char_key('u', MOD_NONE)], seq![char_key('u', MOD_CTRL)],
        seq![char_key('n', MOD_NONE)], seq![char_key('N', MOD_NONE)],
        seq![char_key('q', MOD_NONE)],
    ]);
}

/// A window's normal mode binds the arrow keys and h, l, k, j to moving the
/// caret a character back and forth and a line up and down, and i to
/// entering the insert mode; it ignores other keys. Its insert mode binds
/// only escape, to entering the normal mode, and falls back on arrow keys
/// moving the focus.
pub proof fn law_window_mode_bindings()
    ensures
        ({
            let m = default_normal_mode_spec().keychain;
            &&& m[seq![sym_key(KeySym::Left)]] == Cmd::WinCmd(WinCmd::MoveCaret(CaretMovement::CharPrev))
            &&& m[seq![sym_key(KeySym::Right)]] == Cmd::WinCmd(WinCmd::MoveCaret(CaretMovement::CharNext))
            &&& m[seq![sym_key(KeySym::Up)]] == Cmd::WinCmd(WinCmd::MoveCaret(CaretMovement::LineUp))
            &&& m[seq![sym_key(KeySym::Down)]] == Cmd::WinCmd(WinCmd::MoveCaret(CaretMovement::LineDown))
            &&& m[seq![char_key('h', MOD_NONE)]] == Cmd::WinCmd(WinCmd::MoveCaret(CaretMovement::CharPrev))
            &&& m[seq![char_key('l', MOD_NONE)]] == Cmd::WinCmd(WinCmd::MoveCaret(CaretMovement::CharNext))
            &&& m[seq![char_key('k', MOD_NONE)]] == Cmd::WinCmd(WinCmd::MoveCaret(CaretMovement::LineUp))
            &&& m[seq![char_key('j', MOD_NONE)]] == Cmd::WinCmd(WinCmd::MoveCaret(CaretMovement::LineDown))
            &&& m[seq![char_key('i', MOD_NONE)]] == Cmd::WinCmd(WinCmd::EnterInsertMode)
            &&& m.dom().len() == 9
        }),
        default_normal_mode_spec().fallback == Fallback::Ignore,
        default_insert_mode_spec().keychain.dom() == set![seq![sym_key(KeySym::Escape)]],
        default_insert_mode_spec().keychain[seq![sym_key(KeySym::Escape)]] == Cmd::WinCmd(WinCmd::EnterNormalMode),
        default_insert_mode_spec().fallback == Fallback::ArrowsMoveFocus,
{
    lemma_single_keys_differ();
    let m = default_normal_mode_spec().keychain;
    assert(m.dom() =~= set![
        seq![sym_key(KeySym::Left)], seq![sym_key(KeySym::Right)],
        seq![sym_key(KeySym::Up)], seq![sym_key(KeySym::Down)],
        seq![char_key('h', MOD_NONE)], seq![char_key('l', MOD_NONE)],
        seq![char_key('k', MOD_NONE)], seq![char_key('j', MOD_NONE)],
        seq![char_key('i', MOD_NONE)],
    ]);
    assert(default_insert_mode_spec().keychain.dom() =~= set![seq![sym_key(KeySym::Escape)]]);
}

} // verus!
