use vstd::prelude::*;
use crate::command::{arrows_move_focus, fallback_cmd_spec, Cmd, Fallback, WinCmd};
use crate::editor::{
    all_drawn, all_redrawn, focus_present, frame_request_spec, handle_cmd_spec,
    invalidate_spec, new_rim_spec, new_window_spec, resize_spec, set_focus_spec, ActionView,
    FrameReply, FrameRequest, RimView, WindowView,
};
use crate::frame::{Direction, Orientation, WindowId, WindowOrder};
use crate::keymap::{Key, KeySym};
use crate::modes::{default_insert_mode_spec, default_mode_spec, default_normal_mode_spec};
use crate::screen::{Cell, Rect, Size};
use crate::view::CaretMovement;

verus! {

/// `t` is `u` with the command acknowledged: the same windows, focus and
/// flags, and one more action, the acknowledgement.
pub open spec fn acked(t: RimView, u: RimView) -> bool {
    &&& t.windows == u.windows
    &&& t.focus == u.focus
    &&& t.frame_needs_redraw == u.frame_needs_redraw
    &&& t.quit == u.quit
    &&& t.actions == u.actions.push(ActionView::AckCmd)
}

/// Window `w` with its place and modes as in `v`.
pub open spec fn same_place_and_modes(w: WindowView, v: WindowView) -> bool {
    &&& w.rect == v.rect
    &&& w.normal_mode == v.normal_mode
    &&& w.insert_mode == v.insert_mode
}

/// Each command asks the frame for the operation it names, on the focused
/// window, in the command's own direction, order or orientation; growing
/// asks for ten more cells, shrinking for ten fewer; the rest ask nothing.
pub proof fn law_frame_requests(focus: WindowId, d: Direction, ord: WindowOrder, o: Orientation, c: WinCmd)
    ensures
        frame_request_spec(focus, Cmd::MoveFocus(d)) == (FrameRequest::AdjacentWindow { from: focus, direction: d }),
        frame_request_spec(focus, Cmd::ShiftFocus(ord))
            == (FrameRequest::SequentWindow { from: focus, order: ord, wrap: true }),
        frame_request_spec(focus, Cmd::ResetLayout) == FrameRequest::ResetLayout,
        frame_request_spec(focus, Cmd::SplitWindow(o)) == (FrameRequest::SplitWindow { win: focus, orientation: o }),
        frame_request_spec(focus, Cmd::GrowWindow(o))
            == (FrameRequest::ResizeWindow { win: focus, orientation: o, amount: 10 }),
        frame_request_spec(focus, Cmd::ShrinkWindow(o))
            == (FrameRequest::ResizeWindow { win: focus, orientation: o, amount: -10isize }),
        frame_request_spec(focus, Cmd::CloseWindow) == (FrameRequest::CloseWindow { win: focus }),
        frame_request_spec(focus, Cmd::Quit) == FrameRequest::Nothing,
        frame_request_spec(focus, Cmd::WinCmd(c)) == FrameRequest::Nothing,
{
}

/// Giving the focus to a window of the table: that window has the focus,
/// both it and the window that had the focus are to be drawn again, every
/// other window stays as it was, no window moves or changes its modes, the
/// new window's normal mode is installed at the window level, and the
/// flags stay.
pub proof fn law_focus_moves(s: RimView, id: WindowId)
    requires
        focus_present(s),
        s.windows.contains_key(id),
    ensures
        ({
            let t = set_focus_spec(s, id);
            &&& t.focus == id
            &&& t.windows.dom() == s.windows.dom()
            &&& t.windows[id].needs_redraw
            &&& t.windows[s.focus].needs_redraw
            &&& forall|k: WindowId| #[trigger] s.windows.contains_key(k) ==>
                same_place_and_modes(t.windows[k], s.windows[k])
            &&& forall|k: WindowId| #[trigger] s.windows.contains_key(k) && k != id && k != s.focus ==>
                t.windows[k] == s.windows[k]
            &&& t.actions == s.actions.push(ActionView::SetMode { mode: s.windows[id].normal_mode, level: 1 })
            &&& t.frame_needs_redraw == s.frame_needs_redraw
            &&& t.quit == s.quit
        }),
{
    assert(set_focus_spec(s, id).windows.dom() =~= s.windows.dom());
}

/// Moving the focus in a direction, or through the frame's order, gives
/// the focus to the window that the frame found, then acknowledges; when
/// the frame found none, only the acknowledgement is asked.
pub proof fn law_focus_commands(s: RimView, d: Direction, ord: WindowOrder, id: WindowId)
    requires
        focus_present(s),
        s.windows.contains_key(id),
    ensures
        handle_cmd_spec(s, Cmd::MoveFocus(d), FrameReply::Window(Some(id))).focus == id,
        handle_cmd_spec(s, Cmd::ShiftFocus(ord), FrameReply::Window(Some(id))).focus == id,
        acked(handle_cmd_spec(s, Cmd::MoveFocus(d), FrameReply::Window(Some(id))), set_focus_spec(s, id)),
        acked(handle_cmd_spec(s, Cmd::ShiftFocus(ord), FrameReply::Window(Some(id))), set_focus_spec(s, id)),
        acked(handle_cmd_spec(s, Cmd::MoveFocus(d), FrameReply::Window(None)), s),
        acked(handle_cmd_spec(s, Cmd::ShiftFocus(ord), FrameReply::Window(None)), s),
{
}

/// Resizing the focused window lays the windows out afresh whenever the
/// window took or gave up cells, growing or shrinking; when it took none,
/// nothing changes. Either way the command is acknowledged.
pub proof fn law_resize_lays_out_when_cells_move(
    s: RimView,
    o: Orientation,
    absorbed: isize,
    layout: Vec<(WindowId, Rect)>,
)
    ensures
        absorbed != 0 ==> resize_spec(s, absorbed, layout@) == invalidate_spec(s, layout@),
        absorbed == 0 ==> resize_spec(s, absorbed, layout@) == s,
        acked(
            handle_cmd_spec(s, Cmd::GrowWindow(o), FrameReply::Resized { absorbed, layout }),
            if absorbed != 0 { invalidate_spec(s, layout@) } else { s },
        ),
        acked(
            handle_cmd_spec(s, Cmd::ShrinkWindow(o), FrameReply::Resized { absorbed, layout }),
            if absorbed != 0 { invalidate_spec(s, layout@) } else { s },
        ),
{
}

/// Resetting the layout places the windows where the frame's new layout
/// puts them, then acknowledges.
pub proof fn law_reset_layout(s: RimView, layout: Vec<(WindowId, Rect)>)
    ensures
        acked(handle_cmd_spec(s, Cmd::ResetLayout, FrameReply::Layout(layout)), invalidate_spec(s, layout@)),
{
}

/// A window just opened stands nowhere yet, is to be drawn, and has the
/// default normal and insert modes.
pub proof fn law_new_window()
    ensures
        new_window_spec().rect == Rect(Cell(0, 0), Size(0, 0)),
        new_window_spec().needs_redraw,
        new_window_spec().normal_mode == default_normal_mode_spec(),
        new_window_spec().insert_mode == default_insert_mode_spec(),
{
}

/// Splitting adds the window that the frame split off, just opened, keeps
/// the focus, and places the windows where the frame's layout puts them,
/// then acknowledges.
pub proof fn law_split(s: RimView, o: Orientation, new_win: WindowId, layout: Vec<(WindowId, Rect)>)
    ensures
        ({
            let t = handle_cmd_spec(s, Cmd::SplitWindow(o), FrameReply::Split { new_win, layout });
            let u = RimView { windows: s.windows.insert(new_win, new_window_spec()), ..s };
            &&& acked(t, invalidate_spec(u, layout@))
            &&& t.focus == s.focus
            &&& t.windows.dom() == s.windows.dom().insert(new_win)
        }),
{
    let u = RimView { windows: s.windows.insert(new_win, new_window_spec()), ..s };
    assert(invalidate_spec(u, layout@).windows.dom() =~= s.windows.dom().insert(new_win));
}

/// Closing the focused window, when the frame found a neighbour for it,
/// gives the focus to the neighbour, takes the closed window out of the
/// table and places the rest where the frame's layout puts them; with no
/// neighbour only the acknowledgement is asked.
pub proof fn law_close(s: RimView, n: WindowId, layout: Vec<(WindowId, Rect)>)
    requires
        focus_present(s),
        s.windows.contains_key(n),
        n != s.focus,
    ensures
        ({
            let t = handle_cmd_spec(s, Cmd::CloseWindow, FrameReply::Closed { neighbour: Some(n), layout });
            let f = set_focus_spec(s, n);
            &&& acked(t, invalidate_spec(RimView { windows: f.windows.remove(s.focus), ..f }, layout@))
            &&& t.focus == n
            &&& t.windows.dom() == s.windows.dom().remove(s.focus)
        }),
        acked(handle_cmd_spec(s, Cmd::CloseWindow, FrameReply::Closed { neighbour: None, layout }), s),
{
    let f = set_focus_spec(s, n);
    assert(invalidate_spec(RimView { windows: f.windows.remove(s.focus), ..f }, layout@).windows.dom()
        =~= s.windows.dom().remove(s.focus));
}

/// Quitting sets the quit flag and changes nothing else but the
/// acknowledgement.
pub proof fn law_quit(s: RimView, reply: FrameReply)
    ensures
        acked(handle_cmd_spec(s, Cmd::Quit, reply), RimView { quit: true, ..s }),
        handle_cmd_spec(s, Cmd::Quit, reply).quit,
{
}

/// Window commands act on the focused window only: moving the caret asks
/// the focused window's view to move it and marks that window to be drawn;
/// entering a mode installs the focused window's mode of that name at the
/// window level and changes no window. Each is then acknowledged.
pub proof fn law_window_commands(s: RimView, m: CaretMovement, reply: FrameReply)
    requires
        focus_present(s),
    ensures
        ({
            let t = handle_cmd_spec(s, Cmd::WinCmd(WinCmd::MoveCaret(m)), reply);
            &&& t.windows.dom() == s.windows.dom()
            &&& t.windows[s.focus].needs_redraw
            &&& same_place_and_modes(t.windows[s.focus], s.windows[s.focus])
            &&& forall|k: WindowId| #[trigger] s.windows.contains_key(k) && k != s.focus ==>
                t.windows[k] == s.windows[k]
            &&& t.focus == s.focus
            &&& t.quit == s.quit
            &&& t.frame_needs_redraw == s.frame_needs_redraw
            &&& t.actions == s.actions.push(ActionView::MoveCaret { win_id: s.focus, movement: m })
                .push(ActionView::AckCmd)
        }),
        acked(
            handle_cmd_spec(s, Cmd::WinCmd(WinCmd::EnterNormalMode), reply),
            RimView {
                actions: s.actions.push(
                    ActionView::SetMode { mode: s.windows[s.focus].normal_mode, level: 1 },
                ),
                ..s
            },
        ),
        acked(
            handle_cmd_spec(s, Cmd::WinCmd(WinCmd::EnterInsertMode), reply),
            RimView {
                actions: s.actions.push(
                    ActionView::SetMode { mode: s.windows[s.focus].insert_mode, level: 1 },
                ),
                ..s
            },
        ),
{
    let t = handle_cmd_spec(s, Cmd::WinCmd(WinCmd::MoveCaret(m)), reply);
    assert(t.windows.dom() =~= s.windows.dom());
    let w = s.windows[s.focus];
    assert(s.windows.insert(s.focus, w) =~= s.windows);
}

/// The editor starts with one window, just opened and focused, the frame's
/// borders to be drawn, and asks to install the editor-wide mode at level 0,
/// then the window's normal mode at level 1.
pub proof fn law_start(first_win: WindowId)
    ensures
        ({
            let t = new_rim_spec(first_win);
            &&& t.windows.dom() == set![first_win]
            &&& t.windows[first_win] == new_window_spec()
            &&& t.focus == first_win
            &&& t.frame_needs_redraw
            &&& !t.quit
            &&& t.actions == seq![
                ActionView::SetMode { mode: default_mode_spec(), level: 0 },
                ActionView::SetMode { mode: default_normal_mode_spec(), level: 1 },
            ]
        }),
{
    assert(new_rim_spec(first_win).windows.dom() =~= set![first_win]);
}

/// After a round of drawing no window and no border is due, nothing else
/// changed; after the screen changed size every window is due, and nothing
/// else changed.
pub proof fn law_draw_marks(s: RimView, id: WindowId)
    requires
        s.windows.contains_key(id),
    ensures
        all_drawn(s).windows.dom() == s.windows.dom(),
        !all_drawn(s).windows[id].needs_redraw,
        same_place_and_modes(all_drawn(s).windows[id], s.windows[id]),
        !all_drawn(s).frame_needs_redraw,
        all_drawn(s).focus == s.focus && all_drawn(s).quit == s.quit && all_drawn(s).actions == s.actions,
        all_redrawn(s).windows.dom() == s.windows.dom(),
        all_redrawn(s).windows[id].needs_redraw,
        same_place_and_modes(all_redrawn(s).windows[id], s.windows[id]),
        all_redrawn(s).frame_needs_redraw == s.frame_needs_redraw,
        all_redrawn(s).focus == s.focus && all_redrawn(s).quit == s.quit && all_redrawn(s).actions == s.actions,
{
    assert(all_drawn(s).windows.dom() =~= s.windows.dom());
    assert(all_redrawn(s).windows.dom() =~= s.windows.dom());
}

/// In the insert mode's fallback an arrow key, with any modifiers, moves
/// the focus in the arrow's own direction; no other key is a command. A
/// mode that ignores keys gives no key a command.
pub proof fn law_arrow_fallback(mods: u8, c: char)
    ensures
        arrows_move_focus(Key::Sym { sym: KeySym::Left, mods }) == Some(Cmd::MoveFocus(Direction::Left)),
        arrows_move_focus(Key::Sym { sym: KeySym::Right, mods }) == Some(Cmd::MoveFocus(Direction::Right)),
        arrows_move_focus(Key::Sym { sym: KeySym::Up, mods }) == Some(Cmd::MoveFocus(Direction::Up)),
        arrows_move_focus(Key::Sym { sym: KeySym::Down, mods }) == Some(Cmd::MoveFocus(Direction::Down)),
        arrows_move_focus(Key::Sym { sym: KeySym::Escape, mods }) == None::<Cmd>,
        arrows_move_focus(Key::Unicode { codepoint: c, mods }) == None::<Cmd>,
        fallback_cmd_spec(Fallback::ArrowsMoveFocus, Key::Sym { sym: KeySym::Up, mods })
            == Some(Cmd::MoveFocus(Direction::Up)),
        fallback_cmd_spec(Fallback::ArrowsMoveFocus, Key::Unicode { codepoint: c, mods }) == None::<Cmd>,
        fallback_cmd_spec(Fallback::Ignore, Key::Sym { sym: KeySym::Up, mods }) == None::<Cmd>,
        fallback_cmd_spec(Fallback::Ignore, Key::Unicode { codepoint: c, mods }) == None::<Cmd>,
{
}

} // verus!
