use vstd::prelude::*;
use std::collections::HashMap;
use crate::command::{Cmd, Mode, ModeView, WinCmd};
use crate::frame::{Direction, Orientation, WindowId, WindowOrder};
use crate::modes::{
    default_insert_mode, default_insert_mode_spec, default_mode, default_mode_spec,
    default_normal_mode, default_normal_mode_spec,
};
use crate::screen::{Cell, Rect, Size};
use crate::view::CaretMovement;

verus! {

broadcast use vstd::std_specs::hash::group_hash_axioms;

/// The level at which the editor-wide mode is installed in the command thread.
pub const EDITOR_MODE_LEVEL: usize = 0;

/// The level at which a window's mode is installed in the command thread,
/// above the editor-wide mode.
pub const WINDOW_MODE_LEVEL: usize = 1;

/// How many cells a window grows or shrinks by at a time.
pub const RESIZE_STEP: isize = 10;

/// A window as a value.
#[verifier::ext_equal]
pub struct WindowView {
    pub rect: Rect,
    pub needs_redraw: bool,
    pub normal_mode: ModeView,
    pub insert_mode: ModeView,
}

/// A window of the frame: where it stands on the screen, whether it has to
/// be drawn again, and its own normal and insert modes.
pub struct Window {
    pub rect: Rect,
    pub needs_redraw: bool,
    pub normal_mode: Mode,
    pub insert_mode: Mode,
}

impl View for Window {
    type V = WindowView;

    open spec fn view(&self) -> WindowView {
        WindowView {
            rect: self.rect,
            needs_redraw: self.needs_redraw,
            normal_mode: self.normal_mode@,
            insert_mode: self.insert_mode@,
        }
    }
}

/// A window that was just opened: it has no place on the screen yet, has to
/// be drawn, and has the default normal and insert modes.
pub open spec fn new_window_spec() -> WindowView {
    WindowView {
        rect: Rect(Cell(0, 0), Size(0, 0)),
        needs_redraw: true,
        normal_mode: default_normal_mode_spec(),
        insert_mode: default_insert_mode_spec(),
    }
}

impl Window {
    /// A window that was just opened.
    pub fn new() -> (w: Window)
        ensures
            w@ == new_window_spec(),
    {
        Window {
            rect: Rect(Cell(0, 0), Size(0, 0)),
            needs_redraw: true,
            normal_mode: default_normal_mode(),
            insert_mode: default_insert_mode(),
        }
    }
}

/// An action as a value.
pub enum ActionView {
    SetMode { mode: ModeView, level: usize },
    ResizeView { win_id: WindowId, size: Size },
    MoveCaret { win_id: WindowId, movement: CaretMovement },
    AckCmd,
}

/// Work that the editor asks of the parts around it, in the order asked.
pub enum Action {
    /// Install `mode` at `level` in the command thread.
    SetMode { mode: Mode, level: usize },
    /// Give the view of window `win_id` the size `size`.
    ResizeView { win_id: WindowId, size: Size },
    /// Move the caret of the view of window `win_id`.
    MoveCaret { win_id: WindowId, movement: CaretMovement },
    /// Tell the command thread that its last command was handled.
    AckCmd,
}

impl View for Action {
    type V = ActionView;

    open spec fn view(&self) -> ActionView {
        match self {
            Action::SetMode { mode, level } => ActionView::SetMode { mode: mode@, level: *level },
            Action::ResizeView { win_id, size } => ActionView::ResizeView { win_id: *win_id, size: *size },
            Action::MoveCaret { win_id, movement } => ActionView::MoveCaret { win_id: *win_id, movement: *movement },
            Action::AckCmd => ActionView::AckCmd,
        }
    }
}

/// The editor's state as a value.
#[verifier::ext_equal]
pub struct RimView {
    pub windows: Map<WindowId, WindowView>,
    pub focus: WindowId,
    pub frame_needs_redraw: bool,
    pub quit: bool,
    pub actions: Seq<ActionView>,
}

/// The editor: its windows, the one with the focus, whether the frame's
/// borders have to be drawn again, whether to quit, and the actions asked
/// of the parts around it that they have not taken yet.
pub struct Rim {
    pub windows: HashMap<WindowId, Window>,
    pub focus: WindowId,
    pub frame_needs_redraw: bool,
    pub quit: bool,
    pub actions: Vec<Action>,
}

impl View for Rim {
    type V = RimView;

    open spec fn view(&self) -> RimView {
        RimView {
            windows: self.windows@.map_values(|w: Window| w@),
            focus: self.focus,
            frame_needs_redraw: self.frame_needs_redraw,
            quit: self.quit,
            actions: self.actions@.map_values(|a: Action| a@),
        }
    }
}

/// The focused window is one of the windows.
pub open spec fn focus_present(s: RimView) -> bool {
    s.windows.contains_key(s.focus)
}

/// `s` with `action` asked after its other actions.
pub open spec fn emitted(s: RimView, action: ActionView) -> RimView {
    RimView { actions: s.actions.push(action), ..s }
}

/// `w`, to be drawn again.
pub open spec fn redrawn(w: WindowView) -> WindowView {
    WindowView { needs_redraw: true, ..w }
}

/// The editor just started, with one window `first_win`.
pub open spec fn new_rim_spec(first_win: WindowId) -> RimView {
    RimView {
        windows: Map::<WindowId, WindowView>::empty().insert(first_win, new_window_spec()),
        focus: first_win,
        frame_needs_redraw: true,
        quit: false,
        actions: seq![
            ActionView::SetMode { mode: default_mode_spec(), level: EDITOR_MODE_LEVEL },
            ActionView::SetMode { mode: default_normal_mode_spec(), level: WINDOW_MODE_LEVEL },
        ],
    }
}

/// The focus moved to `win_id`: its normal mode is installed, and both it
/// and the window that had the focus are to be drawn again.
pub open spec fn set_focus_spec(s: RimView, win_id: WindowId) -> RimView {
    RimView {
        windows: s.windows.insert(win_id, redrawn(s.windows[win_id])).insert(
            s.focus,
            redrawn(s.windows[s.focus]),
        ),
        focus: win_id,
        actions: s.actions.push(
            ActionView::SetMode { mode: s.windows[win_id].normal_mode, level: WINDOW_MODE_LEVEL },
        ),
        ..s
    }
}

/// The focus moved to the window that the frame found, if it found one.
pub open spec fn focus_to_spec(s: RimView, target: Option<WindowId>) -> RimView {
    match target {
        Some(win_id) => set_focus_spec(s, win_id),
        None => s,
    }
}

/// The rectangle that the frame gives each window named in `layout`.
pub open spec fn layout_map(layout: Seq<(WindowId, Rect)>) -> Map<WindowId, Rect>
    decreases layout.len(),
{
    if layout.len() == 0 {
        Map::empty()
    } else {
        layout_map(layout.drop_last()).insert(layout.last().0, layout.last().1)
    }
}

/// `layout` names no window twice and gives a rectangle to each of `ids`.
pub open spec fn layout_fits(layout: Seq<(WindowId, Rect)>, ids: Set<WindowId>) -> bool {
    &&& forall|a: int, b: int| 0 <= a < b < layout.len() ==> layout[a].0 != layout[b].0
    &&& forall|id: WindowId| ids.contains(id) ==> layout_map(layout).contains_key(id)
}

/// `w` placed at `rect`: when that moves it, it is to be drawn again.
pub open spec fn relaid(w: WindowView, rect: Rect) -> WindowView {
    if w.rect == rect {
        w
    } else {
        WindowView { rect, needs_redraw: true, ..w }
    }
}

/// The windows, each placed where `layout` puts it.
pub open spec fn relayout_windows(
    windows: Map<WindowId, WindowView>,
    layout: Seq<(WindowId, Rect)>,
) -> Map<WindowId, WindowView> {
    windows.map_entries(
        |id: WindowId, w: WindowView|
            if layout_map(layout).contains_key(id) {
                relaid(w, layout_map(layout)[id])
            } else {
                w
            },
    )
}

/// The views to be given a new size, in the order of `layout`: those of
/// the windows whose size `layout` changes.
pub open spec fn resize_actions(
    windows: Map<WindowId, WindowView>,
    layout: Seq<(WindowId, Rect)>,
) -> Seq<ActionView>
    decreases layout.len(),
{
    if layout.len() == 0 {
        Seq::empty()
    } else {
        let earlier = resize_actions(windows, layout.drop_last());
        let id = layout.last().0;
        let rect = layout.last().1;
        if windows.contains_key(id) && windows[id].rect.1 != rect.1 {
            earlier.push(ActionView::ResizeView { win_id: id, size: rect.1 })
        } else {
            earlier
        }
    }
}

/// The windows placed where the frame's `layout` puts them, the views of
/// resized windows given their new size, and the frame's borders to be
/// drawn again.
pub open spec fn invalidate_spec(s: RimView, layout: Seq<(WindowId, Rect)>) -> RimView {
    RimView {
        windows: relayout_windows(s.windows, layout),
        frame_needs_redraw: true,
        actions: s.actions + resize_actions(s.windows, layout),
        ..s
    }
}

/// A window is named in the layout exactly when some entry names it.
pub proof fn lemma_layout_map_dom(layout: Seq<(WindowId, Rect)>, id: WindowId)
    ensures
        layout_map(layout).contains_key(id) <==> exists|j: int| 0 <= j < layout.len() && layout[j].0 == id,
    decreases layout.len(),
{
    if layout.len() > 0 {
        let rest = layout.drop_last();
        lemma_layout_map_dom(rest, id);
        if layout_map(layout).contains_key(id) && layout.last().0 != id {
            let j = choose|j: int| 0 <= j < rest.len() && rest[j].0 == id;
            assert(layout[j].0 == id);
        }
        if exists|j: int| 0 <= j < layout.len() && layout[j].0 == id {
            let j = choose|j: int| 0 <= j < layout.len() && layout[j].0 == id;
            if j < layout.len() - 1 {
                assert(rest[j].0 == id);
            }
        }
    }
}

/// What a command asks of the frame before the editor can carry it out.
#[derive(Clone, Copy, PartialEq, Eq, Structural, Debug)]
pub enum FrameRequest {
    /// Nothing.
    Nothing,
    /// The window next to `from` in `direction`, if there is one.
    AdjacentWindow { from: WindowId, direction: Direction },
    /// The window before or after `from` in the frame's order, going round
    /// at the ends when `wrap` holds, if there is one.
    SequentWindow { from: WindowId, order: WindowOrder, wrap: bool },
    /// Lay the windows out afresh, then tell where each one stands.
    ResetLayout,
    /// Split window `win`, then tell the new window and where each one stands.
    SplitWindow { win: WindowId, orientation: Orientation },
    /// Grow window `win` by `amount` cells (shrink it when `amount` is
    /// negative), then tell how many cells it took and where each one stands.
    ResizeWindow { win: WindowId, orientation: Orientation, amount: isize },
    /// The window closest to `win`; when there is one, close `win` and tell
    /// where each remaining window stands.
    CloseWindow { win: WindowId },
}

/// The frame's answer to a `FrameRequest`.
pub enum FrameReply {
    /// Nothing was asked.
    Nothing,
    /// The window found, if any.
    Window(Option<WindowId>),
    /// Where each window stands after the layout was reset.
    Layout(Vec<(WindowId, Rect)>),
    /// The window that the split made, and where each window stands.
    Split { new_win: WindowId, layout: Vec<(WindowId, Rect)> },
    /// How many cells the resized window took, and where each window stands.
    Resized { absorbed: isize, layout: Vec<(WindowId, Rect)> },
    /// The window closest to the closed one, if there was one (else nothing
    /// was closed), and where each window stands.
    Closed { neighbour: Option<WindowId>, layout: Vec<(WindowId, Rect)> },
}

/// What `cmd` asks of the frame while window `focus` has the focus.
pub open spec fn frame_request_spec(focus: WindowId, cmd: Cmd) -> FrameRequest {
    match cmd {
        Cmd::MoveFocus(direction) => FrameRequest::AdjacentWindow { from: focus, direction },
        Cmd::ShiftFocus(order) => FrameRequest::SequentWindow { from: focus, order, wrap: true },
        Cmd::ResetLayout => FrameRequest::ResetLayout,
        Cmd::SplitWindow(orientation) => FrameRequest::SplitWindow { win: focus, orientation },
        Cmd::GrowWindow(orientation) => FrameRequest::ResizeWindow {
            win: focus,
            orientation,
            amount: RESIZE_STEP,
        },
        Cmd::ShrinkWindow(orientation) => FrameRequest::ResizeWindow {
            win: focus,
            orientation,
            amount: (-RESIZE_STEP) as isize,
        },
        Cmd::CloseWindow => FrameRequest::CloseWindow { win: focus },
        Cmd::Quit => FrameRequest::Nothing,
        Cmd::WinCmd(_) => FrameRequest::Nothing,
    }
}

/// A new window `new_win` was split off and the windows placed where the
/// frame's `layout` puts them; the focus stays.
pub open spec fn split_spec(s: RimView, new_win: WindowId, layout: Seq<(WindowId, Rect)>) -> RimView {
    invalidate_spec(RimView { windows: s.windows.insert(new_win, new_window_spec()), ..s }, layout)
}

/// The focused window was resized: when it took or gave up cells, the
/// windows are placed where the frame's `layout` puts them.
pub open spec fn resize_spec(s: RimView, absorbed: isize, layout: Seq<(WindowId, Rect)>) -> RimView {
    if absorbed != 0 {
        invalidate_spec(s, layout)
    } else {
        s
    }
}

/// The focused window was closed, when the frame found a `neighbour` for
/// it: the focus moves to the neighbour, the window leaves the table, and
/// the windows are placed where the frame's `layout` puts them.
pub open spec fn close_spec(
    s: RimView,
    neighbour: Option<WindowId>,
    layout: Seq<(WindowId, Rect)>,
) -> RimView {
    match neighbour {
        Some(n) => {
            let t = set_focus_spec(s, n);
            invalidate_spec(RimView { windows: t.windows.remove(s.focus), ..t }, layout)
        },
        None => s,
    }
}

/// What a window command asks of the parts around the editor, for window
/// `w` that has the focus as window `focus`.
pub open spec fn win_cmd_action(focus: WindowId, cmd: WinCmd, w: WindowView) -> ActionView {
    match cmd {
        WinCmd::MoveCaret(movement) => ActionView::MoveCaret { win_id: focus, movement },
        WinCmd::EnterNormalMode => ActionView::SetMode { mode: w.normal_mode, level: WINDOW_MODE_LEVEL },
        WinCmd::EnterInsertMode => ActionView::SetMode { mode: w.insert_mode, level: WINDOW_MODE_LEVEL },
    }
}

/// Window `w` after a window command: a moved caret has to be drawn.
pub open spec fn win_cmd_window(cmd: WinCmd, w: WindowView) -> WindowView {
    match cmd {
        WinCmd::MoveCaret(_) => redrawn(w),
        _ => w,
    }
}

/// The frame's `reply` answers what `cmd` asks of it, as the frame does: it
/// names known windows, a neighbour other than the window to close, and a
/// layout that gives each window one rectangle.
pub open spec fn reply_fits(s: RimView, cmd: Cmd, reply: FrameReply) -> bool {
    match cmd {
        Cmd::MoveFocus(_) | Cmd::ShiftFocus(_) => reply matches FrameReply::Window(target)
            && (target matches Some(id) ==> s.windows.contains_key(id)),
        Cmd::ResetLayout => reply matches FrameReply::Layout(layout)
            && layout_fits(layout@, s.windows.dom()),
        Cmd::SplitWindow(_) => reply matches FrameReply::Split { new_win, layout }
            && layout_fits(layout@, s.windows.dom().insert(new_win)),
        Cmd::GrowWindow(_) | Cmd::ShrinkWindow(_) => reply matches FrameReply::Resized { absorbed, layout }
            && (absorbed != 0 ==> layout_fits(layout@, s.windows.dom())),
        Cmd::CloseWindow => reply matches FrameReply::Closed { neighbour, layout }
            && (neighbour matches Some(n) ==> {
                &&& s.windows.contains_key(n)
                &&& n != s.focus
                &&& layout_fits(layout@, s.windows.dom().remove(s.focus))
            }),
        Cmd::Quit | Cmd::WinCmd(_) => true,
    }
}

/// The editor after carrying out `cmd` with the frame's `reply`, before the
/// command is acknowledged.
pub open spec fn carry_out_spec(s: RimView, cmd: Cmd, reply: FrameReply) -> RimView {
    match cmd {
        Cmd::MoveFocus(_) | Cmd::ShiftFocus(_) => match reply {
            FrameReply::Window(target) => focus_to_spec(s, target),
            _ => s,
        },
        Cmd::ResetLayout => match reply {
            FrameReply::Layout(layout) => invalidate_spec(s, layout@),
            _ => s,
        },
        Cmd::SplitWindow(_) => match reply {
            FrameReply::Split { new_win, layout } => split_spec(s, new_win, layout@),
            _ => s,
        },
        Cmd::GrowWindow(_) | Cmd::ShrinkWindow(_) => match reply {
            FrameReply::Resized { absorbed, layout } => resize_spec(s, absorbed, layout@),
            _ => s,
        },
        Cmd::CloseWindow => match reply {
            FrameReply::Closed { neighbour, layout } => close_spec(s, neighbour, layout@),
            _ => s,
        },
        Cmd::Quit => RimView { quit: true, ..s },
        Cmd::WinCmd(c) => RimView {
            windows: s.windows.insert(s.focus, win_cmd_window(c, s.windows[s.focus])),
            actions: s.actions.push(win_cmd_action(s.focus, c, s.windows[s.focus])),
            ..s
        },
    }
}

/// The editor after handling `cmd` with the frame's `reply`: the command is
/// carried out, then acknowledged.
pub open spec fn handle_cmd_spec(s: RimView, cmd: Cmd, reply: FrameReply) -> RimView {
    emitted(carry_out_spec(s, cmd, reply), ActionView::AckCmd)
}

/// Every window to be drawn again.
pub open spec fn all_redrawn(s: RimView) -> RimView {
    RimView { windows: s.windows.map_values(|w: WindowView| redrawn(w)), ..s }
}

/// `w`, drawn.
pub open spec fn drawn(w: WindowView) -> WindowView {
    WindowView { needs_redraw: false, ..w }
}

/// Nothing left to draw: the frame's borders and every window are drawn.
pub open spec fn all_drawn(s: RimView) -> RimView {
    RimView {
        windows: s.windows.map_values(|w: WindowView| drawn(w)),
        frame_needs_redraw: false,
        ..s
    }
}

/// What is to be drawn on the screen in one round.
pub struct Redraw {
    /// The frame's borders.
    pub borders: bool,
    /// These windows, each once.
    pub windows: Vec<WindowId>,
    /// Whether the screen is to be flushed: something was drawn.
    pub flush: bool,
}

/// After `x` is pushed, `t` holds what it held, and `x`; when `t` held no
/// item twice and did not hold `x`, it still holds no item twice.
proof fn lemma_push_contains(t: Seq<WindowId>, x: WindowId)
    ensures
        forall|k: WindowId| #[trigger] t.push(x).contains(k) == (t.contains(k) || k == x),
        t.no_duplicates() && !t.contains(x) ==> t.push(x).no_duplicates(),
{
    assert forall|k: WindowId| #[trigger] t.push(x).contains(k) == (t.contains(k) || k == x) by {
        if t.push(x).contains(k) && k != x {
            let j = choose|j: int| 0 <= j < t.len() + 1 && #[trigger] t.push(x)[j] == k;
            assert(t[j] == k);
        }
        if t.contains(k) {
            let j = choose|j: int| 0 <= j < t.len() && #[trigger] t[j] == k;
            assert(t.push(x)[j] == k);
        }
        if k == x {
            assert(t.push(x)[t.len() as int] == k);
        }
    }
    if t.no_duplicates() && !t.contains(x) {
        assert forall|a: int, b: int| 0 <= a < t.push(x).len() && 0 <= b < t.push(x).len() && a != b
            implies t.push(x)[a] != t.push(x)[b] by {
            if a == t.len() {
                assert(t[b] == t.push(x)[b]);
            } else if b == t.len() {
                assert(t[a] == t.push(x)[a]);
            }
        }
    }
}

/// The first `i + 1` items of `s` hold what the first `i` hold, and `s[i]`.
proof fn lemma_take_one_more(s: Seq<WindowId>, i: int)
    requires
        0 <= i < s.len(),
    ensures
        forall|k: WindowId| #[trigger] s.take(i + 1).contains(k) == (s.take(i).contains(k) || k == s[i]),
{
    assert(s.take(i + 1) =~= s.take(i).push(s[i]));
    lemma_push_contains(s.take(i), s[i]);
}

impl Rim {
    /// The focused window is one of the windows.
    pub open spec fn wf(&self) -> bool {
        focus_present(self@)
    }

    /// The editor with one window, `first_win`, which has the focus; the
    /// editor-wide mode and the window's normal mode are installed.
    pub fn new(first_win: WindowId) -> (r: Rim)
        ensures
            r.wf(),
            r@ == new_rim_spec(first_win),
    {
        let mut windows: HashMap<WindowId, Window> = HashMap::new();
        let first = Window::new();
        let mut actions: Vec<Action> = Vec::new();
        actions.push(Action::SetMode { mode: default_mode(), level: EDITOR_MODE_LEVEL });
        actions.push(Action::SetMode { mode: first.normal_mode.clone(), level: WINDOW_MODE_LEVEL });
        windows.insert(first_win, first);
        let r = Rim { windows, focus: first_win, frame_needs_redraw: true, quit: false, actions };
        assert(r@.windows =~= new_rim_spec(first_win).windows);
        assert(r@.actions =~= new_rim_spec(first_win).actions);
        r
    }

    /// Asks `action` after the actions asked before.
    fn emit(&mut self, action: Action)
        ensures
            final(self)@ == emitted(old(self)@, action@),
    {
        self.actions.push(action);
        assert(final(self)@.actions =~= old(self)@.actions.push(action@));
    }

    /// Marks window `win_id` to be drawn again.
    fn mark_for_redraw(&mut self, win_id: WindowId)
        requires
            old(self)@.windows.contains_key(win_id),
        ensures
            final(self)@ == (RimView {
                windows: old(self)@.windows.insert(win_id, redrawn(old(self)@.windows[win_id])),
                ..old(self)@
            }),
    {
        let mut win = self.windows.remove(&win_id).unwrap();
        win.needs_redraw = true;
        self.windows.insert(win_id, win);
        assert(final(self)@.windows =~= old(self)@.windows.insert(
            win_id,
            redrawn(old(self)@.windows[win_id]),
        ));
    }

    /// Takes window `win_id` out of the table.
    fn take_window(&mut self, win_id: WindowId) -> (win: Window)
        requires
            old(self)@.windows.contains_key(win_id),
        ensures
            win@ == old(self)@.windows[win_id],
            final(self)@ == (RimView { windows: old(self)@.windows.remove(win_id), ..old(self)@ }),
    {
        let win = self.windows.remove(&win_id).unwrap();
        assert(self@.windows =~= old(self)@.windows.remove(win_id));
        win
    }

    /// Puts `win` in the table as window `win_id`.
    fn put_window(&mut self, win_id: WindowId, win: Window)
        ensures
            final(self)@ == (RimView { windows: old(self)@.windows.insert(win_id, win@), ..old(self)@ }),
    {
        self.windows.insert(win_id, win);
        assert(self@.windows =~= old(self)@.windows.insert(win_id, win@));
    }

    /// Gives the focus to window `win_id`.
    pub fn set_focus(&mut self, win_id: WindowId)
        requires
            old(self).wf(),
            old(self)@.windows.contains_key(win_id),
        ensures
            final(self).wf(),
            final(self)@ == set_focus_spec(old(self)@, win_id),
    {
        let mode = self.windows.get(&win_id).unwrap().normal_mode.clone();
        self.emit(Action::SetMode { mode, level: WINDOW_MODE_LEVEL });
        self.mark_for_redraw(win_id);
        let focus = self.focus;
        self.mark_for_redraw(focus);
        self.focus = win_id;
    }

    /// Moves the focus to `adjacent`, the window that the frame finds next
    /// to the focused one in the direction asked; when it finds none, the
    /// focus stays.
    pub fn move_focus(&mut self, adjacent: Option<WindowId>)
        requires
            old(self).wf(),
            adjacent matches Some(win_id) ==> old(self)@.windows.contains_key(win_id),
        ensures
            final(self).wf(),
            final(self)@ == focus_to_spec(old(self)@, adjacent),
    {
        match adjacent {
            Some(win_id) => self.set_focus(win_id),
            None => {},
        }
    }

    /// Moves the focus to `sequent`, the window that the frame finds before
    /// or after the focused one in its order; when it finds none, the focus
    /// stays.
    pub fn shift_focus(&mut self, sequent: Option<WindowId>)
        requires
            old(self).wf(),
            sequent matches Some(win_id) ==> old(self)@.windows.contains_key(win_id),
        ensures
            final(self).wf(),
            final(self)@ == focus_to_spec(old(self)@, sequent),
    {
        match sequent {
            Some(win_id) => self.set_focus(win_id),
            None => {},
        }
    }

    /// Places window `win_id` at `rect`; when that changes its size, its
    /// view is to be given the new size.
    fn relayout_window(&mut self, win_id: WindowId, rect: Rect)
        requires
            old(self)@.windows.contains_key(win_id),
        ensures
            final(self)@ == (RimView {
                windows: old(self)@.windows.insert(win_id, relaid(old(self)@.windows[win_id], rect)),
                actions: if old(self)@.windows[win_id].rect.1 != rect.1 {
                    old(self)@.actions.push(ActionView::ResizeView { win_id, size: rect.1 })
                } else {
                    old(self)@.actions
                },
                ..old(self)@
            }),
    {
        let old_rect = self.windows.get(&win_id).unwrap().rect;
        if old_rect != rect {
            if old_rect.1 != rect.1 {
                self.emit(Action::ResizeView { win_id, size: rect.1 });
            }
            let mut win = self.windows.remove(&win_id).unwrap();
            win.rect = rect;
            win.needs_redraw = true;
            self.windows.insert(win_id, win);
            assert(final(self)@.windows =~= old(self)@.windows.insert(
                win_id,
                relaid(old(self)@.windows[win_id], rect),
            ));
        } else {
            assert(final(self)@.windows =~= old(self)@.windows.insert(
                win_id,
                relaid(old(self)@.windows[win_id], rect),
            ));
        }
    }

    /// Places every window where the frame's `layout` puts it: a window
    /// that moves is to be drawn again, and the view of one whose size
    /// changes is to be given the new size; the frame's borders are to be
    /// drawn again.
    pub fn invalidate_frame(&mut self, layout: &Vec<(WindowId, Rect)>)
        requires
            old(self).wf(),
            layout_fits(layout@, old(self)@.windows.dom()),
        ensures
            final(self).wf(),
            final(self)@ == invalidate_spec(old(self)@, layout@),
    {
        let ghost s0 = self@;
        let n = layout.len();
        for i in 0..n
            invariant
                n == layout@.len(),
                forall|a: int, b: int| 0 <= a < b < layout@.len() ==> layout@[a].0 != layout@[b].0,
                self@ == (RimView {
                    windows: relayout_windows(s0.windows, layout@.take(i as int)),
                    actions: s0.actions + resize_actions(s0.windows, layout@.take(i as int)),
                    ..s0
                }),
        {
            let (win_id, rect) = layout[i];
            let ghost before = layout@.take(i as int);
            let ghost after = layout@.take(i + 1);
            proof {
                assert(after.drop_last() =~= before);
                assert(after.last() == (win_id, rect));
                lemma_layout_map_dom(before, win_id);
                assert(!layout_map(before).contains_key(win_id));
                assert(self@.windows.contains_key(win_id) == s0.windows.contains_key(win_id));
                if s0.windows.contains_key(win_id) {
                    assert(self@.windows[win_id] == s0.windows[win_id]);
                }
                assert(resize_actions(s0.windows, after) == if s0.windows.contains_key(win_id)
                    && s0.windows[win_id].rect.1 != rect.1 {
                    resize_actions(s0.windows, before).push(
                        ActionView::ResizeView { win_id, size: rect.1 },
                    )
                } else {
                    resize_actions(s0.windows, before)
                });
            }
            if self.windows.contains_key(&win_id) {
                self.relayout_window(win_id, rect);
            }
            proof {
                assert(self@.windows =~= relayout_windows(s0.windows, after));
                assert(self@.actions =~= s0.actions + resize_actions(s0.windows, after));
            }
        }
        self.frame_needs_redraw = true;
        proof {
            assert(layout@.take(n as int) =~= layout@);
        }
    }

    /// Opens window `new_win`, which the frame split off the focused one,
    /// and places the windows where the frame's `layout` puts them.
    pub fn split_window(&mut self, new_win: WindowId, layout: &Vec<(WindowId, Rect)>)
        requires
            old(self).wf(),
            layout_fits(layout@, old(self)@.windows.dom().insert(new_win)),
        ensures
            final(self).wf(),
            final(self)@ == split_spec(old(self)@, new_win, layout@),
    {
        self.windows.insert(new_win, Window::new());
        assert(self@.windows =~= old(self)@.windows.insert(new_win, new_window_spec()));
        self.invalidate_frame(layout);
    }

    /// After the frame resized the focused window, which took `absorbed`
    /// cells: when that is not none, places the windows where the frame's
    /// `layout` puts them.
    pub fn resize_window(&mut self, absorbed: isize, layout: &Vec<(WindowId, Rect)>)
        requires
            old(self).wf(),
            absorbed != 0 ==> layout_fits(layout@, old(self)@.windows.dom()),
        ensures
            final(self).wf(),
            final(self)@ == resize_spec(old(self)@, absorbed, layout@),
    {
        if absorbed != 0 {
            self.invalidate_frame(layout);
        }
    }

    /// Closes the focused window when the frame found a `neighbour` for it:
    /// the neighbour gets the focus, and the windows are placed where the
    /// frame's `layout` puts them. With no neighbour, nothing changes.
    pub fn close_window(&mut self, neighbour: Option<WindowId>, layout: &Vec<(WindowId, Rect)>)
        requires
            old(self).wf(),
            neighbour matches Some(n) ==> {
                &&& old(self)@.windows.contains_key(n)
                &&& n != old(self).focus
                &&& layout_fits(layout@, old(self)@.windows.dom().remove(old(self).focus))
            },
        ensures
            final(self).wf(),
            final(self)@ == close_spec(old(self)@, neighbour, layout@),
    {
        match neighbour {
            Some(n) => {
                let old_focus = self.focus;
                self.set_focus(n);
                self.windows.remove(&old_focus);
                assert(self@.windows =~= set_focus_spec(old(self)@, n).windows.remove(old_focus));
                self.invalidate_frame(layout);
            },
            None => {},
        }
    }

    /// Where window `win_id` is to be drawn, and whether it is drawn as
    /// the focused one.
    pub fn draw_window(&self, win_id: WindowId) -> (r: (Cell, bool))
        requires
            self@.windows.contains_key(win_id),
        ensures
            r == (self@.windows[win_id].rect.0, self.focus == win_id),
    {
        let win = self.windows.get(&win_id).unwrap();
        let Rect(position, _) = win.rect;
        (position, self.focus == win_id)
    }

    /// What `cmd` asks of the frame.
    pub fn frame_request(&self, cmd: Cmd) -> (r: FrameRequest)
        ensures
            r == frame_request_spec(self.focus, cmd),
    {
        let focus = self.focus;
        match cmd {
            Cmd::MoveFocus(direction) => FrameRequest::AdjacentWindow { from: focus, direction },
            Cmd::ShiftFocus(order) => FrameRequest::SequentWindow { from: focus, order, wrap: true },
            Cmd::ResetLayout => FrameRequest::ResetLayout,
            Cmd::SplitWindow(orientation) => FrameRequest::SplitWindow { win: focus, orientation },
            Cmd::GrowWindow(orientation) => FrameRequest::ResizeWindow {
                win: focus,
                orientation,
                amount: RESIZE_STEP,
            },
            Cmd::ShrinkWindow(orientation) => FrameRequest::ResizeWindow {
                win: focus,
                orientation,
                amount: -RESIZE_STEP,
            },
            Cmd::CloseWindow => FrameRequest::CloseWindow { win: focus },
            Cmd::Quit => FrameRequest::Nothing,
            Cmd::WinCmd(_) => FrameRequest::Nothing,
        }
    }

    /// Carries out `cmd` with the frame's `reply` to what it asked, then
    /// acknowledges the command.
    pub fn handle_cmd(&mut self, cmd: Cmd, reply: &FrameReply)
        requires
            old(self).wf(),
            reply_fits(old(self)@, cmd, *reply),
        ensures
            final(self).wf(),
            final(self)@ == handle_cmd_spec(old(self)@, cmd, *reply),
    {
        match cmd {
            Cmd::MoveFocus(_) => match reply {
                FrameReply::Window(target) => self.move_focus(*target),
                _ => {},
            },
            Cmd::ShiftFocus(_) => match reply {
                FrameReply::Window(target) => self.shift_focus(*target),
                _ => {},
            },
            Cmd::ResetLayout => match reply {
                FrameReply::Layout(layout) => self.invalidate_frame(layout),
                _ => {},
            },
            Cmd::SplitWindow(_) => match reply {
                FrameReply::Split { new_win, layout } => self.split_window(*new_win, layout),
                _ => {},
            },
            Cmd::GrowWindow(_) | Cmd::ShrinkWindow(_) => match reply {
                FrameReply::Resized { absorbed, layout } => self.resize_window(*absorbed, layout),
                _ => {},
            },
            Cmd::CloseWindow => match reply {
                FrameReply::Closed { neighbour, layout } => self.close_window(*neighbour, layout),
                _ => {},
            },
            Cmd::Quit => {
                self.quit = true;
            },
            Cmd::WinCmd(c) => {
                let focus = self.focus;
                let mut win = self.take_window(focus);
                self.handle_win_cmd(c, &mut win);
                self.put_window(focus, win);
                assert(self@.windows =~= old(self)@.windows.insert(
                    focus,
                    win_cmd_window(c, old(self)@.windows[focus]),
                ));
            },
        }
        self.emit(Action::AckCmd);
    }

    /// Carries out window command `cmd` on `win`, the focused window, taken
    /// out of the table meanwhile.
    pub fn handle_win_cmd(&mut self, cmd: WinCmd, win: &mut Window)
        ensures
            final(self)@ == emitted(old(self)@, win_cmd_action(old(self).focus, cmd, old(win)@)),
            final(win)@ == win_cmd_window(cmd, old(win)@),
    {
        match cmd {
            WinCmd::MoveCaret(movement) => {
                self.emit(Action::MoveCaret { win_id: self.focus, movement });
                win.needs_redraw = true;
            },
            WinCmd::EnterNormalMode => {
                self.emit(Action::SetMode { mode: win.normal_mode.clone(), level: WINDOW_MODE_LEVEL });
            },
            WinCmd::EnterInsertMode => {
                self.emit(Action::SetMode { mode: win.insert_mode.clone(), level: WINDOW_MODE_LEVEL });
            },
        }
    }

    /// Hands over the actions asked so far, oldest first.
    pub fn take_actions(&mut self) -> (r: Vec<Action>)
        ensures
            r@.map_values(|a: Action| a@) == old(self)@.actions,
            final(self)@ == (RimView { actions: Seq::empty(), ..old(self)@ }),
    {
        let mut taken: Vec<Action> = Vec::new();
        std::mem::swap(&mut taken, &mut self.actions);
        assert(self@.actions =~= Seq::<ActionView>::empty());
        taken
    }

    /// The windows of the table, each once.
    pub fn window_ids(&self) -> (ids: Vec<WindowId>)
        ensures
            ids@.to_set() == self@.windows.dom(),
            ids@.no_duplicates(),
    {
        let mut ids: Vec<WindowId> = Vec::new();
        let ghost keys = vstd::std_specs::iter::IteratorSpec::remaining(&vstd::std_specs::hash::spec_keys_iter(&self.windows));
        for k in it: self.windows.keys()
            invariant
                it.seq() == keys,
                ids@ == keys.take(it.index()).unref(),
        {
            ids.push(*k);
            assert(ids@ =~= keys.take(it.index() + 1).unref());
        }
        assert(ids@ =~= keys.unref());
        ids
    }

    /// The screen changed size: the windows are placed where the frame's
    /// `layout` for the new size puts them, and every window is to be drawn
    /// again.
    pub fn screen_resized(&mut self, layout: &Vec<(WindowId, Rect)>)
        requires
            old(self).wf(),
            layout_fits(layout@, old(self)@.windows.dom()),
        ensures
            final(self).wf(),
            final(self)@ == all_redrawn(invalidate_spec(old(self)@, layout@)),
    {
        self.invalidate_frame(layout);
        let ghost s0 = self@;
        let ids = self.window_ids();
        let n = ids.len();
        for i in 0..n
            invariant
                n == ids@.len(),
                ids@.no_duplicates(),
                ids@.to_set() == s0.windows.dom(),
                self@ == (RimView {
                    windows: s0.windows.map_entries(
                        |k: WindowId, w: WindowView|
                            if ids@.take(i as int).contains(k) { redrawn(w) } else { w },
                    ),
                    ..s0
                }),
        {
            let id = ids[i];
            proof {
                assert(ids@.to_set().contains(id));
                assert(!ids@.take(i as int).contains(id));
                lemma_take_one_more(ids@, i as int);
            }
            self.mark_for_redraw(id);
            assert(self@.windows =~= s0.windows.map_entries(
                |k: WindowId, w: WindowView|
                    if ids@.take(i + 1).contains(k) { redrawn(w) } else { w },
            ));
        }
        proof {
            assert(ids@.take(n as int) =~= ids@);
            assert forall|k: WindowId| s0.windows.contains_key(k) implies ids@.contains(k) by {
                assert(ids@.to_set().contains(k));
            }
            assert(self@.windows =~= s0.windows.map_values(|w: WindowView| redrawn(w)));
        }
    }

    /// What to draw in this round, which is then taken as drawn: the
    /// frame's borders when they are due, the windows due to be drawn, and
    /// whether anything at all is drawn.
    pub fn take_redraw(&mut self) -> (r: Redraw)
        requires
            old(self).wf(),
        ensures
            final(self).wf(),
            final(self)@ == all_drawn(old(self)@),
            r.borders == old(self).frame_needs_redraw,
            r.windows@.no_duplicates(),
            forall|id: WindowId| #[trigger] r.windows@.contains(id)
                <==> (old(self)@.windows.contains_key(id) && old(self)@.windows[id].needs_redraw),
            r.flush == (r.borders || r.windows@.len() > 0),
    {
        let ghost s0 = self@;
        let borders = self.frame_needs_redraw;
        self.frame_needs_redraw = false;
        let ids = self.window_ids();
        let n = ids.len();
        let mut windows: Vec<WindowId> = Vec::new();
        for i in 0..n
            invariant
                n == ids@.len(),
                ids@.no_duplicates(),
                ids@.to_set() == s0.windows.dom(),
                windows@.no_duplicates(),
                forall|id: WindowId| #[trigger] windows@.contains(id)
                    <==> (ids@.take(i as int).contains(id) && s0.windows[id].needs_redraw),
                self@ == (RimView {
                    windows: s0.windows.map_entries(
                        |k: WindowId, w: WindowView|
                            if ids@.take(i as int).contains(k) { drawn(w) } else { w },
                    ),
                    frame_needs_redraw: false,
                    ..s0
                }),
        {
            let id = ids[i];
            proof {
                assert(ids@.to_set().contains(id));
                assert(!ids@.take(i as int).contains(id));
                lemma_take_one_more(ids@, i as int);
            }
            let mut win = self.take_window(id);
            let ghost before = windows@;
            proof {
                lemma_push_contains(before, id);
            }
            if win.needs_redraw {
                windows.push(id);
            }
            win.needs_redraw = false;
            self.put_window(id, win);
            assert(self@.windows =~= s0.windows.map_entries(
                |k: WindowId, w: WindowView|
                    if ids@.take(i + 1).contains(k) { drawn(w) } else { w },
            ));
        }
        proof {
            assert(ids@.take(n as int) =~= ids@);
            assert forall|k: WindowId| s0.windows.contains_key(k) implies ids@.contains(k) by {
                assert(ids@.to_set().contains(k));
            }
            assert(self@.windows =~= s0.windows.map_values(|w: WindowView| drawn(w)));
        }
        let flush = borders || windows.len() > 0;
        Redraw { borders, windows, flush }
    }
}

} // verus!
