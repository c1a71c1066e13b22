use lib::command::{Cmd, Fallback, Mode, WinCmd, insert_mode_fallback};
use lib::editor::{Action, FrameReply, FrameRequest, Rim, Window, EDITOR_MODE_LEVEL, WINDOW_MODE_LEVEL};
use lib::frame::{Direction, Orientation, WindowId, WindowOrder};
use lib::keymap::{Key, KeySym, Keychain, MOD_CTRL, MOD_NONE};
use lib::modes::{default_insert_mode, default_mode, default_normal_mode};
use lib::screen::{Cell, Rect, Size};
use lib::view::CaretMovement;

fn ch(c: char) -> Key {
    Key::Unicode { codepoint: c, mods: MOD_NONE }
}

fn ctrl(c: char) -> Key {
    Key::Unicode { codepoint: c, mods: MOD_CTRL }
}

fn sym(s: KeySym) -> Key {
    Key::Sym { sym: s, mods: MOD_NONE }
}

fn rect(row: usize, col: usize, rows: usize, cols: usize) -> Rect {
    Rect(Cell(row, col), Size(rows, cols))
}

fn level_of(a: &Action) -> Option<usize> {
    match a {
        Action::SetMode { level, .. } => Some(*level),
        _ => None,
    }
}

fn mode_of(a: &Action) -> &Mode {
    match a {
        Action::SetMode { mode, .. } => mode,
        _ => panic!("not a mode"),
    }
}

/// An editor with windows 1 (focused) and 2, side by side, actions taken.
fn two_windows() -> Rim {
    let mut rim = Rim::new(1);
    rim.split_window(2, &vec![(1, rect(0, 0, 24, 40)), (2, rect(0, 41, 24, 39))]);
    rim.take_actions();
    rim
}

#[test]
fn keychain_get_after_bind() {
    let mut kc = Keychain::new();
    assert_eq!(kc.get(&[ch('a')]), None);
    kc.bind(&[ch('a')], Cmd::Quit);
    kc.bind(&[ctrl('w'), ch('c')], Cmd::CloseWindow);
    assert_eq!(kc.get(&[ch('a')]), Some(Cmd::Quit));
    assert_eq!(kc.get(&[ctrl('w'), ch('c')]), Some(Cmd::CloseWindow));
    assert_eq!(kc.get(&[ctrl('w')]), None);
    assert_eq!(kc.get(&[ch('c')]), None);
    assert_eq!(kc.get(&[]), None);
}

#[test]
fn keychain_rebinding_replaces() {
    let mut kc = Keychain::new();
    kc.bind(&[ch('x')], Cmd::Quit);
    kc.bind(&[ch('x')], Cmd::ResetLayout);
    assert_eq!(kc.get(&[ch('x')]), Some(Cmd::ResetLayout));
    let copy = kc.clone();
    assert_eq!(copy.get(&[ch('x')]), Some(Cmd::ResetLayout));
}

#[test]
fn modifiers_tell_keys_apart() {
    let mode = default_mode();
    assert_eq!(mode.keychain.get(&[ch('y')]), Some(Cmd::GrowWindow(Orientation::Horizontal)));
    assert_eq!(mode.keychain.get(&[ctrl('y')]), Some(Cmd::ShrinkWindow(Orientation::Horizontal)));
    assert_eq!(mode.keychain.get(&[ch('u')]), Some(Cmd::GrowWindow(Orientation::Vertical)));
    assert_eq!(mode.keychain.get(&[ctrl('u')]), Some(Cmd::ShrinkWindow(Orientation::Vertical)));
}

#[test]
fn default_mode_bindings() {
    let mode = default_mode();
    let kc = &mode.keychain;
    assert_eq!(kc.get(&[ctrl('w'), ch('h')]), Some(Cmd::MoveFocus(Direction::Left)));
    assert_eq!(kc.get(&[ctrl('w'), ch('l')]), Some(Cmd::MoveFocus(Direction::Right)));
    assert_eq!(kc.get(&[ctrl('w'), ch('k')]), Some(Cmd::MoveFocus(Direction::Up)));
    assert_eq!(kc.get(&[ctrl('w'), ch('j')]), Some(Cmd::MoveFocus(Direction::Down)));
    assert_eq!(kc.get(&[ctrl('w'), ch('v')]), Some(Cmd::SplitWindow(Orientation::Vertical)));
    assert_eq!(kc.get(&[ctrl('w'), ch('s')]), Some(Cmd::SplitWindow(Orientation::Horizontal)));
    assert_eq!(kc.get(&[ctrl('w'), ch('c')]), Some(Cmd::CloseWindow));
    assert_eq!(kc.get(&[ctrl('w'), ch('=')]), Some(Cmd::ResetLayout));
    assert_eq!(kc.get(&[ch('n')]), Some(Cmd::ShiftFocus(WindowOrder::NextWindow)));
    assert_eq!(kc.get(&[ch('N')]), Some(Cmd::ShiftFocus(WindowOrder::PreviousWindow)));
    assert_eq!(kc.get(&[ch('q')]), Some(Cmd::Quit));
    assert_eq!(kc.get(&[ch('h')]), None);
    assert_eq!(mode.fallback, Fallback::Ignore);
    assert_eq!(mode.fallback_cmd(sym(KeySym::Left)), None);
}

#[test]
fn normal_mode_bindings() {
    let mode = default_normal_mode();
    let kc = &mode.keychain;
    let caret = |m| Some(Cmd::WinCmd(WinCmd::MoveCaret(m)));
    assert_eq!(kc.get(&[sym(KeySym::Left)]), caret(CaretMovement::CharPrev));
    assert_eq!(kc.get(&[sym(KeySym::Right)]), caret(CaretMovement::CharNext));
    assert_eq!(kc.get(&[sym(KeySym::Up)]), caret(CaretMovement::LineUp));
    assert_eq!(kc.get(&[sym(KeySym::Down)]), caret(CaretMovement::LineDown));
    assert_eq!(kc.get(&[ch('h')]), caret(CaretMovement::CharPrev));
    assert_eq!(kc.get(&[ch('l')]), caret(CaretMovement::CharNext));
    assert_eq!(kc.get(&[ch('k')]), caret(CaretMovement::LineUp));
    assert_eq!(kc.get(&[ch('j')]), caret(CaretMovement::LineDown));
    assert_eq!(kc.get(&[ch('i')]), Some(Cmd::WinCmd(WinCmd::EnterInsertMode)));
    assert_eq!(kc.get(&[sym(KeySym::Escape)]), None);
    assert_eq!(mode.fallback_cmd(ch('x')), None);
}

#[test]
fn insert_mode_bindings_and_fallback() {
    let mode = default_insert_mode();
    assert_eq!(mode.keychain.get(&[sym(KeySym::Escape)]), Some(Cmd::WinCmd(WinCmd::EnterNormalMode)));
    assert_eq!(mode.keychain.get(&[ch('i')]), None);
    assert_eq!(mode.fallback, Fallback::ArrowsMoveFocus);
    assert_eq!(mode.fallback_cmd(sym(KeySym::Left)), Some(Cmd::MoveFocus(Direction::Left)));
    assert_eq!(mode.fallback_cmd(sym(KeySym::Right)), Some(Cmd::MoveFocus(Direction::Right)));
    assert_eq!(mode.fallback_cmd(sym(KeySym::Up)), Some(Cmd::MoveFocus(Direction::Up)));
    assert_eq!(mode.fallback_cmd(sym(KeySym::Down)), Some(Cmd::MoveFocus(Direction::Down)));
    assert_eq!(mode.fallback_cmd(sym(KeySym::Escape)), None);
    assert_eq!(mode.fallback_cmd(ch('a')), None);
    // The modifiers do not matter to the fallback.
    assert_eq!(
        insert_mode_fallback(Key::Sym { sym: KeySym::Up, mods: MOD_CTRL }),
        Some(Cmd::MoveFocus(Direction::Up))
    );
}

#[test]
fn new_window_is_fresh() {
    let w = Window::new();
    assert_eq!(w.rect, rect(0, 0, 0, 0));
    assert!(w.needs_redraw);
    assert_eq!(w.normal_mode.keychain.get(&[ch('i')]), Some(Cmd::WinCmd(WinCmd::EnterInsertMode)));
    assert_eq!(w.insert_mode.fallback, Fallback::ArrowsMoveFocus);
}

#[test]
fn editor_starts_with_one_window() {
    let mut rim = Rim::new(7);
    assert_eq!(rim.focus, 7);
    assert!(rim.frame_needs_redraw);
    assert!(!rim.quit);
    assert_eq!(rim.window_ids(), vec![7]);
    let actions = rim.take_actions();
    assert_eq!(actions.len(), 2);
    assert_eq!(level_of(&actions[0]), Some(EDITOR_MODE_LEVEL));
    assert_eq!(mode_of(&actions[0]).keychain.get(&[ch('q')]), Some(Cmd::Quit));
    assert_eq!(level_of(&actions[1]), Some(WINDOW_MODE_LEVEL));
    assert_eq!(mode_of(&actions[1]).keychain.get(&[ch('i')]), Some(Cmd::WinCmd(WinCmd::EnterInsertMode)));
    assert!(rim.take_actions().is_empty());
}

#[test]
fn set_focus_redraws_both_and_installs_normal_mode() {
    let mut rim = two_windows();
    rim.take_redraw();
    rim.set_focus(2);
    assert_eq!(rim.focus, 2);
    assert!(rim.windows.get(&1).unwrap().needs_redraw);
    assert!(rim.windows.get(&2).unwrap().needs_redraw);
    let actions = rim.take_actions();
    assert_eq!(actions.len(), 1);
    assert_eq!(level_of(&actions[0]), Some(WINDOW_MODE_LEVEL));
    assert_eq!(mode_of(&actions[0]).keychain.get(&[ch('j')]), Some(Cmd::WinCmd(WinCmd::MoveCaret(CaretMovement::LineDown))));
}

#[test]
fn move_focus_without_target_changes_nothing() {
    let mut rim = two_windows();
    rim.take_redraw();
    rim.move_focus(None);
    rim.shift_focus(None);
    assert_eq!(rim.focus, 1);
    assert!(rim.take_actions().is_empty());
    assert!(!rim.windows.get(&2).unwrap().needs_redraw);
    rim.shift_focus(Some(2));
    assert_eq!(rim.focus, 2);
}

#[test]
fn split_places_windows_and_resizes_views() {
    let mut rim = Rim::new(1);
    rim.take_actions();
    rim.frame_needs_redraw = false;
    rim.split_window(2, &vec![(1, rect(0, 0, 24, 40)), (2, rect(0, 41, 24, 39))]);
    assert_eq!(rim.focus, 1);
    assert!(rim.frame_needs_redraw);
    let mut ids = rim.window_ids();
    ids.sort();
    assert_eq!(ids, vec![1, 2]);
    assert_eq!(rim.windows.get(&1).unwrap().rect, rect(0, 0, 24, 40));
    assert_eq!(rim.windows.get(&2).unwrap().rect, rect(0, 41, 24, 39));
    let actions = rim.take_actions();
    assert_eq!(actions.len(), 2);
    assert!(matches!(actions[0], Action::ResizeView { win_id: 1, size: Size(24, 40) }));
    assert!(matches!(actions[1], Action::ResizeView { win_id: 2, size: Size(24, 39) }));
}

#[test]
fn invalidate_moves_without_resizing() {
    let mut rim = two_windows();
    rim.take_redraw();
    // Window 2 moves but keeps its size; window 1 stays.
    let layout = vec![(2, rect(1, 41, 24, 39)), (1, rect(0, 0, 24, 40))];
    rim.invalidate_frame(&layout);
    assert!(rim.take_actions().is_empty());
    assert!(!rim.windows.get(&1).unwrap().needs_redraw);
    assert!(rim.windows.get(&2).unwrap().needs_redraw);
    assert_eq!(rim.windows.get(&2).unwrap().rect, rect(1, 41, 24, 39));
    assert!(rim.frame_needs_redraw);
}

#[test]
fn invalidate_twice_changes_nothing_more() {
    let mut rim = two_windows();
    let layout = vec![(1, rect(0, 0, 12, 80)), (2, rect(13, 0, 11, 80))];
    rim.invalidate_frame(&layout);
    assert_eq!(rim.take_actions().len(), 2);
    rim.take_redraw();
    rim.invalidate_frame(&layout);
    assert!(rim.take_actions().is_empty());
    assert!(!rim.windows.get(&1).unwrap().needs_redraw);
    assert!(!rim.windows.get(&2).unwrap().needs_redraw);
}

#[test]
fn resize_without_absorbed_cells_changes_nothing() {
    let mut rim = two_windows();
    rim.take_redraw();
    rim.resize_window(0, &vec![]);
    assert!(!rim.frame_needs_redraw);
    assert!(rim.take_actions().is_empty());
    rim.resize_window(10, &vec![(1, rect(0, 0, 24, 50)), (2, rect(0, 51, 24, 29))]);
    assert!(rim.frame_needs_redraw);
    assert_eq!(rim.take_actions().len(), 2);
}

#[test]
fn close_window_hands_focus_to_neighbour() {
    let mut rim = two_windows();
    rim.close_window(Some(2), &vec![(2, rect(0, 0, 24, 80))]);
    assert_eq!(rim.focus, 2);
    assert_eq!(rim.window_ids(), vec![2]);
    assert_eq!(rim.windows.get(&2).unwrap().rect, rect(0, 0, 24, 80));
    let actions = rim.take_actions();
    assert_eq!(actions.len(), 2);
    assert_eq!(level_of(&actions[0]), Some(WINDOW_MODE_LEVEL));
    assert!(matches!(actions[1], Action::ResizeView { win_id: 2, size: Size(24, 80) }));
}

#[test]
fn last_window_cannot_be_closed() {
    let mut rim = Rim::new(1);
    rim.take_actions();
    rim.close_window(None, &vec![]);
    assert_eq!(rim.focus, 1);
    assert_eq!(rim.window_ids(), vec![1]);
    assert!(rim.take_actions().is_empty());
}

#[test]
fn draw_window_tells_position_and_focus() {
    let rim = two_windows();
    assert_eq!(rim.draw_window(1), (Cell(0, 0), true));
    assert_eq!(rim.draw_window(2), (Cell(0, 41), false));
}

#[test]
fn frame_requests() {
    let rim = two_windows();
    assert_eq!(
        rim.frame_request(Cmd::MoveFocus(Direction::Up)),
        FrameRequest::AdjacentWindow { from: 1, direction: Direction::Up }
    );
    assert_eq!(
        rim.frame_request(Cmd::ShiftFocus(WindowOrder::PreviousWindow)),
        FrameRequest::SequentWindow { from: 1, order: WindowOrder::PreviousWindow, wrap: true }
    );
    assert_eq!(
        rim.frame_request(Cmd::GrowWindow(Orientation::Vertical)),
        FrameRequest::ResizeWindow { win: 1, orientation: Orientation::Vertical, amount: 10 }
    );
    assert_eq!(
        rim.frame_request(Cmd::ShrinkWindow(Orientation::Horizontal)),
        FrameRequest::ResizeWindow { win: 1, orientation: Orientation::Horizontal, amount: -10 }
    );
    assert_eq!(
        rim.frame_request(Cmd::SplitWindow(Orientation::Horizontal)),
        FrameRequest::SplitWindow { win: 1, orientation: Orientation::Horizontal }
    );
    assert_eq!(rim.frame_request(Cmd::CloseWindow), FrameRequest::CloseWindow { win: 1 });
    assert_eq!(rim.frame_request(Cmd::ResetLayout), FrameRequest::ResetLayout);
    assert_eq!(rim.frame_request(Cmd::Quit), FrameRequest::Nothing);
    assert_eq!(rim.frame_request(Cmd::WinCmd(WinCmd::EnterInsertMode)), FrameRequest::Nothing);
}

#[test]
fn quit_is_acknowledged() {
    let mut rim = two_windows();
    rim.handle_cmd(Cmd::Quit, &FrameReply::Nothing);
    assert!(rim.quit);
    let actions = rim.take_actions();
    assert_eq!(actions.len(), 1);
    assert!(matches!(actions[0], Action::AckCmd));
}

#[test]
fn every_command_is_acknowledged_last() {
    let mut rim = two_windows();
    rim.handle_cmd(Cmd::MoveFocus(Direction::Right), &FrameReply::Window(Some(2)));
    assert_eq!(rim.focus, 2);
    let actions = rim.take_actions();
    assert_eq!(actions.len(), 2);
    assert!(matches!(actions[1], Action::AckCmd));

    rim.handle_cmd(Cmd::ShiftFocus(WindowOrder::NextWindow), &FrameReply::Window(None));
    assert_eq!(rim.focus, 2);
    let actions = rim.take_actions();
    assert_eq!(actions.len(), 1);
    assert!(matches!(actions[0], Action::AckCmd));

    rim.handle_cmd(
        Cmd::ResetLayout,
        &FrameReply::Layout(vec![(1, rect(0, 0, 24, 40)), (2, rect(0, 41, 24, 39))]),
    );
    assert!(matches!(rim.take_actions()[..], [Action::AckCmd]));
}

#[test]
fn split_and_close_through_commands() {
    let mut rim = two_windows();
    rim.handle_cmd(
        Cmd::SplitWindow(Orientation::Horizontal),
        &FrameReply::Split {
            new_win: 3,
            layout: vec![(1, rect(0, 0, 12, 40)), (3, rect(13, 0, 11, 40)), (2, rect(0, 41, 24, 39))],
        },
    );
    assert_eq!(rim.focus, 1);
    let mut ids: Vec<WindowId> = rim.window_ids();
    ids.sort();
    assert_eq!(ids, vec![1, 2, 3]);
    let actions = rim.take_actions();
    assert_eq!(actions.len(), 3);
    assert!(matches!(actions[0], Action::ResizeView { win_id: 1, size: Size(12, 40) }));
    assert!(matches!(actions[1], Action::ResizeView { win_id: 3, size: Size(11, 40) }));
    assert!(matches!(actions[2], Action::AckCmd));

    rim.handle_cmd(
        Cmd::CloseWindow,
        &FrameReply::Closed {
            neighbour: Some(3),
            layout: vec![(3, rect(0, 0, 24, 40)), (2, rect(0, 41, 24, 39))],
        },
    );
    assert_eq!(rim.focus, 3);
    let mut ids: Vec<WindowId> = rim.window_ids();
    ids.sort();
    assert_eq!(ids, vec![2, 3]);

    rim.handle_cmd(
        Cmd::GrowWindow(Orientation::Vertical),
        &FrameReply::Resized { absorbed: 0, layout: vec![] },
    );
    assert_eq!(rim.focus, 3);
}

#[test]
fn window_commands() {
    let mut rim = two_windows();
    rim.take_redraw();
    rim.handle_cmd(Cmd::WinCmd(WinCmd::MoveCaret(CaretMovement::LineUp)), &FrameReply::Nothing);
    assert!(rim.windows.get(&1).unwrap().needs_redraw);
    assert!(!rim.windows.get(&2).unwrap().needs_redraw);
    let actions = rim.take_actions();
    assert_eq!(actions.len(), 2);
    assert!(matches!(actions[0], Action::MoveCaret { win_id: 1, movement: CaretMovement::LineUp }));
    assert!(matches!(actions[1], Action::AckCmd));

    rim.handle_cmd(Cmd::WinCmd(WinCmd::EnterInsertMode), &FrameReply::Nothing);
    let actions = rim.take_actions();
    assert_eq!(actions.len(), 2);
    assert_eq!(level_of(&actions[0]), Some(WINDOW_MODE_LEVEL));
    assert_eq!(mode_of(&actions[0]).fallback, Fallback::ArrowsMoveFocus);

    rim.handle_cmd(Cmd::WinCmd(WinCmd::EnterNormalMode), &FrameReply::Nothing);
    let actions = rim.take_actions();
    assert_eq!(mode_of(&actions[0]).keychain.get(&[ch('i')]), Some(Cmd::WinCmd(WinCmd::EnterInsertMode)));
    assert_eq!(rim.focus, 1);
}

#[test]
fn handle_win_cmd_on_a_taken_window() {
    let mut rim = Rim::new(4);
    rim.take_actions();
    let mut win = Window::new();
    win.needs_redraw = false;
    rim.handle_win_cmd(WinCmd::MoveCaret(CaretMovement::CharNext), &mut win);
    assert!(win.needs_redraw);
    let actions = rim.take_actions();
    assert!(matches!(actions[0], Action::MoveCaret { win_id: 4, movement: CaretMovement::CharNext }));
}

#[test]
fn redraw_rounds() {
    let mut rim = two_windows();
    let first = rim.take_redraw();
    assert!(first.borders);
    assert!(first.flush);
    let mut drawn = first.windows.clone();
    drawn.sort();
    assert_eq!(drawn, vec![1, 2]);
    let second = rim.take_redraw();
    assert!(!second.borders);
    assert!(second.windows.is_empty());
    assert!(!second.flush);
    rim.set_focus(2);
    let third = rim.take_redraw();
    assert!(!third.borders);
    assert!(third.flush);
    let mut drawn = third.windows.clone();
    drawn.sort();
    assert_eq!(drawn, vec![1, 2]);
}

#[test]
fn screen_resize_redraws_everything() {
    let mut rim = two_windows();
    rim.take_redraw();
    let layout = vec![(1, rect(0, 0, 24, 40)), (2, rect(0, 41, 24, 39))];
    rim.screen_resized(&layout);
    assert!(rim.take_actions().is_empty());
    let round = rim.take_redraw();
    assert!(round.borders);
    let mut drawn = round.windows.clone();
    drawn.sort();
    assert_eq!(drawn, vec![1, 2]);
}

#[test]
fn mode_clone_keeps_bindings() {
    let mode = default_insert_mode();
    let copy = mode.clone();
    assert_eq!(copy.fallback, mode.fallback);
    assert_eq!(copy.keychain.get(&[sym(KeySym::Escape)]), Some(Cmd::WinCmd(WinCmd::EnterNormalMode)));
    let empty = Mode::new();
    assert_eq!(empty.keychain.get(&[ch('q')]), None);
    assert_eq!(empty.fallback, Fallback::Ignore);
}
