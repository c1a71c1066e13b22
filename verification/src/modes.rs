use vstd::prelude::*;
use crate::command::{Cmd, Fallback, Mode, ModeView, WinCmd};
use crate::frame::{Direction, Orientation, WindowOrder};
use crate::keymap::{Key, KeySym, Keychain, MOD_CTRL, MOD_NONE};
use crate::view::CaretMovement;

verus! {

/// The character `c` typed with the modifiers `mods`.
pub open spec fn char_key(c: char, mods: u8) -> Key {
    Key::Unicode { codepoint: c, mods }
}

/// The symbolic key `sym` pressed with no modifier.
pub open spec fn sym_key(sym: KeySym) -> Key {
    Key::Sym { sym, mods: MOD_NONE }
}

/// Control-w followed by the plain character `c`: the window prefix.
pub open spec fn window_keys(c: char) -> Seq<Key> {
    seq![char_key('w', MOD_CTRL), char_key(c, MOD_NONE)]
}

/// The bindings of the editor-wide mode.
pub open spec fn default_mode_spec() -> ModeView {
    ModeView {
        keychain: Map::<Seq<Key>, Cmd>::empty()
            .insert(window_keys('h'), Cmd::MoveFocus(Direction::Left))
            .insert(window_keys('l'), Cmd::MoveFocus(Direction::Right))
            .insert(window_keys('k'), Cmd::MoveFocus(Direction::Up))
            .insert(window_keys('j'), Cmd::MoveFocus(Direction::Down))
            .insert(window_keys('v'), Cmd::SplitWindow(Orientation::Vertical))
            .insert(window_keys('s'), Cmd::SplitWindow(Orientation::Horizontal))
            .insert(window_keys('c'), Cmd::CloseWindow)
            .insert(window_keys('='), Cmd::ResetLayout)
            .insert(seq![char_key('y', MOD_NONE)], Cmd::GrowWindow(Orientation::Horizontal))
            .insert(seq![char_key('y', MOD_CTRL)], Cmd::ShrinkWindow(Orientation::Horizontal))
            .insert(seq![char_key('u', MOD_NONE)], Cmd::GrowWindow(Orientation::Vertical))
            .insert(seq![char_key('u', MOD_CTRL)], Cmd::ShrinkWindow(Orientation::Vertical))
            .insert(seq![char_key('n', MOD_NONE)], Cmd::ShiftFocus(WindowOrder::NextWindow))
            .insert(seq![char_key('N', MOD_NONE)], Cmd::ShiftFocus(WindowOrder::PreviousWindow))
            .insert(seq![char_key('q', MOD_NONE)], Cmd::Quit),
        fallback: Fallback::Ignore,
    }
}

/// The command that moves the caret of the focused window.
pub open spec fn caret(movement: CaretMovement) -> Cmd {
    Cmd::WinCmd(WinCmd::MoveCaret(movement))
}

/// The bindings of a window's normal mode.
pub open spec fn default_normal_mode_spec() -> ModeView {
    ModeView {
        keychain: Map::<Seq<Key>, Cmd>::empty()
            .insert(seq![sym_key(KeySym::Left)], caret(CaretMovement::CharPrev))
            .insert(seq![sym_key(KeySym::Right)], caret(CaretMovement::CharNext))
            .insert(seq![sym_key(KeySym::Up)], caret(CaretMovement::LineUp))
            .insert(seq![sym_key(KeySym::Down)], caret(CaretMovement::LineDown))
            .insert(seq![char_key('h', MOD_NONE)], caret(CaretMovement::CharPrev))
            .insert(seq![char_key('l', MOD_NONE)], caret(CaretMovement::CharNext))
            .insert(seq![char_key('k', MOD_NONE)], caret(CaretMovement::LineUp))
            .insert(seq![char_key('j', MOD_NONE)], caret(CaretMovement::LineDown))
            .insert(seq![char_key('i', MOD_NONE)], Cmd::WinCmd(WinCmd::EnterInsertMode)),
        fallback: Fallback::Ignore,
    }
}

/// The bindings of a window's insert mode.
pub open spec fn default_insert_mode_spec() -> ModeView {
    ModeView {
        keychain: Map::<Seq<Key>, Cmd>::empty()
            .insert(seq![sym_key(KeySym::Escape)], Cmd::WinCmd(WinCmd::EnterNormalMode)),
        fallback: Fallback::ArrowsMoveFocus,
    }
}

/// Binds the single key `a` to `cmd`.
fn bind_one(keychain: &mut Keychain, a: Key, cmd: Cmd)
    ensures
        final(keychain)@ == old(keychain)@.insert(seq![a], cmd),
{
    let keys: &[Key] = &[a];
    assert(keys@ =~= seq![a]);
    keychain.bind(keys, cmd);
}

/// Binds the key `a` followed by the key `b` to `cmd`.
fn bind_two(keychain: &mut Keychain, a: Key, b: Key, cmd: Cmd)
    ensures
        final(keychain)@ == old(keychain)@.insert(seq![a, b], cmd),
{
    let keys: &[Key] = &[a, b];
    assert(keys@ =~= seq![a, b]);
    keychain.bind(keys, cmd);
}

/// The editor-wide mode: control-w and h, l, k, j move the focus, v and s
/// split the window, c closes it and = resets the layout; y and u grow the
/// window, with control they shrink it; n and N step through the windows;
/// q quits.
pub fn default_mode() -> (mode: Mode)
    ensures
        mode@ == default_mode_spec(),
{
    let mut mode = Mode::new();
    bind_two(
        &mut mode.keychain,
        Key::Unicode { codepoint: 'w', mods: MOD_CTRL },
        Key::Unicode { codepoint: 'h', mods: MOD_NONE },
        Cmd::MoveFocus(Direction::Left),
    );
    bind_two(
        &mut mode.keychain,
        Key::Unicode { codepoint: 'w', mods: MOD_CTRL },
        Key::Unicode { codepoint: 'l', mods: MOD_NONE },
        Cmd::MoveFocus(Direction::Right),
    );
    bind_two(
        &mut mode.keychain,
        Key::Unicode { codepoint: 'w', mods: MOD_CTRL },
        Key::Unicode { codepoint: 'k', mods: MOD_NONE },
        Cmd::MoveFocus(Direction::Up),
    );
    bind_two(
        &mut mode.keychain,
        Key::Unicode { codepoint: 'w', mods: MOD_CTRL },
        Key::Unicode { codepoint: 'j', mods: MOD_NONE },
        Cmd::MoveFocus(Direction::Down),
    );
    bind_two(
        &mut mode.keychain,
        Key::Unicode { codepoint: 'w', mods: MOD_CTRL },
        Key::Unicode { codepoint: 'v', mods: MOD_NONE },
        Cmd::SplitWindow(Orientation::Vertical),
    );
    bind_two(
        &mut mode.keychain,
        Key::Unicode { codepoint: 'w', mods: MOD_CTRL },
        Key::Unicode { codepoint: 's', mods: MOD_NONE },
        Cmd::SplitWindow(Orientation::Horizontal),
    );
    bind_two(
        &mut mode.keychain,
        Key::Unicode { codepoint: 'w', mods: MOD_CTRL },
        Key::Unicode { codepoint: 'c', mods: MOD_NONE },
        Cmd::CloseWindow,
    );
    bind_two(
        &mut mode.keychain,
        Key::Unicode { codepoint: 'w', mods: MOD_CTRL },
        Key::Unicode { codepoint: '=', mods: MOD_NONE },
        Cmd::ResetLayout,
    );
    bind_one(
        &mut mode.keychain,
        Key::Unicode { codepoint: 'y', mods: MOD_NONE },
        Cmd::GrowWindow(Orientation::Horizontal),
    );
    bind_one(
        &mut mode.keychain,
        Key::Unicode { codepoint: 'y', mods: MOD_CTRL },
        Cmd::ShrinkWindow(Orientation::Horizontal),
    );
    bind_one(
        &mut mode.keychain,
        Key::Unicode { codepoint: 'u', mods: MOD_NONE },
        Cmd::GrowWindow(Orientation::Vertical),
    );
    bind_one(
        &mut mode.keychain,
        Key::Unicode { codepoint: 'u', mods: MOD_CTRL },
        Cmd::ShrinkWindow(Orientation::Vertical),
    );
    bind_one(
        &mut mode.keychain,
        Key::Unicode { codepoint: 'n', mods: MOD_NONE },
        Cmd::ShiftFocus(WindowOrder::NextWindow),
    );
    bind_one(
        &mut mode.keychain,
        Key::Unicode { codepoint: 'N', mods: MOD_NONE },
        Cmd::ShiftFocus(WindowOrder::PreviousWindow),
    );
    bind_one(&mut mode.keychain, Key::Unicode { codepoint: 'q', mods: MOD_NONE }, Cmd::Quit);
    mode
}

/// A window's normal mode: the arrow keys and h, l, k, j move the caret,
/// and i enters the insert mode.
pub fn default_normal_mode() -> (mode: Mode)
    ensures
        mode@ == default_normal_mode_spec(),
{
    let mut mode = Mode::new();
    bind_one(
        &mut mode.keychain,
        Key::Sym { sym: KeySym::Left, mods: MOD_NONE },
        Cmd::WinCmd(WinCmd::MoveCaret(CaretMovement::CharPrev)),
    );
    bind_one(
        &mut mode.keychain,
        Key::Sym { sym: KeySym::Right, mods: MOD_NONE },
        Cmd::WinCmd(WinCmd::MoveCaret(CaretMovement::CharNext)),
    );
    bind_one(
        &mut mode.keychain,
        Key::Sym { sym: KeySym::Up, mods: MOD_NONE },
        Cmd::WinCmd(WinCmd::MoveCaret(CaretMovement::LineUp)),
    );
    bind_one(
        &mut mode.keychain,
        Key::Sym { sym: KeySym::Down, mods: MOD_NONE },
        Cmd::WinCmd(WinCmd::MoveCaret(CaretMovement::LineDown)),
    );
    bind_one(
        &mut mode.keychain,
        Key::Unicode { codepoint: 'h', mods: MOD_NONE },
        Cmd::WinCmd(WinCmd::MoveCaret(CaretMovement::CharPrev)),
    );
    bind_one(
        &mut mode.keychain,
        Key::Unicode { codepoint: 'l', mods: MOD_NONE },
        Cmd::WinCmd(WinCmd::MoveCaret(CaretMovement::CharNext)),
    );
    bind_one(
        &mut mode.keychain,
        Key::Unicode { codepoint: 'k', mods: MOD_NONE },
        Cmd::WinCmd(WinCmd::MoveCaret(CaretMovement::LineUp)),
    );
    bind_one(
        &mut mode.keychain,
        Key::Unicode { codepoint: 'j', mods: MOD_NONE },
        Cmd::WinCmd(WinCmd::MoveCaret(CaretMovement::LineDown)),
    );
    bind_one(
        &mut mode.keychain,
        Key::Unicode { codepoint: 'i', mods: MOD_NONE },
        Cmd::WinCmd(WinCmd::EnterInsertMode),
    );
    mode
}

/// A window's insert mode: escape returns to the normal mode, and an arrow
/// key, whatever the modifiers, moves the focus in its direction.
pub fn default_insert_mode() -> (mode: Mode)
    ensures
        mode@ == default_insert_mode_spec(),
{
    let mut mode = Mode::new();
    bind_one(
        &mut mode.keychain,
        Key::Sym { sym: KeySym::Escape, mods: MOD_NONE },
        Cmd::WinCmd(WinCmd::EnterNormalMode),
    );
    mode.fallback = Fallback::ArrowsMoveFocus;
    mode
}

} // verus!
