use vstd::prelude::*;
use crate::frame::{Direction, Orientation, WindowOrder};
use crate::keymap::{Key, KeySym, Keychain};
use crate::view::CaretMovement;

verus! {

/// A command for the editor as a whole.
#[derive(Clone, Copy, PartialEq, Eq, Structural, Debug)]
pub enum Cmd {
    MoveFocus(Direction),
    ShiftFocus(WindowOrder),
    ResetLayout,
    SplitWindow(Orientation),
    GrowWindow(Orientation),
    ShrinkWindow(Orientation),
    CloseWindow,
    Quit,
    WinCmd(WinCmd),
}

/// A command for the window that has the focus.
#[derive(Clone, Copy, PartialEq, Eq, Structural, Debug)]
pub enum WinCmd {
    MoveCaret(CaretMovement),
    EnterNormalMode,
    EnterInsertMode,
}

/// What a mode does with a key that none of its bindings starts with.
#[derive(Clone, Copy, PartialEq, Eq, Structural, Debug)]
pub enum Fallback {
    /// The key is not a command.
    Ignore,
    /// An arrow key moves the focus to the window in its direction.
    ArrowsMoveFocus,
}

/// The command that the insert mode's fallback gives a key.
pub open spec fn arrows_move_focus(key: Key) -> Option<Cmd> {
    match key {
        Key::Sym { sym: KeySym::Left, .. } => Some(Cmd::MoveFocus(Direction::Left)),
        Key::Sym { sym: KeySym::Right, .. } => Some(Cmd::MoveFocus(Direction::Right)),
        Key::Sym { sym: KeySym::Up, .. } => Some(Cmd::MoveFocus(Direction::Up)),
        Key::Sym { sym: KeySym::Down, .. } => Some(Cmd::MoveFocus(Direction::Down)),
        _ => None,
    }
}

/// The command that a fallback gives a key.
pub open spec fn fallback_cmd_spec(fallback: Fallback, key: Key) -> Option<Cmd> {
    match fallback {
        Fallback::Ignore => None,
        Fallback::ArrowsMoveFocus => arrows_move_focus(key),
    }
}

/// The insert mode's fallback: an arrow key, whatever the modifiers, moves
/// the focus in its direction; any other key is no command.
pub fn insert_mode_fallback(key: Key) -> (r: Option<Cmd>)
    ensures
        r == arrows_move_focus(key),
{
    let direction = match key {
        Key::Sym { sym: KeySym::Left, mods: _ } => Some(Direction::Left),
        Key::Sym { sym: KeySym::Right, mods: _ } => Some(Direction::Right),
        Key::Sym { sym: KeySym::Up, mods: _ } => Some(Direction::Up),
        Key::Sym { sym: KeySym::Down, mods: _ } => Some(Direction::Down),
        _ => None,
    };
    match direction {
        Some(d) => Some(Cmd::MoveFocus(d)),
        None => None,
    }
}

/// A mode as a value: its bindings and its fallback.
#[verifier::ext_equal]
pub struct ModeView {
    pub keychain: Map<Seq<Key>, Cmd>,
    pub fallback: Fallback,
}

/// A mode of input: how keys are turned into commands.
pub struct Mode {
    pub keychain: Keychain,
    pub fallback: Fallback,
}

impl View for Mode {
    type V = ModeView;

    open spec fn view(&self) -> ModeView {
        ModeView { keychain: self.keychain@, fallback: self.fallback }
    }
}

impl Mode {
    /// A mode with no binding, which ignores every key.
    pub fn new() -> (r: Mode)
        ensures
            r@ == (ModeView { keychain: Map::empty(), fallback: Fallback::Ignore }),
    {
        Mode { keychain: Keychain::new(), fallback: Fallback::Ignore }
    }

    /// A mode with the same bindings and fallback.
    pub fn clone(&self) -> (r: Mode)
        ensures
            r@ == self@,
    {
        Mode { keychain: self.keychain.clone(), fallback: self.fallback }
    }

    /// The command that this mode's fallback gives `key`.
    pub fn fallback_cmd(&self, key: Key) -> (r: Option<Cmd>)
        ensures
            r == fallback_cmd_spec(self.fallback, key),
    {
        match self.fallback {
            Fallback::Ignore => None,
            Fallback::ArrowsMoveFocus => insert_mode_fallback(key),
        }
    }
}

} // verus!
