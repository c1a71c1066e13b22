# rim core

The window-management core of a small terminal text editor, verified with
Verus.

- `keymap`: keys, modifier bits, and the keychain that maps sequences of key
  presses to commands (a later binding of a sequence replaces an earlier one).
- `command`: the commands, and modes (a keychain plus a fallback for keys that
  no binding starts with).
- `modes`: the editor-wide mode and a window's normal and insert modes.
- `frame`, `screen`, `view`: the small value types these speak of: window
  identifiers, directions, orientations, screen cells, sizes, rectangles,
  caret movements.
- `editor`: the window table, the focus, what has to be redrawn, and how each
  command changes them. The tiling of the screen (the frame), the command
  thread, the views and the terminal are outside the library: a command first
  asks the frame what it needs (`Rim::frame_request`), the frame's answer is
  handed to `Rim::handle_cmd`, and the work the editor asks of the parts around
  it is queued as `Action`s, taken with `Rim::take_actions`.
- `laws`: properties that span several operations, proved over the models.

Every operation's contract states the editor's new state, as a `RimView`, as a
spec function of the old state and its arguments.
