//! The key bindings: which command a key stands for.

use vstd::prelude::*;
use crate::editor::{Command, Direction, Editor, EditorModel, Effect, effect_of};

verus! {

/// A key, as far as the bindings tell keys apart.
#[derive(Clone, Copy, Debug, PartialEq, Eq)]
pub enum Key {
    Char(char),
    Up,
    Down,
    Left,
    Right,
    Enter,
    Other,
}

/// One key event: the key, whether shift was held, and whether the key went
/// down (as opposed to being released or repeated).
#[derive(Clone, Copy, Debug, PartialEq, Eq)]
pub struct KeyEvent {
    pub key: Key,
    pub shift: bool,
    pub pressed: bool,
}

/// The drawing step of a key held with shift: an arrow key draws in its
/// direction, `d` begins a gesture in place.
pub open spec fn draw_step(key: Key) -> Option<Option<Direction>> {
    match key {
        Key::Up => Some(Some(Direction::Up)),
        Key::Down => Some(Some(Direction::Down)),
        Key::Left => Some(Some(Direction::Left)),
        Key::Right => Some(Some(Direction::Right)),
        Key::Char(c) if c == 'd' || c == 'D' => Some(None),
        _ => None,
    }
}

/// The command bound to a key outside the shifted drawing keys.
pub open spec fn plain_command(key: Key) -> Option<Command> {
    match key {
        Key::Char(c) => if c == 'w' || c == 'W' {
            Some(Command::Move(Direction::Up))
        } else if c == 's' || c == 'S' {
            Some(Command::Move(Direction::Down))
        } else if c == 'a' || c == 'A' {
            Some(Command::Move(Direction::Left))
        } else if c == 'd' || c == 'D' {
            Some(Command::Move(Direction::Right))
        } else {
            None
        },
        Key::Enter => Some(Command::Confirm),
        _ => None,
    }
}

/// The command of a key event. Only a press counts. Quit, undo and clear
/// are looked for first, then the shifted drawing keys, then the rest; a
/// key with no binding gives `None`.
pub open spec fn decoded(event: KeyEvent) -> Option<Command> {
    if !event.pressed {
        None
    } else if event.key == Key::Char('q') {
        Some(Command::Quit)
    } else if event.key == Key::Char('z') || event.key == Key::Char('Z') {
        Some(Command::UndoLast)
    } else if event.key == Key::Char('c') || event.key == Key::Char('C') {
        Some(Command::ClearAll)
    } else if event.shift && draw_step(event.key) is Some {
        Some(Command::BeginDraw(draw_step(event.key)->Some_0))
    } else {
        plain_command(event.key)
    }
}

/// The state after a key event: the bound command applied, or nothing.
pub open spec fn after_key(s: EditorModel, event: KeyEvent) -> EditorModel {
    match decoded(event) {
        Some(cmd) => s.step(cmd),
        None => s,
    }
}

/// Decodes a key event into the command bound to it.
pub fn decode(event: KeyEvent) -> (cmd: Option<Command>)
    ensures
        cmd == decoded(event),
{
    if !event.pressed {
        return None;
    }
    match event.key {
        Key::Char(c) => {
            if c == 'q' {
                Some(Command::Quit)
            } else if c == 'z' || c == 'Z' {
                Some(Command::UndoLast)
            } else if c == 'c' || c == 'C' {
                Some(Command::ClearAll)
            } else if c == 'd' || c == 'D' {
                if event.shift {
                    Some(Command::BeginDraw(None))
                } else {
                    Some(Command::Move(Direction::Right))
                }
            } else if c == 'w' || c == 'W' {
                Some(Command::Move(Direction::Up))
            } else if c == 's' || c == 'S' {
                Some(Command::Move(Direction::Down))
            } else if c == 'a' || c == 'A' {
                Some(Command::Move(Direction::Left))
            } else {
                None
            }
        },
        Key::Up => if event.shift {
            Some(Command::BeginDraw(Some(Direction::Up)))
        } else {
            None
        },
        Key::Down => if event.shift {
            Some(Command::BeginDraw(Some(Direction::Down)))
        } else {
            None
        },
        Key::Left => if event.shift {
            Some(Command::BeginDraw(Some(Direction::Left)))
        } else {
            None
        },
        Key::Right => if event.shift {
            Some(Command::BeginDraw(Some(Direction::Right)))
        } else {
            None
        },
        Key::Enter => Some(Command::Confirm),
        Key::Other => None,
    }
}

/// Applies a key event to the editor: the bound command if there is one,
/// nothing otherwise.
pub fn on_key(editor: &mut Editor, event: KeyEvent) -> (effect: Effect)
    requires
        old(editor)@.wf(),
    ensures
        final(editor)@ == after_key(old(editor)@, event),
        final(editor)@.wf(),
        effect == (match decoded(event) {
            Some(cmd) => effect_of(cmd),
            None => Effect::Continue,
        }),
{
    match decode(event) {
        Some(cmd) => editor.apply(cmd),
        None => Effect::Continue,
    }
}

} // verus!
